//! The download state machine. The caller performs each action it hands out
//! (a metadata query, creating the destination file, fetching or writing a
//! chunk, reading the file back) and reports back what happened.
use vstd::prelude::*;
use vstd::slice::*;

use crate::chunk::{chunks_of, lemma_chunks_reassemble};
use crate::code::{is_valid_code, validate};
use crate::digest::{check_spec, lemma_digest_deterministic, sha256_of, verify};
use crate::error::TransferError;

verus! {

/// What the server reports about a share code.
pub struct FileMetadata {
    pub file_name: String,
    pub total_chunks: u64,
    /// Digest of the whole file, when the server has one.
    pub content_hash: Option<Vec<u8>>,
}

/// Where a download stands.
#[derive(Debug, Clone, Copy, PartialEq, Eq, Structural)]
pub enum DownloadPhase {
    /// Waiting for the server's metadata.
    QueryingMetadata,
    /// Waiting for the destination file to be created.
    Creating,
    /// Waiting for chunk `next_chunk` to arrive.
    Fetching,
    /// Waiting for chunk `next_chunk` to be appended to the file.
    Writing,
    /// Waiting for the reassembled file to be read back.
    Verifying,
    /// The file is complete (and matched its digest, if one was given).
    Done,
    /// The download was aborted; the file on disk keeps what was written.
    Failed(TransferError),
}

/// What happened in answer to the last action.
pub enum DownloadEvent {
    /// The server knows the code and described the file.
    Metadata(FileMetadata),
    /// The server does not know the code (a non-success or empty answer).
    MetadataMissing,
    /// The connection to the server failed.
    TransportFailed,
    /// The destination file was created (or truncated).
    Created,
    /// The destination file could not be created.
    CreateFailed,
    /// The requested chunk arrived with a success status.
    ChunkReceived(Vec<u8>),
    /// The server answered the chunk request with a non-success status.
    ChunkRejected,
    /// The pending chunk was appended to the file.
    Written,
    /// The pending chunk could not be appended.
    WriteFailed,
    /// The reassembled file was read back.
    FileRead(Vec<u8>),
    /// The reassembled file could not be read back.
    ReadFailed,
}

/// What the caller has to do next.
pub enum DownloadAction {
    /// Ask the server for the metadata of the share code.
    QueryMetadata,
    /// Create (or truncate) the destination file `file_name`.
    CreateFile,
    /// Fetch this chunk.
    FetchChunk(u64),
    /// Append these bytes to the destination file.
    Append(Vec<u8>),
    /// Read the destination file back for verification.
    ReadBack,
    /// The download is complete.
    Finish,
    /// The download failed.
    Abort(TransferError),
}

/// A file being downloaded, chunk by chunk, in index order.
pub struct Download {
    pub code: String,
    pub file_name: String,
    pub total_chunks: u64,
    pub expected_digest: Option<Vec<u8>>,
    pub next_chunk: u64,
    /// The chunk waiting to be appended, while `Writing`.
    pub pending: Vec<u8>,
    /// The chunks appended to the destination file so far, in order.
    pub written: Ghost<Seq<Seq<u8>>>,
    pub phase: DownloadPhase,
}

/// The phase a download enters once `next` of `total` chunks are written.
pub open spec fn after_write_phase(next: nat, total: nat, digest: Option<Vec<u8>>) -> DownloadPhase {
    if next < total {
        DownloadPhase::Fetching
    } else if digest is Some {
        DownloadPhase::Verifying
    } else {
        DownloadPhase::Done
    }
}

/// The phase a download enters once the file has been read back.
pub open spec fn verified_phase(bytes: Seq<u8>, expected: Seq<u8>) -> DownloadPhase {
    match check_spec(sha256_of(bytes), expected) {
        Ok(()) => DownloadPhase::Done,
        Err(e) => DownloadPhase::Failed(e),
    }
}

/// The bytes the destination file holds.
pub open spec fn file_bytes(d: &Download) -> Seq<u8> {
    d.written@.flatten()
}

/// The download `n` that follows `o` when event `e` is reported. An event
/// that does not answer the action of `o`'s phase changes nothing.
pub open spec fn step_spec(o: Download, e: DownloadEvent, n: Download) -> bool {
    match o.phase {
        DownloadPhase::QueryingMetadata => match e {
            DownloadEvent::Metadata(m) => n == Download {
                file_name: m.file_name,
                total_chunks: m.total_chunks,
                expected_digest: m.content_hash,
                phase: DownloadPhase::Creating,
                ..o
            },
            DownloadEvent::MetadataMissing => n == Download {
                phase: DownloadPhase::Failed(TransferError::NotFound),
                ..o
            },
            DownloadEvent::TransportFailed => n == Download {
                phase: DownloadPhase::Failed(TransferError::TransportError),
                ..o
            },
            _ => n == o,
        },
        DownloadPhase::Creating => match e {
            DownloadEvent::Created => n == Download {
                phase: after_write_phase(0, o.total_chunks as nat, o.expected_digest),
                ..o
            },
            DownloadEvent::CreateFailed => n == Download {
                phase: DownloadPhase::Failed(TransferError::CannotCreate),
                ..o
            },
            _ => n == o,
        },
        DownloadPhase::Fetching => match e {
            DownloadEvent::ChunkReceived(b) => n == Download {
                pending: b,
                phase: DownloadPhase::Writing,
                ..o
            },
            DownloadEvent::ChunkRejected => n == Download {
                phase: DownloadPhase::Failed(TransferError::ChunkFetchError),
                ..o
            },
            DownloadEvent::TransportFailed => n == Download {
                phase: DownloadPhase::Failed(TransferError::TransportError),
                ..o
            },
            _ => n == o,
        },
        DownloadPhase::Writing => match e {
            DownloadEvent::Written => {
                &&& n.pending@.len() == 0
                &&& n == Download {
                    next_chunk: (o.next_chunk + 1) as u64,
                    written: Ghost(o.written@.push(o.pending@)),
                    pending: n.pending,
                    phase: after_write_phase(
                        (o.next_chunk + 1) as nat,
                        o.total_chunks as nat,
                        o.expected_digest,
                    ),
                    ..o
                }
            },
            DownloadEvent::WriteFailed => n == Download {
                phase: DownloadPhase::Failed(TransferError::CannotCreate),
                ..o
            },
            _ => n == o,
        },
        DownloadPhase::Verifying => match e {
            DownloadEvent::FileRead(b) => n == Download {
                phase: verified_phase(b@, o.expected_digest->Some_0@),
                ..o
            },
            DownloadEvent::ReadFailed => n == Download {
                phase: DownloadPhase::Failed(TransferError::Unreadable),
                ..o
            },
            _ => n == o,
        },
        _ => n == o,
    }
}

impl Download {
    pub open spec fn wf(&self) -> bool {
        &&& is_valid_code(self.code@)
        &&& self.next_chunk <= self.total_chunks
        &&& self.written@.len() == self.next_chunk
        &&& (self.phase is QueryingMetadata || self.phase is Creating) ==> self.next_chunk == 0
        &&& (self.phase is Fetching || self.phase is Writing) ==> self.next_chunk < self.total_chunks
        &&& (self.phase is Verifying) ==> self.next_chunk == self.total_chunks
            && self.expected_digest is Some
    }

    /// Starts a download of the file shared under `code`. Fails with
    /// `InvalidFormat`, before any network call, when the code is malformed.
    pub fn new(code: &str) -> (r: Result<Download, TransferError>)
        ensures
            r is Err <==> !is_valid_code(code@),
            r matches Err(e) ==> e == TransferError::InvalidFormat,
            r matches Ok(d) ==> {
                &&& d.wf()
                &&& d.code@ == code@
                &&& d.phase == DownloadPhase::QueryingMetadata
                &&& d.next_chunk == 0
                &&& d.written@ == Seq::<Seq<u8>>::empty()
            },
    {
        match validate(code) {
            Err(e) => Err(e),
            Ok(()) => Ok(
                Download {
                    code: code.to_owned(),
                    file_name: String::new(),
                    total_chunks: 0,
                    expected_digest: None,
                    next_chunk: 0,
                    pending: Vec::new(),
                    written: Ghost(Seq::empty()),
                    phase: DownloadPhase::QueryingMetadata,
                },
            ),
        }
    }

    /// What the caller has to do next.
    pub fn action(&self) -> (r: DownloadAction)
        requires
            self.wf(),
        ensures
            self.phase is QueryingMetadata ==> r is QueryMetadata,
            self.phase is Creating ==> r is CreateFile,
            self.phase is Fetching ==> r == DownloadAction::FetchChunk(self.next_chunk),
            self.phase is Writing ==> (r matches DownloadAction::Append(b) && b@ == self.pending@),
            self.phase is Verifying ==> r is ReadBack,
            self.phase is Done ==> r is Finish,
            self.phase matches DownloadPhase::Failed(e) ==> r == DownloadAction::Abort(e),
    {
        match self.phase {
            DownloadPhase::QueryingMetadata => DownloadAction::QueryMetadata,
            DownloadPhase::Creating => DownloadAction::CreateFile,
            DownloadPhase::Fetching => DownloadAction::FetchChunk(self.next_chunk),
            DownloadPhase::Writing => DownloadAction::Append(slice_to_vec(self.pending.as_slice())),
            DownloadPhase::Verifying => DownloadAction::ReadBack,
            DownloadPhase::Done => DownloadAction::Finish,
            DownloadPhase::Failed(e) => DownloadAction::Abort(e),
        }
    }
    /// Records what happened in answer to the last action, following
    /// `step_spec`: a chunk is only appended after it arrived with a success
    /// status, chunks are appended strictly in index order, and any failure
    /// aborts the download with the chunks written so far left in place.
    pub fn on_event(&mut self, event: DownloadEvent)
        requires
            old(self).wf(),
        ensures
            final(self).wf(),
            step_spec(*old(self), event, *final(self)),
    {
        match self.phase {
            DownloadPhase::QueryingMetadata => match event {
                DownloadEvent::Metadata(m) => {
                    self.file_name = m.file_name;
                    self.total_chunks = m.total_chunks;
                    self.expected_digest = m.content_hash;
                    self.phase = DownloadPhase::Creating;
                },
                DownloadEvent::MetadataMissing => {
                    self.phase = DownloadPhase::Failed(TransferError::NotFound);
                },
                DownloadEvent::TransportFailed => {
                    self.phase = DownloadPhase::Failed(TransferError::TransportError);
                },
                _ => {},
            },
            DownloadPhase::Creating => match event {
                DownloadEvent::Created => {
                    self.phase = self.phase_after_write();
                },
                DownloadEvent::CreateFailed => {
                    self.phase = DownloadPhase::Failed(TransferError::CannotCreate);
                },
                _ => {},
            },
            DownloadPhase::Fetching => match event {
                DownloadEvent::ChunkReceived(b) => {
                    self.pending = b;
                    self.phase = DownloadPhase::Writing;
                },
                DownloadEvent::ChunkRejected => {
                    self.phase = DownloadPhase::Failed(TransferError::ChunkFetchError);
                },
                DownloadEvent::TransportFailed => {
                    self.phase = DownloadPhase::Failed(TransferError::TransportError);
                },
                _ => {},
            },
            DownloadPhase::Writing => match event {
                DownloadEvent::Written => {
                    let ghost appended = self.pending@;
                    self.written = Ghost(self.written@.push(appended));
                    self.pending = Vec::new();
                    self.next_chunk = self.next_chunk + 1;
                    self.phase = self.phase_after_write();
                },
                DownloadEvent::WriteFailed => {
                    self.phase = DownloadPhase::Failed(TransferError::CannotCreate);
                },
                _ => {},
            },
            DownloadPhase::Verifying => match event {
                DownloadEvent::FileRead(b) => {
                    let r = match &self.expected_digest {
                        Some(expected) => verify(b.as_slice(), expected.as_slice()),
                        None => Ok(()),
                    };
                    self.phase = match r {
                        Ok(()) => DownloadPhase::Done,
                        Err(e) => DownloadPhase::Failed(e),
                    };
                },
                DownloadEvent::ReadFailed => {
                    self.phase = DownloadPhase::Failed(TransferError::Unreadable);
                },
                _ => {},
            },
            _ => {},
        }
    }

    /// The phase that follows once `next_chunk` chunks are written.
    fn phase_after_write(&self) -> (r: DownloadPhase)
        ensures
            r == after_write_phase(
                self.next_chunk as nat,
                self.total_chunks as nat,
                self.expected_digest,
            ),
    {
        if self.next_chunk < self.total_chunks {
            DownloadPhase::Fetching
        } else if self.expected_digest.is_some() {
            DownloadPhase::Verifying
        } else {
            DownloadPhase::Done
        }
    }
}


/// Round trip: when a download has appended, in index order, exactly the
/// chunk payloads that the upload of `content` sent (chunk size `c`), the
/// destination file is byte-identical to `content`, and reading it back
/// against the upload's digest completes the download.
pub proof fn lemma_round_trip(content: Seq<u8>, c: nat, d: Download)
    requires
        c > 0,
        d.written@ == chunks_of(content, c),
    ensures
        file_bytes(&d) == content,
        verified_phase(file_bytes(&d), sha256_of(content)) == DownloadPhase::Done,
{
    lemma_chunks_reassemble(content, c);
    lemma_digest_deterministic(file_bytes(&d), content);
}

} // verus!
