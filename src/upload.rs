//! The upload state machine. The caller performs each action it hands out
//! (sending one chunk over the network) and reports back what happened.
use vstd::prelude::*;
use vstd::slice::*;

use crate::chunk::{chunk_bytes, chunk_payload, plan, ChunkPlan};
use crate::code::{generate_id, is_valid_code, validate};
use crate::digest::{digest, sha256_of};
use crate::error::TransferError;

verus! {

/// One chunk, ready to be sent to the server together with the metadata the
/// server needs to rebuild the file.
pub struct ChunkRequest {
    pub file_name: String,
    pub code: String,
    pub chunk_index: u64,
    pub total_chunks: u64,
    pub payload: Vec<u8>,
    pub digest: Vec<u8>,
}

/// Where an upload stands.
#[derive(Debug, Clone, Copy, PartialEq, Eq, Structural)]
pub enum UploadPhase {
    /// Chunks remain to be sent; the next one is `next_chunk`.
    Transmitting,
    /// Every chunk was accepted.
    Done,
    /// The upload was aborted; it cannot be resumed.
    Failed(TransferError),
}

/// What became of one chunk request.
#[derive(Debug, Clone, Copy, PartialEq, Eq, Structural)]
pub enum SendOutcome {
    /// The server answered with a success status.
    Accepted,
    /// The server answered with a non-success status.
    Rejected,
    /// The request did not reach the server or no answer came back.
    TransportFailed,
}

/// What the caller has to do next.
pub enum UploadAction {
    /// Send this chunk and report the outcome.
    Send(ChunkRequest),
    /// The upload is complete: hand this share code to the user.
    Finish(String),
    /// The upload failed.
    Abort(TransferError),
}

/// A file being uploaded, chunk by chunk, in index order.
pub struct Upload {
    pub file_name: String,
    pub code: String,
    pub content: Vec<u8>,
    pub digest: Vec<u8>,
    pub plan: ChunkPlan,
    pub next_chunk: u64,
    pub phase: UploadPhase,
}

/// The phase an upload is in once `next` of `total` chunks have been accepted.
pub open spec fn progress_phase(next: nat, total: nat) -> UploadPhase {
    if next < total {
        UploadPhase::Transmitting
    } else {
        UploadPhase::Done
    }
}

impl Upload {
    pub open spec fn wf(&self) -> bool {
        &&& self.plan.wf()
        &&& self.plan.total_size as nat == self.content@.len()
        &&& is_valid_code(self.code@)
        &&& self.digest@ == sha256_of(self.content@)
        &&& self.next_chunk <= self.plan.total_chunks
        &&& (self.phase is Transmitting ==> self.next_chunk < self.plan.total_chunks)
        &&& (self.phase is Done ==> self.next_chunk == self.plan.total_chunks)
    }

    fn build(file_name: String, content: Vec<u8>, code: String, chunk_size: u64) -> (u: Upload)
        requires
            chunk_size > 0,
            is_valid_code(code@),
        ensures
            u.wf(),
            u.file_name@ == file_name@,
            u.code@ == code@,
            u.content@ == content@,
            u.plan.chunk_size == chunk_size,
            u.next_chunk == 0,
            u.phase == progress_phase(0, u.plan.total_chunks as nat),
    {
        let d = digest(content.as_slice());
        let p = plan(content.len() as u64, chunk_size);
        let phase = if p.total_chunks > 0 {
            UploadPhase::Transmitting
        } else {
            UploadPhase::Done
        };
        Upload { file_name, code, content, digest: d, plan: p, next_chunk: 0, phase }
    }

    /// Prepares the upload of `content` under the share code `code`, cut into
    /// chunks of `chunk_size` bytes. Fails with `InvalidFormat` when `code`
    /// is not a well-formed share code.
    pub fn with_code(file_name: String, content: Vec<u8>, code: String, chunk_size: u64) -> (r:
        Result<Upload, TransferError>)
        requires
            chunk_size > 0,
        ensures
            r is Err <==> !is_valid_code(code@),
            r matches Err(e) ==> e == TransferError::InvalidFormat,
            r matches Ok(u) ==> {
                &&& u.wf()
                &&& u.file_name@ == file_name@
                &&& u.code@ == code@
                &&& u.content@ == content@
                &&& u.plan.chunk_size == chunk_size
                &&& u.next_chunk == 0
                &&& u.phase == progress_phase(0, u.plan.total_chunks as nat)
            },
    {
        match validate(code.as_str()) {
            Err(e) => Err(e),
            Ok(()) => Ok(Upload::build(file_name, content, code, chunk_size)),
        }
    }

    /// Prepares the upload of `content` under a freshly drawn share code.
    /// An empty file has no chunks and is done at once.
    pub fn start(file_name: String, content: Vec<u8>, chunk_size: u64) -> (r: Upload)
        requires
            chunk_size > 0,
        ensures
            r.wf(),
            r.file_name@ == file_name@,
            r.content@ == content@,
            r.plan.chunk_size == chunk_size,
            r.next_chunk == 0,
            r.phase == progress_phase(0, r.plan.total_chunks as nat),
    {
        let code = generate_id();
        Upload::build(file_name, content, code, chunk_size)
    }

    /// The request for chunk `next_chunk`.
    pub fn request(&self) -> (r: ChunkRequest)
        requires
            self.wf(),
            self.next_chunk < self.plan.total_chunks,
        ensures
            r.file_name@ == self.file_name@,
            r.code@ == self.code@,
            r.chunk_index == self.next_chunk,
            r.total_chunks == self.plan.total_chunks,
            r.payload@ == chunk_bytes(
                self.content@,
                self.next_chunk as nat,
                self.plan.chunk_size as nat,
            ),
            r.digest@ == self.digest@,
    {
        ChunkRequest {
            file_name: self.file_name.clone(),
            code: self.code.clone(),
            chunk_index: self.next_chunk,
            total_chunks: self.plan.total_chunks,
            payload: chunk_payload(self.content.as_slice(), self.plan.chunk_size, self.next_chunk),
            digest: slice_to_vec(self.digest.as_slice()),
        }
    }

    /// What the caller has to do next.
    pub fn action(&self) -> (r: UploadAction)
        requires
            self.wf(),
        ensures
            self.phase is Transmitting ==> (r matches UploadAction::Send(q) && q.chunk_index
                == self.next_chunk && q.payload@ == chunk_bytes(
                self.content@,
                self.next_chunk as nat,
                self.plan.chunk_size as nat,
            ) && q.code@ == self.code@ && q.file_name@ == self.file_name@ && q.total_chunks
                == self.plan.total_chunks && q.digest@ == self.digest@),
            self.phase is Done ==> (r matches UploadAction::Finish(c) && c@ == self.code@),
            self.phase matches UploadPhase::Failed(e) ==> (r matches UploadAction::Abort(f) && f
                == e),
    {
        match self.phase {
            UploadPhase::Transmitting => UploadAction::Send(self.request()),
            UploadPhase::Done => UploadAction::Finish(self.code.clone()),
            UploadPhase::Failed(e) => UploadAction::Abort(e),
        }
    }

    /// Records the outcome of the request for chunk `next_chunk`. An accepted
    /// chunk moves on to the next one, or finishes the upload after the last;
    /// any other outcome aborts the whole upload. Outside `Transmitting`
    /// nothing changes.
    pub fn record(&mut self, outcome: SendOutcome)
        requires
            old(self).wf(),
        ensures
            final(self).wf(),
            final(self).file_name == old(self).file_name,
            final(self).code == old(self).code,
            final(self).content == old(self).content,
            final(self).digest == old(self).digest,
            final(self).plan == old(self).plan,
            !(old(self).phase is Transmitting) ==> *final(self) == *old(self),
            old(self).phase is Transmitting ==> match outcome {
                SendOutcome::Accepted => {
                    &&& final(self).next_chunk == old(self).next_chunk + 1
                    &&& final(self).phase == progress_phase(
                        final(self).next_chunk as nat,
                        old(self).plan.total_chunks as nat,
                    )
                },
                SendOutcome::Rejected => {
                    &&& final(self).next_chunk == old(self).next_chunk
                    &&& final(self).phase == UploadPhase::Failed(TransferError::ServerRejected)
                },
                SendOutcome::TransportFailed => {
                    &&& final(self).next_chunk == old(self).next_chunk
                    &&& final(self).phase == UploadPhase::Failed(TransferError::TransportError)
                },
            },
    {
        if let UploadPhase::Transmitting = self.phase {
            match outcome {
                SendOutcome::Accepted => {
                    self.next_chunk = self.next_chunk + 1;
                    if self.next_chunk == self.plan.total_chunks {
                        self.phase = UploadPhase::Done;
                    }
                },
                SendOutcome::Rejected => {
                    self.phase = UploadPhase::Failed(TransferError::ServerRejected);
                },
                SendOutcome::TransportFailed => {
                    self.phase = UploadPhase::Failed(TransferError::TransportError);
                },
            }
        }
    }
}

} // verus!
