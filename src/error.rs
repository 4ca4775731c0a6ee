use vstd::prelude::*;

verus! {

/// Every way a transfer can fail. Each one aborts the whole upload or download.
#[derive(Debug, Clone, Copy, PartialEq, Eq, Structural)]
pub enum TransferError {
    /// The upload source is not a regular file.
    NotAFile,
    /// The upload source could not be opened or read.
    Unreadable,
    /// A share code is not six ASCII letters or digits.
    InvalidFormat,
    /// The server knows no file under the given share code.
    NotFound,
    /// The connection to the server failed.
    TransportError,
    /// The server answered an upload request with a non-success status.
    ServerRejected,
    /// The local destination file could not be created or written.
    CannotCreate,
    /// The server answered a chunk request with a non-success status.
    ChunkFetchError,
    /// The reassembled file does not hash to the advertised digest.
    IntegrityMismatch,
}

impl TransferError {
    /// A human-readable description of the failure.
    pub fn message(&self) -> (r: &'static str) {
        match self {
            TransferError::NotAFile => "Specified file is not a file!",
            TransferError::Unreadable => "Could not open file",
            TransferError::InvalidFormat => "Invalid id: expected 6 letters or digits",
            TransferError::NotFound => "No file with that id found!",
            TransferError::TransportError => "Error, requesting server!",
            TransferError::ServerRejected => "Error with uploading the file",
            TransferError::CannotCreate => "Error creating the file",
            TransferError::ChunkFetchError => "Error fetching range data",
            TransferError::IntegrityMismatch => "Downloaded file does not match its digest",
        }
    }
}

} // verus!
