use vstd::prelude::*;

verus! {

/// Every way a send or receive can end without success.
#[derive(Debug, Clone, PartialEq, Eq)]
pub enum TransferError {
    /// The connection to the peer could not be opened.
    ConnectionFailed,
    /// The size manifest of the content could not be fetched.
    ManifestFetchFailed,
    /// The transfer was aborted; the reason comes from the transport.
    TransferAborted(String),
    /// The progress stream closed before the transfer was reported done.
    ProgressStreamClosed,
    /// A remote-supplied name holds a component that cannot be placed safely.
    InvalidPathComponent,
    /// The export destination already exists.
    DestinationExists,
    /// A read or write on the local filesystem failed.
    FilesystemIoError,
    /// A ticket could not be parsed.
    TicketParseError,
}

impl TransferError {
    /// An equal copy of the error.
    pub fn duplicate(&self) -> (r: Self)
        ensures
            r == *self,
    {
        match self {
            TransferError::ConnectionFailed => TransferError::ConnectionFailed,
            TransferError::ManifestFetchFailed => TransferError::ManifestFetchFailed,
            TransferError::TransferAborted(reason) => TransferError::TransferAborted(reason.clone()),
            TransferError::ProgressStreamClosed => TransferError::ProgressStreamClosed,
            TransferError::InvalidPathComponent => TransferError::InvalidPathComponent,
            TransferError::DestinationExists => TransferError::DestinationExists,
            TransferError::FilesystemIoError => TransferError::FilesystemIoError,
            TransferError::TicketParseError => TransferError::TicketParseError,
        }
    }
}

} // verus!
