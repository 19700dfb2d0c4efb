//! The messages that the actors exchange, and the values they are made of.

use vstd::prelude::*;

verus! {

/// What a directory entry is.
#[derive(Clone, Copy, Debug, PartialEq, Eq, Structural)]
pub enum FileType {
    File,
    Directory,
    Symlink,
    Other,
}

/// One line of a directory listing: a snapshot, not a live handle.
#[derive(Debug)]
pub struct DirEntry {
    pub path: String,
    pub file_type: FileType,
}

impl Clone for DirEntry {
    fn clone(&self) -> (r: Self)
        ensures
            r == *self,
    {
        DirEntry { path: self.path.clone(), file_type: self.file_type }
    }
}

impl DirEntry {
    /// Whether both entries name the same path and are of the same kind.
    pub open spec fn same_as(&self, other: &DirEntry) -> bool {
        self.path@ == other.path@ && self.file_type == other.file_type
    }

    /// Whether both entries name the same path and are of the same kind.
    pub fn same(&self, other: &DirEntry) -> (r: bool)
        ensures
            r == self.same_as(other),
    {
        self.path == other.path && self.file_type == other.file_type
    }
}

/// The name of a process on its node.
#[derive(Debug)]
pub struct ProcessId {
    pub process_name: String,
    pub package_name: String,
    pub publisher_node: String,
}

impl Clone for ProcessId {
    fn clone(&self) -> (r: Self)
        ensures
            r == *self,
    {
        ProcessId {
            process_name: self.process_name.clone(),
            package_name: self.package_name.clone(),
            publisher_node: self.publisher_node.clone(),
        }
    }
}

impl ProcessId {
    pub open spec fn same_as(&self, other: &ProcessId) -> bool {
        &&& self.process_name@ == other.process_name@
        &&& self.package_name@ == other.package_name@
        &&& self.publisher_node@ == other.publisher_node@
    }

    /// Whether both name the same process.
    pub fn same(&self, other: &ProcessId) -> (r: bool)
        ensures
            r == self.same_as(other),
    {
        self.process_name == other.process_name && self.package_name == other.package_name
            && self.publisher_node == other.publisher_node
    }
}

/// Where a message goes to or comes from: a process on a node.
#[derive(Debug)]
pub struct Address {
    pub node: String,
    pub process: ProcessId,
}

impl Clone for Address {
    fn clone(&self) -> (r: Self)
        ensures
            r == *self,
    {
        Address { node: self.node.clone(), process: self.process.clone() }
    }
}

impl Address {
    pub open spec fn same_as(&self, other: &Address) -> bool {
        self.node@ == other.node@ && self.process.same_as(&other.process)
    }

    /// Whether both are the address of the same process on the same node.
    pub fn same(&self, other: &Address) -> (r: bool)
        ensures
            r == self.same_as(other),
    {
        self.node == other.node && self.process.same(&other.process)
    }
}

/// What an orchestrator tells its worker, and a sending worker the receiving one.
#[derive(Debug)]
pub enum WorkerRequest {
    /// Send the files under `sending_dir` to `target_worker` (to oneself when
    /// there is none), encrypted under `password` if there is one.
    InitializeSenderWorker {
        target_worker: Option<Address>,
        sending_dir: String,
        password: Option<String>,
    },
    /// Receive chunks into `receive_to_dir`, emptied first.
    InitializeReceiverWorker { receive_to_dir: String },
    /// Header of one chunk of the file `file_path`, whose bytes travel beside
    /// the message; with `done` it ends the stream and carries no bytes.
    Chunk { done: bool, file_path: String, encrypted: bool },
}

/// What a worker reports to its orchestrator.
#[derive(Clone, Copy, Debug, PartialEq, Eq, Structural)]
pub enum WorkerStatus {
    Done,
}

/// What an orchestrator is asked to do, by its user or by a peer.
#[derive(Debug)]
pub enum FolderTransfer {
    /// Fetch `folder` from the node `node_id`.
    RequestFolderAction { node_id: String, folder: String, encrypt: bool },
    /// A peer asks that `folder` be sent to its worker at `worker_address`.
    RequestFolderMessage { worker_address: Address, folder: String, encrypt: bool },
    /// Decrypt what was received.
    DecryptFolder,
}

/// Why a step of a transfer was given up.
#[derive(Clone, Copy, Debug, PartialEq, Eq, Structural)]
pub enum TransferError {
    /// A file does not lie under the directory that is being sent.
    PrefixMismatch,
    /// A stored name is not the text form of any bytes.
    InvalidName,
    /// Decrypted bytes are not UTF-8.
    NotUtf8,
    /// A ciphertext did not decrypt.
    DecryptFailed,
    /// A ciphertext, or a plaintext, has not the length that its chunk demands.
    WrongLength,
    /// A chunk arrived without its bytes.
    MissingPayload,
    /// An outcome was reported that the last operation cannot have.
    UnexpectedEvent,
    /// A path that must not be empty is empty.
    EmptyPath,
    /// The file is one that the operating system keeps for itself.
    OsMetadata,
    /// An operation of the file service, or a message, failed.
    Io,
    /// An operation of the file service was not answered in time.
    Timeout,
}

/// The four kinds of failure of a transfer.
#[derive(Clone, Copy, Debug, PartialEq, Eq, Structural)]
pub enum ErrorKind {
    Io,
    Timeout,
    Protocol,
    Crypto,
}

impl TransferError {
    pub open spec fn spec_kind(self) -> ErrorKind {
        match self {
            TransferError::PrefixMismatch => ErrorKind::Crypto,
            TransferError::InvalidName => ErrorKind::Crypto,
            TransferError::NotUtf8 => ErrorKind::Crypto,
            TransferError::DecryptFailed => ErrorKind::Crypto,
            TransferError::WrongLength => ErrorKind::Crypto,
            TransferError::MissingPayload => ErrorKind::Protocol,
            TransferError::UnexpectedEvent => ErrorKind::Protocol,
            TransferError::EmptyPath => ErrorKind::Io,
            TransferError::OsMetadata => ErrorKind::Io,
            TransferError::Io => ErrorKind::Io,
            TransferError::Timeout => ErrorKind::Timeout,
        }
    }

    /// The kind of failure that this error is.
    pub fn kind(self) -> (k: ErrorKind)
        ensures
            k == self.spec_kind(),
    {
        match self {
            TransferError::PrefixMismatch => ErrorKind::Crypto,
            TransferError::InvalidName => ErrorKind::Crypto,
            TransferError::NotUtf8 => ErrorKind::Crypto,
            TransferError::DecryptFailed => ErrorKind::Crypto,
            TransferError::WrongLength => ErrorKind::Crypto,
            TransferError::MissingPayload => ErrorKind::Protocol,
            TransferError::UnexpectedEvent => ErrorKind::Protocol,
            TransferError::EmptyPath => ErrorKind::Io,
            TransferError::OsMetadata => ErrorKind::Io,
            TransferError::Io => ErrorKind::Io,
            TransferError::Timeout => ErrorKind::Timeout,
        }
    }
}

} // verus!
