//! What an actor asks to have done, and what it is told of the outcome.
//!
//! An actor of this crate never touches the file service, the cipher or the
//! network. It answers each [`Event`] with a [`Step`]: the next [`Action`] to
//! perform for it, or the end of its job.

use crate::chunks::ChunkRange;
use crate::structs::{
    Address, DirEntry, FolderTransfer, ProcessId, TransferError, WorkerRequest, WorkerStatus,
};
use vstd::prelude::*;

verus! {

/// One operation that an actor asks for.
#[derive(Debug)]
pub enum Action {
    /// Remove the directory `path` with all that it holds; answered by `Done`.
    RemoveDirAll { path: String },
    /// Create the directory `path` and its ancestors where they are missing;
    /// answered by `Done`.
    CreateDirAll { path: String },
    /// List the directory `path`; answered by `Entries`.
    ReadDir { path: String },
    /// Read the whole file `path`; answered by `Data`.
    ReadFile { path: String },
    /// Open the file `path` as it is, with the cursor at its start; answered
    /// by `Opened` with its size.
    OpenFile { path: String },
    /// Read the bytes of `path` in `range`, which follow the ones read last;
    /// answered by `Data`.
    ReadChunk { path: String, range: ChunkRange },
    /// Create the empty file `path`; answered by `Done`.
    CreateFile { path: String },
    /// Append `bytes` to the file `path`; answered by `Done`.
    Append { path: String, bytes: Vec<u8> },
    /// Open the file `path`, creating it if need be, and write `bytes` to it;
    /// answered by `Done`.
    Write { path: String, bytes: Vec<u8> },
    /// Encrypt `plain` under `password`; answered by `Data` with the ciphertext.
    Encrypt { plain: Vec<u8>, password: String },
    /// Decrypt `cipher` under `password`; answered by `Decrypted`.
    Decrypt { cipher: Vec<u8>, password: String },
    /// Send `request` to the worker at `target`, with `payload` beside it;
    /// answered by `Done`.
    Send { target: Address, request: WorkerRequest, payload: Option<Vec<u8>> },
    /// Send `message` to the orchestrator at `target`; answered by `Done`.
    Forward { target: Address, message: FolderTransfer },
    /// Tell the orchestrator at `target` that the worker is `status`;
    /// answered by `Done`.
    Report { target: Address, status: WorkerStatus },
    /// Start a worker process from the program at `wasm_path`; answered by
    /// `Spawned` with its name.
    Spawn { wasm_path: String },
}

/// The outcome of the last operation.
#[derive(Debug)]
pub enum Event {
    /// Nothing was asked for yet.
    Start,
    /// The operation was performed.
    Done,
    /// The operation failed.
    Failed,
    /// The operation was not answered in time.
    TimedOut,
    /// What the directory holds.
    Entries(Vec<DirEntry>),
    /// The file is open and holds `size` bytes.
    Opened { size: u64 },
    /// The bytes that were read, or the ciphertext.
    Data(Vec<u8>),
    /// The plaintext, or `None` where the ciphertext was rejected.
    Decrypted(Option<Vec<u8>>),
    /// The name of the process that was started.
    Spawned(ProcessId),
}

/// The answer of an actor to an event.
#[derive(Debug)]
pub enum Step {
    /// Perform this, and report the outcome.
    Perform(Action),
    /// The job is done.
    Finished,
    /// The job is given up.
    Failed(TransferError),
}

/// The error with which an actor gives up on an event that its state does
/// not expect: `Io` when an operation failed, `Timeout` when it was not
/// answered in time, `UnexpectedEvent` otherwise.
pub open spec fn refusal(event: Event) -> TransferError {
    if event is Failed {
        TransferError::Io
    } else if event is TimedOut {
        TransferError::Timeout
    } else {
        TransferError::UnexpectedEvent
    }
}

/// The error with which an actor gives up on an event that its state does
/// not expect.
pub fn refuse(event: &Event) -> (e: TransferError)
    ensures
        e == refusal(*event),
{
    match event {
        Event::Failed => TransferError::Io,
        Event::TimedOut => TransferError::Timeout,
        _ => TransferError::UnexpectedEvent,
    }
}

impl Step {
    /// Whether the step asks to remove the directory `path`.
    pub open spec fn removes_dir(self, path: Seq<char>) -> bool {
        self matches Step::Perform(Action::RemoveDirAll { path: p }) && p@ == path
    }

    /// Whether the step asks to create the directory `path`.
    pub open spec fn creates_dir(self, path: Seq<char>) -> bool {
        self matches Step::Perform(Action::CreateDirAll { path: p }) && p@ == path
    }

    /// Whether the step asks to list the directory `path`.
    pub open spec fn lists(self, path: Seq<char>) -> bool {
        self matches Step::Perform(Action::ReadDir { path: p }) && p@ == path
    }

    /// Whether the step asks to open the file `path`.
    pub open spec fn opens(self, path: Seq<char>) -> bool {
        self matches Step::Perform(Action::OpenFile { path: p }) && p@ == path
    }

    /// Whether the step asks to read `length` bytes of `path` from `offset` on.
    pub open spec fn reads(self, path: Seq<char>, offset: nat, length: nat) -> bool {
        &&& self matches Step::Perform(Action::ReadChunk { path: p, range })
        &&& p@ == path
        &&& range.offset == offset
        &&& range.length == length
    }

    /// Whether the step asks to create the file `path`.
    pub open spec fn creates_file(self, path: Seq<char>) -> bool {
        self matches Step::Perform(Action::CreateFile { path: p }) && p@ == path
    }

    /// Whether the step asks to append `bytes` to the file `path`.
    pub open spec fn appends(self, path: Seq<char>, bytes: Seq<u8>) -> bool {
        self matches Step::Perform(Action::Append { path: p, bytes: b }) && p@ == path && b@
            == bytes
    }

    /// Whether the step asks to encrypt `plain` under `password`.
    pub open spec fn encrypts(self, plain: Seq<u8>, password: Seq<char>) -> bool {
        self matches Step::Perform(Action::Encrypt { plain: b, password: p }) && b@ == plain && p@
            == password
    }

    /// Whether the step asks to decrypt `cipher` under `password`.
    pub open spec fn decrypts(self, cipher: Seq<u8>, password: Seq<char>) -> bool {
        self matches Step::Perform(Action::Decrypt { cipher: b, password: p }) && b@ == cipher
            && p@ == password
    }

    /// Whether the step asks to send to `target` the header of a chunk of the
    /// file that travels as `name`, with `bytes` beside it.
    pub open spec fn sends_chunk(
        self,
        target: Address,
        name: Seq<char>,
        encrypted: bool,
        bytes: Seq<u8>,
    ) -> bool {
        &&& self matches Step::Perform(Action::Send { target: t, request, payload })
        &&& t.same_as(&target)
        &&& request matches WorkerRequest::Chunk { done, file_path, encrypted: e }
        &&& !done
        &&& file_path@ == name
        &&& e == encrypted
        &&& payload matches Some(b)
        &&& b@ == bytes
    }

    /// Whether the step asks to start a worker from the program at `path`.
    pub open spec fn spawns(self, path: Seq<char>) -> bool {
        self matches Step::Perform(Action::Spawn { wasm_path }) && wasm_path@ == path
    }

    /// Whether the step asks to tell the worker at `target` to receive into
    /// `dir`.
    pub open spec fn sends_receiver_init(self, target: Address, dir: Seq<char>) -> bool {
        &&& self matches Step::Perform(Action::Send { target: t, request, payload })
        &&& t.same_as(&target)
        &&& request matches WorkerRequest::InitializeReceiverWorker { receive_to_dir }
        &&& receive_to_dir@ == dir
        &&& payload is None
    }

    /// Whether the step asks to tell the worker at `target` to send the
    /// directory `dir` to the worker at `receiver`, encrypted under
    /// `password` if there is one.
    pub open spec fn sends_sender_init(
        self,
        target: Address,
        receiver: Address,
        dir: Seq<char>,
        password: Option<Seq<char>>,
    ) -> bool {
        &&& self matches Step::Perform(Action::Send { target: t, request, payload })
        &&& t.same_as(&target)
        &&& request matches WorkerRequest::InitializeSenderWorker {
            target_worker,
            sending_dir,
            password: p,
        }
        &&& target_worker matches Some(r)
        &&& r.same_as(&receiver)
        &&& sending_dir@ == dir
        &&& match password {
            Some(text) => p matches Some(q) && q@ == text,
            None => p is None,
        }
        &&& payload is None
    }

    /// Whether the step asks to tell the orchestrator at `target` that
    /// `folder` be sent to the worker at `receiver`.
    pub open spec fn forwards_request(
        self,
        target: Address,
        receiver: Address,
        folder: Seq<char>,
        encrypt: bool,
    ) -> bool {
        &&& self matches Step::Perform(Action::Forward { target: t, message })
        &&& t.same_as(&target)
        &&& message matches FolderTransfer::RequestFolderMessage {
            worker_address,
            folder: f,
            encrypt: e,
        }
        &&& worker_address.same_as(&receiver)
        &&& f@ == folder
        &&& e == encrypt
    }

    /// Whether the step asks to tell the orchestrator at `target` that the
    /// worker is done.
    pub open spec fn reports_done(self, target: Address) -> bool {
        self matches Step::Perform(Action::Report { target: t, status }) && t.same_as(&target)
            && status == WorkerStatus::Done
    }

    /// Whether the step asks to send to `target` the message that ends the
    /// stream: a header with `done`, no name and no bytes.
    pub open spec fn sends_done(self, target: Address, encrypted: bool) -> bool {
        &&& self matches Step::Perform(Action::Send { target: t, request, payload })
        &&& t.same_as(&target)
        &&& request matches WorkerRequest::Chunk { done, file_path, encrypted: e }
        &&& done
        &&& file_path@.len() == 0
        &&& e == encrypted
        &&& payload is None
    }
}

} // verus!
