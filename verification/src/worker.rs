//! The worker: a short-lived actor that does one side of one transfer. It
//! either sends a directory, or it receives chunks into one, until the
//! stream ends; then it reports to its orchestrator and is gone.

use crate::paths::{append, parent, parent_of};
use crate::sender::{Sender, SenderPhase};
use crate::steps::{refusal, refuse, Action, Event, Step};
use crate::structs::{Address, DirEntry, FileType, TransferError, WorkerRequest, WorkerStatus};
use crate::files::FlattenPhase;
use vstd::prelude::*;

verus! {

/// Whether a listing holds the file `path`.
pub open spec fn lists_file(entries: Seq<DirEntry>, path: Seq<char>) -> bool {
    exists|i: int|
        0 <= i < entries.len() && (#[trigger] entries[i]).path@ == path && entries[i].file_type
            == FileType::File
}

/// Whether `entries` holds the file `path`. A file is created before it is
/// opened only where the listing of its directory does not show it.
pub fn contains_file(entries: &Vec<DirEntry>, path: &str) -> (r: bool)
    ensures
        r == lists_file(entries@, path@),
{
    let wanted = DirEntry { path: path.to_owned(), file_type: FileType::File };
    let mut i: usize = 0;
    while i < entries.len()
        invariant
            i <= entries@.len(),
            wanted.path@ == path@,
            wanted.file_type == FileType::File,
            forall|j: int| 0 <= j < i ==> !(#[trigger] entries@[j]).same_as(&wanted),
        decreases entries@.len() - i,
    {
        if entries[i].same(&wanted) {
            return true;
        }
        i += 1;
    }
    false
}

/// Where a worker stands.
#[derive(Clone, Copy, Debug, PartialEq, Eq, Structural)]
pub enum WorkerPhase {
    /// The next message is awaited.
    Idle,
    /// The worker sends a directory.
    Sending,
    /// The removal of the receiving directory is awaited.
    Clearing,
    /// The creation of the receiving directory is awaited.
    Creating,
    /// The creation of the directory of the current file is awaited.
    Preparing,
    /// The listing of the directory of the current file is awaited.
    Checking,
    /// The creation of the current file is awaited.
    Making,
    /// The bytes of the current chunk are being appended.
    Appending,
    /// The report to the orchestrator is on its way.
    Reporting,
    /// The worker is gone.
    Terminated,
}

/// A worker.
pub struct Worker {
    /// The orchestrator to which the worker reports.
    pub orchestrator: Address,
    /// The worker's own address.
    pub our: Address,
    /// The directory into which chunks are received.
    pub receive_dir: String,
    /// The job of sending, while the worker sends.
    pub sender: Sender,
    /// The file to which the current chunk belongs.
    pub file_path: String,
    /// The directory of that file.
    pub parent: String,
    /// The bytes of the current chunk.
    pub payload: Option<Vec<u8>>,
    pub phase: WorkerPhase,
}

impl Worker {
    /// What holds of a worker between two steps.
    pub open spec fn wf(&self) -> bool {
        &&& self.sender.wf()
        &&& (self.phase == WorkerPhase::Checking || self.phase == WorkerPhase::Making)
            ==> self.payload is Some
    }

    /// Whether the worker has come to its end, so that no further message is
    /// handed to it.
    pub open spec fn gone(&self) -> bool {
        self.phase == WorkerPhase::Terminated
    }

    /// Whether the worker is the same as `other` but for its phase and its
    /// job of sending.
    pub open spec fn same_chunk(&self, other: &Worker) -> bool {
        &&& self.orchestrator == other.orchestrator
        &&& self.our == other.our
        &&& self.receive_dir == other.receive_dir
        &&& self.file_path == other.file_path
        &&& self.parent == other.parent
        &&& self.payload == other.payload
    }

    /// Whether the worker reports to the same orchestrator from the same
    /// address as `other`.
    pub open spec fn same_place(&self, other: &Worker) -> bool {
        self.orchestrator == other.orchestrator && self.our == other.our
    }

    /// A worker at `our` that reports to `orchestrator` and waits for its
    /// first message.
    pub fn new(our: Address, orchestrator: Address) -> (r: Worker)
        ensures
            r.wf(),
            r.our == our,
            r.orchestrator == orchestrator,
            r.phase == WorkerPhase::Idle,
            r.receive_dir@.len() == 0,
            r.file_path@.len() == 0,
            r.parent@.len() == 0,
            r.payload is None,
            r.sender.phase == SenderPhase::Start,
    {
        let sender = Sender::new(&our, None, String::new(), None);
        Worker {
            orchestrator,
            our,
            receive_dir: String::new(),
            sender,
            file_path: String::new(),
            parent: String::new(),
            payload: None,
            phase: WorkerPhase::Idle,
        }
    }

    /// Whether the worker has come to its end.
    pub fn is_gone(&self) -> (r: bool)
        ensures
            r == self.gone(),
    {
        self.phase == WorkerPhase::Terminated
    }

    /// Whether `step` is how a worker in this state leaves: it reports to its
    /// orchestrator that it is done.
    pub open spec fn leaves(&self, step: Step) -> bool {
        self.phase == WorkerPhase::Reporting && step.reports_done(self.orchestrator)
    }

    /// Whether a worker in this state, handed the message `request` with
    /// `payload` beside it, goes over into `next` and answers with `step`.
    ///
    /// A worker that is gone refuses every message. Told to send, the worker
    /// takes up the job of sending and lists the sending directory. Told to
    /// receive, it remembers the receiving directory and has it removed. The
    /// header that ends the stream makes it leave. Any other header of a chunk
    /// makes it create the directory of the file, which stands under the
    /// receiving directory at the name in the header.
    pub open spec fn handled(
        &self,
        request: WorkerRequest,
        payload: Option<Vec<u8>>,
        next: &Worker,
        step: Step,
    ) -> bool {
        &&& next.same_place(self)
        &&& if self.gone() {
            &&& next.same_chunk(self)
            &&& next.sender == self.sender
            &&& next.gone()
            &&& step == Step::Failed(TransferError::UnexpectedEvent)
        } else {
            match request {
                WorkerRequest::InitializeSenderWorker { target_worker, sending_dir, password } => {
                    &&& next.same_chunk(self)
                    &&& next.phase == WorkerPhase::Sending
                    &&& next.sender.target == (match target_worker {
                        Some(target) => target,
                        None => self.our,
                    })
                    &&& next.sender.sending_dir == sending_dir
                    &&& next.sender.password == password
                    &&& next.sender.phase == SenderPhase::Flattening
                    &&& next.sender.files@.len() == 0
                    &&& next.sender.walk.phase == FlattenPhase::Listing
                    &&& next.sender.walk.pending.deep_view() == seq![sending_dir@]
                    &&& next.sender.walk.files@.len() == 0
                    &&& step.lists(sending_dir@)
                },
                WorkerRequest::InitializeReceiverWorker { receive_to_dir } => {
                    &&& next.sender == self.sender
                    &&& next.receive_dir == receive_to_dir
                    &&& next.phase == WorkerPhase::Clearing
                    &&& step.removes_dir(receive_to_dir@)
                },
                WorkerRequest::Chunk { done, file_path, encrypted } => {
                    &&& next.sender == self.sender
                    &&& next.receive_dir == self.receive_dir
                    &&& if done {
                        &&& next.file_path == self.file_path
                        &&& next.parent == self.parent
                        &&& next.payload == self.payload
                        &&& next.leaves(step)
                    } else {
                        &&& next.file_path@ == self.receive_dir@ + file_path@
                        &&& next.parent@ == parent_of(next.file_path@)
                        &&& next.payload == payload
                        &&& next.phase == WorkerPhase::Preparing
                        &&& step.creates_dir(next.parent@)
                    }
                },
            }
        }
    }

    fn leave(&mut self) -> (step: Step)
        requires
            old(self).sender.wf(),
        ensures
            final(self).same_chunk(old(self)),
            final(self).sender == old(self).sender,
            final(self).leaves(step),
            final(self).wf(),
    {
        self.phase = WorkerPhase::Reporting;
        Step::Perform(
            Action::Report { target: self.orchestrator.clone(), status: WorkerStatus::Done },
        )
    }

    /// Takes in a message and says what is to be done for it.
    pub fn handle(&mut self, request: WorkerRequest, payload: Option<Vec<u8>>) -> (step: Step)
        requires
            old(self).wf(),
        ensures
            final(self).wf(),
            old(self).handled(request, payload, final(self), step),
    {
        if self.phase == WorkerPhase::Terminated {
            return Step::Failed(TransferError::UnexpectedEvent);
        }
        match request {
            WorkerRequest::InitializeSenderWorker { target_worker, sending_dir, password } => {
                self.sender = Sender::new(&self.our, target_worker, sending_dir, password);
                let step = self.sender.step(Event::Start);
                self.phase = WorkerPhase::Sending;
                proof {
                    let pending = self.sender.walk.pending;
                    assert(pending.deep_view().len() == 1);
                    assert(pending.deep_view()[0] == pending@[0]@);
                    assert(pending@.last() == pending@[0]);
                }
                step
            },
            WorkerRequest::InitializeReceiverWorker { receive_to_dir } => {
                let step = Step::Perform(Action::RemoveDirAll { path: receive_to_dir.clone() });
                self.receive_dir = receive_to_dir;
                self.phase = WorkerPhase::Clearing;
                step
            },
            WorkerRequest::Chunk { done, file_path, encrypted } => {
                if done {
                    return self.leave();
                }
                self.file_path = append(self.receive_dir.as_str(), file_path.as_str());
                self.parent = parent(self.file_path.as_str());
                self.payload = payload;
                self.phase = WorkerPhase::Preparing;
                Step::Perform(Action::CreateDirAll { path: self.parent.clone() })
            },
        }
    }

    /// Whether a worker in this state, told of `event`, goes over into `next`
    /// and answers with `step`.
    ///
    /// While the worker sends, the job of sending takes the event, and the
    /// worker leaves when the job is finished. After the receiving directory
    /// was removed it is created anew. After the directory of a file was
    /// created, a chunk without bytes is refused; else the directory is
    /// listed, the file is created where the listing does not show it, and
    /// the bytes are appended to it. After its report the worker is gone,
    /// whether the report arrived or not. On any other event the worker gives
    /// the message up and waits for the next.
    pub open spec fn stepped(&self, event: Event, next: &Worker, step: Step) -> bool {
        &&& next.same_place(self)
        &&& next.receive_dir == self.receive_dir
        &&& next.file_path == self.file_path
        &&& next.parent == self.parent
        &&& match (self.phase, event) {
            (WorkerPhase::Terminated, _) => {
                &&& next.sender == self.sender
                &&& next.payload == self.payload
                &&& next.gone()
                &&& step == Step::Failed(TransferError::UnexpectedEvent)
            },
            (WorkerPhase::Sending, _) => {
                let inner = if next.sender.phase == SenderPhase::Finished {
                    Step::Finished
                } else {
                    step
                };
                &&& next.payload == self.payload
                &&& self.sender.stepped(event, &next.sender, inner)
                &&& match next.sender.phase {
                    SenderPhase::Finished => next.leaves(step),
                    SenderPhase::Failed => next.phase == WorkerPhase::Idle && step is Failed,
                    _ => next.phase == WorkerPhase::Sending && step is Perform,
                }
            },
            (WorkerPhase::Clearing, Event::Done) => {
                &&& next.sender == self.sender
                &&& next.payload == self.payload
                &&& next.phase == WorkerPhase::Creating
                &&& step.creates_dir(self.receive_dir@)
            },
            (WorkerPhase::Creating, Event::Done) => {
                &&& next.sender == self.sender
                &&& next.payload == self.payload
                &&& next.phase == WorkerPhase::Idle
                &&& step is Finished
            },
            (WorkerPhase::Preparing, Event::Done) => {
                &&& next.sender == self.sender
                &&& next.payload == self.payload
                &&& match self.payload {
                    None => next.phase == WorkerPhase::Idle && step == Step::Failed(
                        TransferError::MissingPayload,
                    ),
                    Some(_) => next.phase == WorkerPhase::Checking && step.lists(self.parent@),
                }
            },
            (WorkerPhase::Checking, Event::Entries(entries)) => {
                &&& next.sender == self.sender
                &&& if lists_file(entries@, self.file_path@) {
                    &&& next.payload is None
                    &&& next.phase == WorkerPhase::Appending
                    &&& step.appends(self.file_path@, self.payload->0@)
                } else {
                    &&& next.payload == self.payload
                    &&& next.phase == WorkerPhase::Making
                    &&& step.creates_file(self.file_path@)
                }
            },
            (WorkerPhase::Making, Event::Done) => {
                &&& next.sender == self.sender
                &&& next.payload is None
                &&& next.phase == WorkerPhase::Appending
                &&& step.appends(self.file_path@, self.payload->0@)
            },
            (WorkerPhase::Appending, Event::Done) => {
                &&& next.sender == self.sender
                &&& next.payload == self.payload
                &&& next.phase == WorkerPhase::Idle
                &&& step is Finished
            },
            (WorkerPhase::Reporting, Event::Done)
            | (WorkerPhase::Reporting, Event::Failed)
            | (WorkerPhase::Reporting, Event::TimedOut) => {
                &&& next.sender == self.sender
                &&& next.payload == self.payload
                &&& next.gone()
                &&& step is Finished
            },
            _ => {
                &&& next.sender == self.sender
                &&& next.payload == self.payload
                &&& next.phase == WorkerPhase::Idle
                &&& step == Step::Failed(refusal(event))
            },
        }
    }

    fn append(&mut self) -> (step: Step)
        requires
            old(self).sender.wf(),
            old(self).payload is Some,
        ensures
            final(self).same_place(old(self)),
            final(self).receive_dir == old(self).receive_dir,
            final(self).file_path == old(self).file_path,
            final(self).parent == old(self).parent,
            final(self).sender == old(self).sender,
            final(self).payload is None,
            final(self).phase == WorkerPhase::Appending,
            step.appends(old(self).file_path@, old(self).payload->0@),
            final(self).wf(),
    {
        let mut payload: Option<Vec<u8>> = None;
        core::mem::swap(&mut self.payload, &mut payload);
        self.phase = WorkerPhase::Appending;
        match payload {
            Some(bytes) => Step::Perform(Action::Append { path: self.file_path.clone(), bytes }),
            None => Step::Failed(TransferError::MissingPayload),
        }
    }

    /// Takes in the outcome of the last operation and says how the worker
    /// goes on.
    pub fn step(&mut self, event: Event) -> (step: Step)
        requires
            old(self).wf(),
        ensures
            final(self).wf(),
            old(self).stepped(event, final(self), step),
    {
        let phase = self.phase;
        match (phase, event) {
            (WorkerPhase::Terminated, _) => Step::Failed(TransferError::UnexpectedEvent),
            (WorkerPhase::Sending, event) => {
                let inner = self.sender.step(event);
                match inner {
                    Step::Finished => self.leave(),
                    Step::Failed(error) => {
                        self.phase = WorkerPhase::Idle;
                        Step::Failed(error)
                    },
                    Step::Perform(action) => Step::Perform(action),
                }
            },
            (WorkerPhase::Clearing, Event::Done) => {
                self.phase = WorkerPhase::Creating;
                Step::Perform(Action::CreateDirAll { path: self.receive_dir.clone() })
            },
            (WorkerPhase::Creating, Event::Done) => {
                self.phase = WorkerPhase::Idle;
                Step::Finished
            },
            (WorkerPhase::Preparing, Event::Done) => {
                if self.payload.is_none() {
                    self.phase = WorkerPhase::Idle;
                    Step::Failed(TransferError::MissingPayload)
                } else {
                    self.phase = WorkerPhase::Checking;
                    Step::Perform(Action::ReadDir { path: self.parent.clone() })
                }
            },
            (WorkerPhase::Checking, Event::Entries(entries)) => {
                if contains_file(&entries, self.file_path.as_str()) {
                    self.append()
                } else {
                    self.phase = WorkerPhase::Making;
                    Step::Perform(Action::CreateFile { path: self.file_path.clone() })
                }
            },
            (WorkerPhase::Making, Event::Done) => self.append(),
            (WorkerPhase::Appending, Event::Done) => {
                self.phase = WorkerPhase::Idle;
                Step::Finished
            },
            (WorkerPhase::Reporting, Event::Done) => {
                self.phase = WorkerPhase::Terminated;
                Step::Finished
            },
            (WorkerPhase::Reporting, Event::Failed) => {
                self.phase = WorkerPhase::Terminated;
                Step::Finished
            },
            (WorkerPhase::Reporting, Event::TimedOut) => {
                self.phase = WorkerPhase::Terminated;
                Step::Finished
            },
            (_, event) => {
                self.phase = WorkerPhase::Idle;
                Step::Failed(refuse(&event))
            },
        }
    }
}

} // verus!
