//! The orchestrator: the long-lived actor of a node. It starts one worker at
//! a time, tells it what to do, passes requests on to its peers, and runs
//! the decrypting pass.

use crate::decryptor::{Decryptor, DecryptorPhase};
use crate::paths::drop_first_char;
use crate::steps::{refusal, refuse, Action, Event, Step};
use crate::structs::{Address, FolderTransfer, TransferError, WorkerRequest, WorkerStatus};
use vstd::prelude::*;

verus! {

/// What a message to the orchestrator holds.
#[derive(Debug)]
pub enum Incoming {
    /// A request for a transfer or for the decrypting pass.
    Transfer(FolderTransfer),
    /// The report of a worker.
    Status(WorkerStatus),
    /// Anything else.
    Other,
}

/// Where an orchestrator stands.
#[derive(Clone, Copy, Debug, PartialEq, Eq, Structural)]
pub enum OrchestratorPhase {
    /// The next message is awaited.
    Idle,
    /// The name of the worker that was started is awaited.
    Spawning,
    /// The message to the worker is on its way.
    Initializing,
    /// The request to the peer is on its way.
    Relaying,
    /// The decrypting pass is under way.
    Decrypting,
}

/// An orchestrator.
pub struct Orchestrator {
    /// The orchestrator's own address.
    pub our: Address,
    /// The drive that holds the folders that can be sent.
    pub send_from_path: String,
    /// The drive into which folders are received.
    pub send_to_path: String,
    /// The drive into which received folders are decrypted.
    pub decrypt_to_path: String,
    /// The password under which transfers are encrypted.
    pub password: String,
    /// The worker that is alive, if one is.
    pub current_worker: Option<Address>,
    /// Where the message in hand came from.
    pub source: Address,
    /// The request in hand, while its worker is being started.
    pub pending: Option<FolderTransfer>,
    /// The decrypting pass, while it is under way.
    pub decryptor: Decryptor,
    pub phase: OrchestratorPhase,
}

/// The program of a worker of the package of `our`.
pub open spec fn worker_program(our: Address) -> Seq<char> {
    our.process.package_name@ + ":"@ + our.process.publisher_node@ + "/pkg/worker.wasm"@
}

/// The directory that a worker is told to send when `folder` is asked for:
/// `folder` on the drive `send_from_path`, without the separator in front.
pub open spec fn sending_dir_of(send_from_path: Seq<char>, folder: Seq<char>) -> Seq<char> {
    (send_from_path + "/"@ + folder).skip(1)
}

impl Orchestrator {
    /// What holds of an orchestrator between two steps.
    pub open spec fn wf(&self) -> bool {
        &&& self.drives_named()
        &&& self.phase == OrchestratorPhase::Spawning ==> (self.pending matches Some(request)
            && !(request is DecryptFolder))
        &&& self.phase == OrchestratorPhase::Relaying ==> (self.pending matches Some(request)
            && request is RequestFolderAction && self.current_worker is Some)
    }

    /// Whether the sending and the receiving drive have a path, and the
    /// decrypting pass is in order.
    pub open spec fn drives_named(&self) -> bool {
        &&& self.decryptor.wf()
        &&& self.send_from_path@.len() > 0
        &&& self.send_to_path@.len() > 0
    }

    /// Whether the worker that is alive is the one at `address`.
    pub open spec fn tracks(&self, address: Address) -> bool {
        self.current_worker matches Some(worker) && worker.same_as(&address)
    }

    /// Whether the orchestrator is set up as `other` is.
    pub open spec fn same_setup(&self, other: &Orchestrator) -> bool {
        &&& self.our == other.our
        &&& self.send_from_path == other.send_from_path
        &&& self.send_to_path == other.send_to_path
        &&& self.decrypt_to_path == other.decrypt_to_path
        &&& self.password == other.password
    }

    /// Whether `step` is how an orchestrator in this state ends the handling
    /// of a message: a message from the worker that is alive which was no
    /// report is refused.
    pub open spec fn settles(&self, step: Step) -> bool {
        &&& self.phase == OrchestratorPhase::Idle
        &&& if self.tracks(self.source) {
            step == Step::Failed(TransferError::UnexpectedEvent)
        } else {
            step is Finished
        }
    }

    /// An orchestrator at `our` with its three drives and the password of its
    /// transfers, or `None` when the path of the sending or of the receiving
    /// drive is empty.
    pub fn new(
        our: Address,
        send_from_path: String,
        send_to_path: String,
        decrypt_to_path: String,
        password: String,
    ) -> (r: Option<Orchestrator>)
        ensures
            r is Some <==> send_from_path@.len() > 0 && send_to_path@.len() > 0,
            r matches Some(o) ==> {
                &&& o.wf()
                &&& o.our == our
                &&& o.send_from_path == send_from_path
                &&& o.send_to_path == send_to_path
                &&& o.decrypt_to_path == decrypt_to_path
                &&& o.password == password
                &&& o.current_worker is None
                &&& o.pending is None
                &&& o.source == our
                &&& o.phase == OrchestratorPhase::Idle
                &&& o.decryptor.phase == DecryptorPhase::Start
                &&& o.decryptor.source_dir == send_to_path
                &&& o.decryptor.target_dir == decrypt_to_path
                &&& o.decryptor.password == password
            },
    {
        if send_from_path.as_str().unicode_len() == 0 || send_to_path.as_str().unicode_len() == 0 {
            return None;
        }
        let decryptor = Decryptor::new(
            send_to_path.clone(),
            decrypt_to_path.clone(),
            password.clone(),
        );
        let source = our.clone();
        Some(
            Orchestrator {
                our,
                send_from_path,
                send_to_path,
                decrypt_to_path,
                password,
                current_worker: None,
                source,
                pending: None,
                decryptor,
                phase: OrchestratorPhase::Idle,
            },
        )
    }

    /// Whether an orchestrator in this state, handed `message` from `source`,
    /// goes over into `next` and answers with `step`.
    ///
    /// For a request that needs a worker, a worker is started. For the
    /// decrypting pass, a pass from the receiving drive into the decrypting
    /// drive is taken up, which begins by removing its target. The report of
    /// the worker that is alive makes the orchestrator forget it. Any other
    /// message is passed over, but refused when it comes from the worker that
    /// is alive.
    pub open spec fn handled(
        &self,
        source: Address,
        message: Incoming,
        next: &Orchestrator,
        step: Step,
    ) -> bool {
        &&& next.same_setup(self)
        &&& next.source == source
        &&& match message {
            Incoming::Transfer(FolderTransfer::DecryptFolder) => {
                &&& next.current_worker == self.current_worker
                &&& next.pending is None
                &&& next.phase == OrchestratorPhase::Decrypting
                &&& next.decryptor.source_dir@ == self.send_to_path@
                &&& next.decryptor.target_dir@ == self.decrypt_to_path@
                &&& next.decryptor.password@ == self.password@
                &&& next.decryptor.phase == DecryptorPhase::Clearing
                &&& next.decryptor.failures@.len() == 0
                &&& step.removes_dir(self.decrypt_to_path@)
            },
            Incoming::Transfer(request) => {
                &&& next.current_worker == self.current_worker
                &&& next.decryptor == self.decryptor
                &&& next.pending == Some(request)
                &&& next.phase == OrchestratorPhase::Spawning
                &&& step.spawns(worker_program(self.our))
            },
            Incoming::Status(WorkerStatus::Done) => {
                &&& next.decryptor == self.decryptor
                &&& next.pending is None
                &&& next.phase == OrchestratorPhase::Idle
                &&& next.current_worker == if self.tracks(source) {
                    None
                } else {
                    self.current_worker
                }
                &&& step is Finished
            },
            Incoming::Other => {
                &&& next.decryptor == self.decryptor
                &&& next.pending is None
                &&& next.current_worker == self.current_worker
                &&& next.settles(step)
            },
        }
    }

    fn settle(&mut self) -> (step: Step)
        requires
            old(self).drives_named(),
        ensures
            final(self).same_setup(old(self)),
            final(self).source == old(self).source,
            final(self).current_worker == old(self).current_worker,
            final(self).pending == old(self).pending,
            final(self).decryptor == old(self).decryptor,
            final(self).settles(step),
            final(self).wf(),
    {
        self.phase = OrchestratorPhase::Idle;
        let from_worker = match &self.current_worker {
            Some(worker) => worker.same(&self.source),
            None => false,
        };
        if from_worker {
            Step::Failed(TransferError::UnexpectedEvent)
        } else {
            Step::Finished
        }
    }

    /// Takes in a message and says what is to be done for it.
    pub fn handle(&mut self, source: Address, message: Incoming) -> (step: Step)
        requires
            old(self).wf(),
        ensures
            final(self).wf(),
            old(self).handled(source, message, final(self), step),
    {
        self.source = source;
        self.pending = None;
        match message {
            Incoming::Transfer(FolderTransfer::DecryptFolder) => {
                self.decryptor = Decryptor::new(
                    self.send_to_path.clone(),
                    self.decrypt_to_path.clone(),
                    self.password.clone(),
                );
                let step = self.decryptor.step(Event::Start);
                self.phase = OrchestratorPhase::Decrypting;
                step
            },
            Incoming::Transfer(request) => {
                let wasm_path = self.our.process.package_name.clone().concat(":").concat(
                    self.our.process.publisher_node.as_str(),
                ).concat("/pkg/worker.wasm");
                self.pending = Some(request);
                self.phase = OrchestratorPhase::Spawning;
                Step::Perform(Action::Spawn { wasm_path })
            },
            Incoming::Status(WorkerStatus::Done) => {
                let from_worker = match &self.current_worker {
                    Some(worker) => worker.same(&self.source),
                    None => false,
                };
                if from_worker {
                    self.current_worker = None;
                }
                self.phase = OrchestratorPhase::Idle;
                Step::Finished
            },
            Incoming::Other => self.settle(),
        }
    }

    /// Whether an orchestrator in this state, told of `event`, goes over into
    /// `next` and answers with `step`.
    ///
    /// The worker that was started becomes the worker that is alive. For a
    /// folder that is to be fetched, it is told to receive into the receiving
    /// drive, and the peer's orchestrator is then asked to send the folder to
    /// it. For a folder that a peer asks for, it is told to send the folder
    /// from the sending drive to the peer's worker, under the password when
    /// encryption is asked for. While the decrypting pass is under way, the
    /// pass takes the event. On any other event the orchestrator gives the
    /// message up and waits for the next.
    pub open spec fn stepped(&self, event: Event, next: &Orchestrator, step: Step) -> bool {
        &&& next.same_setup(self)
        &&& next.source == self.source
        &&& match (self.phase, event) {
            (OrchestratorPhase::Spawning, Event::Spawned(process)) => {
                let worker = Address { node: self.our.node, process };
                &&& next.decryptor == self.decryptor
                &&& next.tracks(worker)
                &&& next.phase == OrchestratorPhase::Initializing
                &&& match self.pending {
                    Some(FolderTransfer::RequestFolderAction { node_id, folder, encrypt }) => {
                        &&& next.pending == self.pending
                        &&& step.sends_receiver_init(worker, self.send_to_path@.skip(1))
                    },
                    Some(FolderTransfer::RequestFolderMessage { worker_address, folder, encrypt }) => {
                        &&& next.pending is None
                        &&& step.sends_sender_init(
                            worker,
                            worker_address,
                            sending_dir_of(self.send_from_path@, folder@),
                            if encrypt {
                                Some(self.password@)
                            } else {
                                None
                            },
                        )
                    },
                    _ => next.pending is None && step == Step::Failed(
                        TransferError::UnexpectedEvent,
                    ),
                }
            },
            (OrchestratorPhase::Initializing, Event::Done) => {
                &&& next.decryptor == self.decryptor
                &&& next.current_worker == self.current_worker
                &&& match (self.pending, self.current_worker) {
                    (
                        Some(FolderTransfer::RequestFolderAction { node_id, folder, encrypt }),
                        Some(worker),
                    ) => {
                        &&& next.pending == self.pending
                        &&& next.phase == OrchestratorPhase::Relaying
                        &&& step.forwards_request(
                            Address { node: node_id, process: self.our.process },
                            worker,
                            folder@,
                            encrypt,
                        )
                    },
                    _ => next.pending is None && next.settles(step),
                }
            },
            (OrchestratorPhase::Relaying, Event::Done) => {
                &&& next.decryptor == self.decryptor
                &&& next.current_worker == self.current_worker
                &&& next.pending is None
                &&& next.settles(step)
            },
            (OrchestratorPhase::Decrypting, _) => {
                let inner = if next.decryptor.phase == DecryptorPhase::Finished {
                    Step::Finished
                } else {
                    step
                };
                &&& next.current_worker == self.current_worker
                &&& next.pending == self.pending
                &&& self.decryptor.stepped(event, &next.decryptor, inner)
                &&& match next.decryptor.phase {
                    DecryptorPhase::Finished => next.settles(step),
                    DecryptorPhase::Failed => next.phase == OrchestratorPhase::Idle
                        && step is Failed,
                    _ => next.phase == OrchestratorPhase::Decrypting && step is Perform,
                }
            },
            _ => {
                &&& next.decryptor == self.decryptor
                &&& next.current_worker == self.current_worker
                &&& next.pending is None
                &&& next.phase == OrchestratorPhase::Idle
                &&& step == Step::Failed(refusal(event))
            },
        }
    }

    fn give_up(&mut self, error: TransferError) -> (step: Step)
        requires
            old(self).drives_named(),
        ensures
            final(self).same_setup(old(self)),
            final(self).source == old(self).source,
            final(self).current_worker == old(self).current_worker,
            final(self).decryptor == old(self).decryptor,
            final(self).pending is None,
            final(self).phase == OrchestratorPhase::Idle,
            step == Step::Failed(error),
            final(self).wf(),
    {
        self.pending = None;
        self.phase = OrchestratorPhase::Idle;
        Step::Failed(error)
    }

    /// Takes in the outcome of the last operation and says how the
    /// orchestrator goes on.
    pub fn step(&mut self, event: Event) -> (step: Step)
        requires
            old(self).wf(),
        ensures
            final(self).wf(),
            old(self).stepped(event, final(self), step),
    {
        let phase = self.phase;
        match (phase, event) {
            (OrchestratorPhase::Spawning, Event::Spawned(process)) => {
                let worker = Address { node: self.our.node.clone(), process };
                let mut pending: Option<FolderTransfer> = None;
                core::mem::swap(&mut self.pending, &mut pending);
                self.phase = OrchestratorPhase::Initializing;
                let step = match pending {
                    Some(FolderTransfer::RequestFolderAction { node_id, folder, encrypt }) => {
                        let receive_to_dir = match drop_first_char(self.send_to_path.as_str()) {
                            Some(dir) => dir,
                            None => String::new(),
                        };
                        self.pending = Some(
                            FolderTransfer::RequestFolderAction { node_id, folder, encrypt },
                        );
                        Step::Perform(
                            Action::Send {
                                target: worker.clone(),
                                request: WorkerRequest::InitializeReceiverWorker { receive_to_dir },
                                payload: None,
                            },
                        )
                    },
                    Some(FolderTransfer::RequestFolderMessage { worker_address, folder, encrypt }) => {
                        let path = self.send_from_path.clone().concat("/").concat(folder.as_str());
                        let sending_dir = match drop_first_char(path.as_str()) {
                            Some(dir) => dir,
                            None => String::new(),
                        };
                        let password = if encrypt {
                            Some(self.password.clone())
                        } else {
                            None
                        };
                        Step::Perform(
                            Action::Send {
                                target: worker.clone(),
                                request: WorkerRequest::InitializeSenderWorker {
                                    target_worker: Some(worker_address),
                                    sending_dir,
                                    password,
                                },
                                payload: None,
                            },
                        )
                    },
                    _ => Step::Failed(TransferError::UnexpectedEvent),
                };
                self.current_worker = Some(worker);
                step
            },
            (OrchestratorPhase::Initializing, Event::Done) => {
                let mut pending: Option<FolderTransfer> = None;
                core::mem::swap(&mut self.pending, &mut pending);
                match (pending, &self.current_worker) {
                    (
                        Some(FolderTransfer::RequestFolderAction { node_id, folder, encrypt }),
                        Some(worker),
                    ) => {
                        let step = Step::Perform(
                            Action::Forward {
                                target: Address {
                                    node: node_id.clone(),
                                    process: self.our.process.clone(),
                                },
                                message: FolderTransfer::RequestFolderMessage {
                                    worker_address: worker.clone(),
                                    folder: folder.clone(),
                                    encrypt,
                                },
                            },
                        );
                        self.pending = Some(
                            FolderTransfer::RequestFolderAction { node_id, folder, encrypt },
                        );
                        self.phase = OrchestratorPhase::Relaying;
                        step
                    },
                    _ => self.settle(),
                }
            },
            (OrchestratorPhase::Relaying, Event::Done) => {
                self.pending = None;
                self.settle()
            },
            (OrchestratorPhase::Decrypting, event) => {
                let inner = self.decryptor.step(event);
                match inner {
                    Step::Finished => self.settle(),
                    Step::Failed(error) => {
                        self.phase = OrchestratorPhase::Idle;
                        Step::Failed(error)
                    },
                    Step::Perform(action) => Step::Perform(action),
                }
            },
            (_, event) => {
                let error = refuse(&event);
                self.give_up(error)
            },
        }
    }
}

} // verus!
