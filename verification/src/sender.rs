//! The sending worker: it streams the files of a directory, chunk by chunk,
//! to a receiving worker.

use crate::chunks::{
    chunk_range, lemma_pieces_bounds, piece_len, same_length, spec_num_chunks, CHUNK_SIZE, OVERHEAD,
};
use crate::files::{read_nested_dir_light, Flatten, FlattenPhase};
use crate::names::{encode_name, encoded_name, fits_text_form, name_plaintext};
use crate::paths::{has_prefix, parent, parent_of, strip_prefix};
use crate::steps::{refusal, refuse, Action, Event, Step};
use crate::structs::{Address, DirEntry, FileType, TransferError, WorkerRequest};
use vstd::prelude::*;
use vstd::utf8::encode_utf8;

verus! {

/// Where a sending worker stands.
#[derive(Clone, Copy, Debug, PartialEq, Eq, Structural)]
pub enum SenderPhase {
    /// Nothing was asked for yet.
    Start,
    /// The files under the sending directory are being gathered.
    Flattening,
    /// The size of the current file is awaited.
    Opening,
    /// The encrypted relative path of the current file is awaited.
    Naming,
    /// The bytes of the current chunk are awaited.
    Reading,
    /// The ciphertext of the current chunk is awaited.
    Encrypting,
    /// The current chunk is on its way.
    Sending,
    /// The message that ends the stream is on its way.
    Closing,
    Finished,
    Failed,
}

/// A sending worker on its one job.
pub struct Sender {
    /// The worker that receives the chunks.
    pub target: Address,
    /// The directory that is sent.
    pub sending_dir: String,
    /// The password under which names and chunks are encrypted, if they are.
    pub password: Option<String>,
    /// The walk that gathers the files under `sending_dir`.
    pub walk: Flatten,
    /// The files to send, by their paths, once they are gathered.
    pub files: Vec<String>,
    /// Number of the files that were sent.
    pub file: usize,
    /// The path of the current file from the parent of `sending_dir` on.
    pub relative: String,
    /// The name under which the current file travels.
    pub name: String,
    /// Size of the current file.
    pub size: u64,
    /// Number of the chunks of the current file that were sent.
    pub chunk: u64,
    pub phase: SenderPhase,
}

impl Sender {
    /// What holds of a sending worker between two steps.
    pub open spec fn wf(&self) -> bool {
        &&& self.walk.wf()
        &&& self.walk.light
        &&& self.walk.root@ == self.sending_dir@
        &&& self.phase == SenderPhase::Start ==> self.walk.phase == FlattenPhase::Start
        &&& self.file <= self.files@.len()
        &&& (self.phase == SenderPhase::Opening || self.phase == SenderPhase::Naming || self.phase
            == SenderPhase::Reading || self.phase == SenderPhase::Encrypting || self.phase
            == SenderPhase::Sending) ==> self.file < self.files@.len()
        &&& (self.phase == SenderPhase::Naming || self.phase == SenderPhase::Reading || self.phase
            == SenderPhase::Encrypting || self.phase == SenderPhase::Sending) ==> self.chunk
            < spec_num_chunks(self.size as nat)
        &&& (self.phase == SenderPhase::Naming || self.phase == SenderPhase::Encrypting)
            ==> self.password is Some
        &&& (self.phase == SenderPhase::Closing || self.phase == SenderPhase::Finished)
            ==> self.file == self.files@.len()
    }

    /// Whether the worker sends encrypted.
    pub open spec fn encrypted(&self) -> bool {
        self.password is Some
    }

    /// Whether the worker has the same job as `other`.
    pub open spec fn same_job(&self, other: &Sender) -> bool {
        &&& self.target == other.target
        &&& self.sending_dir == other.sending_dir
        &&& self.password == other.password
    }

    /// Whether the worker has gathered the same files as `other`.
    pub open spec fn same_files(&self, other: &Sender) -> bool {
        self.walk == other.walk && self.files == other.files
    }

    /// Whether the worker stands at the same file as `other`, with the same
    /// name and size.
    pub open spec fn same_file(&self, other: &Sender) -> bool {
        &&& self.file == other.file
        &&& self.relative == other.relative
        &&& self.name == other.name
        &&& self.size == other.size
    }

    /// Length of the current chunk.
    pub open spec fn chunk_len(&self) -> nat {
        piece_len(self.size as nat, CHUNK_SIZE as nat, self.chunk as nat)
    }

    /// Whether `step` is how a worker in this state turns to its next file:
    /// it opens it, or, when all files were sent, it ends the stream.
    pub open spec fn turns_to_file(&self, step: Step) -> bool {
        if self.file < self.files@.len() {
            self.phase == SenderPhase::Opening && step.opens(self.files@[self.file as int]@)
        } else {
            self.phase == SenderPhase::Closing && step.sends_done(self.target, self.encrypted())
        }
    }

    /// Whether `step` is how a worker in this state turns to its current
    /// chunk: it reads the bytes of the chunk.
    pub open spec fn turns_to_chunk(&self, step: Step) -> bool {
        &&& self.phase == SenderPhase::Reading
        &&& step.reads(
            self.files@[self.file as int]@,
            (self.chunk * CHUNK_SIZE) as nat,
            self.chunk_len(),
        )
    }

    /// A worker that is to send the files under `sending_dir` to
    /// `target_worker`, or to itself at `our` when there is none.
    pub fn new(
        our: &Address,
        target_worker: Option<Address>,
        sending_dir: String,
        password: Option<String>,
    ) -> (r: Sender)
        ensures
            r.wf(),
            r.phase == SenderPhase::Start,
            r.target == (match target_worker {
                Some(target) => target,
                None => *our,
            }),
            r.sending_dir == sending_dir,
            r.password == password,
            r.files@.len() == 0,
            r.file == 0,
            r.size == 0,
            r.chunk == 0,
            r.relative@.len() == 0,
            r.name@.len() == 0,
            r.walk.pending@.len() == 0,
            r.walk.files@.len() == 0,
            r.walk.next == 0,
            r.walk.found@ == Map::<Seq<char>, Seq<char>>::empty(),
    {
        let target = match target_worker {
            Some(target) => target,
            None => our.clone(),
        };
        let walk = read_nested_dir_light(
            DirEntry { path: sending_dir.clone(), file_type: FileType::Directory },
        );
        Sender {
            target,
            sending_dir,
            password,
            walk,
            files: Vec::new(),
            file: 0,
            relative: String::new(),
            name: String::new(),
            size: 0,
            chunk: 0,
            phase: SenderPhase::Start,
        }
    }

    fn next_file(&mut self) -> (step: Step)
        requires
            old(self).file <= old(self).files@.len(),
            old(self).walk.wf(),
            old(self).walk.light,
            old(self).walk.root@ == old(self).sending_dir@,
        ensures
            final(self).same_job(old(self)),
            final(self).same_files(old(self)),
            final(self).same_file(old(self)),
            final(self).chunk == old(self).chunk,
            final(self).turns_to_file(step),
            final(self).wf(),
    {
        if self.file < self.files.len() {
            self.phase = SenderPhase::Opening;
            Step::Perform(Action::OpenFile { path: self.files[self.file].clone() })
        } else {
            self.phase = SenderPhase::Closing;
            Step::Perform(
                Action::Send {
                    target: self.target.clone(),
                    request: WorkerRequest::Chunk {
                        done: true,
                        file_path: String::new(),
                        encrypted: self.password.is_some(),
                    },
                    payload: None,
                },
            )
        }
    }

    fn next_chunk(&mut self) -> (step: Step)
        requires
            old(self).file < old(self).files@.len(),
            old(self).chunk <= spec_num_chunks(old(self).size as nat),
            old(self).walk.wf(),
            old(self).walk.light,
            old(self).walk.root@ == old(self).sending_dir@,
        ensures
            final(self).same_job(old(self)),
            final(self).same_files(old(self)),
            final(self).wf(),
            if old(self).chunk < spec_num_chunks(old(self).size as nat) {
                &&& final(self).same_file(old(self))
                &&& final(self).chunk == old(self).chunk
                &&& final(self).turns_to_chunk(step)
            } else {
                &&& final(self).file == old(self).file + 1
                &&& final(self).turns_to_file(step)
            },
    {
        match chunk_range(self.size, self.chunk) {
            Some(range) => {
                self.phase = SenderPhase::Reading;
                Step::Perform(Action::ReadChunk { path: self.files[self.file].clone(), range })
            },
            None => {
                let count: usize = self.files.len();
                self.file = self.file + 1;
                self.next_file()
            },
        }
    }

    fn fail(&mut self, error: TransferError) -> (step: Step)
        requires
            old(self).wf(),
        ensures
            final(self).same_job(old(self)),
            final(self).same_files(old(self)),
            final(self).same_file(old(self)),
            final(self).chunk == old(self).chunk,
            final(self).phase == SenderPhase::Failed,
            final(self).wf(),
            step == Step::Failed(error),
    {
        self.phase = SenderPhase::Failed;
        Step::Failed(error)
    }

    /// Whether a worker that gathers its files, told of `event`, goes over
    /// into `next` and answers with `step`: the walk takes the event; while it
    /// goes on, the worker asks for what the walk asks for; when it is
    /// finished, the worker holds each file that was found once, and turns to
    /// the first.
    pub open spec fn walked(&self, event: Event, next: &Sender, step: Step) -> bool {
        let inner = if next.walk.phase == FlattenPhase::Finished {
            Step::Finished
        } else {
            step
        };
        &&& self.walk.stepped(event, &next.walk, inner)
        &&& match next.walk.phase {
            FlattenPhase::Finished => {
                &&& next.files.deep_view().no_duplicates()
                &&& next.files.deep_view().to_set() == next.walk.files.deep_view().to_set()
                &&& next.file == 0
                &&& next.turns_to_file(step)
            },
            FlattenPhase::Failed => {
                &&& next.phase == SenderPhase::Failed
                &&& next.files == self.files
                &&& next.file == self.file
                &&& step is Failed
            },
            _ => {
                &&& next.phase == SenderPhase::Flattening
                &&& next.files == self.files
                &&& next.file == self.file
                &&& step is Perform
            },
        }
    }

    /// Whether a worker in this state, told of `event`, goes over into `next`
    /// and answers with `step`.
    ///
    /// The files under the sending directory are gathered first. Each file is
    /// then opened, named, and sent chunk by chunk: a file of `size` bytes in
    /// `spec_num_chunks(size)` chunks, of which chunk `i` holds the bytes from
    /// `i * CHUNK_SIZE` on. A file travels under its path from the parent of
    /// the sending directory on, or, with a password, under the text form of
    /// that path encrypted; its chunks travel as they were read, or encrypted,
    /// each `OVERHEAD` bytes longer than it was. After the last file the
    /// stream is ended. The job is given up when a file does not lie under the
    /// parent of the sending directory, when bytes or a ciphertext have not the
    /// length they must have, and on any event that the state does not expect.
    pub open spec fn stepped(&self, event: Event, next: &Sender, step: Step) -> bool {
        &&& next.same_job(self)
        &&& if (self.phase == SenderPhase::Start && event is Start) || self.phase
            == SenderPhase::Flattening {
            self.walked(event, next, step)
        } else {
            &&& next.same_files(self)
            &&& match (self.phase, event) {
                (SenderPhase::Opening, Event::Opened { size }) => {
                    let path = self.files@[self.file as int]@;
                    let base = parent_of(self.sending_dir@);
                    if !has_prefix(path, base) {
                        &&& next.phase == SenderPhase::Failed
                        &&& step == Step::Failed(TransferError::PrefixMismatch)
                    } else {
                        &&& next.file == self.file
                        &&& next.size == size
                        &&& next.chunk == 0
                        &&& next.relative@ == path.skip(base.len() as int)
                        &&& match self.password {
                            Some(password) => {
                                &&& next.phase == SenderPhase::Naming
                                &&& step.encrypts(encode_utf8(next.relative@), password@)
                            },
                            None => {
                                &&& next.name@ == next.relative@
                                &&& next.turns_to_chunk(step)
                            },
                        }
                    }
                },
                (SenderPhase::Naming, Event::Data(cipher)) => {
                    if cipher@.len() != encode_utf8(self.relative@).len() + OVERHEAD
                        || !fits_text_form(cipher@.len()) {
                        &&& next.phase == SenderPhase::Failed
                        &&& step == Step::Failed(TransferError::WrongLength)
                    } else {
                        &&& next.file == self.file
                        &&& next.size == self.size
                        &&& next.chunk == self.chunk
                        &&& next.relative == self.relative
                        &&& next.name@ == encoded_name(cipher@)
                        &&& next.turns_to_chunk(step)
                    }
                },
                (SenderPhase::Reading, Event::Data(bytes)) => {
                    if bytes@.len() != self.chunk_len() {
                        &&& next.phase == SenderPhase::Failed
                        &&& step == Step::Failed(TransferError::WrongLength)
                    } else {
                        &&& next.same_file(self)
                        &&& next.chunk == self.chunk
                        &&& match self.password {
                            Some(password) => {
                                &&& next.phase == SenderPhase::Encrypting
                                &&& step.encrypts(bytes@, password@)
                            },
                            None => {
                                &&& next.phase == SenderPhase::Sending
                                &&& step.sends_chunk(
                                    self.target,
                                    self.name@,
                                    false,
                                    bytes@,
                                )
                            },
                        }
                    }
                },
                (SenderPhase::Encrypting, Event::Data(cipher)) => {
                    if cipher@.len() != self.chunk_len() + OVERHEAD {
                        &&& next.phase == SenderPhase::Failed
                        &&& step == Step::Failed(TransferError::WrongLength)
                    } else {
                        &&& next.same_file(self)
                        &&& next.chunk == self.chunk
                        &&& next.phase == SenderPhase::Sending
                        &&& step.sends_chunk(self.target, self.name@, true, cipher@)
                    }
                },
                (SenderPhase::Sending, Event::Done) => {
                    if self.chunk + 1 < spec_num_chunks(self.size as nat) {
                        &&& next.same_file(self)
                        &&& next.chunk == self.chunk + 1
                        &&& next.turns_to_chunk(step)
                    } else {
                        &&& next.file == self.file + 1
                        &&& next.turns_to_file(step)
                    }
                },
                (SenderPhase::Closing, Event::Done) => {
                    &&& next.file == self.file
                    &&& next.phase == SenderPhase::Finished
                    &&& step is Finished
                },
                _ => {
                    &&& next.same_file(self)
                    &&& next.chunk == self.chunk
                    &&& next.phase == SenderPhase::Failed
                    &&& step == Step::Failed(refusal(event))
                },
            }
        }
    }

    fn walk_on(&mut self, event: Event) -> (step: Step)
        requires
            old(self).wf(),
        ensures
            final(self).wf(),
            final(self).same_job(old(self)),
            old(self).walked(event, final(self), step),
    {
        let inner = self.walk.step(event);
        match inner {
            Step::Finished => {
                match self.walk.listing() {
                    Some(listing) => {
                        self.files = listing.paths();
                        self.file = 0;
                        assert(self.files.deep_view().to_set() =~= self.walk.files.deep_view().to_set());
                        self.next_file()
                    },
                    None => {
                        self.phase = SenderPhase::Failed;
                        Step::Failed(TransferError::UnexpectedEvent)
                    },
                }
            },
            Step::Failed(error) => {
                self.phase = SenderPhase::Failed;
                Step::Failed(error)
            },
            Step::Perform(action) => {
                self.phase = SenderPhase::Flattening;
                Step::Perform(action)
            },
        }
    }

    /// Takes in the outcome of the last operation and says how the job goes
    /// on.
    pub fn step(&mut self, event: Event) -> (step: Step)
        requires
            old(self).wf(),
        ensures
            final(self).wf(),
            old(self).stepped(event, final(self), step),
    {
        let phase = self.phase;
        let count: usize = self.files.len();
        match (phase, event) {
            (SenderPhase::Start, Event::Start) => self.walk_on(Event::Start),
            (SenderPhase::Flattening, event) => self.walk_on(event),
            (SenderPhase::Opening, Event::Opened { size }) => {
                let base = parent(self.sending_dir.as_str());
                match strip_prefix(self.files[self.file].as_str(), base.as_str()) {
                    None => self.fail(TransferError::PrefixMismatch),
                    Some(relative) => {
                        proof {
                            lemma_pieces_bounds(size as nat, CHUNK_SIZE as nat);
                        }
                        self.size = size;
                        self.chunk = 0;
                        self.relative = relative;
                        match &self.password {
                            Some(password) => {
                                let step = Step::Perform(
                                    Action::Encrypt {
                                        plain: name_plaintext(self.relative.as_str()),
                                        password: password.clone(),
                                    },
                                );
                                self.phase = SenderPhase::Naming;
                                step
                            },
                            None => {
                                self.name = self.relative.clone();
                                self.next_chunk()
                            },
                        }
                    },
                }
            },
            (SenderPhase::Naming, Event::Data(cipher)) => {
                let plain_len: usize = name_plaintext(self.relative.as_str()).len();
                if plain_len > usize::MAX - 44 || cipher.len() != plain_len + 44 {
                    return self.fail(TransferError::WrongLength);
                }
                match encode_name(cipher.as_slice()) {
                    None => self.fail(TransferError::WrongLength),
                    Some(name) => {
                        self.name = name;
                        self.next_chunk()
                    },
                }
            },
            (SenderPhase::Reading, Event::Data(bytes)) => {
                let length: u64 = match chunk_range(self.size, self.chunk) {
                    Some(range) => range.length,
                    None => 0,
                };
                if !same_length(bytes.len(), length) {
                    return self.fail(TransferError::WrongLength);
                }
                match &self.password {
                    Some(password) => {
                        let step = Step::Perform(
                            Action::Encrypt { plain: bytes, password: password.clone() },
                        );
                        self.phase = SenderPhase::Encrypting;
                        step
                    },
                    None => {
                        self.phase = SenderPhase::Sending;
                        Step::Perform(
                            Action::Send {
                                target: self.target.clone(),
                                request: WorkerRequest::Chunk {
                                    done: false,
                                    file_path: self.name.clone(),
                                    encrypted: false,
                                },
                                payload: Some(bytes),
                            },
                        )
                    },
                }
            },
            (SenderPhase::Encrypting, Event::Data(cipher)) => {
                let length: u64 = match chunk_range(self.size, self.chunk) {
                    Some(range) => range.length,
                    None => 0,
                };
                if !same_length(cipher.len(), length + OVERHEAD) {
                    return self.fail(TransferError::WrongLength);
                }
                self.phase = SenderPhase::Sending;
                Step::Perform(
                    Action::Send {
                        target: self.target.clone(),
                        request: WorkerRequest::Chunk {
                            done: false,
                            file_path: self.name.clone(),
                            encrypted: true,
                        },
                        payload: Some(cipher),
                    },
                )
            },
            (SenderPhase::Sending, Event::Done) => {
                self.chunk = self.chunk + 1;
                self.next_chunk()
            },
            (SenderPhase::Closing, Event::Done) => {
                self.phase = SenderPhase::Finished;
                Step::Finished
            },
            (_, event) => {
                let error = refuse(&event);
                self.fail(error)
            },
        }
    }
}

} // verus!
