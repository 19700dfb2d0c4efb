//! The decrypting pass: it turns a directory of received files, whose names
//! and contents are encrypted, back into the tree that was sent.

use crate::chunks::{
    encrypted_chunk_range, piece_len, same_length, spec_num_encrypted_chunks,
    ENCRYPTED_CHUNK_SIZE, OVERHEAD,
};
use crate::files::{read_nested_dir_light, Flatten, FlattenPhase};
use crate::names::{decode_name, name_from_plaintext, stored_name_bytes};
use crate::paths::{append, drop_first_char, parent, parent_of};
use crate::steps::{refusal, refuse, Action, Event, Step};
use crate::structs::{DirEntry, FileType, TransferError};
use crate::worker::{contains_file, lists_file};
use vstd::prelude::*;
use vstd::utf8::{decode_utf8, valid_utf8};

verus! {

/// A stored file that the pass gave up, and why.
#[derive(Debug)]
pub struct Failure {
    pub path: String,
    pub error: TransferError,
}

/// Where a decrypting pass stands.
#[derive(Clone, Copy, Debug, PartialEq, Eq, Structural)]
pub enum DecryptorPhase {
    /// Nothing was asked for yet.
    Start,
    /// The removal of the target directory is awaited.
    Clearing,
    /// The creation of the target directory is awaited.
    Creating,
    /// The stored files are being gathered.
    Flattening,
    /// The size of the current stored file is awaited.
    Opening,
    /// The decrypted name of the current file is awaited.
    Naming,
    /// The creation of the directory of the current file is awaited.
    Preparing,
    /// The listing that shows that this directory is there is awaited.
    Probing,
    /// The bytes of the current chunk are awaited.
    Reading,
    /// The plaintext of the current chunk is awaited.
    Decrypting,
    /// The listing of the directory of the current file is awaited.
    Checking,
    /// The creation of the current file is awaited.
    Making,
    /// The plaintext of the current chunk is being appended.
    Appending,
    Finished,
    Failed,
}

/// A decrypting pass.
pub struct Decryptor {
    /// The directory that holds the stored files.
    pub source_dir: String,
    /// The directory under which the decrypted tree is built.
    pub target_dir: String,
    /// The password under which names and chunks were encrypted.
    pub password: String,
    /// The walk that gathers the stored files.
    pub walk: Flatten,
    /// The stored files, by their paths, once they are gathered.
    pub files: Vec<String>,
    /// Number of the stored files that the pass is through with.
    pub file: usize,
    /// Size of the current stored file.
    pub size: u64,
    /// Number of the chunks of the current file that were written.
    pub chunk: u64,
    /// The path of the file that is being written.
    pub file_path: String,
    /// The directory of that file.
    pub parent: String,
    /// Length of the ciphertext that is being decrypted.
    pub cipher_len: usize,
    /// The plaintext that is to be appended.
    pub plain: Option<Vec<u8>>,
    /// The stored files that were given up.
    pub failures: Vec<Failure>,
    pub phase: DecryptorPhase,
}

impl Decryptor {
    /// Whether the pass stands at a stored file.
    pub open spec fn at_file(&self) -> bool {
        self.phase == DecryptorPhase::Opening || self.phase == DecryptorPhase::Naming || self.phase
            == DecryptorPhase::Preparing || self.phase == DecryptorPhase::Probing || self.at_chunk()
    }

    /// Whether the pass stands at a chunk of a stored file.
    pub open spec fn at_chunk(&self) -> bool {
        self.phase == DecryptorPhase::Reading || self.phase == DecryptorPhase::Decrypting
            || self.phase == DecryptorPhase::Checking || self.phase == DecryptorPhase::Making
            || self.phase == DecryptorPhase::Appending
    }

    /// What holds of a decrypting pass between two steps.
    pub open spec fn wf(&self) -> bool {
        &&& self.walk.wf()
        &&& self.walk.light
        &&& self.walk.root@ == self.source_dir@
        &&& (self.phase == DecryptorPhase::Start || self.phase == DecryptorPhase::Clearing
            || self.phase == DecryptorPhase::Creating) ==> self.walk.phase == FlattenPhase::Start
        &&& self.file <= self.files@.len()
        &&& self.at_file() ==> self.file < self.files@.len()
        &&& self.at_chunk() ==> self.chunk < spec_num_encrypted_chunks(self.size as nat)
            && self.chunk_len() >= OVERHEAD
        &&& (self.phase == DecryptorPhase::Checking || self.phase == DecryptorPhase::Making)
            ==> self.plain is Some
    }

    /// Length of the current chunk of the current stored file.
    pub open spec fn chunk_len(&self) -> nat {
        piece_len(self.size as nat, ENCRYPTED_CHUNK_SIZE as nat, self.chunk as nat)
    }

    /// The path of the current stored file.
    pub open spec fn current(&self) -> Seq<char> {
        self.files@[self.file as int]@
    }

    /// Whether the pass has the same job as `other`.
    pub open spec fn same_job(&self, other: &Decryptor) -> bool {
        &&& self.source_dir == other.source_dir
        &&& self.target_dir == other.target_dir
        &&& self.password == other.password
    }

    /// Whether the pass has gathered the same files as `other`.
    pub open spec fn same_files(&self, other: &Decryptor) -> bool {
        self.walk == other.walk && self.files == other.files
    }

    /// Whether the pass stands at the same file as `other`, with the same
    /// size and target, and has given up the same files.
    pub open spec fn same_file(&self, other: &Decryptor) -> bool {
        &&& self.file == other.file
        &&& self.size == other.size
        &&& self.file_path == other.file_path
        &&& self.parent == other.parent
        &&& self.failures == other.failures
    }

    /// Whether `step` is how a pass in this state turns to its next stored
    /// file: it opens it, or, when it is through with all, it ends.
    pub open spec fn turns_to_file(&self, step: Step) -> bool {
        if self.file < self.files@.len() {
            self.phase == DecryptorPhase::Opening && step.opens(self.current())
        } else {
            self.phase == DecryptorPhase::Finished && step is Finished
        }
    }

    /// Whether `next`, with `step`, is how a pass in this state gives up its
    /// current file for `error`: the file is noted, and the pass turns to the
    /// next.
    pub open spec fn gives_up(&self, error: TransferError, next: &Decryptor, step: Step) -> bool {
        &&& next.failures@.len() == self.failures@.len() + 1
        &&& next.failures@.drop_last() == self.failures@
        &&& next.failures@.last().path@ == self.current()
        &&& next.failures@.last().error == error
        &&& next.file == self.file + 1
        &&& next.turns_to_file(step)
    }

    /// Whether `next`, with `step`, is how a pass that stands at `chunk` of
    /// the same file goes on: with a chunk that is shorter than what
    /// encryption adds, it gives the file up; with any other chunk, it reads
    /// it; past the last chunk, it turns to the next file.
    pub open spec fn turns_to_chunk(&self, chunk: nat, next: &Decryptor, step: Step) -> bool {
        let length = piece_len(self.size as nat, ENCRYPTED_CHUNK_SIZE as nat, chunk);
        if chunk >= spec_num_encrypted_chunks(self.size as nat) {
            &&& next.failures == self.failures
            &&& next.file == self.file + 1
            &&& next.turns_to_file(step)
        } else if length < OVERHEAD {
            self.gives_up(TransferError::WrongLength, next, step)
        } else {
            &&& next.same_file(self)
            &&& next.chunk == chunk
            &&& next.phase == DecryptorPhase::Reading
            &&& step.reads(self.current(), (chunk * ENCRYPTED_CHUNK_SIZE) as nat, length)
        }
    }

    /// A pass that is to decrypt the files stored under `source_dir` into
    /// `target_dir`, under `password`.
    pub fn new(source_dir: String, target_dir: String, password: String) -> (r: Decryptor)
        ensures
            r.wf(),
            r.phase == DecryptorPhase::Start,
            r.source_dir == source_dir,
            r.target_dir == target_dir,
            r.password == password,
            r.files@.len() == 0,
            r.file == 0,
            r.size == 0,
            r.chunk == 0,
            r.file_path@.len() == 0,
            r.parent@.len() == 0,
            r.cipher_len == 0,
            r.plain is None,
            r.failures@.len() == 0,
            r.walk.pending@.len() == 0,
            r.walk.files@.len() == 0,
            r.walk.next == 0,
            r.walk.found@ == Map::<Seq<char>, Seq<char>>::empty(),
    {
        let walk = read_nested_dir_light(
            DirEntry { path: source_dir.clone(), file_type: FileType::Directory },
        );
        Decryptor {
            source_dir,
            target_dir,
            password,
            walk,
            files: Vec::new(),
            file: 0,
            size: 0,
            chunk: 0,
            file_path: String::new(),
            parent: String::new(),
            cipher_len: 0,
            plain: None,
            failures: Vec::new(),
            phase: DecryptorPhase::Start,
        }
    }

    /// Whether a pass that gathers its files, told of `event`, goes over into
    /// `next` and answers with `step`: the walk takes the event; while it
    /// goes on, the pass asks for what the walk asks for; when it is
    /// finished, the pass holds each stored file once, and turns to the first.
    pub open spec fn walked(&self, event: Event, next: &Decryptor, step: Step) -> bool {
        let inner = if next.walk.phase == FlattenPhase::Finished {
            Step::Finished
        } else {
            step
        };
        &&& self.walk.stepped(event, &next.walk, inner)
        &&& next.failures == self.failures
        &&& match next.walk.phase {
            FlattenPhase::Finished => {
                &&& next.files.deep_view().no_duplicates()
                &&& next.files.deep_view().to_set() == next.walk.files.deep_view().to_set()
                &&& next.file == 0
                &&& next.turns_to_file(step)
            },
            FlattenPhase::Failed => {
                &&& next.phase == DecryptorPhase::Failed
                &&& next.files == self.files
                &&& next.file == self.file
                &&& step is Failed
            },
            _ => {
                &&& next.phase == DecryptorPhase::Flattening
                &&& next.files == self.files
                &&& next.file == self.file
                &&& step is Perform
            },
        }
    }

    /// Whether a pass in this state, told of `event`, goes over into `next`
    /// and answers with `step`.
    ///
    /// The target directory is removed and created anew, and the stored files
    /// are gathered. Each stored file is opened; its name is read as text
    /// form of the encrypted relative path, which is decrypted; the directory
    /// of the file under the target directory is created and listed. The
    /// stored file is then read in steps of `ENCRYPTED_CHUNK_SIZE` bytes, and
    /// each chunk is decrypted and appended to the file, which is created
    /// where the listing of its directory does not show it. A stored file is
    /// given up, and the pass turns to the next, when its name is no text
    /// form, when its name or a chunk does not decrypt, when the decrypted
    /// name is not UTF-8, and when a chunk or its plaintext has not the length
    /// it must have. The pass is given up when an operation fails, and on any
    /// event that the state does not expect.
    pub open spec fn stepped(&self, event: Event, next: &Decryptor, step: Step) -> bool {
        &&& next.same_job(self)
        &&& if self.phase == DecryptorPhase::Flattening || (self.phase == DecryptorPhase::Creating
            && event is Done) {
            self.walked(if self.phase == DecryptorPhase::Creating {
                Event::Start
            } else {
                event
            }, next, step)
        } else {
            &&& next.same_files(self)
            &&& match (self.phase, event) {
                (DecryptorPhase::Start, Event::Start) => {
                    &&& next.same_file(self)
                    &&& next.phase == DecryptorPhase::Clearing
                    &&& step.removes_dir(self.target_dir@)
                },
                (DecryptorPhase::Clearing, Event::Done) => {
                    &&& next.same_file(self)
                    &&& next.phase == DecryptorPhase::Creating
                    &&& step.creates_dir(self.target_dir@)
                },
                (DecryptorPhase::Opening, Event::Opened { size }) => {
                    match stored_name_bytes(self.current()) {
                        None => self.gives_up(TransferError::InvalidName, next, step),
                        Some(cipher) => {
                            &&& next.failures == self.failures
                            &&& next.file == self.file
                            &&& next.size == size
                            &&& next.phase == DecryptorPhase::Naming
                            &&& step.decrypts(cipher, self.password@)
                        },
                    }
                },
                (DecryptorPhase::Naming, Event::Decrypted(plain)) => {
                    match plain {
                        None => self.gives_up(TransferError::DecryptFailed, next, step),
                        Some(bytes) => {
                            if !valid_utf8(bytes@) {
                                self.gives_up(TransferError::NotUtf8, next, step)
                            } else {
                                &&& next.failures == self.failures
                                &&& next.file == self.file
                                &&& next.size == self.size
                                &&& next.file_path@ == self.target_dir@ + decode_utf8(bytes@)
                                &&& next.parent@ == parent_of(next.file_path@)
                                &&& next.phase == DecryptorPhase::Preparing
                                &&& step.creates_dir(next.parent@)
                            }
                        },
                    }
                },
                (DecryptorPhase::Preparing, Event::Done) => {
                    if self.parent@.len() == 0 {
                        self.gives_up(TransferError::EmptyPath, next, step)
                    } else {
                        &&& next.same_file(self)
                        &&& next.phase == DecryptorPhase::Probing
                        &&& step.lists(self.parent@.skip(1))
                    }
                },
                (DecryptorPhase::Probing, Event::Entries(_)) => self.turns_to_chunk(0, next, step),
                (DecryptorPhase::Reading, Event::Data(bytes)) => {
                    if bytes@.len() != self.chunk_len() {
                        self.gives_up(TransferError::WrongLength, next, step)
                    } else {
                        &&& next.same_file(self)
                        &&& next.chunk == self.chunk
                        &&& next.phase == DecryptorPhase::Decrypting
                        &&& next.cipher_len == bytes@.len()
                        &&& step.decrypts(bytes@, self.password@)
                    }
                },
                (DecryptorPhase::Decrypting, Event::Decrypted(plain)) => {
                    match plain {
                        None => self.gives_up(TransferError::DecryptFailed, next, step),
                        Some(bytes) => {
                            if bytes@.len() + OVERHEAD != self.cipher_len {
                                self.gives_up(TransferError::WrongLength, next, step)
                            } else {
                                &&& next.same_file(self)
                                &&& next.chunk == self.chunk
                                &&& next.plain == Some(bytes)
                                &&& next.phase == DecryptorPhase::Checking
                                &&& step.lists(self.parent@)
                            }
                        },
                    }
                },
                (DecryptorPhase::Checking, Event::Entries(entries)) => {
                    &&& next.same_file(self)
                    &&& next.chunk == self.chunk
                    &&& if self.file_path@.len() > 0 && lists_file(
                        entries@,
                        self.file_path@.skip(1),
                    ) {
                        &&& next.plain is None
                        &&& next.phase == DecryptorPhase::Appending
                        &&& step.appends(self.file_path@, self.plain->0@)
                    } else {
                        &&& next.plain == self.plain
                        &&& next.phase == DecryptorPhase::Making
                        &&& step.creates_file(self.file_path@)
                    }
                },
                (DecryptorPhase::Making, Event::Done) => {
                    &&& next.same_file(self)
                    &&& next.chunk == self.chunk
                    &&& next.plain is None
                    &&& next.phase == DecryptorPhase::Appending
                    &&& step.appends(self.file_path@, self.plain->0@)
                },
                (DecryptorPhase::Appending, Event::Done) => self.turns_to_chunk(
                    (self.chunk + 1) as nat,
                    next,
                    step,
                ),
                _ => {
                    &&& next.same_file(self)
                    &&& next.chunk == self.chunk
                    &&& next.phase == DecryptorPhase::Failed
                    &&& step == Step::Failed(refusal(event))
                },
            }
        }
    }

    fn next_file(&mut self) -> (step: Step)
        requires
            old(self).file <= old(self).files@.len(),
            old(self).walk.wf(),
            old(self).walk.light,
            old(self).walk.root@ == old(self).source_dir@,
        ensures
            final(self).same_job(old(self)),
            final(self).same_files(old(self)),
            final(self).same_file(old(self)),
            final(self).turns_to_file(step),
            final(self).wf(),
    {
        if self.file < self.files.len() {
            self.phase = DecryptorPhase::Opening;
            Step::Perform(Action::OpenFile { path: self.files[self.file].clone() })
        } else {
            self.phase = DecryptorPhase::Finished;
            Step::Finished
        }
    }

    fn give_up(&mut self, error: TransferError) -> (step: Step)
        requires
            old(self).file < old(self).files@.len(),
            old(self).walk.wf(),
            old(self).walk.light,
            old(self).walk.root@ == old(self).source_dir@,
        ensures
            final(self).same_job(old(self)),
            final(self).same_files(old(self)),
            final(self).size == old(self).size,
            final(self).file_path == old(self).file_path,
            final(self).parent == old(self).parent,
            old(self).gives_up(error, final(self), step),
            final(self).wf(),
    {
        let count: usize = self.files.len();
        self.failures.push(Failure { path: self.files[self.file].clone(), error });
        assert(self.failures@.drop_last() =~= old(self).failures@);
        self.file = self.file + 1;
        self.next_file()
    }

    fn next_chunk(&mut self, chunk: u64) -> (step: Step)
        requires
            old(self).file < old(self).files@.len(),
            old(self).walk.wf(),
            old(self).walk.light,
            old(self).walk.root@ == old(self).source_dir@,
        ensures
            final(self).same_job(old(self)),
            final(self).same_files(old(self)),
            old(self).turns_to_chunk(chunk as nat, final(self), step),
            final(self).wf(),
    {
        match encrypted_chunk_range(self.size, chunk) {
            Some(range) => {
                if range.length < OVERHEAD {
                    self.give_up(TransferError::WrongLength)
                } else {
                    self.chunk = chunk;
                    self.phase = DecryptorPhase::Reading;
                    Step::Perform(Action::ReadChunk { path: self.files[self.file].clone(), range })
                }
            },
            None => {
                let count: usize = self.files.len();
                self.file = self.file + 1;
                self.next_file()
            },
        }
    }

    fn append(&mut self) -> (step: Step)
        requires
            old(self).wf(),
            old(self).at_chunk(),
            old(self).plain is Some,
        ensures
            final(self).same_job(old(self)),
            final(self).same_files(old(self)),
            final(self).same_file(old(self)),
            final(self).chunk == old(self).chunk,
            final(self).plain is None,
            final(self).phase == DecryptorPhase::Appending,
            step.appends(old(self).file_path@, old(self).plain->0@),
            final(self).wf(),
    {
        let mut plain: Option<Vec<u8>> = None;
        core::mem::swap(&mut self.plain, &mut plain);
        self.phase = DecryptorPhase::Appending;
        match plain {
            Some(bytes) => Step::Perform(Action::Append { path: self.file_path.clone(), bytes }),
            None => Step::Failed(TransferError::UnexpectedEvent),
        }
    }

    fn walk_on(&mut self, event: Event) -> (step: Step)
        requires
            old(self).wf(),
        ensures
            final(self).wf(),
            final(self).same_job(old(self)),
            old(self).walked(event, final(self), step),
    {
        let inner = self.walk.step(event);
        match inner {
            Step::Finished => {
                match self.walk.listing() {
                    Some(listing) => {
                        self.files = listing.paths();
                        self.file = 0;
                        assert(self.files.deep_view().to_set() =~= self.walk.files.deep_view().to_set());
                        self.next_file()
                    },
                    None => {
                        self.phase = DecryptorPhase::Failed;
                        Step::Failed(TransferError::UnexpectedEvent)
                    },
                }
            },
            Step::Failed(error) => {
                self.phase = DecryptorPhase::Failed;
                Step::Failed(error)
            },
            Step::Perform(action) => {
                self.phase = DecryptorPhase::Flattening;
                Step::Perform(action)
            },
        }
    }

    /// Takes in the outcome of the last operation and says how the pass goes
    /// on.
    pub fn step(&mut self, event: Event) -> (step: Step)
        requires
            old(self).wf(),
        ensures
            final(self).wf(),
            old(self).stepped(event, final(self), step),
    {
        let phase = self.phase;
        match (phase, event) {
            (DecryptorPhase::Start, Event::Start) => {
                self.phase = DecryptorPhase::Clearing;
                Step::Perform(Action::RemoveDirAll { path: self.target_dir.clone() })
            },
            (DecryptorPhase::Clearing, Event::Done) => {
                self.phase = DecryptorPhase::Creating;
                Step::Perform(Action::CreateDirAll { path: self.target_dir.clone() })
            },
            (DecryptorPhase::Creating, Event::Done) => self.walk_on(Event::Start),
            (DecryptorPhase::Flattening, event) => self.walk_on(event),
            (DecryptorPhase::Opening, Event::Opened { size }) => {
                match decode_name(self.files[self.file].as_str()) {
                    Err(error) => self.give_up(error),
                    Ok(cipher) => {
                        self.size = size;
                        self.phase = DecryptorPhase::Naming;
                        Step::Perform(Action::Decrypt { cipher, password: self.password.clone() })
                    },
                }
            },
            (DecryptorPhase::Naming, Event::Decrypted(plain)) => {
                match plain {
                    None => self.give_up(TransferError::DecryptFailed),
                    Some(bytes) => {
                        match name_from_plaintext(bytes.as_slice()) {
                            Err(error) => self.give_up(error),
                            Ok(relative) => {
                                self.file_path = append(
                                    self.target_dir.as_str(),
                                    relative.as_str(),
                                );
                                self.parent = parent(self.file_path.as_str());
                                self.phase = DecryptorPhase::Preparing;
                                Step::Perform(Action::CreateDirAll { path: self.parent.clone() })
                            },
                        }
                    },
                }
            },
            (DecryptorPhase::Preparing, Event::Done) => {
                match drop_first_char(self.parent.as_str()) {
                    None => self.give_up(TransferError::EmptyPath),
                    Some(path) => {
                        self.phase = DecryptorPhase::Probing;
                        Step::Perform(Action::ReadDir { path })
                    },
                }
            },
            (DecryptorPhase::Probing, Event::Entries(_)) => self.next_chunk(0),
            (DecryptorPhase::Reading, Event::Data(bytes)) => {
                let length: u64 = match encrypted_chunk_range(self.size, self.chunk) {
                    Some(range) => range.length,
                    None => 0,
                };
                if !same_length(bytes.len(), length) {
                    return self.give_up(TransferError::WrongLength);
                }
                self.cipher_len = bytes.len();
                self.phase = DecryptorPhase::Decrypting;
                Step::Perform(Action::Decrypt { cipher: bytes, password: self.password.clone() })
            },
            (DecryptorPhase::Decrypting, Event::Decrypted(plain)) => {
                match plain {
                    None => self.give_up(TransferError::DecryptFailed),
                    Some(bytes) => {
                        if self.cipher_len < 44 || bytes.len() != self.cipher_len - 44 {
                            return self.give_up(TransferError::WrongLength);
                        }
                        self.plain = Some(bytes);
                        self.phase = DecryptorPhase::Checking;
                        Step::Perform(Action::ReadDir { path: self.parent.clone() })
                    },
                }
            },
            (DecryptorPhase::Checking, Event::Entries(entries)) => {
                let listed = match drop_first_char(self.file_path.as_str()) {
                    Some(path) => contains_file(&entries, path.as_str()),
                    None => false,
                };
                if listed {
                    self.append()
                } else {
                    self.phase = DecryptorPhase::Making;
                    Step::Perform(Action::CreateFile { path: self.file_path.clone() })
                }
            },
            (DecryptorPhase::Making, Event::Done) => self.append(),
            (DecryptorPhase::Appending, Event::Done) => {
                let chunk: u64 = self.chunk + 1;
                self.next_chunk(chunk)
            },
            (_, event) => {
                self.phase = DecryptorPhase::Failed;
                Step::Failed(refuse(&event))
            },
        }
    }
}

} // verus!
