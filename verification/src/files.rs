//! Flattening a directory: from a directory to the files that lie anywhere
//! below it, with their contents or with empty placeholders.

use crate::listing::Listing;
use crate::names::str_from_utf8;
use crate::paths::{is_os_metadata, is_os_metadata_path};
use crate::steps::{refusal, refuse, Action, Event, Step};
use crate::structs::{DirEntry, FileType, TransferError};
use vstd::prelude::*;
use vstd::utf8::{decode_utf8, valid_utf8};

verus! {

/// Whether a file at `path` that holds `bytes` is taken into a listing with
/// its content: it is no file of the operating system's, and it is text.
pub open spec fn readable(path: Seq<char>, bytes: Seq<u8>) -> bool {
    !is_os_metadata_path(path) && valid_utf8(bytes)
}

/// The content of the file `dir`, from which `contents` was read, as text.
/// A file of the operating system's is refused, and so is one that is not
/// UTF-8.
pub fn read_file(dir: &DirEntry, contents: &[u8]) -> (r: Result<String, TransferError>)
    ensures
        match r {
            Ok(text) => readable(dir.path@, contents@) && text@ == decode_utf8(contents@),
            Err(e) => !readable(dir.path@, contents@) && e == if is_os_metadata_path(dir.path@) {
                TransferError::OsMetadata
            } else {
                TransferError::NotUtf8
            },
        },
{
    if is_os_metadata(dir.path.as_str()) {
        return Err(TransferError::OsMetadata);
    }
    match str_from_utf8(contents) {
        Some(text) => Ok(text.to_owned()),
        None => Err(TransferError::NotUtf8),
    }
}

/// The mapping that `read_files` builds: each readable file under its path,
/// a later one in place of an earlier one with the same path.
pub open spec fn contents_of(files: Seq<(DirEntry, Vec<u8>)>) -> Map<Seq<char>, Seq<char>>
    decreases files.len(),
{
    if files.len() == 0 {
        Map::empty()
    } else {
        let rest = contents_of(files.drop_last());
        let (entry, bytes) = files.last();
        if readable(entry.path@, bytes@) {
            rest.insert(entry.path@, decode_utf8(bytes@))
        } else {
            rest
        }
    }
}

/// The listing of the given files, each with the bytes that were read from
/// it. Files that are not readable are left out.
pub fn read_files(files: Vec<(DirEntry, Vec<u8>)>) -> (r: Listing)
    ensures
        r@ == contents_of(files@),
{
    let mut r = Listing::new();
    let mut i: usize = 0;
    while i < files.len()
        invariant
            i <= files@.len(),
            r@ == contents_of(files@.take(i as int)),
        decreases files@.len() - i,
    {
        proof {
            assert(files@.take(i + 1).drop_last() =~= files@.take(i as int));
        }
        match read_file(&files[i].0, files[i].1.as_slice()) {
            Ok(text) => {
                r.insert(files[i].0.path.clone(), text);
            },
            Err(_) => {},
        }
        i += 1;
    }
    proof {
        assert(files@.take(files@.len() as int) =~= files@);
    }
    r
}

/// The mapping in which each of `paths` stands for an empty content.
pub open spec fn placeholders(paths: Set<Seq<char>>) -> Map<Seq<char>, Seq<char>> {
    Map::new(|path: Seq<char>| paths.contains(path), |path: Seq<char>| Seq::<char>::empty())
}

/// The paths of the files among `dirs` that a transfer takes: all but those
/// of the operating system's own files.
pub open spec fn transferable(dirs: Seq<DirEntry>) -> Set<Seq<char>> {
    Set::new(
        |path: Seq<char>|
            !is_os_metadata_path(path) && exists|i: int|
                0 <= i < dirs.len() && (#[trigger] dirs[i]).path@ == path,
    )
}

/// The listing of the given files without their contents: each path that a
/// transfer takes stands for an empty content.
pub fn read_files_light(dirs: Vec<DirEntry>) -> (r: Listing)
    ensures
        r@ == placeholders(transferable(dirs@)),
{
    let mut r = Listing::new();
    let mut i: usize = 0;
    assert(r@ =~= placeholders(transferable(dirs@.take(0))));
    while i < dirs.len()
        invariant
            i <= dirs@.len(),
            r@ == placeholders(transferable(dirs@.take(i as int))),
        decreases dirs@.len() - i,
    {
        let ghost before = dirs@.take(i as int);
        let ghost after = dirs@.take(i + 1);
        let ghost path = dirs@[i as int].path@;
        proof {
            assert(after[i as int].path@ == path);
            assert forall|p: Seq<char>| transferable(after).contains(p) <==> (transferable(
                before,
            ).contains(p) || (p == path && !is_os_metadata_path(path))) by {
                if transferable(after).contains(p) {
                    let k = choose|k: int| 0 <= k < after.len() && (#[trigger] after[k]).path@ == p;
                    if k < i {
                        assert(before[k].path@ == p);
                    }
                }
                if transferable(before).contains(p) {
                    let k = choose|k: int|
                        0 <= k < before.len() && (#[trigger] before[k]).path@ == p;
                    assert(after[k].path@ == p);
                }
            }
        }
        if !is_os_metadata(dirs[i].path.as_str()) {
            r.insert(dirs[i].path.clone(), String::new());
            assert(r@ =~= placeholders(transferable(after)));
        } else {
            assert(r@ =~= placeholders(transferable(after)));
        }
        i += 1;
    }
    proof {
        assert(dirs@.take(dirs@.len() as int) =~= dirs@);
    }
    r
}

/// The paths of the directories among `entries`, in their order.
pub open spec fn directories_in(entries: Seq<DirEntry>) -> Seq<Seq<char>>
    decreases entries.len(),
{
    if entries.len() == 0 {
        Seq::empty()
    } else if entries.last().file_type == FileType::Directory {
        directories_in(entries.drop_last()).push(entries.last().path@)
    } else {
        directories_in(entries.drop_last())
    }
}

/// The paths of the entries among `entries` that are no directories and that
/// a transfer takes, in their order.
pub open spec fn files_in(entries: Seq<DirEntry>) -> Seq<Seq<char>>
    decreases entries.len(),
{
    if entries.len() == 0 {
        Seq::empty()
    } else if entries.last().file_type != FileType::Directory && !is_os_metadata_path(
        entries.last().path@,
    ) {
        files_in(entries.drop_last()).push(entries.last().path@)
    } else {
        files_in(entries.drop_last())
    }
}

/// Where a walk through a directory stands.
#[derive(Clone, Copy, Debug, PartialEq, Eq, Structural)]
pub enum FlattenPhase {
    /// Nothing was asked for yet.
    Start,
    /// The listing of the last pending directory is awaited.
    Listing,
    /// The content of the next file is awaited.
    Reading,
    Finished,
    Failed,
}

/// A walk through a directory and all the directories below it, which
/// gathers the files that a transfer takes. A light walk gathers their paths
/// only; a full walk then reads each of them, and leaves out those that
/// cannot be read or are no text.
pub struct Flatten {
    pub light: bool,
    pub root: String,
    /// The directories that are still to be listed; the last one is next.
    pub pending: Vec<String>,
    /// The files that were found, in the order in which they were found.
    pub files: Vec<String>,
    /// Number of the files that a full walk has gone through.
    pub next: usize,
    /// What a full walk has read.
    pub found: Listing,
    pub phase: FlattenPhase,
}

/// The walk that gathers the files below `dir` with their contents.
pub fn read_nested_dir(dir: DirEntry) -> (walk: Flatten)
    ensures
        walk.wf(),
        !walk.light,
        walk.root@ == dir.path@,
        walk.phase == FlattenPhase::Start,
        walk.pending@.len() == 0,
        walk.files@.len() == 0,
        walk.next == 0,
        walk.found@ == Map::<Seq<char>, Seq<char>>::empty(),
{
    Flatten {
        light: false,
        root: dir.path,
        pending: Vec::new(),
        files: Vec::new(),
        next: 0,
        found: Listing::new(),
        phase: FlattenPhase::Start,
    }
}

/// The walk that gathers the paths of the files below `dir`.
pub fn read_nested_dir_light(dir: DirEntry) -> (walk: Flatten)
    ensures
        walk.wf(),
        walk.light,
        walk.root@ == dir.path@,
        walk.phase == FlattenPhase::Start,
        walk.pending@.len() == 0,
        walk.files@.len() == 0,
        walk.next == 0,
        walk.found@ == Map::<Seq<char>, Seq<char>>::empty(),
{
    Flatten {
        light: true,
        root: dir.path,
        pending: Vec::new(),
        files: Vec::new(),
        next: 0,
        found: Listing::new(),
        phase: FlattenPhase::Start,
    }
}

impl Flatten {
    /// What holds of a walk between two steps.
    pub open spec fn wf(&self) -> bool {
        &&& self.next <= self.files@.len()
        &&& self.phase == FlattenPhase::Start ==> self.pending@.len() == 0
        &&& self.phase == FlattenPhase::Listing ==> self.pending@.len() > 0
        &&& self.phase == FlattenPhase::Reading ==> !self.light && self.pending@.len() == 0
            && self.next < self.files@.len()
        &&& self.phase == FlattenPhase::Finished ==> self.pending@.len() == 0 && (self.light
            || self.next == self.files@.len())
    }

    /// Whether `step` is what a walk in this state goes on with: the listing
    /// of the last pending directory; when none is pending, in a full walk,
    /// the reading of the next file; else the end.
    pub open spec fn resumes(&self, step: Step) -> bool {
        if self.pending@.len() > 0 {
            &&& self.phase == FlattenPhase::Listing
            &&& step matches Step::Perform(Action::ReadDir { path })
            &&& path@ == self.pending@.last()@
        } else if !self.light && self.next < self.files@.len() {
            &&& self.phase == FlattenPhase::Reading
            &&& step matches Step::Perform(Action::ReadFile { path })
            &&& path@ == self.files@[self.next as int]@
        } else {
            self.phase == FlattenPhase::Finished && step is Finished
        }
    }

    /// Whether the walk is the same as `other` but for its phase.
    pub open spec fn same_progress(&self, other: &Flatten) -> bool {
        &&& self.light == other.light
        &&& self.root == other.root
        &&& self.pending == other.pending
        &&& self.files == other.files
        &&& self.next == other.next
        &&& self.found@ == other.found@
    }

    fn resume(&mut self) -> (step: Step)
        requires
            old(self).next <= old(self).files@.len(),
        ensures
            final(self).same_progress(old(self)),
            final(self).resumes(step),
            final(self).wf(),
    {
        if self.pending.len() > 0 {
            self.phase = FlattenPhase::Listing;
            Step::Perform(Action::ReadDir { path: self.pending[self.pending.len() - 1].clone() })
        } else if !self.light && self.next < self.files.len() {
            self.phase = FlattenPhase::Reading;
            Step::Perform(Action::ReadFile { path: self.files[self.next].clone() })
        } else {
            self.phase = FlattenPhase::Finished;
            Step::Finished
        }
    }

    fn take_entries(&mut self, entries: &Vec<DirEntry>)
        ensures
            final(self).pending.deep_view() == old(self).pending.deep_view() + directories_in(
                entries@,
            ),
            final(self).files.deep_view() == old(self).files.deep_view() + files_in(entries@),
            final(self).files@.len() >= old(self).files@.len(),
            final(self).light == old(self).light,
            final(self).root == old(self).root,
            final(self).next == old(self).next,
            final(self).found@ == old(self).found@,
            final(self).phase == old(self).phase,
    {
        let ghost pre = *self;
        let mut i: usize = 0;
        assert(self.pending.deep_view() =~= pre.pending.deep_view() + directories_in(
            entries@.take(0),
        ));
        assert(self.files.deep_view() =~= pre.files.deep_view() + files_in(entries@.take(0)));
        while i < entries.len()
            invariant
                i <= entries@.len(),
                self.pending.deep_view() == pre.pending.deep_view() + directories_in(
                    entries@.take(i as int),
                ),
                self.files.deep_view() == pre.files.deep_view() + files_in(entries@.take(i as int)),
                self.files@.len() >= pre.files@.len(),
                self.light == pre.light,
                self.root == pre.root,
                self.next == pre.next,
                self.found@ == pre.found@,
                self.phase == pre.phase,
            decreases entries@.len() - i,
        {
            let ghost pending = self.pending.deep_view();
            let ghost files = self.files.deep_view();
            proof {
                assert(entries@.take(i + 1).drop_last() =~= entries@.take(i as int));
                assert(entries@.take(i + 1).last() == entries@[i as int]);
            }
            if entries[i].file_type == FileType::Directory {
                self.pending.push(entries[i].path.clone());
                assert(self.pending.deep_view() =~= pending.push(entries@[i as int].path@));
                assert(self.pending.deep_view() =~= pre.pending.deep_view() + directories_in(
                    entries@.take(i + 1),
                ));
            } else if !is_os_metadata(entries[i].path.as_str()) {
                self.files.push(entries[i].path.clone());
                assert(self.files.deep_view() =~= files.push(entries@[i as int].path@));
                assert(self.files.deep_view() =~= pre.files.deep_view() + files_in(
                    entries@.take(i + 1),
                ));
            }
            i += 1;
        }
        proof {
            assert(entries@.take(entries@.len() as int) =~= entries@);
        }
    }

    /// Whether a walk in this state, told of `event`, goes over into `next`
    /// and answers with `step`.
    ///
    /// The listing of a directory puts its directories behind the pending
    /// ones and its files behind the files found. In a full walk, a file that
    /// was read and is text enters `found`; one that could not be read is
    /// passed over. Any other event ends the walk with an error.
    pub open spec fn stepped(&self, event: Event, next: &Flatten, step: Step) -> bool {
        &&& next.light == self.light
        &&& next.root == self.root
        &&& match (self.phase, event) {
            (FlattenPhase::Start, Event::Start) => {
                &&& next.pending.deep_view() == seq![self.root@]
                &&& next.files == self.files
                &&& next.next == self.next
                &&& next.found@ == self.found@
                &&& next.resumes(step)
            },
            (FlattenPhase::Listing, Event::Entries(entries)) => {
                &&& next.pending.deep_view() == self.pending.deep_view().drop_last()
                    + directories_in(entries@)
                &&& next.files.deep_view() == self.files.deep_view() + files_in(entries@)
                &&& next.next == self.next
                &&& next.found@ == self.found@
                &&& next.resumes(step)
            },
            (FlattenPhase::Reading, Event::Data(bytes)) => {
                &&& next.pending == self.pending
                &&& next.files == self.files
                &&& next.next == self.next + 1
                &&& next.found@ == if valid_utf8(bytes@) {
                    self.found@.insert(self.files@[self.next as int]@, decode_utf8(bytes@))
                } else {
                    self.found@
                }
                &&& next.resumes(step)
            },
            (FlattenPhase::Reading, Event::Failed) | (FlattenPhase::Reading, Event::TimedOut) => {
                &&& next.pending == self.pending
                &&& next.files == self.files
                &&& next.next == self.next + 1
                &&& next.found@ == self.found@
                &&& next.resumes(step)
            },
            _ => {
                &&& next.same_progress(self)
                &&& next.phase == FlattenPhase::Failed
                &&& step == Step::Failed(refusal(event))
            },
        }
    }

    /// Takes in the outcome of the last operation and says how the walk goes
    /// on.
    pub fn step(&mut self, event: Event) -> (step: Step)
        requires
            old(self).wf(),
        ensures
            final(self).wf(),
            old(self).stepped(event, final(self), step),
    {
        let phase = self.phase;
        let count: usize = self.files.len();
        match (phase, event) {
            (FlattenPhase::Start, Event::Start) => {
                self.pending.push(self.root.clone());
                assert(self.pending.deep_view() =~= seq![old(self).root@]);
                self.resume()
            },
            (FlattenPhase::Listing, Event::Entries(entries)) => {
                let ghost before = self.pending.deep_view();
                self.pending.pop();
                assert(self.pending.deep_view() =~= before.drop_last());
                self.take_entries(&entries);
                self.resume()
            },
            (FlattenPhase::Reading, Event::Data(bytes)) => {
                match str_from_utf8(bytes.as_slice()) {
                    Some(text) => {
                        self.found.insert(self.files[self.next].clone(), text.to_owned());
                    },
                    None => {},
                }
                self.next = self.next + 1;
                self.resume()
            },
            (FlattenPhase::Reading, Event::Failed) => {
                self.next = self.next + 1;
                self.resume()
            },
            (FlattenPhase::Reading, Event::TimedOut) => {
                self.next = self.next + 1;
                self.resume()
            },
            (_, event) => {
                self.phase = FlattenPhase::Failed;
                Step::Failed(refuse(&event))
            },
        }
    }

    /// What the walk has gathered, once it is finished: after a light walk
    /// each file that was found, with an empty content; after a full walk the
    /// files that were read, with their contents.
    pub fn listing(&self) -> (r: Option<Listing>)
        ensures
            r is Some <==> self.phase == FlattenPhase::Finished,
            r matches Some(listing) ==> listing@ == if self.light {
                placeholders(self.files.deep_view().to_set())
            } else {
                self.found@
            },
    {
        if self.phase != FlattenPhase::Finished {
            return None;
        }
        if !self.light {
            return Some(self.found.clone());
        }
        let mut r = Listing::new();
        let mut i: usize = 0;
        assert(r@ =~= placeholders(self.files.deep_view().take(0).to_set()));
        while i < self.files.len()
            invariant
                i <= self.files@.len(),
                r@ == placeholders(self.files.deep_view().take(i as int).to_set()),
            decreases self.files@.len() - i,
        {
            let ghost paths = self.files.deep_view();
            r.insert(self.files[i].clone(), String::new());
            proof {
                assert(paths.take(i + 1) =~= paths.take(i as int).push(paths[i as int]));
                paths.take(i as int).lemma_push_to_set_commute(paths[i as int]);
                assert(r@ =~= placeholders(paths.take(i + 1).to_set()));
            }
            i += 1;
        }
        proof {
            assert(self.files.deep_view().take(self.files@.len() as int) =~= self.files.deep_view());
        }
        Some(r)
    }
}

} // verus!
