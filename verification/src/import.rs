//! Writing a flattened directory out under a directory of the file service.

use crate::listing::Listing;
use crate::names::name_plaintext;
use crate::paths::{rooted_parent, rooted_parent_of};
use crate::steps::Action;
use vstd::prelude::*;
use vstd::utf8::encode_utf8;

verus! {

/// One operation of an import, as a plain value.
pub enum Planned {
    /// Create the directory and its ancestors.
    CreateDir(Seq<char>),
    /// Open the file, creating it if need be, and write the bytes.
    Write(Seq<char>, Seq<u8>),
    /// Anything else.
    Other,
}

/// What `action` asks for, as far as an import goes.
pub open spec fn planned(action: Action) -> Planned {
    match action {
        Action::CreateDirAll { path } => Planned::CreateDir(path@),
        Action::Write { path, bytes } => Planned::Write(path@, bytes@),
        _ => Planned::Other,
    }
}

/// Where the file `file_path` of a flattened directory goes under `import_to`.
pub open spec fn import_target(import_to: Seq<char>, file_path: Seq<char>) -> Seq<char> {
    import_to + seq!['/'] + file_path
}

/// The directories into which the files `keys` go, one for each file.
pub open spec fn import_dirs(keys: Seq<Seq<char>>, import_to: Seq<char>) -> Seq<Seq<char>> {
    keys.map_values(|key: Seq<char>| rooted_parent_of(import_target(import_to, key)))
}

/// The operations of an import, in order: for each file, in the order of
/// `keys`, the creation of its directory, unless an earlier file went into
/// the same directory, then the writing of its content.
pub open spec fn import_plan(
    keys: Seq<Seq<char>>,
    contents: Map<Seq<char>, Seq<char>>,
    import_to: Seq<char>,
) -> Seq<Planned>
    decreases keys.len(),
{
    if keys.len() == 0 {
        Seq::empty()
    } else {
        let before = import_plan(keys.drop_last(), contents, import_to);
        let target = import_target(import_to, keys.last());
        let dir = rooted_parent_of(target);
        let write = Planned::Write(target, encode_utf8(contents[keys.last()]));
        if import_dirs(keys.drop_last(), import_to).contains(dir) {
            before.push(write)
        } else {
            before.push(Planned::CreateDir(dir)).push(write)
        }
    }
}

/// Whether `list` holds `text`.
fn contains_text(list: &Vec<String>, text: &String) -> (r: bool)
    ensures
        r == list.deep_view().contains(text@),
{
    let mut i: usize = 0;
    while i < list.len()
        invariant
            i <= list@.len(),
            forall|j: int| 0 <= j < i ==> list.deep_view()[j] != text@,
        decreases list@.len() - i,
    {
        if list[i] == *text {
            assert(list.deep_view()[i as int] == text@);
            return true;
        }
        i += 1;
    }
    false
}

/// The operations that write the flattened `directory` out under
/// `import_to`, in the order in which they are to be performed; the import
/// stops at the first of them that fails.
pub fn import_notes(directory: Listing, import_to: &String) -> (plan: Vec<Action>)
    ensures
        plan@.map_values(|action: Action| planned(action)) == import_plan(
            directory.keys(),
            directory@,
            import_to@,
        ),
{
    let ghost keys = directory.keys();
    let ghost describe = |action: Action| planned(action);
    let mut plan: Vec<Action> = Vec::new();
    let mut dirs_created: Vec<String> = Vec::new();
    let n: usize = directory.len();
    let mut i: usize = 0;
    proof {
        reveal_strlit("/");
        assert("/"@ =~= seq!['/']);
        assert(plan@.map_values(describe) =~= import_plan(keys.take(0), directory@, import_to@));
        assert(dirs_created.deep_view() =~= import_dirs(keys.take(0), import_to@));
    }
    while i < n
        invariant
            i <= n,
            n == keys.len(),
            keys == directory.keys(),
            "/"@ == seq!['/'],
            describe == (|action: Action| planned(action)),
            plan@.map_values(describe) == import_plan(keys.take(i as int), directory@, import_to@),
            dirs_created.deep_view() == import_dirs(keys.take(i as int), import_to@),
        decreases n - i,
    {
        let ghost sofar = plan@.map_values(describe);
        let ghost dirs = dirs_created.deep_view();
        match directory.entry(i) {
            None => {},
            Some(entry) => {
                let target = import_to.clone().concat("/").concat(entry.path.as_str());
                let dir = rooted_parent(target.as_str());
                proof {
                    assert(keys.take(i + 1).drop_last() =~= keys.take(i as int));
                    assert(keys.take(i + 1).last() == keys[i as int]);
                    assert(target@ =~= import_target(import_to@, keys[i as int]));
                }
                let ghost write = Planned::Write(target@, encode_utf8(entry.content@));
                if !contains_text(&dirs_created, &dir) {
                    plan.push(Action::CreateDirAll { path: dir.clone() });
                    assert(plan@.map_values(describe) =~= sofar.push(Planned::CreateDir(dir@)));
                }
                let ghost middle = plan@.map_values(describe);
                plan.push(
                    Action::Write { path: target, bytes: name_plaintext(entry.content.as_str()) },
                );
                assert(plan@.map_values(describe) =~= middle.push(write));
                dirs_created.push(dir);
                assert(dirs_created.deep_view() =~= dirs.push(
                    rooted_parent_of(import_target(import_to@, keys[i as int])),
                ));
                assert(import_dirs(keys.take(i + 1), import_to@) =~= import_dirs(
                    keys.take(i as int),
                    import_to@,
                ).push(rooted_parent_of(import_target(import_to@, keys[i as int]))));
            },
        }
        i += 1;
    }
    proof {
        assert(keys.take(n as int) =~= keys);
    }
    plan
}

} // verus!
