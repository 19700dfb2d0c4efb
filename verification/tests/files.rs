use folder_transfer::files::{
    read_file, read_files, read_files_light, read_nested_dir, read_nested_dir_light, FlattenPhase,
};
use folder_transfer::import::import_notes;
use folder_transfer::listing::Listing;
use folder_transfer::steps::{Action, Event, Step};
use folder_transfer::structs::{DirEntry, FileType, TransferError};

fn file(path: &str) -> DirEntry {
    DirEntry { path: path.to_string(), file_type: FileType::File }
}

fn dir(path: &str) -> DirEntry {
    DirEntry { path: path.to_string(), file_type: FileType::Directory }
}

#[test]
fn read_file_gives_the_text() {
    assert_eq!(read_file(&file("d/a.md"), b"# hi"), Ok("# hi".to_string()));
    assert_eq!(read_file(&file("d/a.md"), b""), Ok(String::new()));
}

#[test]
fn read_file_refuses_os_metadata_and_other_bytes() {
    assert_eq!(read_file(&file("d/.DS_Store"), b"x"), Err(TransferError::OsMetadata));
    assert_eq!(read_file(&file("d/.DS_Store"), &[0xff]), Err(TransferError::OsMetadata));
    assert_eq!(read_file(&file("d/a.bin"), &[0xff]), Err(TransferError::NotUtf8));
}

#[test]
fn read_files_leaves_out_what_is_not_readable() {
    let listing = read_files(vec![
        (file("d/a.md"), b"one".to_vec()),
        (file("d/.DS_Store"), b"junk".to_vec()),
        (file("d/b.bin"), vec![0xff, 0x00]),
        (file("d/c.md"), b"three".to_vec()),
        (file("d/a.md"), b"later".to_vec()),
    ]);
    assert_eq!(listing.len(), 2);
    assert_eq!(listing.get("d/a.md"), Some(&"later".to_string()));
    assert_eq!(listing.get("d/c.md"), Some(&"three".to_string()));
    assert_eq!(listing.get("d/b.bin"), None);
    assert_eq!(listing.get("d/.DS_Store"), None);
    assert_eq!(listing.paths(), vec!["d/a.md".to_string(), "d/c.md".to_string()]);
}

#[test]
fn read_files_light_keeps_paths_with_empty_contents() {
    let listing = read_files_light(vec![file("d/a.md"), file("d/.DS_Store"), file("d/b.bin")]);
    assert_eq!(listing.len(), 2);
    assert_eq!(listing.get("d/a.md"), Some(&String::new()));
    assert_eq!(listing.get("d/b.bin"), Some(&String::new()));
    assert_eq!(listing.get("d/.DS_Store"), None);
    assert_eq!(read_files_light(Vec::new()).len(), 0);
}

#[test]
fn listing_holds_each_path_once() {
    let mut listing = Listing::new();
    assert_eq!(listing.len(), 0);
    listing.insert("a".to_string(), "1".to_string());
    listing.insert("b".to_string(), "2".to_string());
    listing.insert("a".to_string(), "3".to_string());
    assert_eq!(listing.len(), 2);
    assert_eq!(listing.get("a"), Some(&"3".to_string()));
    assert_eq!(listing.get("b"), Some(&"2".to_string()));
    assert_eq!(listing.get("c"), None);
    assert_eq!(listing.paths(), vec!["a".to_string(), "b".to_string()]);
    let first = listing.entry(0).unwrap();
    assert_eq!((first.path.as_str(), first.content.as_str()), ("a", "3"));
    assert!(listing.entry(2).is_none());
    let copy = listing.clone();
    assert_eq!(copy.paths(), listing.paths());
    assert_eq!(copy.get("a"), Some(&"3".to_string()));
}

fn expect_read_dir(step: Step, wanted: &str) {
    match step {
        Step::Perform(Action::ReadDir { path }) => assert_eq!(path, wanted),
        other => panic!("{:?}", other),
    }
}

fn expect_read_file(step: Step, wanted: &str) {
    match step {
        Step::Perform(Action::ReadFile { path }) => assert_eq!(path, wanted),
        other => panic!("{:?}", other),
    }
}

#[test]
fn light_walk_gathers_the_paths_below_a_directory() {
    let mut walk = read_nested_dir_light(dir("root"));
    assert_eq!(walk.phase, FlattenPhase::Start);
    assert!(walk.listing().is_none());
    expect_read_dir(walk.step(Event::Start), "root");
    let step = walk.step(Event::Entries(vec![
        file("root/a.md"),
        dir("root/x"),
        file("root/.DS_Store"),
        dir("root/y"),
    ]));
    expect_read_dir(step, "root/y");
    expect_read_dir(walk.step(Event::Entries(vec![file("root/y/b.md")])), "root/x");
    let step = walk.step(Event::Entries(vec![dir("root/x/z"), file("root/x/c.md")]));
    expect_read_dir(step, "root/x/z");
    assert!(matches!(walk.step(Event::Entries(Vec::new())), Step::Finished));
    assert_eq!(walk.phase, FlattenPhase::Finished);
    let listing = walk.listing().unwrap();
    let mut paths = listing.paths();
    paths.sort();
    assert_eq!(paths, vec!["root/a.md", "root/x/c.md", "root/y/b.md"]);
    assert_eq!(listing.get("root/a.md"), Some(&String::new()));
}

#[test]
fn full_walk_reads_each_file_and_passes_over_failures() {
    let mut walk = read_nested_dir(dir("root"));
    expect_read_dir(walk.step(Event::Start), "root");
    let step = walk.step(Event::Entries(vec![
        file("root/a.md"),
        file("root/b.bin"),
        file("root/c.md"),
        file("root/d.md"),
    ]));
    expect_read_file(step, "root/a.md");
    expect_read_file(walk.step(Event::Data(b"A".to_vec())), "root/b.bin");
    expect_read_file(walk.step(Event::Data(vec![0xff])), "root/c.md");
    expect_read_file(walk.step(Event::Failed), "root/d.md");
    assert!(matches!(walk.step(Event::Data(b"D".to_vec())), Step::Finished));
    let listing = walk.listing().unwrap();
    assert_eq!(listing.len(), 2);
    assert_eq!(listing.get("root/a.md"), Some(&"A".to_string()));
    assert_eq!(listing.get("root/d.md"), Some(&"D".to_string()));
}

#[test]
fn walk_of_an_empty_directory_finds_nothing() {
    let mut walk = read_nested_dir_light(dir("root"));
    expect_read_dir(walk.step(Event::Start), "root");
    assert!(matches!(walk.step(Event::Entries(Vec::new())), Step::Finished));
    assert_eq!(walk.listing().unwrap().len(), 0);
}

#[test]
fn walk_fails_when_a_directory_cannot_be_listed() {
    let mut walk = read_nested_dir_light(dir("root"));
    expect_read_dir(walk.step(Event::Start), "root");
    expect_read_dir(walk.step(Event::Entries(vec![dir("root/x")])), "root/x");
    assert!(matches!(walk.step(Event::Failed), Step::Failed(TransferError::Io)));
    assert_eq!(walk.phase, FlattenPhase::Failed);
    assert!(walk.listing().is_none());
    assert!(matches!(walk.step(Event::Start), Step::Failed(TransferError::UnexpectedEvent)));
}

#[test]
fn walk_refuses_an_event_it_does_not_expect() {
    let mut walk = read_nested_dir_light(dir("root"));
    assert!(matches!(walk.step(Event::Done), Step::Failed(TransferError::UnexpectedEvent)));
}

fn describe(plan: &[Action]) -> Vec<String> {
    plan.iter()
        .map(|action| match action {
            Action::CreateDirAll { path } => format!("mkdir {}", path),
            Action::Write { path, bytes } => {
                format!("write {} {}", path, String::from_utf8_lossy(bytes))
            }
            other => format!("{:?}", other),
        })
        .collect()
}

#[test]
fn import_creates_each_directory_once_and_writes_each_file() {
    let mut notes = Listing::new();
    notes.insert("a.md".to_string(), "A".to_string());
    notes.insert("sub/b.md".to_string(), "B".to_string());
    notes.insert("c.md".to_string(), "C".to_string());
    notes.insert("sub/deep/d.md".to_string(), "".to_string());
    notes.insert("sub/e.md".to_string(), "E".to_string());
    let plan = import_notes(notes, &"pkg/notes".to_string());
    assert_eq!(
        describe(&plan),
        vec![
            "mkdir /pkg/notes",
            "write pkg/notes/a.md A",
            "mkdir /pkg/notes/sub",
            "write pkg/notes/sub/b.md B",
            "write pkg/notes/c.md C",
            "mkdir /pkg/notes/sub/deep",
            "write pkg/notes/sub/deep/d.md ",
            "write pkg/notes/sub/e.md E",
        ]
    );
}

#[test]
fn import_of_nothing_does_nothing() {
    assert!(import_notes(Listing::new(), &"pkg/notes".to_string()).is_empty());
}

#[test]
fn import_passes_over_empty_components() {
    let mut notes = Listing::new();
    notes.insert("/x//y.md".to_string(), "Y".to_string());
    let plan = import_notes(notes, &"/pkg/notes/".to_string());
    assert_eq!(describe(&plan), vec!["mkdir /pkg/notes/x", "write /pkg/notes///x//y.md Y"]);
}
