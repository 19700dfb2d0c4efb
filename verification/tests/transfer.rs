use folder_transfer::chunks::{same_length, CHUNK_SIZE, ENCRYPTED_CHUNK_SIZE, OVERHEAD};
use folder_transfer::decryptor::{Decryptor, DecryptorPhase};
use folder_transfer::sender::{Sender, SenderPhase};
use folder_transfer::steps::{Action, Event, Step};
use folder_transfer::structs::{
    Address, DirEntry, ErrorKind, FileType, ProcessId, TransferError, WorkerRequest, WorkerStatus,
};
use folder_transfer::worker::{contains_file, Worker, WorkerPhase};
use std::collections::{BTreeMap, BTreeSet};

// A file service in memory. Paths are taken without a separator in front.
struct Disk {
    dirs: BTreeSet<String>,
    files: BTreeMap<String, Vec<u8>>,
}

fn plain(path: &str) -> String {
    path.trim_start_matches('/').to_string()
}

fn dir_of(path: &str) -> String {
    match path.rfind('/') {
        Some(k) => path[..k].to_string(),
        None => String::new(),
    }
}

impl Disk {
    fn new() -> Disk {
        Disk { dirs: BTreeSet::new(), files: BTreeMap::new() }
    }

    fn create_dir_all(&mut self, path: &str) {
        let mut p = plain(path);
        while !p.is_empty() {
            self.dirs.insert(p.clone());
            p = dir_of(&p);
        }
    }

    fn remove_dir_all(&mut self, path: &str) {
        let p = plain(path);
        let under = format!("{}/", p);
        self.dirs.retain(|d| *d != p && !d.starts_with(&under));
        self.files.retain(|f, _| !f.starts_with(&under));
    }

    fn put(&mut self, path: &str, bytes: &[u8]) {
        let p = plain(path);
        self.create_dir_all(&dir_of(&p));
        self.files.insert(p, bytes.to_vec());
    }

    fn read_dir(&self, path: &str) -> Option<Vec<DirEntry>> {
        let p = plain(path);
        if !self.dirs.contains(&p) {
            return None;
        }
        let mut entries = Vec::new();
        for d in self.dirs.iter() {
            if dir_of(d) == p && *d != p {
                entries.push(DirEntry { path: d.clone(), file_type: FileType::Directory });
            }
        }
        for f in self.files.keys() {
            if dir_of(f) == p {
                entries.push(DirEntry { path: f.clone(), file_type: FileType::File });
            }
        }
        Some(entries)
    }

    fn tree_under(&self, dir: &str) -> BTreeMap<String, Vec<u8>> {
        let under = format!("{}/", plain(dir));
        let mut tree = BTreeMap::new();
        for (f, bytes) in self.files.iter() {
            if f.starts_with(&under) {
                tree.insert(f[under.len()..].to_string(), bytes.clone());
            }
        }
        tree
    }
}

// A cipher that adds 44 bytes: 12 in front, 32 behind.
fn toy_encrypt(plain: &[u8], password: &str) -> Vec<u8> {
    let key = password.bytes().fold(7u8, |a, b| a.wrapping_mul(31).wrapping_add(b));
    let mut out = vec![key; 12];
    out.extend(plain.iter().map(|b| b ^ key));
    let sum = plain.iter().fold(key, |a, b| a.wrapping_mul(17).wrapping_add(*b));
    out.extend(vec![sum; 32]);
    out
}

fn toy_decrypt(cipher: &[u8], password: &str) -> Option<Vec<u8>> {
    if cipher.len() < 44 {
        return None;
    }
    let key = password.bytes().fold(7u8, |a, b| a.wrapping_mul(31).wrapping_add(b));
    if cipher[..12].iter().any(|b| *b != key) {
        return None;
    }
    let body = &cipher[12..cipher.len() - 32];
    let plain: Vec<u8> = body.iter().map(|b| b ^ key).collect();
    let sum = plain.iter().fold(key, |a, b| a.wrapping_mul(17).wrapping_add(*b));
    if cipher[cipher.len() - 32..].iter().any(|b| *b != sum) {
        return None;
    }
    Some(plain)
}

struct Sent {
    target: Address,
    request: WorkerRequest,
    payload: Option<Vec<u8>>,
}

struct World {
    disk: Disk,
    sent: Vec<Sent>,
    reports: Vec<(Address, WorkerStatus)>,
    log: Vec<String>,
}

impl World {
    fn new() -> World {
        World { disk: Disk::new(), sent: Vec::new(), reports: Vec::new(), log: Vec::new() }
    }

    fn perform(&mut self, action: Action) -> Event {
        match action {
            Action::RemoveDirAll { path } => {
                self.log.push(format!("remove {}", path));
                self.disk.remove_dir_all(&path);
                Event::Done
            }
            Action::CreateDirAll { path } => {
                self.log.push(format!("mkdir {}", path));
                self.disk.create_dir_all(&path);
                Event::Done
            }
            Action::ReadDir { path } => match self.disk.read_dir(&path) {
                Some(entries) => Event::Entries(entries),
                None => Event::Failed,
            },
            Action::ReadFile { path } => match self.disk.files.get(&plain(&path)) {
                Some(bytes) => Event::Data(bytes.clone()),
                None => Event::Failed,
            },
            Action::OpenFile { path } => match self.disk.files.get(&plain(&path)) {
                Some(bytes) => Event::Opened { size: bytes.len() as u64 },
                None => Event::Failed,
            },
            Action::ReadChunk { path, range } => match self.disk.files.get(&plain(&path)) {
                Some(bytes) => {
                    let from = range.offset as usize;
                    let to = from + range.length as usize;
                    if to <= bytes.len() {
                        Event::Data(bytes[from..to].to_vec())
                    } else {
                        Event::Failed
                    }
                }
                None => Event::Failed,
            },
            Action::CreateFile { path } => {
                self.log.push(format!("create {}", path));
                self.disk.files.insert(plain(&path), Vec::new());
                Event::Done
            }
            Action::Append { path, bytes } => match self.disk.files.get_mut(&plain(&path)) {
                Some(file) => {
                    file.extend(bytes);
                    Event::Done
                }
                None => Event::Failed,
            },
            Action::Write { path, bytes } => {
                self.disk.files.insert(plain(&path), bytes);
                Event::Done
            }
            Action::Encrypt { plain, password } => Event::Data(toy_encrypt(&plain, &password)),
            Action::Decrypt { cipher, password } => Event::Decrypted(toy_decrypt(&cipher, &password)),
            Action::Send { target, request, payload } => {
                self.sent.push(Sent { target, request, payload });
                Event::Done
            }
            Action::Report { target, status } => {
                self.reports.push((target, status));
                Event::Done
            }
            Action::Forward { .. } => Event::Done,
            Action::Spawn { .. } => Event::Failed,
        }
    }

    fn run_worker(&mut self, worker: &mut Worker, first: Step) -> Result<(), TransferError> {
        let mut step = first;
        loop {
            match step {
                Step::Perform(action) => {
                    let event = self.perform(action);
                    step = worker.step(event);
                }
                Step::Finished => return Ok(()),
                Step::Failed(error) => return Err(error),
            }
        }
    }

    fn run_decryptor(&mut self, pass: &mut Decryptor) -> Result<(), TransferError> {
        let mut step = pass.step(Event::Start);
        loop {
            match step {
                Step::Perform(action) => {
                    let event = self.perform(action);
                    step = pass.step(event);
                }
                Step::Finished => return Ok(()),
                Step::Failed(error) => return Err(error),
            }
        }
    }
}

fn address(node: &str, process: &str) -> Address {
    Address {
        node: node.to_string(),
        process: ProcessId {
            process_name: process.to_string(),
            package_name: "folder_transfer".to_string(),
            publisher_node: "astronaut.os".to_string(),
        },
    }
}

// Sends `folder` of the sending drive of `source` and hands every message to a
// receiving worker on `target`, in order. Gives the messages that were sent.
fn transfer(source: &mut World, target: &mut World, folder: &str, password: Option<&str>) -> usize {
    let receiver_at = address("a.os", "receiver");
    let mut receiver = Worker::new(receiver_at.clone(), address("a.os", "folder_transfer"));
    let first = receiver.handle(
        WorkerRequest::InitializeReceiverWorker { receive_to_dir: "pkg/send_to".to_string() },
        None,
    );
    target.run_worker(&mut receiver, first).unwrap();

    let mut sender = Worker::new(address("b.os", "sender"), address("b.os", "folder_transfer"));
    let first = sender.handle(
        WorkerRequest::InitializeSenderWorker {
            target_worker: Some(receiver_at.clone()),
            sending_dir: format!("pkg/send_from/{}", folder),
            password: password.map(|p| p.to_string()),
        },
        None,
    );
    source.run_worker(&mut sender, first).unwrap();
    assert!(sender.is_gone());
    assert_eq!(source.reports.len(), 1);
    assert!(source.reports[0].0.same(&address("b.os", "folder_transfer")));
    assert_eq!(source.reports[0].1, WorkerStatus::Done);

    let messages: Vec<Sent> = source.sent.drain(..).collect();
    let count = messages.len();
    for message in messages {
        assert!(message.target.same(&receiver_at));
        assert!(!receiver.is_gone());
        let first = receiver.handle(message.request, message.payload);
        target.run_worker(&mut receiver, first).unwrap();
    }
    assert!(receiver.is_gone());
    assert_eq!(target.reports.len(), 1);
    count
}

fn decrypt(world: &mut World, password: &str) -> Decryptor {
    let mut pass = Decryptor::new(
        "/pkg/send_to".to_string(),
        "/pkg/decrypt_to".to_string(),
        password.to_string(),
    );
    world.run_decryptor(&mut pass).unwrap();
    assert_eq!(pass.phase, DecryptorPhase::Finished);
    pass
}

fn small_tree(world: &mut World) {
    world.disk.put("pkg/send_from/folder/a.txt", b"hi");
    world.disk.put("pkg/send_from/folder/sub/b.txt", b"");
}

#[test]
fn plain_transfer_is_byte_identical() {
    let mut source = World::new();
    let mut target = World::new();
    small_tree(&mut source);
    transfer(&mut source, &mut target, "folder", None);
    let received = target.disk.tree_under("pkg/send_to");
    assert_eq!(received, source.disk.tree_under("pkg/send_from"));
    assert_eq!(received.len(), 2);
    assert_eq!(received["folder/a.txt"], b"hi".to_vec());
    assert_eq!(received["folder/sub/b.txt"], Vec::<u8>::new());
}

#[test]
fn encrypted_transfer_then_decrypt_gives_the_tree() {
    let mut source = World::new();
    let mut target = World::new();
    small_tree(&mut source);
    transfer(&mut source, &mut target, "folder", Some("secret"));
    let raw = target.disk.tree_under("pkg/send_to");
    assert_eq!(raw.len(), 2);
    for (name, bytes) in raw.iter() {
        assert!(!name.contains("a.txt") && !name.contains("b.txt") && !name.contains('/'));
        assert!(name.chars().all(|c| c.is_ascii_alphanumeric() || c == '-' || c == '_' || c == '='));
        assert!(bytes.len() as u64 >= OVERHEAD);
    }
    let mut sizes: Vec<usize> = raw.values().map(|b| b.len()).collect();
    sizes.sort();
    assert_eq!(sizes, vec![44, 46]);
    let pass = decrypt(&mut target, "secret");
    assert!(pass.failures.is_empty());
    assert_eq!(target.disk.tree_under("pkg/decrypt_to"), source.disk.tree_under("pkg/send_from"));
}

#[test]
fn empty_file_is_one_chunk_then_the_sentinel() {
    let mut source = World::new();
    source.disk.put("pkg/send_from/folder/empty.bin", b"");
    let mut sender = Worker::new(address("b.os", "sender"), address("b.os", "folder_transfer"));
    let first = sender.handle(
        WorkerRequest::InitializeSenderWorker {
            target_worker: None,
            sending_dir: "pkg/send_from/folder".to_string(),
            password: None,
        },
        None,
    );
    source.run_worker(&mut sender, first).unwrap();
    assert_eq!(source.sent.len(), 2);
    assert!(source.sent[0].target.same(&address("b.os", "sender")));
    match &source.sent[0].request {
        WorkerRequest::Chunk { done, file_path, encrypted } => {
            assert!(!*done);
            assert_eq!(file_path, "/folder/empty.bin");
            assert!(!*encrypted);
        }
        other => panic!("{:?}", other),
    }
    assert_eq!(source.sent[0].payload, Some(vec![]));
    match &source.sent[1].request {
        WorkerRequest::Chunk { done, file_path, encrypted } => {
            assert!(*done);
            assert_eq!(file_path, "");
            assert!(!*encrypted);
        }
        other => panic!("{:?}", other),
    }
    assert_eq!(source.sent[1].payload, None);
}

#[test]
fn four_chunks_whose_lengths_sum_to_the_size() {
    let size = (3 * CHUNK_SIZE + 1) as usize;
    let content: Vec<u8> = (0..size).map(|i| (i % 251) as u8).collect();
    let mut source = World::new();
    let mut target = World::new();
    source.disk.put("pkg/send_from/big/file.bin", &content);
    let count = transfer(&mut source, &mut target, "big", None);
    assert_eq!(count, 5);
    assert_eq!(target.disk.tree_under("pkg/send_to")["big/file.bin"], content);
}

#[test]
fn chunk_messages_carry_the_planned_lengths() {
    let size = (3 * CHUNK_SIZE + 1) as usize;
    let content = vec![9u8; size];
    let mut source = World::new();
    source.disk.put("pkg/send_from/big/file.bin", &content);
    let mut sender = Worker::new(address("b.os", "sender"), address("b.os", "folder_transfer"));
    let first = sender.handle(
        WorkerRequest::InitializeSenderWorker {
            target_worker: None,
            sending_dir: "pkg/send_from/big".to_string(),
            password: Some("pw".to_string()),
        },
        None,
    );
    source.run_worker(&mut sender, first).unwrap();
    let lengths: Vec<usize> =
        source.sent.iter().filter_map(|m| m.payload.as_ref().map(|p| p.len())).collect();
    let full = ENCRYPTED_CHUNK_SIZE as usize;
    assert_eq!(lengths, vec![full, full, full, 45]);
    assert_eq!(lengths.iter().sum::<usize>(), size + 4 * OVERHEAD as usize);
    assert!(matches!(
        source.sent.last().unwrap().request,
        WorkerRequest::Chunk { done: true, encrypted: true, .. }
    ));
}

#[test]
fn encrypted_round_trip_of_a_large_and_nested_tree() {
    let mut source = World::new();
    let mut target = World::new();
    let big: Vec<u8> = (0..(2 * CHUNK_SIZE as usize + 17)).map(|i| (i % 13) as u8).collect();
    let exact: Vec<u8> = vec![3u8; CHUNK_SIZE as usize];
    source.disk.put("pkg/send_from/v/big.bin", &big);
    source.disk.put("pkg/send_from/v/exact.bin", &exact);
    source.disk.put("pkg/send_from/v/a/b/c/d/e/deep.txt", b"deep");
    source.disk.put("pkg/send_from/v/a/empty", b"");
    source.disk.put("pkg/send_from/v/ñ/ü.txt", "grüße".as_bytes());
    transfer(&mut source, &mut target, "v", Some("some_password"));
    assert_eq!(target.disk.tree_under("pkg/send_to").len(), 5);
    let pass = decrypt(&mut target, "some_password");
    assert!(pass.failures.is_empty());
    assert_eq!(target.disk.tree_under("pkg/decrypt_to"), source.disk.tree_under("pkg/send_from"));
}

#[test]
fn plain_round_trip_of_a_nested_tree() {
    let mut source = World::new();
    let mut target = World::new();
    let big: Vec<u8> = (0..(CHUNK_SIZE as usize + 1)).map(|i| (i % 7) as u8).collect();
    source.disk.put("pkg/send_from/v/big.bin", &big);
    source.disk.put("pkg/send_from/v/a/b/c/deep.txt", b"deep");
    source.disk.put("pkg/send_from/v/a/empty", b"");
    transfer(&mut source, &mut target, "v", None);
    assert_eq!(target.disk.tree_under("pkg/send_to"), source.disk.tree_under("pkg/send_from"));
}

#[test]
fn os_metadata_is_not_transferred() {
    let mut source = World::new();
    let mut target = World::new();
    small_tree(&mut source);
    source.disk.put("pkg/send_from/folder/.DS_Store", b"junk");
    source.disk.put("pkg/send_from/folder/sub/.DS_Store", b"junk");
    transfer(&mut source, &mut target, "folder", None);
    let received = target.disk.tree_under("pkg/send_to");
    assert_eq!(received.len(), 2);
    assert!(received.keys().all(|k| !k.ends_with(".DS_Store")));
}

#[test]
fn decrypt_with_the_wrong_password_gives_every_file_up() {
    let mut source = World::new();
    let mut target = World::new();
    small_tree(&mut source);
    transfer(&mut source, &mut target, "folder", Some("secret"));
    let pass = decrypt(&mut target, "other");
    assert_eq!(pass.failures.len(), 2);
    assert!(pass.failures.iter().all(|f| f.error == TransferError::DecryptFailed));
    assert!(target.disk.tree_under("pkg/decrypt_to").is_empty());
}

#[test]
fn decrypt_gives_up_one_file_and_goes_on() {
    let mut source = World::new();
    let mut target = World::new();
    small_tree(&mut source);
    transfer(&mut source, &mut target, "folder", Some("secret"));
    target.disk.put("pkg/send_to/plain.txt", b"not encrypted");
    let cipher = toy_encrypt(&[0xff, 0xfe], "secret");
    let name = folder_transfer::names::encode_name(&cipher).unwrap();
    target.disk.put(&format!("pkg/send_to{}", name), b"");
    let pass = decrypt(&mut target, "secret");
    let mut errors: Vec<(String, TransferError)> =
        pass.failures.iter().map(|f| (f.path.clone(), f.error)).collect();
    errors.sort_by(|a, b| a.0.cmp(&b.0));
    assert_eq!(errors.len(), 2);
    assert!(errors.contains(&("pkg/send_to/plain.txt".to_string(), TransferError::InvalidName)));
    assert!(errors.contains(&(format!("pkg/send_to{}", name), TransferError::NotUtf8)));
    assert_eq!(target.disk.tree_under("pkg/decrypt_to"), source.disk.tree_under("pkg/send_from"));
}

#[test]
fn decrypt_gives_up_a_file_with_a_damaged_chunk() {
    let mut source = World::new();
    let mut target = World::new();
    small_tree(&mut source);
    transfer(&mut source, &mut target, "folder", Some("secret"));
    let damaged: String = target
        .disk
        .files
        .iter()
        .find(|(_, bytes)| bytes.len() == 46)
        .map(|(name, _)| name.clone())
        .unwrap();
    target.disk.files.get_mut(&damaged).unwrap()[20] ^= 1;
    let pass = decrypt(&mut target, "secret");
    assert_eq!(pass.failures.len(), 1);
    assert_eq!(pass.failures[0].path, damaged);
    assert_eq!(pass.failures[0].error, TransferError::DecryptFailed);
    let out = target.disk.tree_under("pkg/decrypt_to");
    assert_eq!(out.len(), 1);
    assert_eq!(out["folder/sub/b.txt"], Vec::<u8>::new());
}

#[test]
fn decrypt_refuses_a_chunk_shorter_than_the_overhead() {
    let mut target = World::new();
    let name = folder_transfer::names::encode_name(&toy_encrypt(b"/x.txt", "secret")).unwrap();
    target.disk.put(&format!("pkg/send_to{}", name), &[1u8; 43]);
    let pass = decrypt(&mut target, "secret");
    assert_eq!(pass.failures.len(), 1);
    assert_eq!(pass.failures[0].error, TransferError::WrongLength);
    assert!(target.disk.tree_under("pkg/decrypt_to").is_empty());
}

#[test]
fn decrypt_pass_empties_its_target_first() {
    let mut target = World::new();
    target.disk.put("pkg/decrypt_to/old/stale.txt", b"stale");
    target.disk.create_dir_all("pkg/send_to");
    let pass = decrypt(&mut target, "secret");
    assert!(pass.failures.is_empty());
    assert!(target.disk.tree_under("pkg/decrypt_to").is_empty());
    assert!(target.disk.dirs.contains("pkg/decrypt_to"));
    assert!(!target.disk.dirs.contains("pkg/decrypt_to/old"));
    assert_eq!(target.log[0], "remove /pkg/decrypt_to");
    assert_eq!(target.log[1], "mkdir /pkg/decrypt_to");
}

#[test]
fn decrypt_pass_fails_when_the_source_cannot_be_listed() {
    let mut target = World::new();
    let mut pass = Decryptor::new(
        "/pkg/send_to".to_string(),
        "/pkg/decrypt_to".to_string(),
        "secret".to_string(),
    );
    assert_eq!(target.run_decryptor(&mut pass), Err(TransferError::Io));
    assert_eq!(pass.phase, DecryptorPhase::Failed);
}

#[test]
fn receiver_init_twice_leaves_one_empty_directory() {
    let mut target = World::new();
    target.disk.put("pkg/send_to/old/file.txt", b"old");
    let mut receiver = Worker::new(address("a.os", "receiver"), address("a.os", "folder_transfer"));
    for _ in 0..2 {
        let first = receiver.handle(
            WorkerRequest::InitializeReceiverWorker { receive_to_dir: "pkg/send_to".to_string() },
            None,
        );
        assert_eq!(target.run_worker(&mut receiver, first), Ok(()));
        assert_eq!(receiver.phase, WorkerPhase::Idle);
        assert_eq!(receiver.receive_dir, "pkg/send_to");
        assert!(target.disk.dirs.contains("pkg/send_to"));
        assert!(target.disk.read_dir("pkg/send_to").unwrap().is_empty());
    }
    assert_eq!(
        target.log,
        vec!["remove pkg/send_to", "mkdir pkg/send_to", "remove pkg/send_to", "mkdir pkg/send_to"]
    );
}

#[test]
fn receiver_refuses_a_chunk_without_bytes_and_waits_on() {
    let mut target = World::new();
    let mut receiver = Worker::new(address("a.os", "receiver"), address("a.os", "folder_transfer"));
    let first = receiver.handle(
        WorkerRequest::InitializeReceiverWorker { receive_to_dir: "pkg/send_to".to_string() },
        None,
    );
    target.run_worker(&mut receiver, first).unwrap();
    let first = receiver.handle(
        WorkerRequest::Chunk { done: false, file_path: "/f/a.txt".to_string(), encrypted: false },
        None,
    );
    assert_eq!(target.run_worker(&mut receiver, first), Err(TransferError::MissingPayload));
    assert_eq!(TransferError::MissingPayload.kind(), ErrorKind::Protocol);
    assert!(!receiver.is_gone());
    assert_eq!(receiver.phase, WorkerPhase::Idle);
    assert!(target.disk.files.is_empty());
    let first = receiver.handle(
        WorkerRequest::Chunk { done: false, file_path: "/f/a.txt".to_string(), encrypted: false },
        Some(b"ab".to_vec()),
    );
    assert_eq!(target.run_worker(&mut receiver, first), Ok(()));
    assert_eq!(target.disk.files["pkg/send_to/f/a.txt"], b"ab".to_vec());
}

#[test]
fn receiver_creates_a_file_once_and_appends_in_order() {
    let mut target = World::new();
    let mut receiver = Worker::new(address("a.os", "receiver"), address("a.os", "folder_transfer"));
    let first = receiver.handle(
        WorkerRequest::InitializeReceiverWorker { receive_to_dir: "pkg/send_to".to_string() },
        None,
    );
    target.run_worker(&mut receiver, first).unwrap();
    target.log.clear();
    for part in ["one", "two", "three"] {
        let first = receiver.handle(
            WorkerRequest::Chunk { done: false, file_path: "/f/a.txt".to_string(), encrypted: false },
            Some(part.as_bytes().to_vec()),
        );
        target.run_worker(&mut receiver, first).unwrap();
    }
    assert_eq!(target.disk.files["pkg/send_to/f/a.txt"], b"onetwothree".to_vec());
    let creations = target.log.iter().filter(|l| l.starts_with("create ")).count();
    assert_eq!(creations, 1);
    let mkdirs = target.log.iter().filter(|l| *l == "mkdir pkg/send_to/f").count();
    assert_eq!(mkdirs, 3);
}

#[test]
fn worker_that_is_gone_refuses_messages() {
    let mut world = World::new();
    let mut worker = Worker::new(address("a.os", "w"), address("a.os", "folder_transfer"));
    let first = worker.handle(
        WorkerRequest::Chunk { done: true, file_path: String::new(), encrypted: false },
        None,
    );
    assert!(matches!(first, Step::Perform(Action::Report { status: WorkerStatus::Done, .. })));
    assert!(!worker.is_gone());
    world.run_worker(&mut worker, first).unwrap();
    assert!(worker.is_gone());
    let again = worker.handle(
        WorkerRequest::InitializeReceiverWorker { receive_to_dir: "x".to_string() },
        None,
    );
    assert!(matches!(again, Step::Failed(TransferError::UnexpectedEvent)));
    assert!(matches!(worker.step(Event::Done), Step::Failed(TransferError::UnexpectedEvent)));
    assert!(worker.is_gone());
}

#[test]
fn worker_is_gone_even_when_its_report_fails() {
    let mut worker = Worker::new(address("a.os", "w"), address("a.os", "folder_transfer"));
    let _ = worker.handle(
        WorkerRequest::Chunk { done: true, file_path: String::new(), encrypted: false },
        None,
    );
    assert!(matches!(worker.step(Event::Failed), Step::Finished));
    assert!(worker.is_gone());
}

#[test]
fn sender_gives_up_when_the_directory_cannot_be_listed() {
    let mut source = World::new();
    let mut sender = Worker::new(address("b.os", "sender"), address("b.os", "folder_transfer"));
    let first = sender.handle(
        WorkerRequest::InitializeSenderWorker {
            target_worker: None,
            sending_dir: "pkg/send_from/missing".to_string(),
            password: None,
        },
        None,
    );
    assert_eq!(source.run_worker(&mut sender, first), Err(TransferError::Io));
    assert!(!sender.is_gone());
    assert!(source.sent.is_empty());
}

fn sender_at_first_file(password: Option<&str>, listed: &str) -> Sender {
    let mut sender = Sender::new(
        &address("b.os", "sender"),
        None,
        "pkg/send_from/folder".to_string(),
        password.map(|p| p.to_string()),
    );
    assert_eq!(sender.phase, SenderPhase::Start);
    let step = sender.step(Event::Start);
    match step {
        Step::Perform(Action::ReadDir { path }) => assert_eq!(path, "pkg/send_from/folder"),
        other => panic!("{:?}", other),
    }
    assert_eq!(sender.phase, SenderPhase::Flattening);
    let step = sender.step(Event::Entries(vec![DirEntry {
        path: listed.to_string(),
        file_type: FileType::File,
    }]));
    match step {
        Step::Perform(Action::OpenFile { path }) => assert_eq!(path, listed),
        other => panic!("{:?}", other),
    }
    assert_eq!(sender.phase, SenderPhase::Opening);
    sender
}

#[test]
fn sender_gives_up_on_a_file_outside_the_sending_directory() {
    let mut sender = sender_at_first_file(None, "elsewhere/a.txt");
    let step = sender.step(Event::Opened { size: 2 });
    assert!(matches!(step, Step::Failed(TransferError::PrefixMismatch)));
    assert_eq!(TransferError::PrefixMismatch.kind(), ErrorKind::Crypto);
    assert_eq!(sender.phase, SenderPhase::Failed);
}

#[test]
fn sender_refuses_bytes_of_the_wrong_length() {
    let mut sender = sender_at_first_file(None, "pkg/send_from/folder/a.txt");
    let step = sender.step(Event::Opened { size: 2 });
    match step {
        Step::Perform(Action::ReadChunk { path, range }) => {
            assert_eq!(path, "pkg/send_from/folder/a.txt");
            assert_eq!((range.offset, range.length), (0, 2));
        }
        other => panic!("{:?}", other),
    }
    assert_eq!(sender.name, "/folder/a.txt");
    let step = sender.step(Event::Data(vec![1, 2, 3]));
    assert!(matches!(step, Step::Failed(TransferError::WrongLength)));
}

#[test]
fn sender_refuses_a_ciphertext_of_the_wrong_length() {
    let mut sender = sender_at_first_file(Some("pw"), "pkg/send_from/folder/a.txt");
    let step = sender.step(Event::Opened { size: 2 });
    match step {
        Step::Perform(Action::Encrypt { plain, password }) => {
            assert_eq!(plain, b"/folder/a.txt".to_vec());
            assert_eq!(password, "pw");
        }
        other => panic!("{:?}", other),
    }
    let step = sender.step(Event::Data(vec![0u8; 13 + 44]));
    assert!(matches!(step, Step::Perform(Action::ReadChunk { .. })));
    assert_eq!(sender.name, format!("/{}", "A".repeat(76)));
    let step = sender.step(Event::Data(vec![7, 7]));
    assert!(matches!(step, Step::Perform(Action::Encrypt { .. })));
    let step = sender.step(Event::Data(vec![0u8; 45]));
    assert!(matches!(step, Step::Failed(TransferError::WrongLength)));
    assert_eq!(sender.phase, SenderPhase::Failed);
}

#[test]
fn sender_refuses_a_name_ciphertext_of_the_wrong_length() {
    let mut sender = sender_at_first_file(Some("pw"), "pkg/send_from/folder/a.txt");
    let _ = sender.step(Event::Opened { size: 2 });
    let step = sender.step(Event::Data(vec![0u8; 13]));
    assert!(matches!(step, Step::Failed(TransferError::WrongLength)));
}

#[test]
fn sender_refuses_an_event_it_does_not_expect() {
    let mut sender = sender_at_first_file(None, "pkg/send_from/folder/a.txt");
    let step = sender.step(Event::Done);
    assert!(matches!(step, Step::Failed(TransferError::UnexpectedEvent)));
    let mut sender = sender_at_first_file(None, "pkg/send_from/folder/a.txt");
    let step = sender.step(Event::Failed);
    assert!(matches!(step, Step::Failed(TransferError::Io)));
    let mut sender = sender_at_first_file(None, "pkg/send_from/folder/a.txt");
    let step = sender.step(Event::TimedOut);
    assert!(matches!(step, Step::Failed(TransferError::Timeout)));
}

#[test]
fn contains_file_looks_for_a_file_of_that_path() {
    let entries = vec![
        DirEntry { path: "d/a.txt".to_string(), file_type: FileType::File },
        DirEntry { path: "d/sub".to_string(), file_type: FileType::Directory },
    ];
    assert!(contains_file(&entries, "d/a.txt"));
    assert!(!contains_file(&entries, "d/sub"));
    assert!(!contains_file(&entries, "d/b.txt"));
    assert!(!contains_file(&Vec::new(), "d/a.txt"));
}

#[test]
fn decrypt_gives_up_a_file_whose_directory_has_no_path() {
    let mut target = World::new();
    let name = folder_transfer::names::encode_name(&toy_encrypt(b"x.txt", "secret")).unwrap();
    let stored = format!("pkg/send_to{}", name);
    target.disk.put(&stored, &toy_encrypt(b"content", "secret"));
    let mut pass = Decryptor::new("/pkg/send_to".to_string(), String::new(), "secret".to_string());
    target.run_decryptor(&mut pass).unwrap();
    assert_eq!(pass.failures.len(), 1);
    assert_eq!(pass.failures[0].path, stored);
    assert_eq!(pass.failures[0].error, TransferError::EmptyPath);
}

#[test]
fn every_error_has_its_kind() {
    assert_eq!(TransferError::PrefixMismatch.kind(), ErrorKind::Crypto);
    assert_eq!(TransferError::InvalidName.kind(), ErrorKind::Crypto);
    assert_eq!(TransferError::NotUtf8.kind(), ErrorKind::Crypto);
    assert_eq!(TransferError::DecryptFailed.kind(), ErrorKind::Crypto);
    assert_eq!(TransferError::WrongLength.kind(), ErrorKind::Crypto);
    assert_eq!(TransferError::MissingPayload.kind(), ErrorKind::Protocol);
    assert_eq!(TransferError::UnexpectedEvent.kind(), ErrorKind::Protocol);
    assert_eq!(TransferError::EmptyPath.kind(), ErrorKind::Io);
    assert_eq!(TransferError::OsMetadata.kind(), ErrorKind::Io);
    assert_eq!(TransferError::Io.kind(), ErrorKind::Io);
    assert_eq!(TransferError::Timeout.kind(), ErrorKind::Timeout);
}

#[test]
fn same_length_compares_a_buffer_with_a_size() {
    assert!(same_length(0, 0));
    assert!(same_length(44, 44));
    assert!(!same_length(43, 44));
    assert!(!same_length(0, u64::MAX));
}
