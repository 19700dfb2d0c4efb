use folder_transfer::decryptor::DecryptorPhase;
use folder_transfer::orchestrator::{Incoming, Orchestrator, OrchestratorPhase};
use folder_transfer::steps::{Action, Event, Step};
use folder_transfer::structs::{
    Address, FolderTransfer, ProcessId, TransferError, WorkerRequest, WorkerStatus,
};

fn process(name: &str) -> ProcessId {
    ProcessId {
        process_name: name.to_string(),
        package_name: "folder_transfer".to_string(),
        publisher_node: "astronaut.os".to_string(),
    }
}

fn address(node: &str, name: &str) -> Address {
    Address { node: node.to_string(), process: process(name) }
}

fn orchestrator() -> Orchestrator {
    Orchestrator::new(
        address("a.os", "folder_transfer"),
        "/folder_transfer:astronaut.os/send_from".to_string(),
        "/folder_transfer:astronaut.os/send_to".to_string(),
        "/folder_transfer:astronaut.os/decrypt_to".to_string(),
        "some_password".to_string(),
    )
    .unwrap()
}

fn expect_spawn(step: Step) {
    match step {
        Step::Perform(Action::Spawn { wasm_path }) => {
            assert_eq!(wasm_path, "folder_transfer:astronaut.os/pkg/worker.wasm")
        }
        other => panic!("{:?}", other),
    }
}

#[test]
fn new_orchestrator_is_idle_without_a_worker() {
    let o = orchestrator();
    assert_eq!(o.phase, OrchestratorPhase::Idle);
    assert!(o.current_worker.is_none());
    assert_eq!(o.password, "some_password");
}

#[test]
fn new_orchestrator_needs_its_drives() {
    let our = address("a.os", "folder_transfer");
    assert!(Orchestrator::new(our.clone(), String::new(), "/b".into(), "/c".into(), "p".into())
        .is_none());
    assert!(Orchestrator::new(our.clone(), "/a".into(), String::new(), "/c".into(), "p".into())
        .is_none());
    assert!(Orchestrator::new(our, "/a".into(), "/b".into(), String::new(), "p".into()).is_some());
}

#[test]
fn request_folder_action_starts_a_receiver_and_asks_the_peer() {
    let mut o = orchestrator();
    let step = o.handle(
        address("a.os", "terminal"),
        Incoming::Transfer(FolderTransfer::RequestFolderAction {
            node_id: "b.os".to_string(),
            folder: "Vault".to_string(),
            encrypt: true,
        }),
    );
    expect_spawn(step);
    assert_eq!(o.phase, OrchestratorPhase::Spawning);
    assert!(o.current_worker.is_none());

    let step = o.step(Event::Spawned(process("worker-1")));
    match step {
        Step::Perform(Action::Send { target, request, payload }) => {
            assert!(target.same(&address("a.os", "worker-1")));
            match request {
                WorkerRequest::InitializeReceiverWorker { receive_to_dir } => {
                    assert_eq!(receive_to_dir, "folder_transfer:astronaut.os/send_to")
                }
                other => panic!("{:?}", other),
            }
            assert!(payload.is_none());
        }
        other => panic!("{:?}", other),
    }
    assert!(o.current_worker.as_ref().unwrap().same(&address("a.os", "worker-1")));

    let step = o.step(Event::Done);
    match step {
        Step::Perform(Action::Forward { target, message }) => {
            assert!(target.same(&address("b.os", "folder_transfer")));
            match message {
                FolderTransfer::RequestFolderMessage { worker_address, folder, encrypt } => {
                    assert!(worker_address.same(&address("a.os", "worker-1")));
                    assert_eq!(folder, "Vault");
                    assert!(encrypt);
                }
                other => panic!("{:?}", other),
            }
        }
        other => panic!("{:?}", other),
    }
    assert_eq!(o.phase, OrchestratorPhase::Relaying);
    assert!(matches!(o.step(Event::Done), Step::Finished));
    assert_eq!(o.phase, OrchestratorPhase::Idle);
    assert!(o.current_worker.as_ref().unwrap().same(&address("a.os", "worker-1")));
}

fn sender_init(encrypt: bool) -> (Orchestrator, Step) {
    let mut o = orchestrator();
    let step = o.handle(
        address("a.os", "folder_transfer"),
        Incoming::Transfer(FolderTransfer::RequestFolderMessage {
            worker_address: address("a.os", "worker-1"),
            folder: "Obsidian Vault".to_string(),
            encrypt,
        }),
    );
    expect_spawn(step);
    let step = o.step(Event::Spawned(process("worker-9")));
    (o, step)
}

#[test]
fn request_folder_message_starts_a_sender_with_the_password() {
    let (mut o, step) = sender_init(true);
    match step {
        Step::Perform(Action::Send { target, request, payload }) => {
            assert!(target.same(&address("a.os", "worker-9")));
            match request {
                WorkerRequest::InitializeSenderWorker { target_worker, sending_dir, password } => {
                    assert!(target_worker.unwrap().same(&address("a.os", "worker-1")));
                    assert_eq!(sending_dir, "folder_transfer:astronaut.os/send_from/Obsidian Vault");
                    assert_eq!(password, Some("some_password".to_string()));
                }
                other => panic!("{:?}", other),
            }
            assert!(payload.is_none());
        }
        other => panic!("{:?}", other),
    }
    assert!(matches!(o.step(Event::Done), Step::Finished));
    assert_eq!(o.phase, OrchestratorPhase::Idle);
}

#[test]
fn request_folder_message_without_encryption_has_no_password() {
    let (_, step) = sender_init(false);
    match step {
        Step::Perform(Action::Send {
            request: WorkerRequest::InitializeSenderWorker { password, .. },
            ..
        }) => assert_eq!(password, None),
        other => panic!("{:?}", other),
    }
}

#[test]
fn done_from_the_worker_clears_it() {
    let (mut o, _) = sender_init(false);
    assert!(matches!(o.step(Event::Done), Step::Finished));
    let step = o.handle(address("a.os", "someone"), Incoming::Status(WorkerStatus::Done));
    assert!(matches!(step, Step::Finished));
    assert!(o.current_worker.is_some());
    let step = o.handle(address("b.os", "worker-9"), Incoming::Status(WorkerStatus::Done));
    assert!(matches!(step, Step::Finished));
    assert!(o.current_worker.is_some());
    let step = o.handle(address("a.os", "worker-9"), Incoming::Status(WorkerStatus::Done));
    assert!(matches!(step, Step::Finished));
    assert!(o.current_worker.is_none());
    assert_eq!(o.phase, OrchestratorPhase::Idle);
}

#[test]
fn other_message_from_the_worker_is_refused() {
    let (mut o, _) = sender_init(false);
    assert!(matches!(o.step(Event::Done), Step::Finished));
    let step = o.handle(address("a.os", "worker-9"), Incoming::Other);
    assert!(matches!(step, Step::Failed(TransferError::UnexpectedEvent)));
    assert!(o.current_worker.is_some());
    let step = o.handle(address("a.os", "stranger"), Incoming::Other);
    assert!(matches!(step, Step::Finished));
}

#[test]
fn failed_spawn_gives_the_request_up() {
    let mut o = orchestrator();
    let step = o.handle(
        address("a.os", "terminal"),
        Incoming::Transfer(FolderTransfer::RequestFolderAction {
            node_id: "b.os".to_string(),
            folder: "Vault".to_string(),
            encrypt: false,
        }),
    );
    expect_spawn(step);
    assert!(matches!(o.step(Event::Failed), Step::Failed(TransferError::Io)));
    assert_eq!(o.phase, OrchestratorPhase::Idle);
    assert!(o.current_worker.is_none());
    assert!(matches!(o.step(Event::Done), Step::Failed(TransferError::UnexpectedEvent)));
}

#[test]
fn decrypt_folder_runs_the_pass_from_the_receiving_drive() {
    let mut o = orchestrator();
    let step = o.handle(
        address("a.os", "terminal"),
        Incoming::Transfer(FolderTransfer::DecryptFolder),
    );
    match step {
        Step::Perform(Action::RemoveDirAll { path }) => {
            assert_eq!(path, "/folder_transfer:astronaut.os/decrypt_to")
        }
        other => panic!("{:?}", other),
    }
    assert_eq!(o.phase, OrchestratorPhase::Decrypting);
    assert_eq!(o.decryptor.phase, DecryptorPhase::Clearing);
    match o.step(Event::Done) {
        Step::Perform(Action::CreateDirAll { path }) => {
            assert_eq!(path, "/folder_transfer:astronaut.os/decrypt_to")
        }
        other => panic!("{:?}", other),
    }
    match o.step(Event::Done) {
        Step::Perform(Action::ReadDir { path }) => {
            assert_eq!(path, "/folder_transfer:astronaut.os/send_to")
        }
        other => panic!("{:?}", other),
    }
    assert!(matches!(o.step(Event::Entries(Vec::new())), Step::Finished));
    assert_eq!(o.phase, OrchestratorPhase::Idle);
    assert_eq!(o.decryptor.phase, DecryptorPhase::Finished);
}

#[test]
fn failed_pass_leaves_the_orchestrator_idle() {
    let mut o = orchestrator();
    let _ = o.handle(address("a.os", "terminal"), Incoming::Transfer(FolderTransfer::DecryptFolder));
    assert!(matches!(o.step(Event::Failed), Step::Failed(TransferError::Io)));
    assert_eq!(o.phase, OrchestratorPhase::Idle);
    assert_eq!(o.decryptor.phase, DecryptorPhase::Failed);
}
