use std::collections::HashMap;

use codefs::client::{CodeFSClient, Exchange};
use codefs::fs::{BackendCall, BackendOutcome, CodeFS, RelayAction, RelayEvent, Reply};
use codefs::opener::OpenStep;
use codefs::vfs::{FsError, Metadata, OpenOptionsConfig, SeekOrigin};
use codefs::{FileCommands, COMMAND_QUEUE_CAPACITY, REPLY_SLOT_CAPACITY};
use futures::executor::block_on;
use tokio::sync::mpsc::{channel, Receiver, Sender};

type Envelope = (FileCommands, Sender<Reply>);

/// A store that keeps whole files in memory.
struct Store {
    files: HashMap<String, Vec<u8>>,
    calls: Vec<BackendCall>,
}

impl Store {
    fn new() -> Store {
        Store { files: HashMap::new(), calls: Vec::new() }
    }

    fn perform(&mut self, call: BackendCall) -> BackendOutcome {
        let outcome = match &call {
            BackendCall::Stat { path } => BackendOutcome::Stat(match self.files.get(path) {
                Some(bytes) => Ok(Metadata { len: bytes.len() as u64, ..Metadata::default() }),
                None => Err(FsError::EntryNotFound),
            }),
            BackendCall::List { .. } => BackendOutcome::List(Ok(Vec::new())),
            BackendCall::CreateDir { .. } => BackendOutcome::Done(Ok(())),
            BackendCall::Delete { path } => BackendOutcome::Done(match self.files.remove(path) {
                Some(_) => Ok(()),
                None => Err(FsError::EntryNotFound),
            }),
            BackendCall::Rename { old_path, new_path } => {
                BackendOutcome::Done(match self.files.remove(old_path) {
                    Some(bytes) => {
                        self.files.insert(new_path.clone(), bytes);
                        Ok(())
                    }
                    None => Err(FsError::EntryNotFound),
                })
            }
            BackendCall::ReadWhole { path } => {
                BackendOutcome::Bytes(self.files.get(path).cloned().unwrap_or_default())
            }
            BackendCall::WriteWhole { path, data } => {
                self.files.insert(path.clone(), data.clone());
                BackendOutcome::Done(Ok(()))
            }
        };
        self.calls.push(call);
        outcome
    }
}

/// Takes what is on the queue, one command after another, through the relay.
fn serve(relay: &mut CodeFS<Sender<Reply>>, queue: &mut Receiver<Envelope>, store: &mut Store) {
    while let Ok((command, reply_to)) = queue.try_recv() {
        let call = match relay.poll(RelayEvent::Command(command, reply_to)) {
            RelayAction::Call(call) => call,
            _ => panic!("a command leads to a call"),
        };
        let event = RelayEvent::Outcome(store.perform(call));
        assert!(relay.accepts(&event));
        match relay.poll(event) {
            RelayAction::Reply(reply_to, reply) => {
                let _ = reply_to.try_send(reply);
            }
            _ => panic!("an outcome leads to a reply"),
        }
    }
}

/// One send-then-await over the queue; `between` runs while the caller waits.
fn exchange(queue: &Sender<Envelope>, command: FileCommands, between: impl FnOnce()) -> Exchange {
    let (reply_to, mut reply) = channel(REPLY_SLOT_CAPACITY);
    if block_on(queue.send((command, reply_to))).is_err() {
        return Exchange::QueueClosed;
    }
    between();
    match block_on(reply.recv()) {
        Some(reply) => Exchange::Replied(reply),
        None => Exchange::ReplyClosed,
    }
}

#[test]
fn send_on_a_closed_queue_is_an_io_error_at_once() {
    let (queue, relay_end) = channel::<Envelope>(COMMAND_QUEUE_CAPACITY);
    drop(relay_end);
    let client = CodeFSClient::new();
    let outcome = exchange(&queue, client.read_all("/f"), || {});
    assert_eq!(outcome, Exchange::QueueClosed);
    assert_eq!(client.read_all_result(outcome), Err(FsError::IOError));
    assert!(queue.is_closed());
    let outcome = exchange(&queue, client.write_all("/f", b"x"), || {});
    assert_eq!(client.write_all_result(outcome), Err(FsError::IOError));
    let outcome = exchange(&queue, client.metadata("/f"), || {});
    assert_eq!(client.metadata_result(outcome), Err(FsError::IOError));
}

#[test]
fn a_dropped_reply_slot_is_an_io_error() {
    let (queue, mut relay_end) = channel::<Envelope>(COMMAND_QUEUE_CAPACITY);
    let client = CodeFSClient::new();
    let outcome = exchange(&queue, client.read_all("/f"), || {
        let taken = relay_end.try_recv();
        assert!(taken.is_ok());
        drop(taken);
    });
    assert_eq!(outcome, Exchange::ReplyClosed);
    assert_eq!(client.read_all_result(outcome), Err(FsError::IOError));
}

#[test]
fn a_queue_closed_while_waiting_is_an_io_error() {
    let (queue, relay_end) = channel::<Envelope>(COMMAND_QUEUE_CAPACITY);
    let client = CodeFSClient::new();
    let mut relay_end = Some(relay_end);
    let outcome = exchange(&queue, client.remove_file("/f"), || drop(relay_end.take()));
    assert_eq!(outcome, Exchange::ReplyClosed);
    assert_eq!(client.remove_file_result(outcome), Err(FsError::IOError));
}

#[test]
fn write_then_read_over_the_queue() {
    let (queue, mut relay_end) = channel::<Envelope>(COMMAND_QUEUE_CAPACITY);
    let mut relay = CodeFS::new();
    let mut store = Store::new();
    let client = relay.create_client();

    let outcome =
        exchange(&queue, client.write_all("/f", b"HELLO"), || serve(&mut relay, &mut relay_end, &mut store));
    assert_eq!(client.write_all_result(outcome), Ok(()));
    let outcome =
        exchange(&queue, client.read_all("/f"), || serve(&mut relay, &mut relay_end, &mut store));
    assert_eq!(client.read_all_result(outcome), Ok(b"HELLO".to_vec()));
    let outcome =
        exchange(&queue, client.metadata("/f"), || serve(&mut relay, &mut relay_end, &mut store));
    assert_eq!(client.metadata_result(outcome).map(|stat| stat.len), Ok(5));
    let outcome =
        exchange(&queue, client.metadata("/g"), || serve(&mut relay, &mut relay_end, &mut store));
    assert_eq!(client.metadata_result(outcome), Err(FsError::EntryNotFound));
    assert_eq!(relay.in_flight(), None);
    assert!(!relay.is_stopped());
}

#[test]
fn queued_commands_reach_the_store_in_the_order_sent() {
    let (queue, mut relay_end) = channel::<Envelope>(COMMAND_QUEUE_CAPACITY);
    let mut relay = CodeFS::new();
    let mut store = Store::new();
    let client = relay.create_client();
    let mut replies = Vec::new();
    for round in 0..20u8 {
        let (reply_to, reply) = channel(REPLY_SLOT_CAPACITY);
        let command = if round % 2 == 0 {
            client.write_all("/f", &[round])
        } else {
            client.read_all("/f")
        };
        assert!(queue.try_send((command, reply_to)).is_ok());
        replies.push(reply);
    }
    serve(&mut relay, &mut relay_end, &mut store);
    assert_eq!(store.calls.len(), 20);
    for (round, call) in store.calls.iter().enumerate() {
        if round % 2 == 0 {
            assert_eq!(
                call,
                &BackendCall::WriteWhole { path: "/f".to_string(), data: vec![round as u8] }
            );
        } else {
            assert_eq!(call, &BackendCall::ReadWhole { path: "/f".to_string() });
        }
    }
    for (round, mut reply) in replies.into_iter().enumerate() {
        if round % 2 == 0 {
            assert_eq!(reply.try_recv(), Ok(Reply::WriteFile));
        } else {
            assert_eq!(reply.try_recv(), Ok(Reply::ReadFile(vec![round as u8 - 1])));
        }
    }
}

#[test]
fn open_edit_flush_over_the_queue() {
    let (queue, mut relay_end) = channel::<Envelope>(COMMAND_QUEUE_CAPACITY);
    let mut relay = CodeFS::new();
    let mut store = Store::new();
    store.files.insert("/f".to_string(), b"WORLD".to_vec());
    let client = relay.create_client();
    let conf = OpenOptionsConfig {
        read: true,
        write: true,
        create_new: false,
        create: false,
        append: false,
        truncate: false,
    };

    let mut step = client.open("/f", &conf);
    let mut file = loop {
        step = match step {
            OpenStep::FetchContents(command) => {
                let outcome =
                    exchange(&queue, command, || serve(&mut relay, &mut relay_end, &mut store));
                client.open_contents("/f", outcome)
            }
            OpenStep::FetchMetadata(command, bytes) => {
                let outcome =
                    exchange(&queue, command, || serve(&mut relay, &mut relay_end, &mut store));
                OpenStep::Ready(client.open_metadata("/f", bytes, client.metadata_result(outcome)))
            }
            OpenStep::Ready(file) => break file,
            OpenStep::Failed(error) => panic!("the open failed: {:?}", error),
        };
    };
    assert_eq!(file.size(), 5);

    let outcome = exchange(&queue, file.flush(), || serve(&mut relay, &mut relay_end, &mut store));
    assert_eq!(file.flushed(client.write_all_result(outcome)), Ok(()));
    assert_eq!(store.files.get("/f"), Some(&b"WORLD".to_vec()));

    assert_eq!(file.write(b">>"), 2);
    assert_eq!(file.seek(SeekOrigin::End, 0), Ok(7));
    assert_eq!(file.write(b"!"), 1);
    let outcome = exchange(&queue, file.flush(), || serve(&mut relay, &mut relay_end, &mut store));
    assert_eq!(file.flushed(client.write_all_result(outcome)), Ok(()));
    assert_eq!(store.files.get("/f"), Some(&b">>WORLD!".to_vec()));

    let outcome = exchange(&queue, file.unlink(), || serve(&mut relay, &mut relay_end, &mut store));
    assert_eq!(file.unlinked(client.remove_file_result(outcome)), Ok(()));
    assert_eq!(store.files.get("/f"), None);

    assert_eq!(
        store.calls,
        vec![
            BackendCall::ReadWhole { path: "/f".to_string() },
            BackendCall::Stat { path: "/f".to_string() },
            BackendCall::WriteWhole { path: "/f".to_string(), data: b"WORLD".to_vec() },
            BackendCall::WriteWhole { path: "/f".to_string(), data: b">>WORLD!".to_vec() },
            BackendCall::Delete { path: "/f".to_string() },
        ]
    );
}

#[test]
fn open_on_a_closed_queue_fails_without_asking_for_the_stat() {
    let (queue, relay_end) = channel::<Envelope>(COMMAND_QUEUE_CAPACITY);
    drop(relay_end);
    let client = CodeFSClient::new();
    let conf = OpenOptionsConfig {
        read: true,
        write: false,
        create_new: false,
        create: false,
        append: false,
        truncate: false,
    };
    let command = match client.open("/f", &conf) {
        OpenStep::FetchContents(command) => command,
        other => panic!("expected a fetch, not {:?}", other),
    };
    let outcome = exchange(&queue, command, || {});
    match client.open_contents("/f", outcome) {
        OpenStep::Failed(error) => assert_eq!(error, FsError::IOError),
        other => panic!("expected a failure, not {:?}", other),
    }
}
