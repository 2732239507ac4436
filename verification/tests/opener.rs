use codefs::client::{CodeFSClient, Exchange};
use codefs::file::CodeFSVirtualFile;
use codefs::fs::Reply;
use codefs::opener::OpenStep;
use codefs::vfs::{FsError, Metadata, OpenOptionsConfig, SeekOrigin};
use codefs::FileCommands;

fn options(read: bool, write: bool) -> OpenOptionsConfig {
    OpenOptionsConfig {
        read,
        write,
        create_new: false,
        create: false,
        append: false,
        truncate: false,
    }
}

fn flushed_bytes(file: &CodeFSVirtualFile) -> (String, Vec<u8>) {
    match file.flush() {
        FileCommands::WriteFile { path, data } => (path, data),
        other => panic!("a flush sends a write, not {:?}", other),
    }
}

#[test]
fn options_report_read_access() {
    assert!(options(true, false).read());
    assert!(!options(false, true).read());
}

#[test]
fn open_for_read_fetches_the_contents_first() {
    let client = CodeFSClient::new();
    match client.open("/f", &options(true, false)) {
        OpenStep::FetchContents(command) => {
            assert_eq!(command, FileCommands::ReadFile { path: "/f".to_string() })
        }
        other => panic!("expected a fetch, not {:?}", other),
    }
}

#[test]
fn open_without_read_sends_nothing_and_starts_empty() {
    let client = CodeFSClient::new();
    match client.open("/f", &options(false, true)) {
        OpenStep::Ready(file) => {
            assert_eq!(flushed_bytes(&file), ("/f".to_string(), vec![]));
            assert_eq!(file.poll_complete(), 0);
            assert_eq!(file.size(), 0);
            assert_eq!(file.last_accessed(), 0);
            assert_eq!(file.last_modified(), 0);
            assert_eq!(file.created_time(), 0);
        }
        other => panic!("expected a file, not {:?}", other),
    }
}

#[test]
fn open_goes_on_to_the_stat_once_the_contents_are_here() {
    let client = CodeFSClient::new();
    match client.open_contents("/f", Exchange::Replied(Reply::ReadFile(b"HELLO".to_vec()))) {
        OpenStep::FetchMetadata(command, bytes) => {
            assert_eq!(command, FileCommands::Stat { path: "/f".to_string() });
            assert_eq!(bytes, b"HELLO".to_vec());
        }
        other => panic!("expected a stat, not {:?}", other),
    }
}

#[test]
fn open_fails_with_an_io_error_when_the_queue_is_closed() {
    let client = CodeFSClient::new();
    match client.open_contents("/f", Exchange::QueueClosed) {
        OpenStep::Failed(error) => assert_eq!(error, FsError::IOError),
        other => panic!("expected a failure, not {:?}", other),
    }
    match client.open_contents("/f", Exchange::ReplyClosed) {
        OpenStep::Failed(error) => assert_eq!(error, FsError::IOError),
        other => panic!("expected a failure, not {:?}", other),
    }
}

#[test]
fn open_fails_when_the_reply_is_not_the_contents() {
    let client = CodeFSClient::new();
    match client.open_contents("/f", Exchange::Replied(Reply::WriteFile)) {
        OpenStep::Failed(error) => assert_eq!(error, FsError::IOError),
        other => panic!("expected a failure, not {:?}", other),
    }
}

#[test]
fn open_ends_in_a_file_with_the_contents_and_the_stat() {
    let client = CodeFSClient::new();
    let stat = Metadata { accessed: 1, created: 2, modified: 3, len: 5, ..Metadata::default() };
    let mut file = client.open_metadata("/f", b"HELLO".to_vec(), Ok(stat));
    assert_eq!(file.poll_complete(), 0);
    assert_eq!(file.size(), 5);
    assert_eq!(file.last_accessed(), 1);
    assert_eq!(file.created_time(), 2);
    assert_eq!(file.last_modified(), 3);
    let mut dst = [0u8; 5];
    assert_eq!(file.read(&mut dst), 5);
    assert_eq!(&dst, b"HELLO");
}

#[test]
fn open_then_flush_writes_back_what_was_read() {
    let client = CodeFSClient::new();
    let stored: Vec<u8> = (0..=255u8).collect();
    let reply = Exchange::Replied(Reply::ReadFile(stored.clone()));
    let bytes = match client.open_contents("/blob", reply) {
        OpenStep::FetchMetadata(_, bytes) => bytes,
        other => panic!("expected a stat, not {:?}", other),
    };
    let stat = client.metadata_result(Exchange::Replied(Reply::Stat(Ok(Metadata::default()))));
    let file = client.open_metadata("/blob", bytes, stat);
    assert_eq!(flushed_bytes(&file), ("/blob".to_string(), stored));
}

#[test]
fn open_read_seek_flush_still_writes_back_what_was_read() {
    let client = CodeFSClient::new();
    let mut file = client.open_metadata("/f", b"HELLO".to_vec(), Ok(Metadata::default()));
    let mut dst = [0u8; 2];
    assert_eq!(file.read(&mut dst), 2);
    assert_eq!(file.seek(SeekOrigin::End, 0), Ok(5));
    assert_eq!(flushed_bytes(&file), ("/f".to_string(), b"HELLO".to_vec()));
}
