//! The client handle's side of the command protocol.
//!
//! Every filesystem call is one exchange: one command goes onto the queue and
//! one reply is awaited. For each call this module names the command to send
//! and says what the caller gets once the exchange has ended, whichever way
//! it ended.

use vstd::prelude::*;
use vstd::slice::slice_to_vec;
use crate::fs::{
    answers, form_of, kind_of, listing_result_view, reply_for, CommandKind, Outcome, Reply,
    ReplyView,
};
use crate::vfs::{DirEntry, DirEntryView, FsError, Metadata};
use crate::{Command, FileCommands};

verus! {

/// How one send-then-await ended.
#[derive(Debug, PartialEq, Eq)]
pub enum Exchange {
    /// The command could not be sent: the queue was closed.
    QueueClosed,
    /// The command was sent, and the reply slot was closed without a reply.
    ReplyClosed,
    /// The relay replied.
    Replied(Reply),
}

/// The mathematical value of an [`Exchange`].
pub enum ExchangeView {
    QueueClosed,
    ReplyClosed,
    Replied(ReplyView),
}

impl View for Exchange {
    type V = ExchangeView;

    open spec fn view(&self) -> ExchangeView {
        match *self {
            Exchange::QueueClosed => ExchangeView::QueueClosed,
            Exchange::ReplyClosed => ExchangeView::ReplyClosed,
            Exchange::Replied(reply) => ExchangeView::Replied(reply@),
        }
    }
}

/// The mathematical value of file contents or of the error in their place.
pub open spec fn bytes_result_view(bytes: Result<Vec<u8>, FsError>) -> Result<Seq<u8>, FsError> {
    match bytes {
        Ok(bytes) => Ok(bytes@),
        Err(error) => Err(error),
    }
}

/// The reply that the caller of a command of `kind` takes from its exchange.
/// Where the queue was closed, the reply slot was closed, or what came is not
/// the reply to a command of that kind, the transport has failed and the
/// caller is left with an I/O error.
pub open spec fn received(kind: CommandKind, outcome: ExchangeView) -> Result<ReplyView, FsError> {
    match outcome {
        ExchangeView::Replied(reply) => if form_of(reply) == kind {
            Ok(reply)
        } else {
            Err(FsError::IOError)
        },
        _ => Err(FsError::IOError),
    }
}

/// What a call whose reply carries nothing returns: success once the reply
/// is here.
pub open spec fn completed(kind: CommandKind, outcome: ExchangeView) -> Result<(), FsError> {
    match received(kind, outcome) {
        Ok(_) => Ok(()),
        Err(error) => Err(error),
    }
}

/// What `read_all` returns: the bytes that the reply carries.
pub open spec fn read_all_returns(outcome: ExchangeView) -> Result<Seq<u8>, FsError> {
    match received(CommandKind::ReadFile, outcome) {
        Ok(reply) => Ok(reply->ReadFile_0),
        Err(error) => Err(error),
    }
}

/// What `metadata` returns: the store's answer as the reply carries it.
pub open spec fn metadata_returns(outcome: ExchangeView) -> Result<Metadata, FsError> {
    match received(CommandKind::Stat, outcome) {
        Ok(reply) => reply->Stat_0,
        Err(error) => Err(error),
    }
}

/// What `read_dir` returns: the store's answer as the reply carries it.
pub open spec fn read_dir_returns(outcome: ExchangeView) -> Result<Seq<DirEntryView>, FsError> {
    match received(CommandKind::ReadDirectory, outcome) {
        Ok(reply) => reply->ReadDirectory_0,
        Err(error) => Err(error),
    }
}

/// What `rename` returns: the store's answer as the reply carries it.
pub open spec fn rename_returns(outcome: ExchangeView) -> Result<(), FsError> {
    match received(CommandKind::Rename, outcome) {
        Ok(reply) => reply->Rename_0,
        Err(error) => Err(error),
    }
}

/// A handle through which callers reach the relay.
#[derive(Clone, Copy, Debug)]
pub struct CodeFSClient {}

impl CodeFSClient {
    /// A new handle.
    pub fn new() -> Self {
        CodeFSClient {  }
    }

    /// The command that asks for the whole contents of `path`.
    pub fn read_all(&self, path: &str) -> (command: FileCommands)
        ensures
            command@ == (Command::ReadFile { path: path@ }),
    {
        FileCommands::ReadFile { path: path.to_owned() }
    }

    /// What `read_all` returns once its exchange has ended: the file's bytes,
    /// or an I/O error where the transport failed.
    pub fn read_all_result(&self, outcome: Exchange) -> (result: Result<Vec<u8>, FsError>)
        ensures
            bytes_result_view(result) == read_all_returns(outcome@),
    {
        match outcome {
            Exchange::Replied(Reply::ReadFile(bytes)) => Ok(bytes),
            _ => Err(FsError::IOError),
        }
    }

    /// The command that replaces the whole contents of `path` by `data`.
    pub fn write_all(&self, path: &str, data: &[u8]) -> (command: FileCommands)
        ensures
            command@ == (Command::WriteFile { path: path@, data: data@ }),
    {
        FileCommands::WriteFile { path: path.to_owned(), data: slice_to_vec(data) }
    }

    /// What `write_all` returns once its exchange has ended: success, or an
    /// I/O error where the transport failed.
    pub fn write_all_result(&self, outcome: Exchange) -> (result: Result<(), FsError>)
        ensures
            result == completed(CommandKind::WriteFile, outcome@),
    {
        match outcome {
            Exchange::Replied(Reply::WriteFile) => Ok(()),
            _ => Err(FsError::IOError),
        }
    }

    /// The command that asks for the stat of `path`.
    pub fn metadata(&self, path: &str) -> (command: FileCommands)
        ensures
            command@ == (Command::Stat { path: path@ }),
    {
        FileCommands::Stat { path: path.to_owned() }
    }

    /// What `metadata` returns once its exchange has ended: the store's
    /// answer, error included, or an I/O error where the transport failed.
    pub fn metadata_result(&self, outcome: Exchange) -> (result: Result<Metadata, FsError>)
        ensures
            result == metadata_returns(outcome@),
    {
        match outcome {
            Exchange::Replied(Reply::Stat(stat)) => stat,
            _ => Err(FsError::IOError),
        }
    }

    /// The command that creates the directory `path`.
    pub fn create_dir(&self, path: &str) -> (command: FileCommands)
        ensures
            command@ == (Command::CreateDirectory { path: path@ }),
    {
        FileCommands::CreateDirectory { path: path.to_owned() }
    }

    /// What `create_dir` returns once its exchange has ended: success, or an
    /// I/O error where the transport failed.
    pub fn create_dir_result(&self, outcome: Exchange) -> (result: Result<(), FsError>)
        ensures
            result == completed(CommandKind::CreateDirectory, outcome@),
    {
        match outcome {
            Exchange::Replied(Reply::CreateDirectory) => Ok(()),
            _ => Err(FsError::IOError),
        }
    }

    /// The command that lists the directory `path`.
    pub fn read_dir(&self, path: &str) -> (command: FileCommands)
        ensures
            command@ == (Command::ReadDirectory { path: path@ }),
    {
        FileCommands::ReadDirectory { path: path.to_owned() }
    }

    /// What `read_dir` returns once its exchange has ended: the store's
    /// answer, error included, or an I/O error where the transport failed.
    pub fn read_dir_result(&self, outcome: Exchange) -> (result: Result<Vec<DirEntry>, FsError>)
        ensures
            listing_result_view(result) == read_dir_returns(outcome@),
    {
        match outcome {
            Exchange::Replied(Reply::ReadDirectory(listing)) => listing,
            _ => Err(FsError::IOError),
        }
    }

    /// The command that renames `from` to `to`.
    pub fn rename(&self, from: &str, to: &str) -> (command: FileCommands)
        ensures
            command@ == (Command::Rename { old_path: from@, new_path: to@ }),
    {
        FileCommands::Rename { old_path: from.to_owned(), new_path: to.to_owned() }
    }

    /// What `rename` returns once its exchange has ended: the store's answer,
    /// error included, or an I/O error where the transport failed.
    pub fn rename_result(&self, outcome: Exchange) -> (result: Result<(), FsError>)
        ensures
            result == rename_returns(outcome@),
    {
        match outcome {
            Exchange::Replied(Reply::Rename(done)) => done,
            _ => Err(FsError::IOError),
        }
    }

    /// The command that removes the file `path`.
    pub fn remove_file(&self, path: &str) -> (command: FileCommands)
        ensures
            command@ == (Command::Delete { path: path@ }),
    {
        FileCommands::Delete { path: path.to_owned() }
    }

    /// What `remove_file` returns once its exchange has ended: success, or an
    /// I/O error where the transport failed.
    pub fn remove_file_result(&self, outcome: Exchange) -> (result: Result<(), FsError>)
        ensures
            result == completed(CommandKind::Delete, outcome@),
    {
        match outcome {
            Exchange::Replied(Reply::Delete) => Ok(()),
            _ => Err(FsError::IOError),
        }
    }

    /// The command that removes the directory `path`: the store does not
    /// tell files from directories, so it is the command that removes a file.
    pub fn remove_dir(&self, path: &str) -> (command: FileCommands)
        ensures
            command@ == (Command::Delete { path: path@ }),
    {
        FileCommands::Delete { path: path.to_owned() }
    }

    /// What `remove_dir` returns once its exchange has ended: success, or an
    /// I/O error where the transport failed.
    pub fn remove_dir_result(&self, outcome: Exchange) -> (result: Result<(), FsError>)
        ensures
            result == completed(CommandKind::Delete, outcome@),
    {
        match outcome {
            Exchange::Replied(Reply::Delete) => Ok(()),
            _ => Err(FsError::IOError),
        }
    }
}

/// The relay answers every command in the form that its caller waits for.
pub proof fn lemma_reply_fits_command(command: Command, outcome: Outcome)
    ensures
        form_of(reply_for(kind_of(command), outcome)) == kind_of(command),
        received(kind_of(command), ExchangeView::Replied(reply_for(kind_of(command), outcome)))
            is Ok,
{
}

/// What callers see of the store. Where the relay has replied to a command
/// whose store call ended in `outcome`: a stat, a listing and a rename return
/// the store's own answer, error included; a read returns the bytes; and
/// creating a directory, removing an entry and writing a file return success
/// whatever the store said.
pub proof fn lemma_caller_sees_store_answer(command: Command, outcome: Outcome)
    requires
        answers(kind_of(command), outcome),
    ensures
        ({
            let replied = ExchangeView::Replied(reply_for(kind_of(command), outcome));
            match kind_of(command) {
                CommandKind::Stat => metadata_returns(replied) == outcome->Stat_0,
                CommandKind::ReadDirectory => read_dir_returns(replied) == outcome->List_0,
                CommandKind::Rename => rename_returns(replied) == outcome->Done_0,
                CommandKind::ReadFile => read_all_returns(replied) == Ok::<Seq<u8>, FsError>(
                    outcome->Bytes_0,
                ),
                CommandKind::CreateDirectory => completed(CommandKind::CreateDirectory, replied)
                    == Ok::<(), FsError>(()),
                CommandKind::Delete => completed(CommandKind::Delete, replied) == Ok::<
                    (),
                    FsError,
                >(()),
                CommandKind::WriteFile => completed(CommandKind::WriteFile, replied) == Ok::<
                    (),
                    FsError,
                >(()),
            }
        }),
{
}

/// Where the transport fails, every call returns the same I/O error, whether
/// the queue was closed at the send or the reply slot was closed afterwards.
pub proof fn lemma_transport_failure_is_io_error(kind: CommandKind)
    ensures
        received(kind, ExchangeView::QueueClosed) == Err::<ReplyView, FsError>(FsError::IOError),
        received(kind, ExchangeView::ReplyClosed) == Err::<ReplyView, FsError>(FsError::IOError),
        completed(kind, ExchangeView::QueueClosed) == Err::<(), FsError>(FsError::IOError),
        completed(kind, ExchangeView::ReplyClosed) == Err::<(), FsError>(FsError::IOError),
        read_all_returns(ExchangeView::QueueClosed) == Err::<Seq<u8>, FsError>(FsError::IOError),
        read_all_returns(ExchangeView::ReplyClosed) == Err::<Seq<u8>, FsError>(FsError::IOError),
        metadata_returns(ExchangeView::QueueClosed) == Err::<Metadata, FsError>(FsError::IOError),
        metadata_returns(ExchangeView::ReplyClosed) == Err::<Metadata, FsError>(FsError::IOError),
        read_dir_returns(ExchangeView::QueueClosed) == Err::<Seq<DirEntryView>, FsError>(
            FsError::IOError,
        ),
        read_dir_returns(ExchangeView::ReplyClosed) == Err::<Seq<DirEntryView>, FsError>(
            FsError::IOError,
        ),
        rename_returns(ExchangeView::QueueClosed) == Err::<(), FsError>(FsError::IOError),
        rename_returns(ExchangeView::ReplyClosed) == Err::<(), FsError>(FsError::IOError),
{
}

} // verus!
