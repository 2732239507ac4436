//! Opening a file: which commands an open sends, in which order, and the
//! file it ends in.
//!
//! An open for reading takes two exchanges, first for the contents and then
//! for the stat; an open without read access takes none. Each function here
//! is one stage: it says what is to be sent next or what the open has ended
//! in.

use vstd::prelude::*;
use crate::client::{read_all_returns, CodeFSClient, Exchange};
use crate::file::{CodeFSVirtualFile, FileState};
use crate::fs::{call_for, Call};
use crate::vfs::{FsError, Metadata, OpenOptionsConfig};
use crate::{Command, FileCommands};

verus! {

/// Where an open stands after one of its stages.
#[derive(Debug)]
pub enum OpenStep {
    /// The contents are wanted: send the command, then go on with
    /// [`CodeFSClient::open_contents`].
    FetchContents(FileCommands),
    /// The contents are here and the stat is wanted: send the command, then
    /// go on with [`CodeFSClient::open_metadata`], these bytes and what
    /// [`CodeFSClient::metadata_result`] makes of the exchange.
    FetchMetadata(FileCommands, Vec<u8>),
    /// The open has ended in this file.
    Ready(CodeFSVirtualFile),
    /// The open has failed.
    Failed(FsError),
}

/// The mathematical value of an [`OpenStep`].
pub enum OpenStepView {
    FetchContents(Command),
    FetchMetadata(Command, Seq<u8>),
    Ready(FileState),
    Failed(FsError),
}

impl View for OpenStep {
    type V = OpenStepView;

    open spec fn view(&self) -> OpenStepView {
        match *self {
            OpenStep::FetchContents(command) => OpenStepView::FetchContents(command@),
            OpenStep::FetchMetadata(command, bytes) => OpenStepView::FetchMetadata(
                command@,
                bytes@,
            ),
            OpenStep::Ready(file) => OpenStepView::Ready(file@),
            OpenStep::Failed(error) => OpenStepView::Failed(error),
        }
    }
}

/// A file as an open leaves it: the given contents, the cursor at byte 0.
pub open spec fn opened(path: Seq<char>, metadata: Metadata, buffer: Seq<u8>) -> FileState {
    FileState { metadata, path, buffer, cursor: 0 }
}

/// The first stage of an open. With read access the contents are fetched;
/// without it the open ends at once, in an empty file with placeholder
/// metadata, and nothing is sent.
pub open spec fn open_begins(path: Seq<char>, read: bool) -> OpenStepView {
    if read {
        OpenStepView::FetchContents(Command::ReadFile { path })
    } else {
        OpenStepView::Ready(opened(path, Metadata::zeroed(), Seq::empty()))
    }
}

/// The second stage of an open for reading. With the contents in hand the
/// stat is fetched; an exchange that failed ends the open in its error, and
/// no stat is asked for.
pub open spec fn open_goes_on(path: Seq<char>, contents: Result<Seq<u8>, FsError>) -> OpenStepView {
    match contents {
        Ok(bytes) => OpenStepView::FetchMetadata(Command::Stat { path }, bytes),
        Err(error) => OpenStepView::Failed(error),
    }
}

/// What the store holds after `call`, where `store` gives for each path the
/// bytes most recently written to it: a write replaces the bytes of its path.
pub open spec fn store_after(store: Map<Seq<char>, Seq<u8>>, call: Call) -> Map<
    Seq<char>,
    Seq<u8>,
> {
    match call {
        Call::WriteWhole { path, data } => store.insert(path, data),
        _ => store,
    }
}

impl CodeFSClient {
    /// Begins to open `path`.
    pub fn open(&self, path: &str, conf: &OpenOptionsConfig) -> (step: OpenStep)
        ensures
            step@ == open_begins(path@, conf.read),
    {
        if conf.read() {
            OpenStep::FetchContents(self.read_all(path))
        } else {
            OpenStep::Ready(
                CodeFSVirtualFile::new(*self, Metadata::default(), path.to_owned(), Vec::new()),
            )
        }
    }

    /// Goes on with an open for reading once the exchange for the contents
    /// has ended in `outcome`.
    pub fn open_contents(&self, path: &str, outcome: Exchange) -> (step: OpenStep)
        ensures
            step@ == open_goes_on(path@, read_all_returns(outcome@)),
    {
        match self.read_all_result(outcome) {
            Ok(bytes) => OpenStep::FetchMetadata(self.metadata(path), bytes),
            Err(error) => OpenStep::Failed(error),
        }
    }

    /// Ends an open for reading with what `metadata` returned: the file holds
    /// `buffer` and the stat. The stat must have been had: an open has no way
    /// to go on without it.
    pub fn open_metadata(&self, path: &str, buffer: Vec<u8>, metadata: Result<Metadata, FsError>) -> (file:
        CodeFSVirtualFile)
        requires
            metadata is Ok,
        ensures
            file@ == opened(path@, metadata->Ok_0, buffer@),
            file@.well_formed(),
    {
        match metadata {
            Ok(metadata) => CodeFSVirtualFile::new(*self, metadata, path.to_owned(), buffer),
            Err(_) => unreached(),
        }
    }
}

/// An open for reading followed by a flush, with nothing in between, writes
/// back what was read. The open asks for the contents of `path` and, given
/// what the store holds for it, for the stat; the file it ends in holds those
/// contents; the flush's command carries the path of the open and the
/// contents byte for byte; and the store call it leads to leaves the store as
/// it was.
pub proof fn lemma_open_then_flush_round_trip(
    store: Map<Seq<char>, Seq<u8>>,
    path: Seq<char>,
    metadata: Metadata,
)
    requires
        store.contains_key(path),
    ensures
        open_begins(path, true) == OpenStepView::FetchContents(Command::ReadFile { path }),
        open_goes_on(path, Ok(store[path])) == OpenStepView::FetchMetadata(
            Command::Stat { path },
            store[path],
        ),
        opened(path, metadata, store[path]).flush() == (Command::WriteFile {
            path,
            data: store[path],
        }),
        call_for(opened(path, metadata, store[path]).flush()) == (Call::WriteWhole {
            path,
            data: store[path],
        }),
        store_after(store, call_for(opened(path, metadata, store[path]).flush())) == store,
{
    assert(store.insert(path, store[path]) =~= store);
}

} // verus!
