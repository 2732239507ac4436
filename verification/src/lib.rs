//! A sans-I/O core for a virtual filesystem that sits on a whole-file remote
//! store.
//!
//! The store only offers whole-object operations (stat, list, create, delete,
//! rename, read, write). This crate holds the rules that turn it into files
//! with a cursor: the command protocol between callers and the single relay
//! that talks to the store, the relay's step function, and the in-memory file
//! that is read, written and sought between an open and a flush. Nothing here
//! waits or performs I/O: every function takes what has happened and says
//! what is to be done next.

use vstd::prelude::*;

pub mod client;
pub mod file;
pub mod fs;
pub mod opener;
pub mod vfs;

verus! {

/// How many commands the queue between the clients and the relay may hold.
pub const COMMAND_QUEUE_CAPACITY: usize = 1024;

/// How many replies a reply slot may hold: each command is answered once.
pub const REPLY_SLOT_CAPACITY: usize = 1;

/// One unit of work for the relay: a filesystem operation with its input.
#[derive(Debug, PartialEq, Eq)]
pub enum FileCommands {
    Stat { path: String },
    ReadDirectory { path: String },
    CreateDirectory { path: String },
    ReadFile { path: String },
    WriteFile { path: String, data: Vec<u8> },
    Delete { path: String },
    Rename { old_path: String, new_path: String },
}

/// The mathematical value of a [`FileCommands`].
pub enum Command {
    Stat { path: Seq<char> },
    ReadDirectory { path: Seq<char> },
    CreateDirectory { path: Seq<char> },
    ReadFile { path: Seq<char> },
    WriteFile { path: Seq<char>, data: Seq<u8> },
    Delete { path: Seq<char> },
    Rename { old_path: Seq<char>, new_path: Seq<char> },
}

impl View for FileCommands {
    type V = Command;

    open spec fn view(&self) -> Command {
        match *self {
            FileCommands::Stat { path } => Command::Stat { path: path@ },
            FileCommands::ReadDirectory { path } => Command::ReadDirectory { path: path@ },
            FileCommands::CreateDirectory { path } => Command::CreateDirectory { path: path@ },
            FileCommands::ReadFile { path } => Command::ReadFile { path: path@ },
            FileCommands::WriteFile { path, data } => Command::WriteFile {
                path: path@,
                data: data@,
            },
            FileCommands::Delete { path } => Command::Delete { path: path@ },
            FileCommands::Rename { old_path, new_path } => Command::Rename {
                old_path: old_path@,
                new_path: new_path@,
            },
        }
    }
}

} // verus!
