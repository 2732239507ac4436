//! Plain-value counterparts of the data that crosses the filesystem interface:
//! error codes, metadata, directory entries, open options and seek positions.

use vstd::prelude::*;

verus! {

/// Why a filesystem operation failed.
#[derive(Clone, Copy, Debug, PartialEq, Eq, Structural)]
pub enum FsError {
    /// The base of the operation was not a directory.
    BaseNotDirectory,
    /// Expected a file but found something else.
    NotAFile,
    /// The descriptor given was not usable.
    InvalidFd,
    /// The entry exists already.
    AlreadyExists,
    /// A resource could not be locked.
    Lock,
    /// The transport failed: the command queue or the reply slot was closed.
    IOError,
    /// The address was in use.
    AddressInUse,
    /// The address could not be found.
    AddressNotAvailable,
    /// A pipe was closed.
    BrokenPipe,
    /// The connection was aborted.
    ConnectionAborted,
    /// The connection request was refused.
    ConnectionRefused,
    /// The connection was reset.
    ConnectionReset,
    /// The operation was interrupted before it could finish.
    Interrupted,
    /// Internal data was invalid.
    InvalidData,
    /// The argument was invalid.
    InvalidInput,
    /// There was no open connection.
    NotConnected,
    /// The file or directory could not be found.
    EntryNotFound,
    /// The device could not be accessed.
    NoDevice,
    /// The caller was not allowed to perform the operation.
    PermissionDenied,
    /// The operation did not complete in time.
    TimedOut,
    /// The end of the data came before it was expected.
    UnexpectedEof,
    /// The operation would block.
    WouldBlock,
    /// A write consumed nothing.
    WriteZero,
    /// The directory was not empty.
    DirectoryNotEmpty,
    /// The storage was full.
    StorageFull,
    /// Any other failure.
    UnknownError,
}

/// What kind of entry a path names.
#[derive(Clone, Copy, Debug, PartialEq, Eq, Structural)]
pub struct FileType {
    pub dir: bool,
    pub file: bool,
    pub symlink: bool,
    pub char_device: bool,
    pub block_device: bool,
    pub socket: bool,
    pub fifo: bool,
}

/// A stat snapshot: file type, three timestamps and the length in bytes.
#[derive(Clone, Copy, Debug, PartialEq, Eq, Structural)]
pub struct Metadata {
    pub ft: FileType,
    pub accessed: u64,
    pub created: u64,
    pub modified: u64,
    pub len: u64,
}

impl FileType {
    /// The file type with every flag cleared.
    pub open spec fn unknown() -> FileType {
        FileType {
            dir: false,
            file: false,
            symlink: false,
            char_device: false,
            block_device: false,
            socket: false,
            fifo: false,
        }
    }
}

impl Metadata {
    /// The placeholder used where no stat was taken: all zero, no type flag set.
    pub open spec fn zeroed() -> Metadata {
        Metadata { ft: FileType::unknown(), accessed: 0, created: 0, modified: 0, len: 0 }
    }
}

impl Default for FileType {
    fn default() -> (ft: FileType)
        ensures
            ft == FileType::unknown(),
    {
        FileType {
            dir: false,
            file: false,
            symlink: false,
            char_device: false,
            block_device: false,
            socket: false,
            fifo: false,
        }
    }
}

impl Default for Metadata {
    fn default() -> (metadata: Metadata)
        ensures
            metadata == Metadata::zeroed(),
    {
        Metadata { ft: FileType::default(), accessed: 0, created: 0, modified: 0, len: 0 }
    }
}

/// One entry of a directory listing: its path and its stat, or why the stat failed.
#[derive(Debug, PartialEq, Eq)]
pub struct DirEntry {
    pub path: String,
    pub metadata: Result<Metadata, FsError>,
}

/// The mathematical value of a [`DirEntry`].
pub struct DirEntryView {
    pub path: Seq<char>,
    pub metadata: Result<Metadata, FsError>,
}

impl View for DirEntry {
    type V = DirEntryView;

    open spec fn view(&self) -> DirEntryView {
        DirEntryView { path: self.path@, metadata: self.metadata }
    }
}

/// The mathematical value of a directory listing.
pub open spec fn listing_view(entries: Seq<DirEntry>) -> Seq<DirEntryView> {
    entries.map_values(|entry: DirEntry| entry@)
}

/// How a file is to be opened.
#[derive(Clone, Copy, Debug, PartialEq, Eq, Structural)]
pub struct OpenOptionsConfig {
    pub read: bool,
    pub write: bool,
    pub create_new: bool,
    pub create: bool,
    pub append: bool,
    pub truncate: bool,
}

impl OpenOptionsConfig {
    /// Whether the open asks for read access.
    pub fn read(&self) -> (read: bool)
        ensures
            read == self.read,
    {
        self.read
    }
}

/// The point a seek offset is counted from.
#[derive(Clone, Copy, Debug, PartialEq, Eq, Structural)]
pub enum SeekOrigin {
    /// Byte 0.
    Start,
    /// The cursor.
    Current,
    /// The end of the buffer.
    End,
}

/// A seek request: an origin together with its offset.
#[derive(Clone, Copy, Debug, PartialEq, Eq, Structural)]
pub enum SeekFrom {
    /// So many bytes from byte 0.
    Start(u64),
    /// The end of the buffer plus the offset.
    End(i64),
    /// The cursor plus the offset.
    Current(i64),
}

impl SeekFrom {
    /// The origin and signed offset that this request stands for. A start
    /// offset above `i64::MAX` has no signed form.
    pub open spec fn signed(self) -> Option<(SeekOrigin, int)> {
        match self {
            SeekFrom::Start(offset) => if offset <= i64::MAX {
                Some((SeekOrigin::Start, offset as int))
            } else {
                None
            },
            SeekFrom::End(offset) => Some((SeekOrigin::End, offset as int)),
            SeekFrom::Current(offset) => Some((SeekOrigin::Current, offset as int)),
        }
    }
}

} // verus!
