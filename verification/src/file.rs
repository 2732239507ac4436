//! The buffered virtual file: one open file held whole in memory, with a
//! cursor. Reads, writes and seeks touch the memory alone; the remote store
//! sees the contents again when the file is flushed.

use vstd::prelude::*;
use crate::client::CodeFSClient;
use crate::vfs::{FsError, Metadata, SeekFrom, SeekOrigin};
use crate::{Command, FileCommands};

verus! {

/// What a writer is told when it asks how much it may write at once.
pub const DEFAULT_BUF_SIZE_HINT: usize = 8 * 1024;

/// The mathematical value of a [`CodeFSVirtualFile`].
pub struct FileState {
    /// The stat taken when the file was opened.
    pub metadata: Metadata,
    /// The path the file was opened under.
    pub path: Seq<char>,
    /// The file's contents.
    pub buffer: Seq<u8>,
    /// The offset at which the next read or write takes place.
    pub cursor: nat,
}

impl FileState {
    /// The cursor lies within the buffer or at its end.
    pub open spec fn well_formed(self) -> bool {
        self.cursor <= self.buffer.len()
    }

    /// How many bytes a read into `room` bytes copies: what lies between the
    /// cursor and the end, as far as there is room for it.
    pub open spec fn readable(self, room: nat) -> nat {
        if self.cursor >= self.buffer.len() {
            0
        } else if self.buffer.len() - self.cursor <= room {
            (self.buffer.len() - self.cursor) as nat
        } else {
            room
        }
    }

    /// The bytes that a read into `room` bytes copies.
    pub open spec fn read_bytes(self, room: nat) -> Seq<u8> {
        Seq::new(self.readable(room), |i: int| self.buffer[self.cursor + i])
    }

    /// The file after a read into `room` bytes: the cursor has moved past
    /// what was copied.
    pub open spec fn read(self, room: nat) -> FileState {
        FileState { cursor: self.cursor + self.readable(room), ..self }
    }

    /// The file after `src` was written: `src` stands at the old cursor,
    /// between what was before it and what was behind it, and the cursor has
    /// moved past it.
    pub open spec fn write(self, src: Seq<u8>) -> FileState {
        FileState {
            buffer: self.buffer.subrange(0, self.cursor as int) + src + self.buffer.subrange(
                self.cursor as int,
                self.buffer.len() as int,
            ),
            cursor: self.cursor + src.len(),
            ..self
        }
    }

    /// The position a seek aims at, before it is checked and clamped.
    pub open spec fn seek_target(self, from: SeekOrigin, offset: int) -> int {
        match from {
            SeekOrigin::Start => offset,
            SeekOrigin::Current => self.cursor + offset,
            SeekOrigin::End => self.buffer.len() + offset,
        }
    }

    /// The file after a seek, or the error. A target before byte 0 is an
    /// invalid input; a target behind the end is the end.
    pub open spec fn seek(self, from: SeekOrigin, offset: int) -> Result<FileState, FsError> {
        let target = self.seek_target(from, offset);
        if target < 0 {
            Err(FsError::InvalidInput)
        } else if target > self.buffer.len() {
            Ok(FileState { cursor: self.buffer.len(), ..self })
        } else {
            Ok(FileState { cursor: target as nat, ..self })
        }
    }

    /// The file after a seek to `position`, or the error. A start offset
    /// that has no signed form is an invalid input.
    pub open spec fn start_seek(self, position: SeekFrom) -> Result<FileState, FsError> {
        match position.signed() {
            Some((from, offset)) => self.seek(from, offset),
            None => Err(FsError::InvalidInput),
        }
    }

    /// The file after its length was set to `len`: cut behind `len` bytes,
    /// or filled up to `len` bytes with zeros. The cursor stays.
    pub open spec fn set_len(self, len: nat) -> FileState {
        FileState {
            buffer: if len <= self.buffer.len() {
                self.buffer.subrange(0, len as int)
            } else {
                self.buffer + Seq::new((len - self.buffer.len()) as nat, |i: int| 0u8)
            },
            ..self
        }
    }

    /// The command that a flush sends: the whole buffer, for the file's path.
    pub open spec fn flush(self) -> Command {
        Command::WriteFile { path: self.path, data: self.buffer }
    }
}

/// One open file.
#[derive(Debug)]
pub struct CodeFSVirtualFile {
    fs: CodeFSClient,
    metadata: Metadata,
    path: String,
    buffer: Vec<u8>,
    cursor: usize,
}

impl View for CodeFSVirtualFile {
    type V = FileState;

    closed spec fn view(&self) -> FileState {
        FileState {
            metadata: self.metadata,
            path: self.path@,
            buffer: self.buffer@,
            cursor: self.cursor as nat,
        }
    }
}

impl CodeFSVirtualFile {
    /// A file over `buffer`, with the cursor at byte 0.
    pub fn new(fs: CodeFSClient, metadata: Metadata, path: String, buffer: Vec<u8>) -> (file: Self)
        ensures
            file@ == (FileState { metadata, path: path@, buffer: buffer@, cursor: 0 }),
            file@.well_formed(),
    {
        Self { fs, metadata, buffer, path, cursor: 0usize }
    }

    /// Copies bytes from the cursor on into the front of `buf`, as many as
    /// are left and fit, and moves the cursor past them. At the end of the
    /// buffer nothing is copied and nothing changes.
    pub fn read(&mut self, buf: &mut [u8]) -> (n: usize)
        requires
            old(self)@.well_formed(),
        ensures
            n == old(self)@.readable(old(buf)@.len()),
            final(self)@ == old(self)@.read(old(buf)@.len()),
            final(self)@.well_formed(),
            final(buf)@ == old(self)@.read_bytes(old(buf)@.len()) + old(buf)@.subrange(
                n as int,
                old(buf)@.len() as int,
            ),
    {
        let left: usize = self.buffer.len() - self.cursor;
        let room: usize = buf.len();
        let max_to_read: usize = if left <= room {
            left
        } else {
            room
        };
        let mut i: usize = 0;
        while i < max_to_read
            invariant
                i <= max_to_read,
                self.cursor + max_to_read <= self.buffer.len(),
                *self == *old(self),
                buf@.len() == old(buf)@.len(),
                max_to_read <= buf@.len(),
                forall|j: int| 0 <= j < i ==> buf@[j] == self.buffer@[self.cursor + j],
                forall|j: int| i <= j < buf@.len() ==> buf@[j] == old(buf)@[j],
            decreases max_to_read - i,
        {
            buf[i] = self.buffer[self.cursor + i];
            i += 1;
        }
        proof {
            assert(buf@ =~= old(self)@.read_bytes(old(buf)@.len()) + old(buf)@.subrange(
                max_to_read as int,
                old(buf)@.len() as int,
            ));
        }
        self.cursor += max_to_read;
        max_to_read
    }

    /// Puts `src` into the buffer at the cursor, in front of what stood
    /// there, and moves the cursor past it. Nothing is overwritten. Returns
    /// the number of bytes written, which is all of them.
    pub fn write(&mut self, src: &[u8]) -> (n: usize)
        requires
            old(self)@.well_formed(),
        ensures
            n == src@.len(),
            final(self)@ == old(self)@.write(src@),
            final(self)@.well_formed(),
    {
        let position: usize = self.cursor;
        if position == self.buffer.len() {
            // At the end of the buffer: append.
            self.buffer.extend_from_slice(src);
        } else if position == 0 {
            // At the start of a buffer that holds something: the new bytes
            // come first.
            let mut new_buffer: Vec<u8> = Vec::new();
            new_buffer.extend_from_slice(src);
            new_buffer.append(&mut self.buffer);
            self.buffer = new_buffer;
        } else {
            // Inside the buffer: cut it at the cursor, append to the head,
            // put the tail back.
            let mut remainder: Vec<u8> = self.buffer.split_off(position);
            self.buffer.extend_from_slice(src);
            self.buffer.append(&mut remainder);
        }
        let len: usize = self.buffer.len();
        proof {
            assert(self.buffer@ =~= old(self)@.write(src@).buffer);
            assert(position + src@.len() <= len);
        }
        self.cursor += src.len();
        src.len()
    }

    /// Moves the cursor to `offset` bytes from `from`. A position before
    /// byte 0 is refused and nothing changes; a position behind the end of
    /// the buffer becomes the end. The buffer is never extended. Returns the
    /// new cursor.
    pub fn seek(&mut self, from: SeekOrigin, offset: i64) -> (result: Result<u64, FsError>)
        ensures
            match old(self)@.seek(from, offset as int) {
                Ok(state) => final(self)@ == state && result == Ok::<u64, FsError>(
                    state.cursor as u64,
                ) && state.well_formed(),
                Err(error) => final(self)@ == old(self)@ && result == Err::<u64, FsError>(error),
            },
    {
        let len: usize = self.buffer.len();
        let base: usize = match from {
            SeekOrigin::Start => 0,
            SeekOrigin::Current => self.cursor,
            SeekOrigin::End => len,
        };
        let next_cursor: i128 = base as i128 + offset as i128;
        // There is nothing before byte 0 to seek to.
        if next_cursor < 0 {
            return Err(FsError::InvalidInput);
        }
        // A seek never leaves the buffer: behind the end means the end.
        if next_cursor > len as i128 {
            self.cursor = len;
        } else {
            self.cursor = next_cursor as usize;
        }
        Ok(self.cursor as u64)
    }

    /// Moves the cursor as `position` says: see [`CodeFSVirtualFile::seek`].
    /// A start offset above `i64::MAX` is refused as an invalid input.
    pub fn start_seek(&mut self, position: SeekFrom) -> (result: Result<(), FsError>)
        ensures
            match old(self)@.start_seek(position) {
                Ok(state) => final(self)@ == state && result == Ok::<(), FsError>(())
                    && state.well_formed(),
                Err(error) => final(self)@ == old(self)@ && result == Err::<(), FsError>(error),
            },
    {
        let moved = match position {
            SeekFrom::Start(offset) => {
                if offset > i64::MAX as u64 {
                    return Err(FsError::InvalidInput);
                }
                self.seek(SeekOrigin::Start, offset as i64)
            },
            SeekFrom::End(offset) => self.seek(SeekOrigin::End, offset),
            SeekFrom::Current(offset) => self.seek(SeekOrigin::Current, offset),
        };
        match moved {
            Ok(_) => Ok(()),
            Err(error) => Err(error),
        }
    }

    /// Whether the cursor lies within the buffer or at its end. It does after
    /// an open and after every read, write and seek; `set_len` alone can
    /// leave it behind the end.
    pub fn is_well_formed(&self) -> (well_formed: bool)
        ensures
            well_formed == self@.well_formed(),
    {
        self.cursor <= self.buffer.len()
    }

    /// The cursor.
    pub fn poll_complete(&self) -> (position: u64)
        ensures
            position == self@.cursor,
    {
        self.cursor as u64
    }

    /// The time of the last access, as the stat taken at open gave it.
    pub fn last_accessed(&self) -> (time: u64)
        ensures
            time == self@.metadata.accessed,
    {
        self.metadata.accessed
    }

    /// The time of the last modification, as the stat taken at open gave it.
    pub fn last_modified(&self) -> (time: u64)
        ensures
            time == self@.metadata.modified,
    {
        self.metadata.modified
    }

    /// The time of creation, as the stat taken at open gave it.
    pub fn created_time(&self) -> (time: u64)
        ensures
            time == self@.metadata.created,
    {
        self.metadata.created
    }

    /// The length that the stat taken at open gave. Writes and `set_len` do
    /// not change it.
    pub fn size(&self) -> (len: u64)
        ensures
            len == self@.metadata.len,
    {
        self.metadata.len
    }

    /// Sets the buffer's length to `new_size` bytes: cuts it there, or fills
    /// it up with zeros. The cursor stays where it is, also where that is
    /// behind the new end.
    pub fn set_len(&mut self, new_size: u64)
        requires
            new_size <= usize::MAX,
        ensures
            final(self)@ == old(self)@.set_len(new_size as nat),
    {
        self.buffer.resize(new_size as usize, 0);
        proof {
            assert(self.buffer@ =~= old(self)@.set_len(new_size as nat).buffer);
        }
    }

    /// How many bytes are ready to be read without waiting: none is
    /// promised.
    pub fn poll_read_ready(&self) -> (ready: usize)
        ensures
            ready == 0,
    {
        0
    }

    /// How many bytes may be written at once.
    pub fn poll_write_ready(&self) -> (ready: usize)
        ensures
            ready == DEFAULT_BUF_SIZE_HINT,
    {
        DEFAULT_BUF_SIZE_HINT
    }

    /// The one command that a flush sends: the whole buffer, for the file's
    /// path. The file itself stays as it is.
    pub fn flush(&self) -> (command: FileCommands)
        ensures
            command@ == self@.flush(),
    {
        self.fs.write_all(self.path.as_str(), self.buffer.as_slice())
    }

    /// The one command that a shutdown sends: that of a flush.
    pub fn shutdown(&self) -> (command: FileCommands)
        ensures
            command@ == self@.flush(),
    {
        self.flush()
    }

    /// What a flush or a shutdown reports once its write has ended: success,
    /// whatever became of the write.
    pub fn flushed(&self, written: Result<(), FsError>) -> (result: Result<(), FsError>)
        ensures
            result == Ok::<(), FsError>(()),
    {
        match written {
            Ok(done) => Ok(done),
            Err(_) => Ok(()),
        }
    }

    /// The one command that an unlink sends: the removal of the file's path.
    pub fn unlink(&self) -> (command: FileCommands)
        ensures
            command@ == (Command::Delete { path: self@.path }),
    {
        self.fs.remove_file(self.path.as_str())
    }

    /// What an unlink reports once its removal has ended: success, whatever
    /// became of the removal.
    pub fn unlinked(&self, removed: Result<(), FsError>) -> (result: Result<(), FsError>)
        ensures
            result == Ok::<(), FsError>(()),
    {
        match removed {
            Ok(done) => Ok(done),
            Err(_) => Ok(()),
        }
    }
}

/// A write is an insertion at the cursor. For a buffer of length `L` with
/// the cursor at `c`, the new buffer has `L + src.len()` bytes: the first `c`
/// bytes as they were, then `src`, then the old bytes from `c` on; and the
/// cursor stands at `c + src.len()`. At `c == L` that is an append, at
/// `c == 0` a prepend.
pub proof fn lemma_write_inserts_at_cursor(file: FileState, src: Seq<u8>)
    requires
        file.well_formed(),
    ensures
        file.write(src).buffer.len() == file.buffer.len() + src.len(),
        file.write(src).buffer == file.buffer.subrange(0, file.cursor as int) + src
            + file.buffer.subrange(file.cursor as int, file.buffer.len() as int),
        forall|i: int|
            0 <= i < file.cursor ==> file.write(src).buffer[i] == file.buffer[i],
        forall|i: int|
            0 <= i < src.len() ==> file.write(src).buffer[file.cursor + i] == src[i],
        forall|i: int|
            file.cursor <= i < file.buffer.len() ==> file.write(src).buffer[i + src.len()]
                == file.buffer[i],
        file.write(src).cursor == file.cursor + src.len(),
        file.write(src).well_formed(),
        file.cursor == file.buffer.len() ==> file.write(src).buffer == file.buffer + src,
        file.cursor == 0 ==> file.write(src).buffer == src + file.buffer,
        file.write(src).metadata == file.metadata,
        file.write(src).path == file.path,
{
    if file.cursor == file.buffer.len() {
        assert(file.write(src).buffer =~= file.buffer + src);
    }
    if file.cursor == 0 {
        assert(file.write(src).buffer =~= src + file.buffer);
    }
}

/// A read at the end of the buffer copies nothing and leaves the file as it
/// was, so the next read finds the same: it can be repeated without end.
pub proof fn lemma_read_at_end_copies_nothing(file: FileState, room: nat)
    requires
        file.cursor >= file.buffer.len(),
    ensures
        file.readable(room) == 0,
        file.read_bytes(room) == Seq::<u8>::empty(),
        file.read(room) == file,
{
    assert(file.read_bytes(room) =~= Seq::<u8>::empty());
}

/// A seek to before byte 0 fails as an invalid input, wherever the cursor
/// stands and whatever the buffer holds: so a seek to `-1` from the start.
pub proof fn lemma_seek_before_start_fails(file: FileState, offset: int)
    requires
        offset < 0,
    ensures
        file.seek(SeekOrigin::Start, offset) == Err::<FileState, FsError>(FsError::InvalidInput),
        file.seek(SeekOrigin::Start, -1) == Err::<FileState, FsError>(FsError::InvalidInput),
{
}

/// A seek from the start to behind the end of the buffer puts the cursor at
/// the end. No seek changes the buffer, and every seek that succeeds leaves
/// the cursor within it.
pub proof fn lemma_seek_clamps_to_end(file: FileState, from: SeekOrigin, offset: int)
    ensures
        offset > file.buffer.len() ==> file.seek(SeekOrigin::Start, offset) == Ok::<
            FileState,
            FsError,
        >(FileState { cursor: file.buffer.len(), ..file }),
        file.seek(from, offset) matches Ok(moved) ==> moved.buffer == file.buffer
            && moved.well_formed(),
{
}

/// Setting the length cuts or pads and touches nothing else: the buffer has
/// exactly `len` bytes, those that were there before are as they were, those
/// that were added are zero, and the cursor, the path and the metadata stay,
/// also where the cursor is then behind the end.
pub proof fn lemma_set_len_cuts_or_pads(file: FileState, len: nat)
    ensures
        file.set_len(len).buffer.len() == len,
        forall|i: int|
            0 <= i < len && i < file.buffer.len() ==> file.set_len(len).buffer[i]
                == file.buffer[i],
        forall|i: int|
            file.buffer.len() <= i < len ==> file.set_len(len).buffer[i] == 0,
        file.set_len(len).cursor == file.cursor,
        file.set_len(len).path == file.path,
        file.set_len(len).metadata == file.metadata,
        file.set_len(len).well_formed() <==> file.cursor <= len,
{
}

} // verus!
