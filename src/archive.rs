use vstd::prelude::*;

verus! {

/// Copy buffer for files of at most 100 KiB.
pub const TINY_FILE_BUF_SIZE: usize = 8 * 1024;

/// Copy buffer for files of at most 1 MiB.
pub const SMALL_FILE_BUF_SIZE: usize = 16 * 1024;

/// Copy buffer for files of at most 40 MiB.
pub const MEDIUM_FILE_BUF_SIZE: usize = 256 * 1024;

/// Copy buffer for larger files.
pub const LARGE_FILE_BUF_SIZE: usize = 2 * 1024 * 1024;

/// The copy buffer size for a file of `size` bytes.
pub open spec fn buffer_size_spec(size: int) -> int {
    if size <= 100 * 1024 {
        TINY_FILE_BUF_SIZE as int
    } else if size <= 1024 * 1024 {
        SMALL_FILE_BUF_SIZE as int
    } else if size <= 40 * 1024 * 1024 {
        MEDIUM_FILE_BUF_SIZE as int
    } else {
        LARGE_FILE_BUF_SIZE as int
    }
}

/// The copy buffer size for a file of `file_size` bytes: the size bounds
/// peak memory for small files and keeps large files fast. Any size gives
/// the same archive.
pub fn buffer_size_for(file_size: u64) -> (r: usize)
    ensures
        r == buffer_size_spec(file_size as int),
        r > 0,
{
    if file_size <= 100 * 1024 {
        TINY_FILE_BUF_SIZE
    } else if file_size <= 1024 * 1024 {
        SMALL_FILE_BUF_SIZE
    } else if file_size <= 40 * 1024 * 1024 {
        MEDIUM_FILE_BUF_SIZE
    } else {
        LARGE_FILE_BUF_SIZE
    }
}

/// Why an archive could not be produced.
#[derive(Debug, Clone, Copy, PartialEq, Eq, Structural)]
pub enum ArchiveError {
    /// The source does not exist or is not a directory.
    NotADirectory,
    /// Reading a source file or writing the archive failed.
    ArchiveIOError,
}

/// Refuses a source that is not a directory.
pub fn check_source(source_is_dir: bool) -> (r: Result<(), ArchiveError>)
    ensures
        r == if source_is_dir {
            Ok::<(), ArchiveError>(())
        } else {
            Err::<(), ArchiveError>(ArchiveError::NotADirectory)
        },
{
    if source_is_dir {
        Ok(())
    } else {
        Err(ArchiveError::NotADirectory)
    }
}

/// What the archive receives for one entry of the walked tree.
pub enum EntryAction {
    /// A file entry under `name`, copied with a buffer of `buffer_size`.
    AddFile { name: String, buffer_size: usize },
    /// A directory-only entry under `name`.
    AddDirectory { name: String },
    /// Nothing: the entry is the source directory itself.
    Skip,
}

/// The action for a walked entry named `relative_name` below the source
/// directory. Files become file entries; every other directory becomes a
/// directory entry, so that empty directories survive the round trip.
pub fn plan_entry(relative_name: String, is_file: bool, file_size: u64) -> (r: EntryAction)
    ensures
        is_file ==> (r matches EntryAction::AddFile { name, buffer_size } && name@
            == relative_name@ && buffer_size == buffer_size_spec(file_size as int)),
        !is_file && relative_name@.len() > 0 ==> (r matches EntryAction::AddDirectory { name }
            && name@ == relative_name@),
        !is_file && relative_name@.len() == 0 ==> r is Skip,
{
    if is_file {
        EntryAction::AddFile { name: relative_name, buffer_size: buffer_size_for(file_size) }
    } else if relative_name.as_str().is_empty() {
        EntryAction::Skip
    } else {
        EntryAction::AddDirectory { name: relative_name }
    }
}

/// What one read of a source file returned.
#[derive(Debug, Clone, Copy, PartialEq, Eq, Structural)]
pub enum ReadOutcome {
    /// `n` bytes were read; zero means the end of the file.
    Read(usize),
    /// The read was interrupted before any byte arrived.
    Interrupted,
    /// The read failed.
    Failed,
}

/// What the copy loop does after a read.
#[derive(Debug, Clone, Copy, PartialEq, Eq, Structural)]
pub enum CopyStep {
    /// Write the first `n` bytes of the buffer to the archive.
    Write(usize),
    /// Read again; nothing was lost.
    Retry,
    /// The file is complete.
    Finish,
    /// Abandon the archive.
    Abort,
}

/// The step that follows a read outcome.
pub open spec fn copy_step_spec(outcome: ReadOutcome) -> CopyStep {
    match outcome {
        ReadOutcome::Read(n) => if n == 0 {
            CopyStep::Finish
        } else {
            CopyStep::Write(n)
        },
        ReadOutcome::Interrupted => CopyStep::Retry,
        ReadOutcome::Failed => CopyStep::Abort,
    }
}

/// The step that follows a read outcome: only the bytes that the read
/// delivered are written, interrupted reads are retried, and any other
/// failure ends the archive.
pub fn copy_step(outcome: ReadOutcome) -> (r: CopyStep)
    ensures
        r == copy_step_spec(outcome),
{
    match outcome {
        ReadOutcome::Read(n) => if n == 0 {
            CopyStep::Finish
        } else {
            CopyStep::Write(n)
        },
        ReadOutcome::Interrupted => CopyStep::Retry,
        ReadOutcome::Failed => CopyStep::Abort,
    }
}

/// A sequence of read outcomes that a reader of a file of `len` bytes,
/// positioned at `pos`, can produce up to and including the end of the
/// file: reads deliver the next bytes, interruptions deliver none, and no
/// read fails.
pub open spec fn is_read_trace(len: nat, pos: nat, trace: Seq<ReadOutcome>) -> bool
    decreases trace.len(),
{
    if trace.len() == 0 {
        false
    } else {
        match trace[0] {
            ReadOutcome::Read(n) => if n == 0 {
                pos == len
            } else {
                pos + n <= len && is_read_trace(len, (pos + n) as nat, trace.drop_first())
            },
            ReadOutcome::Interrupted => is_read_trace(len, pos, trace.drop_first()),
            ReadOutcome::Failed => false,
        }
    }
}

/// The bytes that a copy loop following `copy_step` writes for a file with
/// contents `f`, when its reads, from position `pos` on, have the outcomes
/// `trace`; `None` when the loop aborts or never finishes.
pub open spec fn copied(f: Seq<u8>, pos: nat, trace: Seq<ReadOutcome>) -> Option<Seq<u8>>
    decreases trace.len(),
{
    if trace.len() == 0 {
        None
    } else {
        match copy_step_spec(trace[0]) {
            CopyStep::Finish => Some(Seq::empty()),
            CopyStep::Abort => None,
            CopyStep::Retry => copied(f, pos, trace.drop_first()),
            CopyStep::Write(n) => match copied(f, (pos + n) as nat, trace.drop_first()) {
                Some(rest) => Some(f.subrange(pos as int, pos + n) + rest),
                None => None,
            },
        }
    }
}

/// Whatever sizes the reads of a file come in, and however often they are
/// interrupted, the copy loop writes exactly the file's remaining bytes;
/// so the buffer size does not change the archive.
pub proof fn lemma_copy_reproduces(f: Seq<u8>, pos: nat, trace: Seq<ReadOutcome>)
    requires
        is_read_trace(f.len(), pos, trace),
    ensures
        copied(f, pos, trace) == Some(f.subrange(pos as int, f.len() as int)),
    decreases trace.len(),
{
    match trace[0] {
        ReadOutcome::Read(n) => if n == 0 {
            assert(f.subrange(pos as int, f.len() as int) =~= Seq::<u8>::empty());
        } else {
            lemma_copy_reproduces(f, (pos + n) as nat, trace.drop_first());
            assert(f.subrange(pos as int, pos + n) + f.subrange(pos + n, f.len() as int)
                =~= f.subrange(pos as int, f.len() as int));
        },
        ReadOutcome::Interrupted => {
            lemma_copy_reproduces(f, pos, trace.drop_first());
        },
        ReadOutcome::Failed => {},
    }
}

} // verus!
