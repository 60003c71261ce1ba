use filesha::archive::{
    buffer_size_for, check_source, copy_step, plan_entry, ArchiveError, CopyStep, EntryAction,
    ReadOutcome, LARGE_FILE_BUF_SIZE, MEDIUM_FILE_BUF_SIZE, SMALL_FILE_BUF_SIZE,
    TINY_FILE_BUF_SIZE,
};

const KIB: u64 = 1024;
const MIB: u64 = 1024 * 1024;

#[test]
fn buffer_tiers() {
    assert_eq!(buffer_size_for(0), 8 * 1024);
    assert_eq!(buffer_size_for(100 * KIB), TINY_FILE_BUF_SIZE);
    assert_eq!(buffer_size_for(100 * KIB + 1), SMALL_FILE_BUF_SIZE);
    assert_eq!(buffer_size_for(MIB), 16 * 1024);
    assert_eq!(buffer_size_for(MIB + 1), MEDIUM_FILE_BUF_SIZE);
    assert_eq!(buffer_size_for(40 * MIB), 256 * 1024);
    assert_eq!(buffer_size_for(40 * MIB + 1), LARGE_FILE_BUF_SIZE);
    assert_eq!(buffer_size_for(u64::MAX), 2 * 1024 * 1024);
}

#[test]
fn buffer_tiers_for_archive_example_sizes() {
    assert_eq!(buffer_size_for(50 * KIB), 8 * 1024);
    assert_eq!(buffer_size_for(500 * KIB), 16 * 1024);
    assert_eq!(buffer_size_for(10 * MIB), 256 * 1024);
    assert_eq!(buffer_size_for(100 * MIB), 2 * 1024 * 1024);
}

#[test]
fn entries_of_the_walk() {
    match plan_entry("dir/a.txt".to_string(), true, 500 * KIB) {
        EntryAction::AddFile { name, buffer_size } => {
            assert_eq!(name, "dir/a.txt");
            assert_eq!(buffer_size, 16 * 1024);
        }
        _ => panic!("expected a file entry"),
    }
    match plan_entry("empty".to_string(), false, 0) {
        EntryAction::AddDirectory { name } => assert_eq!(name, "empty"),
        _ => panic!("expected a directory entry"),
    }
    assert!(matches!(plan_entry(String::new(), false, 4096), EntryAction::Skip));
}

#[test]
fn read_outcomes() {
    assert_eq!(copy_step(ReadOutcome::Read(0)), CopyStep::Finish);
    assert_eq!(copy_step(ReadOutcome::Read(17)), CopyStep::Write(17));
    assert_eq!(copy_step(ReadOutcome::Interrupted), CopyStep::Retry);
    assert_eq!(copy_step(ReadOutcome::Failed), CopyStep::Abort);
}

#[test]
fn copy_loop_writes_exactly_the_file() {
    let file: Vec<u8> = (0..1000u32).map(|i| (i % 251) as u8).collect();
    for buffer in [1usize, 7, 64, 1000, 4096] {
        let mut pos = 0;
        let mut out = Vec::new();
        let mut interrupted = false;
        loop {
            let outcome = if !interrupted && pos % 3 == 0 && pos < file.len() {
                interrupted = true;
                ReadOutcome::Interrupted
            } else {
                interrupted = false;
                let n = buffer.min(file.len() - pos);
                ReadOutcome::Read(n)
            };
            match copy_step(outcome) {
                CopyStep::Write(n) => {
                    out.extend_from_slice(&file[pos..pos + n]);
                    pos += n;
                }
                CopyStep::Retry => {}
                CopyStep::Finish => break,
                CopyStep::Abort => panic!("aborted"),
            }
        }
        assert_eq!(out, file, "buffer {}", buffer);
    }
}

#[test]
fn source_must_be_a_directory() {
    assert_eq!(check_source(true), Ok(()));
    assert_eq!(check_source(false), Err(ArchiveError::NotADirectory));
}
