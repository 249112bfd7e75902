//! Tests that run the lock operations against real files, using
//! open-file-description (OFD) locks for conflict scenarios: two separate
//! opens of the same file give two independent locking domains within one
//! process.

use fcntl_tool::cli::LockScope;
use fcntl_tool::fcntl::{
    compute_range, get_lock_state, query_state, try_acquire, try_acquire_lock,
    FileAlreadyLockedError, LockError, LockOperation, LockRangeDescriptor, LockState, LockType,
};
use nix::fcntl::OFlag;
use nix::sys::stat::Mode;

fn create_file(path: &str, len: i64) -> i32 {
    let fd = nix::fcntl::open(
        path,
        OFlag::O_CREAT | OFlag::O_RDWR | OFlag::O_TRUNC,
        Mode::from_bits_truncate(0o600),
    )
    .unwrap();
    if len > 0 {
        nix::unistd::ftruncate(fd, len).unwrap();
    }
    fd
}

fn open_rw(path: &str) -> i32 {
    nix::fcntl::open(path, OFlag::O_RDWR, Mode::empty()).unwrap()
}

const ALREADY: Result<(), LockError> =
    Err(LockError::AlreadyLocked(FileAlreadyLockedError));

#[test]
fn compute_range_whole_file_ignores_the_handle() {
    // An invalid handle: the whole-file range must still come out, because
    // no metadata is read for it.
    let r = compute_range(&LockScope::WholeFile, -1);
    assert_eq!(r, Ok(LockRangeDescriptor { start: 0, len: 0 }));
}

#[test]
fn compute_range_whole_byte_range_captures_the_length() {
    let fd = create_file("/tmp/fcntl_tool_range_len", 42);
    let r = compute_range(&LockScope::WholeByteRange, fd);
    assert_eq!(r, Ok(LockRangeDescriptor { start: 0, len: 42 }));
    nix::unistd::close(fd).unwrap();
}

#[test]
fn compute_range_whole_byte_range_fails_without_metadata() {
    let fd = create_file("/tmp/fcntl_tool_range_meta", 5);
    nix::unistd::close(fd).unwrap();
    // The handle is closed, so the size query fails.
    let r = compute_range(&LockScope::WholeByteRange, fd);
    assert_eq!(r, Err(LockError::MetadataError));
}

#[test]
fn exclusive_lock_on_available_region_succeeds_both_strategies() {
    let fd1 = create_file("/tmp/fcntl_tool_excl_ofd", 8);
    assert_eq!(
        try_acquire_lock(
            fd1,
            LockType::Write,
            LockOperation::OpenFileDescription,
            &LockScope::WholeFile,
        ),
        Ok(())
    );
    nix::unistd::close(fd1).unwrap();

    let fd2 = create_file("/tmp/fcntl_tool_excl_legacy", 8);
    assert_eq!(
        try_acquire_lock(
            fd2,
            LockType::Write,
            LockOperation::Traditional,
            &LockScope::WholeFile,
        ),
        Ok(())
    );
    nix::unistd::close(fd2).unwrap();
}

#[test]
fn second_exclusive_attempt_from_another_domain_conflicts() {
    let path = "/tmp/fcntl_tool_excl_conflict";
    let fd1 = create_file(path, 8);
    let fd2 = open_rw(path);
    let ofd = LockOperation::OpenFileDescription;
    assert_eq!(try_acquire_lock(fd1, LockType::Write, ofd, &LockScope::WholeFile), Ok(()));
    assert_eq!(try_acquire_lock(fd2, LockType::Write, ofd, &LockScope::WholeFile), ALREADY);
    // And the second domain observes the holder's exclusive lock.
    assert_eq!(get_lock_state(fd2, ofd, &LockScope::WholeFile), Ok(LockState::ExclusiveWrite));
    nix::unistd::close(fd1).unwrap();
    nix::unistd::close(fd2).unwrap();
}

#[test]
fn query_reports_unlocked_before_acquisition_and_after_release() {
    let path = "/tmp/fcntl_tool_query_lifecycle";
    let fd1 = create_file(path, 8);
    let fd2 = open_rw(path);
    let ofd = LockOperation::OpenFileDescription;
    assert_eq!(get_lock_state(fd2, ofd, &LockScope::WholeFile), Ok(LockState::Unlocked));
    assert_eq!(try_acquire_lock(fd1, LockType::Write, ofd, &LockScope::WholeFile), Ok(()));
    assert_eq!(get_lock_state(fd2, ofd, &LockScope::WholeFile), Ok(LockState::ExclusiveWrite));
    // Closing the owning description releases the lock.
    nix::unistd::close(fd1).unwrap();
    assert_eq!(get_lock_state(fd2, ofd, &LockScope::WholeFile), Ok(LockState::Unlocked));
    nix::unistd::close(fd2).unwrap();
}

#[test]
fn shared_locks_coexist_and_block_an_exclusive_one() {
    let path = "/tmp/fcntl_tool_shared";
    let fd1 = create_file(path, 8);
    let fd2 = open_rw(path);
    let fd3 = open_rw(path);
    let ofd = LockOperation::OpenFileDescription;
    assert_eq!(try_acquire_lock(fd1, LockType::Read, ofd, &LockScope::WholeFile), Ok(()));
    assert_eq!(try_acquire_lock(fd2, LockType::Read, ofd, &LockScope::WholeFile), Ok(()));
    assert_eq!(try_acquire_lock(fd3, LockType::Write, ofd, &LockScope::WholeFile), ALREADY);
    // The third domain observes the shared lock that blocked it.
    assert_eq!(get_lock_state(fd3, ofd, &LockScope::WholeFile), Ok(LockState::SharedRead));
    nix::unistd::close(fd1).unwrap();
    nix::unistd::close(fd2).unwrap();
    nix::unistd::close(fd3).unwrap();
}

#[test]
fn byte_range_lock_does_not_cover_bytes_appended_later() {
    let path = "/tmp/fcntl_tool_stale_range";
    let fd1 = create_file(path, 4);
    let fd2 = open_rw(path);
    let ofd = LockOperation::OpenFileDescription;
    // Lock the 4 bytes the file occupies right now.
    assert_eq!(
        try_acquire_lock(fd1, LockType::Write, ofd, &LockScope::WholeByteRange),
        Ok(())
    );
    // Grow the file: the captured range is not re-evaluated.
    nix::unistd::ftruncate(fd2, 8).unwrap();
    // The appended bytes are not protected: another domain can lock them.
    let appended = LockRangeDescriptor { start: 4, len: 4 };
    assert_eq!(try_acquire(fd2, LockType::Write, ofd, &appended), Ok(()));
    // The originally captured bytes are still protected.
    let original = LockRangeDescriptor { start: 0, len: 4 };
    assert_eq!(try_acquire(fd2, LockType::Write, ofd, &original), ALREADY);
    assert_eq!(query_state(fd2, ofd, &original), Ok(LockState::ExclusiveWrite));
    nix::unistd::close(fd1).unwrap();
    nix::unistd::close(fd2).unwrap();
}

#[test]
fn whole_file_lock_covers_bytes_appended_later() {
    let path = "/tmp/fcntl_tool_growing_range";
    let fd1 = create_file(path, 4);
    let fd2 = open_rw(path);
    let ofd = LockOperation::OpenFileDescription;
    assert_eq!(try_acquire_lock(fd1, LockType::Write, ofd, &LockScope::WholeFile), Ok(()));
    nix::unistd::ftruncate(fd2, 8).unwrap();
    // A whole-file lock tracks growth: the appended bytes are covered.
    let appended = LockRangeDescriptor { start: 4, len: 4 };
    assert_eq!(try_acquire(fd2, LockType::Write, ofd, &appended), ALREADY);
    nix::unistd::close(fd1).unwrap();
    nix::unistd::close(fd2).unwrap();
}

#[test]
fn query_from_the_holding_domain_reports_unlocked() {
    // A query probes whether the caller's own domain could place the lock,
    // and a domain's own locks never conflict with it: so the holder itself
    // observes "unlocked", and only other domains observe the held lock.
    let path = "/tmp/fcntl_tool_own_query";
    let fd1 = create_file(path, 8);
    let ofd = LockOperation::OpenFileDescription;
    assert_eq!(try_acquire_lock(fd1, LockType::Write, ofd, &LockScope::WholeFile), Ok(()));
    assert_eq!(get_lock_state(fd1, ofd, &LockScope::WholeFile), Ok(LockState::Unlocked));
    nix::unistd::close(fd1).unwrap();
}

#[test]
fn acquire_on_an_invalid_handle_is_unexpected() {
    // 9 is the "bad file descriptor" error number.
    assert_eq!(
        try_acquire_lock(
            -1,
            LockType::Write,
            LockOperation::Traditional,
            &LockScope::WholeFile,
        ),
        Err(LockError::Unexpected(9))
    );
}

#[test]
fn example_scenario_write_lock_then_conflict_then_query() {
    let path = "/tmp/fcntl_tool_scenario";
    let f = create_file(path, 16);
    let f2 = open_rw(path);
    let ofd = LockOperation::OpenFileDescription;
    assert_eq!(try_acquire_lock(f, LockType::Write, ofd, &LockScope::WholeFile), Ok(()));
    assert_eq!(try_acquire_lock(f2, LockType::Write, ofd, &LockScope::WholeFile), ALREADY);
    assert_eq!(get_lock_state(f2, ofd, &LockScope::WholeFile), Ok(LockState::ExclusiveWrite));
    nix::unistd::close(f).unwrap();
    nix::unistd::close(f2).unwrap();
}
