//! The lock-operation core: resolving a lock intent into the control-block
//! parameters and command family of the `fcntl` interface, issuing the
//! non-blocking call, and decoding the outcome.

use vstd::prelude::*;
use crate::cli::LockScope;

verus! {

/// The kind of lock to acquire.
#[derive(Clone, Copy, Debug, PartialEq, Eq, Structural)]
pub enum LockType {
    /// An exclusive lock.
    Write,
    /// A shared lock.
    Read,
}

impl LockType {
    /// The control-block code for this lock kind: `F_WRLCK` and `F_RDLCK`
    /// of the Linux-family C library.
    pub open spec fn spec_libc_val(self) -> i32 {
        match self {
            LockType::Write => 1,
            LockType::Read => 0,
        }
    }

    /// The control-block code for this lock kind: `F_WRLCK` and `F_RDLCK`
    /// of the Linux-family C library.
    pub fn to_libc_val(self) -> (r: i32)
        ensures
            r == self.spec_libc_val(),
    {
        match self {
            LockType::Write => 1,
            LockType::Read => 0,
        }
    }
}

/// The lock state observed by a query.
#[derive(Clone, Copy, Debug, PartialEq, Eq, Structural)]
pub enum LockState {
    /// An exclusive write lock is held.
    ExclusiveWrite,
    /// A shared read lock is held.
    SharedRead,
    /// No conflicting lock is held.
    Unlocked,
}

/// The error returned when a conflicting lock is already held by another
/// locking domain. This is an expected, recoverable outcome.
#[derive(Clone, Copy, Debug, PartialEq, Eq, Structural)]
pub struct FileAlreadyLockedError;

impl FileAlreadyLockedError {
    /// A human-readable description of this error.
    pub fn message(&self) -> (r: &'static str)
        ensures
            r@ == "The file is already locked"@,
    {
        "The file is already locked"
    }
}

/// Everything that can go wrong while acquiring or querying a lock.
#[derive(Clone, Copy, Debug, PartialEq, Eq, Structural)]
pub enum LockError {
    /// A conflicting lock is held by someone else.
    AlreadyLocked(FileAlreadyLockedError),
    /// The file's size could not be determined while computing a
    /// byte-range scope, so no lock call was attempted.
    MetadataError,
    /// Any other OS-level failure, carrying the raw error code verbatim.
    Unexpected(i32),
    /// A query returned a lock-type code outside the three defined states.
    ProtocolViolation,
}

/// `EAGAIN` of the Linux-family C library: one of the two error codes that
/// mean a conflicting lock is held.
pub const EAGAIN_CODE: i32 = 11;

/// `EACCES` of the Linux-family C library: one of the two error codes that
/// mean a conflicting lock is held.
pub const EACCES_CODE: i32 = 13;

impl LockState {
    /// The control-block code the kernel uses for this state: `F_WRLCK`,
    /// `F_RDLCK` and `F_UNLCK` of the Linux-family C library.
    pub open spec fn spec_libc_val(self) -> i32 {
        match self {
            LockState::ExclusiveWrite => 1,
            LockState::SharedRead => 0,
            LockState::Unlocked => 2,
        }
    }

    /// Decodes the lock-type code a query wrote back into its control block.
    ///
    /// The OS contract guarantees only the three defined codes; any other
    /// value is surfaced as [`LockError::ProtocolViolation`] rather than
    /// silently coerced.
    pub fn try_from_code(value: i32) -> (r: Result<LockState, LockError>)
        ensures
            r == LockState::spec_from_code(value),
            r matches Ok(s) ==> s.spec_libc_val() == value,
    {
        if value == 0 {
            Ok(LockState::SharedRead)
        } else if value == 1 {
            Ok(LockState::ExclusiveWrite)
        } else if value == 2 {
            Ok(LockState::Unlocked)
        } else {
            Err(LockError::ProtocolViolation)
        }
    }

    /// What [`LockState::try_from_code`] returns for each code.
    pub open spec fn spec_from_code(value: i32) -> Result<LockState, LockError> {
        if value == 0 {
            Ok(LockState::SharedRead)
        } else if value == 1 {
            Ok(LockState::ExclusiveWrite)
        } else if value == 2 {
            Ok(LockState::Unlocked)
        } else {
            Err(LockError::ProtocolViolation)
        }
    }

    /// A human-readable description of this state.
    pub fn message(&self) -> (r: &'static str)
        ensures
            self is ExclusiveWrite ==> r@ == "Exclusive Write Lock"@,
            self is SharedRead ==> r@ == "Shared Read Lock"@,
            self is Unlocked ==> r@ == "Unlocked"@,
    {
        match self {
            LockState::ExclusiveWrite => "Exclusive Write Lock",
            LockState::SharedRead => "Shared Read Lock",
            LockState::Unlocked => "Unlocked",
        }
    }
}

/// The locking strategy: which command family every call on a handle uses.
#[derive(Clone, Copy, Debug, PartialEq, Eq, Structural)]
pub enum LockOperation {
    /// Traditional POSIX record locks, owned by the whole process.
    Traditional,
    /// Open File Description (OFD) locks, owned by the open file
    /// description; available on Linux-family kernels since 3.15.
    OpenFileDescription,
}

/// Whether OFD locks are available. This build targets Linux-family
/// kernels, where they are; a build for a platform without them would
/// return false here and every intent would fall back to legacy locks.
pub open spec fn spec_ofd_locks_available() -> bool {
    true
}

/// Whether OFD locks are available on the target platform.
pub fn ofd_locks_available() -> (r: bool)
    ensures
        r == spec_ofd_locks_available(),
{
    true
}

/// Resolves the strategy for one invocation: legacy record locks if the
/// caller explicitly requested them or if OFD locks are unavailable on the
/// target platform, OFD locks otherwise. Pure and total: never fails.
pub fn resolve_strategy(requested_legacy: bool) -> (r: LockOperation)
    ensures
        r is Traditional <==> (requested_legacy || !spec_ofd_locks_available()),
{
    if requested_legacy || !ofd_locks_available() {
        LockOperation::Traditional
    } else {
        LockOperation::OpenFileDescription
    }
}

impl LockOperation {
    /// Derives the strategy from a caller-supplied command: legacy record
    /// locks exactly when the command asked for them (and OFD locks are
    /// available on the target platform).
    pub fn from_command(cmd: &crate::cli::Command) -> (r: LockOperation)
        ensures
            r is Traditional <==> (cmd.spec_dont_use_ofd() || !spec_ofd_locks_available()),
    {
        match cmd {
            crate::cli::Command::WriteLock { dont_use_ofd, .. } => resolve_strategy(*dont_use_ofd),
            crate::cli::Command::ReadLock { dont_use_ofd, .. } => resolve_strategy(*dont_use_ofd),
            crate::cli::Command::TestLock { dont_use_ofd, .. } => resolve_strategy(*dont_use_ofd),
        }
    }
}

/// The byte range a lock covers, as passed to the control interface:
/// a start offset (always 0 when resolved from a [`LockScope`]) and a
/// length, where length 0 means "to the end of the file, tracking growth".
#[derive(Clone, Copy, Debug, PartialEq, Eq, Structural)]
pub struct LockRangeDescriptor {
    /// First byte of the range, counted from the start of the file.
    pub start: i64,
    /// Number of bytes in the range; 0 means up to the end of the file,
    /// however far that moves.
    pub len: i64,
}

impl LockRangeDescriptor {
    /// A range is well-formed when it lies in the non-negative byte space;
    /// a negative length has a different, unused meaning in the control
    /// interface.
    pub open spec fn wf(self) -> bool {
        self.start >= 0 && self.len >= 0
    }
}

/// The range a whole-file lock covers: length 0, meaning "to the end of
/// the file", so the range tracks the file as it grows or shrinks. Needs
/// nothing from the file itself.
pub open spec fn spec_whole_file_range() -> LockRangeDescriptor {
    LockRangeDescriptor { start: 0, len: 0 }
}

/// Builds the range a whole-file lock covers, from nothing: no file is
/// consulted.
pub fn whole_file_range() -> (r: LockRangeDescriptor)
    ensures
        r == spec_whole_file_range(),
        r.len == 0,
        r.wf(),
{
    LockRangeDescriptor { start: 0, len: 0 }
}

/// What [`range_from_size`] returns for each reported size.
pub open spec fn spec_range_from_size(size: Result<i64, i32>) -> Result<
    LockRangeDescriptor,
    LockError,
> {
    match size {
        Ok(n) => if n >= 0 {
            Ok(LockRangeDescriptor { start: 0, len: n })
        } else {
            Err(LockError::MetadataError)
        },
        Err(_) => Err(LockError::MetadataError),
    }
}

/// Builds the byte-range descriptor for a whole-byte-range lock from the
/// outcome of a file-size query: the captured size becomes the range's
/// length, and a failed or nonsensical (negative) size report becomes
/// [`LockError::MetadataError`] so that no lock call is attempted without
/// a valid range.
pub fn range_from_size(size: Result<i64, i32>) -> (r: Result<LockRangeDescriptor, LockError>)
    ensures
        r == spec_range_from_size(size),
        r matches Ok(d) ==> d.wf() && d.start == 0,
        size matches Ok(n) ==> (n >= 0 ==> r == Ok::<_, LockError>(
            LockRangeDescriptor { start: 0, len: n },
        )),
        r is Err ==> r == Err::<LockRangeDescriptor, _>(LockError::MetadataError),
{
    match size {
        Ok(n) => if n >= 0 {
            Ok(LockRangeDescriptor { start: 0, len: n })
        } else {
            Err(LockError::MetadataError)
        },
        Err(_) => Err(LockError::MetadataError),
    }
}

/// What [`interpret_set_lock_result`] returns for each raw outcome.
pub open spec fn spec_interpret_set_lock_result(raw: Result<i32, i32>) -> Result<(), LockError> {
    match raw {
        Ok(_) => Ok(()),
        Err(e) => if e == EAGAIN_CODE || e == EACCES_CODE {
            Err(LockError::AlreadyLocked(FileAlreadyLockedError))
        } else {
            Err(LockError::Unexpected(e))
        },
    }
}

/// Interprets the raw outcome of a non-blocking set-lock call: success
/// means the lock is held; the two conflict codes (`EAGAIN`, `EACCES`)
/// mean someone else holds a conflicting lock, an expected outcome; any
/// other error code is surfaced verbatim as unexpected.
pub fn interpret_set_lock_result(raw: Result<i32, i32>) -> (r: Result<(), LockError>)
    ensures
        r == spec_interpret_set_lock_result(raw),
        r is Err ==> raw is Err,
        raw matches Err(e) ==> r == Err::<(), _>(
            if e == EAGAIN_CODE || e == EACCES_CODE {
                LockError::AlreadyLocked(FileAlreadyLockedError)
            } else {
                LockError::Unexpected(e)
            },
        ),
{
    match raw {
        Ok(_) => Ok(()),
        Err(e) => if e == EAGAIN_CODE || e == EACCES_CODE {
            Err(LockError::AlreadyLocked(FileAlreadyLockedError))
        } else {
            Err(LockError::Unexpected(e))
        },
    }
}

/// What [`interpret_get_lock_result`] returns for each raw outcome.
pub open spec fn spec_interpret_get_lock_result(raw: Result<(i32, i32), i32>) -> Result<
    LockState,
    LockError,
> {
    match raw {
        Ok((ret, l_type)) => if ret != 0 {
            Err(LockError::Unexpected(ret))
        } else {
            LockState::spec_from_code(l_type)
        },
        Err(e) => Err(LockError::Unexpected(e)),
    }
}

/// Interprets the raw outcome of a non-blocking get-lock call. The raw
/// success value carries the call's return code and the lock-type code the
/// kernel wrote back into the control block; a non-zero return code or a
/// failed call is an unexpected OS failure, and otherwise the written-back
/// code is decoded into the observed state.
pub fn interpret_get_lock_result(raw: Result<(i32, i32), i32>) -> (r: Result<
    LockState,
    LockError,
>)
    ensures
        r == spec_interpret_get_lock_result(raw),
        r matches Err(e) ==> !(e is AlreadyLocked) && !(e is MetadataError),
        raw matches Ok(v) ==> (v.0 == 0 ==> r == LockState::spec_from_code(v.1)),
{
    match raw {
        Ok((ret, l_type)) => if ret != 0 {
            Err(LockError::Unexpected(ret))
        } else {
            LockState::try_from_code(l_type)
        },
        Err(e) => Err(LockError::Unexpected(e)),
    }
}

/// `SEEK_SET` of the Linux-family C library: byte offsets in a lock's
/// control block are counted from the start of the file.
pub const SEEK_SET_CODE: i32 = 0;

/// Relies on `nix::sys::stat::fstat`: returns the file's stat record, whose
/// `st_size` field is the file's size in bytes; a failure carries the raw
/// error number. What the call reports depends on what is on disk, so
/// nothing is promised of the value.
#[verifier::external_body]
fn fstat_size(fd: i32) -> (r: Result<i64, i32>) {
    match nix::sys::stat::fstat(fd) {
        Ok(st) => Ok(st.st_size),
        Err(e) => Err(e as i32),
    }
}

/// Relies on `nix::fcntl::fcntl` with `FcntlArg::F_SETLK`: issues the
/// traditional non-blocking set-lock command with the given control-block
/// fields. Ok carries the call's raw return value, Err the raw error
/// number. Whether the lock is granted depends on the kernel's lock table,
/// so nothing is promised of the outcome.
#[verifier::external_body]
fn fcntl_set_lock(fd: i32, l_type: i32, l_whence: i32, l_start: i64, l_len: i64) -> (r: Result<
    i32,
    i32,
>) {
    let flock = nix::libc::flock {
        l_type: l_type as nix::libc::c_short,
        l_whence: l_whence as nix::libc::c_short,
        l_start,
        l_len,
        l_pid: 0,
    };
    match nix::fcntl::fcntl(fd, nix::fcntl::FcntlArg::F_SETLK(&flock)) {
        Ok(v) => Ok(v),
        Err(e) => Err(e as i32),
    }
}

/// Relies on `nix::fcntl::fcntl` with `FcntlArg::F_OFD_SETLK`: issues the
/// open-file-description non-blocking set-lock command with the given
/// control-block fields. Ok carries the call's raw return value, Err the
/// raw error number. Whether the lock is granted depends on the kernel's
/// lock table, so nothing is promised of the outcome.
#[verifier::external_body]
fn fcntl_ofd_set_lock(fd: i32, l_type: i32, l_whence: i32, l_start: i64, l_len: i64) -> (r: Result<
    i32,
    i32,
>) {
    let flock = nix::libc::flock {
        l_type: l_type as nix::libc::c_short,
        l_whence: l_whence as nix::libc::c_short,
        l_start,
        l_len,
        l_pid: 0,
    };
    match nix::fcntl::fcntl(fd, nix::fcntl::FcntlArg::F_OFD_SETLK(&flock)) {
        Ok(v) => Ok(v),
        Err(e) => Err(e as i32),
    }
}

/// Relies on `nix::fcntl::fcntl` with `FcntlArg::F_GETLK`: issues the
/// traditional get-lock command with the given control-block fields. Ok
/// carries the call's raw return value and the lock-type code the kernel
/// wrote back into the control block; Err carries the raw error number.
/// What the kernel writes back depends on its lock table, so nothing is
/// promised of the values.
#[verifier::external_body]
fn fcntl_get_lock(fd: i32, l_type: i32, l_whence: i32, l_start: i64, l_len: i64) -> (r: Result<
    (i32, i32),
    i32,
>) {
    let mut flock = nix::libc::flock {
        l_type: l_type as nix::libc::c_short,
        l_whence: l_whence as nix::libc::c_short,
        l_start,
        l_len,
        l_pid: 0,
    };
    match nix::fcntl::fcntl(fd, nix::fcntl::FcntlArg::F_GETLK(&mut flock)) {
        Ok(v) => Ok((v, flock.l_type as i32)),
        Err(e) => Err(e as i32),
    }
}

/// Relies on `nix::fcntl::fcntl` with `FcntlArg::F_OFD_GETLK`: issues the
/// open-file-description get-lock command with the given control-block
/// fields. Ok carries the call's raw return value and the lock-type code
/// the kernel wrote back into the control block; Err carries the raw error
/// number. What the kernel writes back depends on its lock table, so
/// nothing is promised of the values.
#[verifier::external_body]
fn fcntl_ofd_get_lock(fd: i32, l_type: i32, l_whence: i32, l_start: i64, l_len: i64) -> (r: Result<
    (i32, i32),
    i32,
>) {
    let mut flock = nix::libc::flock {
        l_type: l_type as nix::libc::c_short,
        l_whence: l_whence as nix::libc::c_short,
        l_start,
        l_len,
        l_pid: 0,
    };
    match nix::fcntl::fcntl(fd, nix::fcntl::FcntlArg::F_OFD_GETLK(&mut flock)) {
        Ok(v) => Ok((v, flock.l_type as i32)),
        Err(e) => Err(e as i32),
    }
}

/// Resolves a scope into the byte range to lock. A whole-file scope needs
/// nothing from the file and always yields the length-0 "to end of file"
/// range; a whole-byte-range scope captures the file's current size, once,
/// and fails with [`LockError::MetadataError`] if the size cannot be
/// determined, before any lock call is attempted.
pub fn compute_range(scope: &LockScope, fd: i32) -> (r: Result<LockRangeDescriptor, LockError>)
    ensures
        scope is WholeFile ==> r == Ok::<_, LockError>(spec_whole_file_range()),
        r matches Ok(d) ==> d.wf() && d.start == 0,
        r is Err ==> scope is WholeByteRange && r == Err::<LockRangeDescriptor, _>(
            LockError::MetadataError,
        ),
{
    match scope {
        LockScope::WholeFile => Ok(whole_file_range()),
        LockScope::WholeByteRange => range_from_size(fstat_size(fd)),
    }
}

/// Tries to acquire a lock of the given type over the given byte range,
/// with the non-blocking set-lock command of the strategy's command family:
/// the call either acquires the lock immediately or reports the outcome,
/// never waits. The outcome is interpreted as [`interpret_set_lock_result`]
/// says, so a failure is either a conflicting lock held elsewhere or an
/// unexpected OS failure, surfaced verbatim.
///
/// These are advisory locks: they do not prevent non-cooperating processes
/// from opening, reading or writing the file.
pub fn try_acquire(
    fd: i32,
    lock_type: LockType,
    operation: LockOperation,
    range: &LockRangeDescriptor,
) -> (r: Result<(), LockError>)
    requires
        range.wf(),
    ensures
        r matches Err(e) ==> (e is AlreadyLocked || e is Unexpected),
{
    let l_type = lock_type.to_libc_val();
    let raw = match operation {
        LockOperation::Traditional => fcntl_set_lock(
            fd,
            l_type,
            SEEK_SET_CODE,
            range.start,
            range.len,
        ),
        LockOperation::OpenFileDescription => fcntl_ofd_set_lock(
            fd,
            l_type,
            SEEK_SET_CODE,
            range.start,
            range.len,
        ),
    };
    interpret_set_lock_result(raw)
}

/// Queries the lock state of the given byte range with the get-lock command
/// of the strategy's command family, probing with an exclusive-lock
/// request: the kernel writes back the unlocked code if the probe would
/// succeed, or the type of a conflicting lock otherwise. The written-back
/// code is decoded as [`interpret_get_lock_result`] says. The query is a
/// pure observation: it never changes the kernel's lock table.
pub fn query_state(fd: i32, operation: LockOperation, range: &LockRangeDescriptor) -> (r: Result<
    LockState,
    LockError,
>)
    requires
        range.wf(),
    ensures
        r matches Err(e) ==> !(e is AlreadyLocked) && !(e is MetadataError),
{
    let l_type = LockType::Write.to_libc_val();
    let raw = match operation {
        LockOperation::Traditional => fcntl_get_lock(
            fd,
            l_type,
            SEEK_SET_CODE,
            range.start,
            range.len,
        ),
        LockOperation::OpenFileDescription => fcntl_ofd_get_lock(
            fd,
            l_type,
            SEEK_SET_CODE,
            range.start,
            range.len,
        ),
    };
    interpret_get_lock_result(raw)
}

/// Resolves the scope against the file and tries to acquire the lock in
/// one step. A whole-file scope never consults the file's metadata, so for
/// it the metadata error cannot occur; a query outcome is never reported,
/// so a protocol violation cannot occur either.
pub fn try_acquire_lock(
    fd: i32,
    lock_type: LockType,
    operation: LockOperation,
    scope: &LockScope,
) -> (r: Result<(), LockError>)
    ensures
        r matches Err(e) ==> (e is AlreadyLocked || e is Unexpected || e is MetadataError),
        scope is WholeFile ==> !(r == Err::<(), _>(LockError::MetadataError)),
{
    let range = match compute_range(scope, fd) {
        Ok(range) => range,
        Err(e) => {
            return Err(e);
        },
    };
    try_acquire(fd, lock_type, operation, &range)
}

/// Resolves the scope against the file and queries the lock state in one
/// step. A whole-file scope never consults the file's metadata, so for it
/// the metadata error cannot occur; and a query never reports a conflict,
/// only an observed state.
pub fn get_lock_state(fd: i32, operation: LockOperation, scope: &LockScope) -> (r: Result<
    LockState,
    LockError,
>)
    ensures
        r matches Err(e) ==> !(e is AlreadyLocked),
        scope is WholeFile ==> !(r == Err::<LockState, _>(LockError::MetadataError)),
{
    let range = match compute_range(scope, fd) {
        Ok(range) => range,
        Err(e) => {
            return Err(e);
        },
    };
    query_state(fd, operation, &range)
}

} // verus!
