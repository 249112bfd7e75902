//! Caller-facing intent types: which operation to perform, on which file,
//! with which locking strategy and scope.

use vstd::prelude::*;

verus! {

/// The scope of a file lock.
#[derive(Clone, Copy, Debug, PartialEq, Eq, Structural)]
pub enum LockScope {
    /// Lock the whole file: the locked range tracks the file as it grows or
    /// shrinks.
    WholeFile,
    /// Lock the whole byte range the file occupies right now.
    ///
    /// The range is captured once at lock time: if the file's size is later
    /// increased, the lock does not cover the new bytes.
    WholeByteRange,
}

impl Default for LockScope {
    /// The default scope is the whole file.
    fn default() -> (r: Self)
        ensures
            r is WholeFile,
    {
        LockScope::WholeFile
    }
}

impl LockScope {
    /// The name under which this scope is selected on a command line.
    pub fn display_name(&self) -> (r: &'static str)
        ensures
            self is WholeFile ==> r@ == "whole-file"@,
            self is WholeByteRange ==> r@ == "whole-byte-range"@,
    {
        match self {
            LockScope::WholeFile => "whole-file",
            LockScope::WholeByteRange => "whole-byte-range",
        }
    }
}

/// A requested lock operation: which file, whether legacy process-wide
/// record locks were explicitly requested instead of open-file-description
/// locks, and the scope of the lock.
#[derive(Debug)]
pub enum Command {
    /// Acquire a write (exclusive) lock on the given file.
    WriteLock { file: String, dont_use_ofd: bool, scope: LockScope },
    /// Acquire a read (shared) lock on the given file.
    ReadLock { file: String, dont_use_ofd: bool, scope: LockScope },
    /// Test if there is currently a lock on the given file.
    TestLock { file: String, dont_use_ofd: bool, scope: LockScope },
}

impl Command {
    /// Whether the caller explicitly asked for legacy record locks.
    pub open spec fn spec_dont_use_ofd(&self) -> bool {
        match self {
            Command::WriteLock { dont_use_ofd, .. } => *dont_use_ofd,
            Command::ReadLock { dont_use_ofd, .. } => *dont_use_ofd,
            Command::TestLock { dont_use_ofd, .. } => *dont_use_ofd,
        }
    }

    /// The scope the caller selected.
    pub open spec fn spec_scope(&self) -> LockScope {
        match self {
            Command::WriteLock { scope, .. } => *scope,
            Command::ReadLock { scope, .. } => *scope,
            Command::TestLock { scope, .. } => *scope,
        }
    }

    /// The scope the caller selected.
    pub fn scope(&self) -> (r: LockScope)
        ensures
            r == self.spec_scope(),
    {
        match self {
            Command::WriteLock { scope, .. } => *scope,
            Command::ReadLock { scope, .. } => *scope,
            Command::TestLock { scope, .. } => *scope,
        }
    }
}

/// The whole caller-supplied intent.
#[derive(Debug)]
pub struct Cli {
    /// The requested lock operation.
    pub command: Command,
}

} // verus!
