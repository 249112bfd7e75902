//! A small abstraction over advisory file locking as exposed by the POSIX
//! `fcntl` control interface.
//!
//! The library lets a caller acquire an exclusive (write) or shared (read)
//! advisory lock on a file, or query whether a lock currently exists, using
//! either legacy whole-process record locks or per-open-file-description
//! (OFD) locks, over either the whole file or the byte range the file
//! occupies at lock time.
//!
//! Advisory locks do not prevent non-cooperating processes from opening,
//! reading or writing the file; they only coordinate processes that check
//! for them.

pub mod cli;
pub mod fcntl;
