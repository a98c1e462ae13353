//! Linux x86-64 system call numbers and special descriptor values.
use vstd::prelude::*;

verus! {

/// Special `dirfd` value that resolves relative paths against the current
/// working directory (see `openat(2)`).
pub const AT_FDCWD: i32 = -100;

/// x86-64 Linux system call number for `read(2)`.
pub const SYS_READ: usize = 0;

/// x86-64 Linux system call number for `write(2)`.
pub const SYS_WRITE: usize = 1;

/// x86-64 Linux system call number for `close(2)`.
pub const SYS_CLOSE: usize = 3;

/// x86-64 Linux system call number for `fstat(2)`.
pub const SYS_FSTAT: usize = 5;

/// x86-64 Linux system call number for `writev(2)`.
pub const SYS_WRITEV: usize = 20;

/// x86-64 Linux system call number for `exit(2)`.
pub const SYS_EXIT: usize = 60;

/// x86-64 Linux system call number for `exit_group(2)`.
pub const SYS_EXIT_GROUP: usize = 231;

/// x86-64 Linux system call number for `openat(2)`.
pub const SYS_OPENAT: usize = 257;

} // verus!
