//! File metadata, and what the file system calls' raw results mean.
use vstd::prelude::*;

use crate::errno::Errno;

verus! {

/// Mask of the file type bits of `st_mode`.
pub const S_IFMT: u32 = 0o170000;

/// File type bits of a regular file.
pub const S_IFREG: u32 = 0o100000;

/// File metadata as the Linux `fstat(2)` system call returns it (the
/// x86-64 `stat` layout, without its padding).
pub struct Metadata {
    pub st_dev: u64,
    pub st_ino: u64,
    pub st_nlink: u64,
    pub st_mode: u32,
    pub st_uid: u32,
    pub st_gid: u32,
    pub st_rdev: u64,
    pub st_size: i64,
    pub st_blksize: i64,
    pub st_blocks: i64,
    pub st_atime: u64,
    pub st_atime_nsec: u64,
    pub st_mtime: u64,
    pub st_mtime_nsec: u64,
    pub st_ctime: u64,
    pub st_ctime_nsec: u64,
}

/// Whether the mode `mode` describes a regular file.
pub open spec fn is_regular_mode(mode: u32) -> bool {
    mode & S_IFMT == S_IFREG
}

impl Metadata {
    /// Whether this metadata describes a regular file.
    pub fn is_file(&self) -> (regular: bool)
        ensures
            regular == is_regular_mode(self.st_mode),
    {
        self.st_mode & S_IFMT == S_IFREG
    }
}

/// What a raw system call result means: a negative value `-e` is the
/// error number `e` (truncated to 16 bits), anything else is success.
pub open spec fn raw_result(raw: int) -> Result<int, Errno> {
    if raw < 0 {
        Err(Errno((-raw) as u16))
    } else {
        Ok(raw)
    }
}

/// Decodes the raw result of `openat(2)`: the new descriptor, or the error.
pub fn openat_result(raw: i32) -> (result: Result<i32, Errno>)
    ensures
        match raw_result(raw as int) {
            Ok(fd) => result == Ok::<i32, Errno>(fd as i32),
            Err(e) => result == Err::<i32, Errno>(e),
        },
{
    if raw < 0 {
        Err(Errno((-(raw as i64)) as u16))
    } else {
        Ok(raw)
    }
}

/// Decodes the raw result of `close(2)` or `fstat(2)`.
pub fn syscall_result(raw: isize) -> (result: Result<isize, Errno>)
    ensures
        match raw_result(raw as int) {
            Ok(v) => result == Ok::<isize, Errno>(v as isize),
            Err(e) => result == Err::<isize, Errno>(e),
        },
{
    if raw < 0 {
        Err(Errno((-(raw as i128)) as u16))
    } else {
        Ok(raw)
    }
}

/// Decodes the raw result of `read(2)`, `write(2)` or `writev(2)`: the
/// number of bytes transferred, or the error.
pub fn count_result(raw: isize) -> (result: Result<usize, Errno>)
    ensures
        match raw_result(raw as int) {
            Ok(v) => result == Ok::<usize, Errno>(v as usize),
            Err(e) => result == Err::<usize, Errno>(e),
        },
{
    if raw < 0 {
        Err(Errno((-(raw as i128)) as u16))
    } else {
        Ok(raw as usize)
    }
}

/// A mode is that of a regular file exactly when its file type field (bits
/// 12 to 15) holds 8.
pub proof fn lemma_regular_mode_type_field(mode: u32)
    ensures
        is_regular_mode(mode) <==> (mode >> 12u32) & 15u32 == 8u32,
{
    assert((mode & 0o170000u32 == 0o100000u32) <==> ((mode >> 12u32) & 15u32 == 8u32))
        by (bit_vector);
}

/// A raw result from -65535 to -1 is the error whose number is its
/// negation, and a result of zero or more is a success carrying that very
/// value.
pub proof fn lemma_raw_result_meaning(raw: int)
    ensures
        -65536 < raw < 0 ==> (raw_result(raw) matches Err(e) && e.0 as int + raw == 0),
        0 <= raw ==> raw_result(raw) == Ok::<int, Errno>(raw),
{
}

} // verus!
