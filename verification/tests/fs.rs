use neko::errno::{Errno, EBADF, EINTR, ENOENT, EPERM};
use neko::fs::{count_result, openat_result, syscall_result, Metadata};

fn metadata(mode: u32) -> Metadata {
    Metadata {
        st_dev: 1,
        st_ino: 2,
        st_nlink: 1,
        st_mode: mode,
        st_uid: 0,
        st_gid: 0,
        st_rdev: 0,
        st_size: 0,
        st_blksize: 4096,
        st_blocks: 0,
        st_atime: 0,
        st_atime_nsec: 0,
        st_mtime: 0,
        st_mtime_nsec: 0,
        st_ctime: 0,
        st_ctime_nsec: 0,
    }
}

#[test]
fn regular_files_are_files() {
    assert!(metadata(0o100644).is_file());
    assert!(metadata(0o100000).is_file());
    assert!(metadata(0o104755).is_file());
}

#[test]
fn other_file_types_are_not_files() {
    assert!(!metadata(0o040755).is_file());
    assert!(!metadata(0o120777).is_file());
    assert!(!metadata(0o020620).is_file());
    assert!(!metadata(0o010644).is_file());
    assert!(!metadata(0o140777).is_file());
    assert!(!metadata(0o060660).is_file());
    assert!(!metadata(0o000644).is_file());
}

#[test]
fn negative_results_are_errors() {
    assert_eq!(openat_result(-2), Err(Errno(ENOENT)));
    assert_eq!(syscall_result(-4), Err(Errno(EINTR)));
    assert_eq!(count_result(-9), Err(Errno(EBADF)));
    assert_eq!(count_result(-4095), Err(Errno(4095)));
}

#[test]
fn error_numbers_keep_sixteen_bits() {
    assert_eq!(syscall_result(-65537), Err(Errno(EPERM)));
    assert_eq!(openat_result(i32::MIN), Err(Errno(0)));
    assert_eq!(count_result(isize::MIN), Err(Errno(0)));
}

#[test]
fn other_results_are_values() {
    assert_eq!(openat_result(0), Ok(0));
    assert_eq!(openat_result(3), Ok(3));
    assert_eq!(syscall_result(0), Ok(0));
    assert_eq!(count_result(4096), Ok(4096));
    assert_eq!(count_result(isize::MAX), Ok(isize::MAX as usize));
}
