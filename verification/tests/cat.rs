use neko::cat::{
    stream_to_stdout, terminate, terminate_after_stdout_failure, Action, Cat, Event, Step, Stream,
    StreamError, StreamStep, Termination,
};
use neko::errno::{Errno, EACCES, EBADF, EINTR, EIO, ENOENT, ENOSPC};
use neko::fs::Metadata;
use neko::x86_64::AT_FDCWD;

fn metadata(mode: u32, dev: u64, ino: u64) -> Metadata {
    Metadata {
        st_dev: dev,
        st_ino: ino,
        st_nlink: 1,
        st_mode: mode,
        st_uid: 0,
        st_gid: 0,
        st_rdev: 0,
        st_size: 0,
        st_blksize: 4096,
        st_blocks: 0,
        st_atime: 0,
        st_atime_nsec: 0,
        st_mtime: 0,
        st_mtime_nsec: 0,
        st_ctime: 0,
        st_ctime_nsec: 0,
    }
}

const REGULAR: u32 = 0o100644;
const TERMINAL: u32 = 0o020620;

fn open(index: usize) -> Action {
    Action::Open { index, dirfd: AT_FDCWD, flags: 0, mode: 0 }
}

fn operands(names: &[&str]) -> Vec<Vec<u8>> {
    names.iter().map(|n| n.as_bytes().to_vec()).collect()
}

fn line(text: &str) -> Option<Vec<u8>> {
    Some(text.as_bytes().to_vec())
}

fn expect(step: Step, report: Option<Vec<u8>>, action: Action) {
    assert_eq!(step.report, report);
    assert_eq!(step.action, action);
}

/// Finishes a run whose closes of standard output and error succeed.
fn close_cleanly(cat: &mut Cat, status: usize) {
    expect(cat.step(Event::Closed(Ok(0))), None, Action::Close(2));
    expect(cat.step(Event::Closed(Ok(0))), None, Action::Exit(status));
}

#[test]
fn termination_plans() {
    assert_eq!(terminate(0), Termination { status: 0, suppress_close_error: false });
    assert_eq!(terminate(1), Termination { status: 1, suppress_close_error: false });
    assert_eq!(
        terminate_after_stdout_failure(),
        Termination { status: 1, suppress_close_error: true }
    );
}

#[test]
fn stream_reads_writes_and_ends() {
    assert_eq!(
        stream_to_stdout(Stream::Reading, Ok(10)),
        (Stream::Writing { filled: 10, offset: 0 }, StreamStep::Write { start: 0, end: 10 })
    );
    assert_eq!(
        stream_to_stdout(Stream::Writing { filled: 10, offset: 0 }, Ok(4)),
        (Stream::Writing { filled: 10, offset: 4 }, StreamStep::Write { start: 4, end: 10 })
    );
    assert_eq!(
        stream_to_stdout(Stream::Writing { filled: 10, offset: 4 }, Ok(6)),
        (Stream::Reading, StreamStep::Read)
    );
    assert_eq!(
        stream_to_stdout(Stream::Reading, Ok(0)),
        (Stream::Reading, StreamStep::Finished(Ok(())))
    );
}

#[test]
fn stream_retries_and_fails() {
    assert_eq!(
        stream_to_stdout(Stream::Reading, Err(Errno(EINTR))),
        (Stream::Reading, StreamStep::Read)
    );
    assert_eq!(
        stream_to_stdout(Stream::Writing { filled: 3, offset: 1 }, Err(Errno(EINTR))),
        (Stream::Writing { filled: 3, offset: 1 }, StreamStep::Write { start: 1, end: 3 })
    );
    assert_eq!(
        stream_to_stdout(Stream::Reading, Err(Errno(EIO))),
        (Stream::Reading, StreamStep::Finished(Err(StreamError::Read(Errno(EIO)))))
    );
    assert_eq!(
        stream_to_stdout(Stream::Writing { filled: 3, offset: 1 }, Err(Errno(EIO))).1,
        StreamStep::Finished(Err(StreamError::Write(Errno(EIO))))
    );
    assert_eq!(
        stream_to_stdout(Stream::Writing { filled: 3, offset: 1 }, Ok(0)).1,
        StreamStep::Finished(Err(StreamError::Write(Errno(ENOSPC))))
    );
}

#[test]
fn standard_input_to_terminal() {
    let (mut cat, first) = Cat::new(Vec::new());
    expect(first, None, Action::Fstat(1));
    expect(cat.step(Event::Stat(Ok(metadata(TERMINAL, 5, 9)))), None, Action::Read(0));
    expect(cat.step(Event::Read(Ok(5))), None, Action::Write { start: 0, end: 5 });
    expect(cat.step(Event::Written(Ok(2))), None, Action::Write { start: 2, end: 5 });
    expect(cat.step(Event::Written(Ok(3))), None, Action::Read(0));
    expect(cat.step(Event::Read(Ok(0))), None, Action::Close(1));
    close_cleanly(&mut cat, 0);
}

#[test]
fn standard_input_checked_when_output_is_file() {
    let (mut cat, _) = Cat::new(Vec::new());
    expect(cat.step(Event::Stat(Ok(metadata(REGULAR, 5, 9)))), None, Action::Fstat(0));
    expect(cat.step(Event::Stat(Ok(metadata(REGULAR, 5, 10)))), None, Action::Read(0));
}

#[test]
fn standard_input_is_output_file() {
    let (mut cat, _) = Cat::new(Vec::new());
    expect(cat.step(Event::Stat(Ok(metadata(REGULAR, 5, 9)))), None, Action::Fstat(0));
    expect(
        cat.step(Event::Stat(Ok(metadata(REGULAR, 5, 9)))),
        line("neko: -: 入力ファイルが出力ファイルです\n"),
        Action::Close(1),
    );
    close_cleanly(&mut cat, 1);
}

#[test]
fn standard_input_stat_fails() {
    let (mut cat, _) = Cat::new(Vec::new());
    cat.step(Event::Stat(Ok(metadata(REGULAR, 5, 9))));
    expect(
        cat.step(Event::Stat(Err(Errno(EBADF)))),
        line("neko: -: 不正なファイル記述子です\n"),
        Action::Close(1),
    );
    close_cleanly(&mut cat, 1);
}

#[test]
fn standard_output_stat_fails() {
    let (mut cat, _) = Cat::new(operands(&["a"]));
    expect(
        cat.step(Event::Stat(Err(Errno(EBADF)))),
        line("neko: 標準出力: 不正なファイル記述子です\n"),
        Action::Close(1),
    );
    expect(cat.step(Event::Closed(Err(Errno(EBADF)))), None, Action::Close(2));
    expect(cat.step(Event::Closed(Ok(0))), None, Action::Exit(1));
}

#[test]
fn two_files_concatenated() {
    let (mut cat, _) = Cat::new(operands(&["a", "b"]));
    expect(cat.step(Event::Stat(Ok(metadata(TERMINAL, 5, 9)))), None, open(0));
    expect(cat.step(Event::Opened(Ok(3))), None, Action::Read(3));
    expect(cat.step(Event::Read(Ok(4))), None, Action::Write { start: 0, end: 4 });
    expect(cat.step(Event::Written(Ok(4))), None, Action::Read(3));
    expect(cat.step(Event::Read(Ok(0))), None, Action::Close(3));
    expect(cat.step(Event::Closed(Ok(0))), None, open(1));
    expect(cat.step(Event::Opened(Ok(3))), None, Action::Read(3));
    expect(cat.step(Event::Read(Ok(0))), None, Action::Close(3));
    expect(cat.step(Event::Closed(Ok(0))), None, Action::Close(1));
    close_cleanly(&mut cat, 0);
}

#[test]
fn missing_file_is_reported_and_fails() {
    let (mut cat, _) = Cat::new(operands(&["nofile", "b"]));
    expect(cat.step(Event::Stat(Ok(metadata(TERMINAL, 5, 9)))), None, open(0));
    expect(
        cat.step(Event::Opened(Err(Errno(ENOENT)))),
        line("neko: nofile: そのようなファイルやディレクトリはありません\n"),
        open(1),
    );
    expect(cat.step(Event::Opened(Ok(3))), None, Action::Read(3));
    expect(cat.step(Event::Read(Ok(0))), None, Action::Close(3));
    expect(cat.step(Event::Closed(Ok(0))), None, Action::Close(1));
    close_cleanly(&mut cat, 1);
}

#[test]
fn empty_operand_is_named_by_quotes() {
    let (mut cat, _) = Cat::new(operands(&[""]));
    cat.step(Event::Stat(Ok(metadata(TERMINAL, 5, 9))));
    expect(
        cat.step(Event::Opened(Err(Errno(ENOENT)))),
        line("neko: '': そのようなファイルやディレクトリはありません\n"),
        Action::Close(1),
    );
    close_cleanly(&mut cat, 1);
}

#[test]
fn interrupted_calls_are_repeated() {
    let (mut cat, _) = Cat::new(operands(&["a"]));
    expect(cat.step(Event::Stat(Err(Errno(EINTR)))), None, Action::Fstat(1));
    expect(cat.step(Event::Stat(Ok(metadata(REGULAR, 5, 9)))), None, open(0));
    expect(cat.step(Event::Opened(Err(Errno(EINTR)))), None, open(0));
    expect(cat.step(Event::Opened(Ok(3))), None, Action::Fstat(3));
    expect(cat.step(Event::Stat(Err(Errno(EINTR)))), None, Action::Fstat(3));
    expect(cat.step(Event::Stat(Ok(metadata(REGULAR, 5, 10)))), None, Action::Read(3));
    expect(cat.step(Event::Read(Err(Errno(EINTR)))), None, Action::Read(3));
    expect(cat.step(Event::Read(Ok(3))), None, Action::Write { start: 0, end: 3 });
    expect(cat.step(Event::Written(Err(Errno(EINTR)))), None, Action::Write { start: 0, end: 3 });
    expect(cat.step(Event::Written(Ok(3))), None, Action::Read(3));
}

#[test]
fn input_file_is_output_file() {
    let (mut cat, _) = Cat::new(operands(&["out.txt", "b"]));
    expect(cat.step(Event::Stat(Ok(metadata(REGULAR, 5, 9)))), None, open(0));
    expect(cat.step(Event::Opened(Ok(3))), None, Action::Fstat(3));
    expect(
        cat.step(Event::Stat(Ok(metadata(REGULAR, 5, 9)))),
        line("neko: out.txt: 入力ファイルが出力ファイルです\n"),
        Action::Close(3),
    );
    expect(cat.step(Event::Closed(Ok(0))), None, open(1));
}

#[test]
fn same_inode_on_other_device_is_copied() {
    let (mut cat, _) = Cat::new(operands(&["a"]));
    cat.step(Event::Stat(Ok(metadata(REGULAR, 5, 9))));
    cat.step(Event::Opened(Ok(3)));
    expect(cat.step(Event::Stat(Ok(metadata(REGULAR, 6, 9)))), None, Action::Read(3));
}

#[test]
fn input_stat_fails() {
    let (mut cat, _) = Cat::new(operands(&["a"]));
    cat.step(Event::Stat(Ok(metadata(REGULAR, 5, 9))));
    cat.step(Event::Opened(Ok(3)));
    expect(
        cat.step(Event::Stat(Err(Errno(EACCES)))),
        line("neko: a: 許可がありません\n"),
        Action::Close(3),
    );
    expect(
        cat.step(Event::Closed(Err(Errno(EIO)))),
        line("neko: a: 入力/出力エラーです\n"),
        Action::Close(1),
    );
    close_cleanly(&mut cat, 1);
}

#[test]
fn dash_operand_is_standard_input() {
    let (mut cat, _) = Cat::new(operands(&["-", "-"]));
    expect(cat.step(Event::Stat(Ok(metadata(TERMINAL, 5, 9)))), None, Action::Read(0));
    expect(cat.step(Event::Read(Ok(0))), None, Action::Read(0));
    expect(cat.step(Event::Read(Ok(0))), None, Action::Close(1));
    close_cleanly(&mut cat, 0);
}

#[test]
fn dash_operand_checked_when_output_is_file() {
    let (mut cat, _) = Cat::new(operands(&["-"]));
    expect(cat.step(Event::Stat(Ok(metadata(REGULAR, 5, 9)))), None, Action::Fstat(0));
    expect(
        cat.step(Event::Stat(Ok(metadata(REGULAR, 5, 9)))),
        line("neko: -: 入力ファイルが出力ファイルです\n"),
        Action::Close(1),
    );
    close_cleanly(&mut cat, 1);
}

#[test]
fn read_error_is_reported_and_input_closed() {
    let (mut cat, _) = Cat::new(operands(&["dir"]));
    cat.step(Event::Stat(Ok(metadata(TERMINAL, 5, 9))));
    cat.step(Event::Opened(Ok(3)));
    expect(
        cat.step(Event::Read(Err(Errno(21)))),
        line("neko: dir: ディレクトリです\n"),
        Action::Close(3),
    );
    expect(cat.step(Event::Closed(Ok(0))), None, Action::Close(1));
    close_cleanly(&mut cat, 1);
}

#[test]
fn write_error_ends_program() {
    let (mut cat, _) = Cat::new(operands(&["a", "b"]));
    cat.step(Event::Stat(Ok(metadata(TERMINAL, 5, 9))));
    cat.step(Event::Opened(Ok(3)));
    cat.step(Event::Read(Ok(8)));
    expect(
        cat.step(Event::Written(Ok(0))),
        line("neko: 書き込みエラー: デバイスに空き領域がありません\n"),
        Action::Close(1),
    );
    expect(cat.step(Event::Closed(Err(Errno(EIO)))), None, Action::Close(2));
    expect(cat.step(Event::Closed(Ok(0))), None, Action::Exit(1));
}

#[test]
fn close_of_standard_output_fails() {
    let (mut cat, _) = Cat::new(Vec::new());
    cat.step(Event::Stat(Ok(metadata(TERMINAL, 5, 9))));
    cat.step(Event::Read(Ok(0)));
    expect(
        cat.step(Event::Closed(Err(Errno(EIO)))),
        line("neko: 標準出力を閉じています: 入力/出力エラーです\n"),
        Action::Close(2),
    );
    expect(cat.step(Event::Closed(Ok(0))), None, Action::Exit(1));
}

#[test]
fn close_of_standard_error_fails_silently() {
    let (mut cat, _) = Cat::new(Vec::new());
    cat.step(Event::Stat(Ok(metadata(TERMINAL, 5, 9))));
    cat.step(Event::Read(Ok(0)));
    cat.step(Event::Closed(Ok(0)));
    expect(cat.step(Event::Closed(Err(Errno(EIO)))), None, Action::Exit(1));
    expect(cat.step(Event::Closed(Ok(0))), None, Action::Exit(1));
}

#[test]
fn unanswered_event_changes_nothing() {
    let (mut cat, _) = Cat::new(operands(&["a"]));
    expect(cat.step(Event::Read(Ok(3))), None, Action::Fstat(1));
    cat.step(Event::Stat(Ok(metadata(TERMINAL, 5, 9))));
    expect(cat.step(Event::Closed(Err(Errno(EIO)))), None, open(0));
    assert_eq!(cat.pending_action(), open(0));
}

#[test]
fn operands_opened_read_only_from_working_directory() {
    let (mut cat, _) = Cat::new(operands(&["a"]));
    let step = cat.step(Event::Stat(Ok(metadata(TERMINAL, 5, 9))));
    assert_eq!(step.action, Action::Open { index: 0, dirfd: -100, flags: 0, mode: 0 });
}
