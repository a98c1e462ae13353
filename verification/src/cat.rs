//! The decisions of the `neko` program: concatenating its operands (or
//! standard input) to standard output, refusing to copy the output file
//! into itself, reporting each failure on standard error, and ending with
//! an exit status that tells whether anything failed.
//!
//! The program is a state machine: [`Cat::new`] gives the first system
//! call to make, and [`Cat::step`] takes the outcome of each call and gives
//! the next one, together with the diagnostic line, if any, to write to
//! standard error first.
use vstd::prelude::*;
use vstd::utf8::encode_utf8;

use crate::errno::Errno;
use crate::error::{errno_detail, report_line, Error};
use crate::fs::{is_regular_mode, Metadata};
use crate::io::{after_write, write_all, WriteStep, STDERR_FILENO, STDIN_FILENO, STDOUT_FILENO};
use crate::retries::{interrupted, retry_on_eintr};
use crate::x86_64::AT_FDCWD;

verus! {

/// Why streaming a descriptor to standard output stopped early.
#[derive(PartialEq, Eq, Debug, Structural)]
pub enum StreamError {
    /// Reading the input failed with this error.
    Read(Errno),
    /// Writing to standard output failed with this error.
    Write(Errno),
}

/// Where the copy of one descriptor to standard output stands.
#[derive(Clone, Copy, PartialEq, Eq, Debug, Structural)]
pub enum Stream {
    /// A read into the buffer is pending.
    Reading,
    /// The first `filled` bytes of the buffer were read, and the bytes from
    /// `offset` to `filled` are still to be written.
    Writing { filled: usize, offset: usize },
}

/// What the copy does next.
#[derive(PartialEq, Eq, Debug)]
pub enum StreamStep {
    /// Read into the buffer.
    Read,
    /// Write the bytes of the buffer from `start` to `end` to standard
    /// output.
    Write { start: usize, end: usize },
    /// The copy is over.
    Finished(Result<(), StreamError>),
}

/// The next state and step of a copy in state `stream` once the pending
/// read or write had the outcome `outcome`.
///
/// A read is repeated after `EINTR`; a failed read ends the copy with
/// [`StreamError::Read`]; a read of zero bytes (end of input) ends it with
/// success; a read of `n` bytes starts writing them. The bytes are written
/// as [`write_all`] writes a buffer, after which the next read is made; a
/// failed write ends the copy with [`StreamError::Write`].
pub open spec fn stream_next(stream: Stream, outcome: Result<usize, Errno>) -> (Stream, StreamStep) {
    match stream {
        Stream::Reading => match outcome {
            Err(e) => if interrupted(outcome) {
                (Stream::Reading, StreamStep::Read)
            } else {
                (Stream::Reading, StreamStep::Finished(Err(StreamError::Read(e))))
            },
            Ok(n) => if n == 0 {
                (Stream::Reading, StreamStep::Finished(Ok(())))
            } else {
                (Stream::Writing { filled: n, offset: 0 }, StreamStep::Write { start: 0, end: n })
            },
        },
        Stream::Writing { filled, offset } => match after_write(
            filled as int,
            offset as int,
            outcome,
        ) {
            WriteStep::Write(position) => (
                Stream::Writing { filled, offset: position },
                StreamStep::Write { start: position, end: filled },
            ),
            WriteStep::Done(Ok(())) => (Stream::Reading, StreamStep::Read),
            WriteStep::Done(Err(e)) => (
                Stream::Reading,
                StreamStep::Finished(Err(StreamError::Write(e))),
            ),
        },
    }
}

/// Copies a descriptor to standard output through a buffer: given the
/// outcome of the pending read (in [`Stream::Reading`]) or write (in
/// [`Stream::Writing`]), decides the next state and step.
pub fn stream_to_stdout(stream: Stream, outcome: Result<usize, Errno>) -> (next: (
    Stream,
    StreamStep,
))
    ensures
        next == stream_next(stream, outcome),
{
    match stream {
        Stream::Reading => match retry_on_eintr(outcome) {
            None => (Stream::Reading, StreamStep::Read),
            Some(Err(errno)) => (Stream::Reading, StreamStep::Finished(Err(StreamError::Read(errno)))),
            Some(Ok(n)) => if n == 0 {
                (Stream::Reading, StreamStep::Finished(Ok(())))
            } else {
                (Stream::Writing { filled: n, offset: 0 }, StreamStep::Write { start: 0, end: n })
            },
        },
        Stream::Writing { filled, offset } => match write_all(filled, offset, outcome) {
            WriteStep::Write(position) => (
                Stream::Writing { filled, offset: position },
                StreamStep::Write { start: position, end: filled },
            ),
            WriteStep::Done(Ok(())) => (Stream::Reading, StreamStep::Read),
            WriteStep::Done(Err(errno)) => (
                Stream::Reading,
                StreamStep::Finished(Err(StreamError::Write(errno))),
            ),
        },
    }
}

/// How the program ends: with this exit status, unless closing standard
/// output or standard error fails, and whether a failure to close standard
/// output goes unreported (it does after standard output has already
/// failed).
#[derive(Clone, Copy, PartialEq, Eq, Debug, Structural)]
pub struct Termination {
    pub status: usize,
    pub suppress_close_error: bool,
}

/// Ends the program with exit status `status`, reporting a failure to
/// close standard output.
pub fn terminate(status: usize) -> (end: Termination)
    ensures
        end == (Termination { status, suppress_close_error: false }),
{
    Termination { status, suppress_close_error: false }
}

/// Ends the program with exit status 1 after standard output failed,
/// without reporting a failure to close it.
pub fn terminate_after_stdout_failure() -> (end: Termination)
    ensures
        end == (Termination { status: 1, suppress_close_error: true }),
{
    Termination { status: 1, suppress_close_error: true }
}

/// What the program remembers of standard output: its device and inode
/// numbers, and whether it is a regular file.
#[derive(Clone, Copy, PartialEq, Eq, Debug, Structural)]
pub struct Identity {
    pub dev: u64,
    pub ino: u64,
    pub is_file: bool,
}

/// The system call the program waits on.
#[derive(Clone, Copy, PartialEq, Eq, Debug, Structural)]
pub enum Phase {
    /// `fstat` of standard output.
    StatStdout,
    /// `fstat` of standard input, when there are no operands and standard
    /// output is a regular file.
    StatStdin,
    /// `openat` of the operand with this index.
    Open(usize),
    /// `fstat` of the descriptor `fd` of the operand `index`.
    StatInput { index: usize, fd: i32 },
    /// A read or write of the copy of `fd` to standard output; `input` is
    /// the operand, or `None` for standard input without operands.
    Streaming { input: Option<usize>, fd: i32, stream: Stream },
    /// `close` of the descriptor `fd` of the operand `index`.
    CloseInput { index: usize, fd: i32 },
    /// `close` of standard output, on the way to this end.
    CloseStdout(Termination),
    /// `close` of standard error, on the way to this exit status.
    CloseStderr(usize),
    /// The program has exited with this status.
    Exited(usize),
}

/// A system call for the caller to make.
#[derive(Clone, Copy, PartialEq, Eq, Debug, Structural)]
pub enum Action {
    /// `fstat` of this descriptor.
    Fstat(i32),
    /// `openat(dirfd, operand, flags, mode)` of the operand with index
    /// `index`.
    Open { index: usize, dirfd: i32, flags: i32, mode: u32 },
    /// `read` of this descriptor into the buffer.
    Read(i32),
    /// `write` to standard output of the buffer's bytes from `start` to
    /// `end`.
    Write { start: usize, end: usize },
    /// `close` of this descriptor.
    Close(i32),
    /// `exit_group` with this status.
    Exit(usize),
}

/// The outcome of a system call, for [`Cat::step`].
pub enum Event {
    /// The outcome of `fstat`.
    Stat(Result<Metadata, Errno>),
    /// The outcome of `openat`.
    Opened(Result<i32, Errno>),
    /// The outcome of `read`.
    Read(Result<usize, Errno>),
    /// The outcome of `write`.
    Written(Result<usize, Errno>),
    /// The outcome of `close`.
    Closed(Result<isize, Errno>),
}

/// What to do next: write `report`, if any, to standard error (whatever
/// comes of it), then carry out `action`.
pub struct Step {
    pub report: Option<Vec<u8>>,
    pub action: Action,
}

/// The program's state, as a mathematical value.
pub struct CatModel {
    /// The operands, as bytes.
    pub inputs: Seq<Seq<u8>>,
    pub phase: Phase,
    /// Whether an operand failed.
    pub had_error: bool,
    pub stdout: Identity,
}

/// The state of the `neko` program.
pub struct Cat {
    inputs: Vec<Vec<u8>>,
    phase: Phase,
    had_error: bool,
    stdout: Identity,
}

/// Whether the indices that `phase` holds are indices of `count` operands,
/// and a copy that is writing has bytes left to write.
pub open spec fn phase_fits(phase: Phase, count: nat) -> bool {
    match phase {
        Phase::Open(i) => i < count,
        Phase::StatInput { index, fd } => index < count,
        Phase::Streaming { input, fd, stream } => stream_valid(stream) && match input {
            Some(i) => i < count,
            None => true,
        },
        Phase::CloseInput { index, fd } => index < count,
        _ => true,
    }
}

impl View for Cat {
    type V = CatModel;

    closed spec fn view(&self) -> CatModel {
        CatModel {
            inputs: self.inputs@.map_values(|v: Vec<u8>| v@),
            phase: self.phase,
            had_error: self.had_error,
            stdout: self.stdout,
        }
    }
}

/// The bytes of the operand that names standard input.
pub open spec fn dash() -> Seq<u8> {
    encode_utf8("-"@)
}

/// The context in which a diagnostic names the operand `name`: the operand
/// itself, or `''` for the empty operand.
pub open spec fn input_context(name: Seq<u8>) -> Seq<u8> {
    if name.len() == 0 {
        encode_utf8("''"@)
    } else {
        name
    }
}

/// The context that names the input `input` of `m`: `-` for standard input
/// without operands, else the operand.
pub open spec fn source_context(m: CatModel, input: Option<usize>) -> Seq<u8> {
    match input {
        None => dash(),
        Some(i) => input_context(m.inputs[i as int]),
    }
}

/// What the program remembers of the metadata of standard output.
pub open spec fn identity_of(meta: Metadata) -> Identity {
    Identity { dev: meta.st_dev, ino: meta.st_ino, is_file: is_regular_mode(meta.st_mode) }
}

/// Whether copying the input with metadata `meta` to standard output would
/// copy a regular file into itself.
pub open spec fn same_file(meta: Metadata, stdout: Identity) -> bool {
    &&& stdout.is_file
    &&& is_regular_mode(meta.st_mode)
    &&& meta.st_dev == stdout.dev
    &&& meta.st_ino == stdout.ino
}

/// The exit status for the program's failures so far.
pub open spec fn status_of(had_error: bool) -> usize {
    if had_error {
        1
    } else {
        0
    }
}

/// The message given when an input is the output file.
pub open spec fn input_is_output() -> Seq<u8> {
    encode_utf8("入力ファイルが出力ファイルです"@)
}

/// The context of a failure of standard output's `fstat`.
pub open spec fn stdout_context() -> Seq<u8> {
    encode_utf8("標準出力"@)
}

/// The context of a failure to write to standard output.
pub open spec fn write_error_context() -> Seq<u8> {
    encode_utf8("書き込みエラー"@)
}

/// The context of a failure to close standard output.
pub open spec fn closing_stdout_context() -> Seq<u8> {
    encode_utf8("標準出力を閉じています"@)
}

/// `m` in phase `phase`.
pub open spec fn in_phase(m: CatModel, phase: Phase) -> CatModel {
    CatModel { phase, ..m }
}

/// `m` once an operand has failed.
pub open spec fn failed(m: CatModel) -> CatModel {
    CatModel { had_error: true, ..m }
}

/// Copying from `fd` for `input` begins, with a read.
pub open spec fn streaming(input: Option<usize>, fd: i32) -> Phase {
    Phase::Streaming { input, fd, stream: Stream::Reading }
}

/// The program's state once the operands before `index` are done: the
/// operand `index` is taken up (`-` is standard input, checked against the
/// output first when the output is a regular file; any other operand is
/// opened), or, when none is left, the program ends with the status of its
/// failures.
pub open spec fn next_input(m: CatModel, index: int) -> CatModel {
    if index < m.inputs.len() {
        if m.inputs[index] == dash() {
            if m.stdout.is_file {
                in_phase(m, Phase::StatInput { index: index as usize, fd: STDIN_FILENO })
            } else {
                in_phase(m, streaming(Some(index as usize), STDIN_FILENO))
            }
        } else {
            in_phase(m, Phase::Open(index as usize))
        }
    } else {
        in_phase(
            m,
            Phase::CloseStdout(Termination { status: status_of(m.had_error), suppress_close_error: false }),
        )
    }
}

/// The program's state once the operand `index`, read from `fd`, is done
/// with: its descriptor is closed, unless the operand is `-`.
pub open spec fn leave_input(m: CatModel, index: int, fd: i32) -> CatModel {
    if m.inputs[index] == dash() {
        next_input(m, index + 1)
    } else {
        in_phase(m, Phase::CloseInput { index: index as usize, fd })
    }
}

/// The program's state once the copy of `input` from `fd` is over.
pub open spec fn finish_input(m: CatModel, input: Option<usize>, fd: i32) -> CatModel {
    match input {
        None => in_phase(
            m,
            Phase::CloseStdout(Termination { status: status_of(m.had_error), suppress_close_error: false }),
        ),
        Some(i) => leave_input(m, i as int, fd),
    }
}

/// The program's state when it ends as `end` says.
pub open spec fn ending(m: CatModel, end: Termination) -> CatModel {
    in_phase(m, Phase::CloseStdout(end))
}

/// `openat(2)` flags that open for reading only, without creating anything.
pub const O_RDONLY: i32 = 0;

/// How the operand with index `index` is opened: relative to the current
/// working directory, for reading only, with no mode (nothing is created).
pub open spec fn open_action(index: usize) -> Action {
    Action::Open { index, dirfd: AT_FDCWD, flags: O_RDONLY, mode: 0 }
}

/// The system call that the state `m` waits on.
pub open spec fn pending(m: CatModel) -> Action {
    match m.phase {
        Phase::StatStdout => Action::Fstat(STDOUT_FILENO),
        Phase::StatStdin => Action::Fstat(STDIN_FILENO),
        Phase::Open(i) => open_action(i),
        Phase::StatInput { index, fd } => Action::Fstat(fd),
        Phase::Streaming { input, fd, stream } => match stream {
            Stream::Reading => Action::Read(fd),
            Stream::Writing { filled, offset } => Action::Write { start: offset, end: filled },
        },
        Phase::CloseInput { index, fd } => Action::Close(fd),
        Phase::CloseStdout(end) => Action::Close(STDOUT_FILENO),
        Phase::CloseStderr(status) => Action::Close(STDERR_FILENO),
        Phase::Exited(status) => Action::Exit(status),
    }
}

/// The next state of the program in state `m` once the pending call had
/// the outcome `event`, and the diagnostic written on the way.
///
/// An `EINTR` from `fstat`, `openat`, `read` or `write` repeats the call.
/// An event that does not answer the pending call changes nothing.
pub open spec fn transition(m: CatModel, event: Event) -> (CatModel, Option<Seq<u8>>) {
    match m.phase {
        Phase::StatStdout => match event {
            Event::Stat(outcome) => match outcome {
                Err(e) => if interrupted(outcome) {
                    (m, None)
                } else {
                    (
                        ending(m, Termination { status: 1, suppress_close_error: true }),
                        Some(report_line(stdout_context(), errno_detail(e))),
                    )
                },
                Ok(meta) => {
                    let known = CatModel { stdout: identity_of(meta), ..m };
                    if m.inputs.len() == 0 {
                        if is_regular_mode(meta.st_mode) {
                            (in_phase(known, Phase::StatStdin), None)
                        } else {
                            (in_phase(known, streaming(None, STDIN_FILENO)), None)
                        }
                    } else {
                        (next_input(known, 0), None)
                    }
                },
            },
            _ => (m, None),
        },
        Phase::StatStdin => match event {
            Event::Stat(outcome) => match outcome {
                Err(e) => if interrupted(outcome) {
                    (m, None)
                } else {
                    (
                        ending(m, Termination { status: 1, suppress_close_error: false }),
                        Some(report_line(dash(), errno_detail(e))),
                    )
                },
                Ok(meta) => if same_file(meta, m.stdout) {
                    (
                        ending(m, Termination { status: 1, suppress_close_error: false }),
                        Some(report_line(dash(), input_is_output())),
                    )
                } else {
                    (in_phase(m, streaming(None, STDIN_FILENO)), None)
                },
            },
            _ => (m, None),
        },
        Phase::Open(i) => match event {
            Event::Opened(outcome) => match outcome {
                Err(e) => if interrupted(outcome) {
                    (m, None)
                } else {
                    (
                        next_input(failed(m), i + 1),
                        Some(report_line(input_context(m.inputs[i as int]), errno_detail(e))),
                    )
                },
                Ok(fd) => if m.stdout.is_file {
                    (in_phase(m, Phase::StatInput { index: i, fd }), None)
                } else {
                    (in_phase(m, streaming(Some(i), fd)), None)
                },
            },
            _ => (m, None),
        },
        Phase::StatInput { index, fd } => match event {
            Event::Stat(outcome) => match outcome {
                Err(e) => if interrupted(outcome) {
                    (m, None)
                } else {
                    (
                        leave_input(failed(m), index as int, fd),
                        Some(report_line(input_context(m.inputs[index as int]), errno_detail(e))),
                    )
                },
                Ok(meta) => if same_file(meta, m.stdout) {
                    (
                        leave_input(failed(m), index as int, fd),
                        Some(report_line(input_context(m.inputs[index as int]), input_is_output())),
                    )
                } else {
                    (in_phase(m, streaming(Some(index), fd)), None)
                },
            },
            _ => (m, None),
        },
        Phase::Streaming { input, fd, stream } => {
            let outcome = match event {
                Event::Read(outcome) => if stream is Reading {
                    Some(outcome)
                } else {
                    None
                },
                Event::Written(outcome) => if stream is Writing {
                    Some(outcome)
                } else {
                    None
                },
                _ => None,
            };
            match outcome {
                None => (m, None),
                Some(outcome) => {
                    let (next, step) = stream_next(stream, outcome);
                    match step {
                        StreamStep::Finished(Ok(())) => (finish_input(m, input, fd), None),
                        StreamStep::Finished(Err(StreamError::Read(e))) => (
                            finish_input(failed(m), input, fd),
                            Some(report_line(source_context(m, input), errno_detail(e))),
                        ),
                        StreamStep::Finished(Err(StreamError::Write(e))) => (
                            ending(m, Termination { status: 1, suppress_close_error: true }),
                            Some(report_line(write_error_context(), errno_detail(e))),
                        ),
                        _ => (in_phase(m, Phase::Streaming { input, fd, stream: next }), None),
                    }
                },
            }
        },
        Phase::CloseInput { index, fd } => match event {
            Event::Closed(outcome) => match outcome {
                Err(e) => (
                    next_input(failed(m), index + 1),
                    Some(report_line(input_context(m.inputs[index as int]), errno_detail(e))),
                ),
                Ok(_) => (next_input(m, index + 1), None),
            },
            _ => (m, None),
        },
        Phase::CloseStdout(end) => match event {
            Event::Closed(outcome) => match outcome {
                Err(e) => (
                    in_phase(m, Phase::CloseStderr(1)),
                    if end.suppress_close_error {
                        None
                    } else {
                        Some(report_line(closing_stdout_context(), errno_detail(e)))
                    },
                ),
                Ok(_) => (in_phase(m, Phase::CloseStderr(end.status)), None),
            },
            _ => (m, None),
        },
        Phase::CloseStderr(status) => match event {
            Event::Closed(outcome) => match outcome {
                Err(_) => (in_phase(m, Phase::Exited(1)), None),
                Ok(_) => (in_phase(m, Phase::Exited(status)), None),
            },
            _ => (m, None),
        },
        Phase::Exited(status) => (m, None),
    }
}

/// The diagnostic of a step, as bytes.
pub open spec fn report_view(report: Option<Vec<u8>>) -> Option<Seq<u8>> {
    match report {
        Some(line) => Some(line@),
        None => None,
    }
}

/// Whether `a` and `b` hold the same bytes.
fn bytes_equal(a: &[u8], b: &[u8]) -> (equal: bool)
    ensures
        equal == (a@ == b@),
{
    if a.len() != b.len() {
        return false;
    }
    let mut i: usize = 0;
    while i < a.len()
        invariant
            a@.len() == b@.len(),
            i <= a@.len(),
            forall|j: int| 0 <= j < i ==> a@[j] == b@[j],
        decreases a@.len() - i,
    {
        if a[i] != b[i] {
            return false;
        }
        i = i + 1;
    }
    assert(a@ =~= b@);
    true
}

/// The context in which a diagnostic names the operand `name`.
fn context_for(name: &[u8]) -> (context: &[u8])
    ensures
        context@ == input_context(name@),
{
    if name.len() == 0 {
        "''".as_bytes()
    } else {
        name
    }
}

/// The diagnostic line for `errno` in `context`.
fn report_errno(context: &[u8], errno: Errno) -> (line: Vec<u8>)
    ensures
        line@ == report_line(context@, errno_detail(errno)),
{
    (context, errno).message()
}

/// The diagnostic line for `message` in `context`.
fn report_message(context: &[u8], message: &[u8]) -> (line: Vec<u8>)
    ensures
        line@ == report_line(context@, message@),
{
    (context, message).message()
}

impl Cat {
    #[verifier::type_invariant]
    spec fn fits(self) -> bool {
        phase_fits(self.phase, self.inputs@.len())
    }

    /// The program, about to run with the operands `inputs` (the command
    /// line arguments after the program name), and its first system call:
    /// `fstat` of standard output.
    pub fn new(inputs: Vec<Vec<u8>>) -> (started: (Cat, Step))
        ensures
            started.0@ == (CatModel {
                inputs: inputs@.map_values(|v: Vec<u8>| v@),
                phase: Phase::StatStdout,
                had_error: false,
                stdout: Identity { dev: 0, ino: 0, is_file: false },
            }),
            started.1.report is None,
            started.1.action == pending(started.0@),
    {
        let cat = Cat {
            inputs,
            phase: Phase::StatStdout,
            had_error: false,
            stdout: Identity { dev: 0, ino: 0, is_file: false },
        };
        (cat, Step { report: None, action: Action::Fstat(STDOUT_FILENO) })
    }

    /// The system call the program waits on.
    pub fn pending_action(&self) -> (action: Action)
        ensures
            action == pending(self@),
    {
        match self.phase {
            Phase::StatStdout => Action::Fstat(STDOUT_FILENO),
            Phase::StatStdin => Action::Fstat(STDIN_FILENO),
            Phase::Open(i) => Action::Open { index: i, dirfd: AT_FDCWD, flags: O_RDONLY, mode: 0 },
            Phase::StatInput { index, fd } => Action::Fstat(fd),
            Phase::Streaming { input, fd, stream } => match stream {
                Stream::Reading => Action::Read(fd),
                Stream::Writing { filled, offset } => Action::Write { start: offset, end: filled },
            },
            Phase::CloseInput { index, fd } => Action::Close(fd),
            Phase::CloseStdout(end) => Action::Close(STDOUT_FILENO),
            Phase::CloseStderr(status) => Action::Close(STDERR_FILENO),
            Phase::Exited(status) => Action::Exit(status),
        }
    }

    /// The context that names the operand `index`.
    fn context_of(&self, index: usize) -> (context: &[u8])
        requires
            index < self@.inputs.len(),
        ensures
            context@ == input_context(self@.inputs[index as int]),
    {
        assert(self@.inputs[index as int] == self.inputs@[index as int]@);
        context_for(self.inputs[index].as_slice())
    }

    /// The context that names the input `input`.
    fn source_context_of(&self, input: Option<usize>) -> (context: &[u8])
        requires
            input matches Some(i) ==> i < self@.inputs.len(),
        ensures
            context@ == source_context(self@, input),
    {
        match input {
            None => "-".as_bytes(),
            Some(i) => self.context_of(i),
        }
    }

    /// Whether the operand `index` is `-`.
    fn is_dash(&self, index: usize) -> (dash_operand: bool)
        requires
            index < self@.inputs.len(),
        ensures
            dash_operand == (self@.inputs[index as int] == dash()),
    {
        assert(self@.inputs[index as int] == self.inputs@[index as int]@);
        bytes_equal(self.inputs[index].as_slice(), "-".as_bytes())
    }

    /// Takes up the operand `index`, or ends the program if none is left.
    fn next_input(&mut self, index: usize)
        requires
            index <= old(self)@.inputs.len(),
        ensures
            final(self)@ == next_input(old(self)@, index as int),
    {
        if index < self.inputs.len() {
            if self.is_dash(index) {
                if self.stdout.is_file {
                    self.phase = Phase::StatInput { index, fd: STDIN_FILENO };
                } else {
                    self.phase = Phase::Streaming {
                        input: Some(index),
                        fd: STDIN_FILENO,
                        stream: Stream::Reading,
                    };
                }
            } else {
                self.phase = Phase::Open(index);
            }
        } else {
            let status: usize = if self.had_error {
                1
            } else {
                0
            };
            self.phase = Phase::CloseStdout(terminate(status));
        }
        assert(final(self)@.inputs =~= old(self)@.inputs);
    }

    /// Leaves the operand `index`, read from `fd`.
    fn leave_input(&mut self, index: usize, fd: i32)
        requires
            index < old(self)@.inputs.len(),
        ensures
            final(self)@ == leave_input(old(self)@, index as int, fd),
    {
        let count = self.inputs.len();
        assert(self@.inputs.len() == count);
        if self.is_dash(index) {
            self.next_input(index + 1);
        } else {
            self.phase = Phase::CloseInput { index, fd };
            assert(final(self)@.inputs =~= old(self)@.inputs);
        }
    }

    /// Finishes with the input `input`, read from `fd`.
    fn finish_input(&mut self, input: Option<usize>, fd: i32)
        requires
            input matches Some(i) ==> i < old(self)@.inputs.len(),
        ensures
            final(self)@ == finish_input(old(self)@, input, fd),
    {
        match input {
            None => {
                let status: usize = if self.had_error {
                    1
                } else {
                    0
                };
                self.phase = Phase::CloseStdout(terminate(status));
                assert(final(self)@.inputs =~= old(self)@.inputs);
            },
            Some(i) => self.leave_input(i, fd),
        }
    }

    /// Moves to phase `phase`.
    fn enter(&mut self, phase: Phase)
        requires
            phase_fits(phase, old(self)@.inputs.len()),
        ensures
            final(self)@ == in_phase(old(self)@, phase),
    {
        self.phase = phase;
        assert(final(self)@.inputs =~= old(self)@.inputs);
    }

    /// Takes the outcome `event` of the pending system call, and gives the
    /// diagnostic to write, if any, and the next system call.
    pub fn step(&mut self, event: Event) -> (next: Step)
        ensures
            final(self)@ == transition(old(self)@, event).0,
            report_view(next.report) == transition(old(self)@, event).1,
            next.action == pending(final(self)@),
    {
        proof {
            use_type_invariant(&*self);
        }
        let count = self.inputs.len();
        assert(self@.inputs.len() == count);
        let report: Option<Vec<u8>> = match self.phase {
            Phase::StatStdout => match event {
                Event::Stat(outcome) => match retry_on_eintr(outcome) {
                    None => None,
                    Some(Err(errno)) => {
                        let line = report_errno("標準出力".as_bytes(), errno);
                        self.enter(Phase::CloseStdout(terminate_after_stdout_failure()));
                        Some(line)
                    },
                    Some(Ok(meta)) => {
                        let is_file = meta.is_file();
                        self.stdout = Identity { dev: meta.st_dev, ino: meta.st_ino, is_file };
                        if count == 0 {
                            if is_file {
                                self.enter(Phase::StatStdin);
                            } else {
                                self.enter(
                                    Phase::Streaming {
                                        input: None,
                                        fd: STDIN_FILENO,
                                        stream: Stream::Reading,
                                    },
                                );
                            }
                        } else {
                            self.next_input(0);
                        }
                        None
                    },
                },
                _ => None,
            },
            Phase::StatStdin => match event {
                Event::Stat(outcome) => match retry_on_eintr(outcome) {
                    None => None,
                    Some(Err(errno)) => {
                        let line = report_errno("-".as_bytes(), errno);
                        self.enter(Phase::CloseStdout(terminate(1)));
                        Some(line)
                    },
                    Some(Ok(meta)) => {
                        if self.stdout.is_file && meta.is_file() && meta.st_dev == self.stdout.dev
                            && meta.st_ino == self.stdout.ino {
                            let line = report_message(
                                "-".as_bytes(),
                                "入力ファイルが出力ファイルです".as_bytes(),
                            );
                            self.enter(Phase::CloseStdout(terminate(1)));
                            Some(line)
                        } else {
                            self.enter(
                                Phase::Streaming {
                                    input: None,
                                    fd: STDIN_FILENO,
                                    stream: Stream::Reading,
                                },
                            );
                            None
                        }
                    },
                },
                _ => None,
            },
            Phase::Open(index) => match event {
                Event::Opened(outcome) => match retry_on_eintr(outcome) {
                    None => None,
                    Some(Err(errno)) => {
                        let line = report_errno(self.context_of(index), errno);
                        self.fail();
                        self.next_input(index + 1);
                        Some(line)
                    },
                    Some(Ok(fd)) => {
                        if self.stdout.is_file {
                            self.enter(Phase::StatInput { index, fd });
                        } else {
                            self.enter(
                                Phase::Streaming {
                                    input: Some(index),
                                    fd,
                                    stream: Stream::Reading,
                                },
                            );
                        }
                        None
                    },
                },
                _ => None,
            },
            Phase::StatInput { index, fd } => match event {
                Event::Stat(outcome) => match retry_on_eintr(outcome) {
                    None => None,
                    Some(Err(errno)) => {
                        let line = report_errno(self.context_of(index), errno);
                        self.fail();
                        self.leave_input(index, fd);
                        Some(line)
                    },
                    Some(Ok(meta)) => {
                        if self.stdout.is_file && meta.is_file() && meta.st_dev == self.stdout.dev
                            && meta.st_ino == self.stdout.ino {
                            let line = report_message(
                                self.context_of(index),
                                "入力ファイルが出力ファイルです".as_bytes(),
                            );
                            self.fail();
                            self.leave_input(index, fd);
                            Some(line)
                        } else {
                            self.enter(
                                Phase::Streaming {
                                    input: Some(index),
                                    fd,
                                    stream: Stream::Reading,
                                },
                            );
                            None
                        }
                    },
                },
                _ => None,
            },
            Phase::Streaming { input, fd, stream } => {
                let outcome: Option<Result<usize, Errno>> = match event {
                    Event::Read(outcome) => match stream {
                        Stream::Reading => Some(outcome),
                        Stream::Writing { .. } => None,
                    },
                    Event::Written(outcome) => match stream {
                        Stream::Reading => None,
                        Stream::Writing { .. } => Some(outcome),
                    },
                    _ => None,
                };
                match outcome {
                    None => None,
                    Some(outcome) => {
                        let (next, stream_step) = stream_to_stdout(stream, outcome);
                        match stream_step {
                            StreamStep::Finished(Ok(())) => {
                                self.finish_input(input, fd);
                                None
                            },
                            StreamStep::Finished(Err(StreamError::Read(errno))) => {
                                let line = report_errno(self.source_context_of(input), errno);
                                self.fail();
                                self.finish_input(input, fd);
                                Some(line)
                            },
                            StreamStep::Finished(Err(StreamError::Write(errno))) => {
                                let line = report_errno("書き込みエラー".as_bytes(), errno);
                                self.enter(Phase::CloseStdout(terminate_after_stdout_failure()));
                                Some(line)
                            },
                            _ => {
                                self.enter(Phase::Streaming { input, fd, stream: next });
                                None
                            },
                        }
                    },
                }
            },
            Phase::CloseInput { index, fd } => match event {
                Event::Closed(outcome) => match outcome {
                    Err(errno) => {
                        let line = report_errno(self.context_of(index), errno);
                        self.fail();
                        self.next_input(index + 1);
                        Some(line)
                    },
                    Ok(_) => {
                        self.next_input(index + 1);
                        None
                    },
                },
                _ => None,
            },
            Phase::CloseStdout(end) => match event {
                Event::Closed(outcome) => match outcome {
                    Err(errno) => {
                        self.enter(Phase::CloseStderr(1));
                        if end.suppress_close_error {
                            None
                        } else {
                            Some(report_errno("標準出力を閉じています".as_bytes(), errno))
                        }
                    },
                    Ok(_) => {
                        self.enter(Phase::CloseStderr(end.status));
                        None
                    },
                },
                _ => None,
            },
            Phase::CloseStderr(status) => match event {
                Event::Closed(outcome) => match outcome {
                    Err(_) => {
                        self.enter(Phase::Exited(1));
                        None
                    },
                    Ok(_) => {
                        self.enter(Phase::Exited(status));
                        None
                    },
                },
                _ => None,
            },
            Phase::Exited(status) => None,
        };
        Step { report, action: self.pending_action() }
    }

    /// Records that an operand failed.
    fn fail(&mut self)
        ensures
            final(self)@ == failed(old(self)@),
    {
        proof {
            use_type_invariant(&*self);
        }
        self.had_error = true;
        assert(final(self)@.inputs =~= old(self)@.inputs);
    }
}

/// The exit status that the program in state `m` ends with, unless closing
/// standard output or standard error fails (which makes it 1).
pub open spec fn exit_status(m: CatModel) -> usize {
    match m.phase {
        Phase::CloseStdout(end) => end.status,
        Phase::CloseStderr(status) => status,
        Phase::Exited(status) => status,
        _ => status_of(m.had_error),
    }
}

/// Whether `event` is an outcome of the system call that `m` waits on.
pub open spec fn answers(m: CatModel, event: Event) -> bool {
    match m.phase {
        Phase::StatStdout | Phase::StatStdin | Phase::StatInput { .. } => event is Stat,
        Phase::Open(_) => event is Opened,
        Phase::Streaming { input, fd, stream } => match stream {
            Stream::Reading => event is Read,
            Stream::Writing { .. } => event is Written,
        },
        Phase::CloseInput { .. } | Phase::CloseStdout(_) | Phase::CloseStderr(_) => event is Closed,
        Phase::Exited(_) => false,
    }
}

/// Whether `event` is an `EINTR` from the `fstat`, `openat`, `read` or
/// `write` that `m` waits on (a write with bytes left to write).
pub open spec fn interrupted_call(m: CatModel, event: Event) -> bool {
    &&& answers(m, event)
    &&& match event {
        Event::Stat(outcome) => interrupted(outcome),
        Event::Opened(outcome) => interrupted(outcome),
        Event::Read(outcome) => interrupted(outcome),
        Event::Written(outcome) => interrupted(outcome),
        Event::Closed(_) => false,
    }
    &&& m.phase matches Phase::Streaming { stream, .. } ==> stream_valid(stream)
}

/// How far through the operands the program in state `m` is: the index of
/// the operand it handles, -1 before the first, and the number of operands
/// once it is ending.
pub open spec fn position(m: CatModel) -> int {
    match m.phase {
        Phase::Open(i) => i as int,
        Phase::StatInput { index, .. } => index as int,
        Phase::Streaming { input, .. } => match input {
            Some(i) => i as int,
            None => -1,
        },
        Phase::CloseInput { index, .. } => index as int,
        Phase::StatStdout | Phase::StatStdin => -1,
        _ => m.inputs.len() as int,
    }
}

/// Whether a copy in state `stream` still has bytes to write when it is
/// writing.
pub open spec fn stream_valid(stream: Stream) -> bool {
    match stream {
        Stream::Writing { filled, offset } => offset < filled,
        Stream::Reading => true,
    }
}

/// A copy only ever writes a chunk while bytes of it are left to write.
pub proof fn lemma_stream_stays_valid(stream: Stream, outcome: Result<usize, Errno>)
    requires
        stream_valid(stream),
    ensures
        stream_valid(stream_next(stream, outcome).0),
{
}

/// The copy writes every chunk it reads, in order and in full: a read of
/// `n > 0` bytes starts writing them from the first byte.
pub proof fn lemma_chunk_written_from_start(n: usize)
    requires
        0 < n,
    ensures
        stream_next(Stream::Reading, Ok(n)) == (
            Stream::Writing { filled: n, offset: 0 },
            StreamStep::Write { start: 0, end: n },
        ),
{
}

/// Each write of `k > 0` bytes of a chunk of `filled` bytes moves on by
/// exactly `k`, and the next read comes once all of the chunk is written.
pub proof fn lemma_chunk_written_in_order(filled: usize, offset: usize, k: usize)
    requires
        offset < filled,
        0 < k,
    ensures
        offset + k < filled ==> stream_next(Stream::Writing { filled, offset }, Ok(k)) == (
            Stream::Writing { filled, offset: (offset + k) as usize },
            StreamStep::Write { start: (offset + k) as usize, end: filled },
        ),
        offset + k >= filled ==> stream_next(Stream::Writing { filled, offset }, Ok(k)) == (
            Stream::Reading,
            StreamStep::Read,
        ),
{
}

/// The copy reads again only after an interrupted read, or once a chunk is
/// written in full.
pub proof fn lemma_read_only_after_chunk(stream: Stream, outcome: Result<usize, Errno>)
    requires
        stream_valid(stream),
    ensures
        stream_next(stream, outcome).1 is Read ==> ((stream is Reading && interrupted(outcome))
            || (match stream {
            Stream::Writing { filled, offset } => match outcome {
                Ok(k) => 0 < k && offset + k >= filled,
                Err(_) => false,
            },
            Stream::Reading => false,
        })),
{
}

/// Operands are only ever opened as `openat(AT_FDCWD, operand, 0, 0)`:
/// relative to the current working directory, for reading only, never
/// creating a file.
pub proof fn lemma_operands_opened_read_only(m: CatModel)
    ensures
        pending(m) matches Action::Open { index, dirfd, flags, mode } ==> dirfd == AT_FDCWD
            && flags == 0 && mode == 0 && m.phase == Phase::Open(index),
{
}

/// Every diagnostic is a failure: once the program writes one, it is
/// bound to exit with status 1.
pub proof fn lemma_report_means_failure(m: CatModel, event: Event)
    ensures
        transition(m, event).1 is Some ==> exit_status(transition(m, event).0) == 1,
{
}

/// A failure is never forgotten: once the program is bound to exit with
/// status 1, it stays so.
pub proof fn lemma_failure_persists(m: CatModel, event: Event)
    ensures
        exit_status(m) == 1 ==> exit_status(transition(m, event).0) == 1,
{
}

/// The program exits with the status it is bound to, and that status is 0
/// or 1 as long as it was so before.
pub proof fn lemma_exit_status(m: CatModel, event: Event)
    ensures
        pending(m) matches Action::Exit(status) ==> status == exit_status(m),
        exit_status(m) <= 1 ==> exit_status(transition(m, event).0) <= 1,
{
}

/// An interrupted `fstat`, `openat`, `read` or `write` is made again: the
/// state stays as it was, nothing is reported, and the pending call is the
/// same.
pub proof fn lemma_interrupted_call_repeated(m: CatModel, event: Event)
    requires
        interrupted_call(m, event),
    ensures
        transition(m, event) == (m, None::<Seq<u8>>),
{
    if let Phase::Streaming { input, fd, stream } = m.phase {
        if let Stream::Writing { filled, offset } = stream {
            assert(in_phase(m, m.phase) == m);
        }
    }
}

/// An event that does not answer the pending call changes nothing.
pub proof fn lemma_unanswered_event_ignored(m: CatModel, event: Event)
    requires
        !answers(m, event),
    ensures
        transition(m, event) == (m, None::<Seq<u8>>),
{
}

/// When standard output is a regular file, an input that is that very file
/// is not copied: the program reports that the input is the output file and
/// does not read it.
pub proof fn lemma_output_file_not_copied(m: CatModel, meta: Metadata)
    requires
        m.phase is StatStdin || m.phase is StatInput,
        same_file(meta, m.stdout),
    ensures
        !(transition(m, Event::Stat(Ok(meta))).0.phase is Streaming),
        transition(m, Event::Stat(Ok(meta))).1 == Some(
            report_line(
                match m.phase {
                    Phase::StatInput { index, .. } => input_context(m.inputs[index as int]),
                    _ => dash(),
                },
                input_is_output(),
            ),
        ),
{
}

/// When standard output is a regular file, the program starts reading an
/// input only right after `fstat` showed that the input is not the output
/// file.
pub proof fn lemma_reads_only_checked_inputs(m: CatModel, event: Event)
    ensures
        ({
            let next = transition(m, event).0;
            (next.phase is Streaming && !(m.phase is Streaming) && next.stdout.is_file) ==> ((
            m.phase is StatStdin || m.phase is StatInput) && (event matches Event::Stat(Ok(meta))
                && !same_file(meta, m.stdout)))
        }),
{
}

/// The operands are taken up in the order they are given, each at most
/// once, and none after the program starts to end.
pub proof fn lemma_operands_in_order(m: CatModel, event: Event)
    requires
        phase_fits(m.phase, m.inputs.len()),
        m.inputs.len() <= usize::MAX,
    ensures
        position(m) <= position(transition(m, event).0),
        phase_fits(transition(m, event).0.phase, m.inputs.len()),
        transition(m, event).0.inputs == m.inputs,
{
}

/// An opened operand is closed before the program moves on from it: it
/// leaves an operand whose descriptor it holds only through `close`,
/// unless the operand is `-` (standard input, never closed) or the program
/// ends because writing to standard output failed.
pub proof fn lemma_opened_operand_closed(m: CatModel, event: Event)
    requires
        phase_fits(m.phase, m.inputs.len()),
        m.inputs.len() <= usize::MAX,
        m.phase is StatInput || (m.phase matches Phase::Streaming { input, .. } && input is Some),
    ensures
        ({
            let next = transition(m, event).0;
            position(next) > position(m) ==> (m.inputs[position(m)] == dash() || (next.phase
                matches Phase::CloseStdout(end) && end.suppress_close_error))
        }),
{
}

/// Whether the state `m` ends without reporting a failure to close standard
/// output only when it is already bound to exit with status 1.
pub open spec fn quiet_ending_failed(m: CatModel) -> bool {
    m.phase matches Phase::CloseStdout(end) ==> (end.suppress_close_error ==> end.status == 1)
}

/// The exit status is 1 only if something was reported (or closing
/// standard error failed): a step that reports nothing, in a program bound
/// to exit with status 0, keeps it bound to 0. In particular a successful
/// `fstat`, `openat`, `read`, `write` or `close` never marks a failure.
pub proof fn lemma_quiet_step_keeps_success(m: CatModel, event: Event)
    requires
        exit_status(m) == 0,
        quiet_ending_failed(m),
        transition(m, event).1 is None,
        !(m.phase is CloseStderr && event matches Event::Closed(Err(_))),
    ensures
        exit_status(transition(m, event).0) == 0,
        quiet_ending_failed(transition(m, event).0),
{
}

/// Endings that stay silent about standard output are only ever taken with
/// exit status 1.
pub proof fn lemma_quiet_ending_failed_kept(m: CatModel, event: Event)
    requires
        quiet_ending_failed(m),
    ensures
        quiet_ending_failed(transition(m, event).0),
{
}

/// A successful `fstat` of standard output records its device, its inode
/// and whether its mode is that of a regular file (`st_mode & 0o170000 ==
/// 0o100000`), marks no failure, and moves on: with no operands, to
/// `fstat` of standard input when the output is a regular file and
/// otherwise straight to reading standard input; with operands, to the
/// first operand.
pub proof fn lemma_stdout_identity_recorded(m: CatModel, meta: Metadata)
    requires
        m.phase == Phase::StatStdout,
    ensures
        ({
            let (next, report) = transition(m, Event::Stat(Ok(meta)));
            let regular = meta.st_mode & 0o170000u32 == 0o100000u32;
            &&& report is None
            &&& next.stdout == Identity { dev: meta.st_dev, ino: meta.st_ino, is_file: regular }
            &&& next.had_error == m.had_error
            &&& next.inputs == m.inputs
            &&& (m.inputs.len() == 0 && regular) ==> pending(next) == Action::Fstat(0)
            &&& (m.inputs.len() == 0 && !regular) ==> pending(next) == Action::Read(0)
            &&& m.inputs.len() > 0 ==> position(next) == 0
        }),
{
}

/// An input whose `fstat` succeeds is refused exactly when standard output
/// is a regular file and the input is a regular file with the same device
/// and inode. Refused, it is reported and marks a failure; otherwise it is
/// read next, quietly, with nothing marked.
pub proof fn lemma_input_refused_iff_output_file(m: CatModel, meta: Metadata)
    requires
        m.phase is StatStdin || m.phase is StatInput,
        phase_fits(m.phase, m.inputs.len()),
    ensures
        ({
            let (next, report) = transition(m, Event::Stat(Ok(meta)));
            let same = m.stdout.is_file && meta.st_mode & 0o170000u32 == 0o100000u32
                && meta.st_dev == m.stdout.dev && meta.st_ino == m.stdout.ino;
            let fd = match m.phase {
                Phase::StatInput { fd, .. } => fd,
                _ => 0i32,
            };
            &&& !same ==> report is None && next.had_error == m.had_error && pending(next)
                == Action::Read(fd) && position(next) == position(m)
            &&& same ==> report is Some && exit_status(next) == 1 && !(next.phase is Streaming)
        }),
{
}

/// Every failure of an operand's `openat`, `fstat`, `read` or `close`,
/// other than `EINTR` (number 4), is reported as `neko: <operand>: <cause>`,
/// marks the program as failed, stops the use of that operand, and the
/// program carries on with the operands after it.
pub proof fn lemma_operand_failure_reported(m: CatModel, error: Errno, event: Event)
    requires
        phase_fits(m.phase, m.inputs.len()),
        m.inputs.len() <= usize::MAX,
        error.0 != 4,
        match m.phase {
            Phase::Open(_) => event == Event::Opened(Err(error)),
            Phase::StatInput { .. } => event == Event::Stat(Err(error)),
            Phase::Streaming { input: Some(_), stream: Stream::Reading, .. } => event
                == Event::Read(Err(error)),
            Phase::CloseInput { .. } => event == Event::Closed(Err(error)),
            _ => false,
        },
    ensures
        ({
            let i = position(m);
            let (next, report) = transition(m, event);
            &&& report == Some(report_line(input_context(m.inputs[i]), errno_detail(error)))
            &&& next.had_error
            &&& exit_status(next) == 1
            &&& !(next.phase is Streaming && position(next) == i)
            &&& i + 1 < m.inputs.len() ==> (i <= position(next) <= i + 1 && !(next.phase is CloseStdout))
        }),
{
}

/// A failed write to standard output (any error but `EINTR`, or a write of
/// zero bytes, which counts as `ENOSPC`, number 28) is reported as
/// `neko: 書き込みエラー: <cause>` and ends the program with exit status 1,
/// without reporting a failure to close standard output.
pub proof fn lemma_write_failure_ends(m: CatModel, outcome: Result<usize, Errno>)
    requires
        m.phase matches Phase::Streaming { stream, .. } && stream is Writing && stream_valid(stream),
        (outcome matches Err(e) && e.0 != 4) || outcome == Ok::<usize, Errno>(0),
    ensures
        ({
            let (next, report) = transition(m, Event::Written(outcome));
            let error = match outcome {
                Err(e) => e,
                Ok(_) => Errno(28),
            };
            &&& report == Some(report_line(write_error_context(), errno_detail(error)))
            &&& next.phase == Phase::CloseStdout(Termination { status: 1, suppress_close_error: true })
        }),
{
}

/// An operand that opens is checked against the output when the output is
/// a regular file, and otherwise read at once; nothing is reported.
pub proof fn lemma_open_success(m: CatModel, fd: i32)
    requires
        m.phase is Open,
    ensures
        ({
            let (next, report) = transition(m, Event::Opened(Ok(fd)));
            &&& report is None
            &&& next.had_error == m.had_error
            &&& position(next) == position(m)
            &&& pending(next) == if m.stdout.is_file {
                Action::Fstat(fd)
            } else {
                Action::Read(fd)
            }
        }),
{
}

/// The operand `-` is the single byte 45, and the empty operand is named
/// `''` (bytes 39, 39) in diagnostics; any other operand is named by
/// itself.
pub proof fn lemma_operand_names(name: Seq<u8>)
    ensures
        dash() == seq![45u8],
        name.len() == 0 ==> input_context(name) == seq![39u8, 39],
        name.len() > 0 ==> input_context(name) == name,
{
    reveal_strlit("-");
    reveal_strlit("''");
    assert(vstd::utf8::is_ascii_chars("-"@));
    assert(vstd::utf8::is_ascii_chars("''"@));
    vstd::utf8::is_ascii_chars_encode_utf8("-"@);
    vstd::utf8::is_ascii_chars_encode_utf8("''"@);
    assert(encode_utf8("-"@) =~= seq![45u8]);
    assert(encode_utf8("''"@) =~= seq![39u8, 39]);
}

/// Whether the state `m` treats the operand `-` (the single byte 45) as
/// standard input: it does not wait to open or close it, and it checks or
/// reads it from descriptor 0.
pub open spec fn dash_is_stdin(m: CatModel) -> bool {
    match m.phase {
        Phase::Open(i) => m.inputs[i as int] != seq![45u8],
        Phase::CloseInput { index, .. } => m.inputs[index as int] != seq![45u8],
        Phase::StatInput { index, fd } => m.inputs[index as int] == seq![45u8] ==> fd == 0,
        Phase::Streaming { input: Some(i), fd, .. } => m.inputs[i as int] == seq![45u8] ==> fd
            == 0,
        _ => true,
    }
}

/// The operand `-` stands for standard input: no step ever opens or closes
/// it, and it is only ever checked and read as descriptor 0.
pub proof fn lemma_dash_is_standard_input(m: CatModel, event: Event)
    requires
        phase_fits(m.phase, m.inputs.len()),
        m.inputs.len() <= usize::MAX,
        dash_is_stdin(m),
    ensures
        dash_is_stdin(transition(m, event).0),
{
    lemma_operand_names(Seq::empty());
}

/// Closing standard output: a failure makes the exit status 1 and is
/// reported as `neko: 標準出力を閉じています: <cause>` unless standard output
/// had already failed; either way standard error is closed next.
pub proof fn lemma_close_stdout(m: CatModel, end: Termination, outcome: Result<isize, Errno>)
    requires
        m.phase == Phase::CloseStdout(end),
    ensures
        ({
            let (next, report) = transition(m, Event::Closed(outcome));
            &&& pending(next) == Action::Close(2)
            &&& match outcome {
                Ok(_) => report is None && exit_status(next) == end.status,
                Err(e) => exit_status(next) == 1 && (report is None <==> end.suppress_close_error)
                    && (!end.suppress_close_error ==> report == Some(
                    report_line(closing_stdout_context(), errno_detail(e)),
                )),
            }
        }),
{
}

/// Closing standard error: the program then exits, with status 1 if the
/// close failed and with the status it was bound to otherwise, reporting
/// nothing.
pub proof fn lemma_close_stderr(m: CatModel, status: usize, outcome: Result<isize, Errno>)
    requires
        m.phase == Phase::CloseStderr(status),
    ensures
        ({
            let (next, report) = transition(m, Event::Closed(outcome));
            &&& report is None
            &&& pending(next) == Action::Exit(if outcome is Err { 1 } else { status })
        }),
{
}

/// While copying an input, the program makes exactly the calls of the copy
/// (see [`stream_next`]) on the input's descriptor, reporting nothing and
/// marking no failure, until the copy finishes; a copy that finishes
/// successfully moves on quietly.
pub proof fn lemma_copy_follows_stream(
    m: CatModel,
    input: Option<usize>,
    fd: i32,
    stream: Stream,
    outcome: Result<usize, Errno>,
)
    requires
        m.phase == (Phase::Streaming { input, fd, stream }),
        phase_fits(m.phase, m.inputs.len()),
        m.inputs.len() <= usize::MAX,
    ensures
        ({
            let event = if stream is Reading {
                Event::Read(outcome)
            } else {
                Event::Written(outcome)
            };
            let (next, report) = transition(m, event);
            match stream_next(stream, outcome).1 {
                StreamStep::Read => report is None && next.had_error == m.had_error && pending(next)
                    == Action::Read(fd),
                StreamStep::Write { start, end } => report is None && next.had_error
                    == m.had_error && pending(next) == (Action::Write { start, end }),
                StreamStep::Finished(Ok(())) => report is None && next.had_error
                    == m.had_error && !(next.phase is Streaming && position(next) == position(m)),
                StreamStep::Finished(Err(_)) => report is Some && exit_status(next) == 1,
            }
        }),
{
}

} // verus!
