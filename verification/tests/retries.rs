use neko::errno::{Errno, EAGAIN, EINTR, EIO};
use neko::retries::retry_on_eintr;

#[test]
fn interrupted_call_is_retried() {
    assert_eq!(retry_on_eintr::<usize>(Err(Errno(EINTR))), None);
}

#[test]
fn other_errors_are_returned_unchanged() {
    assert_eq!(retry_on_eintr::<usize>(Err(Errno(EIO))), Some(Err(Errno(EIO))));
    assert_eq!(retry_on_eintr::<usize>(Err(Errno(EAGAIN))), Some(Err(Errno(EAGAIN))));
}

#[test]
fn success_is_returned_unchanged() {
    assert_eq!(retry_on_eintr::<usize>(Ok(5)), Some(Ok(5)));
    assert_eq!(retry_on_eintr::<i32>(Ok(-1)), Some(Ok(-1)));
}

#[test]
fn retry_loop_stops_at_first_other_outcome() {
    let mut outcomes = vec![Err(Errno(EINTR)), Err(Errno(EINTR)), Ok(7usize), Err(Errno(EIO))].into_iter();
    let mut calls = 0;
    let result = loop {
        calls += 1;
        if let Some(result) = retry_on_eintr(outcomes.next().unwrap()) {
            break result;
        }
    };
    assert_eq!(result, Ok(7));
    assert_eq!(calls, 3);
}
