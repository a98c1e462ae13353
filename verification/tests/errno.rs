use neko::errno::{
    Errno, EAGAIN, EDEADLK, EDEADLOCK, EINTR, ENOENT, ENOTSUP, EOPNOTSUPP, EPERM, ERFKILL,
    EWOULDBLOCK,
};

#[test]
fn cause_of_known_number() {
    assert_eq!(
        Errno(ENOENT).cause(),
        "そのようなファイルやディレクトリはありません".as_bytes()
    );
    assert_eq!(Errno(EPERM).cause(), "許可されていない操作です".as_bytes());
    assert_eq!(Errno(ERFKILL).cause(), "RF-kill のため操作は不可能です".as_bytes());
    assert!(!Errno(EINTR).is_unknown());
    assert!(!Errno(ERFKILL).is_unknown());
}

#[test]
fn numbers_without_entry_are_unknown() {
    for number in [0u16, 41, 54, 58, 133, 4095, u16::MAX] {
        let errno = Errno(number);
        assert!(errno.is_unknown(), "{number}");
        assert_eq!(errno.cause(), "不明なエラー".as_bytes());
    }
}

#[test]
fn unknown_cause_iff_no_entry() {
    for number in 0..=u16::MAX {
        let errno = Errno(number);
        assert_eq!(errno.cause() == "不明なエラー".as_bytes(), errno.is_unknown(), "{number}");
    }
}

#[test]
fn aliases_are_same_numbers() {
    assert_eq!(Errno(EWOULDBLOCK), Errno(EAGAIN));
    assert_eq!(Errno(EDEADLOCK), Errno(EDEADLK));
    assert_eq!(Errno(ENOTSUP), Errno(EOPNOTSUPP));
    assert_eq!(EAGAIN, 11);
    assert_eq!(EDEADLK, 35);
    assert_eq!(EOPNOTSUPP, 95);
}
