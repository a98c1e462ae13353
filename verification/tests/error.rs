use neko::errno::{Errno, EINTR, ENOENT, ENOSPC};
use neko::error::{format_decimal, Error};

fn parse_decimal(digits: &[u8]) -> u32 {
    digits.iter().fold(0, |n, d| n * 10 + u32::from(d - b'0'))
}

#[test]
fn decimal_digits_of_numbers() {
    assert_eq!(format_decimal(0), b"0".to_vec());
    assert_eq!(format_decimal(7), b"7".to_vec());
    assert_eq!(format_decimal(10), b"10".to_vec());
    assert_eq!(format_decimal(41), b"41".to_vec());
    assert_eq!(format_decimal(4095), b"4095".to_vec());
    assert_eq!(format_decimal(65535), b"65535".to_vec());
}

#[test]
fn decimal_digits_denote_the_number() {
    for n in 0..=u16::MAX {
        let digits = format_decimal(n);
        assert!(digits.iter().all(|d| d.is_ascii_digit()));
        assert!(digits.len() == 1 || digits[0] != b'0');
        assert_eq!(parse_decimal(&digits), u32::from(n));
    }
}

#[test]
fn message_with_text_detail() {
    let context: &[u8] = b"file.txt";
    let detail: &[u8] = "入力ファイルが出力ファイルです".as_bytes();
    assert_eq!(
        (context, detail).message(),
        "neko: file.txt: 入力ファイルが出力ファイルです\n".as_bytes().to_vec()
    );
}

#[test]
fn message_with_known_errno() {
    let context: &[u8] = b"missing";
    assert_eq!(
        (context, Errno(ENOENT)).message(),
        "neko: missing: そのようなファイルやディレクトリはありません\n".as_bytes().to_vec()
    );
    assert_eq!(
        (context, Errno(EINTR)).message(),
        "neko: missing: システムコール割り込み\n".as_bytes().to_vec()
    );
}

#[test]
fn message_with_unknown_errno_gives_number() {
    let context: &[u8] = b"-";
    assert_eq!(
        (context, Errno(41)).message(),
        "neko: -: 不明なエラー41\n".as_bytes().to_vec()
    );
    assert_eq!(
        (context, Errno(0)).message(),
        "neko: -: 不明なエラー0\n".as_bytes().to_vec()
    );
    assert_eq!(
        (context, Errno(65535)).message(),
        "neko: -: 不明なエラー65535\n".as_bytes().to_vec()
    );
}

#[test]
fn message_with_empty_context() {
    let context: &[u8] = b"";
    assert_eq!(
        (context, Errno(ENOSPC)).message(),
        "neko: : デバイスに空き領域がありません\n".as_bytes().to_vec()
    );
}
