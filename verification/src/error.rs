//! The diagnostics written to standard error.
use vstd::prelude::*;
use vstd::utf8::encode_utf8;

use crate::errno::{cause_bytes, is_known, Errno};

verus! {

broadcast use vstd::std_specs::vec::group_vec_axioms;

/// The ASCII digits of `n` in base ten, most significant first, without
/// leading zeros (`0` is the single digit `0`).
pub open spec fn decimal_digits(n: nat) -> Seq<u8>
    decreases n,
{
    if n < 10 {
        seq![(48 + n) as u8]
    } else {
        decimal_digits(n / 10) + seq![(48 + n % 10) as u8]
    }
}

/// Ten to the power `k`, for the digit counts that a `u16` can have.
pub open spec fn pow10(k: nat) -> nat
    decreases k,
{
    if k == 0 {
        1
    } else {
        10 * pow10((k - 1) as nat)
    }
}

/// The decimal digits of `number`, as the diagnostic for an unknown error
/// writes them.
pub fn format_decimal(number: u16) -> (digits: Vec<u8>)
    ensures
        digits@ == decimal_digits(number as nat),
{
    let mut buffer: Vec<u8> = vec![0u8; 5];
    let mut rest: u16 = number;
    let mut start: usize = 5;
    assert(pow10(5) == 100000) by {
        reveal_with_fuel(pow10, 6);
    }
    loop
        invariant_except_break
            1 <= start <= 5,
            (rest as nat) < pow10(start as nat),
            decimal_digits(number as nat) == decimal_digits(rest as nat) + buffer@.subrange(
                start as int,
                5,
            ),
        invariant
            buffer@.len() == 5,
        ensures
            start <= 5,
            decimal_digits(number as nat) == buffer@.subrange(start as int, 5),
        decreases start,
    {
        assert(pow10(start as nat) == 10 * pow10((start - 1) as nat));
        assert(pow10(0) == 1);
        start = start - 1;
        let digit: u8 = 48 + (rest % 10) as u8;
        buffer.set(start, digit);
        assert(buffer@.subrange(start as int, 5) == seq![digit] + buffer@.subrange(
            start + 1,
            5,
        ));
        let next: u16 = rest / 10;
        if next == 0 {
            assert(decimal_digits(rest as nat) == seq![digit]);
            rest = next;
            break;
        }
        assert(decimal_digits(rest as nat) == decimal_digits(next as nat) + seq![digit]);
        rest = next;
    }
    buffer.split_off(start)
}

/// Appends `bytes` to `out`.
fn append_bytes(out: &mut Vec<u8>, bytes: &[u8])
    ensures
        final(out)@ == old(out)@ + bytes@,
{
    out.extend_from_slice(bytes);
    assert(final(out)@ =~= old(out)@ + bytes@);
}

/// The line written to standard error for a failure described by `detail`
/// in the context `context`: `neko: <context>: <detail>` and a newline.
pub open spec fn report_line(context: Seq<u8>, detail: Seq<u8>) -> Seq<u8> {
    encode_utf8("neko: "@) + context + encode_utf8(": "@) + detail + encode_utf8("\n"@)
}

/// What a diagnostic says of an error number: its description, followed
/// by the number itself in decimal when the number has no description of
/// its own.
pub open spec fn errno_detail(errno: Errno) -> Seq<u8> {
    if is_known(errno.0) {
        cause_bytes(errno.0)
    } else {
        cause_bytes(errno.0) + decimal_digits(errno.0 as nat)
    }
}

/// A failure that can be reported on standard error.
pub trait Error {
    /// The line that reports this failure.
    spec fn report(&self) -> Seq<u8>;

    /// The bytes of the line that reports this failure.
    fn message(&self) -> (line: Vec<u8>)
        ensures
            line@ == self.report(),
    ;
}

/// Assembles `neko: <context>: <detail>` and a newline.
fn assemble(context: &[u8], detail: &[u8]) -> (line: Vec<u8>)
    ensures
        line@ == report_line(context@, detail@),
{
    let mut line: Vec<u8> = Vec::new();
    append_bytes(&mut line, "neko: ".as_bytes());
    append_bytes(&mut line, context);
    append_bytes(&mut line, ": ".as_bytes());
    append_bytes(&mut line, detail);
    append_bytes(&mut line, "\n".as_bytes());
    line
}

/// A failure given as a context and a message, both as bytes.
impl<'a, 'b> Error for (&'a [u8], &'b [u8]) {
    open spec fn report(&self) -> Seq<u8> {
        report_line(self.0@, self.1@)
    }

    fn message(&self) -> (line: Vec<u8>) {
        assemble(self.0, self.1)
    }
}

/// A failure given as a context and the error number that caused it.
impl<'a> Error for (&'a [u8], Errno) {
    open spec fn report(&self) -> Seq<u8> {
        report_line(self.0@, errno_detail(self.1))
    }

    fn message(&self) -> (line: Vec<u8>) {
        let errno = &self.1;
        let mut detail: Vec<u8> = Vec::new();
        append_bytes(&mut detail, errno.cause());
        if errno.is_unknown() {
            let digits = format_decimal(errno.0);
            append_bytes(&mut detail, digits.as_slice());
        }
        assemble(self.0, detail.as_slice())
    }
}

/// The number that the ASCII decimal digits `digits` denote.
pub open spec fn digits_value(digits: Seq<u8>) -> int
    decreases digits.len(),
{
    if digits.len() == 0 {
        0
    } else {
        digits_value(digits.drop_last()) * 10 + (digits.last() - 48)
    }
}

/// The digits written for a number are ASCII decimal digits, without a
/// leading zero, and denote that very number.
pub proof fn lemma_decimal_digits_denote(n: nat)
    ensures
        digits_value(decimal_digits(n)) == n,
        forall|i: int|
            0 <= i < decimal_digits(n).len() ==> 48 <= #[trigger] decimal_digits(n)[i] <= 57,
        decimal_digits(n).len() == 1 || decimal_digits(n)[0] != 48,
    decreases n,
{
    if n < 10 {
        assert(((48 + n) as u8) as int == 48 + n);
        assert(decimal_digits(n).drop_last() =~= Seq::<u8>::empty());
        assert(digits_value(Seq::<u8>::empty()) == 0);
    } else {
        assert(((48 + n % 10) as u8) as int == 48 + n % 10);
        let high = decimal_digits(n / 10);
        lemma_decimal_digits_denote(n / 10);
        vstd::arithmetic::div_mod::lemma_fundamental_div_mod(n as int, 10);
        assert(decimal_digits(n).drop_last() =~= high);
        assert(decimal_digits(n)[0] == high[0]);
        assert(decimal_digits(n).last() == (48 + n % 10) as u8);
        if high.len() == 1 {
            assert(high.drop_last() =~= Seq::<u8>::empty());
            assert(digits_value(Seq::<u8>::empty()) == 0);
            assert(high.last() == high[0]);
            assert(n / 10 >= 1);
        }
    }
}

/// A diagnostic line is, byte for byte, `neko: ` (bytes 110, 101, 107, 111,
/// 58, 32), the context, `: ` (58, 32), the detail and a newline (10).
pub proof fn lemma_report_line_bytes(context: Seq<u8>, detail: Seq<u8>)
    ensures
        report_line(context, detail) == seq![110u8, 101, 107, 111, 58, 32] + context + seq![
            58u8,
            32,
        ] + detail + seq![10u8],
{
    reveal_strlit("neko: ");
    reveal_strlit(": ");
    reveal_strlit("\n");
    assert(vstd::utf8::is_ascii_chars("neko: "@));
    assert(vstd::utf8::is_ascii_chars(": "@));
    assert(vstd::utf8::is_ascii_chars("\n"@));
    vstd::utf8::is_ascii_chars_encode_utf8("neko: "@);
    vstd::utf8::is_ascii_chars_encode_utf8(": "@);
    vstd::utf8::is_ascii_chars_encode_utf8("\n"@);
    assert(encode_utf8("neko: "@) =~= seq![110u8, 101, 107, 111, 58, 32]);
    assert(encode_utf8(": "@) =~= seq![58u8, 32]);
    assert(encode_utf8("\n"@) =~= seq![10u8]);
}

} // verus!
