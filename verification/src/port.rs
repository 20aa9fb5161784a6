//! The port a server listens on: the `PORT` variable if it is set, the configured default if not.

use vstd::prelude::*;

verus! {

/// Whether `c` is one of the ten ASCII digits.
pub open spec fn is_digit(c: char) -> bool {
    '0' <= c <= '9'
}

/// The number that a run of ASCII digits writes in base ten.
pub open spec fn decimal(digits: Seq<char>) -> int
    decreases digits.len(),
{
    if digits.len() == 0 {
        0
    } else {
        10 * decimal(digits.drop_last()) + (digits.last() as int - '0' as int)
    }
}

/// `text` without the one plus sign it may start with.
pub open spec fn without_sign(text: Seq<char>) -> Seq<char> {
    if text.len() > 0 && text[0] == '+' {
        text.skip(1)
    } else {
        text
    }
}

/// The port that `text` denotes: an optional plus sign, then at least one digit and nothing else,
/// with a value that fits in sixteen bits.
pub open spec fn port_of(text: Seq<char>) -> Option<u16> {
    let digits = without_sign(text);
    if digits.len() > 0 && (forall|i: int| 0 <= i < digits.len() ==> is_digit(#[trigger] digits[i]))
        && decimal(digits) <= u16::MAX {
        Some(decimal(digits) as u16)
    } else {
        None
    }
}

/// A longer run of digits never writes a smaller number.
proof fn lemma_decimal_grows(digits: Seq<char>, n: int)
    requires
        0 <= n <= digits.len(),
        forall|i: int| 0 <= i < digits.len() ==> is_digit(#[trigger] digits[i]),
    ensures
        0 <= decimal(digits.take(n)) <= decimal(digits),
    decreases digits.len(),
{
    if n == digits.len() {
        assert(digits.take(n) == digits);
        if n > 0 {
            lemma_decimal_grows(digits.drop_last(), n - 1);
            assert(digits.drop_last().take(n - 1) == digits.drop_last());
        }
    } else {
        lemma_decimal_grows(digits.drop_last(), n);
        assert(digits.drop_last().take(n) == digits.take(n));
    }
}

/// The shortest texts: none and a lone plus sign are no port, and one character, with or without a
/// plus sign, is a port exactly where it is a digit, with the value of that digit.
pub proof fn law_port_of_one_digit(c: char)
    ensures
        port_of(Seq::empty()) is None,
        port_of(seq!['+']) is None,
        '0' <= c <= '9' ==> port_of(seq![c]) == Some((c as int - 48) as u16) && port_of(seq!['+', c])
            == Some((c as int - 48) as u16),
        !('0' <= c <= '9') ==> port_of(seq![c]) is None && port_of(seq!['+', c]) is None,
{
    assert(seq!['+'].skip(1) == Seq::<char>::empty());
    assert(seq!['+', c].skip(1) == seq![c]);
    assert(seq![c].drop_last() == Seq::<char>::empty());
    assert(decimal(Seq::<char>::empty()) == 0);
    assert(decimal(seq![c]) == c as int - 48);
    assert(seq![c][0] == c);
    if c == '+' {
        assert(seq![c].skip(1) == Seq::<char>::empty());
    }
}

/// One more character: a text that goes on after its first digit is a port exactly where what comes
/// before the last character is one, the last character is a digit, and the number that both write
/// in base ten still fits.
pub proof fn law_port_digit_by_digit(text: Seq<char>, c: char)
    requires
        text.len() > 0,
        text != seq!['+'],
    ensures
        port_of(text) matches Some(port) ==> '0' <= c <= '9' ==> 10 * port + (c as int - 48) <= 65535
            ==> port_of(text.push(c)) == Some((10 * port + (c as int - 48)) as u16),
        port_of(text) matches Some(port) ==> '0' <= c <= '9' ==> 10 * port + (c as int - 48) > 65535
            ==> port_of(text.push(c)) is None,
        !('0' <= c <= '9') ==> port_of(text.push(c)) is None,
        port_of(text) is None ==> port_of(text.push(c)) is None,
{
    let digits = without_sign(text);
    let longer = without_sign(text.push(c));
    assert(longer =~= digits.push(c));
    if digits.len() == 0 {
        assert(text =~= seq!['+']);
    }
    assert(longer.drop_last() =~= digits);
    assert(longer.last() == c);
    assert(longer[digits.len() as int] == c);
    assert(forall|i: int| 0 <= i < digits.len() ==> digits[i] == #[trigger] longer[i]);
    if forall|i: int| 0 <= i < longer.len() ==> is_digit(#[trigger] longer[i]) {
        assert forall|i: int| 0 <= i < digits.len() implies is_digit(#[trigger] digits[i]) by {
            assert(digits[i] == longer[i]);
        }
        lemma_decimal_grows(longer, digits.len() as int);
        assert(longer.take(digits.len() as int) =~= digits);
    }
}

/// Reads a port number from `text`, or `None` where `text` does not denote one.
pub fn parse_port(text: &str) -> (port: Option<u16>)
    ensures
        port == port_of(text@),
{
    let len: usize = text.unicode_len();
    let start: usize = if len > 0 && text.get_char(0) == '+' {
        1
    } else {
        0
    };
    let ghost digits = without_sign(text@);
    assert(digits == text@.skip(start as int));
    if start == len {
        return None;
    }
    let mut value: u32 = 0;
    let mut i: usize = start;
    while i < len
        invariant
            start <= i <= len,
            len == text@.len(),
            digits == text@.skip(start as int),
            digits == without_sign(text@),
            forall|j: int| 0 <= j < i - start ==> is_digit(#[trigger] digits[j]),
            value == decimal(digits.take(i - start)),
            value <= u16::MAX,
        decreases len - i,
    {
        let c: char = text.get_char(i);
        assert(c == digits[i - start]);
        if c < '0' || '9' < c {
            return None;
        }
        value = 10 * value + (c as u32 - '0' as u32);
        assert(digits.take(i + 1 - start).drop_last() == digits.take(i - start));
        if value > 65535 {
            proof {
                if forall|j: int| 0 <= j < digits.len() ==> is_digit(#[trigger] digits[j]) {
                    lemma_decimal_grows(digits, i + 1 - start);
                }
            }
            return None;
        }
        i = i + 1;
    }
    assert(digits.take(len - start) == digits);
    Some(value as u16)
}

/// The port to listen on, given the value of the `PORT` variable where it is set. `None` means
/// that the variable is set to something that is not a port.
pub fn listen_port(port_var: Option<&str>, default_port: u16) -> (port: Option<u16>)
    ensures
        port == (match port_var {
            Some(text) => port_of(text@),
            None => Some(default_port),
        }),
{
    match port_var {
        Some(text) => parse_port(text),
        None => Some(default_port),
    }
}

} // verus!
