//! Character-level helpers for the textual formats this crate reads and writes.

use vstd::prelude::*;

verus! {

/// Collects the characters of `s` in order.
pub fn chars_of(s: &str) -> (out: Vec<char>)
    ensures
        out@ == s@,
{
    let mut out: Vec<char> = Vec::new();
    for c in it: s.chars()
        invariant
            it.seq() == s@,
            out@ == s@.take(it.index() as int),
    {
        out.push(c);
    }
    out
}

/// Whether `c` is one of the ten ASCII decimal digits.
pub open spec fn is_digit(c: char) -> bool {
    '0' <= c && c <= '9'
}

/// The number a decimal digit stands for.
pub open spec fn digit_value(c: char) -> nat {
    (c as u32 - 48) as nat
}

/// Whether every character of `s` is a decimal digit.
pub open spec fn all_digits(s: Seq<char>) -> bool {
    forall|k: int| 0 <= k < s.len() ==> is_digit(#[trigger] s[k])
}

/// The number written by a string of decimal digits, most significant first.
pub open spec fn decimal_value(digits: Seq<char>) -> nat
    decreases digits.len(),
{
    if digits.len() == 0 {
        0
    } else {
        10 * decimal_value(digits.drop_last()) + digit_value(digits.last())
    }
}

/// Reads a 16-bit unsigned decimal number: one or more digits whose value
/// fits. Anything else is no number.
pub open spec fn parse_u16(text: Seq<char>) -> Option<u16> {
    if text.len() > 0 && all_digits(text) && decimal_value(text) <= u16::MAX {
        Some(decimal_value(text) as u16)
    } else {
        None
    }
}

/// A prefix of a digit string never writes a larger number than the whole.
pub proof fn lemma_decimal_prefix_le(digits: Seq<char>, k: int)
    requires
        0 <= k <= digits.len(),
    ensures
        decimal_value(digits.take(k)) <= decimal_value(digits),
    decreases digits.len(),
{
    if k == digits.len() {
        assert(digits.take(k) == digits);
    } else {
        lemma_decimal_prefix_le(digits.drop_last(), k);
        assert(digits.drop_last().take(k) == digits.take(k));
    }
}

/// Why a text is no 16-bit unsigned decimal number.
#[derive(Debug, Clone, Copy, PartialEq, Eq, Structural)]
pub enum NumberError {
    /// The text is empty.
    Empty,
    /// A character is no digit.
    InvalidDigit,
    /// The number does not fit.
    TooLarge,
}

/// Whether reading `digits` from the left goes wrong at position `k`: the
/// character there is no digit, or the number read up to and including it
/// does not fit.
pub open spec fn goes_wrong_at(digits: Seq<char>, k: int) -> bool {
    &&& 0 <= k < digits.len()
    &&& (!is_digit(digits[k]) || decimal_value(digits.take(k + 1)) > u16::MAX)
}

/// Whether position `k` is the first at which reading `digits` goes wrong.
pub open spec fn first_goes_wrong_at(digits: Seq<char>, k: int) -> bool {
    &&& goes_wrong_at(digits, k)
    &&& forall|j: int| 0 <= j < k ==> !goes_wrong_at(digits, j)
}

/// Why `text`, which is no number, is none: it is empty, or reading it from
/// the left first meets a character that is no digit, or first meets a digit
/// with which the number no longer fits.
pub open spec fn number_error(text: Seq<char>) -> NumberError {
    if text.len() == 0 {
        NumberError::Empty
    } else if exists|k: int| #[trigger] first_goes_wrong_at(text, k) && is_digit(text[k]) {
        NumberError::TooLarge
    } else {
        NumberError::InvalidDigit
    }
}

impl NumberError {
    /// What is said of the failure.
    pub open spec fn spec_message(self) -> Seq<char> {
        match self {
            NumberError::Empty => "cannot parse integer from empty string"@,
            NumberError::InvalidDigit => "invalid digit found in string"@,
            NumberError::TooLarge => "number too large to fit in target type"@,
        }
    }

    /// What is said of the failure.
    pub fn message(&self) -> (out: &'static str)
        ensures
            out@ == self.spec_message(),
    {
        match self {
            NumberError::Empty => "cannot parse integer from empty string",
            NumberError::InvalidDigit => "invalid digit found in string",
            NumberError::TooLarge => "number too large to fit in target type",
        }
    }
}

/// Reads the characters `chars[from..to]` as a 16-bit unsigned decimal number.
pub fn parse_u16_chars(chars: &Vec<char>, from: usize, to: usize) -> (out: Result<u16, NumberError>)
    requires
        from <= to <= chars.len(),
    ensures
        match parse_u16(chars@.subrange(from as int, to as int)) {
            Some(value) => out == Ok::<u16, NumberError>(value),
            None => out == Err::<u16, NumberError>(
                number_error(chars@.subrange(from as int, to as int)),
            ),
        },
{
    let ghost digits = chars@.subrange(from as int, to as int);
    if from == to {
        return Err(NumberError::Empty);
    }
    let mut acc: u32 = 0;
    let mut pos: usize = from;
    while pos < to
        invariant
            from < to,
            from <= pos <= to <= chars.len(),
            digits == chars@.subrange(from as int, to as int),
            all_digits(digits.take(pos - from)),
            acc == decimal_value(digits.take(pos - from)),
            acc <= u16::MAX,
            forall|j: int| 0 <= j < pos - from ==> !goes_wrong_at(digits, j),
        decreases to - pos,
    {
        let c = chars[pos];
        let ghost k = pos - from;
        assert(c == digits[k]);
        if !(c >= '0' && c <= '9') {
            proof {
                assert(!is_digit(digits[k]));
                assert(first_goes_wrong_at(digits, k));
                assert forall|other: int| #[trigger]
                    first_goes_wrong_at(digits, other) implies other == k by {
                    if other < k {
                        assert(!goes_wrong_at(digits, other));
                    } else if other > k {
                        assert(goes_wrong_at(digits, k));
                    }
                }
            }
            return Err(NumberError::InvalidDigit);
        }
        let d: u32 = c as u32 - 48;
        let next: u32 = acc * 10 + d;
        proof {
            let longer = digits.take(k + 1);
            assert(longer.drop_last() == digits.take(k));
            assert(longer.last() == c);
            assert(next == decimal_value(longer));
            if next > u16::MAX {
                lemma_decimal_prefix_le(digits, k + 1);
                assert(first_goes_wrong_at(digits, k) && is_digit(digits[k]));
            }
        }
        if next > 65535 {
            return Err(NumberError::TooLarge);
        }
        acc = next;
        pos = pos + 1;
    }
    assert(digits.take(pos - from) == digits);
    Ok(acc as u16)
}

/// The character that writes a value below ten.
pub open spec fn digit_char(d: nat) -> char {
    ((d + 48) as u8) as char
}

/// The decimal rendering of a number, without sign or leading zeros.
pub open spec fn decimal_digits(v: nat) -> Seq<char>
    decreases v,
{
    if v < 10 {
        seq![digit_char(v)]
    } else {
        decimal_digits(v / 10).push(digit_char(v % 10))
    }
}

/// The one-character text of a value below ten.
pub fn digit_str(d: u8) -> (out: &'static str)
    requires
        d < 10,
    ensures
        out@ == seq![digit_char(d as nat)],
{
    proof {
        reveal_strlit("0");
        reveal_strlit("1");
        reveal_strlit("2");
        reveal_strlit("3");
        reveal_strlit("4");
        reveal_strlit("5");
        reveal_strlit("6");
        reveal_strlit("7");
        reveal_strlit("8");
        reveal_strlit("9");
    }
    let out = if d == 0 {
        "0"
    } else if d == 1 {
        "1"
    } else if d == 2 {
        "2"
    } else if d == 3 {
        "3"
    } else if d == 4 {
        "4"
    } else if d == 5 {
        "5"
    } else if d == 6 {
        "6"
    } else if d == 7 {
        "7"
    } else if d == 8 {
        "8"
    } else {
        "9"
    };
    assert(out@ =~= seq![digit_char(d as nat)]);
    out
}

/// Appends the decimal rendering of `v` to `out`.
pub fn push_decimal(out: &mut String, v: u64)
    ensures
        final(out)@ == old(out)@ + decimal_digits(v as nat),
    decreases v,
{
    if v >= 10 {
        push_decimal(out, v / 10);
    }
    out.append(digit_str((v % 10) as u8));
    assert(out@ =~= old(out)@ + decimal_digits(v as nat));
}

/// The decimal rendering of `v`.
pub fn decimal_string(v: u64) -> (out: String)
    ensures
        out@ == decimal_digits(v as nat),
{
    let mut out = String::new();
    push_decimal(&mut out, v);
    assert(out@ =~= decimal_digits(v as nat));
    out
}

} // verus!
