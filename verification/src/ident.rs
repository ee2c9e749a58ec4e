//! Reading identifiers from the text in which the chat protocol carries them.

use vstd::prelude::*;
use vstd::string::{is_ascii_spec_bytes, StringSliceAdditionalSpecFns};
use vstd::utf8::is_ascii_chars;

verus! {

// The ASCII codes of the characters that the readers below look for.
const MINUS: u8 = 45;

const PLUS: u8 = 43;

const DIGIT_0: u8 = 48;

const DIGIT_9: u8 = 57;

const UPPER_A: u8 = 65;

const UPPER_F: u8 = 70;

const LOWER_A: u8 = 97;

const LOWER_F: u8 = 102;

/// The largest magnitude of an identifier: that of the least one.
const MAGNITUDE_MAX: i64 = 2147483648;

/// Whether `c` is one of the ten decimal digits.
pub open spec fn is_digit(c: char) -> bool {
    '0' <= c <= '9'
}

/// Whether every character of `text` is a decimal digit.
pub open spec fn all_digits(text: Seq<char>) -> bool {
    forall|i: int| 0 <= i < text.len() ==> is_digit(#[trigger] text[i])
}

/// The number that a run of decimal digits writes.
pub open spec fn number(digits: Seq<char>) -> int
    decreases digits.len(),
{
    if digits.len() == 0 {
        0
    } else {
        10 * number(digits.drop_last()) + (digits.last() as int - '0' as int)
    }
}

/// The integer that `text` writes in decimal: one or more digits, with `-` or
/// `+` allowed in front of them and nothing else anywhere.
pub open spec fn decimal(text: Seq<char>) -> Option<int> {
    if text.len() == 0 {
        None
    } else {
        let digits = if text[0] == '-' || text[0] == '+' {
            text.skip(1)
        } else {
            text
        };
        if digits.len() == 0 || !all_digits(digits) {
            None
        } else if text[0] == '-' {
            Some(-number(digits))
        } else {
            Some(number(digits))
        }
    }
}

/// The numeric identifier that `text` writes: its decimal value, where that
/// value fits the 32 bits that the store gives to an identifier.
pub open spec fn id_of(text: Seq<char>) -> Option<i32> {
    match decimal(text) {
        Some(value) => if i32::MIN <= value <= i32::MAX {
            Some(value as i32)
        } else {
            None
        },
        None => None,
    }
}

/// A run of digits writes a number at least as large as any of its prefixes.
proof fn lemma_number_grows(digits: Seq<char>, upto: int)
    requires
        all_digits(digits),
        0 <= upto <= digits.len(),
    ensures
        0 <= number(digits.take(upto)) <= number(digits),
    decreases digits.len() - upto,
{
    if upto == digits.len() {
        assert(digits.take(upto) =~= digits);
        lemma_number_nonnegative(digits);
    } else {
        lemma_number_grows(digits, upto + 1);
        assert(digits.take(upto + 1).drop_last() =~= digits.take(upto));
        assert(is_digit(digits[upto]));
        lemma_number_nonnegative(digits.take(upto));
    }
}

/// A run of digits writes no negative number.
proof fn lemma_number_nonnegative(digits: Seq<char>)
    requires
        all_digits(digits),
    ensures
        0 <= number(digits),
    decreases digits.len(),
{
    if digits.len() > 0 {
        assert(is_digit(digits.last()));
        assert(all_digits(digits.drop_last())) by {
            assert forall|i: int| 0 <= i < digits.drop_last().len() implies is_digit(
                #[trigger] digits.drop_last()[i],
            ) by {
                assert(is_digit(digits[i]));
            }
        }
        lemma_number_nonnegative(digits.drop_last());
    }
}

/// Reads a numeric identifier from its text on the wire. The answer is `None`
/// for every text that is not a decimal integer of 32 bits: an empty one, one
/// with a character that is no digit (a sign in front excepted), a sign with
/// nothing behind it, a value out of range.
pub fn parse_id(text: &str) -> (id: Option<i32>)
    ensures
        id == id_of(text@),
{
    if !text.is_ascii() {
        proof {
            let bad = choose|i: int|
                0 <= i < text@.len() && !('\0' <= #[trigger] text@[i] <= '\u{7f}');
            if bad > 0 {
                assert(text@.skip(1)[bad - 1] == text@[bad]);
            }
        }
        return None;
    }
    let bytes = text.as_bytes();
    proof {
        is_ascii_spec_bytes(text);
    }
    let len: usize = bytes.len();
    if len == 0 {
        return None;
    }
    let negative: bool = bytes[0] == MINUS;
    let start: usize = if bytes[0] == MINUS || bytes[0] == PLUS {
        1
    } else {
        0
    };
    let ghost digits = if text@[0] == '-' || text@[0] == '+' {
        text@.skip(1)
    } else {
        text@
    };
    if start == len {
        return None;
    }
    let mut value: i64 = 0;
    let mut at: usize = start;
    proof {
        assert(digits.take(0) =~= Seq::empty());
    }
    while at < len
        invariant
            start <= at <= len,
            start <= 1,
            len == bytes@.len(),
            len == text@.len(),
            is_ascii_chars(text@),
            forall|i: int| 0 <= i < len ==> bytes@[i] == text@[i] as u8,
            len > 0,
            digits == (if text@[0] == '-' || text@[0] == '+' {
                text@.skip(1)
            } else {
                text@
            }),
            digits == text@.skip(start as int),
            all_digits(digits.take(at - start)),
            value == number(digits.take(at - start)),
            0 <= value <= MAGNITUDE_MAX,
        decreases len - at,
    {
        let byte: u8 = bytes[at];
        let ghost seen = digits.take(at - start);
        let ghost next = digits.take(at - start + 1);
        proof {
            assert(digits[at - start] == text@[at as int]);
            assert(next.drop_last() =~= seen);
            assert(next.last() == text@[at as int]);
        }
        if byte < DIGIT_0 || byte > DIGIT_9 {
            proof {
                assert(!is_digit(digits[at - start]));
            }
            return None;
        }
        let digit: i64 = (byte - DIGIT_0) as i64;
        value = value * 10 + digit;
        proof {
            assert(is_digit(text@[at as int]));
            assert forall|i: int| 0 <= i < next.len() implies is_digit(#[trigger] next[i]) by {
                if i < seen.len() {
                    assert(seen[i] == next[i]);
                }
            }
        }
        if value > MAGNITUDE_MAX {
            proof {
                if all_digits(digits) {
                    lemma_number_grows(digits, at - start + 1);
                }
            }
            return None;
        }
        at += 1;
    }
    proof {
        assert(digits.take(at - start) =~= digits);
    }
    if negative {
        Some((-value) as i32)
    } else if value >= MAGNITUDE_MAX {
        None
    } else {
        Some(value as i32)
    }
}

/// Whether `c` is a hexadecimal digit, in either case.
pub open spec fn is_hex(c: char) -> bool {
    ('0' <= c <= '9') || ('a' <= c <= 'f') || ('A' <= c <= 'F')
}

/// Whether `text` is a UUID in its usual written form: 32 hexadecimal digits
/// in groups of 8, 4, 4, 4 and 12, with a hyphen between the groups.
pub open spec fn is_uuid(text: Seq<char>) -> bool {
    &&& text.len() == 36
    &&& forall|i: int|
        0 <= i < 36 ==> if i == 8 || i == 13 || i == 18 || i == 23 {
            #[trigger] text[i] == '-'
        } else {
            is_hex(text[i])
        }
}

/// What a backend asks of a message identifier.
#[derive(Clone, Copy, Debug, PartialEq, Eq, Structural)]
pub enum IdFormat {
    /// Any text is an identifier.
    Opaque,
    /// The identifier is a UUID in its usual written form.
    Uuid,
}

impl IdFormat {
    /// Whether `text` is an identifier in this format.
    pub open spec fn admits(self, text: Seq<char>) -> bool {
        match self {
            IdFormat::Opaque => true,
            IdFormat::Uuid => is_uuid(text),
        }
    }

    /// Checks a message identifier against the format.
    pub fn accepts(self, text: &str) -> (ok: bool)
        ensures
            ok == self.admits(text@),
    {
        match self {
            IdFormat::Opaque => true,
            IdFormat::Uuid => check_uuid(text),
        }
    }
}

/// Checks that `text` is a UUID in its usual written form.
pub fn check_uuid(text: &str) -> (ok: bool)
    ensures
        ok == is_uuid(text@),
{
    if !text.is_ascii() {
        proof {
            let bad = choose|i: int|
                0 <= i < text@.len() && !('\0' <= #[trigger] text@[i] <= '\u{7f}');
            assert(!is_hex(text@[bad]) && text@[bad] != '-');
        }
        return false;
    }
    let bytes = text.as_bytes();
    proof {
        is_ascii_spec_bytes(text);
    }
    if bytes.len() != 36 {
        return false;
    }
    let mut at: usize = 0;
    while at < 36
        invariant
            at <= 36,
            bytes@.len() == 36,
            text@.len() == 36,
            is_ascii_chars(text@),
            forall|i: int| 0 <= i < 36 ==> bytes@[i] == text@[i] as u8,
            forall|i: int|
                0 <= i < at ==> if i == 8 || i == 13 || i == 18 || i == 23 {
                    #[trigger] text@[i] == '-'
                } else {
                    is_hex(text@[i])
                },
        decreases 36 - at,
    {
        let byte: u8 = bytes[at];
        let ghost c = text@[at as int];
        let fits = if at == 8 || at == 13 || at == 18 || at == 23 {
            byte == MINUS
        } else {
            (DIGIT_0 <= byte && byte <= DIGIT_9) || (LOWER_A <= byte && byte <= LOWER_F) || (
            UPPER_A <= byte && byte <= UPPER_F)
        };
        if !fits {
            return false;
        }
        at += 1;
    }
    true
}

} // verus!
