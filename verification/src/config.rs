//! The settings of the daemon and how the brightness setting is read.

use vstd::prelude::*;
use vstd::string::*;

verus! {

/// Brightness while the user is active, in percent, unless set otherwise.
pub const DEFAULT_BRIGHTNESS: u8 = 30;

/// Time without input after which the user counts as idle, in seconds,
/// unless set otherwise.
pub const DEFAULT_TIMEOUT: u32 = 10;

/// The highest brightness that can be set, in percent.
pub const MAX_BRIGHTNESS: u8 = 100;

/// Why a text is no brightness.
#[derive(Debug, Clone, Copy, PartialEq, Eq, Structural)]
pub enum ParseFailure {
    /// The text is empty.
    Empty,
    /// The text holds something else than decimal digits behind an optional
    /// plus sign, or no digit at all.
    InvalidDigit,
    /// The number does not fit in a byte.
    TooLarge,
    /// The number is above `MAX_BRIGHTNESS`.
    OutOfRange,
}

/// Whether `c` is one of the decimal digits `0` to `9`, the code points 48
/// to 57.
pub open spec fn is_digit(c: char) -> bool {
    48 <= c as int <= 57
}

/// Reads decimal digits from left to right, starting from the value `acc` of
/// the digits read so far. The first character that is no digit, or the
/// first digit that takes the value beyond 255, ends the reading with an
/// error.
pub open spec fn scan_digits(digits: Seq<char>, acc: nat) -> Result<u8, ParseFailure>
    decreases digits.len(),
{
    if digits.len() == 0 {
        if acc <= 255 {
            Ok(acc as u8)
        } else {
            Err(ParseFailure::TooLarge)
        }
    } else if !is_digit(digits[0]) {
        Err(ParseFailure::InvalidDigit)
    } else if acc * 10 + (digits[0] as int - 48) > 255 {
        Err(ParseFailure::TooLarge)
    } else {
        scan_digits(digits.drop_first(), (acc * 10 + (digits[0] as int - 48)) as nat)
    }
}

/// The byte that a text stands for: an optional plus sign, then at least
/// one decimal digit and nothing else.
pub open spec fn spec_parse_u8(s: Seq<char>) -> Result<u8, ParseFailure> {
    if s.len() == 0 {
        Err(ParseFailure::Empty)
    } else {
        let digits = if s[0] == '+' {
            s.drop_first()
        } else {
            s
        };
        if digits.len() == 0 {
            Err(ParseFailure::InvalidDigit)
        } else {
            scan_digits(digits, 0)
        }
    }
}

/// The brightness that a text stands for: a byte that is at most
/// `MAX_BRIGHTNESS`.
pub open spec fn spec_parse_brightness(s: Seq<char>) -> Result<u8, ParseFailure> {
    match spec_parse_u8(s) {
        Ok(brightness) => if brightness > MAX_BRIGHTNESS {
            Err(ParseFailure::OutOfRange)
        } else {
            Ok(brightness)
        },
        Err(e) => Err(e),
    }
}

/// Whether every character of `s` is a decimal digit.
pub open spec fn all_digits(s: Seq<char>) -> bool {
    forall|i: int| 0 <= i < s.len() ==> is_digit(#[trigger] s[i])
}

/// The number that a string of decimal digits stands for.
pub open spec fn decimal_value(digits: Seq<char>) -> nat
    decreases digits.len(),
{
    if digits.len() == 0 {
        0
    } else {
        decimal_value(digits.drop_last()) * 10 + (digits.last() as int - 48) as nat
    }
}

/// What a text holds behind its plus sign, or the text itself where it
/// begins with none.
pub open spec fn unsigned_part(s: Seq<char>) -> Seq<char> {
    if s.len() > 0 && s[0] == '+' {
        s.drop_first()
    } else {
        s
    }
}

/// Digits behind a number never make it smaller.
proof fn lemma_value_grows(prefix: Seq<char>, rest: Seq<char>)
    requires
        all_digits(rest),
    ensures
        decimal_value(prefix) <= decimal_value(prefix + rest),
    decreases rest.len(),
{
    if rest.len() == 0 {
        assert(prefix + rest =~= prefix);
    } else {
        assert((prefix + rest).drop_last() =~= prefix + rest.drop_last());
        assert((prefix + rest).last() == rest.last());
        assert(is_digit(rest[rest.len() - 1]));
        lemma_value_grows(prefix, rest.drop_last());
    }
}

/// Reading on from the value of the digits `prefix` succeeds exactly when
/// only digits follow and the whole number fits in a byte, and then gives
/// that number.
proof fn lemma_scan_digits(prefix: Seq<char>, rest: Seq<char>)
    requires
        decimal_value(prefix) <= 255,
    ensures
        scan_digits(rest, decimal_value(prefix)) is Ok <==> all_digits(rest) && decimal_value(
            prefix + rest,
        ) <= 255,
        scan_digits(rest, decimal_value(prefix)) matches Ok(v) ==> v == decimal_value(
            prefix + rest,
        ),
    decreases rest.len(),
{
    if rest.len() == 0 {
        assert(prefix + rest =~= prefix);
    } else {
        let longer = prefix.push(rest[0]);
        let shorter = rest.drop_first();
        assert(longer.drop_last() =~= prefix);
        assert(longer + shorter =~= prefix + rest);
        if !is_digit(rest[0]) {
        } else {
            assert(all_digits(rest) <==> all_digits(shorter)) by {
                if all_digits(shorter) {
                    assert forall|i: int| 0 <= i < rest.len() implies is_digit(
                        #[trigger] rest[i],
                    ) by {
                        if i > 0 {
                            assert(rest[i] == shorter[i - 1]);
                        }
                    }
                }
                if all_digits(rest) {
                    assert forall|i: int| 0 <= i < shorter.len() implies is_digit(
                        #[trigger] shorter[i],
                    ) by {
                        assert(shorter[i] == rest[i + 1]);
                    }
                }
            }
            if decimal_value(longer) > 255 {
                if all_digits(shorter) {
                    lemma_value_grows(longer, shorter);
                }
            } else {
                lemma_scan_digits(longer, shorter);
            }
        }
    }
}

/// A text is read as a byte exactly when it is made of decimal digits, at
/// least one, behind at most one plus sign, and the number they stand for is
/// at most 255; it is read as that number.
pub proof fn lemma_parse_u8_accepts(s: Seq<char>)
    ensures
        spec_parse_u8(s) is Ok <==> unsigned_part(s).len() > 0 && all_digits(unsigned_part(s))
            && decimal_value(unsigned_part(s)) <= 255,
        spec_parse_u8(s) matches Ok(v) ==> v == decimal_value(unsigned_part(s)),
{
    let digits = unsigned_part(s);
    if digits.len() > 0 {
        assert(decimal_value(Seq::<char>::empty()) == 0);
        assert(Seq::<char>::empty() + digits =~= digits);
        lemma_scan_digits(Seq::<char>::empty(), digits);
    }
}

/// A text is read as a brightness exactly when it is made of decimal digits,
/// at least one, behind at most one plus sign, and the number they stand for
/// is at most 100; it is read as that number.
pub proof fn lemma_parse_brightness_accepts(s: Seq<char>)
    ensures
        spec_parse_brightness(s) is Ok <==> unsigned_part(s).len() > 0 && all_digits(
            unsigned_part(s),
        ) && decimal_value(unsigned_part(s)) <= MAX_BRIGHTNESS,
        spec_parse_brightness(s) matches Ok(v) ==> v == decimal_value(unsigned_part(s)),
{
    lemma_parse_u8_accepts(s);
}

impl ParseFailure {
    /// The text of `message`.
    pub open spec fn spec_message(self) -> Seq<char> {
        match self {
            ParseFailure::Empty => "cannot parse integer from empty string"@,
            ParseFailure::InvalidDigit => "invalid digit found in string"@,
            ParseFailure::TooLarge => "number too large to fit in target type"@,
            ParseFailure::OutOfRange =>
                "invalid brightness value {brightness} (valid range: 0-100)"@,
        }
    }

    /// A description of the failure for the user.
    pub fn message(&self) -> (text: String)
        ensures
            text@ == self.spec_message(),
    {
        match self {
            ParseFailure::Empty => String::from_str("cannot parse integer from empty string"),
            ParseFailure::InvalidDigit => String::from_str("invalid digit found in string"),
            ParseFailure::TooLarge => String::from_str("number too large to fit in target type"),
            ParseFailure::OutOfRange => String::from_str(
                "invalid brightness value {brightness} (valid range: 0-100)",
            ),
        }
    }
}

/// Reads a byte in decimal.
pub fn parse_u8(s: &str) -> (r: Result<u8, ParseFailure>)
    ensures
        r == spec_parse_u8(s@),
{
    let n = s.unicode_len();
    if n == 0 {
        return Err(ParseFailure::Empty);
    }
    let start: usize = if s.get_char(0) == '+' {
        1
    } else {
        0
    };
    if start == n {
        assert(s@.drop_first().len() == 0);
        return Err(ParseFailure::InvalidDigit);
    }
    let ghost digits = s@.subrange(start as int, n as int);
    assert(digits =~= if s@[0] == '+' {
        s@.drop_first()
    } else {
        s@
    });
    let mut acc: u8 = 0;
    let mut i: usize = start;
    while i < n
        invariant
            start <= i <= n,
            n == s@.len(),
            spec_parse_u8(s@) == scan_digits(digits, 0),
            scan_digits(digits, 0) == scan_digits(s@.subrange(i as int, n as int), acc as nat),
        decreases n - i,
    {
        let c = s.get_char(i);
        let ghost rest = s@.subrange(i as int, n as int);
        assert(rest[0] == c);
        assert(rest.drop_first() =~= s@.subrange(i + 1, n as int));
        if !(c >= '0' && c <= '9') {
            return Err(ParseFailure::InvalidDigit);
        }
        let d: u32 = c as u32 - 48;
        let next: u32 = acc as u32 * 10 + d;
        if next > 255 {
            return Err(ParseFailure::TooLarge);
        }
        acc = next as u8;
        i += 1;
    }
    assert(s@.subrange(i as int, n as int).len() == 0);
    Ok(acc)
}

/// Reads the brightness setting: a decimal number from 0 to 100. The error
/// is the message for the user.
pub fn parse_brightness(s: &str) -> (r: Result<u8, String>)
    ensures
        match spec_parse_brightness(s@) {
            Ok(brightness) => r == Ok::<u8, String>(brightness),
            Err(e) => r matches Err(text) && text@ == e.spec_message(),
        },
{
    match parse_u8(s) {
        Ok(brightness) => if brightness > MAX_BRIGHTNESS {
            Err(ParseFailure::OutOfRange.message())
        } else {
            Ok(brightness)
        },
        Err(e) => Err(e.message()),
    }
}

} // verus!
