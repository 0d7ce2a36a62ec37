//! Reading numbers from text.
use vstd::prelude::*;
use vstd::string::StringSliceAdditionalSpecFns;

verus! {

/// Why a text is no number of the type asked for.
#[derive(Clone, Copy, Debug, PartialEq, Eq, Structural)]
pub enum NumberError {
    /// The text is empty.
    Empty,
    /// The text holds something other than digits behind an optional sign,
    /// or no digit at all.
    InvalidDigit,
    /// The number is too large for the type.
    PosOverflow,
    /// The number is too small for the type.
    NegOverflow,
}

/// An integer type that a number can be read as.
pub trait Integer: Sized {
    /// Whether the type has negative values.
    spec fn signed() -> bool;

    /// The smallest value of the type.
    spec fn lowest() -> int;

    /// The largest value of the type.
    spec fn highest() -> int;

    /// The number that a value of the type stands for.
    spec fn value(self) -> int;

    /// Whether the type has negative values.
    fn is_signed() -> (signed: bool)
        ensures
            signed == Self::signed(),
    ;

    /// How far from zero a value of the type may lie, below zero or above.
    fn limit(negative: bool) -> (limit: u128)
        ensures
            limit == span(negative, Self::lowest(), Self::highest()),
    ;

    /// The value that lies `magnitude` below zero, or above.
    fn from_magnitude(negative: bool, magnitude: u128) -> (number: Self)
        requires
            magnitude <= span(negative, Self::lowest(), Self::highest()),
        ensures
            number.value() == signed_value(negative, magnitude as nat),
    ;
}

/// How far from zero a value between `lowest` and `highest` may lie, below
/// zero or above.
pub open spec fn span(negative: bool, lowest: int, highest: int) -> int {
    if negative {
        -lowest
    } else {
        highest
    }
}

/// The number that lies `magnitude` below zero, or above.
pub open spec fn signed_value(negative: bool, magnitude: nat) -> int {
    if negative {
        -(magnitude as int)
    } else {
        magnitude as int
    }
}

/// Whether a byte is a decimal digit.
pub open spec fn is_digit(byte: u8) -> bool {
    48 <= byte <= 57
}

/// The number that a run of digits stands for.
pub open spec fn digits_value(digits: Seq<u8>) -> nat
    decreases digits.len(),
{
    if digits.len() == 0 {
        0
    } else {
        digits_value(digits.drop_last()) * 10 + (digits.last() - 48) as nat
    }
}

/// Whether the first `run` bytes of a text are digits and the next one, if
/// there is one, is not.
pub open spec fn digits_end(text: Seq<u8>, run: int) -> bool {
    &&& 0 <= run <= text.len()
    &&& forall|i: int| 0 <= i < run ==> is_digit(#[trigger] text[i])
    &&& run < text.len() ==> !is_digit(text[run])
}

/// How many digits a text starts with.
pub open spec fn digit_run(text: Seq<u8>) -> int {
    choose|run: int| digits_end(text, run)
}

/// Whether a text starts with a sign that a type takes: `+` always, `-`
/// where the type has negative values.
pub open spec fn has_sign(text: Seq<u8>, signed: bool) -> bool {
    text.len() > 0 && (text[0] == 43 || (signed && text[0] == 45))
}

/// Whether a text asks for a number below zero.
pub open spec fn is_negative(text: Seq<u8>, signed: bool) -> bool {
    signed && text.len() > 0 && text[0] == 45
}

/// What follows the sign, where the text starts with one; else the text.
pub open spec fn unsigned(text: Seq<u8>, signed: bool) -> Seq<u8> {
    if has_sign(text, signed) {
        text.skip(1)
    } else {
        text
    }
}

/// The number between `lowest` and `highest` that a text stands for:
/// digits behind an optional sign, read in decimal. Reading goes from the
/// left and stops at what is wrong first: a number that has left the range,
/// or a byte that is no digit.
pub open spec fn parsed(text: Seq<u8>, signed: bool, lowest: int, highest: int) -> Result<
    int,
    NumberError,
> {
    let negative = is_negative(text, signed);
    let digits = unsigned(text, signed);
    let run = digit_run(digits);
    if text.len() == 0 {
        Err(NumberError::Empty)
    } else if digits.len() == 0 {
        Err(NumberError::InvalidDigit)
    } else if digits_value(digits.take(run)) > span(negative, lowest, highest) {
        if negative {
            Err(NumberError::NegOverflow)
        } else {
            Err(NumberError::PosOverflow)
        }
    } else if run < digits.len() {
        Err(NumberError::InvalidDigit)
    } else {
        Ok(signed_value(negative, digits_value(digits)))
    }
}

/// A text read as a number of a type.
pub open spec fn parsed_as<T: Integer>(text: Seq<u8>) -> Result<int, NumberError> {
    parsed(text, T::signed(), T::lowest(), T::highest())
}

/// A text starts with one number of digits and no other.
pub proof fn lemma_digit_run(text: Seq<u8>, run: int)
    requires
        digits_end(text, run),
    ensures
        digit_run(text) == run,
{
    let chosen = digit_run(text);
    assert(digits_end(text, chosen));
    if chosen < run {
        assert(is_digit(text[chosen]));
    } else if run < chosen {
        assert(is_digit(text[run]));
    }
}

/// Every text starts with some number of digits.
pub proof fn lemma_digit_run_exists(text: Seq<u8>)
    ensures
        digits_end(text, digit_run(text)),
    decreases text.len(),
{
    if text.len() == 0 || !is_digit(text[0]) {
        assert(digits_end(text, 0));
    } else {
        let rest = text.skip(1);
        lemma_digit_run_exists(rest);
        let run = digit_run(rest);
        assert forall|i: int| 0 <= i < run + 1 implies is_digit(#[trigger] text[i]) by {
            if i > 0 {
                assert(text[i] == rest[i - 1]);
            }
        }
        if run + 1 < text.len() {
            assert(text[run + 1] == rest[run]);
        }
        assert(digits_end(text, run + 1));
    }
}

/// More digits stand for no smaller a number.
pub proof fn lemma_value_grows(digits: Seq<u8>, shorter: int, longer: int)
    requires
        0 <= shorter <= longer <= digits.len(),
        forall|i: int| 0 <= i < longer ==> is_digit(#[trigger] digits[i]),
    ensures
        digits_value(digits.take(shorter)) <= digits_value(digits.take(longer)),
    decreases longer - shorter,
{
    if shorter < longer {
        lemma_value_grows(digits, shorter, longer - 1);
        let long = digits.take(longer);
        assert(long.drop_last() =~= digits.take(longer - 1));
        assert(is_digit(digits[longer - 1]));
        assert(long.last() == digits[longer - 1]);
    }
}

/// Reads a number of a type from a text.
pub fn parse<T: Integer>(text: &str) -> (number: Result<T, NumberError>)
    ensures
        match parsed_as::<T>(text.spec_bytes()) {
            Ok(value) => number matches Ok(read) && read.value() == value,
            Err(error) => number matches Err(why) && why == error,
        },
{
    let bytes = text.as_bytes();
    if bytes.len() == 0 {
        return Err(NumberError::Empty);
    }
    let signed = T::is_signed();
    let negative = signed && bytes[0] == 45;
    let start: usize = if bytes[0] == 43 || negative {
        1
    } else {
        0
    };
    let limit = T::limit(negative);
    let ghost digits = unsigned(bytes@, signed);
    assert(digits =~= bytes@.skip(start as int));
    if bytes.len() == start {
        return Err(NumberError::InvalidDigit);
    }
    let mut value: u128 = 0;
    let mut i: usize = start;
    while i < bytes.len()
        invariant
            start <= i <= bytes.len(),
            start <= 1,
            digits == bytes@.skip(start as int),
            digits.len() > 0,
            bytes@ == text.spec_bytes(),
            bytes@.len() > 0,
            signed == T::signed(),
            negative == is_negative(bytes@, signed),
            digits == unsigned(bytes@, signed),
            limit == span(negative, T::lowest(), T::highest()),
            forall|k: int| 0 <= k < i - start ==> is_digit(#[trigger] digits[k]),
            value == digits_value(digits.take(i - start)),
            value <= limit,
        decreases bytes.len() - i,
    {
        let byte = bytes[i];
        let ghost at = i - start;
        assert(digits[at] == byte);
        if byte < 48 || byte > 57 {
            proof {
                assert(digits_end(digits, at));
                lemma_digit_run(digits, at);
            }
            return Err(NumberError::InvalidDigit);
        }
        let digit: u128 = (byte - 48) as u128;
        proof {
            let next = digits.take(at + 1);
            assert(next.drop_last() =~= digits.take(at));
            assert(next.last() == byte);
            assert(digits_value(next) == value * 10 + digit);
        }
        if digit > limit || value > (limit - digit) / 10 {
            proof {
                assert(value * 10 + digit > limit);
                lemma_digit_run_exists(digits);
                let run = digit_run(digits);
                if run <= at {
                    assert(is_digit(digits[run]));
                }
                lemma_value_grows(digits, at + 1, run);
            }
            if negative {
                return Err(NumberError::NegOverflow);
            } else {
                return Err(NumberError::PosOverflow);
            }
        }
        value = value * 10 + digit;
        i += 1;
    }
    proof {
        assert(digits.take(digits.len() as int) =~= digits);
        assert(digits_end(digits, digits.len() as int));
        lemma_digit_run(digits, digits.len() as int);
    }
    Ok(T::from_magnitude(negative, value))
}

impl Integer for u8 {
    open spec fn signed() -> bool {
        false
    }

    open spec fn lowest() -> int {
        0
    }

    open spec fn highest() -> int {
        u8::MAX as int
    }

    open spec fn value(self) -> int {
        self as int
    }

    fn is_signed() -> (signed: bool) {
        false
    }

    fn limit(negative: bool) -> (limit: u128) {
        if negative {
            0
        } else {
            u8::MAX as u128
        }
    }

    fn from_magnitude(negative: bool, magnitude: u128) -> (number: u8) {
        magnitude as u8
    }
}

impl Integer for u16 {
    open spec fn signed() -> bool {
        false
    }

    open spec fn lowest() -> int {
        0
    }

    open spec fn highest() -> int {
        u16::MAX as int
    }

    open spec fn value(self) -> int {
        self as int
    }

    fn is_signed() -> (signed: bool) {
        false
    }

    fn limit(negative: bool) -> (limit: u128) {
        if negative {
            0
        } else {
            u16::MAX as u128
        }
    }

    fn from_magnitude(negative: bool, magnitude: u128) -> (number: u16) {
        magnitude as u16
    }
}

impl Integer for u32 {
    open spec fn signed() -> bool {
        false
    }

    open spec fn lowest() -> int {
        0
    }

    open spec fn highest() -> int {
        u32::MAX as int
    }

    open spec fn value(self) -> int {
        self as int
    }

    fn is_signed() -> (signed: bool) {
        false
    }

    fn limit(negative: bool) -> (limit: u128) {
        if negative {
            0
        } else {
            u32::MAX as u128
        }
    }

    fn from_magnitude(negative: bool, magnitude: u128) -> (number: u32) {
        magnitude as u32
    }
}

impl Integer for u64 {
    open spec fn signed() -> bool {
        false
    }

    open spec fn lowest() -> int {
        0
    }

    open spec fn highest() -> int {
        u64::MAX as int
    }

    open spec fn value(self) -> int {
        self as int
    }

    fn is_signed() -> (signed: bool) {
        false
    }

    fn limit(negative: bool) -> (limit: u128) {
        if negative {
            0
        } else {
            u64::MAX as u128
        }
    }

    fn from_magnitude(negative: bool, magnitude: u128) -> (number: u64) {
        magnitude as u64
    }
}

impl Integer for usize {
    open spec fn signed() -> bool {
        false
    }

    open spec fn lowest() -> int {
        0
    }

    open spec fn highest() -> int {
        usize::MAX as int
    }

    open spec fn value(self) -> int {
        self as int
    }

    fn is_signed() -> (signed: bool) {
        false
    }

    fn limit(negative: bool) -> (limit: u128) {
        if negative {
            0
        } else {
            usize::MAX as u128
        }
    }

    fn from_magnitude(negative: bool, magnitude: u128) -> (number: usize) {
        magnitude as usize
    }
}

impl Integer for i8 {
    open spec fn signed() -> bool {
        true
    }

    open spec fn lowest() -> int {
        i8::MIN as int
    }

    open spec fn highest() -> int {
        i8::MAX as int
    }

    open spec fn value(self) -> int {
        self as int
    }

    fn is_signed() -> (signed: bool) {
        true
    }

    fn limit(negative: bool) -> (limit: u128) {
        if negative {
            i8::MAX as u128 + 1
        } else {
            i8::MAX as u128
        }
    }

    fn from_magnitude(negative: bool, magnitude: u128) -> (number: i8) {
        if !negative {
            magnitude as i8
        } else if magnitude > i8::MAX as u128 {
            i8::MIN
        } else {
            -(magnitude as i8)
        }
    }
}

impl Integer for i16 {
    open spec fn signed() -> bool {
        true
    }

    open spec fn lowest() -> int {
        i16::MIN as int
    }

    open spec fn highest() -> int {
        i16::MAX as int
    }

    open spec fn value(self) -> int {
        self as int
    }

    fn is_signed() -> (signed: bool) {
        true
    }

    fn limit(negative: bool) -> (limit: u128) {
        if negative {
            i16::MAX as u128 + 1
        } else {
            i16::MAX as u128
        }
    }

    fn from_magnitude(negative: bool, magnitude: u128) -> (number: i16) {
        if !negative {
            magnitude as i16
        } else if magnitude > i16::MAX as u128 {
            i16::MIN
        } else {
            -(magnitude as i16)
        }
    }
}

impl Integer for i32 {
    open spec fn signed() -> bool {
        true
    }

    open spec fn lowest() -> int {
        i32::MIN as int
    }

    open spec fn highest() -> int {
        i32::MAX as int
    }

    open spec fn value(self) -> int {
        self as int
    }

    fn is_signed() -> (signed: bool) {
        true
    }

    fn limit(negative: bool) -> (limit: u128) {
        if negative {
            i32::MAX as u128 + 1
        } else {
            i32::MAX as u128
        }
    }

    fn from_magnitude(negative: bool, magnitude: u128) -> (number: i32) {
        if !negative {
            magnitude as i32
        } else if magnitude > i32::MAX as u128 {
            i32::MIN
        } else {
            -(magnitude as i32)
        }
    }
}

impl Integer for i64 {
    open spec fn signed() -> bool {
        true
    }

    open spec fn lowest() -> int {
        i64::MIN as int
    }

    open spec fn highest() -> int {
        i64::MAX as int
    }

    open spec fn value(self) -> int {
        self as int
    }

    fn is_signed() -> (signed: bool) {
        true
    }

    fn limit(negative: bool) -> (limit: u128) {
        if negative {
            i64::MAX as u128 + 1
        } else {
            i64::MAX as u128
        }
    }

    fn from_magnitude(negative: bool, magnitude: u128) -> (number: i64) {
        if !negative {
            magnitude as i64
        } else if magnitude > i64::MAX as u128 {
            i64::MIN
        } else {
            -(magnitude as i64)
        }
    }
}

impl Integer for isize {
    open spec fn signed() -> bool {
        true
    }

    open spec fn lowest() -> int {
        isize::MIN as int
    }

    open spec fn highest() -> int {
        isize::MAX as int
    }

    open spec fn value(self) -> int {
        self as int
    }

    fn is_signed() -> (signed: bool) {
        true
    }

    fn limit(negative: bool) -> (limit: u128) {
        if negative {
            isize::MAX as u128 + 1
        } else {
            isize::MAX as u128
        }
    }

    fn from_magnitude(negative: bool, magnitude: u128) -> (number: isize) {
        if !negative {
            magnitude as isize
        } else if magnitude > isize::MAX as u128 {
            isize::MIN
        } else {
            -(magnitude as isize)
        }
    }
}

impl Integer for u128 {
    open spec fn signed() -> bool {
        false
    }

    open spec fn lowest() -> int {
        0
    }

    open spec fn highest() -> int {
        u128::MAX as int
    }

    open spec fn value(self) -> int {
        self as int
    }

    fn is_signed() -> (signed: bool) {
        false
    }

    fn limit(negative: bool) -> (limit: u128) {
        if negative {
            0
        } else {
            u128::MAX
        }
    }

    fn from_magnitude(negative: bool, magnitude: u128) -> (number: u128) {
        magnitude
    }
}

impl Integer for i128 {
    open spec fn signed() -> bool {
        true
    }

    open spec fn lowest() -> int {
        i128::MIN as int
    }

    open spec fn highest() -> int {
        i128::MAX as int
    }

    open spec fn value(self) -> int {
        self as int
    }

    fn is_signed() -> (signed: bool) {
        true
    }

    fn limit(negative: bool) -> (limit: u128) {
        if negative {
            i128::MAX as u128 + 1
        } else {
            i128::MAX as u128
        }
    }

    fn from_magnitude(negative: bool, magnitude: u128) -> (number: i128) {
        if !negative {
            magnitude as i128
        } else if magnitude > i128::MAX as u128 {
            i128::MIN
        } else {
            -(magnitude as i128)
        }
    }
}

} // verus!
