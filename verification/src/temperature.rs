use crate::text::{
    extract_number_spec, is_digit, lemma_run_len, lemma_run_len_bounds, run_len, scan, to_chars,
    CharClass,
};
use vstd::prelude::*;

verus! {

/// A temperature as a whole number of thousandths of a degree. Readings are
/// in degrees Celsius; a value made for display is in the unit of the
/// display.
#[derive(Clone, Copy, Debug, PartialEq, Eq, Structural)]
pub struct Temperature {
    millis: i64,
}

impl View for Temperature {
    type V = int;

    /// The temperature in thousandths of a degree.
    closed spec fn view(&self) -> int {
        self.millis as int
    }
}

/// `x` held to the range a temperature can take.
pub open spec fn saturate(x: int) -> int {
    if x < i64::MIN {
        i64::MIN as int
    } else if x > i64::MAX {
        i64::MAX as int
    } else {
        x
    }
}

/// Thousandths of a degree Fahrenheit for thousandths of a degree Celsius:
/// nine fifths of the value plus 32 degrees, rounded down.
pub open spec fn fahrenheit_millis(celsius_millis: int) -> int {
    (9 * celsius_millis + 160_000) / 5
}

/// The number that a decimal digit stands for.
pub open spec fn digit_of(c: char) -> int {
    c as int - 48
}

/// The number that a text of decimal digits stands for; 0 for the empty text.
pub open spec fn digits_value(s: Seq<char>) -> nat
    decreases s.len(),
{
    if s.len() == 0 {
        0
    } else {
        (digits_value(s.drop_last()) * 10 + digit_of(s.last())) as nat
    }
}

/// The digit of a fraction at place `i`, 0 behind its end.
pub open spec fn fraction_digit(fraction: Seq<char>, i: int) -> int {
    if i < fraction.len() {
        digit_of(fraction[i])
    } else {
        0
    }
}

/// The thousandths that the digits behind a decimal point stand for. Digits
/// behind the third are dropped.
pub open spec fn fraction_millis(fraction: Seq<char>) -> int {
    fraction_digit(fraction, 0) * 100 + fraction_digit(fraction, 1) * 10 + fraction_digit(
        fraction,
        2,
    )
}

/// A decimal literal taken apart.
pub struct Decimal {
    /// Whether the literal begins with a minus sign.
    pub negative: bool,
    /// The digits before the point.
    pub whole: Seq<char>,
    /// The digits behind the point.
    pub fraction: Seq<char>,
}

/// How many chars the sign at the start of `s` takes: one or none.
pub open spec fn sign_len(s: Seq<char>) -> int {
    if s.len() > 0 && (s[0] == '+' || s[0] == '-') {
        1
    } else {
        0
    }
}

/// The parts of `s` where `s` is a decimal literal: an optional sign, then
/// digits, a point and digits, of which either run of digits may be missing
/// but not both, and the point may be missing where no digit follows.
/// `None` for every other text.
pub open spec fn decimal_parts(s: Seq<char>) -> Option<Decimal> {
    let body = s.skip(sign_len(s));
    let whole_len = run_len(body, CharClass::Digit) as int;
    let rest = body.skip(whole_len);
    let fraction = if rest.len() > 0 && rest[0] == '.' {
        rest.skip(1)
    } else {
        rest
    };
    let fraction_len = run_len(fraction, CharClass::Digit) as int;
    if fraction_len == fraction.len() && whole_len + fraction_len > 0 {
        Some(
            Decimal {
                negative: s.len() > 0 && s[0] == '-',
                whole: body.take(whole_len),
                fraction: fraction,
            },
        )
    } else {
        None
    }
}

/// The thousandths that a decimal literal stands for, before they are held
/// to the range of a temperature.
pub open spec fn decimal_millis(d: Decimal) -> int {
    let magnitude = digits_value(d.whole) * 1000 + fraction_millis(d.fraction);
    if d.negative {
        -magnitude
    } else {
        magnitude
    }
}

/// The temperature that `s` stands for, in thousandths of a degree; `None`
/// where `s` is no decimal literal.
pub open spec fn parse_spec(s: Seq<char>) -> Option<int> {
    match decimal_parts(s) {
        Some(d) => Some(saturate(decimal_millis(d))),
        None => None,
    }
}

/// Appending a digit to a text of digits multiplies its value by ten and adds
/// the digit.
pub proof fn lemma_digits_value_push(s: Seq<char>, c: char)
    requires
        is_digit(c),
    ensures
        digits_value(s.push(c)) == digits_value(s) * 10 + digit_of(c),
{
    assert(s.push(c).drop_last() == s);
}

/// The first number of a text is a decimal literal: what is found in the
/// output of a tool can always be read as a temperature.
pub proof fn lemma_extracted_number_parses(s: Seq<char>)
    ensures
        extract_number_spec(s) matches Some(number) ==> parse_spec(number) is Some,
{
    let start = run_len(s, CharClass::NonDigit) as int;
    lemma_run_len_bounds(s, CharClass::NonDigit);
    if start < s.len() {
        let tail = s.skip(start);
        let whole = run_len(tail, CharClass::Digit) as int;
        lemma_run_len_bounds(tail, CharClass::Digit);
        assert(tail[0] == s[start]);
        assert(whole >= 1);
        let whole_end = start + whole;
        let number = extract_number_spec(s)->0;
        if whole_end < s.len() && s[whole_end] == '.' {
            let behind = s.skip(whole_end + 1);
            let fraction_len = run_len(behind, CharClass::Digit) as int;
            lemma_run_len_bounds(behind, CharClass::Digit);
            assert(number == s.subrange(start, whole_end + 1 + fraction_len));
            assert(number[0] == tail[0]);
            assert(number.skip(0) == number);
            assert forall|j: int| 0 <= j < whole implies CharClass::Digit.holds(
                #[trigger] number[j],
            ) by {
                assert(number[j] == tail[j]);
            }
            assert(number[whole] == s[whole_end]);
            lemma_run_len(number, CharClass::Digit, whole);
            let rest = number.skip(whole);
            assert(rest[0] == number[whole]);
            let fraction = rest.skip(1);
            assert(fraction == behind.take(fraction_len));
            assert forall|j: int| 0 <= j < fraction_len implies CharClass::Digit.holds(
                #[trigger] fraction[j],
            ) by {
                assert(fraction[j] == behind[j]);
            }
            lemma_run_len(fraction, CharClass::Digit, fraction_len);
        } else {
            assert(number == s.subrange(start, whole_end));
            assert(number[0] == tail[0]);
            assert(number.skip(0) == number);
            assert forall|j: int| 0 <= j < whole implies CharClass::Digit.holds(
                #[trigger] number[j],
            ) by {
                assert(number[j] == tail[j]);
            }
            lemma_run_len(number, CharClass::Digit, whole);
            let rest = number.skip(whole);
            assert(rest.len() == 0);
        }
    }
}

/// Ceiling of the running value while the digits before the point are read:
/// every value at or above it lies beyond the range of a temperature.
pub const WHOLE_CAP: u64 = 10_000_000_000_000_000;

impl Temperature {
    /// The temperature of `millis` thousandths of a degree.
    pub fn from_millis(millis: i64) -> (t: Temperature)
        ensures
            t@ == millis,
    {
        Temperature { millis }
    }

    /// The temperature of `degrees` whole degrees.
    pub fn from_degrees(degrees: i32) -> (t: Temperature)
        ensures
            t@ == degrees * 1000,
    {
        Temperature { millis: (degrees as i64) * 1000 }
    }

    /// The temperature in thousandths of a degree.
    pub fn millis(&self) -> (m: i64)
        ensures
            m == self@,
    {
        self.millis
    }

    /// The same temperature in Fahrenheit, for one in Celsius. A result
    /// beyond the range of a temperature is held to the nearest end of it.
    pub fn to_fahrenheit(&self) -> (f: Temperature)
        ensures
            f@ == saturate(fahrenheit_millis(self@)),
    {
        let numerator: i128 = 9 * (self.millis as i128) + 160_000;
        let quotient: i128 = if numerator >= 0 || numerator % 5 == 0 {
            numerator / 5
        } else {
            numerator / 5 - 1
        };
        let millis: i64 = if quotient > i64::MAX as i128 {
            i64::MAX
        } else if quotient < i64::MIN as i128 {
            i64::MIN
        } else {
            quotient as i64
        };
        Temperature { millis }
    }

    /// The value of the digits in the stretch `from..to`, held to
    /// `WHOLE_CAP`.
    fn read_whole(chars: &Vec<char>, from: usize, to: usize) -> (acc: u64)
        requires
            from <= to <= chars.len(),
            forall|j: int| from <= j < to ==> is_digit(#[trigger] chars@[j]),
        ensures
            acc <= WHOLE_CAP,
            acc == if digits_value(chars@.subrange(from as int, to as int)) < WHOLE_CAP {
                digits_value(chars@.subrange(from as int, to as int))
            } else {
                WHOLE_CAP as nat
            },
    {
        let ghost whole = chars@.subrange(from as int, to as int);
        let mut acc: u64 = 0;
        let mut i: usize = from;
        assert(whole.take(0) == Seq::<char>::empty());
        while i < to
            invariant
                from <= i <= to <= chars.len(),
                whole == chars@.subrange(from as int, to as int),
                forall|j: int| from <= j < to ==> is_digit(#[trigger] chars@[j]),
                acc <= WHOLE_CAP,
                acc == if digits_value(whole.take(i - from)) < WHOLE_CAP {
                    digits_value(whole.take(i - from))
                } else {
                    WHOLE_CAP as nat
                },
            decreases to - i,
        {
            let c = chars[i];
            let digit: u64 = ((c as u8) - 48) as u64;
            proof {
                assert(is_digit(chars@[i as int]));
                lemma_digits_value_push(whole.take(i - from), c);
                assert(whole.take(i - from).push(c) == whole.take(i + 1 - from));
            }
            let next: u64 = acc * 10 + digit;
            acc = if next < WHOLE_CAP {
                next
            } else {
                WHOLE_CAP
            };
            i += 1;
        }
        assert(whole.take(whole.len() as int) == whole);
        acc
    }

    /// The digit at place `k` of the fraction in the stretch `from..to`.
    fn read_fraction_digit(chars: &Vec<char>, from: usize, to: usize, k: usize) -> (digit: u64)
        requires
            from <= to <= chars.len(),
            k < 3,
            forall|j: int| from <= j < to ==> is_digit(#[trigger] chars@[j]),
        ensures
            digit == fraction_digit(chars@.subrange(from as int, to as int), k as int),
            digit <= 9,
    {
        if k < to - from {
            assert(is_digit(chars@[from + k]));
            ((chars[from + k] as u8) - 48) as u64
        } else {
            0
        }
    }

    /// The thousandths that the digits in the stretch `from..to` stand for
    /// behind a point.
    fn read_fraction(chars: &Vec<char>, from: usize, to: usize) -> (thousandths: u64)
        requires
            from <= to <= chars.len(),
            forall|j: int| from <= j < to ==> is_digit(#[trigger] chars@[j]),
        ensures
            thousandths == fraction_millis(chars@.subrange(from as int, to as int)),
            thousandths <= 999,
    {
        Temperature::read_fraction_digit(chars, from, to, 0) * 100
            + Temperature::read_fraction_digit(chars, from, to, 1) * 10
            + Temperature::read_fraction_digit(chars, from, to, 2)
    }

    /// The temperature of `magnitude` thousandths of a degree, below zero
    /// where `negative` says so, held to the range of a temperature.
    fn from_magnitude(negative: bool, magnitude: u64) -> (t: Temperature)
        ensures
            t@ == saturate(
                if negative {
                    -(magnitude as int)
                } else {
                    magnitude as int
                },
            ),
    {
        let millis: i64 = if magnitude > i64::MAX as u64 {
            if negative {
                i64::MIN
            } else {
                i64::MAX
            }
        } else if negative {
            -(magnitude as i64)
        } else {
            magnitude as i64
        };
        Temperature { millis }
    }

    /// Takes the literal in the stretch `from..to` apart: whether it is below
    /// zero, where its digits before the point begin and end, and where
    /// those behind the point begin; they end at `to`. `None` where the
    /// stretch holds no decimal literal.
    fn split_literal(chars: &Vec<char>, from: usize, to: usize) -> (parts: Option<
        (bool, usize, usize, usize),
    >)
        requires
            from <= to <= chars.len(),
        ensures
            match parts {
                Some((negative, whole_start, whole_end, fraction_start)) => {
                    &&& from <= whole_start <= whole_end <= fraction_start <= to
                    &&& forall|j: int|
                        whole_start <= j < whole_end ==> is_digit(#[trigger] chars@[j])
                    &&& forall|j: int|
                        fraction_start <= j < to ==> is_digit(#[trigger] chars@[j])
                    &&& decimal_parts(chars@.subrange(from as int, to as int)) == Some(
                        Decimal {
                            negative,
                            whole: chars@.subrange(whole_start as int, whole_end as int),
                            fraction: chars@.subrange(fraction_start as int, to as int),
                        },
                    )
                },
                None => decimal_parts(chars@.subrange(from as int, to as int)) is None,
            },
    {
        let ghost text = chars@.subrange(from as int, to as int);
        let signed = from < to && (chars[from] == '+' || chars[from] == '-');
        let negative = from < to && chars[from] == '-';
        let body_start: usize = if signed {
            from + 1
        } else {
            from
        };
        proof {
            if from < to {
                assert(text[0] == chars@[from as int]);
            }
        }
        let ghost body = text.skip(sign_len(text));
        assert(body == chars@.subrange(body_start as int, to as int));
        let whole_end = scan(chars, body_start, to, CharClass::Digit);
        let ghost rest = body.skip(whole_end - body_start);
        assert(rest == chars@.subrange(whole_end as int, to as int));
        let pointed = whole_end < to && chars[whole_end] == '.';
        let fraction_start: usize = if pointed {
            whole_end + 1
        } else {
            whole_end
        };
        proof {
            if whole_end < to {
                assert(rest[0] == chars@[whole_end as int]);
            }
        }
        let ghost fraction = if pointed {
            rest.skip(1)
        } else {
            rest
        };
        assert(fraction == chars@.subrange(fraction_start as int, to as int));
        let fraction_end = scan(chars, fraction_start, to, CharClass::Digit);
        if fraction_end < to || (whole_end - body_start) + (fraction_end - fraction_start) == 0 {
            return None;
        }
        assert(body.take(whole_end - body_start) == chars@.subrange(
            body_start as int,
            whole_end as int,
        ));
        proof {
            lemma_run_len_bounds(body, CharClass::Digit);
            lemma_run_len_bounds(fraction, CharClass::Digit);
            assert forall|j: int| body_start <= j < whole_end implies is_digit(
                #[trigger] chars@[j],
            ) by {
                assert(body[j - body_start] == chars@[j]);
            }
            assert forall|j: int| fraction_start <= j < to implies is_digit(
                #[trigger] chars@[j],
            ) by {
                assert(fraction[j - fraction_start] == chars@[j]);
            }
        }
        Some((negative, body_start, whole_end, fraction_start))
    }

    /// Reads the decimal literal in the stretch `from..to` of `chars`.
    pub(crate) fn parse_chars(chars: &Vec<char>, from: usize, to: usize) -> (t: Option<Temperature>)
        requires
            from <= to <= chars.len(),
        ensures
            match t {
                Some(t) => parse_spec(chars@.subrange(from as int, to as int)) == Some(t@),
                None => parse_spec(chars@.subrange(from as int, to as int)) is None,
            },
    {
        match Temperature::split_literal(chars, from, to) {
            Some((negative, whole_start, whole_end, fraction_start)) => {
                let whole = Temperature::read_whole(chars, whole_start, whole_end);
                let thousandths = Temperature::read_fraction(chars, fraction_start, to);
                Some(Temperature::from_magnitude(negative, whole * 1000 + thousandths))
            },
            None => None,
        }
    }

    /// Reads a decimal literal: an optional sign, digits, and an optional
    /// point with digits behind it. A value beyond the range of a temperature
    /// is held to the nearest end of it. `None` for every other text.
    pub fn parse(text: &str) -> (t: Option<Temperature>)
        ensures
            match t {
                Some(t) => parse_spec(text@) == Some(t@),
                None => parse_spec(text@) is None,
            },
    {
        let chars = to_chars(text);
        assert(chars@.subrange(0, chars@.len() as int) == chars@);
        Temperature::parse_chars(&chars, 0, chars.len())
    }
}

} // verus!
