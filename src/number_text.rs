use vstd::prelude::*;

use crate::number::{
    is_finite, unit_view, BasicNumberView, Number, NumberView, ScientificNumberView, NAN_BITS,
    NEG_INFINITY_BITS, POS_INFINITY_BITS,
};
use crate::text::{find_first, first_occurrence, same_text};

verus! {

pub open spec fn is_digit(c: char) -> bool {
    '0' <= c && c <= '9'
}

/// One or more decimal digits.
pub open spec fn all_digits(s: Seq<char>) -> bool {
    s.len() > 0 && forall|i: int| 0 <= i < s.len() ==> is_digit(#[trigger] s[i])
}

/// The value of a string of decimal digits.
pub open spec fn digits_value(s: Seq<char>) -> nat
    decreases s.len(),
{
    if s.len() == 0 {
        0
    } else {
        digits_value(s.drop_last()) * 10 + ((s.last() as u32 - '0' as u32) as nat)
    }
}

/// Digits, optionally followed by `.` and more digits.
pub open spec fn unsigned_decimal(s: Seq<char>) -> bool {
    match first_occurrence(s, seq!['.']) {
        None => all_digits(s),
        Some(k) => all_digits(s.subrange(0, k)) && all_digits(s.subrange(k + 1, s.len() as int)),
    }
}

/// An optionally signed decimal: `[+-]digits[.digits]`.
pub open spec fn decimal_grammar(s: Seq<char>) -> bool {
    if s.len() > 0 && (s[0] == '-' || s[0] == '+') {
        unsigned_decimal(s.subrange(1, s.len() as int))
    } else {
        unsigned_decimal(s)
    }
}

/// The exponent written by `s`, an optionally signed integer, when it fits in an `i32`.
pub open spec fn exponent_of(s: Seq<char>) -> Option<i32> {
    let negative = s.len() > 0 && s[0] == '-';
    let digits = if s.len() > 0 && (s[0] == '-' || s[0] == '+') {
        s.subrange(1, s.len() as int)
    } else {
        s
    };
    let value: int = if negative {
        -digits_value(digits)
    } else {
        digits_value(digits) as int
    };
    if all_digits(digits) && i32::MIN <= value && value <= i32::MAX {
        Some(value as i32)
    } else {
        None
    }
}

/// The magnitude of a number in the compact text form.
pub enum LiteralView {
    PosInf,
    NegInf,
    NaN,
    Decimal(Seq<char>),
    Scientific(Seq<char>, i32),
}

/// The magnitude part of the compact text form: `INF`, `-INF`, `NaN` with an
/// optional sign, a decimal, or a decimal mantissa, `e` and an exponent.
pub open spec fn literal_of(m: Seq<char>) -> Option<LiteralView> {
    if m == "INF"@ {
        Some(LiteralView::PosInf)
    } else if m == "-INF"@ {
        Some(LiteralView::NegInf)
    } else if m == "NaN"@ || m == "-NaN"@ || m == "+NaN"@ {
        Some(LiteralView::NaN)
    } else {
        match first_occurrence(m, seq!['e']) {
            None => {
                if decimal_grammar(m) {
                    Some(LiteralView::Decimal(m))
                } else {
                    None
                }
            },
            Some(k) => {
                let mantissa = m.subrange(0, k);
                match exponent_of(m.subrange(k + 1, m.len() as int)) {
                    Some(e) => {
                        if decimal_grammar(mantissa) {
                            Some(LiteralView::Scientific(mantissa, e))
                        } else {
                            None
                        }
                    },
                    None => None,
                }
            },
        }
    }
}

/// The compact text form `n:<magnitude>[ <unit>]`: the unit is all that
/// follows the first space and may not be empty.
pub open spec fn number_text(s: Seq<char>) -> Option<(LiteralView, Option<Seq<char>>)> {
    if s.len() < 2 || s[0] != 'n' || s[1] != ':' {
        None
    } else {
        let body = s.subrange(2, s.len() as int);
        let (magnitude, unit) = match first_occurrence(body, seq![' ']) {
            Some(k) => (body.subrange(0, k), Some(body.subrange(k + 1, body.len() as int))),
            None => (body, None),
        };
        if unit == Some(Seq::<char>::empty()) {
            None
        } else {
            match literal_of(magnitude) {
                Some(l) => Some((l, unit)),
                None => None,
            }
        }
    }
}

/// The magnitude of a number read from the compact text form. A decimal is
/// kept as its text.
#[derive(Clone, Debug, PartialEq)]
pub enum NumberLiteral {
    PosInf,
    NegInf,
    NaN,
    Decimal(String),
    Scientific(String, i32),
}

impl View for NumberLiteral {
    type V = LiteralView;

    open spec fn view(&self) -> LiteralView {
        match self {
            NumberLiteral::PosInf => LiteralView::PosInf,
            NumberLiteral::NegInf => LiteralView::NegInf,
            NumberLiteral::NaN => LiteralView::NaN,
            NumberLiteral::Decimal(d) => LiteralView::Decimal(d@),
            NumberLiteral::Scientific(d, e) => LiteralView::Scientific(d@, *e),
        }
    }
}

/// A number read from the compact text form, before its decimal text, if
/// any, is converted to a double.
#[derive(Clone, Debug, PartialEq)]
pub struct NumberText {
    pub magnitude: NumberLiteral,
    pub unit: Option<String>,
}

impl NumberText {
    /// The decimal text that still has to be converted to a double: the
    /// value, or the significand in scientific notation.
    pub fn mantissa(&self) -> (r: Option<&str>)
        ensures
            self.magnitude matches NumberLiteral::Decimal(d) ==> (r matches Some(t) && t@ == d@),
            self.magnitude matches NumberLiteral::Scientific(d, _) ==> (r matches Some(t) && t@
                == d@),
            !(self.magnitude is Decimal || self.magnitude is Scientific) ==> r is None,
    {
        match &self.magnitude {
            NumberLiteral::Decimal(d) => Some(d.as_str()),
            NumberLiteral::Scientific(d, _) => Some(d.as_str()),
            _ => None,
        }
    }

    /// Build the number, given the double that the mantissa's text converts
    /// to (not read for NaN and the infinities). There is none when a
    /// scientific notation significand is not finite.
    pub fn into_number(self, mantissa: u64) -> (r: Option<Number>)
        ensures
            ({
                let unit = unit_view(self.unit);
                match self.magnitude {
                    NumberLiteral::PosInf => r matches Some(n) && n@ == NumberView::Basic(
                        BasicNumberView { value: POS_INFINITY_BITS, unit },
                    ),
                    NumberLiteral::NegInf => r matches Some(n) && n@ == NumberView::Basic(
                        BasicNumberView { value: NEG_INFINITY_BITS, unit },
                    ),
                    NumberLiteral::NaN => r matches Some(n) && n@ == NumberView::Basic(
                        BasicNumberView { value: NAN_BITS, unit },
                    ),
                    NumberLiteral::Decimal(_) => r matches Some(n) && n@ == NumberView::Basic(
                        BasicNumberView { value: mantissa, unit },
                    ),
                    NumberLiteral::Scientific(_, e) => if is_finite(mantissa) {
                        r matches Some(n) && n@ == NumberView::Scientific(
                            ScientificNumberView { significand: mantissa, exponent: e, unit },
                        )
                    } else {
                        r is None
                    },
                }
            }),
    {
        match self.magnitude {
            NumberLiteral::PosInf => Some(Number::new(POS_INFINITY_BITS, self.unit)),
            NumberLiteral::NegInf => Some(Number::new(NEG_INFINITY_BITS, self.unit)),
            NumberLiteral::NaN => Some(Number::new(NAN_BITS, self.unit)),
            NumberLiteral::Decimal(_) => Some(Number::new(mantissa, self.unit)),
            NumberLiteral::Scientific(_, e) => Number::new_scientific(mantissa, e, self.unit),
        }
    }
}

/// An error indicating that a number could not be read from its compact
/// text form; it holds the whole input.
#[derive(Clone, Debug, Eq, PartialEq)]
pub struct ParseNumberError {
    unparsable_number: String,
}

impl View for ParseNumberError {
    type V = Seq<char>;

    /// The text that could not be parsed.
    closed spec fn view(&self) -> Seq<char> {
        self.unparsable_number@
    }
}

impl ParseNumberError {
    /// An error for the text `s`.
    pub fn new(s: String) -> (r: Self)
        ensures
            r@ == s@,
    {
        ParseNumberError { unparsable_number: s }
    }

    /// A message naming the text that could not be parsed.
    pub fn to_string(&self) -> (r: String)
        ensures
            r@ == "Could not parse a Number from the string "@ + self@,
    {
        let mut r = String::from_str("Could not parse a Number from the string ");
        r.append(self.unparsable_number.as_str());
        r
    }
}

fn is_digit_char(c: char) -> (r: bool)
    ensures
        r == is_digit(c),
{
    '0' <= c && c <= '9'
}

fn all_digits_text(s: &str) -> (r: bool)
    ensures
        r == all_digits(s@),
{
    let len = s.unicode_len();
    if len == 0 {
        return false;
    }
    let mut i: usize = 0;
    while i < len
        invariant
            len == s@.len(),
            i <= len,
            forall|k: int| 0 <= k < i ==> is_digit(#[trigger] s@[k]),
        decreases len - i,
    {
        if !is_digit_char(s.get_char(i)) {
            return false;
        }
        i = i + 1;
    }
    true
}

fn is_unsigned_decimal(s: &str) -> (r: bool)
    ensures
        r == unsigned_decimal(s@),
{
    proof {
        reveal_strlit(".");
        assert("."@ =~= seq!['.']);
    }
    match find_first(s, ".") {
        None => all_digits_text(s),
        Some(k) => {
            let len = s.unicode_len();
            all_digits_text(s.substring_char(0, k)) && all_digits_text(s.substring_char(k + 1, len))
        },
    }
}

fn is_decimal(s: &str) -> (r: bool)
    ensures
        r == decimal_grammar(s@),
{
    let len = s.unicode_len();
    if len > 0 && (s.get_char(0) == '-' || s.get_char(0) == '+') {
        is_unsigned_decimal(s.substring_char(1, len))
    } else {
        is_unsigned_decimal(s)
    }
}

proof fn lemma_digits_value_grows(s: Seq<char>, i: int, j: int)
    requires
        0 <= i <= j <= s.len(),
        forall|k: int| 0 <= k < j ==> is_digit(#[trigger] s[k]),
    ensures
        digits_value(s.subrange(0, i)) <= digits_value(s.subrange(0, j)),
    decreases j - i,
{
    if i < j {
        lemma_digits_value_grows(s, i, j - 1);
        assert(s.subrange(0, j).drop_last() =~= s.subrange(0, j - 1));
    }
}

/// Parse an optionally signed integer exponent that fits in an `i32`.
fn parse_exponent(s: &str) -> (r: Option<i32>)
    ensures
        r == exponent_of(s@),
{
    let len = s.unicode_len();
    let negative = len > 0 && s.get_char(0) == '-';
    let digits = if len > 0 && (s.get_char(0) == '-' || s.get_char(0) == '+') {
        s.substring_char(1, len)
    } else {
        s
    };
    let n = digits.unicode_len();
    if n == 0 {
        return None;
    }
    let mut acc: u64 = 0;
    let mut i: usize = 0;
    while i < n
        invariant
            digits@ == (if s@.len() > 0 && (s@[0] == '-' || s@[0] == '+') {
                s@.subrange(1, s@.len() as int)
            } else {
                s@
            }),
            negative == (s@.len() > 0 && s@[0] == '-'),
            n == digits@.len(),
            i <= n,
            acc == digits_value(digits@.subrange(0, i as int)),
            acc <= 2147483648,
            forall|k: int| 0 <= k < i ==> is_digit(#[trigger] digits@[k]),
        decreases n - i,
    {
        let c = digits.get_char(i);
        if !is_digit_char(c) {
            assert(!is_digit(digits@[i as int]));
            return None;
        }
        proof {
            assert(digits@.subrange(0, i + 1).drop_last() =~= digits@.subrange(0, i as int));
        }
        acc = acc * 10 + (c as u32 - '0' as u32) as u64;
        i = i + 1;
        if acc > 2147483648 {
            proof {
                if all_digits(digits@) {
                    lemma_digits_value_grows(digits@, i as int, n as int);
                    assert(digits@.subrange(0, n as int) =~= digits@);
                    assert(digits_value(digits@) > 2147483648);
                }
            }
            return None;
        }
    }
    proof {
        assert(digits@.subrange(0, n as int) =~= digits@);
    }
    if negative {
        Some((0i64 - acc as i64) as i32)
    } else if acc <= 2147483647 {
        Some(acc as i32)
    } else {
        None
    }
}

fn parse_literal(m: &str) -> (r: Option<NumberLiteral>)
    ensures
        match r {
            Some(l) => literal_of(m@) == Some(l@),
            None => literal_of(m@) is None,
        },
{
    if same_text(m, "INF") {
        return Some(NumberLiteral::PosInf);
    }
    if same_text(m, "-INF") {
        return Some(NumberLiteral::NegInf);
    }
    if same_text(m, "NaN") || same_text(m, "-NaN") || same_text(m, "+NaN") {
        return Some(NumberLiteral::NaN);
    }
    proof {
        reveal_strlit("e");
        assert("e"@ =~= seq!['e']);
    }
    match find_first(m, "e") {
        None => {
            if is_decimal(m) {
                Some(NumberLiteral::Decimal(m.to_owned()))
            } else {
                None
            }
        },
        Some(k) => {
            let len = m.unicode_len();
            let mantissa = m.substring_char(0, k);
            match parse_exponent(m.substring_char(k + 1, len)) {
                Some(e) => {
                    if is_decimal(mantissa) {
                        Some(NumberLiteral::Scientific(mantissa.to_owned(), e))
                    } else {
                        None
                    }
                },
                None => None,
            }
        },
    }
}

/// Read a number from its compact text form `n:<magnitude>[ <unit>]`, where
/// the magnitude is `INF`, `-INF`, `NaN` (a sign before it is accepted and
/// dropped), an optionally signed decimal, or such a decimal followed by `e`
/// and an exponent. Anything else fails with the input.
pub fn parse_number_text(s: &str) -> (r: Result<NumberText, ParseNumberError>)
    ensures
        match r {
            Ok(t) => number_text(s@) == Some((t.magnitude@, unit_view(t.unit))),
            Err(e) => number_text(s@) is None && e@ == s@,
        },
{
    let len = s.unicode_len();
    if len < 2 || s.get_char(0) != 'n' || s.get_char(1) != ':' {
        return Err(ParseNumberError { unparsable_number: s.to_owned() });
    }
    let body = s.substring_char(2, len);
    let body_len = body.unicode_len();
    proof {
        reveal_strlit(" ");
        assert(" "@ =~= seq![' ']);
    }
    let (magnitude, unit) = match find_first(body, " ") {
        Some(k) => (body.substring_char(0, k), Some(body.substring_char(k + 1, body_len))),
        None => (body, None),
    };
    if let Some(u) = unit {
        if u.unicode_len() == 0 {
            assert(u@ =~= Seq::<char>::empty());
            return Err(ParseNumberError { unparsable_number: s.to_owned() });
        }
    }
    match parse_literal(magnitude) {
        Some(l) => {
            let unit = match unit {
                Some(u) => Some(u.to_owned()),
                None => None,
            };
            Ok(NumberText { magnitude: l, unit })
        },
        None => Err(ParseNumberError { unparsable_number: s.to_owned() }),
    }
}

} // verus!
