use vstd::prelude::*;

verus! {

// Doubles are held by their IEEE-754 binary64 bit patterns.

/// The bits of positive infinity.
pub const POS_INFINITY_BITS: u64 = 0x7ff0_0000_0000_0000;

/// The bits of negative infinity.
pub const NEG_INFINITY_BITS: u64 = 0xfff0_0000_0000_0000;

/// The bits of the quiet NaN that `f64::NAN` holds.
pub const NAN_BITS: u64 = 0x7ff8_0000_0000_0000;

pub open spec fn biased_exponent(bits: u64) -> u64 {
    (bits >> 52u64) & 0x7ffu64
}

pub open spec fn fraction(bits: u64) -> u64 {
    bits & 0xf_ffff_ffff_ffffu64
}

/// A NaN: all exponent bits set and a fraction other than zero.
pub open spec fn is_nan(bits: u64) -> bool {
    biased_exponent(bits) == 0x7ffu64 && fraction(bits) != 0
}

/// Neither infinite nor NaN: not all exponent bits set.
pub open spec fn is_finite(bits: u64) -> bool {
    biased_exponent(bits) != 0x7ffu64
}

/// A double is finite exactly when it is neither NaN nor one of the two infinities.
pub proof fn lemma_finite_classification(bits: u64)
    ensures
        is_finite(bits) <==> !is_nan(bits) && bits != POS_INFINITY_BITS && bits
            != NEG_INFINITY_BITS,
        is_nan(NAN_BITS),
        !is_finite(POS_INFINITY_BITS),
        !is_finite(NEG_INFINITY_BITS),
        !is_nan(POS_INFINITY_BITS),
        !is_nan(NEG_INFINITY_BITS),
{
    assert(((bits >> 52u64) & 0x7ffu64 != 0x7ffu64) <==> !((bits >> 52u64) & 0x7ffu64
        == 0x7ffu64 && bits & 0xf_ffff_ffff_ffffu64 != 0) && bits != 0x7ff0_0000_0000_0000u64
        && bits != 0xfff0_0000_0000_0000u64) by (bit_vector);
    assert((0x7ff8_0000_0000_0000u64 >> 52u64) & 0x7ffu64 == 0x7ffu64) by (bit_vector);
    assert(0x7ff8_0000_0000_0000u64 & 0xf_ffff_ffff_ffffu64 != 0) by (bit_vector);
    assert((0x7ff0_0000_0000_0000u64 >> 52u64) & 0x7ffu64 == 0x7ffu64) by (bit_vector);
    assert((0xfff0_0000_0000_0000u64 >> 52u64) & 0x7ffu64 == 0x7ffu64) by (bit_vector);
    assert(0x7ff0_0000_0000_0000u64 & 0xf_ffff_ffff_ffffu64 == 0) by (bit_vector);
    assert(0xfff0_0000_0000_0000u64 & 0xf_ffff_ffff_ffffu64 == 0) by (bit_vector);
}

/// Whether the double with these bits is NaN.
pub fn double_is_nan(bits: u64) -> (r: bool)
    ensures
        r == is_nan(bits),
{
    (bits >> 52u64) & 0x7ffu64 == 0x7ffu64 && bits & 0xf_ffff_ffff_ffffu64 != 0
}

/// Whether the double with these bits is finite.
pub fn double_is_finite(bits: u64) -> (r: bool)
    ensures
        r == is_finite(bits),
{
    (bits >> 52u64) & 0x7ffu64 != 0x7ffu64
}

pub open spec fn unit_view(unit: Option<String>) -> Option<Seq<char>> {
    match unit {
        Some(u) => Some(u@),
        None => None,
    }
}

pub open spec fn text_view(text: Option<&str>) -> Option<Seq<char>> {
    match text {
        Some(u) => Some(u@),
        None => None,
    }
}

fn unit_as_str(unit: &Option<String>) -> (r: Option<&str>)
    ensures
        text_view(r) == unit_view(*unit),
{
    match unit {
        Some(u) => Some(u.as_str()),
        None => None,
    }
}

// Decimal text of integers.

pub open spec fn digit_char(d: nat) -> char
    recommends
        d < 10,
{
    ((d + '0' as nat) as u32) as char
}

/// The decimal digits of `n`, without leading zeros.
pub open spec fn nat_text(n: nat) -> Seq<char>
    decreases n,
{
    if n < 10 {
        seq![digit_char(n)]
    } else {
        nat_text(n / 10).push(digit_char(n % 10))
    }
}

/// The decimal text of `i`: `-` before the digits when it is negative.
pub open spec fn int_text(i: int) -> Seq<char> {
    if i < 0 {
        seq!['-'] + nat_text((-i) as nat)
    } else {
        nat_text(i as nat)
    }
}

fn digit_str(d: u64) -> (r: &'static str)
    requires
        d < 10,
    ensures
        r@ == seq![digit_char(d as nat)],
{
    proof {
        reveal_strlit("0");
        reveal_strlit("1");
        reveal_strlit("2");
        reveal_strlit("3");
        reveal_strlit("4");
        reveal_strlit("5");
        reveal_strlit("6");
        reveal_strlit("7");
        reveal_strlit("8");
        reveal_strlit("9");
    }
    let r = if d == 0 {
        "0"
    } else if d == 1 {
        "1"
    } else if d == 2 {
        "2"
    } else if d == 3 {
        "3"
    } else if d == 4 {
        "4"
    } else if d == 5 {
        "5"
    } else if d == 6 {
        "6"
    } else if d == 7 {
        "7"
    } else if d == 8 {
        "8"
    } else {
        "9"
    };
    assert(r@ =~= seq![digit_char(d as nat)]);
    r
}

fn append_digits(out: &mut String, n: u64)
    ensures
        final(out)@ == old(out)@ + nat_text(n as nat),
    decreases n,
{
    if n >= 10 {
        append_digits(out, n / 10);
    }
    out.append(digit_str(n % 10));
    proof {
        if n >= 10 {
            assert(nat_text(n as nat) == nat_text((n / 10) as nat).push(digit_char((n % 10) as nat)));
        }
    }
    assert(final(out)@ =~= old(out)@ + nat_text(n as nat));
}

/// Append the decimal text of `i` to `out`.
pub fn append_int(out: &mut String, i: i32)
    ensures
        final(out)@ == old(out)@ + int_text(i as int),
{
    if i < 0 {
        proof {
            reveal_strlit("-");
        }
        out.append("-");
        let magnitude: u64 = (0i64 - i as i64) as u64;
        append_digits(out, magnitude);
        assert(final(out)@ =~= old(out)@ + int_text(i as int));
    } else {
        append_digits(out, i as u64);
    }
}

/// The value and the unit of a `BasicNumber`.
pub struct BasicNumberView {
    pub value: u64,
    pub unit: Option<Seq<char>>,
}

/// The significand, the exponent and the unit of a `ScientificNumber`.
pub struct ScientificNumberView {
    pub significand: u64,
    pub exponent: i32,
    pub unit: Option<Seq<char>>,
}

pub enum NumberView {
    Basic(BasicNumberView),
    Scientific(ScientificNumberView),
}

impl NumberView {
    pub open spec fn unit(self) -> Option<Seq<char>> {
        match self {
            NumberView::Basic(b) => b.unit,
            NumberView::Scientific(s) => s.unit,
        }
    }
}

/// The Axon code of a plain number, given the decimal text of its value.
pub open spec fn basic_axon_code(n: BasicNumberView, decimal: Seq<char>) -> Seq<char> {
    match n.unit {
        Some(u) => {
            if is_nan(n.value) {
                "nan().as(\""@ + u + "\")"@
            } else if n.value == POS_INFINITY_BITS {
                "posInf().as(\""@ + u + "\")"@
            } else if n.value == NEG_INFINITY_BITS {
                "negInf().as(\""@ + u + "\")"@
            } else {
                decimal + u
            }
        },
        None => {
            if is_nan(n.value) {
                "nan()"@
            } else if n.value == POS_INFINITY_BITS {
                "posInf()"@
            } else if n.value == NEG_INFINITY_BITS {
                "negInf()"@
            } else {
                decimal
            }
        },
    }
}

/// The display text of a plain number, given the decimal text of its value.
pub open spec fn basic_display(n: BasicNumberView, decimal: Seq<char>) -> Seq<char> {
    let magnitude = if is_nan(n.value) {
        "NaN"@
    } else if n.value == POS_INFINITY_BITS {
        "INF"@
    } else if n.value == NEG_INFINITY_BITS {
        "-INF"@
    } else {
        decimal
    };
    match n.unit {
        Some(u) => magnitude + " "@ + u,
        None => magnitude,
    }
}

/// The Axon code of a scientific notation number, given the decimal text of
/// its significand: `<significand>e<exponent><unit>`.
pub open spec fn scientific_axon_code(n: ScientificNumberView, decimal: Seq<char>) -> Seq<char> {
    let mantissa = decimal + "e"@ + int_text(n.exponent as int);
    match n.unit {
        Some(u) => mantissa + u,
        None => mantissa,
    }
}

/// The display text of a scientific notation number, given the decimal text
/// of its significand: `<significand>e<exponent> <unit>`.
pub open spec fn scientific_display(n: ScientificNumberView, decimal: Seq<char>) -> Seq<char> {
    let mantissa = decimal + "e"@ + int_text(n.exponent as int);
    match n.unit {
        Some(u) => mantissa + " "@ + u,
        None => mantissa,
    }
}

pub open spec fn axon_code(n: NumberView, decimal: Seq<char>) -> Seq<char> {
    match n {
        NumberView::Basic(b) => basic_axon_code(b, decimal),
        NumberView::Scientific(s) => scientific_axon_code(s, decimal),
    }
}

pub open spec fn display(n: NumberView, decimal: Seq<char>) -> Seq<char> {
    match n {
        NumberView::Basic(b) => basic_display(b, decimal),
        NumberView::Scientific(s) => scientific_display(s, decimal),
    }
}

/// A Haystack number: a plain value or one in scientific notation, with an
/// optional unit.
#[derive(Clone, Debug, PartialEq)]
pub enum Number {
    Basic(BasicNumber),
    Scientific(ScientificNumber),
}

impl View for Number {
    type V = NumberView;

    open spec fn view(&self) -> NumberView {
        match self {
            Number::Basic(b) => NumberView::Basic(b@),
            Number::Scientific(s) => NumberView::Scientific(s@),
        }
    }
}

impl Number {
    /// Create a new plain `Number` from the bits of a double. Any double is
    /// accepted, NaN and the infinities included. If present, the unit should
    /// be a valid unit string from Project Haystack's unit database.
    pub fn new(value: u64, unit: Option<String>) -> (r: Self)
        ensures
            r@ == NumberView::Basic(BasicNumberView { value, unit: unit_view(unit) }),
    {
        Number::Basic(BasicNumber::new(value, unit))
    }

    /// Create a new plain `Number` with no unit.
    pub fn new_unitless(value: u64) -> (r: Self)
        ensures
            r@ == NumberView::Basic(BasicNumberView { value, unit: None }),
    {
        Self::new(value, None)
    }

    /// Create a new scientific notation `Number`. There is none when the
    /// significand is NaN or infinite.
    pub fn new_scientific(significand: u64, exponent: i32, unit: Option<String>) -> (r: Option<
        Self,
    >)
        ensures
            is_finite(significand) ==> (r matches Some(n) && n@ == NumberView::Scientific(
                ScientificNumberView { significand, exponent, unit: unit_view(unit) },
            )),
            !is_finite(significand) ==> r is None,
    {
        match ScientificNumber::new(significand, exponent, unit) {
            Some(s) => Some(Number::Scientific(s)),
            None => None,
        }
    }

    /// Create a new scientific notation `Number` with no unit.
    pub fn new_scientific_unitless(significand: u64, exponent: i32) -> (r: Option<Self>)
        ensures
            is_finite(significand) ==> (r matches Some(n) && n@ == NumberView::Scientific(
                ScientificNumberView { significand, exponent, unit: None },
            )),
            !is_finite(significand) ==> r is None,
    {
        Self::new_scientific(significand, exponent, None)
    }

    /// If this represents a non-scientific notation number, return the number.
    pub fn as_number(&self) -> (r: Option<&BasicNumber>)
        ensures
            self@ matches NumberView::Basic(b) ==> (r matches Some(x) && x@ == b),
            self@ is Scientific ==> r is None,
    {
        match self {
            Number::Basic(number) => Some(number),
            _ => None,
        }
    }

    /// If this represents a number in scientific notation, return it.
    pub fn as_scientific_number(&self) -> (r: Option<&ScientificNumber>)
        ensures
            self@ matches NumberView::Scientific(s) ==> (r matches Some(x) && x@ == s),
            self@ is Basic ==> r is None,
    {
        match self {
            Number::Scientific(ex) => Some(ex),
            _ => None,
        }
    }

    /// Return the unit component of this `Number`, if present.
    pub fn unit(&self) -> (r: Option<&str>)
        ensures
            text_view(r) == self@.unit(),
    {
        match self {
            Number::Basic(num) => num.unit(),
            Number::Scientific(ex) => ex.unit(),
        }
    }

    /// Axon code for this number. `decimal` is the decimal text of the value,
    /// or of the significand in scientific notation, as `{}` formats a double;
    /// it is not read for NaN and the infinities.
    pub fn to_axon_code(&self, decimal: &str) -> (r: String)
        ensures
            r@ == axon_code(self@, decimal@),
    {
        match self {
            Number::Basic(num) => num.to_axon_code(decimal),
            Number::Scientific(ex) => ex.to_axon_code(decimal),
        }
    }

    /// The display text of this number, with `decimal` as in `to_axon_code`.
    pub fn to_display_string(&self, decimal: &str) -> (r: String)
        ensures
            r@ == display(self@, decimal@),
    {
        match self {
            Number::Basic(num) => num.to_display_string(decimal),
            Number::Scientific(ex) => ex.to_display_string(decimal),
        }
    }
}

/// A plain Haystack number: a double, held by its bits, and an optional unit.
#[derive(Clone, Debug, PartialEq)]
pub struct BasicNumber {
    value: u64,
    unit: Option<String>,
}

impl View for BasicNumber {
    type V = BasicNumberView;

    closed spec fn view(&self) -> BasicNumberView {
        BasicNumberView { value: self.value, unit: unit_view(self.unit) }
    }
}

impl BasicNumber {
    /// Create a new `BasicNumber` from the bits of a double.
    pub fn new(value: u64, unit: Option<String>) -> (r: Self)
        ensures
            r@ == (BasicNumberView { value, unit: unit_view(unit) }),
    {
        BasicNumber { value, unit }
    }

    /// Create a new `BasicNumber` with no unit.
    pub fn new_unitless(value: u64) -> (r: Self)
        ensures
            r@ == (BasicNumberView { value, unit: None }),
    {
        Self::new(value, None)
    }

    /// The bits of the numeric component of this number.
    pub fn value(&self) -> (r: u64)
        ensures
            r == self@.value,
    {
        self.value
    }

    /// Return the unit component of this number, if present.
    pub fn unit(&self) -> (r: Option<&str>)
        ensures
            text_view(r) == self@.unit,
    {
        unit_as_str(&self.unit)
    }

    /// Axon code for this number, with `decimal` the decimal text of its value.
    pub fn to_axon_code(&self, decimal: &str) -> (r: String)
        ensures
            r@ == basic_axon_code(self@, decimal@),
    {
        let value = self.value;
        match &self.unit {
            Some(unit) => {
                let mut r = if double_is_nan(value) {
                    String::from_str("nan().as(\"")
                } else if value == POS_INFINITY_BITS {
                    String::from_str("posInf().as(\"")
                } else if value == NEG_INFINITY_BITS {
                    String::from_str("negInf().as(\"")
                } else {
                    let mut r = String::from_str(decimal);
                    r.append(unit.as_str());
                    return r;
                };
                r.append(unit.as_str());
                r.append("\")");
                r
            },
            None => {
                if double_is_nan(value) {
                    String::from_str("nan()")
                } else if value == POS_INFINITY_BITS {
                    String::from_str("posInf()")
                } else if value == NEG_INFINITY_BITS {
                    String::from_str("negInf()")
                } else {
                    String::from_str(decimal)
                }
            },
        }
    }

    /// The display text of this number, with `decimal` the decimal text of its value.
    pub fn to_display_string(&self, decimal: &str) -> (r: String)
        ensures
            r@ == basic_display(self@, decimal@),
    {
        let value = self.value;
        let mut r = if double_is_nan(value) {
            String::from_str("NaN")
        } else if value == POS_INFINITY_BITS {
            String::from_str("INF")
        } else if value == NEG_INFINITY_BITS {
            String::from_str("-INF")
        } else {
            String::from_str(decimal)
        };
        if let Some(unit) = &self.unit {
            r.append(" ");
            r.append(unit.as_str());
        }
        r
    }
}

/// A Haystack number in scientific notation: a finite significand, held by
/// its bits, a power of ten and an optional unit.
#[derive(Debug, PartialEq)]
pub struct ScientificNumber {
    significand: u64,
    exponent: i32,
    unit: Option<String>,
}

impl Clone for ScientificNumber {
    fn clone(&self) -> (r: Self)
        ensures
            r@ == self@,
    {
        proof {
            use_type_invariant(self);
        }
        let unit = match &self.unit {
            Some(u) => Some(u.clone()),
            None => None,
        };
        ScientificNumber { significand: self.significand, exponent: self.exponent, unit }
    }
}

impl View for ScientificNumber {
    type V = ScientificNumberView;

    closed spec fn view(&self) -> ScientificNumberView {
        ScientificNumberView {
            significand: self.significand,
            exponent: self.exponent,
            unit: unit_view(self.unit),
        }
    }
}

impl ScientificNumber {
    #[verifier::type_invariant]
    closed spec fn well_formed(self) -> bool {
        is_finite(self.significand)
    }

    /// Create a new `ScientificNumber`; there is none when the significand is
    /// NaN or infinite.
    pub fn new(significand: u64, exponent: i32, unit: Option<String>) -> (r: Option<Self>)
        ensures
            is_finite(significand) ==> (r matches Some(n) && n@ == (ScientificNumberView {
                significand,
                exponent,
                unit: unit_view(unit),
            })),
            !is_finite(significand) ==> r is None,
    {
        if double_is_finite(significand) {
            Some(ScientificNumber { significand, exponent, unit })
        } else {
            None
        }
    }

    /// Create a new `ScientificNumber` with no unit.
    pub fn new_unitless(significand: u64, exponent: i32) -> (r: Option<Self>)
        ensures
            is_finite(significand) ==> (r matches Some(n) && n@ == (ScientificNumberView {
                significand,
                exponent,
                unit: None,
            })),
            !is_finite(significand) ==> r is None,
    {
        Self::new(significand, exponent, None)
    }

    /// The bits of the significand; it is always finite.
    pub fn significand(&self) -> (r: u64)
        ensures
            r == self@.significand,
            is_finite(r),
    {
        proof {
            use_type_invariant(self);
        }
        self.significand
    }

    /// The power of ten.
    pub fn exponent(&self) -> (r: i32)
        ensures
            r == self@.exponent,
    {
        self.exponent
    }

    /// Return the unit component of this number, if present.
    pub fn unit(&self) -> (r: Option<&str>)
        ensures
            text_view(r) == self@.unit,
    {
        unit_as_str(&self.unit)
    }

    /// Axon code for this number, with `decimal` the decimal text of its significand.
    pub fn to_axon_code(&self, decimal: &str) -> (r: String)
        ensures
            r@ == scientific_axon_code(self@, decimal@),
    {
        let mut r = String::from_str(decimal);
        r.append("e");
        append_int(&mut r, self.exponent);
        if let Some(unit) = &self.unit {
            r.append(unit.as_str());
        }
        r
    }

    /// The display text of this number, with `decimal` the decimal text of its significand.
    pub fn to_display_string(&self, decimal: &str) -> (r: String)
        ensures
            r@ == scientific_display(self@, decimal@),
    {
        let mut r = String::from_str(decimal);
        r.append("e");
        append_int(&mut r, self.exponent);
        if let Some(unit) = &self.unit {
            r.append(" ");
            r.append(unit.as_str());
        }
        r
    }
}

} // verus!
