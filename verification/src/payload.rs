//! The capability set that a numeric payload must supply to the expression
//! engine: arithmetic, equality, a textual rendering, and conversion from
//! small integers. `i64` implements it here; `SymbolicManip<T>` implements it
//! in `num`, so expressions themselves can serve as payloads.
use vstd::prelude::*;
use vstd::string::StringExecFns;

verus! {

/// The character for a single decimal digit.
pub open spec fn digit_char(d: int) -> char {
    if d == 0 {
        '0'
    } else if d == 1 {
        '1'
    } else if d == 2 {
        '2'
    } else if d == 3 {
        '3'
    } else if d == 4 {
        '4'
    } else if d == 5 {
        '5'
    } else if d == 6 {
        '6'
    } else if d == 7 {
        '7'
    } else if d == 8 {
        '8'
    } else {
        '9'
    }
}

/// Decimal rendering of a natural number, most significant digit first.
pub open spec fn dec_text(n: nat) -> Seq<char>
    decreases n,
{
    if n < 10 {
        seq![digit_char(n as int)]
    } else {
        dec_text(n / 10) + seq![digit_char((n % 10) as int)]
    }
}

/// Decimal rendering of an integer: a minus sign for negative values,
/// then the digits of the magnitude.
pub open spec fn int_text(v: int) -> Seq<char> {
    if v >= 0 {
        dec_text(v as nat)
    } else {
        seq!['-'] + dec_text((-v) as nat)
    }
}

fn digit_str(d: u64) -> (r: &'static str)
    requires
        d < 10,
    ensures
        r@ == seq![digit_char(d as int)],
{
    proof {
        reveal_strlit("0");
        reveal_strlit("1");
        reveal_strlit("2");
        reveal_strlit("3");
        reveal_strlit("4");
        reveal_strlit("5");
        reveal_strlit("6");
        reveal_strlit("7");
        reveal_strlit("8");
        reveal_strlit("9");
    }
    let r: &'static str = if d == 0 {
        "0"
    } else if d == 1 {
        "1"
    } else if d == 2 {
        "2"
    } else if d == 3 {
        "3"
    } else if d == 4 {
        "4"
    } else if d == 5 {
        "5"
    } else if d == 6 {
        "6"
    } else if d == 7 {
        "7"
    } else if d == 8 {
        "8"
    } else {
        "9"
    };
    proof {
        assert(r@ =~= seq![digit_char(d as int)]);
    }
    r
}

fn push_dec(n: u64, out: &mut String)
    ensures
        final(out)@ == old(out)@ + dec_text(n as nat),
    decreases n,
{
    if n < 10 {
        out.append(digit_str(n));
    } else {
        push_dec(n / 10, out);
        out.append(digit_str(n % 10));
    }
    proof {
        assert(out@ =~= old(out)@ + dec_text(n as nat));
    }
}

/// What the expression engine and the units wrapper ask of a payload type:
/// arithmetic, an equivalence used for structural comparison, a textual
/// rendering, duplication, and conversion from small integers (which
/// materializes the constants 0, 1 and -1).
///
/// The spec functions fix what each operation returns; the proof functions
/// are laws every implementation must establish: `eqv` is reflexive and
/// symmetric, equivalent values render alike, and the constants for 0 and 1
/// are distinguishable.
pub trait Numeric: Sized {
    /// The equivalence that structural comparison of expressions uses
    /// at `Number` leaves.
    spec fn eqv(&self, other: &Self) -> bool;

    /// The payload value a small integer converts to.
    spec fn of_int_spec(v: int) -> Self;

    /// The textual rendering of a value.
    spec fn text_spec(&self) -> Seq<char>;

    spec fn add_spec(self, other: Self) -> Self;

    spec fn sub_spec(self, other: Self) -> Self;

    spec fn mul_spec(self, other: Self) -> Self;

    spec fn div_spec(self, other: Self) -> Self;

    spec fn neg_spec(self) -> Self;

    proof fn lemma_eqv_refl(&self)
        ensures
            self.eqv(self),
    ;

    proof fn lemma_eqv_sym(&self, other: &Self)
        requires
            self.eqv(other),
        ensures
            other.eqv(self),
    ;

    proof fn lemma_eqv_text(&self, other: &Self)
        requires
            self.eqv(other),
        ensures
            self.text_spec() == other.text_spec(),
    ;

    proof fn lemma_zero_one_distinct()
        ensures
            !Self::of_int_spec(1).eqv(&Self::of_int_spec(0)),
    ;

    fn of_int(v: i32) -> (r: Self)
        ensures
            r == Self::of_int_spec(v as int),
    ;

    fn eq_value(&self, other: &Self) -> (r: bool)
        ensures
            r == self.eqv(other),
    ;

    fn clone_value(&self) -> (r: Self)
        ensures
            r == *self,
    ;

    fn text(&self) -> (r: String)
        ensures
            r@ == self.text_spec(),
    ;

    fn add_value(self, other: Self) -> (r: Self)
        ensures
            r == self.add_spec(other),
    ;

    fn sub_value(self, other: Self) -> (r: Self)
        ensures
            r == self.sub_spec(other),
    ;

    fn mul_value(self, other: Self) -> (r: Self)
        ensures
            r == self.mul_spec(other),
    ;

    fn div_value(self, other: Self) -> (r: Self)
        ensures
            r == self.div_spec(other),
    ;

    fn neg_value(self) -> (r: Self)
        ensures
            r == self.neg_spec(),
    ;
}

/// `i64` as a payload: wrapping arithmetic, division that is total (zero
/// divisor yields zero, and the one overflowing quotient wraps), and the
/// usual decimal rendering.
impl Numeric for i64 {
    open spec fn eqv(&self, other: &Self) -> bool {
        *self == *other
    }

    open spec fn of_int_spec(v: int) -> Self {
        v as i64
    }

    open spec fn text_spec(&self) -> Seq<char> {
        int_text(*self as int)
    }

    open spec fn add_spec(self, other: Self) -> Self {
        vstd::wrapping::i64_specs::wrapping_add(self, other)
    }

    open spec fn sub_spec(self, other: Self) -> Self {
        vstd::wrapping::i64_specs::wrapping_sub(self, other)
    }

    open spec fn mul_spec(self, other: Self) -> Self {
        vstd::wrapping::i64_specs::wrapping_mul(self, other)
    }

    open spec fn div_spec(self, other: Self) -> Self {
        match self.checked_div(other) {
            Some(q) => q,
            None => if other == 0 {
                0
            } else {
                i64::MIN
            },
        }
    }

    open spec fn neg_spec(self) -> Self {
        vstd::wrapping::i64_specs::wrapping_sub(0, self)
    }

    proof fn lemma_eqv_refl(&self) {
    }

    proof fn lemma_eqv_sym(&self, other: &Self) {
    }

    proof fn lemma_eqv_text(&self, other: &Self) {
    }

    proof fn lemma_zero_one_distinct() {
    }

    fn of_int(v: i32) -> (r: Self) {
        v as i64
    }

    fn eq_value(&self, other: &Self) -> (r: bool) {
        *self == *other
    }

    fn clone_value(&self) -> (r: Self) {
        *self
    }

    fn text(&self) -> (r: String) {
        let v: i64 = *self;
        let mut s = String::new();
        let m: u64 = if v >= 0 {
            v as u64
        } else if v == i64::MIN {
            9223372036854775808u64
        } else {
            (-v) as u64
        };
        if v < 0 {
            proof {
                reveal_strlit("-");
            }
            s.append("-");
            proof {
                assert(s@ =~= seq!['-']);
            }
        }
        push_dec(m, &mut s);
        proof {
            assert(s@ =~= int_text(v as int));
        }
        s
    }

    fn add_value(self, other: Self) -> (r: Self) {
        self.wrapping_add(other)
    }

    fn sub_value(self, other: Self) -> (r: Self) {
        self.wrapping_sub(other)
    }

    fn mul_value(self, other: Self) -> (r: Self) {
        self.wrapping_mul(other)
    }

    fn div_value(self, other: Self) -> (r: Self) {
        match self.checked_div(other) {
            Some(q) => q,
            None => if other == 0 {
                0
            } else {
                i64::MIN
            },
        }
    }

    fn neg_value(self) -> (r: Self) {
        0i64.wrapping_sub(self)
    }
}

/// Clamp an integer into i64 range.
pub open spec fn sat_i64(v: int) -> i64 {
    if v > i64::MAX {
        i64::MAX
    } else if v < i64::MIN {
        i64::MIN
    } else {
        v as i64
    }
}

/// Absolute value.
pub open spec fn abs_int(v: int) -> int {
    if v < 0 {
        -v
    } else {
        v
    }
}

/// Rendering of a tenths-scaled magnitude: the whole part, then a point and
/// the tenth digit only when that digit is not zero.
pub open spec fn tenths_text(m: nat) -> Seq<char> {
    if m % 10 == 0 {
        dec_text(m / 10)
    } else {
        dec_text(m / 10) + seq!['.'] + seq![digit_char((m % 10) as int)]
    }
}

fn abs_u64(v: i64) -> (r: u64)
    ensures
        r as int == abs_int(v as int),
{
    if v >= 0 {
        v as u64
    } else if v == i64::MIN {
        9223372036854775808u64
    } else {
        (-v) as u64
    }
}

/// A fixed-point number with one decimal place, counted in tenths. It is
/// the payload for values such as 9.8 that the demonstrations use, kept
/// exact instead of floating-point.
#[derive(Debug, PartialEq, Clone, Copy)]
pub struct DecimalValue {
    pub tenths: i64,
}

impl DecimalValue {
    /// The value holding the given number of tenths.
    pub fn from_tenths(t: i64) -> (r: Self)
        ensures
            r == (DecimalValue { tenths: t }),
    {
        DecimalValue { tenths: t }
    }

    /// The number of tenths the value holds.
    pub fn as_tenths(&self) -> (r: i64)
        ensures
            r == self.tenths,
    {
        self.tenths
    }
}

/// `DecimalValue` as a payload: saturating fixed-point arithmetic (division
/// by zero yields zero), and a rendering that shows the tenth digit only
/// when it is not zero.
impl Numeric for DecimalValue {
    open spec fn eqv(&self, other: &Self) -> bool {
        self.tenths == other.tenths
    }

    open spec fn of_int_spec(v: int) -> Self {
        DecimalValue { tenths: sat_i64(v * 10) }
    }

    open spec fn text_spec(&self) -> Seq<char> {
        if self.tenths >= 0 {
            tenths_text(self.tenths as nat)
        } else {
            seq!['-'] + tenths_text((-(self.tenths as int)) as nat)
        }
    }

    open spec fn add_spec(self, other: Self) -> Self {
        DecimalValue { tenths: sat_i64(self.tenths + other.tenths) }
    }

    open spec fn sub_spec(self, other: Self) -> Self {
        DecimalValue { tenths: sat_i64(self.tenths - other.tenths) }
    }

    open spec fn mul_spec(self, other: Self) -> Self {
        let q = (abs_int(self.tenths as int) * abs_int(other.tenths as int)) / 10;
        if (self.tenths < 0) != (other.tenths < 0) {
            DecimalValue { tenths: sat_i64(-q) }
        } else {
            DecimalValue { tenths: sat_i64(q) }
        }
    }

    open spec fn div_spec(self, other: Self) -> Self {
        if other.tenths == 0 {
            DecimalValue { tenths: 0 }
        } else {
            let q = (abs_int(self.tenths as int) * 10) / abs_int(other.tenths as int);
            if (self.tenths < 0) != (other.tenths < 0) {
                DecimalValue { tenths: sat_i64(-q) }
            } else {
                DecimalValue { tenths: sat_i64(q) }
            }
        }
    }

    open spec fn neg_spec(self) -> Self {
        DecimalValue { tenths: sat_i64(-self.tenths) }
    }

    proof fn lemma_eqv_refl(&self) {
    }

    proof fn lemma_eqv_sym(&self, other: &Self) {
    }

    proof fn lemma_eqv_text(&self, other: &Self) {
    }

    proof fn lemma_zero_one_distinct() {
    }

    fn of_int(v: i32) -> (r: Self) {
        DecimalValue { tenths: (v as i64) * 10 }
    }

    fn eq_value(&self, other: &Self) -> (r: bool) {
        self.tenths == other.tenths
    }

    fn clone_value(&self) -> (r: Self) {
        *self
    }

    fn text(&self) -> (r: String) {
        let t = self.tenths;
        let m: u64 = abs_u64(t);
        let mut s = String::new();
        if t < 0 {
            proof {
                reveal_strlit("-");
            }
            s.append("-");
            proof {
                assert(s@ =~= seq!['-']);
            }
        }
        push_dec(m / 10, &mut s);
        let frac: u64 = m % 10;
        if frac != 0 {
            proof {
                reveal_strlit(".");
            }
            s.append(".");
            s.append(digit_str(frac));
        }
        proof {
            assert(s@ =~= self.text_spec());
        }
        s
    }

    fn add_value(self, other: Self) -> (r: Self) {
        let s: i128 = self.tenths as i128 + other.tenths as i128;
        DecimalValue { tenths: clamp_i128(s) }
    }

    fn sub_value(self, other: Self) -> (r: Self) {
        let s: i128 = self.tenths as i128 - other.tenths as i128;
        DecimalValue { tenths: clamp_i128(s) }
    }

    fn mul_value(self, other: Self) -> (r: Self) {
        let ma: u128 = abs_u64(self.tenths) as u128;
        let mb: u128 = abs_u64(other.tenths) as u128;
        proof {
            assert(ma * mb < 0x100000000000000000000000000000000) by (nonlinear_arith)
                requires
                    ma < 0x10000000000000000,
                    mb < 0x10000000000000000,
            ;
        }
        let q: u128 = (ma * mb) / 10;
        let negative = (self.tenths < 0) != (other.tenths < 0);
        DecimalValue { tenths: signed_clamp(q, negative) }
    }

    fn div_value(self, other: Self) -> (r: Self) {
        if other.tenths == 0 {
            DecimalValue { tenths: 0 }
        } else {
            let ma: u128 = abs_u64(self.tenths) as u128 * 10;
            let mb: u128 = abs_u64(other.tenths) as u128;
            let q: u128 = ma / mb;
            let negative = (self.tenths < 0) != (other.tenths < 0);
            DecimalValue { tenths: signed_clamp(q, negative) }
        }
    }

    fn neg_value(self) -> (r: Self) {
        let s: i128 = -(self.tenths as i128);
        DecimalValue { tenths: clamp_i128(s) }
    }
}

fn clamp_i128(s: i128) -> (r: i64)
    ensures
        r == sat_i64(s as int),
{
    if s > i64::MAX as i128 {
        i64::MAX
    } else if s < i64::MIN as i128 {
        i64::MIN
    } else {
        s as i64
    }
}

fn signed_clamp(q: u128, negative: bool) -> (r: i64)
    ensures
        negative ==> r == sat_i64(-(q as int)),
        !negative ==> r == sat_i64(q as int),
{
    if negative {
        if q >= 9223372036854775808u128 {
            i64::MIN
        } else {
            -(q as i64)
        }
    } else {
        if q > i64::MAX as u128 {
            i64::MAX
        } else {
            q as i64
        }
    }
}

} // verus!
