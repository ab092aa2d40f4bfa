use rust_decimal::Decimal;
use vstd::prelude::*;

verus! {

/// A decimal holds a 96-bit mantissa: its magnitude stays below this bound.
pub open spec fn mantissa_bound() -> int {
    0x1_0000_0000_0000_0000_0000_0000
}

/// The largest number of digits after the decimal point.
pub const MAX_SCALE: u32 = 28;

/// Ten to the power `n`.
pub open spec fn pow10(n: nat) -> int
    decreases n,
{
    if n == 0 {
        1
    } else {
        10 * pow10((n - 1) as nat)
    }
}

/// What an `Amount` holds: the value `mantissa / 10^scale`, and the sign bit, which a
/// zero may carry too. A `-0` has the bit set but is not below zero: that goes by the
/// mantissa alone.
pub struct AmountView {
    pub mantissa: int,
    pub scale: nat,
    pub negative: bool,
}

impl AmountView {
    pub open spec fn wf(self) -> bool {
        &&& -mantissa_bound() < self.mantissa < mantissa_bound()
        &&& self.scale <= MAX_SCALE
        &&& self.mantissa < 0 ==> self.negative
        &&& self.mantissa > 0 ==> !self.negative
    }

    /// The exact value, counted in steps of `10^-28`, the finest step a decimal has.
    pub open spec fn units(self) -> int {
        self.mantissa * pow10((MAX_SCALE - self.scale) as nat)
    }

    /// The mantissa rewritten at a scale `s` no smaller than the amount's own.
    pub open spec fn aligned(self, s: nat) -> int {
        self.mantissa * pow10((s - self.scale) as nat)
    }
}

/// The larger of two scales: where the exact sum or difference of two amounts is written.
pub open spec fn common_scale(a: AmountView, b: AmountView) -> nat {
    if a.scale >= b.scale {
        a.scale
    } else {
        b.scale
    }
}

/// The exact sum of two amounts can be written as a decimal without rounding: one of
/// them is zero, or the sum has a 96-bit mantissa at their common scale.
pub open spec fn sum_fits(a: AmountView, b: AmountView) -> bool {
    let s = common_scale(a, b);
    ||| a.mantissa == 0
    ||| b.mantissa == 0
    ||| -mantissa_bound() < a.aligned(s) + b.aligned(s) < mantissa_bound()
}

/// The exact difference of two amounts can be written as a decimal without rounding:
/// one of them is zero, or the difference has a 96-bit mantissa at their common scale.
pub open spec fn difference_fits(a: AmountView, b: AmountView) -> bool {
    let s = common_scale(a, b);
    ||| a.mantissa == 0
    ||| b.mantissa == 0
    ||| -mantissa_bound() < a.aligned(s) - b.aligned(s) < mantissa_bound()
}

/// An exact decimal amount of money, in the shape of a 96-bit decimal: a signed
/// mantissa, a scale of at most 28 digits and a sign bit.
#[derive(Clone, Copy, Debug, PartialEq, Eq, Hash)]
pub struct Amount {
    mantissa: i128,
    scale: u32,
    negative: bool,
}

impl View for Amount {
    type V = AmountView;

    closed spec fn view(&self) -> AmountView {
        AmountView { mantissa: self.mantissa as int, scale: self.scale as nat, negative: self.negative }
    }
}

/// Ten to the power `k`, for the scales a decimal can have.
fn pow10_exec(k: u32) -> (r: i128)
    requires
        k <= MAX_SCALE,
    ensures
        r == pow10(k as nat),
        1 <= r <= pow10(MAX_SCALE as nat),
{
    let mut r: i128 = 1;
    let mut i: u32 = 0;
    while i < k
        invariant
            i <= k <= MAX_SCALE,
            r == pow10(i as nat),
            1 <= r <= pow10(i as nat),
        decreases k - i,
    {
        proof {
            lemma_pow10_monotone(i as nat, MAX_SCALE as nat);
            lemma_pow10_max_fits();
        }
        r = r * 10;
        i = i + 1;
    }
    proof {
        lemma_pow10_monotone(k as nat, MAX_SCALE as nat);
    }
    r
}

proof fn lemma_pow10_monotone(i: nat, j: nat)
    requires
        i <= j,
    ensures
        1 <= pow10(i) <= pow10(j),
    decreases j,
{
    if j > 0 {
        if i < j {
            lemma_pow10_monotone(i, (j - 1) as nat);
        } else {
            lemma_pow10_monotone(0, (j - 1) as nat);
        }
    }
}

proof fn lemma_pow10_max_fits()
    ensures
        pow10(MAX_SCALE as nat) * 10 < 0x7fff_ffff_ffff_ffff_ffff_ffff_ffff_ffff,
{
    reveal_with_fuel(pow10, 29);
    assert(pow10(MAX_SCALE as nat) == 10_000_000_000_000_000_000_000_000_000int);
}

/// Relies on rust_decimal's `Decimal::checked_add`: where one operand is zero the other
/// comes back; otherwise the sum is exact whenever it has a 96-bit mantissa at the
/// larger of the two scales. A result is never written at a scale above that one.
#[verifier::external_body]
fn decimal_checked_add(a: &Amount, b: &Amount) -> (r: Option<Amount>)
    ensures
        r is Some ==> r.unwrap()@.scale <= common_scale(a@, b@),
        sum_fits(a@, b@) ==> r is Some,
        sum_fits(a@, b@) ==> r.unwrap()@.units() == a@.units() + b@.units(),
{
    let x = Decimal::from_i128_with_scale(a.mantissa, a.scale);
    let y = Decimal::from_i128_with_scale(b.mantissa, b.scale);
    match x.checked_add(y) {
        Some(d) => Some(Amount { mantissa: d.mantissa(), scale: d.scale(), negative: d.is_sign_negative() }),
        None => None,
    }
}

/// Relies on rust_decimal's `Decimal::checked_sub`: where one operand is zero the other
/// comes back (negated if it is the second); otherwise the difference is exact whenever
/// it has a 96-bit mantissa at the larger of the two scales. A result is never written
/// at a scale above that one.
#[verifier::external_body]
fn decimal_checked_sub(a: &Amount, b: &Amount) -> (r: Option<Amount>)
    ensures
        r is Some ==> r.unwrap()@.scale <= common_scale(a@, b@),
        difference_fits(a@, b@) ==> r is Some,
        difference_fits(a@, b@) ==> r.unwrap()@.units() == a@.units() - b@.units(),
{
    let x = Decimal::from_i128_with_scale(a.mantissa, a.scale);
    let y = Decimal::from_i128_with_scale(b.mantissa, b.scale);
    match x.checked_sub(y) {
        Some(d) => Some(Amount { mantissa: d.mantissa(), scale: d.scale(), negative: d.is_sign_negative() }),
        None => None,
    }
}

/// Relies on rust_decimal's ordering of `Decimal` (`>`), which compares exact values.
#[verifier::external_body]
fn decimal_gt(a: &Amount, b: &Amount) -> (r: bool)
    ensures
        r == (a@.units() > b@.units()),
{
    Decimal::from_i128_with_scale(a.mantissa, a.scale) > Decimal::from_i128_with_scale(
        b.mantissa,
        b.scale,
    )
}

impl Amount {
    /// Every amount is a well-formed decimal.
    #[verifier::type_invariant]
    pub open spec fn inv(self) -> bool {
        self@.wf()
    }

    /// Builds an amount from its parts; `None` where they describe no decimal.
    pub fn from_parts(mantissa: i128, scale: u32, negative: bool) -> (r: Option<Amount>)
        ensures
            r matches Some(x) ==> x@ == (AmountView {
                mantissa: mantissa as int,
                scale: scale as nat,
                negative,
            }),
            r is Some <==> (AmountView {
                mantissa: mantissa as int,
                scale: scale as nat,
                negative,
            }).wf(),
    {
        let bound: i128 = 0x1_0000_0000_0000_0000_0000_0000;
        if -bound < mantissa && mantissa < bound && scale <= MAX_SCALE && (mantissa >= 0
            || negative) && (mantissa <= 0 || !negative) {
            Some(Amount { mantissa, scale, negative })
        } else {
            None
        }
    }

    /// Zero, written with one digit after the point, as a fresh balance is.
    pub fn zero() -> (r: Amount)
        ensures
            r@ == (AmountView { mantissa: 0, scale: 1, negative: false }),
    {
        Amount { mantissa: 0, scale: 1, negative: false }
    }

    pub fn mantissa(&self) -> (r: i128)
        ensures
            r == self@.mantissa,
    {
        self.mantissa
    }

    pub fn scale(&self) -> (r: u32)
        ensures
            r == self@.scale,
    {
        self.scale
    }

    /// Whether the sign bit is set; a written `-0` has it.
    pub fn is_sign_negative(&self) -> (r: bool)
        ensures
            r == self@.negative,
    {
        self.negative
    }

    /// Whether the exact sum or difference of `a` and `b` can be written without
    /// rounding: one is zero, or it has a 96-bit mantissa at their common scale.
    fn fits(a: &Amount, b: &Amount, subtract: bool) -> (r: bool)
        ensures
            r == if subtract {
                difference_fits(a@, b@)
            } else {
                sum_fits(a@, b@)
            },
    {
        proof {
            use_type_invariant(a);
            use_type_invariant(b);
        }
        if a.mantissa == 0 || b.mantissa == 0 {
            return true;
        }
        let s = if a.scale >= b.scale {
            a.scale
        } else {
            b.scale
        };
        let pa = pow10_exec(s - a.scale);
        let pb = pow10_exec(s - b.scale);
        let bound: i128 = 0x1_0000_0000_0000_0000_0000_0000;
        let (x, y) = match (a.mantissa.checked_mul(pa), b.mantissa.checked_mul(pb)) {
            (Some(x), Some(y)) => (x, y),
            _ => {
                return false;
            },
        };
        let t = if subtract {
            x.checked_sub(y)
        } else {
            x.checked_add(y)
        };
        match t {
            Some(t) => -bound < t && t < bound,
            None => false,
        }
    }

    /// The exact sum `self + other`; `None` where it cannot be written without rounding
    /// (see `sum_fits`), so that no digit is ever rounded away.
    pub fn add_exact(&self, other: &Amount) -> (r: Option<Amount>)
        ensures
            r is Some <==> sum_fits(self@, other@),
            r matches Some(x) ==> x@.units() == self@.units() + other@.units(),
            r matches Some(x) ==> x@.wf() && x@.scale <= common_scale(self@, other@),
    {
        if Amount::fits(self, other, false) {
            match decimal_checked_add(self, other) {
                Some(x) => {
                    proof {
                        use_type_invariant(&x);
                    }
                    Some(x)
                },
                None => None,
            }
        } else {
            None
        }
    }

    /// The exact difference `self - other`; `None` where it cannot be written without
    /// rounding (see `difference_fits`).
    pub fn sub_exact(&self, other: &Amount) -> (r: Option<Amount>)
        ensures
            r is Some <==> difference_fits(self@, other@),
            r matches Some(x) ==> x@.units() == self@.units() - other@.units(),
            r matches Some(x) ==> x@.wf() && x@.scale <= common_scale(self@, other@),
    {
        if Amount::fits(self, other, true) {
            match decimal_checked_sub(self, other) {
                Some(x) => {
                    proof {
                        use_type_invariant(&x);
                    }
                    Some(x)
                },
                None => None,
            }
        } else {
            None
        }
    }

    /// Whether the amount is below zero; a `-0` is not.
    pub fn is_below_zero(&self) -> (r: bool)
        ensures
            r == (self@.mantissa < 0),
    {
        self.mantissa < 0
    }


    /// Whether `self` is worth more than `other`.
    pub fn is_greater_than(&self, other: &Amount) -> (r: bool)
        ensures
            r == (self@.units() > other@.units()),
    {
        decimal_gt(self, other)
    }
}

} // verus!
