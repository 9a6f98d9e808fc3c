//! Fixed-point money: whole minor units tagged with the asset they count.

use vstd::prelude::*;
use vstd::arithmetic::div_mod::lemma_fundamental_div_mod_converse;
use crate::ident::AssetId;

verus! {

/// The product `units * num / den`, rounded half-up to a whole unit.
pub open spec fn scale_half_up(units: nat, num: nat, den: nat) -> nat
    recommends
        den > 0,
{
    ((2 * units * num + den) / (2 * den)) as nat
}

/// The two parts of `total` under a rate `num / den` of at most one: the
/// second part is the rounded share, the first part is the remainder.
pub open spec fn split_parts(total: nat, num: nat, den: nat) -> (nat, nat)
    recommends
        den > 0,
        num <= den,
{
    ((total - scale_half_up(total, num, den)) as nat, scale_half_up(total, num, den))
}

/// Why an amount operation was refused.
#[derive(Clone, Copy, Debug, PartialEq, Eq, Structural)]
pub enum AmountError {
    /// The two operands count different assets.
    AssetMismatch,
    /// The exact result does not fit in 64 bits of minor units.
    Overflow,
    /// A split was asked for with a rate above one.
    RateAboveOne,
}

/// A non-negative rational rate `numerator / denominator`.
#[derive(Clone, Copy, Debug, PartialEq, Eq, Structural)]
pub struct Rate {
    numerator: u64,
    denominator: u64,
}

impl Rate {
    #[verifier::type_invariant]
    spec fn positive_denominator(self) -> bool {
        self.denominator > 0
    }

    /// Numerator of the rate.
    pub closed spec fn num(self) -> nat {
        self.numerator as nat
    }

    /// Denominator of the rate.
    pub closed spec fn den(self) -> nat {
        self.denominator as nat
    }

    /// Whether the rate lies in the closed interval from zero to one.
    pub open spec fn at_most_one(self) -> bool {
        self.num() <= self.den()
    }

    /// Builds `numerator / denominator`; there is no rate with denominator zero.
    pub fn new(numerator: u64, denominator: u64) -> (r: Option<Rate>)
        ensures
            r is Some <==> denominator > 0,
            r matches Some(rate) ==> rate.num() == numerator && rate.den() == denominator,
    {
        if denominator == 0 {
            None
        } else {
            Some(Rate { numerator, denominator })
        }
    }

    /// The rate of `points` hundredths of a percent.
    pub fn from_basis_points(points: u32) -> (r: Rate)
        ensures
            r.num() == points,
            r.den() == 10_000,
    {
        Rate { numerator: points as u64, denominator: 10_000 }
    }

    /// The rate of `percent` hundredths.
    pub fn from_percent(percent: u32) -> (r: Rate)
        ensures
            r.num() == percent,
            r.den() == 100,
    {
        Rate { numerator: percent as u64, denominator: 100 }
    }

    /// Whether the rate lies between zero and one.
    pub fn is_fraction(&self) -> (r: bool)
        ensures
            r == self.at_most_one(),
    {
        self.numerator <= self.denominator
    }

    /// Numerator of the rate.
    pub fn numerator(&self) -> (n: u64)
        ensures
            n == self.num(),
    {
        self.numerator
    }

    /// Denominator of the rate, which is never zero.
    pub fn denominator(&self) -> (d: u64)
        ensures
            d == self.den(),
            d > 0,
    {
        proof {
            use_type_invariant(self);
        }
        self.denominator
    }
}

/// Scaling by a rate of at most one never grows the amount.
pub proof fn lemma_scale_bounded(units: nat, num: nat, den: nat)
    requires
        den > 0,
        num <= den,
    ensures
        scale_half_up(units, num, den) <= units,
{
    let p = units * num;
    assert(p <= units * den) by (nonlinear_arith)
        requires
            p == units * num,
            num <= den,
    ;
    assert(2 * units * num + den == 2 * p + den) by (nonlinear_arith)
        requires
            p == units * num,
    ;
    if units == 0 {
        assert(p == 0) by (nonlinear_arith)
            requires
                p == units * num,
                units == 0,
        ;
        lemma_fundamental_div_mod_converse(den as int, 2 * den as int, 0, den as int);
    } else {
        // 2p + den <= 2 * units * den + den < (units + 1) * 2 * den
        let x = (2 * p + den) as int;
        let d = (2 * den) as int;
        let q = x / d;
        assert(q <= units) by (nonlinear_arith)
            requires
                q == x / d,
                d == 2 * den,
                den > 0,
                x == 2 * p + den,
                p <= units * den,
        ;
    }
}

/// The exact rounded product, which fits in 128 bits whatever the rate.
fn scale_wide(units: u64, rate: Rate) -> (r: u128)
    ensures
        r == scale_half_up(units as nat, rate.num(), rate.den()),
{
    proof {
        use_type_invariant(rate);
    }
    let den: u128 = rate.denominator as u128;
    let num: u128 = rate.numerator as u128;
    assert(units as u128 * num <= u64::MAX * u64::MAX) by (nonlinear_arith)
        requires
            units <= u64::MAX,
            num <= u64::MAX,
    ;
    let product: u128 = units as u128 * num;
    let quotient: u128 = product / den;
    let remainder: u128 = product % den;
    let round_up: bool = remainder >= den - remainder;
    proof {
        let bump: int = if round_up { 1 } else { 0 };
        let x = 2 * product as int + den as int;
        let d = 2 * den as int;
        assert(product as int == den as int * quotient as int + remainder as int) by {
            vstd::arithmetic::div_mod::lemma_fundamental_div_mod(product as int, den as int);
        }
        let rest = 2 * remainder as int + den as int - bump * d;
        assert(0 <= rest < d);
        assert(x == (quotient as int + bump) * d + rest) by (nonlinear_arith)
            requires
                product as int == den as int * quotient as int + remainder as int,
                x == 2 * product as int + den as int,
                d == 2 * den as int,
                rest == 2 * remainder as int + den as int - bump * d,
        ;
        lemma_fundamental_div_mod_converse(x, d, quotient as int + bump, rest);
        assert(2 * (units as nat) * rate.num() + rate.den() == x) by (nonlinear_arith)
            requires
                product as int == units as int * num as int,
                x == 2 * product as int + den as int,
                rate.num() == num as int,
                rate.den() == den as int,
        ;
    }
    if round_up {
        quotient + 1
    } else {
        quotient
    }
}

/// Multiplies `units` by `rate`, rounding half-up to a whole minor unit.
pub fn scale_units(units: u64, rate: Rate) -> (r: Option<u64>)
    ensures
        r is Some <==> scale_half_up(units as nat, rate.num(), rate.den()) <= u64::MAX,
        r matches Some(v) ==> v == scale_half_up(units as nat, rate.num(), rate.den()),
{
    let exact = scale_wide(units, rate);
    if exact > u64::MAX as u128 {
        None
    } else {
        Some(exact as u64)
    }
}

/// Splits `total` by a rate of at most one into the remainder and the
/// rounded share.
pub fn split_fraction(total: u64, rate: Rate) -> (r: (u64, u64))
    requires
        rate.at_most_one(),
    ensures
        (r.0 as nat, r.1 as nat) == split_parts(total as nat, rate.num(), rate.den()),
        r.0 + r.1 == total,
{
    proof {
        use_type_invariant(rate);
        lemma_scale_bounded(total as nat, rate.num(), rate.den());
    }
    let share = scale_wide(total, rate) as u64;
    (total - share, share)
}

/// Splits `total` by a rate of at most one into the remainder and the rounded
/// share; the two parts always add up to `total`.
pub fn split_units(total: u64, rate: Rate) -> (r: Option<(u64, u64)>)
    ensures
        r is Some <==> rate.at_most_one(),
        r matches Some((rest, share)) ==> {
            &&& (rest as nat, share as nat) == split_parts(total as nat, rate.num(), rate.den())
            &&& rest + share == total
        },
{
    if rate.numerator > rate.denominator {
        None
    } else {
        Some(split_fraction(total, rate))
    }
}

/// Mathematical value of an [`Amount`].
pub struct AmountView {
    pub minor_units: nat,
    pub asset: Seq<char>,
}

/// A count of minor units of one asset.
#[derive(Debug)]
pub struct Amount {
    pub minor_units: u64,
    pub asset: AssetId,
}

impl View for Amount {
    type V = AmountView;

    open spec fn view(&self) -> AmountView {
        AmountView { minor_units: self.minor_units as nat, asset: self.asset@ }
    }
}

impl Clone for Amount {
    fn clone(&self) -> (r: Self)
        ensures
            r == *self,
    {
        Amount { minor_units: self.minor_units, asset: self.asset.clone() }
    }
}

impl Amount {
    /// `minor_units` of `asset`.
    pub fn new(minor_units: u64, asset: AssetId) -> (r: Amount)
        ensures
            r@ == (AmountView { minor_units: minor_units as nat, asset: asset@ }),
            r.asset == asset,
    {
        Amount { minor_units, asset }
    }

    /// Sum of two amounts of the same asset.
    pub fn checked_add(&self, other: &Amount) -> (r: Result<Amount, AmountError>)
        ensures
            self@.asset != other@.asset ==> r == Err::<Amount, AmountError>(
                AmountError::AssetMismatch,
            ),
            self@.asset == other@.asset && self@.minor_units + other@.minor_units > u64::MAX ==> r
                == Err::<Amount, AmountError>(AmountError::Overflow),
            self@.asset == other@.asset && self@.minor_units + other@.minor_units <= u64::MAX
                ==> r is Ok && r->Ok_0@ == (AmountView {
                minor_units: self@.minor_units + other@.minor_units,
                asset: self@.asset,
            }),
    {
        if !self.asset.same(&other.asset) {
            return Err(AmountError::AssetMismatch);
        }
        match self.minor_units.checked_add(other.minor_units) {
            Some(sum) => Ok(Amount { minor_units: sum, asset: self.asset.clone() }),
            None => Err(AmountError::Overflow),
        }
    }

    /// Product of the amount and `rate`, rounded half-up to a whole minor unit.
    pub fn mul_rate(&self, rate: Rate) -> (r: Result<Amount, AmountError>)
        ensures
            scale_half_up(self@.minor_units, rate.num(), rate.den()) > u64::MAX ==> r
                == Err::<Amount, AmountError>(AmountError::Overflow),
            scale_half_up(self@.minor_units, rate.num(), rate.den()) <= u64::MAX ==> r is Ok
                && r->Ok_0@ == (AmountView {
                minor_units: scale_half_up(self@.minor_units, rate.num(), rate.den()),
                asset: self@.asset,
            }),
    {
        match scale_units(self.minor_units, rate) {
            Some(scaled) => Ok(Amount { minor_units: scaled, asset: self.asset.clone() }),
            None => Err(AmountError::Overflow),
        }
    }

    /// Splits the amount by a rate between zero and one. The second part is
    /// the share `rate` of the amount, rounded half-up; the first part is what
    /// is left, so that the parts add up to the amount exactly.
    pub fn split(&self, rate: Rate) -> (r: Result<(Amount, Amount), AmountError>)
        ensures
            !rate.at_most_one() ==> r == Err::<(Amount, Amount), AmountError>(
                AmountError::RateAboveOne,
            ),
            rate.at_most_one() ==> r is Ok && ({
                let (rest, share) = r->Ok_0;
                let parts = split_parts(self@.minor_units, rate.num(), rate.den());
                &&& rest@ == (AmountView { minor_units: parts.0, asset: self@.asset })
                &&& share@ == (AmountView { minor_units: parts.1, asset: self@.asset })
                &&& rest@.minor_units + share@.minor_units == self@.minor_units
            }),
    {
        match split_units(self.minor_units, rate) {
            Some((rest, share)) => Ok(
                (
                    Amount { minor_units: rest, asset: self.asset.clone() },
                    Amount { minor_units: share, asset: self.asset.clone() },
                ),
            ),
            None => Err(AmountError::RateAboveOne),
        }
    }
}

/// The parts of a split by any rate between zero and one add up to the total.
pub proof fn lemma_split_is_exact(total: nat, num: nat, den: nat)
    requires
        den > 0,
        num <= den,
    ensures
        split_parts(total, num, den).0 + split_parts(total, num, den).1 == total,
{
    lemma_scale_bounded(total, num, den);
}

} // verus!
