//! The scalar of the simulation: a 64-bit decimal number.
//!
//! All arithmetic is done by `fastnum`. A [`Scalar`] always carries a context
//! without signal traps, and the operations here keep away from the inputs on
//! which `fastnum` would abort all the same. So no operation aborts the
//! process: one that divides by zero, overflows or has no defined result
//! hands back `None` instead. What an operation hands back is an
//! [`Unchecked`] decimal; it becomes a scalar only where it is usable, so
//! every scalar is.
//!
//! Verus sees a decimal as an opaque value. The functions without a body in
//! this file name what each `fastnum` call returns; the functions marked
//! `external_body` make those calls, and their contracts are believed, not
//! proved.

use fastnum::decimal::{Context, Decimal};
use fastnum::D64;
use std::cmp::Ordering;
use vstd::prelude::*;

verus! {

#[verifier::external_type_specification]
#[verifier::external_body]
pub struct ExDecimal<const N: usize>(Decimal<N>);

/// A fixed-precision decimal number. Every scalar is usable: it is finite,
/// and no operation on the way to it divided by zero, overflowed or was
/// invalid.
#[derive(Clone, Copy, Debug)]
pub struct Scalar {
    d: D64,
}

/// A decimal as an operation hands it back, before it is known to be usable.
#[derive(Clone, Copy, Debug)]
pub struct Unchecked {
    d: D64,
}

/// The decimal `d` under the context without signal traps.
pub uninterp spec fn with_quiet_context(d: D64) -> D64;

/// The scalar that stands for the integer `n`.
pub uninterp spec fn scalar_of_u32(n: u32) -> Scalar;

/// The digits of `a`, read as an integer: `a` is this integer times ten to
/// the power of minus its scale, with its sign.
pub uninterp spec fn digits_of(a: Scalar) -> u64;

/// The scale of `a`: how many of its digits stand behind the decimal point.
pub uninterp spec fn scale_of(a: Scalar) -> i16;

/// Whether the sign of `a` is minus.
pub uninterp spec fn negative_of(a: Scalar) -> bool;

/// The integer that `Decimal::to_u32` finds for `a`; none for a negative
/// value and for one that no `u32` can hold.
pub uninterp spec fn integer_of(a: Scalar) -> Option<u32>;

/// How `a` compares with `b`: negative where it is less, zero where the two
/// compare as equal, positive where it is greater.
pub uninterp spec fn order_of(a: Scalar, b: Scalar) -> int;

/// Whether `a == b` as decimals. Not-a-number equals nothing, itself included.
pub uninterp spec fn same_value(a: Scalar, b: Scalar) -> bool;

/// What `Decimal::sqrt` computes for the square root of `a`,
/// handed back under the context without traps and not yet checked for signals.
pub uninterp spec fn raw_sqrt(a: Scalar) -> Unchecked;

/// What `Decimal::sin` computes for the sine of `a`, an angle in radians,
/// handed back under the context without traps and not yet checked for signals.
pub uninterp spec fn raw_sin(a: Scalar) -> Unchecked;

/// What `Decimal::cos` computes for the cosine of `a`, an angle in radians,
/// handed back under the context without traps and not yet checked for signals.
pub uninterp spec fn raw_cos(a: Scalar) -> Unchecked;

/// What `Decimal::floor` computes for the largest whole number that is at most `a`,
/// handed back under the context without traps and not yet checked for signals.
pub uninterp spec fn raw_floor(a: Scalar) -> Unchecked;

/// What `Decimal::add` computes for `a + b`,
/// handed back under the context without traps and not yet checked for signals.
pub uninterp spec fn raw_sum(a: Scalar, b: Scalar) -> Unchecked;

/// What `Decimal::sub` computes for `a - b`,
/// handed back under the context without traps and not yet checked for signals.
pub uninterp spec fn raw_difference(a: Scalar, b: Scalar) -> Unchecked;

/// What `Decimal::mul` computes for `a * b`,
/// handed back under the context without traps and not yet checked for signals.
pub uninterp spec fn raw_product(a: Scalar, b: Scalar) -> Unchecked;

/// What `Decimal::div` computes for `a / b`,
/// handed back under the context without traps and not yet checked for signals.
pub uninterp spec fn raw_quotient(a: Scalar, b: Scalar) -> Unchecked;

/// What `Decimal::atan2` computes for the four-quadrant arc tangent of `a / b`, in radians,
/// handed back under the context without traps and not yet checked for signals.
pub uninterp spec fn raw_atan2(a: Scalar, b: Scalar) -> Unchecked;

/// Whether `a` is neither infinite nor not-a-number.
pub uninterp spec fn is_finite_value(a: Unchecked) -> bool;

/// Whether `a` carries the signal of an invalid operation.
pub uninterp spec fn raised_invalid(a: Unchecked) -> bool;

/// Whether `a` carries the signal of a division by zero.
pub uninterp spec fn raised_division_by_zero(a: Unchecked) -> bool;

/// Whether `a` carries the signal of an overflow.
pub uninterp spec fn raised_overflow(a: Unchecked) -> bool;

/// `Decimal::with_ctx`, given the default context stripped of its traps. The
/// result depends on `d` alone; with no trap set the call cannot abort.
#[verifier::external_body]
fn quiet(d: D64) -> (r: D64)
    ensures
        r == with_quiet_context(d),
{
    d.with_ctx(Context::default().without_traps())
}

/// `Decimal::from_u32`, followed by `Decimal::with_ctx` to strip the traps.
/// As the source shows, the result has the integer for its digits, scale
/// zero, the sign plus and no signal.
#[verifier::external_body]
fn convert_from_u32(n: u32) -> (r: Scalar)
    ensures
        r == scalar_of_u32(n),
        digits_of(r) == n,
        scale_of(r) == 0,
        !negative_of(r),
        usable(r.unchecked()),
{
    Scalar { d: D64::from_u32(n).with_ctx(Context::default().without_traps()) }
}

/// The constant `Decimal::PI`, under the context without traps: the digits
/// of pi that a 64-bit decimal holds.
#[verifier::external_body]
fn constant_pi() -> (r: Scalar)
    ensures
        digits_of(r) == 3141592653589793238,
        scale_of(r) == 18,
        !negative_of(r),
        usable(r.unchecked()),
{
    Scalar { d: D64::PI.with_ctx(Context::default().without_traps()) }
}

/// `Decimal::digits`, as the one 64-bit word that it is made of.
#[verifier::external_body]
fn read_digits(a: &Scalar) -> (r: u64)
    ensures
        r == digits_of(*a),
{
    a.d.digits().digits()[0]
}

/// `Decimal::fractional_digits_count`.
#[verifier::external_body]
fn read_scale(a: &Scalar) -> (r: i16)
    ensures
        r == scale_of(*a),
{
    a.d.fractional_digits_count()
}

/// `Decimal::is_sign_negative`.
#[verifier::external_body]
fn read_negative(a: &Scalar) -> (r: bool)
    ensures
        r == negative_of(*a),
{
    a.d.is_sign_negative()
}

/// `Decimal::to_u32`: `Some` where the conversion succeeds, `None` where
/// `fastnum` reports an error (a negative, special or too large value).
#[verifier::external_body]
fn convert_to_u32(a: Scalar) -> (r: Option<u32>)
    ensures
        r == integer_of(a),
{
    a.d.to_u32().ok()
}

/// `Decimal::cmp`, as -1, 0 or 1. Besides the name of the result the
/// contract claims two things of it. Swapping the arguments mirrors the
/// outcome, as the comparison in `fastnum` is a total order. And for usable
/// arguments the comparison agrees with `Decimal::eq`: two that compare as
/// equal are equal, and whatever the outcome each equals itself.
#[verifier::external_body]
fn compare(a: Scalar, b: Scalar) -> (r: i8)
    ensures
        r == order_of(a, b),
        -1 <= r <= 1,
        order_of(b, a) == -r,
        r == 0 && usable(a.unchecked()) && usable(b.unchecked()) ==> same_value(a, b)
            && same_value(b, a),
        r == order_of(a, b) && usable(a.unchecked()) && usable(b.unchecked()) ==> same_value(a, a)
            && same_value(b, b),
{
    match a.d.cmp(&b.d) {
        Ordering::Less => -1,
        Ordering::Equal => 0,
        Ordering::Greater => 1,
    }
}

/// `Decimal::eq`, the comparison behind `==` on decimals.
#[verifier::external_body]
fn equal(a: &Scalar, b: &Scalar) -> (r: bool)
    ensures
        r == same_value(*a, *b),
{
    a.d.eq(&b.d)
}

/// `Decimal::sqrt`, followed by `Decimal::with_ctx` to strip the traps from
/// the result. The argument carries no trap, and the square root is handed
/// back under the argument's context, so the call returns for every input.
#[verifier::external_body]
fn call_sqrt(a: Scalar) -> (r: Unchecked)
    ensures
        r == raw_sqrt(a),
{
    Unchecked { d: a.d.sqrt().with_ctx(Context::default().without_traps()) }
}

/// `Decimal::sin`, followed by `Decimal::with_ctx` to strip the traps from
/// the result. `fastnum` computes the sine with constants of its own that
/// carry traps, and in a debug build it asserts that its reduction of the
/// angle to one turn worked, which fails where the angle no longer fits the
/// scale of its full-turn constant, from about 18.4 radians on. The contract
/// therefore leaves out all angles but the usable ones from -12 to 12
/// radians, and claims that the call returns for those.
#[verifier::external_body]
fn call_sin(a: Scalar) -> (r: Unchecked)
    requires
        usable(a.unchecked()),
        angle_in_reach(a),
    ensures
        r == raw_sin(a),
{
    Unchecked { d: a.d.sin().with_ctx(Context::default().without_traps()) }
}

/// `Decimal::cos`, followed by `Decimal::with_ctx` to strip the traps from
/// the result. `fastnum` computes the cosine with constants of its own that
/// carry traps, and in a debug build it asserts that its reduction of the
/// angle to one turn worked, which fails where the angle no longer fits the
/// scale of its full-turn constant, from about 18.4 radians on. The contract
/// therefore leaves out all angles but the usable ones from -12 to 12
/// radians, and claims that the call returns for those.
#[verifier::external_body]
fn call_cos(a: Scalar) -> (r: Unchecked)
    requires
        usable(a.unchecked()),
        angle_in_reach(a),
    ensures
        r == raw_cos(a),
{
    Unchecked { d: a.d.cos().with_ctx(Context::default().without_traps()) }
}

/// `Decimal::floor`, followed by `Decimal::with_ctx` to strip the traps from
/// the result. For a negative argument `fastnum` subtracts a constant one
/// that carries traps, so the call aborts where the result carries a fatal
/// signal; the contract claims that this does not happen for a usable
/// argument.
#[verifier::external_body]
fn call_floor(a: Scalar) -> (r: Unchecked)
    requires
        usable(a.unchecked()),
    ensures
        r == raw_floor(a),
{
    Unchecked { d: a.d.floor().with_ctx(Context::default().without_traps()) }
}

/// `Decimal::add`, followed by `Decimal::with_ctx` to strip the traps from
/// the result. Neither argument carries a trap, so the call returns for
/// every input and reports what went wrong in the signals of its result.
#[verifier::external_body]
fn call_add(a: Scalar, b: Scalar) -> (r: Unchecked)
    ensures
        r == raw_sum(a, b),
{
    Unchecked { d: a.d.add(b.d).with_ctx(Context::default().without_traps()) }
}

/// `Decimal::sub`, followed by `Decimal::with_ctx` to strip the traps from
/// the result. Neither argument carries a trap, so the call returns for
/// every input and reports what went wrong in the signals of its result.
#[verifier::external_body]
fn call_sub(a: Scalar, b: Scalar) -> (r: Unchecked)
    ensures
        r == raw_difference(a, b),
{
    Unchecked { d: a.d.sub(b.d).with_ctx(Context::default().without_traps()) }
}

/// `Decimal::mul`, followed by `Decimal::with_ctx` to strip the traps from
/// the result. Neither argument carries a trap, so the call returns for
/// every input and reports what went wrong in the signals of its result.
#[verifier::external_body]
fn call_mul(a: Scalar, b: Scalar) -> (r: Unchecked)
    ensures
        r == raw_product(a, b),
{
    Unchecked { d: a.d.mul(b.d).with_ctx(Context::default().without_traps()) }
}

/// `Decimal::div`, followed by `Decimal::with_ctx` to strip the traps from
/// the result. Neither argument carries a trap, so the call returns for
/// every input and reports what went wrong in the signals of its result.
#[verifier::external_body]
fn call_div(a: Scalar, b: Scalar) -> (r: Unchecked)
    ensures
        r == raw_quotient(a, b),
{
    Unchecked { d: a.d.div(b.d).with_ctx(Context::default().without_traps()) }
}

/// `Decimal::atan2`, followed by `Decimal::with_ctx` to strip the traps from
/// the result. The first argument is the ordinate. `fastnum` has an arc
/// tangent only for ratios from -1 to 1, and for an abscissa that compares
/// below zero, a negative zero included, it adds a constant that carries
/// traps to what it found. The contract admits three kinds of input, on
/// which the call returns: an abscissa that is the zero of `from_u32` with
/// an ordinate that is not zero; a positive abscissa; and a negative
/// abscissa that is not zero with an ordinate no larger in magnitude.
#[verifier::external_body]
fn call_atan2(a: Scalar, b: Scalar) -> (r: Unchecked)
    requires
        usable(a.unchecked()),
        usable(b.unchecked()),
        arc_tangent_in_reach(a, b),
    ensures
        r == raw_atan2(a, b),
{
    Unchecked { d: a.d.atan2(b.d).with_ctx(Context::default().without_traps()) }
}

/// `Decimal::is_finite`.
#[verifier::external_body]
fn flag_finite(a: &Unchecked) -> (r: bool)
    ensures
        r == is_finite_value(*a),
{
    a.d.is_finite()
}

/// `Decimal::is_op_invalid`.
#[verifier::external_body]
fn flag_invalid(a: &Unchecked) -> (r: bool)
    ensures
        r == raised_invalid(*a),
{
    a.d.is_op_invalid()
}

/// `Decimal::is_op_div_by_zero`.
#[verifier::external_body]
fn flag_division_by_zero(a: &Unchecked) -> (r: bool)
    ensures
        r == raised_division_by_zero(*a),
{
    a.d.is_op_div_by_zero()
}

/// `Decimal::is_op_overflow`.
#[verifier::external_body]
fn flag_overflow(a: &Unchecked) -> (r: bool)
    ensures
        r == raised_overflow(*a),
{
    a.d.is_op_overflow()
}

/// A decimal is usable when it is finite and no operation on the way to it
/// divided by zero, overflowed or was invalid.
pub open spec fn usable(a: Unchecked) -> bool {
    &&& is_finite_value(a)
    &&& !raised_invalid(a)
    &&& !raised_division_by_zero(a)
    &&& !raised_overflow(a)
}

/// The scalar that holds `a`, where `a` is usable.
pub open spec fn admitted(a: Unchecked) -> Option<Scalar> {
    if usable(a) {
        Some(Scalar::holding(a.decimal()))
    } else {
        None
    }
}

/// The checked result of `Scalar::sqrt`.
pub open spec fn square_root(a: Scalar) -> Option<Scalar> {
    admitted(raw_sqrt(a))
}

/// The checked result of `Scalar::sin`.
pub open spec fn sine(a: Scalar) -> Option<Scalar> {
    if angle_in_reach(a) {
        admitted(raw_sin(a))
    } else {
        None
    }
}

/// The checked result of `Scalar::cos`.
pub open spec fn cosine(a: Scalar) -> Option<Scalar> {
    if angle_in_reach(a) {
        admitted(raw_cos(a))
    } else {
        None
    }
}

/// The checked result of `Scalar::floor`.
pub open spec fn floor(a: Scalar) -> Option<Scalar> {
    admitted(raw_floor(a))
}

/// The checked result of `Scalar::add`.
pub open spec fn sum(a: Scalar, b: Scalar) -> Option<Scalar> {
    admitted(raw_sum(a, b))
}

/// The checked result of `Scalar::sub`.
pub open spec fn difference(a: Scalar, b: Scalar) -> Option<Scalar> {
    admitted(raw_difference(a, b))
}

/// The checked result of `Scalar::mul`.
pub open spec fn product(a: Scalar, b: Scalar) -> Option<Scalar> {
    admitted(raw_product(a, b))
}

/// The checked result of `Scalar::div`.
pub open spec fn quotient(a: Scalar, b: Scalar) -> Option<Scalar> {
    admitted(raw_quotient(a, b))
}

/// The quarter turn, pi / 2: the angle of the point straight above the origin.
pub open spec fn quarter_turn() -> Option<Scalar> {
    admitted(raw_atan2(scalar_of_u32(1), scalar_of_u32(0)))
}

/// The angle of a direction that is steeper than the diagonals, found from
/// the angle that the direction makes with the vertical axis: a quarter turn
/// less that angle above the horizontal axis, that angle less a quarter turn
/// below it.
pub open spec fn steep_arc_tangent(y: Scalar, x: Scalar) -> Option<Scalar> {
    let zero = scalar_of_u32(0);
    if digits_of(y) == 0 {
        None
    } else if order_of(y, zero) > 0 {
        match (quarter_turn(), admitted(raw_atan2(x, y))) {
            (Some(quarter), Some(tilt)) => difference(quarter, tilt),
            _ => None,
        }
    } else {
        match difference(zero, y) {
            Some(up) => if digits_of(up) != 0 && order_of(up, zero) > 0 {
                match (quarter_turn(), admitted(raw_atan2(x, up))) {
                    (Some(quarter), Some(tilt)) => difference(tilt, quarter),
                    _ => None,
                }
            } else {
                None
            },
            None => None,
        }
    }
}

/// The result of `Scalar::atan2`: the angle of the point with ordinate `y`
/// and abscissa `x`. The origin has none. A zero counts as zero whatever its
/// sign. A direction no steeper than the diagonals gets the outside arc
/// tangent of the point itself, a steeper one that of `steep_arc_tangent`.
pub open spec fn arc_tangent(y: Scalar, x: Scalar) -> Option<Scalar> {
    let zero = scalar_of_u32(0);
    if digits_of(x) == 0 {
        if digits_of(y) == 0 {
            None
        } else {
            admitted(raw_atan2(y, zero))
        }
    } else {
        let y = if digits_of(y) == 0 {
            zero
        } else {
            y
        };
        match difference(zero, x) {
            Some(mirror) => if order_of(x, zero) > 0 {
                if at_most(mirror, y) && at_most(y, x) {
                    admitted(raw_atan2(y, x))
                } else {
                    steep_arc_tangent(y, x)
                }
            } else if order_of(x, zero) < 0 {
                if at_most(x, y) && at_most(y, mirror) {
                    admitted(raw_atan2(y, x))
                } else {
                    steep_arc_tangent(y, x)
                }
            } else {
                None
            },
            None => None,
        }
    }
}

/// Whether `a` is an angle that a sine and a cosine are computed for: one
/// from -12 to 12 radians, a range that holds nearly two full turns either
/// way.
pub open spec fn angle_in_reach(a: Scalar) -> bool {
    match difference(scalar_of_u32(0), scalar_of_u32(12)) {
        Some(low) => at_most(low, a) && at_most(a, scalar_of_u32(12)),
        None => false,
    }
}

/// The inputs that the outside arc tangent is called on: an abscissa that
/// is the zero of `from_u32` with an ordinate that is not zero, a positive
/// abscissa, or a negative abscissa that is not zero with an ordinate no
/// larger in magnitude.
pub open spec fn arc_tangent_in_reach(y: Scalar, x: Scalar) -> bool {
    let zero = scalar_of_u32(0);
    ||| (x == zero && digits_of(y) != 0)
    ||| (digits_of(x) != 0 && order_of(x, zero) > 0)
    ||| (digits_of(x) != 0 && order_of(x, zero) < 0 && match difference(zero, x) {
        Some(mirror) => at_most(x, y) && at_most(y, mirror),
        None => false,
    })
}

/// `a` is at most `b`.
pub open spec fn at_most(a: Scalar, b: Scalar) -> bool {
    order_of(a, b) <= 0
}

/// The comparison of `a` with `b` and that of `b` with `a` mirror each other.
/// Every pair that `Scalar::order` has compared is known to be so.
pub open spec fn mirrored(a: Scalar, b: Scalar) -> bool {
    order_of(b, a) == -order_of(a, b)
}

/// The comparison of `a` and `b` agrees with equality: each equals itself,
/// and if they compare as equal they are equal. Every pair that
/// `Scalar::order` has compared is known to be so.
pub open spec fn agreeing(a: Scalar, b: Scalar) -> bool {
    &&& same_value(a, a)
    &&& same_value(b, b)
    &&& order_of(a, b) == 0 ==> same_value(a, b) && same_value(b, a)
}

/// The smaller of `a` and `b`; `a` where they compare as equal.
pub open spec fn min_of(a: Scalar, b: Scalar) -> Scalar {
    if at_most(a, b) {
        a
    } else {
        b
    }
}

/// The larger of `a` and `b`; `b` where they compare as equal.
pub open spec fn max_of(a: Scalar, b: Scalar) -> Scalar {
    if at_most(a, b) {
        b
    } else {
        a
    }
}

/// `a` restricted to the interval from `lo` to `hi`.
pub open spec fn clamp_of(a: Scalar, lo: Scalar, hi: Scalar) -> Scalar {
    if order_of(a, lo) < 0 {
        lo
    } else if order_of(a, hi) > 0 {
        hi
    } else {
        a
    }
}

/// The scalar that a decimal handed in from outside becomes.
pub open spec fn admitted_decimal(d: D64) -> Option<Scalar> {
    admitted(Unchecked::holding(with_quiet_context(d)))
}

impl Unchecked {
    /// The decimal that this result holds.
    pub closed spec fn decimal(self) -> D64 {
        self.d
    }

    /// The result that holds `d`.
    pub closed spec fn holding(d: D64) -> Unchecked {
        Unchecked { d }
    }
}

impl Scalar {
    /// What every scalar is: usable.
    #[verifier::type_invariant]
    closed spec fn is_sound(self) -> bool {
        usable(Unchecked { d: self.d })
    }

    /// The decimal of this scalar, as one that is not yet known to be usable.
    pub closed spec fn unchecked(self) -> Unchecked {
        Unchecked { d: self.d }
    }

    /// Every scalar that the program holds is usable.
    pub fn usable_by_type(&self)
        ensures
            usable(self.unchecked()),
    {
        proof {
            use_type_invariant(self);
        }
    }

    /// The decimal that this scalar holds.
    pub closed spec fn decimal(self) -> D64 {
        self.d
    }

    /// The scalar that holds `d`.
    pub closed spec fn holding(d: D64) -> Scalar {
        Scalar { d }
    }

    /// Makes a scalar of `a` where it is usable.
    fn check(a: Unchecked) -> (r: Option<Scalar>)
        ensures
            r == admitted(a),
    {
        if flag_finite(&a) && !flag_invalid(&a) && !flag_division_by_zero(&a) && !flag_overflow(
            &a,
        ) {
            Some(Scalar { d: a.d })
        } else {
            None
        }
    }

    /// Whether this scalar is an angle that a sine and a cosine are computed for.
    pub fn is_angle_in_reach(&self) -> (r: bool)
        ensures
            r == angle_in_reach(*self),
    {
        let high = Scalar::from_u32(12);
        match Scalar::from_u32(0).sub(high) {
            Some(low) => low.le(*self) && self.le(high),
            None => false,
        }
    }

    /// Takes a decimal from outside the library. Its context is replaced by
    /// the one without traps; `None` where it is not usable.
    pub fn from_decimal(d: D64) -> (r: Option<Scalar>)
        ensures
            r == admitted_decimal(d),
    {
        Scalar::check(Unchecked { d: quiet(d) })
    }

    /// The decimal that this scalar holds.
    pub fn to_decimal(self) -> (r: D64)
        ensures
            r == self.decimal(),
    {
        self.d
    }

    /// The scalar for an unsigned integer: its digits are the integer, its
    /// scale is zero.
    pub fn from_u32(n: u32) -> (r: Scalar)
        ensures
            r == scalar_of_u32(n),
            digits_of(r) == n,
            scale_of(r) == 0,
            !negative_of(r),
            usable(r.unchecked()),
    {
        convert_from_u32(n)
    }

    /// Pi, to the 19 digits that a scalar holds: 3.141592653589793238.
    pub fn pi() -> (r: Scalar)
        ensures
            digits_of(r) == 3141592653589793238,
            scale_of(r) == 18,
            !negative_of(r),
            usable(r.unchecked()),
    {
        constant_pi()
    }

    /// The digits of this scalar, read as an integer.
    pub fn digits(&self) -> (r: u64)
        ensures
            r == digits_of(*self),
    {
        read_digits(self)
    }

    /// The number of digits behind the decimal point.
    pub fn scale(&self) -> (r: i16)
        ensures
            r == scale_of(*self),
    {
        read_scale(self)
    }

    /// Whether the sign of this scalar is minus.
    pub fn is_sign_negative(&self) -> (r: bool)
        ensures
            r == negative_of(*self),
    {
        read_negative(self)
    }

    /// The whole number that this scalar is, where a `u32` can hold it.
    pub fn to_u32(self) -> (r: Option<u32>)
        ensures
            r == integer_of(self),
    {
        convert_to_u32(self)
    }

    /// Compares `self` with `other`: -1, 0 or 1.
    pub fn order(self, other: Scalar) -> (r: i8)
        ensures
            r == order_of(self, other),
            -1 <= r <= 1,
            mirrored(self, other),
            agreeing(self, other),
    {
        self.usable_by_type();
        other.usable_by_type();
        compare(self, other)
    }

    /// Whether `self` is at most `other`.
    pub fn le(self, other: Scalar) -> (r: bool)
        ensures
            r == at_most(self, other),
            mirrored(self, other),
            agreeing(self, other),
    {
        self.usable_by_type();
        other.usable_by_type();
        compare(self, other) <= 0
    }

    /// The smaller of the two; `self` where they compare as equal.
    pub fn min(self, other: Scalar) -> (r: Scalar)
        ensures
            r == min_of(self, other),
            at_most(r, max_of(self, other)),
            mirrored(self, other),
            agreeing(self, other),
    {
        self.usable_by_type();
        other.usable_by_type();
        if compare(self, other) <= 0 {
            self
        } else {
            other
        }
    }

    /// The larger of the two; `other` where they compare as equal.
    pub fn max(self, other: Scalar) -> (r: Scalar)
        ensures
            r == max_of(self, other),
            at_most(min_of(self, other), r),
            mirrored(self, other),
            agreeing(self, other),
    {
        self.usable_by_type();
        other.usable_by_type();
        if compare(self, other) <= 0 {
            other
        } else {
            self
        }
    }

    /// Restricts `self` to the interval from `lo` to `hi`.
    pub fn clamp(self, lo: Scalar, hi: Scalar) -> (r: Scalar)
        requires
            at_most(lo, hi),
        ensures
            r == clamp_of(self, lo, hi),
            r == lo || r == hi || r == self,
    {
        if compare(self, lo) < 0 {
            lo
        } else if compare(self, hi) > 0 {
            hi
        } else {
            self
        }
    }

    /// Computes the square root of `self`; `None` where there is none or it is not usable.
    pub fn sqrt(self) -> (r: Option<Scalar>)
        ensures
            r == square_root(self),
    {
        Scalar::check(call_sqrt(self))
    }

    /// Computes the sine of `self`, an angle in radians from -12 to 12; `None`
    /// for other angles and where the result is not usable.
    pub fn sin(self) -> (r: Option<Scalar>)
        ensures
            r == sine(self),
    {
        self.usable_by_type();
        if self.is_angle_in_reach() {
            Scalar::check(call_sin(self))
        } else {
            None
        }
    }

    /// Computes the cosine of `self`, an angle in radians from -12 to 12; `None`
    /// for other angles and where the result is not usable.
    pub fn cos(self) -> (r: Option<Scalar>)
        ensures
            r == cosine(self),
    {
        self.usable_by_type();
        if self.is_angle_in_reach() {
            Scalar::check(call_cos(self))
        } else {
            None
        }
    }

    /// Computes the largest whole number that is at most `self`; `None` where it is not usable.
    pub fn floor(self) -> (r: Option<Scalar>)
        ensures
            r == floor(self),
    {
        self.usable_by_type();
        Scalar::check(call_floor(self))
    }

    /// Computes `self + other`; `None` where the result is not usable.
    pub fn add(self, other: Scalar) -> (r: Option<Scalar>)
        ensures
            r == sum(self, other),
    {
        Scalar::check(call_add(self, other))
    }

    /// Computes `self - other`; `None` where the result is not usable.
    pub fn sub(self, other: Scalar) -> (r: Option<Scalar>)
        ensures
            r == difference(self, other),
    {
        Scalar::check(call_sub(self, other))
    }

    /// Computes `self * other`; `None` where the result is not usable.
    pub fn mul(self, other: Scalar) -> (r: Option<Scalar>)
        ensures
            r == product(self, other),
    {
        Scalar::check(call_mul(self, other))
    }

    /// Computes `self / other`; `None` where the result is not usable.
    pub fn div(self, other: Scalar) -> (r: Option<Scalar>)
        ensures
            r == quotient(self, other),
    {
        Scalar::check(call_div(self, other))
    }

    /// The angle of a direction steeper than the diagonals.
    fn steep_atan2(y: Scalar, x: Scalar) -> (r: Option<Scalar>)
        ensures
            r == steep_arc_tangent(y, x),
    {
        let zero = Scalar::from_u32(0);
        if y.digits() == 0 {
            return None;
        }
        x.usable_by_type();
        y.usable_by_type();
        let quarter = Scalar::check(call_atan2(Scalar::from_u32(1), zero));
        if compare(y, zero) > 0 {
            match (quarter, Scalar::check(call_atan2(x, y))) {
                (Some(quarter), Some(tilt)) => quarter.sub(tilt),
                _ => None,
            }
        } else {
            match zero.sub(y) {
                Some(up) => {
                    up.usable_by_type();
                    if up.digits() != 0 && compare(up, zero) > 0 {
                        match (quarter, Scalar::check(call_atan2(x, up))) {
                            (Some(quarter), Some(tilt)) => tilt.sub(quarter),
                            _ => None,
                        }
                    } else {
                        None
                    }
                },
                None => None,
            }
        }
    }

    /// Computes the angle in radians of the point with ordinate `self` and
    /// abscissa `other`, from minus a half turn (not included) to a half
    /// turn. `None` for the origin and where a step is not usable.
    pub fn atan2(self, other: Scalar) -> (r: Option<Scalar>)
        ensures
            r == arc_tangent(self, other),
    {
        let zero = Scalar::from_u32(0);
        self.usable_by_type();
        other.usable_by_type();
        if other.digits() == 0 {
            if self.digits() == 0 {
                return None;
            }
            return Scalar::check(call_atan2(self, zero));
        }
        let y = if self.digits() == 0 {
            zero
        } else {
            self
        };
        let mirror = match zero.sub(other) {
            Some(mirror) => mirror,
            None => {
                return None;
            },
        };
        let side: i8 = compare(other, zero);
        if side > 0 {
            if mirror.le(y) && y.le(other) {
                Scalar::check(call_atan2(y, other))
            } else {
                Scalar::steep_atan2(y, other)
            }
        } else if side < 0 {
            if other.le(y) && y.le(mirror) {
                Scalar::check(call_atan2(y, other))
            } else {
                Scalar::steep_atan2(y, other)
            }
        } else {
            None
        }
    }
}

impl PartialEq for Scalar {
    fn eq(&self, other: &Scalar) -> (r: bool) {
        equal(self, other)
    }
}

impl vstd::std_specs::cmp::PartialEqSpecImpl for Scalar {
    open spec fn obeys_eq_spec() -> bool {
        true
    }

    open spec fn eq_spec(&self, other: &Scalar) -> bool {
        same_value(*self, *other)
    }
}

} // verus!
