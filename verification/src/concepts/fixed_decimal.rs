use vstd::prelude::*;
use vstd::math::abs;

use crate::concepts::ode_def::{DuplicableType, ElementIterableType, FloatLikeType, MathVecLikeType};

verus! {

/// The number of micro-units in one whole unit of a [`FixedDecimal`].
pub const MICROS_PER_UNIT: i64 = 1000000;

/// An exact decimal scalar with six decimal places: a verified instance of
/// the scalar field abstraction.
///
/// The value is `micros / 1000000`, held in a signed 64-bit count of
/// micro-units.  Addition, subtraction, multiplication and negation
/// saturate at the representable range instead of wrapping; quotients are
/// rounded towards zero, and a division by zero yields zero.  Every
/// operation is total and proved equal to its specification, and the
/// sub-stepping measure obligation is discharged, so the bounded
/// sub-stepping drivers are known to terminate over this scalar.
#[derive(Clone, Copy, Debug, PartialEq, Eq, Structural)]
pub struct FixedDecimal {
    /// The value in micro-units: one unit is `1000000` micro-units.
    pub micros: i64,
}

/// `value` held into the representable micro-unit range.
pub open spec fn clamp_micros(value: int) -> int {
    if value > i64::MAX {
        i64::MAX as int
    } else if value < i64::MIN {
        i64::MIN as int
    } else {
        value
    }
}

/// The product of two micro-unit counts, scaled back down by one unit and
/// rounded towards zero.
pub open spec fn scaled_product(a: int, b: int) -> int {
    let magnitude = (abs(a) as int * abs(b) as int) / (MICROS_PER_UNIT as int);
    if (a < 0) != (b < 0) {
        -magnitude
    } else {
        magnitude
    }
}

/// The quotient of two micro-unit counts, scaled up by one unit and
/// rounded towards zero; zero when the divisor is zero.
pub open spec fn scaled_quotient(a: int, b: int) -> int {
    if b == 0 {
        0
    } else {
        let magnitude = (abs(a) as int * (MICROS_PER_UNIT as int)) / (abs(b) as int);
        if (a < 0) != (b < 0) {
            -magnitude
        } else {
            magnitude
        }
    }
}

/// The non-negative magnitude of a micro-unit count, as a `u128` for the
/// wide intermediate arithmetic of products and quotients.
fn magnitude_u128(value: i64) -> (magnitude: u128)
    ensures
        magnitude == abs(value as int),
{
    if value < 0 {
        (-(value as i128)) as u128
    } else {
        value as u128
    }
}

/// Clamps a non-negative magnitude with its sign into the micro-unit
/// range.
fn signed_clamped(magnitude: u128, negative: bool) -> (result: i64)
    ensures
        result as int == clamp_micros(
            if negative {
                -(magnitude as int)
            } else {
                magnitude as int
            },
        ),
{
    if negative {
        if magnitude >= 9223372036854775808u128 {
            i64::MIN
        } else {
            -(magnitude as i64)
        }
    } else {
        if magnitude > i64::MAX as u128 {
            i64::MAX
        } else {
            magnitude as i64
        }
    }
}

impl FloatLikeType for FixedDecimal {
    closed spec fn add_spec(self, other: Self) -> Self {
        FixedDecimal { micros: clamp_micros(self.micros + other.micros) as i64 }
    }

    closed spec fn sub_spec(self, other: Self) -> Self {
        FixedDecimal { micros: clamp_micros(self.micros - other.micros) as i64 }
    }

    closed spec fn mul_spec(self, other: Self) -> Self {
        FixedDecimal {
            micros: clamp_micros(scaled_product(self.micros as int, other.micros as int)) as i64,
        }
    }

    closed spec fn div_spec(self, other: Self) -> Self {
        FixedDecimal {
            micros: clamp_micros(scaled_quotient(self.micros as int, other.micros as int)) as i64,
        }
    }

    closed spec fn neg_spec(self) -> Self {
        FixedDecimal { micros: clamp_micros(-(self.micros as int)) as i64 }
    }

    closed spec fn lt_spec(self, other: Self) -> bool {
        self.micros < other.micros
    }

    closed spec fn from_small_int_spec(n: i8) -> Self {
        FixedDecimal { micros: (n as int * MICROS_PER_UNIT as int) as i64 }
    }

    closed spec fn substeps_to(self, target: Self, dt_max: Self) -> u64 {
        if self.micros < target.micros {
            (target.micros - self.micros) as u64
        } else {
            0
        }
    }

    fn add(self, other: Self) -> (result: Self) {
        match self.micros.checked_add(other.micros) {
            Some(sum) => FixedDecimal { micros: sum },
            None => if other.micros > 0 {
                FixedDecimal { micros: i64::MAX }
            } else {
                FixedDecimal { micros: i64::MIN }
            },
        }
    }

    fn sub(self, other: Self) -> (result: Self) {
        match self.micros.checked_sub(other.micros) {
            Some(difference) => FixedDecimal { micros: difference },
            None => if other.micros < 0 {
                FixedDecimal { micros: i64::MAX }
            } else {
                FixedDecimal { micros: i64::MIN }
            },
        }
    }

    fn mul(self, other: Self) -> (result: Self) {
        let a = magnitude_u128(self.micros);
        let b = magnitude_u128(other.micros);
        proof {
            assert(a * b <= 9223372036854775808u128 * 9223372036854775808u128)
                by (nonlinear_arith)
                requires
                    a <= 9223372036854775808u128,
                    b <= 9223372036854775808u128,
            ;
        }
        let magnitude = (a * b) / 1000000u128;
        let negative = (self.micros < 0) != (other.micros < 0);
        FixedDecimal { micros: signed_clamped(magnitude, negative) }
    }

    fn div(self, other: Self) -> (result: Self) {
        if other.micros == 0 {
            FixedDecimal { micros: 0 }
        } else {
            let a = magnitude_u128(self.micros);
            let b = magnitude_u128(other.micros);
            let magnitude = (a * 1000000u128) / b;
            let negative = (self.micros < 0) != (other.micros < 0);
            FixedDecimal { micros: signed_clamped(magnitude, negative) }
        }
    }

    fn neg(self) -> (result: Self) {
        if self.micros == i64::MIN {
            FixedDecimal { micros: i64::MAX }
        } else {
            FixedDecimal { micros: -self.micros }
        }
    }

    fn lt(self, other: Self) -> (result: bool) {
        self.micros < other.micros
    }

    fn from_small_int(n: i8) -> (result: Self) {
        FixedDecimal { micros: (n as i64) * MICROS_PER_UNIT }
    }

    proof fn lemma_substep_progress(self, target: Self, dt_max: Self, dtau: Self) {
    }
}

impl DuplicableType for FixedDecimal {
    fn duplicate(&self) -> (copy: Self) {
        *self
    }
}

impl MathVecLikeType<FixedDecimal> for FixedDecimal {
    open spec fn add_spec(self, other: Self) -> Self {
        FloatLikeType::add_spec(self, other)
    }

    open spec fn scale_spec(factor: FixedDecimal, v: Self) -> Self {
        factor.mul_spec(v)
    }

    fn add(self, other: Self) -> (result: Self) {
        FloatLikeType::add(self, other)
    }

    fn add_assign(&mut self, other: Self) {
        *self = FloatLikeType::add(*self, other);
    }

    fn scale(factor: FixedDecimal, v: Self) -> (result: Self) {
        FloatLikeType::mul(factor, v)
    }
}

/// A growable vector of [`FixedDecimal`] elements: a verified instance of
/// the element-wise iterable state abstraction, visited in the order of
/// its components.
#[derive(Clone, Debug, PartialEq, Eq)]
pub struct FixedVector {
    /// The elements, in visitation order.
    pub components: Vec<FixedDecimal>,
}

impl ElementIterableType<FixedDecimal> for FixedVector {
    open spec fn elems(&self) -> Seq<FixedDecimal> {
        self.components@
    }

    fn elem_count(&self) -> (count: usize) {
        self.components.len()
    }

    fn elem_at(&self, index: usize) -> (element: FixedDecimal) {
        self.components[index]
    }

    fn set_elem(&mut self, index: usize, element: FixedDecimal) {
        self.components[index] = element;
    }
}

} // verus!

