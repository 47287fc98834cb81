//! Scale factors as exact ratios of a pixels-per-inch reading to the
//! reference density.

use vstd::prelude::*;

verus! {

/// The pixels-per-inch reading at which one logical unit covers one pixel.
pub const REFERENCE_DPI: u64 = 96;

/// The mathematical value of a scale factor: a ratio of two integers.
pub struct Ratio {
    pub numerator: int,
    pub denominator: int,
}

impl Ratio {
    /// Both parts are positive, so the ratio is a positive number.
    pub open spec fn is_positive(self) -> bool {
        self.numerator > 0 && self.denominator > 0
    }

    /// The ratio is exactly one: standard density.
    pub open spec fn is_one(self) -> bool {
        self.numerator == self.denominator && self.denominator != 0
    }

    /// Standard density, reference over reference.
    pub open spec fn one() -> Ratio {
        Ratio { numerator: REFERENCE_DPI as int, denominator: REFERENCE_DPI as int }
    }

    /// Whether a pixels-per-inch reading is a usable value. A query that
    /// failed leaves zero or less behind.
    pub open spec fn usable(reading: int) -> bool {
        reading > 0
    }

    /// The ratio that a reading stands for: the reading over the reference,
    /// and standard density where the reading is not usable.
    pub open spec fn of_reading(reading: int) -> Ratio {
        if Self::usable(reading) {
            Ratio { numerator: reading, denominator: REFERENCE_DPI as int }
        } else {
            Self::one()
        }
    }
}

/// A display scale factor. It holds the pixels-per-inch value whose ratio to
/// [`REFERENCE_DPI`] is the factor, and that value is never zero.
#[derive(Debug, Clone, Copy, PartialEq, Eq, Structural)]
pub struct ScaleFactor {
    dpi: u64,
}

impl View for ScaleFactor {
    type V = Ratio;

    closed spec fn view(&self) -> Ratio {
        Ratio { numerator: self.dpi as int, denominator: REFERENCE_DPI as int }
    }
}

impl ScaleFactor {
    #[verifier::type_invariant]
    spec fn positive(self) -> bool {
        self.dpi > 0
    }

    /// Standard density: a factor of exactly one.
    pub fn standard() -> (scale: ScaleFactor)
        ensures
            scale@ == Ratio::one(),
            scale@.is_positive(),
    {
        ScaleFactor { dpi: REFERENCE_DPI }
    }

    /// The scale factor that a pixels-per-inch reading stands for. A reading
    /// that is not usable gives standard density, never an error.
    pub fn from_reading(reading: i64) -> (scale: ScaleFactor)
        ensures
            scale@ == Ratio::of_reading(reading as int),
            scale@.is_positive(),
    {
        if reading > 0 {
            ScaleFactor { dpi: reading as u64 }
        } else {
            ScaleFactor { dpi: REFERENCE_DPI }
        }
    }

    /// The pixels-per-inch value of this factor, to be divided by
    /// [`REFERENCE_DPI`].
    pub fn dpi(&self) -> (dpi: u64)
        ensures
            dpi == self@.numerator,
            self@.denominator == REFERENCE_DPI,
            dpi > 0,
    {
        proof {
            use_type_invariant(self);
        }
        self.dpi
    }
}

/// Whatever was read, the scale factor made of it is a positive ratio over
/// the reference density.
pub proof fn lemma_reading_gives_positive_ratio(reading: int)
    ensures
        Ratio::of_reading(reading).is_positive(),
        Ratio::of_reading(reading).denominator == REFERENCE_DPI,
        !Ratio::usable(reading) ==> Ratio::of_reading(reading).is_one(),
{
}

} // verus!
