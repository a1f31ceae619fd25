//! Plain values for the quantities the engine takes as floating point:
//! exact decimal fractions, coordinates and bounding rectangles.

use vstd::prelude::*;

verus! {

/// The largest scale a `Decimal` may carry.
pub const MAX_DECIMAL_SCALE: u8 = 18;

/// An exact decimal fraction: `digits` divided by ten to the power `scale`.
///
/// The engine's interface is written in binary floating point. The values
/// this crate hands to it are written down in decimal, so they are kept as
/// written and converted where the engine is called.
#[derive(Clone, Copy, Debug, PartialEq, Eq, Structural)]
pub struct Decimal {
    /// The digits of the number, read as one integer.
    pub digits: i64,
    /// How many of those digits stand behind the decimal point.
    pub scale: u8,
}

impl Decimal {
    /// A fraction is well formed when its scale is at most
    /// `MAX_DECIMAL_SCALE`.
    pub open spec fn wf(self) -> bool {
        self.scale <= MAX_DECIMAL_SCALE
    }

    /// The fraction `digits / 10^scale`.
    pub fn new(digits: i64, scale: u8) -> (d: Option<Decimal>)
        ensures
            d == if scale <= MAX_DECIMAL_SCALE {
                Some(Decimal { digits, scale })
            } else {
                None
            },
    {
        if scale <= MAX_DECIMAL_SCALE {
            Some(Decimal { digits, scale })
        } else {
            None
        }
    }

    /// The whole number `n`.
    pub fn whole(n: i64) -> (d: Decimal)
        ensures
            d == (Decimal { digits: n, scale: 0 }),
            d.wf(),
    {
        Decimal { digits: n, scale: 0 }
    }
}

/// The coordinate systems the crate names.
#[derive(Clone, Copy, Debug, PartialEq, Eq, Structural)]
pub enum CoordinateSystem {
    /// Web Mercator, in metres.
    Epsg3857,
    /// Geographic longitude and latitude, in degrees.
    Epsg4326,
}

/// A point in a coordinate system.
#[derive(Clone, Copy, Debug, PartialEq, Eq, Structural)]
pub struct Coord {
    pub system: CoordinateSystem,
    pub x: Decimal,
    pub y: Decimal,
    pub z: Decimal,
}

/// An axis-aligned rectangle, given by two opposite corners.
#[derive(Clone, Copy, Debug, PartialEq, Eq, Structural)]
pub struct RectCoord {
    pub top_left: Coord,
    pub bottom_right: Coord,
}

/// The rectangle that covers the whole Web Mercator plane, which reaches
/// from minus to plus 20037508.34 m on both axes.
pub open spec fn web_mercator_bounds_spec() -> RectCoord {
    RectCoord {
        top_left: Coord {
            system: CoordinateSystem::Epsg3857,
            x: Decimal { digits: -2003750834i64, scale: 2 },
            y: Decimal { digits: 2003750834i64, scale: 2 },
            z: Decimal { digits: 0, scale: 0 },
        },
        bottom_right: Coord {
            system: CoordinateSystem::Epsg3857,
            x: Decimal { digits: 2003750834i64, scale: 2 },
            y: Decimal { digits: -2003750834i64, scale: 2 },
            z: Decimal { digits: 0, scale: 0 },
        },
    }
}

/// The rectangle that covers the whole Web Mercator plane.
pub fn web_mercator_bounds() -> (bounds: RectCoord)
    ensures
        bounds == web_mercator_bounds_spec(),
{
    let half_extent: i64 = 2003750834;
    RectCoord {
        top_left: Coord {
            system: CoordinateSystem::Epsg3857,
            x: Decimal { digits: -half_extent, scale: 2 },
            y: Decimal { digits: half_extent, scale: 2 },
            z: Decimal { digits: 0, scale: 0 },
        },
        bottom_right: Coord {
            system: CoordinateSystem::Epsg3857,
            x: Decimal { digits: half_extent, scale: 2 },
            y: Decimal { digits: -half_extent, scale: 2 },
            z: Decimal { digits: 0, scale: 0 },
        },
    }
}

} // verus!
