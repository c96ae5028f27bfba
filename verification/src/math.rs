//! Fixed-point 3D vectors. Every geometric quantity in this crate is carried
//! as a signed integer in units of `1 / FIXED_POINT_SCALE`, so the delicate
//! comparisons of the contact filters (dot products against a cosine
//! threshold, squared norms against a degeneracy threshold) are exact integer
//! arithmetic.
use vstd::prelude::*;

verus! {

/// Number of raw units per 1.0: a coordinate of `FIXED_POINT_SCALE` raw units
/// has magnitude one.
pub const FIXED_POINT_SCALE: i64 = 1_000_000;

/// Largest coordinate magnitude the geometric operations accept (1000.0 in
/// fixed-point units): small enough that a sum of three coordinate products
/// stays well inside `i64`.
pub const MAX_COORD: i64 = 1_000_000_000;

/// A 3D vector with fixed-point coordinates.
#[derive(Clone, Copy, PartialEq, Eq, Structural, Debug)]
pub struct RawVector {
    pub x: i64,
    pub y: i64,
    pub z: i64,
}

impl RawVector {
    /// All coordinates within the magnitude bound the geometric operations
    /// accept.
    pub open spec fn bounded(self) -> bool {
        &&& -MAX_COORD <= self.x <= MAX_COORD
        &&& -MAX_COORD <= self.y <= MAX_COORD
        &&& -MAX_COORD <= self.z <= MAX_COORD
    }

    /// Mathematical dot product of two vectors, in raw units squared.
    pub open spec fn spec_dot(self, other: RawVector) -> int {
        self.x * other.x + self.y * other.y + self.z * other.z
    }

    /// Mathematical squared euclidean norm, in raw units squared.
    pub open spec fn spec_norm_squared(self) -> int {
        self.spec_dot(self)
    }

    pub fn new(x: i64, y: i64, z: i64) -> (r: RawVector)
        ensures
            r == (RawVector { x, y, z }),
    {
        RawVector { x, y, z }
    }

    /// Dot product of two bounded vectors.
    pub fn dot(&self, other: &RawVector) -> (r: i64)
        requires
            self.bounded(),
            other.bounded(),
        ensures
            r == self.spec_dot(*other),
    {
        proof {
            lemma_coord_product_bounded(self.x as int, other.x as int);
            lemma_coord_product_bounded(self.y as int, other.y as int);
            lemma_coord_product_bounded(self.z as int, other.z as int);
        }
        self.x * other.x + self.y * other.y + self.z * other.z
    }

    /// Squared euclidean norm of a bounded vector.
    pub fn norm_squared(&self) -> (r: i64)
        requires
            self.bounded(),
        ensures
            r == self.spec_norm_squared(),
    {
        self.dot(self)
    }
}

/// The product of two coordinates within `MAX_COORD` stays within
/// `MAX_COORD * MAX_COORD`, so a sum of three such products fits in `i64`.
proof fn lemma_coord_product_bounded(a: int, b: int)
    requires
        -1_000_000_000 <= a <= 1_000_000_000,
        -1_000_000_000 <= b <= 1_000_000_000,
    ensures
        -1_000_000_000_000_000_000 <= a * b <= 1_000_000_000_000_000_000,
{
    assert(-1_000_000_000_000_000_000 <= a * b <= 1_000_000_000_000_000_000) by (nonlinear_arith)
        requires
            -1_000_000_000 <= a <= 1_000_000_000,
            -1_000_000_000 <= b <= 1_000_000_000,
    ;
}

} // verus!
