//! Four-by-four matrices, carried as the words the graphics device expects.

use vstd::prelude::*;

verus! {

/// Bit pattern of the single-precision number zero.
pub const ZERO: u32 = 0;

/// Bit pattern of the single-precision number one.
pub const ONE: u32 = 0x3F80_0000;

/// A column-major 4x4 matrix of single-precision numbers. Each entry is held
/// by its IEEE-754 bit pattern: the renderer stores and forwards matrices and
/// never computes with them.
#[derive(Clone, Copy, Debug, PartialEq, Eq)]
pub struct Matrix4 {
    pub cols: [[u32; 4]; 4],
}

impl Matrix4 {
    /// The entry in column `c`, row `r`.
    pub open spec fn entry(self, c: int, r: int) -> u32 {
        self.cols[c][r]
    }

    /// Whether this is the identity: ones on the diagonal, zeros elsewhere.
    pub open spec fn is_identity(self) -> bool {
        forall|c: int, r: int|
            0 <= c < 4 && 0 <= r < 4 ==> #[trigger] self.entry(c, r) == if c == r {
                ONE
            } else {
                ZERO
            }
    }

    /// The identity matrix.
    pub open spec fn identity_spec() -> Matrix4 {
        Matrix4 {
            cols: [
                [ONE, ZERO, ZERO, ZERO],
                [ZERO, ONE, ZERO, ZERO],
                [ZERO, ZERO, ONE, ZERO],
                [ZERO, ZERO, ZERO, ONE],
            ],
        }
    }

    /// The identity matrix.
    pub fn identity() -> (m: Matrix4)
        ensures
            m == Matrix4::identity_spec(),
            m.is_identity(),
    {
        Matrix4 {
            cols: [
                [ONE, ZERO, ZERO, ZERO],
                [ZERO, ONE, ZERO, ZERO],
                [ZERO, ZERO, ONE, ZERO],
                [ZERO, ZERO, ZERO, ONE],
            ],
        }
    }
}

} // verus!
