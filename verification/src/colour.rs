//! Colours, held as exact integer components so that they can be compared
//! and reasoned about; the renderer turns them into its own colour type.

use vstd::prelude::*;

verus! {

/// An opaque colour.
#[derive(Debug, Clone, Copy, PartialEq, Eq, Structural)]
pub enum Colour {
    /// Red, green and blue in thousandths of full intensity (`0..=1000` each).
    Permille(u16, u16, u16),
    /// Red, green and blue as bytes (`0..=255` each).
    Bytes(u8, u8, u8),
}

impl Colour {
    /// Whether the components lie in their documented ranges.
    pub open spec fn wf(self) -> bool {
        match self {
            Colour::Permille(r, g, b) => r <= 1000 && g <= 1000 && b <= 1000,
            Colour::Bytes(..) => true,
        }
    }

    /// The neutral grey called silver: three quarters of full intensity.
    pub fn silver() -> (c: Colour)
        ensures
            c == (Colour::Permille(750, 750, 750)),
    {
        Colour::Permille(750, 750, 750)
    }

    /// Pure red.
    pub fn red() -> (c: Colour)
        ensures
            c == (Colour::Permille(1000, 0, 0)),
    {
        Colour::Permille(1000, 0, 0)
    }

    /// Black.
    pub fn black() -> (c: Colour)
        ensures
            c == (Colour::Permille(0, 0, 0)),
    {
        Colour::Permille(0, 0, 0)
    }
}

} // verus!
