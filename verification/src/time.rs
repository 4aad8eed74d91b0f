//! Frequencies.

use vstd::prelude::*;

verus! {

/// A frequency, in cycles per second.
#[derive(Clone, Copy, Debug, PartialEq, Eq, Structural)]
pub struct Hertz(pub u32);

impl Hertz {
    /// `n` Hz.
    pub fn hz(n: u32) -> (f: Hertz)
        ensures
            f.0 == n,
    {
        Hertz(n)
    }

    /// `n` kHz, or `None` where that is more than a `u32` holds.
    pub fn khz(n: u32) -> (f: Option<Hertz>)
        ensures
            f == (if n * 1_000 <= u32::MAX {
                Some(Hertz((n * 1_000) as u32))
            } else {
                None
            }),
    {
        match n.checked_mul(1_000) {
            Some(v) => Some(Hertz(v)),
            None => None,
        }
    }

    /// `n` MHz, or `None` where that is more than a `u32` holds.
    pub fn mhz(n: u32) -> (f: Option<Hertz>)
        ensures
            f == (if n * 1_000_000 <= u32::MAX {
                Some(Hertz((n * 1_000_000) as u32))
            } else {
                None
            }),
    {
        match n.checked_mul(1_000_000) {
            Some(v) => Some(Hertz(v)),
            None => None,
        }
    }

    /// What is left of this frequency behind a prescaler.
    ///
    /// The quotient is rounded down.  A ratio of zero is no prescaler, and a
    /// clock that the division would stop (a quotient of zero) is not handed
    /// out as a frequency: both give `None`.
    pub open spec fn spec_divided_by(self, ratio: u32) -> Option<Hertz> {
        if ratio == 0 || self.0 / ratio == 0 {
            None
        } else {
            Some(Hertz(self.0 / ratio))
        }
    }

    /// See [`Hertz::spec_divided_by`].
    pub fn divided_by(self, ratio: u32) -> (f: Option<Hertz>)
        ensures
            f == self.spec_divided_by(ratio),
    {
        if ratio == 0 {
            return None;
        }
        let q: u32 = self.0 / ratio;
        if q == 0 {
            None
        } else {
            Some(Hertz(q))
        }
    }
}

} // verus!
