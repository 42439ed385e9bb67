//! The seeded pseudorandom stream of a generation session.

use vstd::prelude::*;

use rand::rngs::StdRng;
use rand::Rng;
use rand::SeedableRng;

verus! {

/// rand's standard generator, carried opaquely by the stream.
#[verifier::external_type_specification]
#[verifier::external_body]
pub struct ExStdRng(StdRng);

/// Outcome of the draw at position `index` of the stream seeded with
/// `seed`, taken with chance `numerator / denominator` (numerator below
/// denominator): each such draw consumes one value of the stream, which the
/// seed fixes.
pub uninterp spec fn stream_draw(seed: u64, index: nat, numerator: u32, denominator: u32) -> bool;

/// A seeded pseudorandom stream, with the seed and the number of values
/// consumed so far.
pub struct DrawStream {
    rng: StdRng,
    seed: Ghost<u64>,
    pos: Ghost<nat>,
}

impl DrawStream {
    /// The seed the stream was created with.
    pub closed spec fn seed(&self) -> u64 {
        self.seed@
    }

    /// The number of values consumed so far.
    pub closed spec fn pos(&self) -> nat {
        self.pos@
    }

    /// Relies on rand's `SeedableRng::seed_from_u64` for `StdRng`: a fresh
    /// stream, fixed by the seed.
    #[verifier::external_body]
    pub(crate) fn seeded(seed: u64) -> (r: DrawStream)
        ensures
            r.seed() == seed,
            r.pos() == 0,
    {
        DrawStream { rng: StdRng::seed_from_u64(seed), seed: Ghost(seed), pos: Ghost(0) }
    }

    /// Relies on rand's `Rng::gen_ratio`: true with chance
    /// `numerator / denominator`. Below certainty it consumes one value of
    /// the stream; with numerator equal to denominator it is true and
    /// consumes none. It panics when the denominator is zero or below the
    /// numerator.
    #[verifier::external_body]
    pub(crate) fn draw(&mut self, numerator: u32, denominator: u32) -> (r: bool)
        requires
            0 < denominator,
            numerator <= denominator,
        ensures
            final(self).seed() == old(self).seed(),
            numerator < denominator ==> final(self).pos() == old(self).pos() + 1 && r
                == stream_draw(old(self).seed(), old(self).pos(), numerator, denominator),
            numerator == denominator ==> r && final(self).pos() == old(self).pos(),
            numerator == 0 ==> !r,
    {
        self.rng.gen_ratio(numerator, denominator)
    }
}

} // verus!
