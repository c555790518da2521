//! The seeded pseudo-random generator, `pcg_rand::Pcg32Basic`, with a ghost
//! model of its state.
//!
//! The state step of the generator is a plain linear congruential step and is
//! stated exactly; the output permutation applied to the old state is named,
//! as a function of that state alone.
use vstd::prelude::*;
use pcg_rand::seeds::PcgSeeder;
use pcg_rand::Pcg32Basic;
use rand::{RngCore, SeedableRng};

verus! {

#[verifier::external_type_specification]
#[verifier::external_body]
pub struct ExPcg32Basic(Pcg32Basic);

/// The multiplier of the generator's linear congruential step.
pub const PCG_MULTIPLIER: u64 = 6_364_136_223_846_793_005;

/// The state of a `Pcg32Basic`: the current state word and the stream
/// increment.
#[derive(Clone, Copy, Debug, PartialEq, Eq, Structural)]
pub struct PcgModel {
    pub state: u64,
    pub inc: u64,
}

/// The generator after one 32-bit draw: `state * PCG_MULTIPLIER + (inc | 1)`,
/// wrapping.
pub open spec fn pcg_advance(m: PcgModel) -> PcgModel {
    PcgModel {
        state: ((m.state as int * PCG_MULTIPLIER as int + (m.inc | 1u64) as int) % 0x1_0000_0000_0000_0000) as u64,
        inc: m.inc,
    }
}

/// The 32-bit value drawn from a generator whose state word is `state`.
pub uninterp spec fn pcg_output(state: u64) -> u32;

/// The 64-bit value drawn from generator `m`: two 32-bit draws, the first
/// as the low word.
pub open spec fn pcg_output_u64(m: PcgModel) -> u64 {
    (pcg_output(m.state) as int + pcg_output(pcg_advance(m).state) as int * 0x1_0000_0000) as u64
}

/// A `Pcg32Basic` together with the ghost model of its state.
pub struct Generator {
    rng: Pcg32Basic,
    model: Ghost<PcgModel>,
}

impl View for Generator {
    type V = PcgModel;

    closed spec fn view(&self) -> PcgModel {
        self.model@
    }
}

/// Relies on `Pcg32Basic::from_seed` with `PcgSeeder::seed_with_stream`: the
/// seeder holds `seed` then `stream`, and `from_seed` reads the state word
/// and then the increment from it.
#[verifier::external_body]
pub(crate) fn seeded_generator(seed: u64, stream: u64) -> (r: Generator)
    ensures
        r@ == (PcgModel { state: seed, inc: stream }),
{
    Generator {
        rng: Pcg32Basic::from_seed(PcgSeeder::seed_with_stream(seed, stream)),
        model: Ghost(PcgModel { state: seed, inc: stream }),
    }
}

/// Relies on `RngCore::next_u32` of `Pcg32Basic`: the output is a function
/// of the old state word, and the state takes one linear congruential step.
#[verifier::external_body]
pub(crate) fn next_u32(g: &mut Generator) -> (r: u32)
    ensures
        r == pcg_output(old(g)@.state),
        final(g)@ == pcg_advance(old(g)@),
{
    let r = g.rng.next_u32();
    g.model = Ghost(pcg_advance(g.model@));
    r
}

/// Relies on `RngCore::next_u64` of `Pcg32Basic`, which is rand_core's
/// `next_u64_via_u32`: two 32-bit draws, the first as the low word.
#[verifier::external_body]
pub(crate) fn next_u64(g: &mut Generator) -> (r: u64)
    ensures
        r == pcg_output_u64(old(g)@),
        final(g)@ == pcg_advance(pcg_advance(old(g)@)),
{
    let r = g.rng.next_u64();
    g.model = Ghost(pcg_advance(pcg_advance(g.model@)));
    r
}

} // verus!
