//! The three noise flavors and the integer white-noise source behind them.
//!
//! - Vanilla: white noise, flat spectrum.
//! - Chocolate: brown noise, -6 dB/octave.
//! - Strawberry: pink noise, -3 dB/octave.
//!
//! The filters themselves work on floating-point samples and live with the
//! audio front end; this module holds what they are built on: the flavor
//! itself and the xorshift generator that feeds every channel.

use vstd::prelude::*;

verus! {

/// The three noise flavors, named after the ice-cream bands.
#[derive(Clone, Copy, PartialEq, Eq, Debug, Structural)]
pub enum Flavor {
    Vanilla,
    Chocolate,
    Strawberry,
}

/// The byte a flavor is stored as (in the shared playback parameters).
pub open spec fn flavor_code(flavor: Flavor) -> u8 {
    match flavor {
        Flavor::Vanilla => 0,
        Flavor::Chocolate => 1,
        Flavor::Strawberry => 2,
    }
}

/// The flavor a stored byte stands for. Any byte that is no flavor's code
/// reads as chocolate, the default flavor.
pub open spec fn flavor_of_code(code: u8) -> Flavor {
    if code == 0 {
        Flavor::Vanilla
    } else if code == 2 {
        Flavor::Strawberry
    } else {
        Flavor::Chocolate
    }
}

/// The flavor's name as the picker shows it.
pub open spec fn flavor_label(flavor: Flavor) -> Seq<char> {
    match flavor {
        Flavor::Vanilla => "vanilla"@,
        Flavor::Chocolate => "chocolate"@,
        Flavor::Strawberry => "strawberry"@,
    }
}

/// The kind of noise the flavor plays.
pub open spec fn flavor_noise_name(flavor: Flavor) -> Seq<char> {
    match flavor {
        Flavor::Vanilla => "white noise"@,
        Flavor::Chocolate => "brown noise"@,
        Flavor::Strawberry => "pink noise"@,
    }
}

impl Flavor {
    pub fn label(self) -> (name: &'static str)
        ensures
            name@ == flavor_label(self),
    {
        match self {
            Flavor::Vanilla => "vanilla",
            Flavor::Chocolate => "chocolate",
            Flavor::Strawberry => "strawberry",
        }
    }

    pub fn noise_name(self) -> (name: &'static str)
        ensures
            name@ == flavor_noise_name(self),
    {
        match self {
            Flavor::Vanilla => "white noise",
            Flavor::Chocolate => "brown noise",
            Flavor::Strawberry => "pink noise",
        }
    }

    pub fn to_u8(self) -> (code: u8)
        ensures
            code == flavor_code(self),
    {
        match self {
            Flavor::Vanilla => 0,
            Flavor::Chocolate => 1,
            Flavor::Strawberry => 2,
        }
    }

    pub fn from_u8(value: u8) -> (flavor: Flavor)
        ensures
            flavor == flavor_of_code(value),
    {
        match value {
            0 => Flavor::Vanilla,
            2 => Flavor::Strawberry,
            _ => Flavor::Chocolate,
        }
    }
}

impl Default for Flavor {
    fn default() -> (flavor: Flavor)
        ensures
            flavor == Flavor::Chocolate,
    {
        Flavor::Chocolate
    }
}

/// Decoding a flavor's code gives the flavor back.
pub proof fn lemma_flavor_code_roundtrip(flavor: Flavor)
    ensures
        flavor_of_code(flavor_code(flavor)) == flavor,
{
}

/// The codes 0, 1 and 2 are exactly the flavors' codes; every other byte
/// decodes to the default flavor, chocolate.
pub proof fn lemma_flavor_codes(code: u8)
    ensures
        code <= 2 ==> flavor_code(flavor_of_code(code)) == code,
        code > 2 ==> flavor_of_code(code) == Flavor::Chocolate,
{
}

/// Distinct flavors have distinct codes, names and noise names.
pub proof fn lemma_flavors_distinguishable(a: Flavor, b: Flavor)
    requires
        a != b,
    ensures
        flavor_code(a) != flavor_code(b),
        flavor_label(a) != flavor_label(b),
        flavor_noise_name(a) != flavor_noise_name(b),
{
    reveal_strlit("vanilla");
    reveal_strlit("chocolate");
    reveal_strlit("strawberry");
    reveal_strlit("white noise");
    reveal_strlit("brown noise");
    reveal_strlit("pink noise");
    assert("vanilla"@[0] != "chocolate"@[0]);
    assert("vanilla"@[0] != "strawberry"@[0]);
    assert("chocolate"@[0] != "strawberry"@[0]);
    assert("white noise"@[0] != "brown noise"@[0]);
    assert("white noise"@[0] != "pink noise"@[0]);
    assert("brown noise"@[0] != "pink noise"@[0]);
}

/// The seed used in place of zero, at which xorshift is stuck.
pub const FALLBACK_SEED: u32 = 0x9E37_79B9;

/// One step of Marsaglia's 32-bit xorshift (shifts 13, 17, 5).
pub open spec fn xorshift32(x: u32) -> u32 {
    let a: u32 = x ^ (x << 13u32);
    let b: u32 = a ^ (a >> 17u32);
    b ^ (b << 5u32)
}

/// The generator's starting state for a seed.
pub open spec fn seeded_state(seed: u32) -> u32 {
    if seed == 0 {
        FALLBACK_SEED
    } else {
        seed
    }
}

/// Only the zero seed is replaced: every other seed is the starting state
/// itself, so distinct seeds start distinct generators.
pub proof fn lemma_seeds_kept(seed: u32, other: u32)
    ensures
        seed != 0 ==> seeded_state(seed) == seed,
        seed == 0 ==> seeded_state(seed) == FALLBACK_SEED,
        seeded_state(seed) != 0,
        seed != 0 && other != 0 && seed != other ==> seeded_state(seed) != seeded_state(other),
{
}

/// A step never leads from a nonzero state to the zero state, where the
/// generator would stay forever.
pub proof fn lemma_xorshift32_nonzero(x: u32)
    requires
        x != 0,
    ensures
        xorshift32(x) != 0,
{
    assert(x != 0 ==> (x ^ (x << 13u32)) != 0) by (bit_vector);
    let a: u32 = x ^ (x << 13u32);
    assert(a != 0 ==> (a ^ (a >> 17u32)) != 0) by (bit_vector);
    let b: u32 = a ^ (a >> 17u32);
    assert(b != 0 ==> (b ^ (b << 5u32)) != 0) by (bit_vector);
}

/// A step is one-to-one: different states lead to different states, so two
/// generators started from different seeds never fall into step.
pub proof fn lemma_xorshift32_injective(x: u32, y: u32)
    requires
        x != y,
    ensures
        xorshift32(x) != xorshift32(y),
{
    assert(x != y ==> (x ^ (x << 13u32)) != (y ^ (y << 13u32))) by (bit_vector);
    let ax: u32 = x ^ (x << 13u32);
    let ay: u32 = y ^ (y << 13u32);
    assert(ax != ay ==> (ax ^ (ax >> 17u32)) != (ay ^ (ay >> 17u32))) by (bit_vector);
    let bx: u32 = ax ^ (ax >> 17u32);
    let by_: u32 = ay ^ (ay >> 17u32);
    assert(bx != by_ ==> (bx ^ (bx << 5u32)) != (by_ ^ (by_ << 5u32))) by (bit_vector);
}

/// The uniform 32-bit source behind every noise channel.
pub struct Xorshift32 {
    state: u32,
}

impl View for Xorshift32 {
    type V = u32;

    closed spec fn view(&self) -> u32 {
        self.state
    }
}

impl Xorshift32 {
    #[verifier::type_invariant]
    spec fn nonzero(self) -> bool {
        self.state != 0
    }

    /// A generator seeded with `seed`; a zero seed is replaced by a fixed
    /// nonzero one.
    pub fn new(seed: u32) -> (rng: Xorshift32)
        ensures
            rng@ == seeded_state(seed),
            seed != 0 ==> rng@ == seed,
            seed == 0 ==> rng@ == FALLBACK_SEED,
            rng@ != 0,
    {
        let state: u32 = if seed == 0 {
            FALLBACK_SEED
        } else {
            seed
        };
        Xorshift32 { state }
    }

    /// Advances the generator one step and returns the new state.
    pub fn next_u32(&mut self) -> (x: u32)
        ensures
            x == xorshift32(old(self)@),
            final(self)@ == x,
            x != 0,
    {
        proof {
            use_type_invariant(&*self);
            lemma_xorshift32_nonzero(self.state);
        }
        let mut x = self.state;
        x = x ^ (x << 13u32);
        x = x ^ (x >> 17u32);
        x = x ^ (x << 5u32);
        self.state = x;
        x
    }
}

} // verus!
