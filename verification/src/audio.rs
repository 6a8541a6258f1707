//! What the UI thread and the audio callback share, and how the callback lays
//! a stereo pair of samples out in an interleaved frame.

use std::sync::atomic::{AtomicBool, AtomicU32, AtomicU8};
use std::sync::atomic::Ordering;
use vstd::prelude::*;

use crate::noise::Flavor;

verus! {

/// Shared between the UI thread (writer) and the audio callback (reader).
///
/// Every field is an atomic that the other thread may write at any moment, so
/// a read returns whatever was stored last by either thread: the getters
/// promise nothing about the value beyond its type, and what is decoded from
/// a stored byte is fixed by `Flavor::from_u8`.
pub struct Params {
    /// The target gain as the bits of an `f32`; atomics have no float variant.
    target_gain: AtomicU32,
    stereo: AtomicBool,
    /// The flavor as its byte; see `Flavor::to_u8`.
    flavor: AtomicU8,
    /// Set by the callback once the gain ramp has actually reached zero, so the
    /// UI knows it is safe to drop the stream without a click.
    silent: AtomicBool,
}

impl Params {
    /// New parameters: the given target gain (as `f32` bits), channel mode and
    /// flavor, and marked silent.
    pub fn new(gain_bits: u32, stereo: bool, flavor: Flavor) -> (params: Params) {
        let code: u8 = flavor.to_u8();
        Params {
            target_gain: AtomicU32::new(gain_bits),
            stereo: AtomicBool::new(stereo),
            flavor: AtomicU8::new(code),
            silent: AtomicBool::new(true),
        }
    }

    pub fn set_flavor(&self, flavor: Flavor) {
        let code: u8 = flavor.to_u8();
        self.flavor.store(code, Ordering::Relaxed);
    }

    pub fn flavor(&self) -> Flavor {
        let code: u8 = self.flavor.load(Ordering::Relaxed);
        Flavor::from_u8(code)
    }

    /// Stores the target gain, given as the bits of an `f32` already clamped
    /// to `0.0..=1.0`.
    pub fn set_gain_bits(&self, gain_bits: u32) {
        self.target_gain.store(gain_bits, Ordering::Relaxed);
    }

    /// The target gain as the bits of an `f32`.
    pub fn gain_bits(&self) -> u32 {
        self.target_gain.load(Ordering::Relaxed)
    }

    pub fn set_stereo(&self, stereo: bool) {
        self.stereo.store(stereo, Ordering::Relaxed);
    }

    pub fn stereo(&self) -> bool {
        self.stereo.load(Ordering::Relaxed)
    }

    /// Called by the audio callback at the end of each buffer.
    pub fn set_silent(&self, silent: bool) {
        self.silent.store(silent, Ordering::Release);
    }

    pub fn is_silent(&self) -> bool {
        self.silent.load(Ordering::Acquire)
    }
}

/// The frame the callback writes for one left/right pair: the right sample in
/// every odd slot, the left one in every even slot. A mono device gets the
/// left sample only; a device with more than two channels repeats the pair.
pub open spec fn interleaved<T>(len: nat, left: T, right: T) -> Seq<T> {
    Seq::new(len, |i: int| if i % 2 == 1 { right } else { left })
}

/// Every odd slot of an interleaved frame holds the right sample and every
/// even slot the left one, whatever the frame's length.
pub proof fn lemma_interleaved_slots<T>(len: nat, left: T, right: T, i: int)
    requires
        0 <= i < len,
    ensures
        interleaved(len, left, right).len() == len,
        i % 2 == 1 ==> interleaved(len, left, right)[i] == right,
        i % 2 == 0 ==> interleaved(len, left, right)[i] == left,
{
}

/// Writes one frame of an interleaved output buffer.
pub fn write_frame<T: Copy>(frame: &mut [T], left: T, right: T)
    ensures
        final(frame)@ == interleaved(old(frame)@.len(), left, right),
        final(frame)@.len() == old(frame)@.len(),
        forall|i: int| 0 <= i < old(frame)@.len() && i % 2 == 1 ==> #[trigger] final(frame)@[i] == right,
        forall|i: int| 0 <= i < old(frame)@.len() && i % 2 == 0 ==> #[trigger] final(frame)@[i] == left,
{
    let len: usize = frame.len();
    let mut i: usize = 0;
    while i < len
        invariant
            len == frame@.len(),
            len == old(frame)@.len(),
            0 <= i <= len,
            forall|j: int| 0 <= j < i ==> #[trigger] frame@[j] == (if j % 2 == 1 { right } else { left }),
        decreases len - i,
    {
        if i % 2 == 1 {
            frame[i] = right;
        } else {
            frame[i] = left;
        }
        i = i + 1;
    }
    assert(frame@ =~= interleaved(old(frame)@.len(), left, right));
}

} // verus!
