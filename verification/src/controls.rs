//! The state behind the single row of controls: the persisted settings, the
//! volume steps, and the playback transport that starts and fades out the
//! stream.

use vstd::prelude::*;

verus! {

/// The lowest volume the controls offer.
pub const VOLUME_MIN: u32 = 0;

/// The highest volume the controls offer.
pub const VOLUME_MAX: u32 = 99;

/// The volume that the sanitised settings hold for a stored `volume`.
pub open spec fn clamp_volume(volume: int) -> int {
    if volume < VOLUME_MIN {
        VOLUME_MIN as int
    } else if volume > VOLUME_MAX {
        VOLUME_MAX as int
    } else {
        volume
    }
}

/// The settings that persist between runs.
#[derive(Clone, Copy, PartialEq, Eq, Debug, Structural)]
pub struct Settings {
    pub volume: u32,
    pub stereo: bool,
}

impl Default for Settings {
    fn default() -> (settings: Settings)
        ensures
            settings.volume == 30,
            !settings.stereo,
    {
        Settings { volume: 30, stereo: false }
    }
}

impl Settings {
    /// The settings as loaded from storage, with the volume pulled into the
    /// range the controls offer.
    pub fn clamped(&self) -> (settings: Settings)
        ensures
            settings.volume == clamp_volume(self.volume as int),
            settings.stereo == self.stereo,
    {
        let volume: u32 = if self.volume < VOLUME_MIN {
            VOLUME_MIN
        } else if self.volume > VOLUME_MAX {
            VOLUME_MAX
        } else {
            self.volume
        };
        Settings { volume, stereo: self.stereo }
    }

    /// Moves the volume by `steps` (one per scroll-wheel notch), staying in
    /// range. Zero steps leave the volume as it is.
    pub fn nudge_volume(&mut self, steps: i32)
        requires
            steps != 0 ==> i32::MIN <= as_i32(old(self).volume) + steps <= i32::MAX,
        ensures
            final(self).stereo == old(self).stereo,
            steps == 0 ==> final(self).volume == old(self).volume,
            steps != 0 ==> final(self).volume == clamp_volume(as_i32(old(self).volume) + steps),
            steps != 0 ==> VOLUME_MIN <= final(self).volume <= VOLUME_MAX,
            steps != 0 && as_i32(old(self).volume) + steps <= VOLUME_MIN ==> final(self).volume == VOLUME_MIN,
            steps != 0 && as_i32(old(self).volume) + steps >= VOLUME_MAX ==> final(self).volume == VOLUME_MAX,
            steps != 0 && VOLUME_MIN <= as_i32(old(self).volume) + steps <= VOLUME_MAX
                ==> final(self).volume == as_i32(old(self).volume) + steps,
    {
        if steps == 0 {
            return;
        }
        let signed: i32 = self.volume as i32;
        let volume_bits: u32 = self.volume;
        assert(signed == as_i32(volume_bits)) by (bit_vector)
            requires
                signed == volume_bits as i32,
        ;
        let moved: i32 = signed + steps;
        let volume: u32 = if moved < VOLUME_MIN as i32 {
            VOLUME_MIN
        } else if moved > VOLUME_MAX as i32 {
            VOLUME_MAX
        } else {
            moved as u32
        };
        self.volume = volume;
    }
}

/// A volume read as a signed 32-bit number, as the nudge arithmetic reads it:
/// values above `i32::MAX` wrap around to negative ones.
pub open spec fn as_i32(volume: u32) -> int {
    if volume <= i32::MAX {
        volume as int
    } else {
        volume - 0x1_0000_0000
    }
}

/// Sanitising settings twice changes nothing more, and leaves a volume that
/// is already in range alone.
pub proof fn lemma_clamp_volume_idempotent(volume: int)
    ensures
        VOLUME_MIN <= clamp_volume(volume) <= VOLUME_MAX,
        clamp_volume(clamp_volume(volume)) == clamp_volume(volume),
        VOLUME_MIN <= volume <= VOLUME_MAX ==> clamp_volume(volume) == volume,
{
}

/// Clamping keeps the order of volumes: a nudge down never raises the volume
/// and a nudge up never lowers it; a sum below the range gives the minimum and
/// one above it the maximum.
pub proof fn lemma_clamp_volume_monotone(a: int, b: int)
    ensures
        a <= b ==> clamp_volume(a) <= clamp_volume(b),
        a <= VOLUME_MIN ==> clamp_volume(a) == VOLUME_MIN,
        a >= VOLUME_MAX ==> clamp_volume(a) == VOLUME_MAX,
        VOLUME_MIN <= a <= VOLUME_MAX && b < 0 ==> clamp_volume(a + b) <= a,
        VOLUME_MIN <= a <= VOLUME_MAX && b > 0 ==> clamp_volume(a + b) >= a,
{
}

/// A nudge up followed by the same nudge down returns to the start volume,
/// unless the first one hit the top of the range.
pub proof fn lemma_nudge_undo(volume: int, steps: int)
    requires
        VOLUME_MIN <= volume <= VOLUME_MAX,
        steps > 0,
        volume + steps <= VOLUME_MAX,
    ensures
        clamp_volume(clamp_volume(volume + steps) - steps) == volume,
{
}

/// What the transport asks of the app after a frame.
#[derive(Clone, Copy, PartialEq, Eq, Debug, Structural)]
pub enum TickAction {
    /// Nothing to do.
    Idle,
    /// The fade-out has finished: drop the stream.
    DropStream,
    /// Still fading out: draw another frame soon to notice the end.
    Repaint,
}

/// Playback: whether noise is playing, whether a stream is open, and whether
/// it is fading out before it is dropped.
pub struct Transport {
    playing: bool,
    stopping: bool,
    streaming: bool,
    error: Option<String>,
}

impl Transport {
    /// A stream plays only while it is open, and only an open stream that no
    /// longer plays is fading out.
    #[verifier::type_invariant]
    spec fn consistent(self) -> bool {
        self.is_consistent()
    }

    pub closed spec fn is_playing(self) -> bool {
        self.playing
    }

    pub closed spec fn is_stopping(self) -> bool {
        self.stopping
    }

    pub closed spec fn is_streaming(self) -> bool {
        self.streaming
    }

    pub closed spec fn last_error(self) -> Option<String> {
        self.error
    }

    /// Playing needs an open stream, and a fade-out runs only on an open
    /// stream that no longer plays.
    pub open spec fn is_consistent(self) -> bool {
        &&& self.is_playing() ==> self.is_streaming()
        &&& self.is_stopping() ==> self.is_streaming() && !self.is_playing()
    }

    /// Stopped, with no stream and no error.
    pub fn new() -> (t: Transport)
        ensures
            !t.is_playing(),
            !t.is_stopping(),
            !t.is_streaming(),
            t.last_error() is None,
            t.is_consistent(),
    {
        Transport { playing: false, stopping: false, streaming: false, error: None }
    }

    pub fn playing(&self) -> (playing: bool)
        ensures
            playing == self.is_playing(),
    {
        self.playing
    }

    pub fn stopping(&self) -> (stopping: bool)
        ensures
            stopping == self.is_stopping(),
    {
        self.stopping
    }

    pub fn streaming(&self) -> (streaming: bool)
        ensures
            streaming == self.is_streaming(),
    {
        self.streaming
    }

    pub fn error(&self) -> (error: Option<String>)
        ensures
            error == self.last_error(),
    {
        self.error.clone()
    }

    /// Playback was started: any fade-out in progress is abandoned, and the
    /// stream was opened (`Ok`) or could not be (`Err`, with the reason).
    pub fn start(&mut self, opened: Result<(), String>)
        ensures
            !final(self).is_stopping(),
            final(self).is_playing() == (opened is Ok),
            final(self).is_streaming() == (opened is Ok),
            final(self).last_error() == (match opened {
                Ok(()) => None,
                Err(reason) => Some(reason),
            }),
            final(self).is_consistent(),
    {
        proof {
            use_type_invariant(&*self);
        }
        self.stopping = false;
        match opened {
            Ok(()) => {
                self.streaming = true;
                self.playing = true;
                self.error = None;
            },
            Err(reason) => {
                self.playing = false;
                self.streaming = false;
                self.error = Some(reason);
            },
        }
    }

    /// Stop playing: the gain ramps to zero, and an open stream fades out
    /// before it is dropped.
    pub fn stop(&mut self)
        ensures
            !final(self).is_playing(),
            final(self).is_stopping() == old(self).is_streaming(),
            final(self).is_streaming() == old(self).is_streaming(),
            final(self).last_error() == old(self).last_error(),
            final(self).is_consistent(),
    {
        proof {
            use_type_invariant(&*self);
        }
        self.playing = false;
        self.stopping = self.streaming;
    }

    /// One frame went by; `silent` tells whether the callback reports that the
    /// fade-out has reached zero.
    pub fn tick(&mut self, silent: bool) -> (action: TickAction)
        ensures
            old(self).is_stopping() && silent ==> {
                &&& action == TickAction::DropStream
                &&& !final(self).is_streaming()
                &&& !final(self).is_stopping()
            },
            old(self).is_stopping() && !silent ==> {
                &&& action == TickAction::Repaint
                &&& final(self).is_streaming() == old(self).is_streaming()
                &&& final(self).is_stopping()
            },
            !old(self).is_stopping() ==> {
                &&& action == TickAction::Idle
                &&& final(self).is_streaming() == old(self).is_streaming()
                &&& !final(self).is_stopping()
            },
            final(self).is_playing() == old(self).is_playing(),
            final(self).last_error() == old(self).last_error(),
            final(self).is_consistent(),
    {
        proof {
            use_type_invariant(&*self);
        }
        if self.stopping {
            if silent {
                self.stopping = false;
                self.streaming = false;
                TickAction::DropStream
            } else {
                TickAction::Repaint
            }
        } else {
            TickAction::Idle
        }
    }
}

} // verus!
