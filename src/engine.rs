use std::time::Instant;
use vstd::prelude::*;

verus! {

/// Largest volume level; levels run from 0 to this value.
pub const MAX_VOLUME: u64 = 100;

/// Step by which `volume_up` and `volume_down` move the level.
pub const VOLUME_STEP: u64 = 10;

/// Pause-aware record of elapsed playback time, in milliseconds of a clock
/// chosen by the owner.
pub struct PositionTracker {
    /// Clock reading at which playback of the loaded track first began.
    pub start_time: Option<u64>,
    /// Length of the loaded track, where the decoder knows it.
    pub total_duration: Option<u64>,
    pub is_playing: bool,
    /// Total time spent paused since `start_time`.
    pub paused_time: u64,
    /// Clock reading at which the current pause began.
    pub last_pause_time: Option<u64>,
}

pub open spec fn sat_sub(a: u64, b: u64) -> u64 {
    if a >= b { (a - b) as u64 } else { 0 }
}

pub open spec fn sat_add(a: u64, b: u64) -> u64 {
    if a + b > u64::MAX { u64::MAX } else { (a + b) as u64 }
}

impl PositionTracker {
    /// A record that is playing has no pause anchor; a record that never
    /// started holds nothing but the track length.
    pub open spec fn wf(self) -> bool {
        &&& (self.is_playing ==> self.last_pause_time is None)
        &&& (self.start_time is None ==> {
            &&& !self.is_playing
            &&& self.paused_time == 0
            &&& self.last_pause_time is None
        })
    }

    /// The record right after a track with length `total` was loaded.
    pub open spec fn fresh(total: Option<u64>) -> PositionTracker {
        PositionTracker {
            start_time: None,
            total_duration: total,
            is_playing: false,
            paused_time: 0,
            last_pause_time: None,
        }
    }

    /// The record after a play command at clock reading `now`.
    pub open spec fn played(self, now: u64) -> PositionTracker {
        if self.start_time is None {
            PositionTracker { start_time: Some(now), is_playing: true, ..self }
        } else if let Some(p) = self.last_pause_time {
            PositionTracker {
                paused_time: sat_add(self.paused_time, sat_sub(now, p)),
                last_pause_time: None,
                is_playing: true,
                ..self
            }
        } else {
            PositionTracker { is_playing: true, ..self }
        }
    }

    /// The record after a pause command at clock reading `now`. A record that
    /// never started has nothing to freeze; a second pause keeps the first anchor.
    pub open spec fn paused(self, now: u64) -> PositionTracker {
        if self.start_time is None || self.last_pause_time is Some {
            PositionTracker { is_playing: false, ..self }
        } else {
            PositionTracker { is_playing: false, last_pause_time: Some(now), ..self }
        }
    }

    /// Elapsed playback time at clock reading `now`, floored at zero.
    pub open spec fn position(self, now: u64) -> u64 {
        match self.start_time {
            None => 0,
            Some(s) => if self.is_playing {
                sat_sub(sat_sub(now, s), self.paused_time)
            } else {
                match self.last_pause_time {
                    Some(p) => sat_sub(sat_sub(p, s), self.paused_time),
                    None => 0,
                }
            },
        }
    }

    /// Elapsed and total time in whole seconds at clock reading `now`; an
    /// unknown total counts as zero.
    pub open spec fn seconds_at(self, now: u64) -> (u64, u64) {
        (
            seconds(self.position(now)),
            seconds(
                match self.total_duration {
                    Some(d) => d,
                    None => 0,
                },
            ),
        )
    }

    pub fn new(total_duration: Option<u64>) -> (r: Self)
        ensures
            r == PositionTracker::fresh(total_duration),
            r.wf(),
    {
        PositionTracker {
            start_time: None,
            total_duration,
            is_playing: false,
            paused_time: 0,
            last_pause_time: None,
        }
    }

    pub fn play_at(&mut self, now: u64)
        requires
            old(self).wf(),
        ensures
            *final(self) == old(self).played(now),
            final(self).wf(),
    {
        if self.start_time.is_none() {
            self.start_time = Some(now);
        } else if let Some(p) = self.last_pause_time {
            self.paused_time = self.paused_time.saturating_add(now.saturating_sub(p));
            self.last_pause_time = None;
        }
        self.is_playing = true;
    }

    pub fn pause_at(&mut self, now: u64)
        requires
            old(self).wf(),
        ensures
            *final(self) == old(self).paused(now),
            final(self).wf(),
    {
        if self.start_time.is_some() && self.last_pause_time.is_none() {
            self.last_pause_time = Some(now);
        }
        self.is_playing = false;
    }

    pub fn position_at(&self, now: u64) -> (r: u64)
        ensures
            r == self.position(now),
    {
        match self.start_time {
            None => 0,
            Some(s) => if self.is_playing {
                now.saturating_sub(s).saturating_sub(self.paused_time)
            } else {
                match self.last_pause_time {
                    Some(p) => p.saturating_sub(s).saturating_sub(self.paused_time),
                    None => 0,
                }
            },
        }
    }
}

impl Default for PositionTracker {
    fn default() -> (r: Self)
        ensures
            r == PositionTracker::fresh(None),
    {
        PositionTracker::new(None)
    }
}


/// Elapsed time in whole seconds of a millisecond reading.
pub open spec fn seconds(ms: u64) -> u64 {
    ms / 1000
}

pub open spec fn clamp_volume(v: int) -> u64 {
    if v > MAX_VOLUME { MAX_VOLUME } else if v < 0 { 0 } else { v as u64 }
}

#[verifier::external_type_specification]
#[verifier::external_body]
pub struct ExInstant(Instant);

/// Relies on `std::time::Instant::now`: a reading of the monotonic clock, kept
/// as the origin of the engine's millisecond readings.
#[verifier::external_body]
fn clock_origin() -> (r: Instant) {
    Instant::now()
}

/// Relies on `std::time::Instant::elapsed`: milliseconds since `origin`. The
/// value depends on the time, so nothing is promised of it.
#[verifier::external_body]
fn millis_since(origin: &Instant) -> (r: u64) {
    origin.elapsed().as_millis() as u64
}

/// The time-keeping side of playback: the position record and the volume
/// level. The caller drives the audio device from `is_paused` and `volume`.
pub struct AudioEngine {
    /// Origin of the millisecond readings that play, pause and position use.
    pub clock: Instant,
    pub position: PositionTracker,
    pub volume: u64,
}

impl AudioEngine {
    pub open spec fn wf(self) -> bool {
        self.position.wf() && self.volume <= MAX_VOLUME
    }

    /// An engine with nothing loaded, at `volume` clamped to the maximum level.
    pub fn new(volume: u64) -> (r: Self)
        ensures
            r.wf(),
            r.position == PositionTracker::fresh(None),
            r.volume == clamp_volume(volume as int),
    {
        let v: u64 = if volume > MAX_VOLUME { MAX_VOLUME } else { volume };
        AudioEngine { clock: clock_origin(), position: PositionTracker::new(None), volume: v }
    }

    /// Records a newly decoded track of length `total_duration` (absent when the
    /// decoder does not know it): the position record starts over.
    pub fn load_audio(&mut self, total_duration: Option<u64>)
        requires
            old(self).wf(),
        ensures
            final(self).wf(),
            final(self).position == PositionTracker::fresh(total_duration),
            final(self).volume == old(self).volume,
    {
        self.position = PositionTracker::new(total_duration);
    }

    /// Starts or resumes playback at the current clock reading.
    pub fn play(&mut self)
        requires
            old(self).wf(),
        ensures
            final(self).wf(),
            exists|now: u64| final(self).position == #[trigger] old(self).position.played(now),
            final(self).volume == old(self).volume,
    {
        let now = millis_since(&self.clock);
        self.position.play_at(now);
    }

    /// Pauses playback at the current clock reading.
    pub fn pause(&mut self)
        requires
            old(self).wf(),
        ensures
            final(self).wf(),
            exists|now: u64| final(self).position == #[trigger] old(self).position.paused(now),
            final(self).volume == old(self).volume,
    {
        let now = millis_since(&self.clock);
        self.position.pause_at(now);
    }

    pub fn is_paused(&self) -> (r: bool)
        ensures
            r == !self.position.is_playing,
    {
        !self.position.is_playing
    }

    pub fn get_total_duration(&self) -> (r: Option<u64>)
        ensures
            r == self.position.total_duration,
    {
        self.position.total_duration
    }

    /// Elapsed playback time in milliseconds at the current clock reading.
    pub fn get_current_position(&self) -> (r: u64)
        ensures
            exists|now: u64| r == #[trigger] self.position.position(now),
    {
        let now = millis_since(&self.clock);
        self.position.position_at(now)
    }

    /// Elapsed and total time in whole seconds at clock reading `now`; an
    /// unknown total counts as zero.
    pub fn position_seconds_at(&self, now: u64) -> (r: (u64, u64))
        ensures
            r == self.position.seconds_at(now),
    {
        let current = self.position.position_at(now);
        let total = match self.position.total_duration {
            Some(d) => d,
            None => 0,
        };
        (current / 1000, total / 1000)
    }

    /// Elapsed and total time in whole seconds at the current clock reading.
    pub fn get_position_seconds(&self) -> (r: (u64, u64))
        ensures
            exists|now: u64| r == #[trigger] self.position.seconds_at(now),
    {
        let now = millis_since(&self.clock);
        self.position_seconds_at(now)
    }

    /// Raises the volume by one step, saturating at the maximum level.
    pub fn volume_up(&mut self)
        requires
            old(self).wf(),
        ensures
            final(self).wf(),
            final(self).volume == clamp_volume(old(self).volume + VOLUME_STEP),
            final(self).position == old(self).position,
    {
        let v = self.volume + VOLUME_STEP;
        self.volume = if v >= MAX_VOLUME { MAX_VOLUME } else { v };
    }

    /// Lowers the volume by one step, saturating at zero.
    pub fn volume_down(&mut self)
        requires
            old(self).wf(),
        ensures
            final(self).wf(),
            final(self).volume == clamp_volume(old(self).volume - VOLUME_STEP),
            final(self).position == old(self).position,
    {
        self.volume = self.volume.saturating_sub(VOLUME_STEP);
    }
}

/// While playing, the position never decreases as the clock advances; a play
/// command on a record that is already playing changes nothing, so this holds
/// across any run of play commands.
pub proof fn lemma_position_monotonic_while_playing(r: PositionTracker, start: u64, t1: u64, t2: u64)
    requires
        r.wf(),
        t1 <= t2,
    ensures
        r.played(start).position(t1) <= r.played(start).position(t2),
        r.played(start).played(t1) == r.played(start),
{
}

/// After a pause, the position is the same at every later clock reading.
pub proof fn lemma_pause_freezes_position(r: PositionTracker, at: u64, t1: u64, t2: u64)
    requires
        r.wf(),
    ensures
        r.paused(at).position(t1) == r.paused(at).position(t2),
{
}

/// Play at `t0`, pause at `t1`, play again at `t2`: at `t3` the position is the
/// time spent playing, whatever the length of the pause.
pub proof fn lemma_resume_continuity(total: Option<u64>, t0: u64, t1: u64, t2: u64, t3: u64)
    requires
        t0 <= t1 <= t2 <= t3,
    ensures
        PositionTracker::fresh(total).played(t0).paused(t1).played(t2).position(t3) == (t1 - t0)
            + (t3 - t2),
{
}

/// A freshly loaded track is at position zero at any clock reading, with the
/// loaded track's length.
pub proof fn lemma_load_resets(total: Option<u64>, now: u64)
    ensures
        PositionTracker::fresh(total).position(now) == 0,
        PositionTracker::fresh(total).total_duration == total,
        PositionTracker::fresh(total).wf(),
{
}

/// Two play commands in a row act as one, and so do two pause commands.
pub proof fn lemma_play_pause_idempotent(r: PositionTracker, t1: u64, t2: u64)
    requires
        r.wf(),
    ensures
        r.played(t1).played(t2) == r.played(t1),
        r.paused(t1).paused(t2) == r.paused(t1),
{
}

} // verus!
