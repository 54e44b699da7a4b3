//! The playback controller: flags, volume, equalizer settings, lazy
//! position tracking, and the load/seek/skip state machine.
//!
//! The controller is a pure state machine. Clock readings arrive as
//! monotonic milliseconds from the caller, and each operation's result
//! tells the caller which hardware effect to perform (resume or halt the
//! output, set its gain, load a new stream); the controller itself does
//! no I/O and owns no device handle.

use crate::queue::{Queue, Song};
use std::collections::HashMap;
use vstd::prelude::*;

verus! {

/// A hardware output gain, carried opaquely as the bit pattern of the
/// binary32 value the output device is given. The controller never does
/// arithmetic on it: it only stores the level and decides whether the
/// stored level or silence reaches the device.
#[derive(Clone, Copy, PartialEq, Eq, Structural, Debug)]
pub struct Volume {
    pub bits: u32,
}

/// Bit pattern of the binary32 value one: the gain that leaves samples
/// unchanged, and the level a fresh controller starts at.
pub const UNIT_GAIN_BITS: u32 = 0x3F80_0000;

impl Volume {
    /// Zero gain: all bits clear is the binary32 value zero.
    pub open spec fn spec_silent() -> Volume {
        Volume { bits: 0 }
    }

    /// Zero gain: all bits clear is the binary32 value zero.
    #[verifier::when_used_as_spec(spec_silent)]
    pub fn silent() -> (v: Volume)
        ensures
            v == Volume::spec_silent(),
    {
        Volume { bits: 0 }
    }

    /// Unit gain, the initial volume.
    pub open spec fn spec_full() -> Volume {
        Volume { bits: UNIT_GAIN_BITS }
    }

    /// Unit gain, the initial volume.
    #[verifier::when_used_as_spec(spec_full)]
    pub fn full() -> (v: Volume)
        ensures
            v == Volume::spec_full(),
    {
        Volume { bits: UNIT_GAIN_BITS }
    }
}

/// Equalizer settings as the surrounding layer hands them over: a mapping
/// from band label to gain, both as text. The controller stores the value
/// wholesale; numeric parsing is the consuming edge's concern.
pub struct EQSettings {
    pub values: HashMap<String, String>,
}

/// Scale of the fixed-point fraction that `skip_to` takes: a position in
/// the track is given in parts per million of the unit interval.
pub const FRACTION_SCALE: u32 = 1_000_000;

/// The playback controller: play queue, playback flags, volume, equalizer
/// settings, and the timing state that derives the playback position
/// lazily from clock snapshots instead of a background timer.
pub struct AudioPlayer {
    duration: u64,
    progress: u64,
    last_update: u64,
    eq_settings: EQSettings,
    is_playing: bool,
    looping: bool,
    muted: bool,
    volume: Volume,
    queue: Queue,
    lossless: bool,
}

impl AudioPlayer {
    /// Track length of the loaded song, in milliseconds.
    pub closed spec fn spec_duration(&self) -> u64 {
        self.duration
    }

    /// Track length of the loaded song, in milliseconds.
    #[verifier::when_used_as_spec(spec_duration)]
    pub fn duration(&self) -> (d: u64)
        ensures
            d == self.spec_duration(),
    {
        self.duration
    }

    /// Accumulated elapsed playback time, in milliseconds.
    pub closed spec fn progress(self) -> u64 {
        self.progress
    }

    /// Clock reading at the last accrual, in milliseconds.
    pub closed spec fn last_update(self) -> u64 {
        self.last_update
    }

    /// The stored equalizer settings.
    pub closed spec fn eq_settings(self) -> EQSettings {
        self.eq_settings
    }

    /// The stored equalizer settings, reported on demand.
    pub fn eq_settings_ref(&self) -> (e: &EQSettings)
        ensures
            *e == self.eq_settings(),
    {
        &self.eq_settings
    }

    /// Whether playback is running.
    pub closed spec fn spec_is_playing(&self) -> bool {
        self.is_playing
    }

    /// Whether playback is running.
    #[verifier::when_used_as_spec(spec_is_playing)]
    pub fn is_playing(&self) -> (b: bool)
        ensures
            b == self.spec_is_playing(),
    {
        self.is_playing
    }

    /// The stored looping flag.
    pub closed spec fn spec_looping(&self) -> bool {
        self.looping
    }

    /// The stored looping flag.
    #[verifier::when_used_as_spec(spec_looping)]
    pub fn looping(&self) -> (b: bool)
        ensures
            b == self.spec_looping(),
    {
        self.looping
    }

    /// Whether the output is muted.
    pub closed spec fn spec_muted(&self) -> bool {
        self.muted
    }

    /// Whether the output is muted.
    #[verifier::when_used_as_spec(spec_muted)]
    pub fn muted(&self) -> (b: bool)
        ensures
            b == self.spec_muted(),
    {
        self.muted
    }

    /// The stored volume; it reaches the device only while unmuted.
    pub closed spec fn spec_volume(&self) -> Volume {
        self.volume
    }

    /// The stored volume; it reaches the device only while unmuted.
    #[verifier::when_used_as_spec(spec_volume)]
    pub fn volume(&self) -> (v: Volume)
        ensures
            v == self.spec_volume(),
    {
        self.volume
    }

    /// The play queue.
    pub closed spec fn queue(self) -> Queue {
        self.queue
    }

    /// The stored lossless flag.
    pub closed spec fn spec_lossless(&self) -> bool {
        self.lossless
    }

    /// The stored lossless flag.
    #[verifier::when_used_as_spec(spec_lossless)]
    pub fn lossless(&self) -> (b: bool)
        ensures
            b == self.spec_lossless(),
    {
        self.lossless
    }

    /// The gain the output device is under: silence while muted, the
    /// stored volume otherwise.
    pub open spec fn effective_gain(self) -> Volume {
        if self.muted() {
            Volume::spec_silent()
        } else {
            self.volume()
        }
    }

    /// The playback position a query at clock reading `now` reports:
    /// while playing, the accumulated progress plus the time since the
    /// last accrual; while not playing, the accumulated progress alone.
    pub open spec fn position_at(self, now: u64) -> int {
        if self.is_playing() {
            self.progress() + (now - self.last_update())
        } else {
            self.progress() as int
        }
    }

    /// The controller's clock never runs ahead of a fresh reading, and a
    /// position accrual while playing must fit the counter.
    pub open spec fn clock_ok(self, now: u64) -> bool {
        &&& self.last_update() <= now
        &&& self.position_at(now) <= u64::MAX
    }

    /// A fresh controller: nothing loaded, nothing playing, unit volume,
    /// an empty queue, and the clock snapshot taken at `now`.
    pub fn setup(now: u64) -> (p: AudioPlayer)
        ensures
            p.queue().well_formed(),
            p.duration() == 0,
            p.progress() == 0,
            p.last_update() == now,
            !p.is_playing(),
            !p.looping(),
            !p.muted(),
            !p.lossless(),
            p.volume() == Volume::spec_full(),
            p.queue().songs() == Seq::<Song>::empty(),
            p.eq_settings().values@ == Map::<String, String>::empty(),
    {
        AudioPlayer {
            duration: 0,
            progress: 0,
            last_update: now,
            eq_settings: EQSettings { values: HashMap::new() },
            is_playing: false,
            looping: false,
            muted: false,
            volume: Volume::full(),
            queue: Queue::new(),
            lossless: false,
        }
    }

    /// Reports the playback position at clock reading `now`, accruing the
    /// elapsed wall-clock time into the progress counter first when
    /// playing; a query while not playing changes nothing.
    pub fn get_playback_position(&mut self, now: u64) -> (pos: u64)
        requires
            old(self).clock_ok(now),
        ensures
            pos == old(self).position_at(now),
            final(self).progress() == old(self).position_at(now),
            final(self).duration() == old(self).duration(),
            final(self).is_playing() == old(self).is_playing(),
            final(self).last_update() == (if old(self).is_playing() {
                now
            } else {
                old(self).last_update()
            }),
            !old(self).is_playing() ==> *final(self) == *old(self),
            unchanged_but_timing(*old(self), *final(self)),
    {
        if self.is_playing {
            let elapsed = now - self.last_update;
            self.progress = self.progress + elapsed;
            self.last_update = now;
        }
        self.progress
    }

    /// Starts playback: the caller resumes the hardware output; the
    /// controller raises the playing flag and restarts accrual at `now`.
    pub fn play(&mut self, now: u64)
        ensures
            final(self).is_playing(),
            final(self).last_update() == now,
            final(self).progress() == old(self).progress(),
            final(self).duration() == old(self).duration(),
            unchanged_but_timing(*old(self), *final(self)),
    {
        self.is_playing = true;
        self.last_update = now;
    }

    /// Halts playback: the caller pauses the hardware output; the
    /// controller folds the time played so far into the progress counter
    /// and then freezes it by clearing the playing flag.
    pub fn pause(&mut self, now: u64)
        requires
            old(self).clock_ok(now),
        ensures
            !final(self).is_playing(),
            final(self).progress() == old(self).position_at(now),
            final(self).last_update() == now,
            final(self).duration() == old(self).duration(),
            unchanged_but_timing(*old(self), *final(self)),
    {
        self.get_playback_position(now);
        self.is_playing = false;
        self.last_update = now;
    }

    /// Toggles between playing and paused based on the current flag.
    pub fn play_pause(&mut self, now: u64)
        requires
            old(self).clock_ok(now),
        ensures
            final(self).is_playing() == !old(self).is_playing(),
            final(self).last_update() == now,
            final(self).progress() == old(self).position_at(now),
            final(self).duration() == old(self).duration(),
            unchanged_but_timing(*old(self), *final(self)),
    {
        if self.is_playing {
            self.pause(now);
        } else {
            self.play(now);
        }
    }

    /// Stores the looping flag; a policy the surrounding layer consults.
    pub fn set_looping(&mut self, looping: bool)
        ensures
            final(self).looping() == looping,
            final(self).muted() == old(self).muted(),
            final(self).volume() == old(self).volume(),
            final(self).lossless() == old(self).lossless(),
            final(self).queue() == old(self).queue(),
            final(self).eq_settings() == old(self).eq_settings(),
            same_timing(*old(self), *final(self)),
    {
        self.looping = looping;
    }

    /// Stores the muted flag and returns the gain the caller must hand to
    /// the hardware output: silence when muting, the stored volume when
    /// unmuting.
    pub fn set_muted(&mut self, muted: bool) -> (gain: Volume)
        ensures
            final(self).muted() == muted,
            final(self).looping() == old(self).looping(),
            final(self).volume() == old(self).volume(),
            final(self).lossless() == old(self).lossless(),
            final(self).queue() == old(self).queue(),
            final(self).eq_settings() == old(self).eq_settings(),
            same_timing(*old(self), *final(self)),
            gain == final(self).effective_gain(),
    {
        self.muted = muted;
        if muted {
            Volume::silent()
        } else {
            self.volume
        }
    }

    /// Stores the volume and returns the gain the caller must apply to
    /// the hardware output, if any: while muted the device stays silent
    /// and nothing is applied.
    pub fn set_volume(&mut self, volume: Volume) -> (apply: Option<Volume>)
        ensures
            final(self).volume() == volume,
            final(self).muted() == old(self).muted(),
            final(self).looping() == old(self).looping(),
            final(self).lossless() == old(self).lossless(),
            final(self).queue() == old(self).queue(),
            final(self).eq_settings() == old(self).eq_settings(),
            same_timing(*old(self), *final(self)),
            apply == (if old(self).muted() {
                Option::<Volume>::None
            } else {
                Option::Some(volume)
            }),
            apply matches Some(g) ==> g == final(self).effective_gain(),
    {
        self.volume = volume;
        if self.muted {
            None
        } else {
            Some(volume)
        }
    }

    /// Replaces the stored equalizer settings wholesale. They are held
    /// for the surrounding layer to consult; the live cascade's gains are
    /// not rebuilt from them.
    pub fn set_eq_settings(&mut self, settings: EQSettings)
        ensures
            final(self).eq_settings() == settings,
            final(self).muted() == old(self).muted(),
            final(self).looping() == old(self).looping(),
            final(self).volume() == old(self).volume(),
            final(self).lossless() == old(self).lossless(),
            final(self).queue() == old(self).queue(),
            same_timing(*old(self), *final(self)),
    {
        self.eq_settings = settings;
    }

    /// Repositions the progress counter at `position` milliseconds and
    /// restarts accrual at `now`; whether playback was running is
    /// preserved. Deliberately, only the tracked time moves: the appended
    /// stream keeps playing from wherever the decoder already is.
    pub fn seek(&mut self, position: u64, now: u64)
        ensures
            final(self).progress() == position,
            final(self).last_update() == now,
            final(self).is_playing() == old(self).is_playing(),
            final(self).duration() == old(self).duration(),
            unchanged_but_timing(*old(self), *final(self)),
    {
        self.progress = position;
        self.last_update = now;
    }

    /// Rewinds to the start of the track: a seek to position zero.
    pub fn rewind(&mut self, now: u64)
        ensures
            final(self).progress() == 0,
            final(self).last_update() == now,
            final(self).is_playing() == old(self).is_playing(),
            final(self).duration() == old(self).duration(),
            unchanged_but_timing(*old(self), *final(self)),
    {
        self.seek(0, now);
    }

    /// Seeks to a fraction of the track: `fraction` is in parts per
    /// million of the unit interval, and the target is the corresponding
    /// share of the duration, at millisecond resolution.
    pub fn skip_to(&mut self, fraction: u32, now: u64)
        requires
            fraction <= FRACTION_SCALE,
        ensures
            final(self).progress() == skip_target(old(self).duration(), fraction),
            final(self).last_update() == now,
            final(self).is_playing() == old(self).is_playing(),
            final(self).duration() == old(self).duration(),
            unchanged_but_timing(*old(self), *final(self)),
    {
        proof {
            lemma_skip_target_bounds(self.duration, fraction);
        }
        let scaled: u128 = (self.duration as u128 * fraction as u128) / (FRACTION_SCALE as u128);
        let position: u64 = scaled as u64;
        self.seek(position, now);
    }

    /// Installs a new song: duration taken from the song, progress reset
    /// to zero, accrual restarted at `now`, and the playing flag kept as
    /// it was, so a running player keeps running on the new stream and a
    /// paused one stays paused. The caller replaces the appended stream
    /// around this call.
    pub fn load_song(&mut self, song: &Song, now: u64)
        ensures
            final(self).duration() == song.duration,
            final(self).progress() == 0,
            final(self).last_update() == now,
            final(self).is_playing() == old(self).is_playing(),
            unchanged_but_timing(*old(self), *final(self)),
    {
        self.duration = song.duration;
        self.progress = 0;
        self.last_update = now;
    }

    /// Advances the play queue and hands back a copy of the newly
    /// selected song for the caller to resolve and load; an empty queue
    /// yields nothing and changes nothing.
    pub fn skip(&mut self) -> (r: Option<Song>)
        requires
            old(self).queue().well_formed(),
        ensures
            final(self).queue().well_formed(),
            final(self).queue().songs() == old(self).queue().songs(),
            old(self).queue().songs().len() == 0 ==> r is None && *final(self) == *old(self),
            old(self).queue().songs().len() > 0 ==> {
                &&& final(self).queue().cursor() == (old(self).queue().cursor() + 1) % (old(
                self).queue().songs().len() as int)
                &&& (r matches Some(song) && song == final(self).queue().songs()[final(
                self).queue().cursor()])
            },
            final(self).duration() == old(self).duration(),
            final(self).progress() == old(self).progress(),
            final(self).last_update() == old(self).last_update(),
            final(self).is_playing() == old(self).is_playing(),
            final(self).looping() == old(self).looping(),
            final(self).muted() == old(self).muted(),
            final(self).volume() == old(self).volume(),
            final(self).lossless() == old(self).lossless(),
            final(self).eq_settings() == old(self).eq_settings(),
    {
        match self.queue.next() {
            Some(song) => Some(clone_song(song)),
            None => None,
        }
    }

    /// Grants the caller access to the play queue, for filling and
    /// trimming it between loads.
    pub fn queue_mut(&mut self) -> (q: &mut Queue)
        ensures
            *q == old(self).queue(),
            final(self).queue() == *final(q),
            final(self).muted() == old(self).muted(),
            final(self).looping() == old(self).looping(),
            final(self).volume() == old(self).volume(),
            final(self).lossless() == old(self).lossless(),
            final(self).eq_settings() == old(self).eq_settings(),
            same_timing(*old(self), *final(self)),
    {
        &mut self.queue
    }
}

/// The timing group — duration, progress, clock snapshot, playing flag —
/// that a settings operation must leave alone.
pub open spec fn same_timing(a: AudioPlayer, b: AudioPlayer) -> bool {
    &&& b.duration() == a.duration()
    &&& b.progress() == a.progress()
    &&& b.last_update() == a.last_update()
    &&& b.is_playing() == a.is_playing()
}

/// The fields outside the timing group — queue, volume, flags, equalizer
/// settings — that a timing operation must leave alone.
pub open spec fn unchanged_but_timing(a: AudioPlayer, b: AudioPlayer) -> bool {
    &&& b.looping() == a.looping()
    &&& b.muted() == a.muted()
    &&& b.volume() == a.volume()
    &&& b.lossless() == a.lossless()
    &&& b.queue() == a.queue()
    &&& b.eq_settings() == a.eq_settings()
}

/// The seek target of a fractional skip: `fraction / FRACTION_SCALE` of
/// the duration, in milliseconds (the exact product floored to the whole
/// millisecond the counter can hold).
pub open spec fn skip_target(duration_ms: u64, fraction: u32) -> int {
    duration_ms * fraction / (FRACTION_SCALE as int)
}

/// The fractional seek target never leaves the counter's range: it is at
/// most the duration itself.
proof fn lemma_skip_target_bounds(duration_ms: u64, fraction: u32)
    requires
        fraction <= FRACTION_SCALE,
    ensures
        0 <= skip_target(duration_ms, fraction) <= duration_ms,
{
    let d = duration_ms as int;
    let f = fraction as int;
    let scale = FRACTION_SCALE as int;
    vstd::arithmetic::mul::lemma_mul_inequality(f, scale, d);
    vstd::arithmetic::div_mod::lemma_div_is_ordered(d * f, d * scale, scale);
    vstd::arithmetic::div_mod::lemma_div_pos_is_pos(d * f, scale);
    vstd::arithmetic::div_mod::lemma_div_multiples_vanish(d, scale);
}

/// Law of mute and volume: the effective output gain equals the stored
/// volume whenever the player is unmuted, and is silence whenever it is
/// muted, regardless of the stored volume.
pub proof fn lemma_effective_gain_law(p: AudioPlayer)
    ensures
        !p.muted() ==> p.effective_gain() == p.volume(),
        p.muted() ==> p.effective_gain() == Volume::spec_silent(),
{
}

/// Law of the frozen tracker: while not playing, position queries at any
/// two clock readings report the same value, the accumulated progress.
pub proof fn lemma_position_frozen_while_paused(p: AudioPlayer, t1: u64, t2: u64)
    requires
        !p.is_playing(),
    ensures
        p.position_at(t1) == p.position_at(t2),
        p.position_at(t1) == p.progress(),
{
}

/// Law of lazy accrual: while playing, a position query at clock reading
/// `t1` followed by one at a later reading `t2` reports values exactly
/// `t2 - t1` apart. Here `q` is the tracker state the first query leaves
/// behind, as `get_playback_position` describes it.
pub proof fn lemma_position_accrues_in_real_time(
    p: AudioPlayer,
    q: AudioPlayer,
    t1: u64,
    t2: u64,
)
    requires
        p.is_playing(),
        p.clock_ok(t1),
        t1 <= t2,
        q.is_playing() == p.is_playing(),
        q.progress() == p.position_at(t1),
        q.last_update() == t1,
    ensures
        q.position_at(t2) - p.position_at(t1) == t2 - t1,
{
}

/// Copies a song field by field.
fn clone_song(song: &Song) -> (r: Song)
    ensures
        r == *song,
{
    Song { id: song.id, duration: song.duration, title: song.title.clone() }
}

} // verus!
