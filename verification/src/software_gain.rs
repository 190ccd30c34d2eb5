//! Software volume: a gain applied to PCM samples in place, with linear
//! ramping between gain levels to avoid audible clicks.
//!
//! Gains are fixed-point numbers in units of one hundred-millionth, so that
//! the perceptual curve `(volume / 100)^4` is exact at every volume: the gain
//! of volume `v` is `v^4` units and unity is `100^4`.

use vstd::prelude::*;

verus! {

/// Unity gain: samples pass unchanged.
pub const UNITY_GAIN: u32 = 100_000_000;

/// Two gains closer than this count as equal.
pub const GAIN_EPSILON: u32 = 12;

/// Smallest 24-bit signed sample.
pub const MIN_I24: i32 = -8388608;

/// Largest 24-bit signed sample.
pub const MAX_I24: i32 = 8388607;

/// The gain of a volume: the fourth power of the volume, which counts as 100
/// where it is above 100.
pub open spec fn gain_of_volume(volume: u8) -> int {
    let v: int = if volume > 100 {
        100
    } else {
        volume as int
    };
    v * v * v * v
}

/// Whether a gain counts as unity.
pub open spec fn is_unity(gain: int) -> bool {
    100_000_000 - gain < 12 && gain - 100_000_000 < 12
}

/// Whether a gain counts as silence.
pub open spec fn is_silent(gain: int) -> bool {
    -12 < gain < 12
}

/// A value limited to the 24-bit signed range.
pub open spec fn clamped_i24(value: int) -> int {
    if value <= -8388608 {
        -8388608
    } else if value >= 8388607 {
        8388607
    } else {
        value
    }
}

/// `product / 100_000_000`, rounded to the nearest integer, halves away from
/// zero.
pub open spec fn rounded_units(product: int) -> int {
    if product >= 0 {
        (product + 50_000_000) / 100_000_000
    } else {
        -((-product + 50_000_000) / 100_000_000)
    }
}

/// A sample scaled by a gain, rounded and limited to the 24-bit range.
pub open spec fn scaled_sample(sample: int, gain: int) -> int {
    clamped_i24(rounded_units(sample * gain))
}

/// `a / b` rounded toward zero, for a positive `b`.
pub open spec fn toward_zero(a: int, b: int) -> int {
    if a >= 0 {
        a / b
    } else {
        -((-a) / b)
    }
}

/// The ramp length for a sample rate: 20 ms in samples, rounded to the
/// nearest sample.
pub open spec fn ramp_length(sample_rate: u32) -> int {
    (sample_rate as int * 20 + 500) / 1000
}

/// Converts a volume from 0 to 100 to a gain by the perceptual curve
/// `(volume / 100)^4`, in units of one hundred-millionth. A volume above 100
/// counts as 100.
pub fn volume_to_gain(volume: u8) -> (gain: u32)
    ensures
        gain == gain_of_volume(volume),
        gain <= UNITY_GAIN,
        volume == 0 ==> gain == 0,
        volume >= 100 ==> gain == UNITY_GAIN,
        volume == 50 ==> gain == 6_250_000,
{
    let v: u32 = if volume > 100 {
        100
    } else {
        volume as u32
    };
    assert(v * v <= 10_000) by (nonlinear_arith)
        requires
            v <= 100,
    ;
    let square: u32 = v * v;
    assert(square * square <= 100_000_000) by (nonlinear_arith)
        requires
            square <= 10_000,
    ;
    assert(square * square == v * v * v * v) by (nonlinear_arith)
        requires
            square == v * v,
    ;
    assert(v == 50 ==> v * v * v * v == 6_250_000) by (nonlinear_arith);
    assert(v == 0 ==> v * v * v * v == 0) by (nonlinear_arith);
    assert(v == 100 ==> v * v * v * v == 100_000_000) by (nonlinear_arith);
    square * square
}

/// The curve is strictly increasing up to volume 100.
pub proof fn lemma_gain_strictly_increasing(lower: u8, higher: u8)
    requires
        lower < higher <= 100,
    ensures
        gain_of_volume(lower) < gain_of_volume(higher),
{
    let a = lower as int;
    let b = higher as int;
    assert(a * a < b * b) by (nonlinear_arith)
        requires
            0 <= a < b,
    ;
    assert((a * a) * (a * a) < (b * b) * (b * b)) by (nonlinear_arith)
        requires
            0 <= a * a < b * b,
    ;
    assert(a * a * a * a == (a * a) * (a * a)) by (nonlinear_arith);
    assert(b * b * b * b == (b * b) * (b * b)) by (nonlinear_arith);
}

/// Only volume 0 is silent, and every volume from 100 up has the gain of 100.
pub proof fn lemma_gain_ends(volume: u8)
    ensures
        gain_of_volume(volume) == 0 <==> volume == 0,
        volume >= 100 ==> gain_of_volume(volume) == gain_of_volume(100),
        gain_of_volume(100) == 100_000_000,
        0 <= gain_of_volume(volume) <= 100_000_000,
{
    let v: int = if volume > 100 {
        100
    } else {
        volume as int
    };
    assert(v == 0 ==> v * v * v * v == 0) by (nonlinear_arith);
    assert(v == 100 ==> v * v * v * v == 100_000_000) by (nonlinear_arith);
    assert(gain_of_volume(0) == 0) by {
        let z = 0u8 as int;
        assert(z * z * z * z == 0) by (nonlinear_arith)
            requires
                z == 0,
        ;
    }
    assert(gain_of_volume(100) == 100_000_000) by {
        let h = 100u8 as int;
        assert(h * h * h * h == 100_000_000) by (nonlinear_arith)
            requires
                h == 100,
        ;
    }
    if volume > 0 {
        lemma_gain_strictly_increasing(0, if volume > 100 { 100u8 } else { volume });
    }
    if volume < 100 {
        lemma_gain_strictly_increasing(volume, 100);
    }
}

/// Limits a value to the range of 24-bit signed samples.
pub fn clamp_i24(value: i64) -> (clamped: i32)
    ensures
        clamped == clamped_i24(value as int),
        MIN_I24 <= clamped <= MAX_I24,
{
    if value <= -8388608 {
        MIN_I24
    } else if value >= 8388607 {
        MAX_I24
    } else {
        value as i32
    }
}

/// Scales one sample by a gain, rounds to the nearest integer and limits the
/// result to the 24-bit range.
pub fn scale_sample(sample: i32, gain: u32) -> (scaled: i32)
    requires
        gain <= UNITY_GAIN,
    ensures
        scaled == scaled_sample(sample as int, gain as int),
        MIN_I24 <= scaled <= MAX_I24,
{
    assert(-0x8000_0000 * 100_000_000 <= sample * gain <= 0x8000_0000 * 100_000_000)
        by (nonlinear_arith)
        requires
            -0x8000_0000 <= sample <= 0x7fff_ffff,
            0 <= gain <= 100_000_000,
    ;
    let product: i64 = (sample as i64) * (gain as i64);
    if product >= 0 {
        clamp_i24((product + 50_000_000) / 100_000_000)
    } else {
        let magnitude: i64 = -product;
        let rounded: i64 = (magnitude + 50_000_000) / 100_000_000;
        clamp_i24(-rounded)
    }
}

/// The gain state of one playback session.
#[derive(Clone, Copy, Debug, PartialEq, Eq)]
pub struct SoftwareGainState {
    /// The gain applied to the next sample.
    pub current_gain: u32,
    /// The gain that the ramp leads to.
    pub target_gain: u32,
    /// Samples left in the current ramp; zero when none is active.
    pub ramp_samples_remaining: u32,
    /// Change of the gain per sample during the ramp; negative when falling.
    pub ramp_step: i64,
    /// Whether muted; the volume is remembered for the unmute.
    pub is_muted: bool,
    /// The remembered volume, from 0 to 100.
    pub volume: u8,
    /// Length of a ramp in samples; zero while the sample rate is unknown.
    pub ramp_duration_samples: u32,
}

/// The target that belongs to a mute flag and a remembered volume.
pub open spec fn target_for(muted: bool, volume: u8) -> int {
    if muted {
        0
    } else {
        gain_of_volume(volume)
    }
}

/// The state after the target is set to `target`: without a ramp length the
/// gain snaps to the target; where the target is within epsilon of the
/// current gain no ramp starts and the gain stays; else a ramp of full length
/// starts, with the step that divides the distance evenly, rounded toward
/// zero.
pub open spec fn retargeted(s: SoftwareGainState, target: u32) -> SoftwareGainState {
    if s.ramp_duration_samples == 0 {
        SoftwareGainState { target_gain: target, current_gain: target, ramp_samples_remaining: 0, ..s }
    } else if -12 < target - s.current_gain < 12 {
        SoftwareGainState { target_gain: target, ramp_samples_remaining: 0, ..s }
    } else {
        SoftwareGainState {
            target_gain: target,
            ramp_samples_remaining: s.ramp_duration_samples,
            ramp_step: toward_zero(
                target - s.current_gain,
                s.ramp_duration_samples as int,
            ) as i64,
            ..s
        }
    }
}

/// The state after `set_volume(volume)`.
pub open spec fn after_set_volume(s: SoftwareGainState, volume: u8) -> SoftwareGainState {
    let remembered: u8 = if volume > 100 {
        100
    } else {
        volume
    };
    let stored = SoftwareGainState { volume: remembered, ..s };
    if s.is_muted {
        stored
    } else {
        retargeted(stored, gain_of_volume(remembered) as u32)
    }
}

/// The state after `set_mute(muted)`.
pub open spec fn after_set_mute(s: SoftwareGainState, muted: bool) -> SoftwareGainState {
    let flagged = SoftwareGainState { is_muted: muted, ..s };
    retargeted(flagged, target_for(muted, s.volume) as u32)
}

/// The gain applied to the sample at position `k` of a buffer that is
/// processed from state `s`: constant while no ramp is active; during a ramp
/// the current gain plus `k` steps, and the target once the ramp is through.
pub open spec fn gain_at(s: SoftwareGainState, k: int) -> int {
    if s.ramp_samples_remaining == 0 {
        s.current_gain as int
    } else if k < s.ramp_samples_remaining {
        s.current_gain + k * s.ramp_step
    } else {
        s.target_gain as int
    }
}

/// The state after `n` samples were processed from state `s`.
pub open spec fn after_samples(s: SoftwareGainState, n: int) -> SoftwareGainState {
    if s.ramp_samples_remaining == 0 {
        s
    } else if n >= s.ramp_samples_remaining {
        SoftwareGainState { current_gain: s.target_gain, ramp_samples_remaining: 0, ..s }
    } else {
        SoftwareGainState {
            current_gain: (s.current_gain + n * s.ramp_step) as u32,
            ramp_samples_remaining: (s.ramp_samples_remaining - n) as u32,
            ..s
        }
    }
}

/// What the sample at position `k` of a buffer becomes when the buffer is
/// processed from state `s`. Outside a ramp a gain that counts as unity
/// leaves the sample as it is, and one that counts as silence makes it zero;
/// in every other case the sample is scaled, rounded and limited to the
/// 24-bit range.
pub open spec fn processed_sample(s: SoftwareGainState, sample: i32, k: int) -> int {
    if s.ramp_samples_remaining == 0 && is_unity(s.current_gain as int) {
        sample as int
    } else if s.ramp_samples_remaining == 0 && is_silent(s.current_gain as int) {
        0
    } else {
        scaled_sample(sample as int, gain_at(s, k))
    }
}

proof fn lemma_toward_zero_bounds(a: int, b: int)
    requires
        b > 0,
    ensures
        a >= 0 ==> 0 <= toward_zero(a, b) && toward_zero(a, b) * b <= a,
        a <= 0 ==> 0 >= toward_zero(a, b) && toward_zero(a, b) * b >= a,
        -a <= toward_zero(a, b) <= a || a <= toward_zero(a, b) <= -a,
{
    if a >= 0 {
        assert(0 <= a / b && (a / b) * b <= a && a / b <= a) by (nonlinear_arith)
            requires
                a >= 0,
                b > 0,
        ;
    } else {
        let m = -a;
        assert(0 <= m / b && (m / b) * b <= m && m / b <= m) by (nonlinear_arith)
            requires
                m >= 0,
                b > 0,
        ;
        assert((-(m / b)) * b == -((m / b) * b)) by (nonlinear_arith);
    }
}

proof fn lemma_ramp_within(s: SoftwareGainState, k: int)
    requires
        s.wf(),
        s.ramp_samples_remaining > 0,
        0 <= k <= s.ramp_samples_remaining,
    ensures
        s.target_gain >= s.current_gain ==> s.current_gain <= s.current_gain + k * s.ramp_step
            <= s.target_gain,
        s.target_gain <= s.current_gain ==> s.current_gain >= s.current_gain + k * s.ramp_step
            >= s.target_gain,
        s.target_gain >= s.current_gain ==> s.ramp_step >= 0,
        s.target_gain <= s.current_gain ==> s.ramp_step <= 0,
{
    let r = s.ramp_samples_remaining as int;
    let step = s.ramp_step as int;
    if step >= 0 && s.current_gain <= s.target_gain && s.current_gain + r * step <= s.target_gain {
        assert(0 <= k * step <= r * step) by (nonlinear_arith)
            requires
                0 <= k <= r,
                step >= 0,
        ;
        if s.target_gain <= s.current_gain {
            assert(step == 0) by (nonlinear_arith)
                requires
                    r * step <= 0,
                    r > 0,
                    step >= 0,
            ;
        }
    } else {
        assert(0 >= k * step >= r * step) by (nonlinear_arith)
            requires
                0 <= k <= r,
                step <= 0,
        ;
        if s.target_gain >= s.current_gain {
            assert(step == 0) by (nonlinear_arith)
                requires
                    r * step >= 0,
                    r > 0,
                    step <= 0,
            ;
        }
    }
}

impl SoftwareGainState {
    /// The states that the constructor and the methods produce: gains up to
    /// unity, a volume up to 100, the target that belongs to the mute flag
    /// and the volume, and a ramp that leads from the current gain toward
    /// the target without passing it.
    pub open spec fn wf(&self) -> bool {
        &&& self.current_gain <= 100_000_000
        &&& self.target_gain <= 100_000_000
        &&& self.volume <= 100
        &&& self.target_gain == target_for(self.is_muted, self.volume)
        &&& self.ramp_samples_remaining <= self.ramp_duration_samples
        &&& self.ramp_toward_target()
    }

    /// An active ramp leads from the current gain toward the target and ends
    /// at or before it.
    pub open spec fn ramp_toward_target(&self) -> bool {
        self.ramp_samples_remaining > 0 ==> {
            ||| (self.ramp_step >= 0 && self.current_gain <= self.target_gain && self.current_gain
                + self.ramp_samples_remaining * self.ramp_step <= self.target_gain)
            ||| (self.ramp_step <= 0 && self.current_gain >= self.target_gain && self.current_gain
                + self.ramp_samples_remaining * self.ramp_step >= self.target_gain)
        }
    }

    /// Whether the state is one that the constructor and the methods
    /// produce. A caller that cannot rely on verification tests a state with
    /// this before it hands it to a method.
    pub fn is_valid(&self) -> (ok: bool)
        ensures
            ok == self.wf(),
    {
        if self.current_gain > UNITY_GAIN || self.target_gain > UNITY_GAIN || self.volume > 100 {
            return false;
        }
        let expected: u32 = if self.is_muted {
            0
        } else {
            volume_to_gain(self.volume)
        };
        if self.target_gain != expected {
            return false;
        }
        if self.ramp_samples_remaining > self.ramp_duration_samples {
            return false;
        }
        if self.ramp_samples_remaining == 0 {
            return true;
        }
        let remaining: i128 = self.ramp_samples_remaining as i128;
        let step: i128 = self.ramp_step as i128;
        assert(-0x1_0000_0000 * 0x8000_0000_0000_0000 <= remaining * step <= 0x1_0000_0000
            * 0x8000_0000_0000_0000) by (nonlinear_arith)
            requires
                0 <= remaining <= 0xffff_ffff,
                -0x8000_0000_0000_0000 <= step <= 0x7fff_ffff_ffff_ffff,
        ;
        let end: i128 = (self.current_gain as i128) + remaining * step;
        let rising = self.ramp_step >= 0 && self.current_gain <= self.target_gain && end <= (
        self.target_gain as i128);
        let falling = self.ramp_step <= 0 && self.current_gain >= self.target_gain && end >= (
        self.target_gain as i128);
        rising || falling
    }

    /// A gain state for the given sample rate, at volume 100: unity gain, not
    /// muted, no ramp active. A ramp lasts 20 ms.
    pub fn new(sample_rate: u32) -> (s: Self)
        ensures
            s.wf(),
            s == (SoftwareGainState {
                current_gain: 100_000_000,
                target_gain: 100_000_000,
                ramp_samples_remaining: 0,
                ramp_step: 0,
                is_muted: false,
                volume: 100,
                ramp_duration_samples: ramp_length(sample_rate) as u32,
            }),
    {
        let scaled: u64 = (sample_rate as u64) * 20 + 500;
        let ramp_duration_samples: u32 = (scaled / 1000) as u32;
        proof {
            lemma_gain_ends(100);
        }
        SoftwareGainState {
            current_gain: UNITY_GAIN,
            target_gain: UNITY_GAIN,
            ramp_samples_remaining: 0,
            ramp_step: 0,
            is_muted: false,
            volume: 100,
            ramp_duration_samples,
        }
    }

    /// Takes over the sample rate of a new stream: a ramp that is still
    /// active ends at once on its target, and ramps started from now on last
    /// 20 ms at the new rate. Volume and mute flag stay.
    pub fn set_sample_rate(&mut self, sample_rate: u32)
        requires
            old(self).wf(),
        ensures
            final(self).wf(),
            *final(self) == (SoftwareGainState {
                current_gain: if old(self).ramp_samples_remaining > 0 {
                    old(self).target_gain
                } else {
                    old(self).current_gain
                },
                ramp_samples_remaining: 0,
                ramp_duration_samples: ramp_length(sample_rate) as u32,
                ..*old(self)
            }),
    {
        if self.ramp_samples_remaining > 0 {
            self.current_gain = self.target_gain;
            self.ramp_samples_remaining = 0;
        }
        let scaled: u64 = (sample_rate as u64) * 20 + 500;
        self.ramp_duration_samples = (scaled / 1000) as u32;
    }

    /// The remembered volume, whatever the mute flag.
    pub fn volume(&self) -> (v: u8)
        ensures
            v == self.volume,
    {
        self.volume
    }

    /// Starts a ramp from the current gain to `target`.
    fn set_target_gain(&mut self, target: u32)
        requires
            old(self).current_gain <= 100_000_000,
            target <= 100_000_000,
        ensures
            *final(self) == retargeted(*old(self), target),
            final(self).current_gain <= 100_000_000,
            final(self).ramp_samples_remaining <= final(self).ramp_duration_samples,
            final(self).ramp_toward_target(),
    {
        self.target_gain = target;
        if self.ramp_duration_samples == 0 {
            self.current_gain = target;
            self.ramp_samples_remaining = 0;
            return ;
        }
        let rising: bool = target >= self.current_gain;
        let distance: u32 = if rising {
            target - self.current_gain
        } else {
            self.current_gain - target
        };
        if distance < GAIN_EPSILON {
            self.ramp_samples_remaining = 0;
            return ;
        }
        let per_sample: u32 = distance / self.ramp_duration_samples;
        self.ramp_samples_remaining = self.ramp_duration_samples;
        self.ramp_step = if rising {
            per_sample as i64
        } else {
            -(per_sample as i64)
        };
        proof {
            let length = self.ramp_duration_samples as int;
            let step = self.ramp_step as int;
            lemma_toward_zero_bounds(target - self.current_gain, length);
            assert(step == toward_zero(target - self.current_gain, length));
            assert(length * step == step * length) by (nonlinear_arith);
        }
    }

    /// Sets the volume. A volume above 100 counts as 100. The volume is
    /// remembered; unless muted, a ramp to its gain starts.
    pub fn set_volume(&mut self, volume: u8)
        requires
            old(self).wf(),
        ensures
            final(self).wf(),
            *final(self) == after_set_volume(*old(self), volume),
    {
        let remembered: u8 = if volume > 100 {
            100
        } else {
            volume
        };
        self.volume = remembered;
        if !self.is_muted {
            self.set_target_gain(volume_to_gain(remembered));
        }
    }

    /// Sets the mute flag. Muting ramps to silence; unmuting ramps to the gain
    /// of the remembered volume, which muting does not touch.
    pub fn set_mute(&mut self, muted: bool)
        requires
            old(self).wf(),
        ensures
            final(self).wf(),
            *final(self) == after_set_mute(*old(self), muted),
            final(self).volume == old(self).volume,
            final(self).target_gain == target_for(muted, old(self).volume),
    {
        self.is_muted = muted;
        if muted {
            self.set_target_gain(0);
        } else {
            self.set_target_gain(volume_to_gain(self.volume));
        }
    }

    /// The gain that `apply_i24` would give the next sample.
    pub fn current_gain(&self) -> (gain: u32)
        ensures
            gain == gain_at(*self, 0),
    {
        self.current_gain
    }

    /// Moves the ramp on by one sample, as processing one sample does: the
    /// last sample of a ramp snaps the gain to the target, every other adds
    /// one step to it. Outside a ramp nothing changes.
    pub fn advance(&mut self)
        requires
            old(self).wf(),
        ensures
            final(self).wf(),
            *final(self) == after_samples(*old(self), 1),
    {
        if self.ramp_samples_remaining > 0 {
            proof {
                lemma_ramp_within(*self, 1);
                let r = self.ramp_samples_remaining as int;
                let step = self.ramp_step as int;
                assert((r - 1) * step == r * step - step) by (nonlinear_arith);
                assert(1 * step == step);
            }
            self.ramp_samples_remaining = self.ramp_samples_remaining - 1;
            if self.ramp_samples_remaining == 0 {
                self.current_gain = self.target_gain;
            } else {
                self.current_gain = ((self.current_gain as i64) + self.ramp_step) as u32;
            }
        }
    }

    /// Applies the gain to a buffer of 24-bit signed samples in place.
    ///
    /// Outside a ramp, a gain that counts as unity leaves the buffer as it is
    /// and one that counts as silence writes zeros; any other gain scales
    /// each sample. During a ramp each sample is scaled by the interpolated
    /// gain, and the samples after the end of the ramp by the target. Scaled
    /// samples are limited to the 24-bit range.
    pub fn apply_i24(&mut self, samples: &mut Vec<i32>)
        requires
            old(self).wf(),
        ensures
            final(self).wf(),
            *final(self) == after_samples(*old(self), old(samples)@.len() as int),
            final(samples)@.len() == old(samples)@.len(),
            forall|k: int|
                0 <= k < old(samples)@.len() ==> #[trigger] final(samples)@[k] == processed_sample(
                    *old(self),
                    old(samples)@[k],
                    k,
                ),
    {
        let n: usize = samples.len();
        let ghost before = *self;
        let ghost input = samples@;
        if self.ramp_samples_remaining == 0 && UNITY_GAIN - self.current_gain < GAIN_EPSILON {
            return ;
        }
        if self.ramp_samples_remaining == 0 && self.current_gain < GAIN_EPSILON {
            let mut i: usize = 0;
            while i < n
                invariant
                    i <= n,
                    n == samples@.len(),
                    n == input.len(),
                    forall|k: int| 0 <= k < i ==> #[trigger] samples@[k] == 0,
                    forall|k: int| i <= k < n ==> #[trigger] samples@[k] == input[k],
                decreases n - i,
            {
                samples[i] = 0;
                i = i + 1;
            }
            return ;
        }
        if self.ramp_samples_remaining == 0 {
            let gain: u32 = self.current_gain;
            let mut i: usize = 0;
            while i < n
                invariant
                    i <= n,
                    n == samples@.len(),
                    n == input.len(),
                    gain <= 100_000_000,
                    forall|k: int|
                        0 <= k < i ==> #[trigger] samples@[k] == scaled_sample(
                            input[k] as int,
                            gain as int,
                        ),
                    forall|k: int| i <= k < n ==> #[trigger] samples@[k] == input[k],
                decreases n - i,
            {
                let scaled = scale_sample(samples[i], gain);
                samples[i] = scaled;
                i = i + 1;
            }
            return ;
        }
        let mut i: usize = 0;
        while i < n
            invariant
                i <= n,
                n == samples@.len(),
                n == input.len(),
                before.wf(),
                before.ramp_samples_remaining > 0,
                self.wf(),
                *self == after_samples(before, i as int),
                forall|k: int|
                    0 <= k < i ==> #[trigger] samples@[k] == scaled_sample(
                        input[k] as int,
                        gain_at(before, k),
                    ),
                forall|k: int| i <= k < n ==> #[trigger] samples@[k] == input[k],
            decreases n - i,
        {
            proof {
                if i < before.ramp_samples_remaining {
                    lemma_ramp_within(before, i as int);
                }
                assert(self.current_gain == gain_at(before, i as int));
            }
            let scaled = scale_sample(samples[i], self.current_gain);
            samples[i] = scaled;
            let ghost mid = *self;
            self.advance();
            proof {
                let step = before.ramp_step as int;
                assert((i + 1) * step == i * step + step) by (nonlinear_arith);
                assert(1 * mid.ramp_step == mid.ramp_step);
                if i + 1 <= before.ramp_samples_remaining {
                    lemma_ramp_within(before, i as int + 1);
                }
                assert(*self == after_samples(before, i as int + 1));
            }
            i = i + 1;
        }
    }
}

/// A buffer processed entirely at unity gain is unchanged, sample for sample.
pub proof fn lemma_unity_is_identity(s: SoftwareGainState, sample: i32, k: int)
    requires
        s.ramp_samples_remaining == 0,
        s.current_gain == 100_000_000,
    ensures
        processed_sample(s, sample, k) == sample,
        after_samples(s, k) == s,
{
}

/// A buffer processed entirely at zero gain is all zero.
pub proof fn lemma_silence_is_zero(s: SoftwareGainState, sample: i32, k: int)
    requires
        s.ramp_samples_remaining == 0,
        s.current_gain == 0,
    ensures
        processed_sample(s, sample, k) == 0,
{
}

/// Whatever the sample, scaling gives a 24-bit value: the largest and the
/// smallest 32-bit sample included.
pub proof fn lemma_scaled_in_range(sample: i32, gain: int)
    ensures
        -8388608 <= scaled_sample(sample as int, gain) <= 8388607,
{
}

/// During a ramp the gain moves toward the target and never away from it:
/// a falling ramp gives a non-increasing sequence of gains, a rising ramp a
/// non-decreasing one, and no gain lies beyond the target.
pub proof fn lemma_ramp_monotone(s: SoftwareGainState, earlier: int, later: int)
    requires
        s.wf(),
        0 <= earlier <= later,
    ensures
        s.target_gain <= s.current_gain ==> s.target_gain <= gain_at(s, later) <= gain_at(
            s,
            earlier,
        ) <= s.current_gain,
        s.target_gain >= s.current_gain ==> s.target_gain >= gain_at(s, later) >= gain_at(
            s,
            earlier,
        ) >= s.current_gain,
{
    if s.ramp_samples_remaining > 0 {
        let r = s.ramp_samples_remaining as int;
        let step = s.ramp_step as int;
        if earlier < r {
            lemma_ramp_within(s, earlier);
        }
        if later < r {
            lemma_ramp_within(s, later);
            if s.target_gain <= s.current_gain {
                assert(later * step <= earlier * step) by (nonlinear_arith)
                    requires
                        earlier <= later,
                        step <= 0,
                ;
            }
            if s.target_gain >= s.current_gain {
                assert(later * step >= earlier * step) by (nonlinear_arith)
                    requires
                        earlier <= later,
                        step >= 0,
                ;
            }
        }
    }
}

/// The first sample of a ramp still gets the gain from before the change,
/// and from the end of the ramp on every sample gets exactly the target.
pub proof fn lemma_ramp_ends(s: SoftwareGainState, k: int)
    requires
        s.wf(),
        s.ramp_samples_remaining > 0,
        k >= s.ramp_samples_remaining,
    ensures
        gain_at(s, 0) == s.current_gain,
        gain_at(s, k) == s.target_gain,
        after_samples(s, k).current_gain == s.target_gain,
        after_samples(s, k).ramp_samples_remaining == 0,
{
}

/// Going from volume 100 to volume 0 at a known sample rate: the gains of
/// the following samples start at unity, never rise, and are exactly zero
/// from the end of the ramp on.
pub proof fn lemma_fade_to_silence(s: SoftwareGainState, earlier: int, later: int)
    requires
        s.wf(),
        !s.is_muted,
        s.ramp_samples_remaining == 0,
        s.current_gain == 100_000_000,
        s.ramp_duration_samples > 0,
        0 <= earlier <= later,
    ensures
        gain_at(after_set_volume(s, 0), 0) == 100_000_000,
        gain_at(after_set_volume(s, 0), later) <= gain_at(after_set_volume(s, 0), earlier),
        later >= s.ramp_duration_samples ==> gain_at(after_set_volume(s, 0), later) == 0,
        after_set_volume(s, 0).ramp_samples_remaining == s.ramp_duration_samples,
{
    let faded = after_set_volume(s, 0);
    let length = s.ramp_duration_samples as int;
    lemma_gain_ends(0);
    lemma_toward_zero_bounds(0 - s.current_gain, length);
    let step = toward_zero(0 - s.current_gain, length);
    assert(length * step == step * length) by (nonlinear_arith);
    assert(faded.target_gain == 0);
    assert(faded.ramp_samples_remaining == s.ramp_duration_samples);
    assert(faded.ramp_step == step);
    assert(faded.wf());
    lemma_ramp_monotone(faded, earlier, later);
}

/// Whatever was called before, unmuting aims at exactly the gain of the
/// volume that is remembered at that moment, and muting at silence; neither
/// touches the remembered volume. A volume set while muted is the one that
/// the unmute restores.
pub proof fn lemma_unmute_restores_remembered_volume(s: SoftwareGainState, volume: u8)
    requires
        s.wf(),
    ensures
        after_set_mute(s, false).target_gain == gain_of_volume(s.volume),
        after_set_mute(s, false).volume == s.volume,
        after_set_mute(s, true).target_gain == 0,
        after_set_mute(s, true).volume == s.volume,
        after_set_volume(after_set_mute(s, true), volume).target_gain == 0,
        after_set_mute(
            after_set_volume(after_set_mute(s, true), volume),
            false,
        ).target_gain == gain_of_volume(volume),
{
    lemma_gain_ends(s.volume);
    lemma_gain_ends(volume);
    let clamped: u8 = if volume > 100 {
        100
    } else {
        volume
    };
    lemma_gain_ends(clamped);
}

/// Processing samples keeps a state within the invariant: the gain stays
/// between zero and unity and the volume between 0 and 100, and neither the
/// target, the volume nor the mute flag changes.
pub proof fn lemma_samples_preserve_invariant(s: SoftwareGainState, n: int)
    requires
        s.wf(),
        n >= 0,
    ensures
        after_samples(s, n).wf(),
        after_samples(s, n).target_gain == s.target_gain,
        after_samples(s, n).volume == s.volume,
        after_samples(s, n).is_muted == s.is_muted,
        0 <= gain_at(s, n) <= 100_000_000,
{
    if s.ramp_samples_remaining > 0 && n < s.ramp_samples_remaining {
        lemma_ramp_within(s, n);
        let r = s.ramp_samples_remaining as int;
        let step = s.ramp_step as int;
        assert((r - n) * step == r * step - n * step) by (nonlinear_arith);
    }
}

/// Muting and then unmuting leads back to exactly the gain of the remembered
/// volume, however many samples were processed in between: the volume is
/// still the remembered one, the target is its gain, and once the ramp is
/// through the current gain is the target itself. Where no ramp was needed
/// the current gain is within epsilon of it.
pub proof fn lemma_mute_round_trip(s: SoftwareGainState, while_muted: int, after_unmute: int)
    requires
        s.wf(),
        while_muted >= 0,
        after_unmute >= 0,
    ensures
        ({
            let muted = after_samples(after_set_mute(s, true), while_muted);
            let unmuted = after_set_mute(muted, false);
            let settled = after_samples(unmuted, after_unmute);
            &&& muted.volume == s.volume
            &&& muted.target_gain == 0
            &&& unmuted.volume == s.volume
            &&& !unmuted.is_muted
            &&& unmuted.target_gain == gain_of_volume(s.volume)
            &&& settled.target_gain == gain_of_volume(s.volume)
            &&& after_unmute >= unmuted.ramp_samples_remaining ==> {
                &&& settled.ramp_samples_remaining == 0
                &&& -12 < settled.current_gain - gain_of_volume(s.volume) < 12
                &&& unmuted.ramp_samples_remaining > 0 ==> settled.current_gain == gain_of_volume(
                    s.volume,
                )
            }
        }),
{
    lemma_gain_ends(s.volume);
}

} // verus!
