//! Click-free transition between the bypassed and the processed signal.
//!
//! The ramp is linear over 64 samples. Positions and steps are counted in 64ths, so that
//! every value of the ramp is exact.

use vstd::prelude::*;

verus! {

/// Length of the ramp in samples; also the position that stands for fully wet.
pub const BYPASS_XFADE_SAMPLES: usize = 64;

/// State of the bypass crossfade.
#[derive(Clone, Copy, Debug, PartialEq, Eq, Structural)]
pub struct BypassCrossfader {
    /// Where the ramp leads: `true` is bypassed.
    pub target: bool,
    /// Whether a ramp is in progress.
    pub active: bool,
    /// Position in 64ths: 0 is dry, 64 is wet.
    pub mix: i32,
    /// Change of the position with each sample, in 64ths.
    pub step: i32,
    /// Samples left in the ramp.
    pub remaining: usize,
}

/// Position that a ramp to `target` ends at.
pub open spec fn end_mix(target: bool) -> i32 {
    if target {
        0
    } else {
        64
    }
}

/// `mix` brought back between dry and wet.
pub open spec fn clamp_mix(mix: int) -> int {
    if mix < 0 {
        0
    } else if mix > 64 {
        64
    } else {
        mix
    }
}

fn clamped(mix: i32) -> (within: i32)
    ensures
        within == clamp_mix(mix as int),
{
    if mix < 0 {
        0
    } else if mix > 64 {
        64
    } else {
        mix
    }
}

/// Where an output sample of a crossfading block comes from.
#[derive(Clone, Copy, Debug, PartialEq, Eq, Structural)]
pub enum SampleSource {
    /// `dry + (wet - dry) * mix / 64`.
    Blend { mix: i32 },
    /// `wet * mix / 64`, where no dry sample was captured.
    ScaledWet { mix: i32 },
    Dry,
    Wet,
    Silence,
}

impl BypassCrossfader {
    /// A ramp moves by one 64th towards its target; at rest the position is the target's.
    pub open spec fn wf(&self) -> bool {
        &&& 0 <= self.mix <= 64
        &&& self.remaining <= BYPASS_XFADE_SAMPLES
        &&& self.active ==> self.remaining > 0 && self.step == (if self.target {
            -1i32
        } else {
            1i32
        })
        &&& !self.active ==> self.remaining == 0 && self.mix == end_mix(self.target)
    }

    /// At rest in the given state.
    pub fn new(initial_bypass: bool) -> (xfade: Self)
        ensures
            xfade.wf(),
            xfade == (BypassCrossfader {
                target: initial_bypass,
                active: false,
                mix: end_mix(initial_bypass),
                step: 0,
                remaining: 0,
            }),
    {
        BypassCrossfader {
            target: initial_bypass,
            active: false,
            mix: if initial_bypass { 0 } else { 64 },
            step: 0,
            remaining: 0,
        }
    }

    /// Starts a ramp to `target` from where the position is, unless that is already the
    /// target.
    pub fn trigger(&mut self, target: bool)
        ensures
            old(self).wf() ==> final(self).wf(),
            *final(self) == (if old(self).target == target {
                *old(self)
            } else {
                BypassCrossfader {
                    target,
                    active: true,
                    mix: old(self).mix,
                    step: if target {
                        -1i32
                    } else {
                        1
                    },
                    remaining: BYPASS_XFADE_SAMPLES,
                }
            }),
    {
        if self.target == target {
            return;
        }
        self.target = target;
        self.active = true;
        self.remaining = BYPASS_XFADE_SAMPLES;
        self.step = if target { -1 } else { 1 };
    }

    /// Samples of a block of `n_out` that still lie on the ramp.
    pub open spec fn ramp_len(&self, n_out: int) -> int {
        if n_out < self.remaining {
            n_out
        } else {
            self.remaining as int
        }
    }

    /// Source of sample `i` in a block of `n_out` samples of which the dry signal covers the
    /// first `dry_n`.
    pub open spec fn source_spec(&self, i: int, n_out: int, dry_n: int) -> SampleSource {
        if i < self.ramp_len(n_out) {
            let mix = clamp_mix(self.mix + self.step * i) as i32;
            if i < dry_n {
                SampleSource::Blend { mix }
            } else {
                SampleSource::ScaledWet { mix }
            }
        } else if !self.target {
            SampleSource::Wet
        } else if i < dry_n {
            SampleSource::Dry
        } else {
            SampleSource::Silence
        }
    }

    /// Tells where sample `i` of a crossfading block comes from.
    pub fn source(&self, i: usize, n_out: usize, dry_n: usize) -> (source: SampleSource)
        requires
            self.wf(),
            i < n_out,
        ensures
            source == self.source_spec(i as int, n_out as int, dry_n as int),
    {
        let ramp: usize = if n_out < self.remaining { n_out } else { self.remaining };
        if i < ramp {
            proof {
                assert(-64 <= self.step * i <= 64) by (nonlinear_arith)
                    requires
                        -1 <= self.step <= 1,
                        0 <= i <= 64,
                ;
            }
            let mix: i32 = clamped(self.mix + self.step * (i as i32));
            if i < dry_n {
                SampleSource::Blend { mix }
            } else {
                SampleSource::ScaledWet { mix }
            }
        } else if !self.target {
            SampleSource::Wet
        } else if i < dry_n {
            SampleSource::Dry
        } else {
            SampleSource::Silence
        }
    }

    /// Moves on by a block of `n_out` samples.
    pub fn advance(&mut self, n_out: usize)
        requires
            old(self).wf(),
            old(self).active,
        ensures
            final(self).wf(),
            *final(self) == old(self).advanced(n_out as int),
    {
        let ramp: usize = if n_out < self.remaining { n_out } else { self.remaining };
        proof {
            assert(-64 <= self.step * ramp <= 64) by (nonlinear_arith)
                requires
                    -1 <= self.step <= 1,
                    0 <= ramp <= 64,
            ;
        }
        self.mix = clamped(self.mix + self.step * (ramp as i32));
        self.remaining = self.remaining - ramp;
        if self.remaining == 0 {
            self.active = false;
            self.mix = if self.target { 0 } else { 64 };
        }
    }

    /// The state after a block of `n_out` samples.
    pub open spec fn advanced(&self, n_out: int) -> BypassCrossfader {
        let remaining = self.remaining - self.ramp_len(n_out);
        BypassCrossfader {
            target: self.target,
            active: remaining > 0,
            mix: if remaining > 0 {
                clamp_mix(self.mix + self.step * self.ramp_len(n_out)) as i32
            } else {
                end_mix(self.target)
            },
            step: self.step,
            remaining: remaining as usize,
        }
    }
}

/// A ramp that starts at rest stays between dry and wet on every sample, moves by one 64th
/// from each sample to the next, and arrives after 64 samples exactly at its target.
pub proof fn law_full_ramp(bypassed: bool, i: int, n_out: int, dry_n: int)
    requires
        0 <= i < 64,
        64 <= n_out <= dry_n,
    ensures
        ({
            let start = BypassCrossfader {
                target: !bypassed,
                active: true,
                mix: end_mix(bypassed),
                step: if bypassed {
                    1
                } else {
                    -1i32
                },
                remaining: BYPASS_XFADE_SAMPLES,
            };
            &&& start.source_spec(i, n_out, dry_n) == SampleSource::Blend {
                mix: if bypassed {
                    i as i32
                } else {
                    (64 - i) as i32
                },
            }
            &&& !start.advanced(n_out).active
            &&& start.advanced(n_out).mix == end_mix(!bypassed)
        }),
{
}

/// A change of direction on the way starts from the position that was reached: there is no
/// jump.
pub proof fn law_trigger_is_continuous(before: BypassCrossfader, after: BypassCrossfader, n_out: int, dry_n: int)
    requires
        before.wf(),
        after == (BypassCrossfader {
            target: !before.target,
            active: true,
            mix: before.mix,
            step: if before.target {
                1
            } else {
                -1i32
            },
            remaining: BYPASS_XFADE_SAMPLES,
        }),
        n_out > 0,
        dry_n > 0,
    ensures
        after.source_spec(0, n_out, dry_n) == (SampleSource::Blend { mix: before.mix }),
{
}

/// A ramp of 64 samples is over after 64 samples, in however many blocks they come.
pub proof fn law_ramp_ends(xfade: BypassCrossfader, first: int, second: int)
    requires
        xfade.wf(),
        xfade.active,
        0 <= first < xfade.remaining,
        second >= xfade.remaining - first,
    ensures
        xfade.advanced(first).active,
        !xfade.advanced(first).advanced(second).active,
        xfade.advanced(first).advanced(second).mix == end_mix(xfade.target),
        !xfade.advanced(first + second).active,
        xfade.advanced(first + second).mix == end_mix(xfade.target),
{
}

/// Whatever the ramp has been through, every sample lies between dry and wet.
pub proof fn law_blend_lies_between_dry_and_wet(
    xfade: BypassCrossfader,
    i: int,
    n_out: int,
    dry_n: int,
)
    requires
        xfade.wf(),
        0 <= i < n_out,
    ensures
        match xfade.source_spec(i, n_out, dry_n) {
            SampleSource::Blend { mix } => 0 <= mix <= 64,
            SampleSource::ScaledWet { mix } => 0 <= mix <= 64,
            _ => i >= xfade.remaining,
        },
{
}

/// Where a ramp is cut into two blocks makes no difference to any sample, nor to how it ends.
pub proof fn law_cut_leaves_the_ramp_alone(
    xfade: BypassCrossfader,
    first: int,
    second: int,
    i: int,
)
    requires
        xfade.wf(),
        xfade.active,
        0 <= first < xfade.remaining,
        0 <= i < second,
    ensures
        xfade.advanced(first).active,
        xfade.advanced(first).source_spec(i, second, second) == xfade.source_spec(
            first + i,
            first + second,
            first + second,
        ),
        xfade.advanced(first).advanced(second) == xfade.advanced(first + second),
{
    let step = xfade.step as int;
    let rest = xfade.ramp_len(first + second) - first;
    if step == -1 {
        assert(step * first == -first && step * i == -i && step * (first + i) == -first - i && step
            * rest == -rest && step * (first + rest) == -first - rest) by (nonlinear_arith)
            requires
                step == -1,
        ;
    } else {
        assert(step * first == first && step * i == i && step * (first + i) == first + i && step
            * rest == rest && step * (first + rest) == first + rest) by (nonlinear_arith)
            requires
                step == 1,
        ;
    }
}

} // verus!
