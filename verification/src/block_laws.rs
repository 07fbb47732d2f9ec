//! What holds of a block of audio on its way from the host's inputs to its outputs.

use vstd::prelude::*;
use crate::channels::{
    channel_input, contained, copied, finite_bits, fitting, silenced, starts_filled, starts_with,
    ChannelPair,
};
use crate::crossfade::{end_mix, BypassCrossfader, SampleSource};
use crate::dry_delay::{clamp_len, delayed, sample_back};
use crate::orchestrator::{chunk_spec, flag_as, triggered, wet_spec, with_status, Route, WetStep};
use crate::processor::{DspChain, NamClapProcessor};
use crate::shared::{ColdShared, GuiSharedState};
use crate::status::{law_flag_set_and_clear, law_flags_are_independent, raised, RtStatusFlags};
use crate::sub_block::{is_crossfaded, is_rendered, rendered, wet_len};

verus! {

/// An open noise gate lets the model run, whatever is installed and however long the part is: all
/// that it gives is delivered as it is, and nothing is silenced.
pub proof fn law_open_gate_lets_the_model_through<T>(
    chain: DspChain,
    conv_active: bool,
    n: int,
    n_out: int,
    buf: Seq<T>,
    silence: T,
    i: int,
)
    ensures
        wet_spec(chain, false, conv_active, n).0 == WetStep::Infer,
        wet_len(wet_spec(chain, false, conv_active, n).0, n, n_out) == n_out,
        rendered(wet_spec(chain, false, conv_active, n).0, buf, silence, i) == buf[i],
{
}

/// A closed noise gate never lets the model run. The tail of the cab-sim goes on for as many
/// samples as are left of it, and each of them is used up.
pub proof fn law_closed_gate_uses_up_the_tail(chain: DspChain, conv_active: bool, n: int)
    requires
        0 <= n <= usize::MAX,
    ensures
        ({
            let tail = chain.cabsim_tail_remaining as int;
            let (step, left) = wet_spec(chain, true, conv_active, n);
            &&& step is Silence <==> tail == 0
            &&& step is DrainTail <==> tail > 0
            &&& step is DrainTail && n <= tail ==> step->drain == n && left == tail - n
            &&& step is DrainTail && n > tail ==> step->drain == tail && left == 0
            &&& step is Silence ==> left == 0
        }),
{
}

/// Only audio that passes an active cab-sim changes its tail; behind an open noise gate it is
/// otherwise left as it was.
pub proof fn law_open_gate_leaves_an_idle_tail(chain: DspChain, conv_active: bool, n: int)
    requires
        !conv_active || chain.cabsim_adapter is None,
    ensures
        wet_spec(chain, false, conv_active, n).1 == chain.cabsim_tail_remaining,
{
}

/// What the model gives behind an open noise gate is what the host finds in its output, sample by
/// sample from the offset on, and nothing else in the output changes.
pub proof fn law_rendered_samples_reach_the_host<T, F: Fn(T) -> bool>(
    chain: DspChain,
    conv_active: bool,
    n: int,
    n_out: int,
    buf: Seq<T>,
    buf_after: Seq<T>,
    out: Seq<T>,
    out_after: Seq<T>,
    offset: int,
    finite: F,
    silence: T,
    i: int,
)
    requires
        0 <= n_out <= buf.len(),
        0 <= offset,
        is_rendered(
            wet_spec(chain, false, conv_active, n).0,
            buf,
            buf_after,
            silence,
            wet_len(wet_spec(chain, false, conv_active, n).0, n, n_out),
        ),
        copied(
            out,
            out_after,
            buf_after,
            wet_len(wet_spec(chain, false, conv_active, n).0, n, n_out),
            offset,
            finite,
            silence,
        ),
        0 <= i < out.len(),
    ensures
        out_after.len() == out.len(),
        offset <= i < offset + n_out ==> {
            ||| finite.ensures((buf[i - offset],), true) && out_after[i] == buf[i - offset]
            ||| finite.ensures((buf[i - offset],), false) && out_after[i] == silence
        },
        !(offset <= i < offset + n_out) ==> out_after[i] == out[i],
{
    if offset <= i < offset + n_out {
        assert(buf_after[i - offset] == buf[i - offset]);
        assert(contained(finite, buf_after[i - offset], silence, out_after[i]));
    }
}

/// What the host finds in its output while the plug-in is bypassed: its own input, as much earlier
/// as the delay of the dry signal is long.
pub proof fn law_bypassed_input_reaches_the_host<T, F: Fn(T) -> bool>(
    past: Seq<T>,
    input: Seq<T>,
    dry: Seq<T>,
    delay: int,
    out: Seq<T>,
    out_after: Seq<T>,
    offset: int,
    finite: F,
    silence: T,
    i: int,
)
    requires
        0 <= delay,
        0 <= offset,
        dry.len() == input.len(),
        forall|k: int|
            0 <= k < input.len() ==> #[trigger] dry[k] == delayed(past, silence, input, k, delay),
        copied(out, out_after, dry, input.len() as int, offset, finite, silence),
        forall|s: T, yes: bool| finite.ensures((s,), yes) ==> yes,
        delay <= i < input.len(),
        offset + i < out.len(),
    ensures
        out_after[offset + i] == input[i - delay],
{
    assert(contained(finite, dry[i], silence, out_after[offset + i])) by {
        assert(dry[offset + i - offset] == dry[i]);
    }
}

/// What came before a block comes out of the delay line first, the latest sample last.
pub proof fn law_past_comes_out_first<T>(past: Seq<T>, silence: T, input: Seq<T>, i: int, delay: int)
    requires
        0 <= i < delay,
    ensures
        delay - i <= past.len() ==> delayed(past, silence, input, i, delay) == past[past.len()
            - delay + i],
        delay - i > past.len() ==> delayed(past, silence, input, i, delay) == silence,
        0 < past.len() ==> sample_back(past, silence, 0) == past.last(),
{
}

/// A block of the delay line is as long as asked, or as the shortest buffer allows.
pub proof fn law_shortest_buffer_counts(n: int, a: int, b: int, c: int, d: int)
    ensures
        clamp_len(n, a, b, c, d) <= n && clamp_len(n, a, b, c, d) <= a && clamp_len(n, a, b, c, d)
            <= b && clamp_len(n, a, b, c, d) <= c && clamp_len(n, a, b, c, d) <= d,
        n <= a && n <= b && n <= c && n <= d ==> clamp_len(n, a, b, c, d) == n,
        clamp_len(n, a, b, c, d) == n || clamp_len(n, a, b, c, d) == a || clamp_len(n, a, b, c, d)
            == b || clamp_len(n, a, b, c, d) == c || clamp_len(n, a, b, c, d) == d,
{
}

/// The dry signal is delayed by the sum of the latencies of stream, engines and cab-sim, or as far
/// as its line reaches.
pub proof fn law_delay_is_cut_to_the_line<T: Copy>(processor: &NamClapProcessor<T>)
    requires
        processor.wf(),
    ensures
        processor.chain.cached_effective_latency <= processor.dry_delay.capacity()
            ==> processor.dry_delay.delay() == processor.chain.cached_effective_latency,
        processor.chain.cached_effective_latency > processor.dry_delay.capacity()
            ==> processor.dry_delay.delay() == processor.dry_delay.capacity(),
{
}

/// A crossfade in progress is finished first. After it a bypassed part is dry and any other part is
/// wet: it is never the other way round.
pub proof fn law_parts_go_where_the_switch_says<T: Copy>(processor: &NamClapProcessor<T>)
    ensures
        processor.bypass_xfade.active <==> processor.route_spec() == Route::Crossfade,
        !processor.bypass_xfade.active && processor.params.bypass <==> processor.route_spec()
            == Route::Bypass,
        !processor.bypass_xfade.active && !processor.params.bypass <==> processor.route_spec()
            == Route::Wet,
{
}

/// Whatever the crossfade was at, it leads to where the switch is. A switch that has not moved
/// changes nothing; one that has starts a ramp of 64 samples from the position that was reached,
/// down to dry where the plug-in is bypassed and up to wet where it is not.
pub proof fn law_switch_starts_a_ramp(xfade: BypassCrossfader, bypass: bool)
    ensures
        triggered(xfade, bypass).target == bypass,
        xfade.target == bypass ==> triggered(xfade, bypass) == xfade,
        xfade.target != bypass ==> {
            &&& triggered(xfade, bypass).active
            &&& triggered(xfade, bypass).remaining == 64
            &&& triggered(xfade, bypass).mix == xfade.mix
            &&& triggered(xfade, bypass).step == (if bypass {
                -1i32
            } else {
                1i32
            })
        },
        xfade.wf() ==> triggered(xfade, bypass).wf(),
{
}

/// At rest the signal is the one that the switch asks for, from the first sample on.
pub proof fn law_rest_is_all_dry_or_all_wet(bypass: bool, i: int, n_out: int, dry_n: int)
    requires
        0 <= i < n_out,
    ensures
        ({
            let rest = BypassCrossfader {
                target: bypass,
                active: false,
                mix: end_mix(bypass),
                step: 0,
                remaining: 0,
            };
            &&& rest.wf()
            &&& rest.mix == 0 <==> bypass
            &&& rest.mix == 64 <==> !bypass
            &&& bypass && i < dry_n ==> rest.source_spec(i, n_out, dry_n) == SampleSource::Dry
            &&& bypass && i >= dry_n ==> rest.source_spec(i, n_out, dry_n) == SampleSource::Silence
            &&& !bypass ==> rest.source_spec(i, n_out, dry_n) == SampleSource::Wet
        }),
{
}

/// On a ramp each sample is blended one 64th nearer to the target than the one before, from the
/// position that was reached, and held at the end of the range. Behind the ramp the target alone
/// is heard.
pub proof fn law_ramp_moves_towards_its_target(
    xfade: BypassCrossfader,
    i: int,
    n_out: int,
    dry_n: int,
)
    requires
        xfade.wf(),
        xfade.active,
        0 <= i < n_out <= dry_n,
    ensures
        i < xfade.remaining && xfade.target ==> xfade.source_spec(i, n_out, dry_n)
            == (SampleSource::Blend {
            mix: if xfade.mix >= i {
                (xfade.mix - i) as i32
            } else {
                0
            },
        }),
        i < xfade.remaining && !xfade.target ==> xfade.source_spec(i, n_out, dry_n)
            == (SampleSource::Blend {
            mix: if xfade.mix + i <= 64 {
                (xfade.mix + i) as i32
            } else {
                64
            },
        }),
        i >= xfade.remaining && xfade.target ==> xfade.source_spec(i, n_out, dry_n)
            == SampleSource::Dry,
        i >= xfade.remaining && !xfade.target ==> xfade.source_spec(i, n_out, dry_n)
            == SampleSource::Wet,
{
    lemma_step(xfade, i);
}

/// A ramp counts its samples: after a block as many are left as have not been heard, and where none
/// is left the signal is at rest at the target.
pub proof fn law_ramp_counts_its_samples(xfade: BypassCrossfader, n_out: int)
    requires
        xfade.wf(),
        xfade.active,
        0 <= n_out,
    ensures
        ({
            let after = xfade.advanced(n_out);
            &&& after.target == xfade.target
            &&& n_out < xfade.remaining ==> after.active && after.remaining == xfade.remaining
                - n_out
            &&& n_out >= xfade.remaining ==> !after.active && after.remaining == 0 && after.mix
                == (if xfade.target {
                0i32
            } else {
                64i32
            })
        }),
{
}

/// What a crossfade gives: a sample on the ramp is the blend of the dry and the wet sample of the
/// same instant, and behind the ramp it is the dry sample where the plug-in is bypassed and the wet
/// one where it is not.
pub proof fn law_crossfade_blends_dry_and_wet<T, B: Fn(T, T, i32) -> T>(
    xfade: BypassCrossfader,
    blend: B,
    dry: Seq<T>,
    wet: Seq<T>,
    after: Seq<T>,
    silence: T,
    len: int,
    i: int,
)
    requires
        xfade.wf(),
        xfade.active,
        is_crossfaded(xfade, blend, dry, wet, after, silence, len, len),
        0 <= i < wet.len(),
    ensures
        after.len() == wet.len(),
        i >= len ==> after[i] == wet[i],
        xfade.remaining <= i < len && xfade.target ==> after[i] == dry[i],
        xfade.remaining <= i < len && !xfade.target ==> after[i] == wet[i],
        i < len && i < xfade.remaining && xfade.target ==> blend.ensures(
            (
                dry[i],
                wet[i],
                if xfade.mix >= i {
                    (xfade.mix - i) as i32
                } else {
                    0
                },
            ),
            after[i],
        ),
        i < len && i < xfade.remaining && !xfade.target ==> blend.ensures(
            (
                dry[i],
                wet[i],
                if xfade.mix + i <= 64 {
                    (xfade.mix + i) as i32
                } else {
                    64
                },
            ),
            after[i],
        ),
{
    if i < len {
        law_ramp_moves_towards_its_target(xfade, i, len, len);
    }
}

/// Where a dry sample is missing, the wet signal alone is faded, and a bypassed plug-in is silent.
pub proof fn law_missing_dry_samples_are_silent<T, B: Fn(T, T, i32) -> T>(
    xfade: BypassCrossfader,
    blend: B,
    dry: Seq<T>,
    wet: Seq<T>,
    after: Seq<T>,
    silence: T,
    len: int,
    dry_n: int,
    i: int,
)
    requires
        xfade.wf(),
        xfade.active,
        is_crossfaded(xfade, blend, dry, wet, after, silence, len, dry_n),
        0 <= dry_n <= i < len <= wet.len(),
    ensures
        i >= xfade.remaining && xfade.target ==> after[i] == silence,
        i >= xfade.remaining && !xfade.target ==> after[i] == wet[i],
        i < xfade.remaining && xfade.target ==> blend.ensures(
            (
                silence,
                wet[i],
                if xfade.mix >= i {
                    (xfade.mix - i) as i32
                } else {
                    0
                },
            ),
            after[i],
        ),
        i < xfade.remaining && !xfade.target ==> blend.ensures(
            (
                silence,
                wet[i],
                if xfade.mix + i <= 64 {
                    (xfade.mix + i) as i32
                } else {
                    64
                },
            ),
            after[i],
        ),
{
    lemma_step(xfade, i);
}

proof fn lemma_step(xfade: BypassCrossfader, i: int)
    requires
        xfade.wf(),
        xfade.active,
    ensures
        xfade.step * i == (if xfade.target {
            -i
        } else {
            i
        }),
{
    let step = xfade.step as int;
    if xfade.target {
        assert(step * i == -i) by (nonlinear_arith)
            requires
                step == -1,
        ;
    } else {
        assert(step * i == i) by (nonlinear_arith)
            requires
                step == 1,
        ;
    }
}

/// A part that was rendered keeps what follows it in the working buffer, and is as long as before.
pub proof fn law_rendering_stays_within_the_part<T>(
    step: WetStep,
    before: Seq<T>,
    after: Seq<T>,
    silence: T,
    len: int,
    i: int,
)
    requires
        is_rendered(step, before, after, silence, len),
        0 <= i < before.len(),
    ensures
        after.len() == before.len(),
        i >= len ==> after[i] == before[i],
        i < len && step is Infer ==> after[i] == before[i],
        i < len && step is Silence ==> after[i] == silence,
        i < len && step is DrainTail && i < step->drain ==> after[i] == before[i],
        i < len && step is DrainTail && i >= step->drain ==> after[i] == silence,
{
}

/// The next piece of a part is all that is left, or as much as the working buffers hold.
pub proof fn law_piece_is_as_long_as_it_can_be(remaining: int, max_chunk: int)
    ensures
        remaining <= max_chunk ==> chunk_spec(remaining, max_chunk) == remaining,
        remaining > max_chunk ==> chunk_spec(remaining, max_chunk) == max_chunk,
{
}

/// A channel of a port carries the samples that the host has put there. Only a channel without an
/// input carries none, and only one that is for input alone has no output.
pub proof fn law_port_carries_what_the_host_offers<'a, T>(samples: &'a [T])
    ensures
        channel_input(Some(ChannelPair::InputOutput(samples))) == Some(samples@),
        channel_input(Some(ChannelPair::InPlace(samples))) == Some(samples@),
        channel_input(Some(ChannelPair::InputOnly(samples))) == Some(samples@),
        channel_input(Some(ChannelPair::<'a, T>::OutputOnly)) is None,
        channel_input(None::<ChannelPair<'a, T>>) is None,
        ChannelPair::InputOutput(samples).has_output_spec(),
        ChannelPair::InPlace(samples).has_output_spec(),
        !ChannelPair::InputOnly(samples).has_output_spec(),
        ChannelPair::<'a, T>::OutputOnly.has_output_spec(),
{
}

/// A working buffer that is filled from a channel holds the channel's samples, each at its place,
/// and keeps what lies behind them.
pub proof fn law_buffer_holds_the_channel<T>(
    before: Seq<T>,
    after: Seq<T>,
    source: Seq<T>,
    n: int,
    i: int,
)
    requires
        starts_with(before, after, source, n),
        0 <= i < before.len(),
    ensures
        after.len() == before.len(),
        i < n ==> after[i] == source[i],
        i >= n ==> after[i] == before[i],
{
}

/// A working buffer that is filled with one value holds it in every place that was asked for, and
/// keeps what lies behind them.
pub proof fn law_buffer_holds_the_value<T>(before: Seq<T>, after: Seq<T>, value: T, n: int, i: int)
    requires
        starts_filled(before, after, value, n),
        0 <= i < before.len(),
    ensures
        after.len() == before.len(),
        i < n ==> after[i] == value,
        i >= n ==> after[i] == before[i],
{
}

/// An output holds the samples of a block from the offset on, each where it belongs, as far as
/// there is room; a sample that is not accepted is replaced by silence, and nothing else changes.
pub proof fn law_output_holds_the_block<T, F: Fn(T) -> bool>(
    before: Seq<T>,
    after: Seq<T>,
    src: Seq<T>,
    n: int,
    offset: int,
    finite: F,
    silence: T,
    i: int,
)
    requires
        copied(before, after, src, n, offset, finite, silence),
        0 <= n,
        0 <= offset,
        0 <= i < before.len(),
    ensures
        after.len() == before.len(),
        !(offset <= i < offset + n) ==> after[i] == before[i],
        offset <= i < offset + n ==> {
            ||| finite.ensures((src[i - offset],), true) && after[i] == src[i - offset]
            ||| finite.ensures((src[i - offset],), false) && after[i] == silence
        },
{
    if offset <= i < offset + n {
        assert(contained(finite, src[i - offset], silence, after[i]));
    }
}

/// An output that is silenced is silent from the offset on, as far as there is room, and keeps
/// everything else.
pub proof fn law_silenced_output_is_silent<T>(
    before: Seq<T>,
    after: Seq<T>,
    n: int,
    offset: int,
    silence: T,
    i: int,
)
    requires
        silenced(before, after, n, offset, silence),
        0 <= n,
        0 <= offset,
        0 <= i < before.len(),
    ensures
        after.len() == before.len(),
        offset <= i < offset + n ==> after[i] == silence,
        !(offset <= i < offset + n) ==> after[i] == before[i],
{
}

/// As many samples fit as were asked for and as there is room for.
pub proof fn law_as_much_as_fits(n: int, len: int, offset: int)
    requires
        0 <= n,
        0 <= len,
        0 <= offset,
    ensures
        offset >= len ==> fitting(n, len, offset) == 0,
        offset + n <= len ==> fitting(n, len, offset) == n,
        offset < len < offset + n ==> fitting(n, len, offset) == len - offset,
{
}

/// A number is finite exactly where it lies below infinity, whatever its sign.
pub proof fn law_finite_lies_below_infinity(bits: u32)
    ensures
        finite_bits(bits) == ((bits & 0x7fff_ffff) < 0x7f80_0000),
{
    assert(((bits >> 23u32) & 0xff != 0xff) == ((bits & 0x7fff_ffff) < 0x7f80_0000)) by (bit_vector);
}

/// A flag that is set to a state is in that state, and no other flag and no counter has changed.
pub proof fn law_flag_is_as_set(status: RtStatusFlags, flag: u64, up: bool, other: u64)
    requires
        flag != 0,
        flag & other == 0,
    ensures
        raised(flag_as(status, flag, up).flags, flag) == up,
        raised(flag_as(status, flag, up).flags, other) == raised(status.flags, other),
        flag_as(status, flag, up) == (RtStatusFlags {
            flags: flag_as(status, flag, up).flags,
            flags_seen: flag_as(status, flag, up).flags_seen,
            ..status
        }),
{
    law_flag_set_and_clear(status, flag);
    law_flags_are_independent(status, flag, other);
}

/// A new status takes the place of the old one and of nothing else.
pub proof fn law_status_is_all_that_changes(shared: GuiSharedState, status: RtStatusFlags)
    ensures
        with_status(shared, status).cold.rt_status == status,
        with_status(shared, status).rt_to_ui == shared.rt_to_ui,
        with_status(shared, status).ui_to_rt == shared.ui_to_rt,
        (ColdShared {
            rt_status: shared.cold.rt_status,
            ..with_status(shared, status).cold
        }) == shared.cold,
{
}

} // verus!
