//! What holds of the audio thread across commands and callbacks.

use vstd::multiset::Multiset;
use vstd::prelude::*;
use crate::callback::{gui_params, CallbackState};
use crate::command_scheduler::{
    in_step, law_ack_is_exact, lemma_seq_after_adds, number_at, CommandConsumer, CommandProducer,
};
use crate::events::{structural_count, upcoming, DrainReport};
use crate::params::{ActivationPrecision, AdaptiveComputeMode};
use crate::payload::{
    model_resources, CabSimHandle, ClapParamPayload, GcItem, LoadModelPayload, ModelHandle,
    OversampleHandle, ResamplerHandle, RestoreTxn, SlimmableRebuild, StreamHandle, StructuralKind,
};
use crate::processor::{
    announce_channels, cabsim_latency, effective_latency, inject_model, retire_all, retire_cabsim,
    retire_model, DspChain, NamClapProcessor, RtEffect, RtState,
};
use crate::shared::{GuiSharedState, UiToRt, RENDER_MODE_OFFLINE, RENDER_MODE_REALTIME};

verus! {

/// A set that holds one resource, if there is one.
pub open spec fn one(item: Option<GcItem>) -> Multiset<GcItem> {
    match item {
        Some(i) => Multiset::singleton(i),
        None => Multiset::empty(),
    }
}

pub open spec fn model_item(model: Option<ModelHandle>) -> Option<GcItem> {
    match model {
        Some(m) => Some(GcItem::Model(m)),
        None => None,
    }
}

pub open spec fn cabsim_item(adapter: Option<CabSimHandle>) -> Option<GcItem> {
    match adapter {
        Some(a) => Some(GcItem::CabConvAdapter(a)),
        None => None,
    }
}

/// The resources of a model swap.
pub open spec fn model_set(
    model: Option<ModelHandle>,
    resampler: ResamplerHandle,
    stream: StreamHandle,
) -> Multiset<GcItem> {
    one(model_item(model)).add(one(Some(GcItem::Resampler(resampler)))).add(
        one(Some(GcItem::Streaming(stream))),
    )
}

/// The two engines.
pub open spec fn engine_set(os_l: OversampleHandle, os_r: OversampleHandle) -> Multiset<GcItem> {
    one(Some(GcItem::Oversample(os_l))).add(one(Some(GcItem::Oversample(os_r))))
}

/// The resources that a chain holds.
pub open spec fn held(chain: DspChain) -> Multiset<GcItem> {
    model_set(chain.model_l, chain.resampler, chain.stream).add(
        one(cabsim_item(chain.cabsim_adapter)),
    ).add(engine_set(chain.os_l, chain.os_r))
}

/// The resources that a command carries.
pub open spec fn carried(cmd: ClapParamPayload) -> Multiset<GcItem> {
    match cmd {
        ClapParamPayload::Params(_) => Multiset::empty(),
        ClapParamPayload::LoadModel { model_l, new_resampler, new_stream, .. } => model_set(
            model_l,
            new_resampler,
            new_stream,
        ),
        ClapParamPayload::LoadCabIr { adapter } => one(cabsim_item(adapter)),
        ClapParamPayload::SetOversample { os_l, os_r } => engine_set(os_l, os_r),
        ClapParamPayload::RestoreTxn(txn) => carried_model(txn.model).add(carried_ir(txn.ir)),
    }
}

pub open spec fn carried_model(model: Option<LoadModelPayload>) -> Multiset<GcItem> {
    match model {
        Some(m) => model_set(m.model_l, m.new_resampler, m.new_stream),
        None => Multiset::empty(),
    }
}

pub open spec fn carried_ir(ir: Option<Option<CabSimHandle>>) -> Multiset<GcItem> {
    match ir {
        Some(adapter) => one(cabsim_item(adapter)),
        None => Multiset::empty(),
    }
}

/// The resources that have been handed over for disposal.
pub open spec fn retired(effects: Seq<RtEffect>) -> Multiset<GcItem>
    decreases effects.len(),
{
    if effects.len() == 0 {
        Multiset::empty()
    } else {
        retired(effects.drop_last()).add(
            match effects.last() {
                RtEffect::Retire(item) => Multiset::singleton(item),
                _ => Multiset::empty(),
            },
        )
    }
}

proof fn lemma_retired_push(effects: Seq<RtEffect>, effect: RtEffect)
    ensures
        retired(effects.push(effect)) == retired(effects).add(
            match effect {
                RtEffect::Retire(item) => Multiset::singleton(item),
                _ => Multiset::empty(),
            },
        ),
{
    assert(effects.push(effect).drop_last() =~= effects);
}

proof fn lemma_retired_add(a: Seq<RtEffect>, b: Seq<RtEffect>)
    ensures
        retired(a + b) == retired(a).add(retired(b)),
    decreases b.len(),
{
    if b.len() == 0 {
        assert(a + b =~= a);
        assert(retired(a).add(retired(b)) =~= retired(a));
    } else {
        lemma_retired_add(a, b.drop_last());
        assert((a + b).drop_last() =~= a + b.drop_last());
        assert((a + b).last() == b.last());
        assert(retired(a + b) =~= retired(a).add(retired(b)));
    }
}

proof fn lemma_retired_small(a: RtEffect, b: RtEffect)
    ensures
        retired(Seq::empty()) == Multiset::<GcItem>::empty(),
        retired(seq![a]) == (match a {
            RtEffect::Retire(item) => Multiset::singleton(item),
            _ => Multiset::empty(),
        }),
        retired(seq![a, b]) == retired(seq![a]).add(retired(seq![b])),
{
    lemma_retired_push(Seq::empty(), a);
    lemma_retired_push(Seq::empty(), b);
    assert(Seq::<RtEffect>::empty().push(a) =~= seq![a]);
    assert(Seq::<RtEffect>::empty().push(b) =~= seq![b]);
    assert(retired(seq![a]) =~= (match a {
        RtEffect::Retire(item) => Multiset::singleton(item),
        _ => Multiset::empty(),
    }));
    lemma_retired_add(seq![a], seq![b]);
    assert(seq![a] + seq![b] =~= seq![a, b]);
}

/// Nothing is lost and nothing appears when a model is installed.
proof fn lemma_load_model_keeps_resources(state: RtState, p: LoadModelPayload)
    ensures
        ({
            let after = state.load_model(p);
            held(state.chain).add(model_set(p.model_l, p.new_resampler, p.new_stream)).add(
                retired(state.effects),
            ) == held(after.chain).add(retired(after.effects))
        }),
{
    reveal(RtState::load_model);
    let after = state.load_model(p);
    let swap = seq![
        RtEffect::Retire(GcItem::Resampler(state.chain.resampler)),
        RtEffect::Retire(GcItem::Streaming(state.chain.stream)),
    ];
    let e0 = state.effects;
    let e1 = e0 + retire_model(state.chain.model_l);
    let e2 = e1 + inject_model(p.model_l);
    let e3 = e2 + swap;
    lemma_retired_add(e0, retire_model(state.chain.model_l));
    lemma_retired_add(e1, inject_model(p.model_l));
    lemma_retired_add(e2, swap);
    lemma_retired_add(e3, announce_channels(p.model_l));
    lemma_retired_small(swap[0], swap[1]);
    assert(seq![swap[0], swap[1]] =~= swap);
    lemma_retired_small(swap[1], swap[0]);
    if let Some(m) = state.chain.model_l {
        lemma_retired_small(RtEffect::Retire(GcItem::Model(m)), RtEffect::TailChanged);
    }
    if let Some(m) = p.model_l {
        lemma_retired_small(RtEffect::InjectRtStatus(m), RtEffect::TailChanged);
        if let Some(shape) = m.wavenet {
            lemma_retired_small(RtEffect::SetWaveNetChannels(shape), RtEffect::TailChanged);
        }
    }
    assert(retired(inject_model(p.model_l)) =~= Multiset::empty());
    assert(retired(announce_channels(p.model_l)) =~= Multiset::empty());
    assert(retired(retire_model(state.chain.model_l)) =~= one(model_item(state.chain.model_l)));
    assert(held(state.chain).add(model_set(p.model_l, p.new_resampler, p.new_stream)).add(
        retired(state.effects),
    ) =~= held(after.chain).add(retired(after.effects)));
}

proof fn lemma_load_cabsim_keeps_resources(state: RtState, adapter: Option<CabSimHandle>)
    ensures
        ({
            let after = state.load_cabsim(adapter);
            held(state.chain).add(one(cabsim_item(adapter))).add(retired(state.effects)) == held(
                after.chain,
            ).add(retired(after.effects))
        }),
{
    reveal(RtState::load_cabsim);
    let after = state.load_cabsim(adapter);
    let old_cab = retire_cabsim(state.chain.cabsim_adapter);
    lemma_retired_add(state.effects, old_cab);
    lemma_retired_add(state.effects + old_cab, seq![RtEffect::TailChanged]);
    lemma_retired_small(RtEffect::TailChanged, RtEffect::TailChanged);
    if let Some(a) = state.chain.cabsim_adapter {
        lemma_retired_small(RtEffect::Retire(GcItem::CabConvAdapter(a)), RtEffect::TailChanged);
    }
    assert(retired(old_cab) =~= one(cabsim_item(state.chain.cabsim_adapter)));
    assert(held(state.chain).add(one(cabsim_item(adapter))).add(retired(state.effects)) =~= held(
        after.chain,
    ).add(retired(after.effects)));
}

proof fn lemma_load_os_keeps_resources(
    state: RtState,
    os_l: OversampleHandle,
    os_r: OversampleHandle,
)
    ensures
        ({
            let after = state.load_os(os_l, os_r);
            held(state.chain).add(engine_set(os_l, os_r)).add(retired(state.effects)) == held(
                after.chain,
            ).add(retired(after.effects))
        }),
{
    reveal(RtState::load_os);
    let after = state.load_os(os_l, os_r);
    let a = RtEffect::Retire(GcItem::Oversample(state.chain.os_l));
    let b = RtEffect::Retire(GcItem::Oversample(state.chain.os_r));
    lemma_retired_add(state.effects, seq![a, b]);
    lemma_retired_small(a, b);
    lemma_retired_small(b, a);
    assert(held(state.chain).add(engine_set(os_l, os_r)).add(retired(state.effects)) =~= held(
        after.chain,
    ).add(retired(after.effects)));
}

proof fn lemma_params_keep_resources(
    state: RtState,
    params: crate::params::RtProcessingParams,
    generation: u64,
)
    ensures
        ({
            let after = state.apply_params(params);
            &&& after.chain == state.chain
            &&& retired(after.effects) == retired(state.effects)
            &&& after.generation_applied(generation).chain == after.chain
            &&& after.generation_applied(generation).effects == after.effects
        }),
{
    reveal(RtState::apply_params);
    reveal(RtState::request_oversample);
    reveal(RtState::generation_applied);
    lemma_retired_push(state.effects, RtEffect::ApplyParams(params));
    assert(retired(state.effects).add(Multiset::empty()) =~= retired(state.effects));
}

/// The audio thread neither loses nor drops a resource: what it held and what a command
/// brings is what it holds afterwards together with what it has handed over for disposal.
pub proof fn law_no_resource_is_lost(state: RtState, cmd: ClapParamPayload)
    ensures
        ({
            let after = state.apply(cmd);
            held(state.chain).add(carried(cmd)).add(retired(state.effects)) == held(
                after.chain,
            ).add(retired(after.effects))
        }),
{
    let after = state.apply(cmd);
    match cmd {
        ClapParamPayload::Params(params) => {
            lemma_params_keep_resources(state, params, 0);
            assert(held(state.chain).add(Multiset::empty()) =~= held(state.chain));
        },
        ClapParamPayload::LoadModel {
            generation,
            model_l,
            new_resampler,
            new_stream,
            input_mult_adj,
            output_mult_adj,
        } => {
            lemma_load_model_keeps_resources(
                state,
                LoadModelPayload {
                    generation,
                    model_l,
                    new_resampler,
                    new_stream,
                    input_mult_adj,
                    output_mult_adj,
                },
            );
        },
        ClapParamPayload::LoadCabIr { adapter } => {
            lemma_load_cabsim_keeps_resources(state, adapter);
        },
        ClapParamPayload::SetOversample { os_l, os_r } => {
            lemma_load_os_keeps_resources(state, os_l, os_r);
        },
        ClapParamPayload::RestoreTxn(txn) => {
            let modeled = state.restore_model(txn.model);
            let cabbed = modeled.restore_ir(txn.ir);
            if let Some(m) = txn.model {
                lemma_load_model_keeps_resources(state, m);
            }
            if let Some(ir) = txn.ir {
                lemma_load_cabsim_keeps_resources(modeled, ir);
            }
            lemma_params_keep_resources(cabbed, txn.params, txn.generation);
            let lhs = held(state.chain).add(carried(cmd)).add(retired(state.effects));
            assert(held(state.chain).add(carried_model(txn.model)).add(retired(state.effects))
                =~= held(modeled.chain).add(retired(modeled.effects)));
            assert(held(modeled.chain).add(carried_ir(txn.ir)).add(retired(modeled.effects))
                =~= held(cabbed.chain).add(retired(cabbed.effects)));
            assert(lhs =~= held(state.chain).add(carried_model(txn.model)).add(
                retired(state.effects),
            ).add(carried_ir(txn.ir)));
            assert(lhs =~= held(modeled.chain).add(carried_ir(txn.ir)).add(
                retired(modeled.effects),
            ));
        },
    }
}

/// What applying any number of commands keeps: the cached latency is the sum of the latencies
/// of the installed chain, and the oversampling factor in force is that of the installed
/// engines.
pub open spec fn coherent(state: RtState) -> bool {
    &&& state.chain.cached_effective_latency == effective_latency(state.chain)
    &&& state.chain.applied_os_factor == state.chain.os_l.factor
    &&& state.cells.current_stream_latency == state.chain.stream.latency_samples
    &&& state.cells.current_cabsim_latency == cabsim_latency(
        state.chain.cabsim_adapter,
    )
}

/// The latencies that the main thread reads are those of the resources that are installed,
/// after every command.
pub proof fn law_published_latencies_are_installed(state: RtState, cmd: ClapParamPayload)
    requires
        coherent(state),
    ensures
        coherent(state.apply(cmd)),
{
    reveal(RtState::load_model);
    reveal(RtState::load_cabsim);
    reveal(RtState::load_os);
    reveal(RtState::apply_params);
    reveal(RtState::request_oversample);
    reveal(RtState::generation_applied);
}

/// Whether a command swaps a resource that has a latency.
pub open spec fn swaps(cmd: ClapParamPayload) -> bool {
    match cmd {
        ClapParamPayload::Params(_) => false,
        ClapParamPayload::RestoreTxn(txn) => txn.model is Some || txn.ir is Some,
        _ => true,
    }
}

/// Whatever the cached latency was, a command that swaps a resource leaves it at the sum of the
/// latencies of what is installed then; a command that swaps none leaves it as it was.
pub proof fn law_swap_recomputes_the_latency(state: RtState, cmd: ClapParamPayload)
    ensures
        swaps(cmd) ==> state.apply(cmd).chain.cached_effective_latency == effective_latency(
            state.apply(cmd).chain,
        ),
        !swaps(cmd) ==> state.apply(cmd).chain == state.chain,
{
    reveal(RtState::load_model);
    reveal(RtState::load_cabsim);
    reveal(RtState::load_os);
    reveal(RtState::apply_params);
    reveal(RtState::request_oversample);
    reveal(RtState::generation_applied);
}

/// After every command that a processor applies, its cached latency is the sum of the latencies of
/// stream, engines and cab-sim, and the dry signal is delayed by that much, as far as the line
/// reaches.
pub proof fn law_dry_delay_follows_every_command<T: Copy>(
    before: &NamClapProcessor<T>,
    shared: &GuiSharedState,
    cmd: ClapParamPayload,
    after: &NamClapProcessor<T>,
    shared_after: &GuiSharedState,
)
    requires
        after.wf(),
        after.rt(shared_after) == before.rt(shared).apply(cmd),
        // The sum is one that a `u32` holds.
        after.chain.stream.latency_samples + after.chain.os_l.latency_samples + cabsim_latency(
            after.chain.cabsim_adapter,
        ) <= u32::MAX,
    ensures
        ({
            let sum = after.chain.stream.latency_samples + after.chain.os_l.latency_samples
                + cabsim_latency(after.chain.cabsim_adapter);
            &&& before.rt(shared).apply(cmd).chain.cached_effective_latency == sum
            &&& after.chain.cached_effective_latency == sum
            &&& after.dry_delay.delay() == after.dry_delay.cut(sum)
        }),
{
}

/// A wish for another oversampling factor never changes the latency or the engines: they wait
/// for the restart. The wish is kept where the next activation finds it, and the latest wins.
pub proof fn law_oversampling_waits_for_restart(
    state: RtState,
    first: crate::params::OversampleFactor,
    second: crate::params::OversampleFactor,
)
    requires
        state.active,
        first != state.params.oversample,
    ensures
        ({
            let once = state.request_oversample(first);
            let twice = once.request_oversample(second);
            &&& once.chain == state.chain
            &&& once.cells.rt_status == state.cells.rt_status
            &&& crate::shared::PendingRestartOs::decoded(once.cells.pending_restart_os_factor)
                == crate::shared::PendingRestartOs::Pending(first)
            &&& twice.chain == state.chain
            &&& crate::shared::PendingRestartOs::decoded(twice.cells.pending_restart_os_factor)
                == crate::shared::PendingRestartOs::Pending(second)
        }),
{
    reveal(RtState::request_oversample);
    crate::shared::law_pending_restart_round_trip(
        crate::shared::PendingRestartOs::Pending(first),
        first,
    );
    crate::shared::law_pending_restart_round_trip(
        crate::shared::PendingRestartOs::Pending(second),
        second,
    );
}

/// A restore is applied as one package: afterwards the model, the cab-sim and the parameters
/// are those of the transaction, where it has them, and its generation is recorded.
pub proof fn law_restore_is_atomic(state: RtState, txn: RestoreTxn)
    ensures
        ({
            let after = state.apply(ClapParamPayload::RestoreTxn(txn));
            &&& after.params == txn.params
            &&& after.cells.last_applied_generation == txn.generation
            &&& match txn.model {
                Some(m) => {
                    &&& after.chain.model_l == m.model_l
                    &&& after.chain.model_generation == m.generation
                    &&& after.chain.resampler == m.new_resampler
                    &&& after.chain.stream == m.new_stream
                    &&& after.chain.model_input_mult_adj == m.input_mult_adj
                    &&& after.chain.model_output_mult_adj == m.output_mult_adj
                },
                None => {
                    &&& after.chain.model_l == state.chain.model_l
                    &&& after.chain.model_generation == state.chain.model_generation
                    &&& after.chain.resampler == state.chain.resampler
                    &&& after.chain.stream == state.chain.stream
                },
            }
            &&& after.chain.cabsim_adapter == (match txn.ir {
                Some(ir) => ir,
                None => state.chain.cabsim_adapter,
            })
            &&& after.chain.os_l == state.chain.os_l
            &&& after.chain.os_r == state.chain.os_r
        }),
{
    reveal(RtState::load_model);
    reveal(RtState::load_cabsim);
    reveal(RtState::apply_params);
    reveal(RtState::request_oversample);
    reveal(RtState::generation_applied);
}

/// A restore is never dropped in favour of another command.
pub proof fn law_restore_is_never_superseded(
    report: DrainReport,
    deferred: Option<ClapParamPayload>,
    consumer: &CommandConsumer,
    deferred_after: Option<ClapParamPayload>,
    consumer_after: &CommandConsumer,
)
    requires
        report.fits(deferred, consumer, deferred_after, consumer_after),
        deferred is Some,
        deferred->Some_0.kind() == Some(StructuralKind::Restore),
    ensures
        !report.superseded,
        report.applied(deferred, consumer).len() > 0,
        report.applied(deferred, consumer)[0] == deferred->Some_0,
{
}

/// Every command that a callback found is accounted for, in order: it was applied, or gave
/// way, or is deferred now.
pub proof fn law_no_command_is_lost(
    report: DrainReport,
    deferred: Option<ClapParamPayload>,
    consumer: &CommandConsumer,
    deferred_after: Option<ClapParamPayload>,
    consumer_after: &CommandConsumer,
)
    requires
        report.fits(deferred, consumer, deferred_after, consumer_after),
    ensures
        ({
            let found = (if deferred is Some && !report.superseded {
                seq![deferred->Some_0]
            } else {
                Seq::empty()
            }) + upcoming(consumer, report.drained as nat);
            found == report.applied(deferred, consumer) + (match deferred_after {
                Some(cmd) => seq![cmd],
                None => Seq::empty(),
            })
        }),
{
    let first = if deferred is Some && !report.superseded {
        seq![deferred->Some_0]
    } else {
        Seq::empty()
    };
    let found = first + upcoming(consumer, report.drained as nat);
    match deferred_after {
        Some(cmd) => {
            assert(found =~= report.applied(deferred, consumer) + seq![cmd]);
        },
        None => {
            assert(found =~= report.applied(deferred, consumer) + Seq::empty());
        },
    }
}

/// A callback keeps the numbering of both threads in step; a deferred command is the one that
/// is held back.
pub proof fn law_callback_keeps_step(
    producer: &CommandProducer,
    next_seq: u64,
    report: DrainReport,
    deferred: Option<ClapParamPayload>,
    consumer: &CommandConsumer,
    deferred_after: Option<ClapParamPayload>,
    consumer_after: &CommandConsumer,
)
    requires
        report.fits(deferred, consumer, deferred_after, consumer_after),
        in_step(
            producer,
            next_seq,
            consumer,
            if deferred is Some {
                1
            } else {
                0
            },
        ),
    ensures
        in_step(
            producer,
            next_seq,
            consumer_after,
            if deferred_after is Some {
                1
            } else {
                0
            },
        ),
{
    let parked: int = if deferred is Some {
        1
    } else {
        0
    };
    lemma_seq_after_adds(
        next_seq,
        consumer.end().popped - parked - producer.end().pushed,
        report.dealt_with(deferred),
    );
}

/// A callback leaves everything acknowledged that it has dealt with, where the callback before
/// did: the producer finds acknowledged exactly the commands that left the ring, without the one
/// that is deferred now.
pub proof fn law_callback_acknowledges_exactly(
    producer: &CommandProducer,
    next_seq: u64,
    last_ack: u64,
    report: DrainReport,
    deferred: Option<ClapParamPayload>,
    consumer: &CommandConsumer,
    deferred_after: Option<ClapParamPayload>,
    consumer_after: &CommandConsumer,
    k: int,
)
    requires
        report.fits(deferred, consumer, deferred_after, consumer_after),
        in_step(
            producer,
            next_seq,
            consumer,
            if deferred is Some {
                1
            } else {
                0
            },
        ),
        last_ack == consumer.processed(),
        // The command that a deferred one gave way to is still there to be taken.
        report.superseded ==> report.drained > 0,
        consumer_after.end().popped <= producer.end().pushed,
        deferred is Some ==> consumer.end().popped > 0,
        // No number has been given twice.
        producer.end().pushed <= next_seq,
        0 <= k < producer.end().pushed,
    ensures
        ({
            let acked = report.acknowledged(deferred, consumer, last_ack);
            let parked: int = if deferred_after is Some {
                1
            } else {
                0
            };
            &&& acked == consumer_after.processed()
            &&& number_at(producer, next_seq, k) <= acked <==> k < consumer_after.end().popped
                - parked
        }),
{
    let parked: int = if deferred_after is Some {
        1
    } else {
        0
    };
    lemma_seq_after_adds(consumer.processed(), 0, 0);
    law_callback_keeps_step(
        producer,
        next_seq,
        report,
        deferred,
        consumer,
        deferred_after,
        consumer_after,
    );
    law_ack_is_exact(
        producer,
        next_seq,
        consumer_after,
        parked,
        consumer_after.processed(),
        k,
    );
}

/// A rebuilt model that was made from another model than the active one never touches the
/// chain; it is retired and counted. One that was made from the active model replaces it.
pub proof fn law_stale_rebuild_is_rejected(state: CallbackState, rebuild: SlimmableRebuild)
    ensures
        ({
            let after = state.install_rebuild(rebuild);
            if rebuild.generation != state.rt.chain.model_generation {
                &&& after.rt.chain == state.rt.chain
                &&& after.rt.effects.last() == RtEffect::Retire(GcItem::Model(rebuild.model))
                &&& after.slimmable_stale_discarded_total == crate::events::next_count(
                    state.slimmable_stale_discarded_total,
                )
            } else {
                &&& after.rt.chain == (DspChain {
                    model_l: Some(rebuild.model),
                    ..state.rt.chain
                })
                &&& after.slimmable_stale_discarded_total == state.slimmable_stale_discarded_total
            }
        }),
{
}

/// No rebuilt model changes the latency, the generation of the model or any other resource.
pub proof fn law_rebuild_changes_only_the_model(
    state: CallbackState,
    rebuilds: Seq<SlimmableRebuild>,
)
    ensures
        state.install_all(rebuilds).rt.chain == (DspChain {
            model_l: state.install_all(rebuilds).rt.chain.model_l,
            ..state.rt.chain
        }),
        state.install_all(rebuilds).rt.params == state.rt.params,
        state.install_all(rebuilds).rt.cells == state.rt.cells,
    decreases rebuilds.len(),
{
    if rebuilds.len() > 0 {
        law_rebuild_changes_only_the_model(state, rebuilds.drop_last());
    }
}

/// Offline the adaptive compute unit is off, whatever the state before.
pub proof fn law_offline_is_full_quality(state: CallbackState, ui: UiToRt)
    ensures
        state.follow_render_mode(ui, RENDER_MODE_OFFLINE).rt.adaptive_mode
            == AdaptiveComputeMode::Off,
        state.last_render_mode != RENDER_MODE_OFFLINE ==> state.follow_render_mode(
            ui,
            RENDER_MODE_OFFLINE,
        ).rt.params.activation_precision == ActivationPrecision::Standard,
{
    reveal(CallbackState::follow_render_mode);
    reveal(CallbackState::set_mode);
    reveal(CallbackState::set_precision);
    reveal(CallbackState::turn_to);
}

/// Coming back from offline rendering, the precision is the one from before, and the adaptive
/// mode is the one that the user has chosen.
pub proof fn law_offline_round_trip(state: CallbackState, ui: UiToRt)
    requires
        state.last_render_mode == RENDER_MODE_REALTIME,
    ensures
        ({
            let back = state.follow_render_mode(ui, RENDER_MODE_OFFLINE).follow_render_mode(
                ui,
                RENDER_MODE_REALTIME,
            );
            &&& back.rt.params == state.rt.params
            &&& back.rt.chain == state.rt.chain
            &&& back.rt.adaptive_mode == AdaptiveComputeMode::of_code(ui.param_adaptive_compute)
            &&& back.last_render_mode == RENDER_MODE_REALTIME
        }),
{
    reveal(CallbackState::follow_render_mode);
    reveal(CallbackState::set_mode);
    reveal(CallbackState::set_precision);
    reveal(CallbackState::turn_to);
}

/// Where the ring holds only restores, each callback applies exactly one more of them: the
/// first callback the first, every later one the command that was deferred by the callback
/// before.
pub proof fn law_restores_one_per_callback(
    report: DrainReport,
    deferred: Option<ClapParamPayload>,
    consumer: &CommandConsumer,
    deferred_after: Option<ClapParamPayload>,
    consumer_after: &CommandConsumer,
)
    requires
        report.fits(deferred, consumer, deferred_after, consumer_after),
        deferred is Some ==> deferred->Some_0.kind() == Some(StructuralKind::Restore),
        deferred is Some || report.drained > 0,
        forall|i: int|
            0 <= i < report.drained ==> #[trigger] upcoming(consumer, report.drained as nat)[i].kind()
                == Some(StructuralKind::Restore),
    ensures
        report.applied(deferred, consumer).len() == 1,
        report.applied(deferred, consumer)[0] == (match deferred {
            Some(cmd) => cmd,
            None => consumer.head(),
        }),
{
    let applied = report.applied(deferred, consumer);
    assert forall|i: int| 0 <= i < applied.len() implies #[trigger] applied[i].kind() is Some by {
        let first: int = if deferred is Some {
            1
        } else {
            0
        };
        if i >= first {
            assert(applied[i] == upcoming(consumer, report.drained as nat)[i - first]);
        }
    }
    lemma_all_structural(applied);
}

proof fn lemma_all_structural(cmds: Seq<ClapParamPayload>)
    requires
        forall|i: int| 0 <= i < cmds.len() ==> #[trigger] cmds[i].kind() is Some,
    ensures
        structural_count(cmds) == cmds.len(),
    decreases cmds.len(),
{
    if cmds.len() > 0 {
        assert forall|i: int| 0 <= i < cmds.drop_last().len() implies #[trigger] cmds.drop_last()[i].kind() is Some by {
            assert(cmds.drop_last()[i] == cmds[i]);
        }
        lemma_all_structural(cmds.drop_last());
    }
}

/// Everything that the audio thread is responsible for: what is installed and what it has handed
/// over.
pub open spec fn entrusted(state: RtState) -> Multiset<GcItem> {
    held(state.chain).add(retired(state.effects))
}

/// The resources that commands carry.
pub open spec fn carried_all(cmds: Seq<ClapParamPayload>) -> Multiset<GcItem>
    decreases cmds.len(),
{
    if cmds.len() == 0 {
        Multiset::empty()
    } else {
        carried_all(cmds.drop_last()).add(carried(cmds.last()))
    }
}

/// The resources of a command that is deferred, if one is.
pub open spec fn carried_deferred(deferred: Option<ClapParamPayload>) -> Multiset<GcItem> {
    match deferred {
        Some(cmd) => carried(cmd),
        None => Multiset::empty(),
    }
}

/// The models of rebuilds.
pub open spec fn rebuilt(rebuilds: Seq<SlimmableRebuild>) -> Multiset<GcItem>
    decreases rebuilds.len(),
{
    if rebuilds.len() == 0 {
        Multiset::empty()
    } else {
        rebuilt(rebuilds.drop_last()).insert(GcItem::Model(rebuilds.last().model))
    }
}

proof fn lemma_carried_concat(a: Seq<ClapParamPayload>, b: Seq<ClapParamPayload>)
    ensures
        carried_all(a + b) == carried_all(a).add(carried_all(b)),
    decreases b.len(),
{
    if b.len() == 0 {
        assert(a + b =~= a);
        assert(carried_all(a).add(carried_all(b)) =~= carried_all(a));
    } else {
        lemma_carried_concat(a, b.drop_last());
        assert((a + b).drop_last() =~= a + b.drop_last());
        assert((a + b).last() == b.last());
        assert(carried_all(a + b) =~= carried_all(a).add(carried_all(b)));
    }
}

proof fn lemma_carried_one(cmd: ClapParamPayload)
    ensures
        carried_all(seq![cmd]) == carried(cmd),
        carried_all(Seq::<ClapParamPayload>::empty()) == Multiset::<GcItem>::empty(),
{
    assert(seq![cmd].drop_last() =~= Seq::<ClapParamPayload>::empty());
    assert(carried_all(seq![cmd].drop_last()) =~= Multiset::empty());
    assert(carried_all(seq![cmd]) =~= carried(cmd));
}

proof fn lemma_apply_all_keeps_resources(state: RtState, cmds: Seq<ClapParamPayload>)
    ensures
        entrusted(state.apply_all(cmds)) == entrusted(state).add(carried_all(cmds)),
    decreases cmds.len(),
{
    if cmds.len() == 0 {
        assert(entrusted(state).add(carried_all(cmds)) =~= entrusted(state));
    } else {
        let before = state.apply_all(cmds.drop_last());
        lemma_apply_all_keeps_resources(state, cmds.drop_last());
        law_no_resource_is_lost(before, cmds.last());
        assert(entrusted(state.apply_all(cmds)) =~= entrusted(before).add(carried(cmds.last())));
        assert(entrusted(state.apply_all(cmds)) =~= entrusted(state).add(carried_all(cmds)));
    }
}

proof fn lemma_retired_items(items: Seq<GcItem>)
    ensures
        retired(retire_all(items)) == items.to_multiset(),
    decreases items.len(),
{
    broadcast use vstd::seq_lib::group_to_multiset_ensures;

    if items.len() == 0 {
        assert(retired(retire_all(items)) =~= items.to_multiset());
    } else {
        lemma_retired_items(items.drop_last());
        assert(retire_all(items).drop_last() =~= retire_all(items.drop_last()));
        assert(items =~= items.drop_last().push(items.last()));
        assert(retired(retire_all(items)) =~= items.to_multiset());
    }
}

proof fn lemma_model_resources(
    model: Option<ModelHandle>,
    resampler: ResamplerHandle,
    stream: StreamHandle,
)
    ensures
        model_resources(model, resampler, stream).to_multiset() == model_set(
            model,
            resampler,
            stream,
        ),
{
    broadcast use vstd::seq_lib::group_to_multiset_ensures;

    let none = Seq::<GcItem>::empty();
    let first = match model {
        Some(m) => none.push(GcItem::Model(m)),
        None => none,
    };
    let all = first.push(GcItem::Resampler(resampler)).push(GcItem::Streaming(stream));
    assert(none.to_multiset() =~= Multiset::empty());
    assert(model_resources(model, resampler, stream) =~= all);
    assert(all.to_multiset() =~= model_set(model, resampler, stream));
}

/// A command that gives way hands over all that it carries.
proof fn lemma_resources_are_carried(cmd: ClapParamPayload)
    requires
        cmd.kind() is Some ==> cmd.kind()->Some_0.coalescible(),
    ensures
        cmd.resources().to_multiset() == carried(cmd),
{
    broadcast use vstd::seq_lib::group_to_multiset_ensures;

    let none = Seq::<GcItem>::empty();
    assert(none.to_multiset() =~= Multiset::empty());
    match cmd {
        ClapParamPayload::LoadModel { model_l, new_resampler, new_stream, .. } => {
            lemma_model_resources(model_l, new_resampler, new_stream);
        },
        ClapParamPayload::LoadCabIr { adapter } => {
            if let Some(a) = adapter {
                assert(cmd.resources() =~= none.push(GcItem::CabConvAdapter(a)));
            } else {
                assert(cmd.resources() =~= none);
            }
            assert(cmd.resources().to_multiset() =~= carried(cmd));
        },
        ClapParamPayload::SetOversample { os_l, os_r } => {
            assert(cmd.resources() =~= none.push(GcItem::Oversample(os_l)).push(
                GcItem::Oversample(os_r),
            ));
            assert(cmd.resources().to_multiset() =~= carried(cmd));
        },
        _ => {
            assert(cmd.resources() =~= none);
        },
    }
}

proof fn lemma_supersede_keeps_resources(state: RtState, cmd: ClapParamPayload)
    requires
        cmd.kind() is Some ==> cmd.kind()->Some_0.coalescible(),
    ensures
        entrusted(state.supersede(cmd)) == entrusted(state).add(carried(cmd)),
{
    reveal(RtState::supersede);
    lemma_retired_add(state.effects, retire_all(cmd.resources()));
    lemma_retired_items(cmd.resources());
    lemma_resources_are_carried(cmd);
    assert(entrusted(state.supersede(cmd)) =~= entrusted(state).add(carried(cmd)));
}

proof fn lemma_install_all_keeps_resources(state: CallbackState, rebuilds: Seq<SlimmableRebuild>)
    ensures
        entrusted(state.install_all(rebuilds).rt) == entrusted(state.rt).add(rebuilt(rebuilds)),
    decreases rebuilds.len(),
{
    if rebuilds.len() == 0 {
        assert(entrusted(state.rt).add(rebuilt(rebuilds)) =~= entrusted(state.rt));
    } else {
        let before = state.install_all(rebuilds.drop_last());
        let rebuild = rebuilds.last();
        let after = before.install_rebuild(rebuild);
        lemma_install_all_keeps_resources(state, rebuilds.drop_last());
        if rebuild.generation != before.rt.chain.model_generation {
            lemma_retired_push(before.rt.effects, RtEffect::Retire(GcItem::Model(rebuild.model)));
        } else if let Some(model) = before.rt.chain.model_l {
            lemma_retired_push(before.rt.effects, RtEffect::Retire(GcItem::Model(model)));
        }
        assert(entrusted(after.rt) =~= entrusted(before.rt).insert(GcItem::Model(rebuild.model)));
        assert(entrusted(after.rt) =~= entrusted(state.rt).add(rebuilt(rebuilds)));
    }
}

/// What follows the commands in a callback, up to the rebuilt models, moves no resource.
proof fn lemma_rest_keeps_resources(
    state: CallbackState,
    ui: UiToRt,
    render_mode: u32,
    target: Option<u32>,
)
    ensures
        entrusted(
            state.sync_gui(ui).publish_latency().follow_render_mode(ui, render_mode).signal_rebuild(
                target,
            ).rt,
        ) == entrusted(state.rt),
{
    let synced = state.sync_gui(ui);
    let published = synced.publish_latency();
    let followed = published.follow_render_mode(ui, render_mode);
    assert(entrusted(synced.rt) == entrusted(state.rt)) by {
        reveal(CallbackState::sync_gui);
        lemma_params_keep_resources(state.rt, gui_params(ui), 0);
    }
    assert(published.rt == synced.rt) by {
        reveal(CallbackState::publish_latency);
    }
    lemma_render_mode_keeps_resources(published, ui, render_mode);
    assert(entrusted(followed.signal_rebuild(target).rt) == entrusted(followed.rt)) by {
        reveal(CallbackState::signal_rebuild);
    }
}

proof fn lemma_mode_keeps_resources(
    state: CallbackState,
    render_mode: u32,
    mode: AdaptiveComputeMode,
    precision: ActivationPrecision,
)
    ensures
        entrusted(state.turn_to(render_mode, precision).rt) == entrusted(state.rt),
        entrusted(state.set_mode(mode).rt) == entrusted(state.rt),
        entrusted(state.set_precision(precision).rt) == entrusted(state.rt),
{
    reveal(CallbackState::turn_to);
    reveal(CallbackState::set_mode);
    reveal(CallbackState::set_precision);
    lemma_retired_push(state.rt.effects, RtEffect::SetAdaptiveMode(mode));
    lemma_retired_push(state.rt.effects, RtEffect::SetActivation(precision));
    assert(entrusted(state.set_mode(mode).rt) =~= entrusted(state.rt));
    assert(entrusted(state.set_precision(precision).rt) =~= entrusted(state.rt));
}

proof fn lemma_render_mode_keeps_resources(state: CallbackState, ui: UiToRt, render_mode: u32)
    ensures
        entrusted(state.follow_render_mode(ui, render_mode).rt) == entrusted(state.rt),
{
    reveal(CallbackState::follow_render_mode);
    let off = AdaptiveComputeMode::Off;
    let standard = ActivationPrecision::Standard;
    let turned = if render_mode == state.last_render_mode {
        state
    } else {
        let (kept, mode, precision) = if render_mode == RENDER_MODE_OFFLINE {
            (state.rt.params.activation_precision, off, standard)
        } else {
            (
                state.realtime_activation,
                gui_params(ui).adaptive_compute,
                state.realtime_activation,
            )
        };
        let noted = state.turn_to(render_mode, kept);
        let moded = noted.set_mode(mode);
        lemma_mode_keeps_resources(state, render_mode, mode, kept);
        lemma_mode_keeps_resources(noted, render_mode, mode, precision);
        lemma_mode_keeps_resources(moded, render_mode, mode, precision);
        moded.set_precision(precision)
    };
    lemma_mode_keeps_resources(turned, render_mode, off, standard);
}

/// A whole callback neither loses nor drops a resource: what was installed, deferred or handed
/// over before, what the commands that were taken carry, and the rebuilt models that arrived,
/// are what is installed, deferred or handed over afterwards.
pub proof fn law_callback_loses_no_resource(
    state: CallbackState,
    short: bool,
    deferred: Option<ClapParamPayload>,
    consumer: &CommandConsumer,
    report: DrainReport,
    deferred_after: Option<ClapParamPayload>,
    consumer_after: &CommandConsumer,
    ui: UiToRt,
    render_mode: u32,
    target: Option<u32>,
    rebuilds: Seq<SlimmableRebuild>,
)
    requires
        report.fits(deferred, consumer, deferred_after, consumer_after),
    ensures
        ({
            let after = state.flag_backpressure(short).drain(deferred, consumer, report).sync_gui(
                ui,
            ).publish_latency().follow_render_mode(ui, render_mode).signal_rebuild(
                target,
            ).install_all(rebuilds);
            entrusted(state.rt).add(carried_deferred(deferred)).add(
                carried_all(upcoming(consumer, report.drained as nat)),
            ).add(rebuilt(rebuilds)) == entrusted(after.rt).add(carried_deferred(deferred_after))
        }),
{
    let flagged = state.flag_backpressure(short);
    assert(entrusted(flagged.rt) == entrusted(state.rt)) by {
        reveal(CallbackState::flag_backpressure);
    }
    let drained = flagged.drain(deferred, consumer, report);
    let start = if report.superseded {
        flagged.rt.supersede(deferred->Some_0)
    } else {
        flagged.rt
    };
    let given_way = if report.superseded {
        carried_deferred(deferred)
    } else {
        Multiset::empty()
    };
    if report.superseded {
        lemma_supersede_keeps_resources(flagged.rt, deferred->Some_0);
    }
    assert(entrusted(start) =~= entrusted(state.rt).add(given_way));
    let applied = report.applied(deferred, consumer);
    lemma_apply_all_keeps_resources(start, applied);
    assert(entrusted(drained.rt) == entrusted(start.apply_all(applied))) by {
        reveal(RtState::park);
        reveal(RtState::truncate);
        reveal(RtState::acknowledge);
    }
    law_no_command_is_lost(report, deferred, consumer, deferred_after, consumer_after);
    let waiting = if deferred is Some && !report.superseded {
        seq![deferred->Some_0]
    } else {
        Seq::empty()
    };
    let taken = upcoming(consumer, report.drained as nat);
    let left = match deferred_after {
        Some(cmd) => seq![cmd],
        None => Seq::empty(),
    };
    lemma_carried_concat(waiting, taken);
    lemma_carried_concat(applied, left);
    if let Some(cmd) = deferred {
        lemma_carried_one(cmd);
    }
    if let Some(cmd) = deferred_after {
        lemma_carried_one(cmd);
    }
    assert(carried_all(left) =~= carried_deferred(deferred_after));
    assert(given_way.add(carried_all(waiting)) =~= carried_deferred(deferred));
    lemma_rest_keeps_resources(drained, ui, render_mode, target);
    let rest = drained.sync_gui(ui).publish_latency().follow_render_mode(
        ui,
        render_mode,
    ).signal_rebuild(target);
    lemma_install_all_keeps_resources(rest, rebuilds);
    let after = rest.install_all(rebuilds);
    assert(entrusted(drained.rt) =~= entrusted(state.rt).add(given_way).add(carried_all(applied)));
    assert(entrusted(after.rt) =~= entrusted(state.rt).add(given_way).add(carried_all(applied)).add(
        rebuilt(rebuilds),
    ));
    assert(carried_all(applied).add(carried_deferred(deferred_after)) =~= carried_all(waiting).add(
        carried_all(taken),
    ));
    lemma_totals(
        entrusted(state.rt),
        given_way,
        carried_all(waiting),
        carried_deferred(deferred),
        carried_all(taken),
        carried_all(applied),
        carried_deferred(deferred_after),
        rebuilt(rebuilds),
    );
}

/// The sums of a callback agree.
proof fn lemma_totals(
    start: Multiset<GcItem>,
    given_way: Multiset<GcItem>,
    waiting: Multiset<GcItem>,
    deferred: Multiset<GcItem>,
    taken: Multiset<GcItem>,
    applied: Multiset<GcItem>,
    left: Multiset<GcItem>,
    models: Multiset<GcItem>,
)
    requires
        given_way.add(waiting) == deferred,
        applied.add(left) == waiting.add(taken),
    ensures
        start.add(deferred).add(taken).add(models) == start.add(given_way).add(applied).add(
            models,
        ).add(left),
{
    assert forall|x: GcItem| #[trigger]
        start.add(deferred).add(taken).add(models).count(x) == start.add(given_way).add(applied).add(
            models,
        ).add(left).count(x) by {
        assert(given_way.count(x) + waiting.count(x) == deferred.count(x)) by {
            assert(given_way.add(waiting).count(x) == deferred.count(x));
        }
        assert(applied.count(x) + left.count(x) == waiting.count(x) + taken.count(x)) by {
            assert(applied.add(left).count(x) == applied.count(x) + left.count(x));
            assert(waiting.add(taken).count(x) == waiting.count(x) + taken.count(x));
        }
        assert(start.add(deferred).add(taken).add(models).count(x) == start.count(x)
            + deferred.count(x) + taken.count(x) + models.count(x));
        assert(start.add(given_way).add(applied).add(models).add(left).count(x) == start.count(x)
            + given_way.count(x) + applied.count(x) + models.count(x) + left.count(x));
    }
    assert(start.add(deferred).add(taken).add(models) =~= start.add(given_way).add(applied).add(
        models,
    ).add(left));
}

proof fn lemma_apply_all_keeps_coherence(state: RtState, cmds: Seq<ClapParamPayload>)
    requires
        coherent(state),
    ensures
        coherent(state.apply_all(cmds)),
    decreases cmds.len(),
{
    if cmds.len() > 0 {
        lemma_apply_all_keeps_coherence(state, cmds.drop_last());
        law_published_latencies_are_installed(state.apply_all(cmds.drop_last()), cmds.last());
    }
}

/// After every callback the latency that the host is told is the sum of the latencies of what is
/// installed, and the main thread reads the latencies of what is installed.
pub proof fn law_callback_publishes_the_latency(
    state: CallbackState,
    short: bool,
    deferred: Option<ClapParamPayload>,
    consumer: &CommandConsumer,
    report: DrainReport,
    ui: UiToRt,
    render_mode: u32,
    target: Option<u32>,
    rebuilds: Seq<SlimmableRebuild>,
)
    requires
        coherent(state.rt),
    ensures
        ({
            let after = state.flag_backpressure(short).drain(deferred, consumer, report).sync_gui(
                ui,
            ).publish_latency().follow_render_mode(ui, render_mode).signal_rebuild(
                target,
            ).install_all(rebuilds);
            &&& coherent(after.rt)
            &&& after.current_latency == effective_latency(after.rt.chain)
        }),
{
    let flagged = state.flag_backpressure(short);
    assert(coherent(flagged.rt)) by {
        reveal(CallbackState::flag_backpressure);
    }
    let start = if report.superseded {
        flagged.rt.supersede(deferred->Some_0)
    } else {
        flagged.rt
    };
    assert(coherent(start)) by {
        reveal(RtState::supersede);
    }
    lemma_apply_all_keeps_coherence(start, report.applied(deferred, consumer));
    let drained = flagged.drain(deferred, consumer, report);
    assert(coherent(drained.rt)) by {
        reveal(RtState::park);
        reveal(RtState::truncate);
        reveal(RtState::acknowledge);
    }
    let synced = drained.sync_gui(ui);
    assert(coherent(synced.rt)) by {
        reveal(CallbackState::sync_gui);
        law_published_latencies_are_installed(
            drained.rt,
            ClapParamPayload::Params(gui_params(ui)),
        );
    }
    let published = synced.publish_latency();
    assert(published.rt == synced.rt && published.current_latency
        == synced.rt.chain.cached_effective_latency) by {
        reveal(CallbackState::publish_latency);
    }
    let followed = published.follow_render_mode(ui, render_mode);
    assert(followed.rt.chain == published.rt.chain && followed.rt.cells == published.rt.cells
        && followed.current_latency == published.current_latency) by {
        reveal(CallbackState::follow_render_mode);
        reveal(CallbackState::turn_to);
        reveal(CallbackState::set_mode);
        reveal(CallbackState::set_precision);
    }
    let signalled = followed.signal_rebuild(target);
    assert(signalled.rt.chain == followed.rt.chain && coherent(signalled.rt)
        && signalled.current_latency == followed.current_latency) by {
        reveal(CallbackState::signal_rebuild);
    }
    law_rebuild_changes_only_the_model(signalled, rebuilds);
    lemma_rebuilds_keep_latency(signalled, rebuilds);
}

proof fn lemma_rebuilds_keep_latency(state: CallbackState, rebuilds: Seq<SlimmableRebuild>)
    ensures
        state.install_all(rebuilds).current_latency == state.current_latency,
    decreases rebuilds.len(),
{
    if rebuilds.len() > 0 {
        lemma_rebuilds_keep_latency(state, rebuilds.drop_last());
    }
}

} // verus!
