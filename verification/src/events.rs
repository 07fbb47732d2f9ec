//! What the audio thread does at the start of each callback: it drains the commands of the
//! main thread under a budget, takes over changes of the GUI, and looks after latency, render
//! mode and slimmed models.

use vstd::prelude::*;
use crate::command_scheduler::{lemma_seq_after_adds, seq_after, CommandConsumer};
use crate::payload::ClapParamPayload;
use crate::processor::{
    lemma_same_shared_trans, retire_all, same_shared, NamClapProcessor, RtCells, RtState,
    MAX_STRUCTURAL_COMMANDS_PER_CALLBACK,
};
use crate::ring::{command_at, ReadEnd};
use crate::shared::GuiSharedState;
use crate::status::{
    RtStatusFlags, RT_STATUS_SPSC_DRAIN_TRUNCATED, RT_STATUS_STRUCTURAL_DEFERRED,
    RT_STATUS_STRUCTURAL_SUPERSEDED,
};

verus! {

/// Commands taken from the ring in one callback at most.
pub const MAX_COMMANDS_PER_CALLBACK: u32 = 64;

/// How one callback dealt with the commands of the main thread.
#[derive(Clone, Copy, Debug, PartialEq, Eq, Structural)]
pub struct DrainReport {
    /// The command deferred by the last callback gave way to a newer one of its kind.
    pub superseded: bool,
    /// The ring showed no command that the deferred one could have given way to.
    pub blind: bool,
    /// Commands taken from the ring.
    pub drained: u32,
    /// The last of them was deferred to the next callback.
    pub parked: bool,
    /// The drain stopped at its limit.
    pub truncated: bool,
}

/// The first `n` commands that `consumer` hands out.
pub open spec fn upcoming(consumer: &CommandConsumer, n: nat) -> Seq<ClapParamPayload> {
    Seq::new(
        n,
        |i: int| command_at(consumer.end().ring, (consumer.end().popped + i) as nat),
    )
}

/// Structural commands among `cmds`.
pub open spec fn structural_count(cmds: Seq<ClapParamPayload>) -> nat
    decreases cmds.len(),
{
    if cmds.len() == 0 {
        0
    } else {
        structural_count(cmds.drop_last()) + (if cmds.last().kind() is Some {
            1nat
        } else {
            0nat
        })
    }
}

impl DrainReport {
    /// The commands that were applied, in order: a deferred one that was not superseded, and
    /// what was taken from the ring, without a command that was parked.
    pub open spec fn applied(
        self,
        deferred: Option<ClapParamPayload>,
        consumer: &CommandConsumer,
    ) -> Seq<ClapParamPayload> {
        let first = if deferred is Some && !self.superseded {
            seq![deferred->Some_0]
        } else {
            Seq::empty()
        };
        first + upcoming(
            consumer,
            (self.drained - (if self.parked {
                1int
            } else {
                0
            })) as nat,
        )
    }

    /// The report fits the deferred command and the consumer before and after.
    ///
    /// A deferred command gives way exactly where it may be replaced and the ring shows one of its
    /// kind. At most one structural command was applied. A command was deferred only where one was
    /// applied, and it is the last that left the ring. Where none was deferred and the limit was
    /// not reached, the drain went on until the ring was found empty. What was applied or gave way
    /// is counted, what was deferred is not.
    pub open spec fn fits(
        self,
        deferred: Option<ClapParamPayload>,
        consumer: &CommandConsumer,
        deferred_after: Option<ClapParamPayload>,
        consumer_after: &CommandConsumer,
    ) -> bool {
        let structural = structural_count(self.applied(deferred, consumer));
        &&& self.superseded == (deferred is Some && !self.blind && yields(
            deferred->Some_0,
            consumer.head(),
        ))
        &&& self.blind ==> deferred is Some
        &&& self.drained <= MAX_COMMANDS_PER_CALLBACK
        &&& self.truncated == (self.drained == MAX_COMMANDS_PER_CALLBACK && !self.parked)
        &&& structural <= MAX_STRUCTURAL_COMMANDS_PER_CALLBACK
        &&& self.parked == (deferred_after is Some)
        &&& self.parked ==> {
            &&& self.drained > 0
            &&& deferred_after == Some(upcoming(consumer, self.drained as nat).last())
            &&& deferred_after->Some_0.kind() is Some
            &&& structural == MAX_STRUCTURAL_COMMANDS_PER_CALLBACK
        }
        &&& consumer_after.end() == (ReadEnd {
            popped: consumer.end().popped + self.drained as nat,
            misses: consumer.end().misses + self.misses(),
            blind: consumer.end().blind + (if self.blind {
                1int
            } else {
                0
            }) as nat,
            ..consumer.end()
        })
        &&& consumer_after.processed() == seq_after(
            consumer.processed(),
            self.dealt_with(deferred),
        )
    }

    /// How often the drain found the ring empty: once, unless it stopped before.
    pub open spec fn misses(self) -> nat {
        if self.parked || self.truncated {
            0
        } else {
            1
        }
    }

    /// How far the numbering of the commands moves.
    pub open spec fn dealt_with(self, deferred: Option<ClapParamPayload>) -> int {
        self.drained + (if deferred is Some {
            1int
        } else {
            0
        }) - (if self.parked {
            1int
        } else {
            0
        })
    }

    /// Whether anything happened that is acknowledged.
    pub open spec fn acknowledges(self, deferred: Option<ClapParamPayload>) -> bool {
        self.drained > 0 || deferred is Some && !self.superseded
    }

    /// The acknowledgment that stands after the drain, where `last_ack` stood before: it covers
    /// every command that was applied or gave way, and not the one that is deferred now.
    pub open spec fn acknowledged(
        self,
        deferred: Option<ClapParamPayload>,
        consumer: &CommandConsumer,
        last_ack: u64,
    ) -> u64 {
        if self.acknowledges(deferred) {
            seq_after(consumer.processed(), self.dealt_with(deferred))
        } else {
            last_ack
        }
    }
}

/// Whether a deferred command gives way to a newer one: it does where both replace the same thing
/// and the deferred one need not be applied.
pub open spec fn yields(deferred: ClapParamPayload, head: ClapParamPayload) -> bool {
    &&& deferred.kind() is Some
    &&& deferred.kind()->Some_0.coalescible()
    &&& head.kind() == deferred.kind()
}

/// Whether a deferred command gives way to the command at the head of the ring, if there is one.
pub fn gives_way(deferred: &ClapParamPayload, head: Option<&ClapParamPayload>) -> (yes: bool)
    ensures
        yes == (head is Some && yields(*deferred, *head->Some_0)),
{
    let kind = deferred.structural_kind();
    match (kind, head) {
        (Some(k), Some(head)) => k.is_coalescible() && head.structural_kind() == kind,
        _ => false,
    }
}

/// What is done with a command that has left the ring.
#[derive(Clone, Copy, Debug, PartialEq, Eq, Structural)]
pub enum Dealing {
    /// The budget for structural commands is used up: it waits for the next callback.
    Defer,
    Apply,
    /// It is applied, and the drain stops at its limit.
    ApplyLast,
}

/// Decides on a command that has left the ring, after `structural_applied` structural commands
/// were applied and `drained` commands were taken in this callback.
pub fn deal_with(cmd: &ClapParamPayload, structural_applied: u32, drained: u32) -> (dealing: Dealing)
    ensures
        dealing == (if cmd.kind() is Some && structural_applied
            >= MAX_STRUCTURAL_COMMANDS_PER_CALLBACK {
            Dealing::Defer
        } else if drained + 1 >= MAX_COMMANDS_PER_CALLBACK {
            Dealing::ApplyLast
        } else {
            Dealing::Apply
        }),
{
    if cmd.is_structural() && structural_applied >= MAX_STRUCTURAL_COMMANDS_PER_CALLBACK {
        Dealing::Defer
    } else if drained >= MAX_COMMANDS_PER_CALLBACK - 1 {
        Dealing::ApplyLast
    } else {
        Dealing::Apply
    }
}

/// The counter after `n`.
pub open spec fn next_count(n: u32) -> u32 {
    ((n + 1) % 0x1_0000_0000) as u32
}

impl RtState {
    /// A deferred command gives way: its resources are retired and the event is counted.
    #[verifier::opaque]
    pub open spec fn supersede(self, cmd: ClapParamPayload) -> RtState {
        let status = self.cells.rt_status.with_flag(RT_STATUS_STRUCTURAL_SUPERSEDED);
        RtState {
            effects: self.effects + retire_all(cmd.resources()),
            cells: RtCells {
                rt_status: RtStatusFlags {
                    structural_superseded_total: next_count(status.structural_superseded_total),
                    ..status
                },
                ..self.cells
            },
            ..self
        }
    }

    /// A command is deferred, which is counted.
    #[verifier::opaque]
    pub open spec fn park(self) -> RtState {
        let status = self.cells.rt_status.with_flag(RT_STATUS_STRUCTURAL_DEFERRED);
        RtState {
            cells: RtCells {
                rt_status: RtStatusFlags {
                    structural_deferred_total: next_count(status.structural_deferred_total),
                    ..status
                },
                ..self.cells
            },
            ..self
        }
    }

    /// The drain stops at its limit, which is flagged.
    #[verifier::opaque]
    pub open spec fn truncate(self) -> RtState {
        RtState {
            cells: RtCells {
                rt_status: self.cells.rt_status.with_flag(RT_STATUS_SPSC_DRAIN_TRUNCATED),
                ..self.cells
            },
            ..self
        }
    }

    /// What was dealt with is acknowledged.
    #[verifier::opaque]
    pub open spec fn acknowledge(self, last_ack: u64) -> RtState {
        RtState { cells: RtCells { cmd_last_ack: last_ack, ..self.cells }, ..self }
    }

    /// The state after a drain.
    pub open spec fn drained(
        self,
        deferred: Option<ClapParamPayload>,
        consumer: &CommandConsumer,
        report: DrainReport,
    ) -> RtState {
        let start = if report.superseded {
            self.supersede(deferred->Some_0)
        } else {
            self
        };
        let worked = start.apply_all(report.applied(deferred, consumer));
        let stopped = if report.parked {
            worked.park()
        } else if report.truncated {
            worked.truncate()
        } else {
            worked
        };
        stopped.acknowledge(report.acknowledged(deferred, consumer, self.cells.cmd_last_ack))
    }
}

impl<T: Copy> NamClapProcessor<T> {
    /// `self` differs from `before` only in what draining commands changes.
    #[verifier::opaque]
    pub open spec fn same_beyond_commands(&self, before: &Self) -> bool {
        &&& *self == (NamClapProcessor {
            chain: self.chain,
            params: self.params,
            adaptive_mode: self.adaptive_mode,
            gate_dirty: self.gate_dirty,
            effects: self.effects,
            dry_delay: self.dry_delay,
            cmd_consumer: self.cmd_consumer,
            deferred_structural: self.deferred_structural,
            ..*before
        })
        &&& self.dry_delay.history_l() == before.dry_delay.history_l()
        &&& self.dry_delay.history_r() == before.dry_delay.history_r()
        &&& self.dry_delay.capacity() == before.dry_delay.capacity()
        &&& self.dry_delay.silence() == before.dry_delay.silence()
    }

    proof fn lemma_beyond_after_apply(before: &Self, mid: &Self, after: &Self)
        requires
            mid.same_beyond_commands(before),
            after.same_rest(mid),
        ensures
            after.same_beyond_commands(before),
            after.cmd_consumer == mid.cmd_consumer,
            after.deferred_structural == mid.deferred_structural,
    {
        reveal(NamClapProcessor::same_beyond_commands);
        reveal(NamClapProcessor::same_rest);
    }

    proof fn lemma_beyond_step(before: &Self, mid: &Self, after: &Self)
        requires
            mid.same_beyond_commands(before),
            *after == (NamClapProcessor {
                cmd_consumer: after.cmd_consumer,
                deferred_structural: after.deferred_structural,
                effects: after.effects,
                ..*mid
            }),
        ensures
            after.same_beyond_commands(before),
    {
        reveal(NamClapProcessor::same_beyond_commands);
    }

    proof fn lemma_beyond_refl(before: &Self)
        ensures
            before.same_beyond_commands(before),
    {
        reveal(NamClapProcessor::same_beyond_commands);
    }

    /// Drops the deferred command in favour of the ring head.
    fn supersede_deferred(&mut self, shared: &mut GuiSharedState, cmd: ClapParamPayload)
        requires
            old(self).wf(),
            cmd.kind() is Some ==> cmd.kind()->Some_0.coalescible(),
        ensures
            final(self).wf(),
            final(self).same_beyond_commands(old(self)),
            same_shared(old(shared), final(shared)),
            final(self).rt(final(shared)) == old(self).rt(old(shared)).supersede(cmd),
            final(self).deferred_structural == old(self).deferred_structural,
            final(self).cmd_consumer.end() == old(self).cmd_consumer.end(),
            final(self).cmd_consumer.processed() == seq_after(
                old(self).cmd_consumer.processed(),
                1,
            ),
    {
        proof {
            reveal(same_shared);
            reveal(RtState::supersede);
            Self::lemma_beyond_refl(self);
        }
        self.discard_structural_payload(cmd);
        shared.cold.rt_status.set_flag(RT_STATUS_STRUCTURAL_SUPERSEDED);
        shared.cold.rt_status.structural_superseded_total =
        shared.cold.rt_status.structural_superseded_total.wrapping_add(1);
        self.cmd_consumer.advance_pending();
        proof {
            Self::lemma_beyond_step(old(self), old(self), self);
        }
    }

    /// Defers the command that was just taken.
    fn park_command(&mut self, shared: &mut GuiSharedState, cmd: ClapParamPayload)
        requires
            old(self).wf(),
            cmd.kind() is Some,
        ensures
            final(self).wf(),
            final(self).same_beyond_commands(old(self)),
            same_shared(old(shared), final(shared)),
            final(self).rt(final(shared)) == old(self).rt(old(shared)).park(),
            final(self).deferred_structural == Some(cmd),
            final(self).cmd_consumer.end() == old(self).cmd_consumer.end(),
            final(self).cmd_consumer.processed() == seq_after(
                old(self).cmd_consumer.processed(),
                -1,
            ),
    {
        proof {
            reveal(same_shared);
            reveal(RtState::park);
            Self::lemma_beyond_refl(self);
        }
        self.deferred_structural = Some(cmd);
        self.cmd_consumer.rollback_last_pop();
        shared.cold.rt_status.set_flag(RT_STATUS_STRUCTURAL_DEFERRED);
        shared.cold.rt_status.structural_deferred_total =
        shared.cold.rt_status.structural_deferred_total.wrapping_add(1);
        proof {
            Self::lemma_beyond_step(old(self), old(self), self);
        }
    }
}

proof fn lemma_apply_all_push(state: RtState, cmds: Seq<ClapParamPayload>, cmd: ClapParamPayload)
    ensures
        state.apply_all(cmds.push(cmd)) == state.apply_all(cmds).apply(cmd),
        structural_count(cmds.push(cmd)) == structural_count(cmds) + (if cmd.kind() is Some {
            1nat
        } else {
            0nat
        }),
{
    assert(cmds.push(cmd).drop_last() =~= cmds);
}

/// Commands that come into force leave the acknowledgment alone.
pub(crate) proof fn lemma_apply_keeps_ack(state: RtState, cmd: ClapParamPayload)
    ensures
        state.apply(cmd).cells.cmd_last_ack == state.cells.cmd_last_ack,
{
    reveal(RtState::load_model);
    reveal(RtState::load_cabsim);
    reveal(RtState::load_os);
    reveal(RtState::request_oversample);
    reveal(RtState::apply_params);
    reveal(RtState::generation_applied);
}

proof fn lemma_apply_all_keeps_ack(state: RtState, cmds: Seq<ClapParamPayload>)
    ensures
        state.apply_all(cmds).cells.cmd_last_ack == state.cells.cmd_last_ack,
    decreases cmds.len(),
{
    if cmds.len() > 0 {
        lemma_apply_all_keeps_ack(state, cmds.drop_last());
        lemma_apply_keeps_ack(state.apply_all(cmds.drop_last()), cmds.last());
    }
}

impl<T: Copy> NamClapProcessor<T> {
    /// Deals with the command that the last callback deferred: it is applied, unless the ring
    /// head is a newer one of the same kind that may replace it. Returns whether it was
    /// replaced, and whether the ring showed no head.
    fn resolve_deferred(&mut self, shared: &mut GuiSharedState) -> (resolved: (bool, bool))
        requires
            old(self).wf(),
        ensures
            final(self).wf(),
            final(self).same_beyond_commands(old(self)),
            same_shared(old(shared), final(shared)),
            final(self).deferred_structural is None,
            final(self).cmd_consumer.end() == (ReadEnd {
                blind: old(self).cmd_consumer.end().blind + (if resolved.1 {
                    1int
                } else {
                    0
                }) as nat,
                ..old(self).cmd_consumer.end()
            }),
            match old(self).deferred_structural {
                None => {
                    &&& resolved == (false, false)
                    &&& final(self).rt(final(shared)) == old(self).rt(old(shared))
                    &&& final(self).cmd_consumer.processed() == old(self).cmd_consumer.processed()
                },
                Some(cmd) => {
                    &&& resolved.0 == (!resolved.1 && yields(cmd, old(self).cmd_consumer.head()))
                    &&& final(self).rt(final(shared)) == (if resolved.0 {
                        old(self).rt(old(shared)).supersede(cmd)
                    } else {
                        old(self).rt(old(shared)).apply(cmd)
                    })
                    &&& final(self).cmd_consumer.processed() == seq_after(
                        old(self).cmd_consumer.processed(),
                        1,
                    )
                },
            },
    {
        proof {
            Self::lemma_same_refl(self, shared);
            Self::lemma_beyond_refl(self);
        }
        match self.deferred_structural.take() {
            None => (false, false),
            Some(cmd) => {
                let head = self.cmd_consumer.peek();
                let blind: bool = head.is_none();
                let superseded: bool = gives_way(&cmd, head);
                let ghost taken = *self;
                proof {
                    Self::lemma_beyond_step(old(self), old(self), self);
                }
                if superseded {
                    self.supersede_deferred(shared, cmd);
                    proof {
                        reveal(NamClapProcessor::same_beyond_commands);
                    }
                } else {
                    self.apply_structural(shared, cmd);
                    let ghost applied = *self;
                    proof {
                        Self::lemma_beyond_after_apply(old(self), &taken, self);
                    }
                    self.cmd_consumer.advance_pending();
                    proof {
                        Self::lemma_beyond_step(old(self), &applied, self);
                    }
                }
                (superseded, blind)
            },
        }
    }
}

impl<T: Copy> NamClapProcessor<T> {
    /// Drains the commands of the main thread.
    ///
    /// Parameter updates are applied as they come. At most one structural command is applied
    /// in a callback; the next one is deferred and ends the drain, so that the order is kept.
    /// Every command that was applied or gave way is acknowledged, the deferred one is not.
    pub fn drain_commands(&mut self, shared: &mut GuiSharedState) -> (report: DrainReport)
        requires
            old(self).wf(),
        ensures
            final(self).wf(),
            final(self).same_beyond_commands(old(self)),
            same_shared(old(shared), final(shared)),
            final(self).rt(final(shared)) == old(self).rt(old(shared)).drained(
                old(self).deferred_structural,
                &old(self).cmd_consumer,
                report,
            ),
            report.fits(
                old(self).deferred_structural,
                &old(self).cmd_consumer,
                final(self).deferred_structural,
                &final(self).cmd_consumer,
            ),
            final(shared).cold.cmd_last_ack == report.acknowledged(
                old(self).deferred_structural,
                &old(self).cmd_consumer,
                old(shared).cold.cmd_last_ack,
            ),
    {
        let had_deferred: bool = self.deferred_structural.is_some();
        let (superseded, blind) = self.resolve_deferred(shared);
        let mut structural_applied: u32 = if had_deferred && !superseded { 1 } else { 0 };
        let mut drained: u32 = 0;
        let mut parked: bool = false;
        let mut truncated: bool = false;
        let ghost deferred = old(self).deferred_structural;
        let ghost c0 = old(self).cmd_consumer;
        let ghost d: int = if had_deferred {
            1
        } else {
            0
        };
        let ghost base = if superseded {
            old(self).rt(old(shared)).supersede(deferred->Some_0)
        } else {
            old(self).rt(old(shared))
        };
        let ghost first = if had_deferred && !superseded {
            seq![deferred->Some_0]
        } else {
            Seq::empty()
        };
        let ghost mut applied = first;
        proof {
            lemma_seq_after_adds(c0.processed(), 0, 0);
            assert(first + upcoming(&c0, 0) =~= first);
            if had_deferred && !superseded {
                assert(first =~= Seq::<ClapParamPayload>::empty().push(deferred->Some_0));
                lemma_apply_all_push(base, Seq::empty(), deferred->Some_0);
            }
        }
        loop
            invariant_except_break
                !parked,
                !truncated,
                drained < MAX_COMMANDS_PER_CALLBACK,
                self.deferred_structural is None,
                self.rt(shared) == base.apply_all(applied),
                self.cmd_consumer.end().misses == c0.end().misses,
            invariant
                self.wf(),
                self.same_beyond_commands(old(self)),
                same_shared(old(shared), shared),
                deferred == old(self).deferred_structural,
                c0 == old(self).cmd_consumer,
                structural_applied == structural_count(applied),
                structural_applied <= 1,
                drained <= MAX_COMMANDS_PER_CALLBACK,
                d == (if deferred is Some {
                    1int
                } else {
                    0
                }),
                self.cmd_consumer.end() == (ReadEnd {
                    popped: c0.end().popped + drained as nat,
                    misses: self.cmd_consumer.end().misses,
                    blind: c0.end().blind + (if blind {
                        1int
                    } else {
                        0
                    }) as nat,
                    ..c0.end()
                }),
                applied == first + upcoming(
                    &c0,
                    (drained - (if parked {
                        1int
                    } else {
                        0
                    })) as nat,
                ),
                self.cmd_consumer.processed() == seq_after(
                    c0.processed(),
                    d + drained - (if parked {
                        1int
                    } else {
                        0
                    }),
                ),
            ensures
                truncated == (drained == MAX_COMMANDS_PER_CALLBACK && !parked),
                self.cmd_consumer.end().misses == c0.end().misses + (if parked || truncated {
                    0int
                } else {
                    1
                }),
                self.rt(shared) == (if parked {
                    base.apply_all(applied).park()
                } else if truncated {
                    base.apply_all(applied).truncate()
                } else {
                    base.apply_all(applied)
                }),
                match self.deferred_structural {
                    Some(cmd) => {
                        &&& parked
                        &&& drained > 0
                        &&& cmd == upcoming(&c0, drained as nat).last()
                        &&& cmd.kind() is Some
                        &&& structural_applied == 1
                    },
                    None => !parked,
                },
            decreases MAX_COMMANDS_PER_CALLBACK - drained,
        {
            let ghost before = *self;
            let ghost shared_before = *shared;
            match self.cmd_consumer.pop() {
                None => {
                    proof {
                        lemma_seq_after_adds(c0.processed(), d + drained, 0);
                        Self::lemma_beyond_step(old(self), &before, self);
                    }
                    break;
                },
                Some(cmd) => {
                    proof {
                        lemma_seq_after_adds(c0.processed(), d + drained, 1);
                        Self::lemma_beyond_step(old(self), &before, self);
                        assert(cmd == upcoming(&c0, (drained + 1) as nat).last());
                    }
                    let ghost popped = *self;
                    let dealing = deal_with(&cmd, structural_applied, drained);
                    drained = drained + 1;
                    if let Dealing::Defer = dealing {
                        self.park_command(shared, cmd);
                        parked = true;
                        proof {
                            reveal(NamClapProcessor::same_beyond_commands);
                            lemma_same_shared_trans(old(shared), &shared_before, shared);
                            lemma_seq_after_adds(c0.processed(), d + drained, -1);
                        }
                        break;
                    }
                    if cmd.is_structural() {
                        structural_applied = structural_applied + 1;
                    }
                    self.apply_structural(shared, cmd);
                    proof {
                        lemma_apply_all_push(base, applied, cmd);
                        assert(first + upcoming(&c0, drained as nat) =~= applied.push(cmd));
                        applied = applied.push(cmd);
                        Self::lemma_beyond_after_apply(old(self), &popped, self);
                        lemma_same_shared_trans(old(shared), &shared_before, shared);
                    }
                    if let Dealing::ApplyLast = dealing {
                        let ghost shared_applied = *shared;
                        self.flag_truncation(shared);
                        truncated = true;
                        proof {
                            lemma_same_shared_trans(old(shared), &shared_applied, shared);
                        }
                        break;
                    }
                },
            }
        }
        proof {
            lemma_apply_all_keeps_ack(base, applied);
            reveal(RtState::supersede);
            reveal(RtState::park);
            reveal(RtState::truncate);
            reveal(RtState::acknowledge);
            reveal(same_shared);
        }
        if drained > 0 || had_deferred && !superseded {
            self.cmd_consumer.ack_processed(&mut shared.cold.cmd_last_ack);
        }
        DrainReport { superseded, blind, drained, parked, truncated }
    }

    /// Flags that the drain stopped at its limit.
    fn flag_truncation(&self, shared: &mut GuiSharedState)
        ensures
            same_shared(old(shared), final(shared)),
            self.rt(final(shared)) == self.rt(old(shared)).truncate(),
    {
        proof {
            reveal(same_shared);
            reveal(RtState::truncate);
        }
        shared.cold.rt_status.set_flag(RT_STATUS_SPSC_DRAIN_TRUNCATED);
    }
}

} // verus!
