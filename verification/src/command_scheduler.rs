//! Ordered command channel with coalescing and acknowledgment.
//!
//! Rapid parameter updates are merged before they reach the ring, so that only the latest
//! values travel. Every item that enters the ring takes the next sequence number, and only
//! then: the numbering has no gaps. Pending parameters are flushed before any other command,
//! so that causes stay ahead of their effects. The audio thread publishes the number of the
//! last command that it has dealt with.
//!
//! The two numbers that the threads share, the last one given (`next_seq`) and the last one
//! acknowledged (`last_ack`), are cells beside the ring. Each has one thread that writes it.

use vstd::prelude::*;
use std::time::{Duration, Instant};
use crate::params::{
    default_params, ActivationPrecision, AdaptiveComputeMode, OversampleFactor, RtProcessingParams,
    SlimOverride,
};
use crate::payload::ClapParamPayload;
use crate::ring::{
    command_at, command_read_end, command_ring, command_write_end, peek_item, pop_item, push_item,
    ReadEnd, WriteEnd,
};

verus! {

/// Slots of the command ring of a scheduler made with [`CommandScheduler::new`].
pub const CMD_QUEUE_CAPACITY: usize = 256;

/// Number of parameter slots in the coalescing buffer.
pub const PARAM_COUNT: usize = 9;

/// Why a command could not be enqueued.
#[derive(Clone, Copy, Debug, PartialEq, Eq, Structural)]
pub enum PushError {
    /// The ring has no free slot.
    Full,
}

/// The sequence number `n` steps after `seq`.
pub open spec fn seq_after(seq: u64, n: int) -> u64 {
    ((seq as int + n) % 0x1_0000_0000_0000_0000) as u64
}

/// Steps of the numbering add up.
pub proof fn lemma_seq_after_adds(seq: u64, a: int, b: int)
    ensures
        seq_after(seq_after(seq, a), b) == seq_after(seq, a + b),
{
    vstd::arithmetic::div_mod::lemma_add_mod_noop_right(
        b,
        seq as int + a,
        0x1_0000_0000_0000_0000,
    );
}

/// Whether bit `i` of `mask` is set.
pub open spec fn mask_bit(mask: u16, i: u16) -> bool {
    (mask >> i) & 1u16 == 1u16
}

/// The latest value of each parameter since the last flush.
///
/// Slots 0 to 2 hold bit patterns, slot 3 the bypass switch as 0 or 1, slots 4 to 7 the codes
/// of the adaptive, slim, oversampling and activation choices.
#[derive(Debug)]
struct CoalesceBuffer {
    slots: [Option<u32>; 9],
    dirty_mask: u16,
}

impl CoalesceBuffer {
    /// A dirty slot holds a value, and the values of the choices are valid codes.
    spec fn wf(&self) -> bool {
        &&& self.slots@.len() == PARAM_COUNT
        &&& forall|i: int|
            0 <= i < PARAM_COUNT && #[trigger] mask_bit(self.dirty_mask, i as u16)
                ==> self.slots@[i] is Some
        &&& forall|i: int| PARAM_COUNT <= i < 16 ==> !#[trigger] mask_bit(self.dirty_mask, i as u16)
        &&& self.slots@[4] is Some ==> self.slots@[4]->Some_0 <= 2
        &&& self.slots@[5] is Some ==> self.slots@[5]->Some_0 <= 2
        &&& self.slots@[6] is Some ==> self.slots@[6]->Some_0 <= 2
        &&& self.slots@[7] is Some ==> self.slots@[7]->Some_0 <= 1
    }

    /// The value that slot `i` is to deliver, or `or` where it has none.
    spec fn value_or(&self, i: int, or: u32) -> u32 {
        if mask_bit(self.dirty_mask, i as u16) {
            self.slots@[i]->Some_0
        } else {
            or
        }
    }

    /// The snapshot that a flush delivers.
    spec fn pending(&self) -> Option<RtProcessingParams> {
        let d = default_params();
        if self.dirty_mask == 0 {
            None
        } else {
            Some(
                RtProcessingParams {
                    input_gain_db: self.value_or(0, d.input_gain_db),
                    output_gain_db: self.value_or(1, d.output_gain_db),
                    gate_threshold_db: self.value_or(2, d.gate_threshold_db),
                    bypass: self.value_or(3, 0) != 0,
                    adaptive_compute: AdaptiveComputeMode::of_code(
                        self.value_or(4, d.adaptive_compute.code_spec()),
                    ),
                    slim_override: SlimOverride::of_code(
                        self.value_or(5, d.slim_override.code_spec()),
                    ),
                    oversample: OversampleFactor::of_code(
                        self.value_or(6, d.oversample.code_spec()),
                    ),
                    activation_precision: ActivationPrecision::of_code(
                        self.value_or(7, d.activation_precision.code_spec()),
                    ),
                },
            )
        }
    }

    fn new() -> (buffer: Self)
        ensures
            buffer.wf(),
            buffer.pending() is None,
    {
        let buffer = CoalesceBuffer { slots: [None; 9], dirty_mask: 0 };
        proof {
            assert forall|i: int| 0 <= i < 16 implies !#[trigger] mask_bit(0, i as u16) by {
                lemma_mask_zero(i as u16);
            }
        }
        buffer
    }

    /// Stores the latest value of a parameter. Identifiers without a slot are ignored.
    fn set(&mut self, param_id: u32, value: u32)
        requires
            old(self).wf(),
            4 <= param_id <= 6 ==> value <= 2,
            param_id == 7 ==> value <= 1,
        ensures
            final(self).wf(),
            param_id >= PARAM_COUNT ==> *final(self) == *old(self),
            param_id < PARAM_COUNT ==> {
                &&& final(self).dirty_mask != 0
                &&& final(self).slots@ == old(self).slots@.update(param_id as int, Some(value))
                &&& forall|i: int|
                    0 <= i < 16 ==> (#[trigger] mask_bit(final(self).dirty_mask, i as u16) <==> (i
                        == param_id || mask_bit(old(self).dirty_mask, i as u16)))
            },
    {
        let idx: usize = param_id as usize;
        if idx < PARAM_COUNT {
            let ghost before = self.dirty_mask;
            self.slots[idx] = Some(value);
            self.dirty_mask = self.dirty_mask | (1u16 << (param_id as u16));
            proof {
                assert forall|i: int| 0 <= i < 16 implies (#[trigger] mask_bit(
                    self.dirty_mask,
                    i as u16,
                ) <==> (i == param_id || mask_bit(before, i as u16))) by {
                    lemma_mask_set(before, param_id as u16, i as u16);
                }
                lemma_mask_set(before, param_id as u16, param_id as u16);
                lemma_mask_zero(param_id as u16);
            }
        }
    }

    /// Stores every value of a snapshot.
    fn store(&mut self, params: RtProcessingParams)
        requires
            old(self).wf(),
        ensures
            final(self).wf(),
            final(self).pending() == Some(params),
    {
        self.set(0, params.input_gain_db);
        self.set(1, params.output_gain_db);
        self.set(2, params.gate_threshold_db);
        self.set(3, if params.bypass { 1 } else { 0 });
        self.set(4, params.adaptive_compute.code());
        self.set(5, params.slim_override.code());
        self.set(6, params.oversample.code());
        self.set(7, params.activation_precision.code());
        proof {
            assert(mask_bit(self.dirty_mask, 0) && mask_bit(self.dirty_mask, 1)
                && mask_bit(self.dirty_mask, 2) && mask_bit(self.dirty_mask, 3)
                && mask_bit(self.dirty_mask, 4) && mask_bit(self.dirty_mask, 5)
                && mask_bit(self.dirty_mask, 6) && mask_bit(self.dirty_mask, 7)) by {
                let m = self.dirty_mask;
                assert(mask_bit(m, 0int as u16));
                assert(mask_bit(m, 1int as u16));
                assert(mask_bit(m, 2int as u16));
                assert(mask_bit(m, 3int as u16));
                assert(mask_bit(m, 4int as u16));
                assert(mask_bit(m, 5int as u16));
                assert(mask_bit(m, 6int as u16));
                assert(mask_bit(m, 7int as u16));
            }
        }
    }

    /// The value of slot `idx` where it is dirty, `or` elsewhere.
    fn dirty_or(&self, mask: u16, idx: usize, or: u32) -> (value: u32)
        requires
            self.wf(),
            idx < PARAM_COUNT,
            mask == self.dirty_mask,
        ensures
            value == self.value_or(idx as int, or),
    {
        if (mask >> (idx as u16)) & 1 == 1 {
            assert(mask_bit(self.dirty_mask, (idx as int) as u16));
            match self.slots[idx] {
                Some(v) => v,
                None => or,
            }
        } else {
            or
        }
    }

    /// Takes the snapshot of the values that were set since the last call, over the values
    /// of a new instance. `None` where there are none.
    fn take_snapshot(&mut self) -> (snapshot: Option<RtProcessingParams>)
        requires
            old(self).wf(),
        ensures
            final(self).wf(),
            snapshot == old(self).pending(),
            final(self).pending() is None,
            snapshot is None ==> *final(self) == *old(self),
    {
        if self.dirty_mask == 0 {
            return None;
        }
        let mask: u16 = self.dirty_mask;
        let d = RtProcessingParams::default();
        let params = RtProcessingParams {
            input_gain_db: self.dirty_or(mask, 0, d.input_gain_db),
            output_gain_db: self.dirty_or(mask, 1, d.output_gain_db),
            gate_threshold_db: self.dirty_or(mask, 2, d.gate_threshold_db),
            bypass: self.dirty_or(mask, 3, 0) != 0,
            adaptive_compute: match AdaptiveComputeMode::from_code(
                self.dirty_or(mask, 4, d.adaptive_compute.code()),
            ) {
                Some(mode) => mode,
                None => d.adaptive_compute,
            },
            slim_override: match SlimOverride::from_code(
                self.dirty_or(mask, 5, d.slim_override.code()),
            ) {
                Some(slim) => slim,
                None => d.slim_override,
            },
            oversample: match OversampleFactor::from_code(
                self.dirty_or(mask, 6, d.oversample.code()),
            ) {
                Some(factor) => factor,
                None => d.oversample,
            },
            activation_precision: match ActivationPrecision::from_code(
                self.dirty_or(mask, 7, d.activation_precision.code()),
            ) {
                Some(precision) => precision,
                None => d.activation_precision,
            },
        };
        proof {
            assert(mask_bit(self.dirty_mask, 4) ==> self.slots@[4] is Some) by {
                assert(mask_bit(self.dirty_mask, 4int as u16) ==> self.slots@[4] is Some);
            }
            assert(mask_bit(self.dirty_mask, 5) ==> self.slots@[5] is Some) by {
                assert(mask_bit(self.dirty_mask, 5int as u16) ==> self.slots@[5] is Some);
            }
            assert(mask_bit(self.dirty_mask, 6) ==> self.slots@[6] is Some) by {
                assert(mask_bit(self.dirty_mask, 6int as u16) ==> self.slots@[6] is Some);
            }
            assert(mask_bit(self.dirty_mask, 7) ==> self.slots@[7] is Some) by {
                assert(mask_bit(self.dirty_mask, 7int as u16) ==> self.slots@[7] is Some);
            }
        }
        self.dirty_mask = 0;
        proof {
            assert forall|i: int| 0 <= i < 16 implies !#[trigger] mask_bit(0, i as u16) by {
                lemma_mask_zero(i as u16);
            }
        }
        Some(params)
    }
}

proof fn lemma_mask_zero(i: u16)
    by (bit_vector)
    requires
        i < 16,
    ensures
        !mask_bit(0, i),
{
}

proof fn lemma_mask_set(mask: u16, k: u16, i: u16)
    by (bit_vector)
    requires
        k < 16,
        i < 16,
    ensures
        mask_bit(mask | (1u16 << k), i) <==> (i == k || mask_bit(mask, i)),
{
}

/// The two ends of a command ring.
pub struct CommandSchedulerChannels {
    /// Main-thread end.
    pub cmd_tx: rtrb::Producer<ClapParamPayload>,
    /// Audio-thread end.
    pub cmd_rx: rtrb::Consumer<ClapParamPayload>,
}

/// Keeps the ends of the command ring while no thread owns them, and the numbers that the two
/// threads publish.
pub struct CommandScheduler {
    pub cmd_tx: Option<rtrb::Producer<ClapParamPayload>>,
    pub cmd_rx: Option<rtrb::Consumer<ClapParamPayload>>,
    /// Number of the last command sent.
    pub cmd_next_seq: u64,
    /// Number of the last command that the audio thread has dealt with.
    pub cmd_last_ack: u64,
}

impl CommandScheduler {
    /// The scheduler holds both ends of one ring, through which nothing has passed yet, and no
    /// number has been given.
    pub open spec fn fresh(&self, capacity: nat) -> bool {
        &&& self.cmd_tx is Some
        &&& self.cmd_rx is Some
        &&& command_write_end(self.cmd_tx->Some_0).ring == command_read_end(self.cmd_rx->Some_0).ring
        &&& command_write_end(self.cmd_tx->Some_0).pushed == 0
        &&& command_write_end(self.cmd_tx->Some_0).refusals == 0
        &&& command_write_end(self.cmd_tx->Some_0).capacity == capacity
        &&& command_read_end(self.cmd_rx->Some_0).popped == 0
        &&& command_read_end(self.cmd_rx->Some_0).misses == 0
        &&& command_read_end(self.cmd_rx->Some_0).blind == 0
        &&& self.cmd_next_seq == 0
        &&& self.cmd_last_ack == 0
    }

    /// A scheduler with a ring of [`CMD_QUEUE_CAPACITY`] slots.
    pub fn new() -> (scheduler: Self)
        ensures
            scheduler.fresh(CMD_QUEUE_CAPACITY as nat),
    {
        Self::with_capacity(CMD_QUEUE_CAPACITY)
    }

    /// A scheduler with a ring of `capacity` slots.
    pub fn with_capacity(capacity: usize) -> (scheduler: Self)
        requires
            capacity * 1024 <= isize::MAX,
        ensures
            scheduler.fresh(capacity as nat),
    {
        let (tx, rx) = command_ring(capacity);
        CommandScheduler { cmd_tx: Some(tx), cmd_rx: Some(rx), cmd_next_seq: 0, cmd_last_ack: 0 }
    }

    /// Hands out both ends, if both are here. An end that is found without its counterpart
    /// is given up: the writing end is taken first, and a lone reading end stays.
    pub fn extract_producer_consumer(&mut self) -> (channels: Option<CommandSchedulerChannels>)
        ensures
            channels is Some <==> old(self).cmd_tx is Some && old(self).cmd_rx is Some,
            channels is Some ==> {
                &&& Some(channels->Some_0.cmd_tx) == old(self).cmd_tx
                &&& Some(channels->Some_0.cmd_rx) == old(self).cmd_rx
            },
            final(self).cmd_tx is None,
            old(self).cmd_tx is Some ==> final(self).cmd_rx is None,
            old(self).cmd_tx is None ==> final(self).cmd_rx == old(self).cmd_rx,
            final(self).cmd_next_seq == old(self).cmd_next_seq,
            final(self).cmd_last_ack == old(self).cmd_last_ack,
    {
        match self.cmd_tx.take() {
            None => None,
            Some(cmd_tx) => match self.cmd_rx.take() {
                None => None,
                Some(cmd_rx) => Some(CommandSchedulerChannels { cmd_tx, cmd_rx }),
            },
        }
    }

    /// Takes both ends back.
    pub fn restore_channels(
        &mut self,
        tx: rtrb::Producer<ClapParamPayload>,
        rx: rtrb::Consumer<ClapParamPayload>,
    )
        ensures
            final(self).cmd_tx == Some(tx),
            final(self).cmd_rx == Some(rx),
            final(self).cmd_next_seq == old(self).cmd_next_seq,
            final(self).cmd_last_ack == old(self).cmd_last_ack,
    {
        self.cmd_tx = Some(tx);
        self.cmd_rx = Some(rx);
    }
}

impl Default for CommandScheduler {
    fn default() -> (scheduler: Self)
        ensures
            scheduler.fresh(CMD_QUEUE_CAPACITY as nat),
    {
        Self::new()
    }
}

/// Main-thread side of the command channel.
pub struct CommandProducer {
    tx: rtrb::Producer<ClapParamPayload>,
    coalescing: CoalesceBuffer,
}

/// Audio-thread side of the command channel.
pub struct CommandConsumer {
    rx: rtrb::Consumer<ClapParamPayload>,
    /// Sequence number of the last command dealt with.
    processed_seq: u64,
}

/// Whether an acknowledgment of `last_ack` covers the command numbered `seq`.
pub fn ack_covers(last_ack: u64, seq: u64) -> (covered: bool)
    ensures
        covered == (seq <= last_ack),
{
    last_ack >= seq
}

impl CommandProducer {
    pub closed spec fn wf(&self) -> bool {
        self.coalescing.wf()
    }

    /// Where the writing end of the ring stands.
    pub closed spec fn end(&self) -> WriteEnd {
        command_write_end(self.tx)
    }

    /// The parameters that wait to be flushed.
    pub closed spec fn pending(&self) -> Option<RtProcessingParams> {
        self.coalescing.pending()
    }

    /// The last number given, where it was `next_seq` before: every item that has entered the ring
    /// since took the next one.
    pub open spec fn numbered(&self, before: &Self, next_seq: u64) -> u64 {
        seq_after(next_seq, self.end().pushed - before.end().pushed)
    }

    /// Whether the ring is sure to have room for a command, and for the waiting parameters before
    /// it: so few items have ever been sent.
    pub open spec fn has_room_for(&self, cmd: ClapParamPayload) -> bool {
        self.end().pushed + with_params_first(self.pending(), cmd).len() <= self.end().capacity
    }

    /// `self` is `before` with `items` added to the ring.
    pub open spec fn sent(&self, before: &Self, items: Seq<ClapParamPayload>) -> bool {
        &&& self.end() == (WriteEnd { pushed: before.end().pushed + items.len(), ..before.end() })
        &&& forall|i: int|
            0 <= i < items.len() ==> command_at(
                before.end().ring,
                (before.end().pushed + i) as nat,
            ) == #[trigger] items[i]
    }

    /// `self` is `before` with `items` added to the ring, after which the ring was found full.
    pub open spec fn turned_away(&self, before: &Self, items: Seq<ClapParamPayload>) -> bool {
        &&& self.end() == (WriteEnd {
            pushed: before.end().pushed + items.len(),
            refusals: before.end().refusals + 1,
            ..before.end()
        })
        &&& forall|i: int|
            0 <= i < items.len() ==> command_at(
                before.end().ring,
                (before.end().pushed + i) as nat,
            ) == #[trigger] items[i]
    }

    /// `self` is `before` with a parameter snapshot stored for the next flush.
    pub open spec fn stored(&self, before: &Self, params: RtProcessingParams) -> bool {
        &&& self.pending() == Some(params)
        &&& self.end() == before.end()
    }

    /// `self` is `before` after a flush: what waited is in the ring under the number that comes
    /// back, the one after `next_seq`, or goes on waiting where the ring was found full.
    pub open spec fn flushed_from(
        &self,
        before: &Self,
        next_seq: u64,
        flushed: Result<u64, PushError>,
    ) -> bool {
        match (before.pending(), flushed) {
            (None, Ok(seq)) => {
                &&& seq == 0
                &&& self.pending() is None
                &&& self.sent(before, Seq::empty())
            },
            (None, Err(_)) => false,
            (Some(_), Ok(seq)) => seq == seq_after(next_seq, 1) && self.sent_params(before),
            (Some(_), Err(_)) => {
                &&& self.pending() == before.pending()
                &&& self.turned_away(before, Seq::empty())
            },
        }
    }

    /// `self` is `before` with the waiting parameters sent.
    pub open spec fn sent_params(&self, before: &Self) -> bool {
        &&& before.pending() is Some
        &&& self.pending() is None
        &&& self.sent(before, seq![ClapParamPayload::Params(before.pending()->Some_0)])
    }

    /// `self` is what is left of `before` after a command found no room: as it was, or with
    /// the waiting parameters sent.
    pub open spec fn refused(&self, before: &Self) -> bool {
        ||| self.pending() == before.pending() && self.turned_away(before, Seq::empty())
        ||| {
            &&& before.pending() is Some
            &&& self.pending() is None
            &&& self.turned_away(
                before,
                seq![ClapParamPayload::Params(before.pending()->Some_0)],
            )
        }
    }

    /// Wraps the writing end of a ring.
    pub fn new(tx: rtrb::Producer<ClapParamPayload>) -> (producer: Self)
        ensures
            producer.wf(),
            producer.end() == command_write_end(tx),
            producer.pending() is None,
    {
        CommandProducer { tx, coalescing: CoalesceBuffer::new() }
    }

    /// Stores a parameter snapshot for the next flush, over one that still waits. Returns
    /// whether none was waiting.
    pub fn push_params(&mut self, params: RtProcessingParams) -> (is_new: bool)
        requires
            old(self).wf(),
        ensures
            final(self).wf(),
            is_new == (old(self).pending() is None),
            final(self).stored(old(self), params),
    {
        let had_pending: bool = self.coalescing.dirty_mask != 0;
        self.coalescing.store(params);
        !had_pending
    }

    /// Sends the waiting parameters, if any. Returns the number that they took, or 0 where
    /// nothing was waiting. Where the ring is full they go on waiting. `next_seq` holds the last
    /// number given.
    pub fn force_flush(&mut self, next_seq: &mut u64) -> (flushed: Result<u64, PushError>)
        requires
            old(self).wf(),
        ensures
            final(self).wf(),
            final(self).flushed_from(old(self), *old(next_seq), flushed),
            *final(next_seq) == final(self).numbered(old(self), *old(next_seq)),
            old(self).pending() is None || old(self).end().pushed < old(self).end().capacity
                ==> flushed is Ok,
            old(self).pending() is Some && old(self).end().capacity == 0 ==> flushed is Err,
    {
        proof {
            lemma_seq_after_adds(*next_seq, 0, 0);
        }
        match self.coalescing.take_snapshot() {
            None => Ok(0),
            Some(snapshot) => {
                match push_item(&mut self.tx, ClapParamPayload::Params(snapshot)) {
                    Ok(()) => {
                        *next_seq = next_seq.wrapping_add(1);
                        Ok(*next_seq)
                    },
                    Err(_) => {
                        self.coalescing.store(snapshot);
                        Err(PushError::Full)
                    },
                }
            },
        }
    }

    /// Sends a command, after the waiting parameters. Returns the number that it took. Where
    /// the ring is full the command comes back; parameters that found room stay sent. `next_seq`
    /// holds the last number given.
    pub fn try_push_command(&mut self, cmd: ClapParamPayload, next_seq: &mut u64) -> (pushed: Result<
        u64,
        (PushError, ClapParamPayload),
    >)
        requires
            old(self).wf(),
        ensures
            final(self).wf(),
            match pushed {
                Ok(seq) => {
                    &&& seq == *final(next_seq)
                    &&& final(self).pending() is None
                    &&& final(self).sent(old(self), with_params_first(old(self).pending(), cmd))
                },
                Err((_, back)) => back == cmd && final(self).refused(old(self)),
            },
            *final(next_seq) == final(self).numbered(old(self), *old(next_seq)),
            old(self).has_room_for(cmd) ==> pushed is Ok,
            old(self).end().capacity == 0 ==> pushed is Err,
    {
        match self.force_flush(next_seq) {
            Err(e) => Err((e, cmd)),
            Ok(_) => {
                let ghost before = self.end();
                match push_item(&mut self.tx, cmd) {
                    Ok(()) => {
                        proof {
                            lemma_seq_after_adds(*old(next_seq), 0, 1);
                            lemma_seq_after_adds(*old(next_seq), 1, 1);
                            if old(self).pending() is Some {
                                let params = ClapParamPayload::Params(old(self).pending()->Some_0);
                                assert(seq![params][0] == params);
                                assert(command_at(
                                    before.ring,
                                    (old(self).end().pushed + 0) as nat,
                                ) == params);
                            }
                        }
                        *next_seq = next_seq.wrapping_add(1);
                        Ok(*next_seq)
                    },
                    Err(back) => Err((PushError::Full, back)),
                }
            },
        }
    }

    /// Sends a command as [`Self::try_push_command`] does, but gives it up where the ring is
    /// full.
    pub fn push_command(&mut self, cmd: ClapParamPayload, next_seq: &mut u64) -> (pushed: Result<
        u64,
        PushError,
    >)
        requires
            old(self).wf(),
        ensures
            final(self).wf(),
            match pushed {
                Ok(seq) => {
                    &&& seq == *final(next_seq)
                    &&& final(self).pending() is None
                    &&& final(self).sent(old(self), with_params_first(old(self).pending(), cmd))
                },
                Err(_) => final(self).refused(old(self)),
            },
            *final(next_seq) == final(self).numbered(old(self), *old(next_seq)),
            old(self).has_room_for(cmd) ==> pushed is Ok,
            old(self).end().capacity == 0 ==> pushed is Err,
    {
        match self.try_push_command(cmd, next_seq) {
            Ok(seq) => Ok(seq),
            Err((e, _)) => Err(e),
        }
    }
}

/// `std::time::Instant`: a reading of the monotonic clock, never looked into.
#[verifier::external_type_specification]
#[verifier::external_body]
pub struct ExInstant(std::time::Instant);

/// `std::time::Instant::now` reads the clock.
pub assume_specification[ Instant::now ]() -> Instant;

/// `std::time::Instant::elapsed` tells how long ago a reading was taken.
pub assume_specification[ Instant::elapsed ](start: &Instant) -> Duration;

/// The length of a duration in nanoseconds.
pub uninterp spec fn duration_nanos(d: Duration) -> nat;

/// `std::time::Duration::as_nanos` gives the length of a duration in nanoseconds.
pub assume_specification[ Duration::as_nanos ](d: &Duration) -> (nanos: u128)
    ensures
        nanos == duration_nanos(*d),
;

/// `core::hint::spin_loop` tells the processor that the caller is spinning.
pub assume_specification[ core::hint::spin_loop ]();

/// What a thread that waits for an acknowledgment does next.
#[derive(Clone, Copy, Debug, PartialEq, Eq, Structural)]
pub enum AckWait {
    Acked,
    TimedOut,
    Wait,
}

/// Decides on one poll of a bounded wait. An acknowledgment counts even at the deadline.
pub fn ack_wait(last_ack: u64, seq: u64, elapsed_nanos: u128, timeout_nanos: u128) -> (next: AckWait)
    ensures
        next == (if seq <= last_ack {
            AckWait::Acked
        } else if elapsed_nanos >= timeout_nanos {
            AckWait::TimedOut
        } else {
            AckWait::Wait
        }),
{
    if ack_covers(last_ack, seq) {
        AckWait::Acked
    } else if elapsed_nanos >= timeout_nanos {
        AckWait::TimedOut
    } else {
        AckWait::Wait
    }
}

impl CommandProducer {
    /// The last number that the audio thread has acknowledged.
    pub fn last_acked_seq(&self, last_ack: &u64) -> (seq: u64)
        ensures
            seq == *last_ack,
    {
        *last_ack
    }

    /// Whether the command numbered `seq` has been acknowledged.
    pub fn is_acked(&self, seq: u64, last_ack: &u64) -> (acked: bool)
        ensures
            acked == (seq <= *last_ack),
    {
        ack_covers(*last_ack, seq)
    }

    /// Spins until the command numbered `seq` has been acknowledged, as far as what `read` finds
    /// in the cell tells, and returns `true`; gives up after 2^64 - 1 readings. Not for the audio
    /// thread.
    pub fn wait_for_ack<R: FnMut() -> u64>(&self, seq: u64, read: R) -> (acked: bool)
        requires
            read.requires(()),
        ensures
            acked ==> exists|n: u64| #[trigger] read.ensures((), n) && seq <= n,
            (forall|n: u64| #[trigger] read.ensures((), n) ==> seq <= n) ==> acked,
    {
        let no_time = || -> (nanos: u128)
            ensures
                nanos == 0,
            { 0 };
        match poll_for_ack(seq, 1, read, no_time) {
            AckWait::Acked => true,
            _ => false,
        }
    }

    /// Reads the cell with `read` until the command numbered `seq` has been acknowledged or
    /// `timeout` has passed, as [`poll_for_ack`] does. Returns whether it has been acknowledged.
    /// When the time has passed is up to the clock.
    pub fn wait_for_ack_timeout<R: FnMut() -> u64>(&self, seq: u64, timeout: Duration, read: R) -> (acked:
        bool)
        requires
            read.requires(()),
        ensures
            acked ==> exists|n: u64| #[trigger] read.ensures((), n) && seq <= n,
            (forall|n: u64| #[trigger] read.ensures((), n) ==> seq <= n) ==> acked,
    {
        let start = Instant::now();
        let passed = || -> (nanos: u128) { start.elapsed().as_nanos() };
        match poll_for_ack(seq, timeout.as_nanos(), read, passed) {
            AckWait::Acked => true,
            _ => false,
        }
    }
}

/// Polls until the command numbered `seq` has been acknowledged, as far as what `read` finds in
/// the cell tells, or `elapsed` has reached `limit`, as [`ack_wait`] decides on each poll. Gives up
/// after 2^64 - 1 polls, with [`AckWait::Wait`].
pub fn poll_for_ack<R: FnMut() -> u64, C: FnMut() -> u128>(
    seq: u64,
    limit: u128,
    read: R,
    elapsed: C,
) -> (end: AckWait)
    requires
        read.requires(()),
        elapsed.requires(()),
    ensures
        end is Acked ==> exists|n: u64| #[trigger] read.ensures((), n) && seq <= n,
        !(end is Acked) ==> exists|n: u64| #[trigger] read.ensures((), n) && n < seq,
        end is TimedOut ==> exists|t: u128| #[trigger] elapsed.ensures((), t) && limit <= t,
        end is Wait ==> exists|t: u128| #[trigger] elapsed.ensures((), t) && t < limit,
{
    let mut look = read;
    let mut clock = elapsed;
    let mut polls: u64 = 0;
    let mut end = AckWait::Wait;
    while polls < u64::MAX
        invariant
            look == read,
            clock == elapsed,
            read.requires(()),
            elapsed.requires(()),
            end is Wait,
            polls > 0 ==> exists|n: u64| #[trigger] read.ensures((), n) && n < seq,
            polls > 0 ==> exists|t: u128| #[trigger] elapsed.ensures((), t) && t < limit,
        decreases u64::MAX - polls,
    {
        let last_ack: u64 = look();
        let time: u128 = clock();
        end = ack_wait(last_ack, seq, time, limit);
        match end {
            AckWait::Wait => {
                core::hint::spin_loop();
            },
            _ => {
                return end;
            },
        }
        polls = polls + 1;
    }
    end
}

/// What enters the ring for one command: waiting parameters first.
pub open spec fn with_params_first(
    pending: Option<RtProcessingParams>,
    cmd: ClapParamPayload,
) -> Seq<ClapParamPayload> {
    match pending {
        Some(params) => seq![ClapParamPayload::Params(params), cmd],
        None => seq![cmd],
    }
}

impl CommandConsumer {
    /// Where the reading end of the ring stands.
    pub closed spec fn end(&self) -> ReadEnd {
        command_read_end(self.rx)
    }

    /// Sequence number of the last command dealt with.
    pub closed spec fn processed(&self) -> u64 {
        self.processed_seq
    }

    /// The command that the next successful pop hands out.
    pub open spec fn head(&self) -> ClapParamPayload {
        command_at(self.end().ring, self.end().popped)
    }

    /// `self` is `before` with `n` commands taken from the ring, which was found empty `misses`
    /// times.
    pub open spec fn took(&self, before: &Self, n: nat, misses: nat) -> bool {
        &&& self.end() == (ReadEnd {
            popped: before.end().popped + n,
            misses: before.end().misses + misses,
            ..before.end()
        })
        &&& self.processed() == seq_after(before.processed(), n as int)
    }

    /// Wraps the reading end of a ring. Numbering goes on from `last_ack`, the last number that was
    /// acknowledged, so that it survives the time between two activations.
    pub fn new(rx: rtrb::Consumer<ClapParamPayload>, last_ack: &u64) -> (consumer: Self)
        ensures
            consumer.end() == command_read_end(rx),
            consumer.processed() == *last_ack,
    {
        CommandConsumer { rx, processed_seq: *last_ack }
    }

    /// Shows the next command without taking it. `None` comes only of a ring that was found
    /// empty.
    pub fn peek(&mut self) -> (head: Option<&ClapParamPayload>)
        ensures
            match head {
                Some(head) => *head == old(self).head() && final(self).end() == old(self).end(),
                None => final(self).end() == (ReadEnd {
                    blind: old(self).end().blind + 1,
                    ..old(self).end()
                }),
            },
            final(self).processed() == old(self).processed(),
    {
        peek_item(&mut self.rx)
    }

    /// Takes the next command and counts it as dealt with. `None` comes only of a ring that was
    /// found empty.
    pub fn pop(&mut self) -> (cmd: Option<ClapParamPayload>)
        ensures
            match cmd {
                Some(cmd) => cmd == old(self).head() && final(self).took(old(self), 1, 0),
                None => final(self).took(old(self), 0, 1),
            },
    {
        match pop_item(&mut self.rx) {
            Some(cmd) => {
                self.processed_seq = self.processed_seq.wrapping_add(1);
                Some(cmd)
            },
            None => None,
        }
    }

    /// Uncounts the last command taken: it has been parked, not dealt with.
    pub fn rollback_last_pop(&mut self)
        ensures
            final(self).end() == old(self).end(),
            final(self).processed() == seq_after(old(self).processed(), -1),
    {
        self.processed_seq = self.processed_seq.wrapping_sub(1);
    }

    /// Counts a parked command as dealt with.
    pub fn advance_pending(&mut self)
        ensures
            final(self).end() == old(self).end(),
            final(self).processed() == seq_after(old(self).processed(), 1),
    {
        self.processed_seq = self.processed_seq.wrapping_add(1);
    }

    /// Takes up to `max` commands, in order, and returns them: fewer only where the ring was then
    /// found empty.
    pub fn drain(&mut self, max: usize) -> (cmds: Vec<ClapParamPayload>)
        ensures
            cmds.len() <= max,
            final(self).took(
                old(self),
                cmds@.len(),
                if cmds.len() < max {
                    1
                } else {
                    0
                },
            ),
            forall|i: int|
                0 <= i < cmds.len() ==> #[trigger] cmds@[i] == command_at(
                    old(self).end().ring,
                    (old(self).end().popped + i) as nat,
                ),
    {
        let mut cmds: Vec<ClapParamPayload> = Vec::new();
        while cmds.len() < max
            invariant_except_break
                self.took(old(self), cmds@.len(), 0),
            invariant
                cmds.len() <= max,
                forall|i: int|
                    0 <= i < cmds.len() ==> #[trigger] cmds@[i] == command_at(
                        old(self).end().ring,
                        (old(self).end().popped + i) as nat,
                    ),
            ensures
                self.took(
                    old(self),
                    cmds@.len(),
                    if cmds.len() < max {
                        1
                    } else {
                        0
                    },
                ),
            decreases max - cmds.len(),
        {
            match self.pop() {
                Some(cmd) => {
                    proof {
                        lemma_seq_after_adds(old(self).processed(), cmds@.len() as int, 1);
                    }
                    cmds.push(cmd);
                },
                None => {
                    break;
                },
            }
        }
        cmds
    }

    /// Takes up to `max` commands and hands each to `process`, in order. Returns how many: fewer
    /// only where the ring was then found empty.
    pub fn drain_and_process<F: FnMut(ClapParamPayload)>(&mut self, max: usize, process: F) -> (count:
        usize)
        requires
            forall|cmd: ClapParamPayload| process.requires((cmd,)),
        ensures
            count <= max,
            final(self).took(
                old(self),
                count as nat,
                if count < max {
                    1
                } else {
                    0
                },
            ),
            forall|i: int|
                0 <= i < count ==> #[trigger] process.ensures(
                    (command_at(old(self).end().ring, (old(self).end().popped + i) as nat),),
                    (),
                ),
    {
        let mut handler = process;
        let mut count: usize = 0;
        while count < max
            invariant_except_break
                self.took(old(self), count as nat, 0),
            invariant
                count <= max,
                handler == process,
                forall|cmd: ClapParamPayload| process.requires((cmd,)),
                forall|i: int|
                    0 <= i < count ==> #[trigger] process.ensures(
                        (command_at(old(self).end().ring, (old(self).end().popped + i) as nat),),
                        (),
                    ),
            ensures
                self.took(
                    old(self),
                    count as nat,
                    if count < max {
                        1
                    } else {
                        0
                    },
                ),
            decreases max - count,
        {
            match self.pop() {
                Some(cmd) => {
                    proof {
                        lemma_seq_after_adds(old(self).processed(), count as int, 1);
                    }
                    handler(cmd);
                    count = count + 1;
                },
                None => {
                    break;
                },
            }
        }
        count
    }

    /// Publishes in `last_ack` that every command up to `seq` has been dealt with.
    pub fn ack_up_to(&self, seq: u64, last_ack: &mut u64)
        ensures
            *final(last_ack) == seq,
    {
        *last_ack = seq;
    }

    /// Publishes in `last_ack` the number of the last command dealt with, and no later one.
    pub fn ack_processed(&self, last_ack: &mut u64)
        ensures
            *final(last_ack) == self.processed(),
    {
        self.ack_up_to(self.processed_seq, last_ack);
    }

    /// Gives the reading end back.
    pub fn into_inner(self) -> (rx: rtrb::Consumer<ClapParamPayload>)
        ensures
            command_read_end(rx) == self.end(),
    {
        self.rx
    }
}

/// The number of the command at position `k` of the ring, where `next_seq` is the last one given.
pub open spec fn number_at(producer: &CommandProducer, next_seq: u64, k: int) -> u64 {
    seq_after(next_seq, k + 1 - producer.end().pushed)
}

/// Both ends belong to one ring and count alike: the consumer's number is the one that was given
/// to the last command that left the ring, `parked` commands held back.
pub open spec fn in_step(
    producer: &CommandProducer,
    next_seq: u64,
    consumer: &CommandConsumer,
    parked: int,
) -> bool {
    &&& producer.end().ring == consumer.end().ring
    &&& consumer.processed() == number_at(producer, next_seq, consumer.end().popped - 1 - parked)
}

/// A new ring starts in step: no command has passed through it, and the consumer starts from the
/// last number given.
pub proof fn law_new_ends_are_in_step(
    producer: &CommandProducer,
    next_seq: u64,
    consumer: &CommandConsumer,
)
    requires
        producer.end().ring == consumer.end().ring,
        producer.end().pushed == 0,
        consumer.end().popped == 0,
        consumer.processed() == next_seq,
    ensures
        in_step(producer, next_seq, consumer, 0),
{
    lemma_seq_after_adds(next_seq, 0, 0);
}

/// Commands leave in the order in which they entered: the consumer that has taken as many
/// commands as were in the ring before `items` finds `items` next, one after the other.
pub proof fn law_fifo(
    before: &CommandProducer,
    after: &CommandProducer,
    items: Seq<ClapParamPayload>,
    consumer: &CommandConsumer,
    i: int,
)
    requires
        after.sent(before, items),
        consumer.end().ring == after.end().ring,
        0 <= i < items.len(),
        consumer.end().popped == before.end().pushed + i,
    ensures
        consumer.head() == items[i],
{
    assert(command_at(before.end().ring, (before.end().pushed + i) as nat) == items[i]);
}

/// Sending keeps the ends in step, and never renumbers a command that was sent before.
pub proof fn law_sending_keeps_step(
    before: &CommandProducer,
    after: &CommandProducer,
    next_seq: u64,
    items: Seq<ClapParamPayload>,
    consumer: &CommandConsumer,
    parked: int,
)
    requires
        after.sent(before, items) || after.turned_away(before, items),
        in_step(before, next_seq, consumer, parked),
    ensures
        in_step(after, after.numbered(before, next_seq), consumer, parked),
        forall|k: int|
            number_at(after, after.numbered(before, next_seq), k) == number_at(before, next_seq, k),
{
    let number = after.numbered(before, next_seq);
    assert forall|k: int| number_at(after, number, k) == number_at(before, next_seq, k) by {
        lemma_seq_after_adds(next_seq, items.len() as int, k + 1 - after.end().pushed);
    }
    assert(number_at(after, number, consumer.end().popped - 1 - parked) == number_at(
        before,
        next_seq,
        consumer.end().popped - 1 - parked,
    ));
}

/// Taking commands keeps the ends in step.
pub proof fn law_taking_keeps_step(
    producer: &CommandProducer,
    next_seq: u64,
    before: &CommandConsumer,
    after: &CommandConsumer,
    n: nat,
    misses: nat,
    parked: int,
)
    requires
        after.took(before, n, misses),
        in_step(producer, next_seq, before, parked),
    ensures
        in_step(producer, next_seq, after, parked),
{
    lemma_seq_after_adds(
        next_seq,
        before.end().popped - parked - producer.end().pushed,
        n as int,
    );
}

/// Once the consumer has acknowledged what it has dealt with, the producer finds acknowledged
/// exactly the commands that have been dealt with: all that left the ring but a parked one, and
/// none that is parked or still in the ring.
pub proof fn law_ack_is_exact(
    producer: &CommandProducer,
    next_seq: u64,
    consumer: &CommandConsumer,
    parked: int,
    last_ack: u64,
    k: int,
)
    requires
        in_step(producer, next_seq, consumer, parked),
        last_ack == consumer.processed(),
        0 <= parked <= consumer.end().popped <= producer.end().pushed,
        // No number has been given twice.
        producer.end().pushed <= next_seq,
        0 <= k < producer.end().pushed,
    ensures
        number_at(producer, next_seq, k) <= last_ack <==> k < consumer.end().popped - parked,
        number_at(producer, next_seq, k) == next_seq - producer.end().pushed + k + 1,
        last_ack == next_seq - producer.end().pushed + consumer.end().popped - parked,
{
}

/// The numbering has no gap between two activations: the consumer that gives its reading end back,
/// with a parked command counted and acknowledged, and the one that goes on from the
/// acknowledgment are in step with the same producer.
pub proof fn law_numbering_survives_reactivation(
    producer: &CommandProducer,
    next_seq: u64,
    last: &CommandConsumer,
    parked: int,
    next: &CommandConsumer,
    last_ack: u64,
)
    requires
        in_step(producer, next_seq, last, parked),
        last_ack == seq_after(last.processed(), parked),
        next.end() == last.end(),
        next.processed() == last_ack,
    ensures
        in_step(producer, next_seq, next, 0),
{
    lemma_seq_after_adds(
        next_seq,
        last.end().popped - parked - producer.end().pushed,
        parked,
    );
}

/// Parking a command and dealing with it later leaves the numbering as if it had been dealt
/// with at once.
pub proof fn law_parked_number_is_regained(processed: u64)
    ensures
        seq_after(seq_after(processed, -1), 1) == processed,
        seq_after(seq_after(processed, 1), -1) == processed,
{
    lemma_seq_after_adds(processed, -1, 1);
    lemma_seq_after_adds(processed, 1, -1);
}

/// However many snapshots were stored since nothing waited, a flush that does not find the ring
/// full sends one item with the latest of them, under the next number; where none was stored it
/// sends nothing.
pub proof fn law_run_of_params_is_one_item(
    states: Seq<CommandProducer>,
    params: Seq<RtProcessingParams>,
    after: &CommandProducer,
    next_seq: u64,
    flushed: Result<u64, PushError>,
)
    requires
        states.len() == params.len() + 1,
        states[0].pending() is None,
        forall|i: int| 0 <= i < params.len() ==> #[trigger] states[i + 1].stored(&states[i], params[i]),
        after.flushed_from(&states.last(), next_seq, flushed),
        after.end().refusals == states.last().end().refusals,
    ensures
        after.pending() is None,
        params.len() == 0 ==> {
            &&& after.sent(&states[0], Seq::empty())
            &&& after.numbered(&states.last(), next_seq) == next_seq
            &&& flushed == Ok::<u64, PushError>(0)
        },
        params.len() > 0 ==> {
            &&& after.sent(&states[0], seq![ClapParamPayload::Params(params.last())])
            &&& after.numbered(&states.last(), next_seq) == seq_after(next_seq, 1)
            &&& flushed == Ok::<u64, PushError>(seq_after(next_seq, 1))
        },
{
    lemma_seq_after_adds(next_seq, 0, 0);
    lemma_stored_run(states, params, params.len() as int);
}

proof fn lemma_stored_run(
    states: Seq<CommandProducer>,
    params: Seq<RtProcessingParams>,
    k: int,
)
    requires
        states.len() == params.len() + 1,
        forall|i: int| 0 <= i < params.len() ==> #[trigger] states[i + 1].stored(&states[i], params[i]),
        0 <= k <= params.len(),
    ensures
        states[k].end() == states[0].end(),
        k > 0 ==> states[k].pending() == Some(params[k - 1]),
    decreases k,
{
    if k > 0 {
        lemma_stored_run(states, params, k - 1);
        assert(states[k - 1 + 1].stored(&states[k - 1], params[k - 1]));
    }
}

impl CommandConsumer {
    /// `self` is `before` with `n` commands taken.
    pub open spec fn moved(&self, before: &Self, n: nat) -> bool {
        exists|misses: nat| #[trigger] self.took(before, n, misses)
    }
}

/// The sum of counts.
pub open spec fn sum(counts: Seq<nat>) -> nat
    decreases counts.len(),
{
    if counts.len() == 0 {
        0
    } else {
        sum(counts.drop_last()) + counts.last()
    }
}

/// The acknowledgment is the one that the consumer started from plus the commands that it has
/// taken since, in however many steps, and however many are still in the ring.
pub proof fn law_ack_counts_from_the_start(
    started_from: u64,
    states: Seq<CommandConsumer>,
    counts: Seq<nat>,
    last_ack: u64,
)
    requires
        states.len() == counts.len() + 1,
        states[0].processed() == started_from,
        forall|i: int| 0 <= i < counts.len() ==> #[trigger] states[i + 1].moved(&states[i], counts[i]),
        last_ack == states.last().processed(),
    ensures
        last_ack == seq_after(started_from, sum(counts) as int),
        states.last().end().popped == states[0].end().popped + sum(counts),
{
    lemma_moved_run(states, counts, counts.len() as int);
    assert(counts.take(counts.len() as int) =~= counts);
}

proof fn lemma_moved_run(states: Seq<CommandConsumer>, counts: Seq<nat>, k: int)
    requires
        states.len() == counts.len() + 1,
        forall|i: int| 0 <= i < counts.len() ==> #[trigger] states[i + 1].moved(&states[i], counts[i]),
        0 <= k <= counts.len(),
    ensures
        states[k].processed() == seq_after(states[0].processed(), sum(counts.take(k)) as int),
        states[k].end().popped == states[0].end().popped + sum(counts.take(k)),
    decreases k,
{
    if k == 0 {
        lemma_seq_after_adds(states[0].processed(), 0, 0);
        assert(sum(counts.take(0)) == 0);
    } else {
        lemma_moved_run(states, counts, k - 1);
        assert(states[k - 1 + 1].moved(&states[k - 1], counts[k - 1]));
        assert(counts.take(k).drop_last() =~= counts.take(k - 1));
        lemma_seq_after_adds(
            states[0].processed(),
            sum(counts.take(k - 1)) as int,
            counts[k - 1] as int,
        );
    }
}

} // verus!
