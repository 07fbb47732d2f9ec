//! The single-producer single-consumer rings of the `rtrb` crate.
//!
//! Each position of a ring is written once, so the items of a ring form a fixed map from
//! position to item. An end of a ring is described by the ring it belongs to and by how many
//! items have passed through it, and by how often it was tried in vain. The other end moves on its
//! own, on another thread, so whether a given call finds room (or an item) is mostly open.

use vstd::prelude::*;
use crate::payload::{ClapParamPayload, GcItem, SlimmableRebuild};

verus! {

#[verifier::external_type_specification]
#[verifier::external_body]
#[verifier::reject_recursive_types(T)]
pub struct ExProducer<T>(rtrb::Producer<T>);

#[verifier::external_type_specification]
#[verifier::external_body]
#[verifier::reject_recursive_types(T)]
pub struct ExConsumer<T>(rtrb::Consumer<T>);

/// The writing end of a ring.
pub ghost struct WriteEnd {
    /// Identity of the ring.
    pub ring: int,
    /// Items accepted so far.
    pub pushed: nat,
    /// Attempts to add an item, so far, that found the ring full.
    pub refusals: nat,
    pub capacity: nat,
}

/// The reading end of a ring.
pub ghost struct ReadEnd {
    /// Identity of the ring.
    pub ring: int,
    /// Items handed out so far.
    pub popped: nat,
    /// Attempts to take an item, so far, that found the ring empty.
    pub misses: nat,
    /// Attempts to look at an item, so far, that found the ring empty.
    pub blind: nat,
}

/// The command that stands at position `k` of a command ring.
pub uninterp spec fn command_at(ring: int, k: nat) -> ClapParamPayload;

/// Where the writing end of a command ring stands.
pub uninterp spec fn command_write_end(tx: rtrb::Producer<ClapParamPayload>) -> WriteEnd;

/// Where the reading end of a command ring stands.
pub uninterp spec fn command_read_end(rx: rtrb::Consumer<ClapParamPayload>) -> ReadEnd;

/// `rtrb::RingBuffer::new` makes an empty ring with room for exactly `capacity` items and
/// hands out its two ends. It panics where the slots would take more bytes than an allocation
/// may have; a slot takes less than 1024.
#[verifier::external_body]
pub(crate) fn command_ring(capacity: usize) -> (ends: (
    rtrb::Producer<ClapParamPayload>,
    rtrb::Consumer<ClapParamPayload>,
))
    requires
        capacity * 1024 <= isize::MAX,
    ensures
        command_write_end(ends.0).ring == command_read_end(ends.1).ring,
        command_write_end(ends.0).pushed == 0,
        command_write_end(ends.0).refusals == 0,
        command_write_end(ends.0).capacity == capacity,
        command_read_end(ends.1).popped == 0,
        command_read_end(ends.1).misses == 0,
        command_read_end(ends.1).blind == 0,
{
    rtrb::RingBuffer::new(capacity)
}

/// `rtrb::Producer::push` either puts the item at the next position of the ring, or finds
/// the ring full, which is counted here, and hands the item back. Fewer items than slots ever
/// written means that there is room; a ring without slots is always full.
#[verifier::external_body]
pub(crate) fn push_item(
    tx: &mut rtrb::Producer<ClapParamPayload>,
    item: ClapParamPayload,
) -> (pushed: Result<(), ClapParamPayload>)
    ensures
        match pushed {
            Ok(_) => {
                &&& command_write_end(*final(tx)) == (WriteEnd {
                    pushed: command_write_end(*old(tx)).pushed + 1,
                    ..command_write_end(*old(tx))
                })
                &&& command_at(
                    command_write_end(*old(tx)).ring,
                    command_write_end(*old(tx)).pushed,
                ) == item
                &&& command_write_end(*old(tx)).capacity > 0
            },
            Err(back) => {
                &&& back == item
                &&& command_write_end(*final(tx)) == (WriteEnd {
                    refusals: command_write_end(*old(tx)).refusals + 1,
                    ..command_write_end(*old(tx))
                })
                &&& command_write_end(*old(tx)).pushed >= command_write_end(*old(tx)).capacity
            },
        },
{
    match tx.push(item) {
        Ok(()) => Ok(()),
        Err(rtrb::PushError::Full(back)) => Err(back),
    }
}

/// `rtrb::Consumer::pop` hands out the item at the next position of the ring, or finds the
/// ring empty, which is counted here, and leaves everything in its place.
#[verifier::external_body]
pub(crate) fn pop_item(rx: &mut rtrb::Consumer<ClapParamPayload>) -> (item: Option<ClapParamPayload>)
    ensures
        match item {
            Some(item) => {
                &&& command_read_end(*final(rx)) == (ReadEnd {
                    popped: command_read_end(*old(rx)).popped + 1,
                    ..command_read_end(*old(rx))
                })
                &&& item == command_at(
                    command_read_end(*old(rx)).ring,
                    command_read_end(*old(rx)).popped,
                )
            },
            None => command_read_end(*final(rx)) == (ReadEnd {
                misses: command_read_end(*old(rx)).misses + 1,
                ..command_read_end(*old(rx))
            }),
        },
{
    rx.pop().ok()
}

/// `rtrb::Consumer::peek` shows the item at the next position of the ring and leaves it there, or
/// finds the ring empty, which is counted here.
#[verifier::external_body]
pub(crate) fn peek_item(rx: &mut rtrb::Consumer<ClapParamPayload>) -> (item: Option<
    &ClapParamPayload,
>)
    ensures
        match item {
            Some(item) => {
                &&& *item == command_at(
                    command_read_end(*old(rx)).ring,
                    command_read_end(*old(rx)).popped,
                )
                &&& command_read_end(*final(rx)) == command_read_end(*old(rx))
            },
            None => command_read_end(*final(rx)) == (ReadEnd {
                blind: command_read_end(*old(rx)).blind + 1,
                ..command_read_end(*old(rx))
            }),
        },
{
    rx.peek().ok()
}

/// The rebuilt model that stands at position `k` of a rebuild ring.
pub uninterp spec fn rebuild_at(ring: int, k: nat) -> SlimmableRebuild;

/// Where the writing end of a rebuild ring stands.
pub uninterp spec fn rebuild_write_end(tx: rtrb::Producer<SlimmableRebuild>) -> WriteEnd;

/// Where the reading end of a rebuild ring stands.
pub uninterp spec fn rebuild_read_end(rx: rtrb::Consumer<SlimmableRebuild>) -> ReadEnd;

/// `rtrb::RingBuffer::new`, for rebuilt models; a slot takes less than 1024 bytes.
#[verifier::external_body]
pub(crate) fn rebuild_ring(capacity: usize) -> (ends: (
    rtrb::Producer<SlimmableRebuild>,
    rtrb::Consumer<SlimmableRebuild>,
))
    requires
        capacity * 1024 <= isize::MAX,
    ensures
        rebuild_write_end(ends.0).ring == rebuild_read_end(ends.1).ring,
        rebuild_write_end(ends.0).pushed == 0,
        rebuild_write_end(ends.0).refusals == 0,
        rebuild_write_end(ends.0).capacity == capacity,
        rebuild_read_end(ends.1).popped == 0,
        rebuild_read_end(ends.1).misses == 0,
        rebuild_read_end(ends.1).blind == 0,
{
    rtrb::RingBuffer::new(capacity)
}

/// `rtrb::Producer::push`, for rebuilt models: the model takes the next position of the
/// ring, or the ring is full and the model comes back.
#[verifier::external_body]
pub(crate) fn push_rebuild(
    tx: &mut rtrb::Producer<SlimmableRebuild>,
    rebuild: SlimmableRebuild,
) -> (pushed: Result<(), SlimmableRebuild>)
    ensures
        match pushed {
            Ok(_) => {
                &&& rebuild_write_end(*final(tx)) == (WriteEnd {
                    pushed: rebuild_write_end(*old(tx)).pushed + 1,
                    ..rebuild_write_end(*old(tx))
                })
                &&& rebuild_at(
                    rebuild_write_end(*old(tx)).ring,
                    rebuild_write_end(*old(tx)).pushed,
                ) == rebuild
                &&& rebuild_write_end(*old(tx)).capacity > 0
            },
            Err(back) => {
                &&& back == rebuild
                &&& rebuild_write_end(*final(tx)) == (WriteEnd {
                    refusals: rebuild_write_end(*old(tx)).refusals + 1,
                    ..rebuild_write_end(*old(tx))
                })
                &&& rebuild_write_end(*old(tx)).pushed >= rebuild_write_end(*old(tx)).capacity
            },
        },
{
    match tx.push(rebuild) {
        Ok(()) => Ok(()),
        Err(rtrb::PushError::Full(back)) => Err(back),
    }
}

/// `rtrb::Consumer::pop`, for rebuilt models.
#[verifier::external_body]
pub(crate) fn pop_rebuild(rx: &mut rtrb::Consumer<SlimmableRebuild>) -> (rebuild: Option<
    SlimmableRebuild,
>)
    ensures
        match rebuild {
            Some(rebuild) => {
                &&& rebuild_read_end(*final(rx)) == (ReadEnd {
                    popped: rebuild_read_end(*old(rx)).popped + 1,
                    ..rebuild_read_end(*old(rx))
                })
                &&& rebuild == rebuild_at(
                    rebuild_read_end(*old(rx)).ring,
                    rebuild_read_end(*old(rx)).popped,
                )
            },
            None => rebuild_read_end(*final(rx)) == (ReadEnd {
                misses: rebuild_read_end(*old(rx)).misses + 1,
                ..rebuild_read_end(*old(rx))
            }),
        },
{
    rx.pop().ok()
}

/// `rtrb::RingBuffer::new`, for resources on their way to disposal; a slot takes less than
/// 1024 bytes. The ends are only carried here, so nothing is said of them.
#[verifier::external_body]
pub(crate) fn gc_ring(capacity: usize) -> (rtrb::Producer<GcItem>, rtrb::Consumer<GcItem>)
    requires
        capacity * 1024 <= isize::MAX,
{
    rtrb::RingBuffer::new(capacity)
}

} // verus!
