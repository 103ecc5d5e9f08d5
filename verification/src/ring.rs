//! The bounded buffers of the backend, kept in `ringbuffer::AllocRingBuffer`.
//! A buffer holds at most its capacity of items; pushing onto a full buffer
//! drops the oldest item. Index 0 is the oldest item.
use vstd::prelude::*;

use ringbuffer::{AllocRingBuffer, RingBuffer};

use crate::backend::{ChatMessage, LogEntry, PacketInfo};

verus! {

/// `ringbuffer::AllocRingBuffer`, held opaquely.
#[verifier::external_type_specification]
#[verifier::external_body]
#[verifier::reject_recursive_types(T)]
pub struct ExAllocRingBuffer<T>(AllocRingBuffer<T>);

/// The items that a log buffer holds, oldest first.
pub uninterp spec fn log_items(r: AllocRingBuffer<LogEntry>) -> Seq<LogEntry>;

/// The capacity that a log buffer was made with.
pub uninterp spec fn log_capacity(r: AllocRingBuffer<LogEntry>) -> nat;

/// The items that a packet buffer holds, oldest first.
pub uninterp spec fn packet_items(r: AllocRingBuffer<PacketInfo>) -> Seq<PacketInfo>;

/// The capacity that a packet buffer was made with.
pub uninterp spec fn packet_capacity(r: AllocRingBuffer<PacketInfo>) -> nat;

/// The items that a chat buffer holds, oldest first.
pub uninterp spec fn chat_items(r: AllocRingBuffer<ChatMessage>) -> Seq<ChatMessage>;

/// The capacity that a chat buffer was made with.
pub uninterp spec fn chat_capacity(r: AllocRingBuffer<ChatMessage>) -> nat;

/// What pushing `v` onto a buffer of capacity `cap` holding `items` leaves:
/// `v` at the end, and the oldest item dropped if the buffer was full.
pub open spec fn pushed<T>(items: Seq<T>, cap: nat, v: T) -> Seq<T> {
    if items.len() < cap {
        items.push(v)
    } else {
        items.drop_first().push(v)
    }
}

/// `AllocRingBuffer::new` for log entries: an empty buffer of the given
/// capacity. (`new` panics on a zero capacity; the bound keeps the allocation
/// small.)
#[verifier::external_body]
pub(crate) fn log_ring_new(capacity: usize) -> (r: AllocRingBuffer<LogEntry>)
    requires
        0 < capacity <= 0x10_0000,
    ensures
        log_items(r).len() == 0,
        log_capacity(r) == capacity,
{
    AllocRingBuffer::new(capacity)
}

/// `RingBuffer::push` (that is, `enqueue`) on a log buffer: appends `v`,
/// dropping the oldest entry when the buffer is full. (Its internal counters
/// would wrap only after 2^64 pushes on a 64-bit target.)
#[verifier::external_body]
#[allow(deprecated)]
pub(crate) fn log_ring_push(r: &mut AllocRingBuffer<LogEntry>, v: LogEntry)
    ensures
        log_capacity(*final(r)) == log_capacity(*old(r)),
        log_items(*old(r)).len() <= log_capacity(*old(r)) ==> log_items(*final(r)) == pushed(
            log_items(*old(r)),
            log_capacity(*old(r)),
            v,
        ),
        log_items(*final(r)).len() <= log_capacity(*final(r)),
{
    r.push(v);
}

/// `RingBuffer::len` on a log buffer.
#[verifier::external_body]
pub(crate) fn log_ring_len(r: &AllocRingBuffer<LogEntry>) -> (n: usize)
    ensures
        n == log_items(*r).len(),
{
    r.len()
}

/// Indexing a log buffer: the `i`-th oldest entry.
#[verifier::external_body]
pub(crate) fn log_ring_get(r: &AllocRingBuffer<LogEntry>, i: usize) -> (e: &LogEntry)
    requires
        i < log_items(*r).len(),
    ensures
        *e == log_items(*r)[i as int],
{
    &r[i]
}

/// `AllocRingBuffer::new` for packets: an empty buffer of the given capacity.
#[verifier::external_body]
pub(crate) fn packet_ring_new(capacity: usize) -> (r: AllocRingBuffer<PacketInfo>)
    requires
        0 < capacity <= 0x10_0000,
    ensures
        packet_items(r).len() == 0,
        packet_capacity(r) == capacity,
{
    AllocRingBuffer::new(capacity)
}

/// `RingBuffer::push` on a packet buffer: appends `v`, dropping the oldest
/// packet when the buffer is full.
#[verifier::external_body]
#[allow(deprecated)]
pub(crate) fn packet_ring_push(r: &mut AllocRingBuffer<PacketInfo>, v: PacketInfo)
    ensures
        packet_capacity(*final(r)) == packet_capacity(*old(r)),
        packet_items(*old(r)).len() <= packet_capacity(*old(r)) ==> packet_items(*final(r))
            == pushed(packet_items(*old(r)), packet_capacity(*old(r)), v),
        packet_items(*final(r)).len() <= packet_capacity(*final(r)),
{
    r.push(v);
}

/// `RingBuffer::len` on a packet buffer.
#[verifier::external_body]
pub(crate) fn packet_ring_len(r: &AllocRingBuffer<PacketInfo>) -> (n: usize)
    ensures
        n == packet_items(*r).len(),
{
    r.len()
}

/// Indexing a packet buffer: the `i`-th oldest packet.
#[verifier::external_body]
pub(crate) fn packet_ring_get(r: &AllocRingBuffer<PacketInfo>, i: usize) -> (e: &PacketInfo)
    requires
        i < packet_items(*r).len(),
    ensures
        *e == packet_items(*r)[i as int],
{
    &r[i]
}

/// `AllocRingBuffer::new` for chat messages: an empty buffer of the given
/// capacity.
#[verifier::external_body]
pub(crate) fn chat_ring_new(capacity: usize) -> (r: AllocRingBuffer<ChatMessage>)
    requires
        0 < capacity <= 0x10_0000,
    ensures
        chat_items(r).len() == 0,
        chat_capacity(r) == capacity,
{
    AllocRingBuffer::new(capacity)
}

/// `RingBuffer::push` on a chat buffer: appends `v`, dropping the oldest
/// message when the buffer is full.
#[verifier::external_body]
#[allow(deprecated)]
pub(crate) fn chat_ring_push(r: &mut AllocRingBuffer<ChatMessage>, v: ChatMessage)
    ensures
        chat_capacity(*final(r)) == chat_capacity(*old(r)),
        chat_items(*old(r)).len() <= chat_capacity(*old(r)) ==> chat_items(*final(r)) == pushed(
            chat_items(*old(r)),
            chat_capacity(*old(r)),
            v,
        ),
        chat_items(*final(r)).len() <= chat_capacity(*final(r)),
{
    r.push(v);
}

/// `RingBuffer::len` on a chat buffer.
#[verifier::external_body]
pub(crate) fn chat_ring_len(r: &AllocRingBuffer<ChatMessage>) -> (n: usize)
    ensures
        n == chat_items(*r).len(),
{
    r.len()
}

/// Indexing a chat buffer: the `i`-th oldest message.
#[verifier::external_body]
pub(crate) fn chat_ring_get(r: &AllocRingBuffer<ChatMessage>, i: usize) -> (e: &ChatMessage)
    requires
        i < chat_items(*r).len(),
    ensures
        *e == chat_items(*r)[i as int],
{
    &r[i]
}

} // verus!
