//! The sample channel: a wait-free single-producer/single-consumer ring buffer
//! (rtrb) that carries samples out of the audio callback.
//!
//! A sample travels as the bit pattern of its 32-bit float; the channel and the
//! segment logic only move samples and never look at their values.
use vstd::prelude::*;
use crate::error::VMTError;
use rtrb::chunks::ChunkError;
use rtrb::{Consumer, Producer};

verus! {

#[verifier::external_type_specification]
#[verifier::external_body]
#[verifier::reject_recursive_types(T)]
pub struct ExProducer<T>(Producer<T>);

#[verifier::external_type_specification]
#[verifier::external_body]
#[verifier::reject_recursive_types(T)]
pub struct ExConsumer<T>(Consumer<T>);

#[verifier::external_type_specification]
pub struct ExChunkError(ChunkError);

/// The samples that the consumer handle knows to be readable, oldest first:
/// those between its own read position and its cached copy of the write
/// position. The producer only appends behind them, and only this handle's
/// calls change them.
pub uninterp spec fn readable(c: Consumer<u32>) -> Seq<u32>;

/// Relies on `rtrb::Consumer::slots`: it refreshes the handle's copy of the
/// write position, which only moves forward, and returns the number of
/// samples now readable.
#[verifier::external_body]
pub(crate) fn available(c: &mut Consumer<u32>) -> (n: usize)
    ensures
        n == readable(*final(c)).len(),
        readable(*old(c)).len() <= n,
        readable(*final(c)).subrange(0, readable(*old(c)).len() as int) == readable(*old(c)),
{
    c.slots()
}

/// `s` begins with `prefix`.
pub open spec fn extends(s: Seq<u32>, prefix: Seq<u32>) -> bool {
    prefix.len() <= s.len() && s.subrange(0, prefix.len() as int) == prefix
}

/// Relies on `rtrb::Consumer::read_chunk` and on moving the chunk's items out
/// through its iterator, which commits them when dropped. When the handle
/// already knows of `n` readable samples it does not look at the producer;
/// otherwise it refreshes its copy of the write position (`fresh` below, an
/// extension of what it knew). With `n` samples readable it removes and
/// returns the first `n`; with fewer it fails, names how many there were,
/// and removes nothing.
#[verifier::external_body]
fn take_chunk(c: &mut Consumer<u32>, n: usize) -> (r: Result<Vec<u32>, ChunkError>)
    ensures
        n <= readable(*old(c)).len() ==> (r matches Ok(v) && v@ == readable(*old(c)).subrange(
            0,
            n as int,
        ) && readable(*final(c)) == readable(*old(c)).subrange(
            n as int,
            readable(*old(c)).len() as int,
        )),
        exists|fresh: Seq<u32>|
            #[trigger] extends(fresh, readable(*old(c))) && if n <= fresh.len() {
                r matches Ok(v) && v@ == fresh.subrange(0, n as int) && readable(*final(c))
                    == fresh.subrange(n as int, fresh.len() as int)
            } else {
                r == Err::<Vec<u32>, ChunkError>(ChunkError::TooFewSlots(fresh.len() as usize))
                    && readable(*final(c)) == fresh
            },
{
    match c.read_chunk(n) {
        Ok(chunk) => Ok(chunk.into_iter().collect()),
        Err(e) => Err(e),
    }
}

/// The samples that the producer handle counts as occupying the buffer,
/// oldest first: those from its cached copy of the read position up to its
/// write position. The consumer only removes from the front, and only this
/// handle's calls change the sequence.
pub uninterp spec fn in_flight(p: Producer<u32>) -> Seq<u32>;

/// The number of slots of the buffer behind the producer handle.
pub uninterp spec fn capacity(p: Producer<u32>) -> nat;

/// The samples that enter the buffer when `data` is pushed after the consumer
/// took `taken` of the samples in flight: as many as fit, from the front.
pub open spec fn pushed_count(in_flight_len: nat, taken: nat, cap: nat, len: nat) -> nat {
    let free = cap - (in_flight_len - taken);
    if len <= free {
        len
    } else {
        free as nat
    }
}

/// Relies on `rtrb::Producer::push_partial_slice`: it copies as many samples
/// as there are free slots from the front of `data`, without blocking or
/// allocating, and returns the count it copied. The samples in flight never
/// exceed the capacity, since the distance between two positions never does. When the free slots it knows
/// of suffice it copies all of `data`; otherwise it refreshes its copy of the
/// read position, learning that the consumer took `k` samples, and copies
/// what fits.
#[verifier::external_body]
fn push_prefix(p: &mut Producer<u32>, data: &[u32]) -> (n: usize)
    ensures
        capacity(*final(p)) == capacity(*old(p)),
        in_flight(*old(p)).len() <= capacity(*old(p)),
        in_flight(*final(p)).len() <= capacity(*final(p)),
        exists|k: nat|
            k <= in_flight(*old(p)).len() && n == #[trigger] pushed_count(
                in_flight(*old(p)).len(),
                k,
                capacity(*old(p)),
                data@.len(),
            ) && in_flight(*final(p)) == in_flight(*old(p)).subrange(
                k as int,
                in_flight(*old(p)).len() as int,
            ) + data@.subrange(0, n as int),
{
    p.push_partial_slice(data).0.len()
}

/// The character of a decimal digit.
pub open spec fn digit(d: nat) -> char {
    seq!['0', '1', '2', '3', '4', '5', '6', '7', '8', '9'][(d % 10) as int]
}

/// `n` written in decimal, without leading zeros.
pub open spec fn decimal(n: nat) -> Seq<char>
    decreases n,
{
    if n < 10 {
        seq![digit(n)]
    } else {
        decimal(n / 10).push(digit(n % 10))
    }
}

/// The message of a shortfall with `available` slots.
pub open spec fn slots_message(available: usize) -> Seq<char> {
    "only "@ + decimal(available as nat) + " slots available in ring buffer"@
}

/// Relies on `ChunkError`'s `Display`, which writes the available slots into
/// "only {} slots available in ring buffer".
#[verifier::external_body]
fn chunk_error_text(e: &ChunkError) -> (r: String)
    ensures
        match e {
            ChunkError::TooFewSlots(s) => r@ == slots_message(*s),
        },
{
    e.to_string()
}

/// Overflow on the producer side: the trailing `dropped` samples were lost.
#[derive(Debug, Clone, Copy, PartialEq, Eq, Structural)]
pub struct ChannelFull {
    pub dropped: usize,
}

/// The error for a read that found too few samples.
pub fn chunk_error(e: ChunkError) -> (r: VMTError)
    ensures
        match e {
            ChunkError::TooFewSlots(s) => r matches VMTError::RtrbChunk { message } && message@
                == slots_message(s),
        },
{
    VMTError::RtrbChunk { message: chunk_error_text(&e) }
}

/// The outcome of a write of `requested` samples of which `written` fitted.
pub fn write_outcome(requested: usize, written: usize) -> (r: Result<(), ChannelFull>)
    requires
        written <= requested,
    ensures
        r == if written == requested {
            Ok::<(), ChannelFull>(())
        } else {
            Err(ChannelFull { dropped: (requested - written) as usize })
        },
{
    if written == requested {
        Ok(())
    } else {
        Err(ChannelFull { dropped: requested - written })
    }
}

/// Producer side, for the real-time callback: writes what fits, from the
/// front of `data` and in order, and drops the rest; never blocks and never
/// allocates. On overflow the error counts the samples that did not fit.
pub fn write_samples(producer: &mut Producer<u32>, data: &[u32]) -> (r: Result<(), ChannelFull>)
    ensures
        capacity(*final(producer)) == capacity(*old(producer)),
        in_flight(*final(producer)).len() <= capacity(*final(producer)),
        exists|k: nat|
            {
                let n = #[trigger] pushed_count(
                    in_flight(*old(producer)).len(),
                    k,
                    capacity(*old(producer)),
                    data@.len(),
                );
                &&& k <= in_flight(*old(producer)).len()
                &&& r == if n == data@.len() {
                    Ok::<(), ChannelFull>(())
                } else {
                    Err(ChannelFull { dropped: (data@.len() - n) as usize })
                }
                &&& in_flight(*final(producer)) == in_flight(*old(producer)).subrange(
                    k as int,
                    in_flight(*old(producer)).len() as int,
                ) + data@.subrange(0, n as int)
            },
{
    let written = push_prefix(producer, data);
    write_outcome(data.len(), written)
}

/// Moves exactly `frame_size` samples from the channel to the end of `ac`,
/// in the order they were written, when that many are readable; otherwise
/// reads nothing, leaves `ac` as it was and reports how many there were.
/// `fresh` is what the consumer found readable, an extension of what it knew.
pub fn read_rb(ac: &mut Vec<u32>, consumer: &mut Consumer<u32>, frame_size: usize) -> (r: Result<
    (),
    VMTError,
>)
    requires
        old(ac)@.len() + frame_size <= usize::MAX,
    ensures
        frame_size <= readable(*old(consumer)).len() ==> r is Ok && final(ac)@ == old(ac)@
            + readable(*old(consumer)).subrange(0, frame_size as int) && readable(
            *final(consumer),
        ) == readable(*old(consumer)).subrange(
            frame_size as int,
            readable(*old(consumer)).len() as int,
        ),
        exists|fresh: Seq<u32>|
            #[trigger] extends(fresh, readable(*old(consumer))) && if frame_size <= fresh.len() {
                r is Ok && final(ac)@ == old(ac)@ + fresh.subrange(0, frame_size as int)
                    && readable(*final(consumer)) == fresh.subrange(
                    frame_size as int,
                    fresh.len() as int,
                )
            } else {
                r matches Err(VMTError::RtrbChunk { message }) && message@ == slots_message(
                    fresh.len() as usize,
                ) && final(ac)@ == old(ac)@ && readable(*final(consumer)) == fresh
            },
{
    let r = take_chunk(consumer, frame_size);
    match r {
        Ok(mut chunk) => {
            ac.append(&mut chunk);
            Ok(())
        },
        Err(e) => Err(chunk_error(e)),
    }
}

/// Discards every sample that is currently in the channel.
pub fn clear_rb(consumer: &mut Consumer<u32>) -> (r: Result<(), VMTError>)
    ensures
        r is Ok,
        readable(*final(consumer)) == Seq::<u32>::empty(),
{
    let slots = available(consumer);
    let r = take_chunk(consumer, slots);
    assert(r is Ok);
    Ok(())
}

/// The number of samples in a frame of `frame_ms` milliseconds.
pub fn frame_length(frame_ms: u32, sample_rate: u32) -> (r: usize)
    requires
        (frame_ms as int * sample_rate as int) / 1000 <= usize::MAX,
    ensures
        r == (frame_ms as int * sample_rate as int) / 1000,
{
    assert(frame_ms as int * sample_rate as int <= u32::MAX as int * u32::MAX as int) by (nonlinear_arith);
    let n: u64 = frame_ms as u64 * sample_rate as u64 / 1000;
    n as usize
}

} // verus!
