//! Bounded single-producer single-consumer command channels.
//!
//! The control side holds a producer and pushes [`Command`] values; the
//! audio side holds the matching consumer and drains them in order. The
//! queues are the `ringbuf` crate's lock-free rings; this module declares
//! them to the verifier and wraps the calls the library makes.
//!
//! A producer and a consumer are two ends of one shared ring, and the other
//! end mutates the ring's contents without this end's value changing. What
//! the ring holds is therefore not a function of either end's value, and no
//! contract here speaks of it: each wrapper promises only what holds of
//! every outcome of its call. The one genuine function of an end's value is
//! the ring's capacity, which is fixed when the ring is created. Callers
//! that drain a queue state their result for some sequence of received
//! commands, whatever the ring happened to hold.

use vstd::prelude::*;

use ringbuf::{Consumer, Producer, RingBuffer};

use crate::command::Command;
use crate::frame::Frame;
use crate::manager::resources::UnusedResource;

verus! {

#[verifier::external_type_specification]
#[verifier::external_body]
#[verifier::reject_recursive_types(T)]
pub struct ExRingBuffer<T>(RingBuffer<T>);

#[verifier::external_type_specification]
#[verifier::external_body]
#[verifier::reject_recursive_types(T)]
pub struct ExProducer<T>(Producer<T>);

#[verifier::external_type_specification]
#[verifier::external_body]
#[verifier::reject_recursive_types(T)]
pub struct ExConsumer<T>(Consumer<T>);

/// The fixed capacity a command producer end's ring was created with.
pub uninterp spec fn producer_capacity(p: Producer<Command>) -> nat;

/// Relies on ringbuf's `RingBuffer::new` and `split`: a fresh ring of the
/// given capacity, handed out as its two ends.
#[verifier::external_body]
pub(crate) fn command_channel(capacity: usize) -> (r: (Producer<Command>, Consumer<Command>))
    ensures
        producer_capacity(r.0) == capacity,
{
    RingBuffer::new(capacity).split()
}

/// Relies on ringbuf's `Producer::push`: appends the command when the ring
/// has room, and returns exactly the unappended command when it is full;
/// never blocks or panics. Whether there is room depends on the shared
/// ring, so neither outcome is promised.
#[verifier::external_body]
pub(crate) fn push_command(p: &mut Producer<Command>, cmd: Command) -> (r: Result<(), Command>)
    ensures
        producer_capacity(*final (p)) == producer_capacity(*old(p)),
        r matches Err(e) ==> e == cmd,
{
    p.push(cmd)
}

/// Relies on ringbuf's `Consumer::pop`: removes and returns the ring's
/// oldest command, or returns nothing when the ring is empty; never blocks
/// or panics. Which outcome occurs, and which command comes out, depend on
/// the shared ring, so nothing more is promised.
#[verifier::external_body]
pub(crate) fn pop_command(c: &mut Consumer<Command>) -> (r: Option<Command>) {
    c.pop()
}

/// The fixed capacity an unused-resource producer end's ring was created
/// with.
pub uninterp spec fn unused_producer_capacity(p: Producer<UnusedResource>) -> nat;

/// Relies on ringbuf's `RingBuffer::new` and `split`: a fresh ring of the
/// given capacity for returning unused resources, handed out as its two
/// ends.
#[verifier::external_body]
pub(crate) fn unused_channel(capacity: usize) -> (r: (
    Producer<UnusedResource>,
    Consumer<UnusedResource>,
))
    ensures
        unused_producer_capacity(r.0) == capacity,
{
    RingBuffer::new(capacity).split()
}

/// Relies on ringbuf's `Producer::push`: appends the resource when the ring
/// has room, and returns exactly the unappended resource when it is full;
/// never blocks or panics.
#[verifier::external_body]
pub(crate) fn push_unused(p: &mut Producer<UnusedResource>, value: UnusedResource) -> (r: Result<
    (),
    UnusedResource,
>)
    ensures
        unused_producer_capacity(*final (p)) == unused_producer_capacity(*old(p)),
        r matches Err(v) ==> v == value,
{
    p.push(value)
}

/// Relies on ringbuf's `Consumer::pop`: removes and returns the ring's
/// oldest resource, or returns nothing when the ring is empty; never blocks
/// or panics.
#[verifier::external_body]
pub(crate) fn pop_unused(c: &mut Consumer<UnusedResource>) -> (r: Option<UnusedResource>) {
    c.pop()
}

/// Relies on ringbuf's `Consumer::pop`: removes and returns the ring's
/// oldest decoded frame, or returns nothing when the ring is empty; never
/// blocks or panics. Which frame comes out depends on the ring the decoder
/// fills, so the caller states its result for every possible frame.
#[verifier::external_body]
pub(crate) fn pop_frame(c: &mut Consumer<Frame>) -> (r: Option<Frame>) {
    c.pop()
}

} // verus!
