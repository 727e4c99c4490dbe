//! The frame channel: an unbounded FIFO queue of owned frame buffers that
//! crosses from the capture engine's callback thread to the connection
//! handler's write loop. One producer context and one consumer per channel,
//! one channel per capture session.
//!
//! The queue itself is crossbeam's; its endpoints are held behind the two
//! types below. What a receive returns depends on the sending thread, so the
//! contracts here promise only what holds of every outcome; the connection
//! handler takes the received frame as an argument and is verified for every
//! value of it.

use vstd::prelude::*;

use crate::frames::copy_frame;

verus! {

#[verifier::external_type_specification]
#[verifier::external_body]
#[verifier::reject_recursive_types(T)]
pub struct ExSender<T>(crossbeam::channel::Sender<T>);

#[verifier::external_type_specification]
#[verifier::external_body]
#[verifier::reject_recursive_types(T)]
pub struct ExReceiver<T>(crossbeam::channel::Receiver<T>);

/// Relies on crossbeam::channel::unbounded: returns the two endpoints of a
/// fresh unbounded FIFO channel. The endpoints share hidden state, so nothing
/// is stated of them here.
#[verifier::external_body]
fn channel_pair() -> (r: (
    crossbeam::channel::Sender<Vec<u8>>,
    crossbeam::channel::Receiver<Vec<u8>>,
))
{
    crossbeam::channel::unbounded()
}

/// Relies on crossbeam::channel::Sender::send: on an unbounded channel it
/// never blocks, and it fails only when all receivers are gone, handing the
/// unsent message back unchanged inside the error.
#[verifier::external_body]
fn send_bytes(tx: &crossbeam::channel::Sender<Vec<u8>>, frame: Vec<u8>) -> (r: Result<
    (),
    Vec<u8>,
>)
    ensures
        r matches Err(dropped) ==> dropped@ == frame@,
{
    match tx.send(frame) {
        Ok(()) => Ok(()),
        Err(e) => Err(e.into_inner()),
    }
}

/// Relies on crossbeam::channel::Receiver::recv: blocks until a message
/// arrives (`Some`) or until the channel is empty with every sender gone
/// (`None`). What arrives was put there by another thread, so nothing is
/// stated of the returned bytes.
#[verifier::external_body]
fn recv_bytes(rx: &crossbeam::channel::Receiver<Vec<u8>>) -> (r: Option<Vec<u8>>) {
    rx.recv().ok()
}

/// The producer end of one connection's frame channel, reached by the capture
/// callback adapter through the per-session context.
pub struct FrameProducer {
    tx: crossbeam::channel::Sender<Vec<u8>>,
}

/// The consumer end of one connection's frame channel, held by the connection
/// handler's write loop.
pub struct FrameConsumer {
    rx: crossbeam::channel::Receiver<Vec<u8>>,
}

/// Creates a fresh frame channel: one producer end for the capture callback,
/// one consumer end for the connection handler. Unbounded by design: the
/// adapter must never block the engine's capture thread.
pub fn frame_channel() -> (FrameProducer, FrameConsumer) {
    let (tx, rx) = channel_pair();
    (FrameProducer { tx }, FrameConsumer { rx })
}

impl FrameProducer {
    /// The capture callback adapter's core: copies exactly `len` bytes of the
    /// engine-owned buffer into a fresh owned frame — the engine buffer is
    /// dead once the callback returns — and enqueues the copy without
    /// blocking. If the consumer end is already gone (the handler's task has
    /// exited), the frame comes back as `Err` and the caller drops it
    /// silently; this function never panics, so a late callback cannot crash
    /// the process.
    pub fn deliver(&self, data: &[u8], len: usize) -> (r: Result<(), Vec<u8>>)
        requires
            len <= data@.len(),
        ensures
            r matches Err(dropped) ==> dropped@ == data@.subrange(0, len as int),
    {
        let frame = copy_frame(data, len);
        send_bytes(&self.tx, frame)
    }
}

impl FrameConsumer {
    /// Relies on crossbeam::channel::Receiver::recv through `recv_bytes`:
    /// blocks for the next frame, or reports the producer gone with `None`.
    pub(crate) fn recv_frame(&self) -> (r: Option<Vec<u8>>) {
        recv_bytes(&self.rx)
    }
}

} // verus!
