//! The connection handler's decision logic, one driver per accepted socket.
//!
//! A `ConnectionDriver` walks one connection through its whole life: the
//! capture session's Init outcome, the single Begin, the drain loop that turns
//! received frames into socket writes, and the Stop/Deallocate teardown. The
//! surrounding task performs the engine calls and the socket writes that the
//! driver asks for, and reports each outcome back; the driver is verified for
//! every possible outcome.
//!
//! Ghost logs record every frame taken off the channel, every frame whose
//! write completed, every byte put on the wire, and every engine call, so the
//! driver's invariant pins down the stream a client observes and the exact
//! engine-call discipline.

use vstd::prelude::*;

use crate::channel::FrameConsumer;
use crate::frames::lemma_stream_bytes_push;
use crate::frames::stream_bytes;

verus! {

/// Where one connection stands in its life.
#[derive(Clone, Copy, PartialEq, Eq, Structural, Debug)]
pub enum Phase {
    /// The frame channel exists; the capture session's Init has not been
    /// answered yet.
    Setup,
    /// Init returned null. Terminal: no engine call was or will be made, and
    /// nothing is written to the socket.
    Rejected,
    /// Begin has been called; the drain loop is waiting for the next frame.
    Streaming,
    /// One frame has been handed out for a socket write whose outcome is
    /// still unknown.
    Writing,
    /// The drain loop is over; the one Stop call is owed.
    Stopping,
    /// Stop has been called; the one Deallocate call is owed.
    Stopped,
    /// Deallocate has been called. Terminal.
    Done,
}

/// The engine call the surrounding task must make next on the session handle.
#[derive(Clone, Copy, PartialEq, Eq, Structural, Debug)]
pub enum SessionCall {
    Begin,
    Stop,
    Deallocate,
}

/// Drives one connection: socket, capture session and frame channel live
/// exactly as long as this value's walk from `Setup` to `Rejected` or `Done`.
pub struct ConnectionDriver {
    pub phase: Phase,
    /// How often the engine's Begin was requested.
    pub begin_calls: Ghost<int>,
    /// How often the engine's Stop was requested.
    pub stop_calls: Ghost<int>,
    /// How often the engine's Deallocate was requested.
    pub dealloc_calls: Ghost<int>,
    /// Every frame taken off the channel, in arrival order.
    pub received: Ghost<Seq<Seq<u8>>>,
    /// The prefix of `received` whose socket writes completed.
    pub streamed: Ghost<Seq<Seq<u8>>>,
    /// In phase `Writing`: the frame whose write is in flight.
    pub pending: Ghost<Seq<u8>>,
    /// Every byte fully written to the socket, in order.
    pub wire: Ghost<Seq<u8>>,
    /// Whether a socket write has failed on this connection.
    pub write_broke: Ghost<bool>,
}

impl ConnectionDriver {
    /// The driver's invariant: the wire holds exactly the concatenation of
    /// the completely written frames, those are a prefix of the received
    /// ones, and the engine-call counts fit the phase — Begin at most once,
    /// Stop at most once and only after Begin, Deallocate at most once and
    /// only after Stop, none of them ever after a null Init.
    pub open spec fn wf(self) -> bool {
        &&& self.wire@ == stream_bytes(self.streamed@)
        &&& self.streamed@.len() <= self.received@.len()
        &&& self.streamed@ == self.received@.take(self.streamed@.len() as int)
        &&& match self.phase {
            Phase::Setup => {
                &&& self.begin_calls@ == 0
                &&& self.stop_calls@ == 0
                &&& self.dealloc_calls@ == 0
                &&& self.received@ == Seq::<Seq<u8>>::empty()
                &&& self.streamed@ == Seq::<Seq<u8>>::empty()
                &&& !self.write_broke@
            },
            Phase::Rejected => {
                &&& self.begin_calls@ == 0
                &&& self.stop_calls@ == 0
                &&& self.dealloc_calls@ == 0
                &&& self.received@ == Seq::<Seq<u8>>::empty()
                &&& self.streamed@ == Seq::<Seq<u8>>::empty()
                &&& !self.write_broke@
            },
            Phase::Streaming => {
                &&& self.begin_calls@ == 1
                &&& self.stop_calls@ == 0
                &&& self.dealloc_calls@ == 0
                &&& self.streamed@ == self.received@
                &&& !self.write_broke@
            },
            Phase::Writing => {
                &&& self.begin_calls@ == 1
                &&& self.stop_calls@ == 0
                &&& self.dealloc_calls@ == 0
                &&& self.received@ == self.streamed@.push(self.pending@)
                &&& !self.write_broke@
            },
            Phase::Stopping => {
                &&& self.begin_calls@ == 1
                &&& self.stop_calls@ == 0
                &&& self.dealloc_calls@ == 0
                &&& !self.write_broke@ ==> self.streamed@ == self.received@
            },
            Phase::Stopped => {
                &&& self.begin_calls@ == 1
                &&& self.stop_calls@ == 1
                &&& self.dealloc_calls@ == 0
                &&& !self.write_broke@ ==> self.streamed@ == self.received@
            },
            Phase::Done => {
                &&& self.begin_calls@ == 1
                &&& self.stop_calls@ == 1
                &&& self.dealloc_calls@ == 1
                &&& !self.write_broke@ ==> self.streamed@ == self.received@
            },
        }
    }

    /// A fresh driver for one accepted socket, before Init is attempted.
    pub fn new() -> (d: ConnectionDriver)
        ensures
            d.wf(),
            d.phase == Phase::Setup,
    {
        let d = ConnectionDriver {
            phase: Phase::Setup,
            begin_calls: Ghost(0),
            stop_calls: Ghost(0),
            dealloc_calls: Ghost(0),
            received: Ghost(Seq::empty()),
            streamed: Ghost(Seq::empty()),
            pending: Ghost(Seq::empty()),
            wire: Ghost(Seq::empty()),
            write_broke: Ghost(false),
        };
        proof {
            assert(d.received@.take(0) =~= Seq::<Seq<u8>>::empty());
            assert(stream_bytes(d.streamed@) =~= Seq::<u8>::empty());
        }
        d
    }

    /// Init returned null: abort this connection. No engine call is made,
    /// nothing is ever written to the socket.
    pub fn init_rejected(&mut self)
        requires
            old(self).wf(),
            old(self).phase == Phase::Setup,
        ensures
            final(self).wf(),
            final(self).phase == Phase::Rejected,
            final(self).begin_calls@ == 0,
            final(self).stop_calls@ == 0,
            final(self).dealloc_calls@ == 0,
            final(self).wire@ == Seq::<u8>::empty(),
    {
        proof {
            assert(stream_bytes(self.streamed@) =~= Seq::<u8>::empty());
        }
        self.phase = Phase::Rejected;
    }

    /// Init returned a live handle: the session must now be started, by the
    /// one and only Begin call.
    pub fn init_accepted(&mut self) -> (call: SessionCall)
        requires
            old(self).wf(),
            old(self).phase == Phase::Setup,
        ensures
            final(self).wf(),
            final(self).phase == Phase::Streaming,
            final(self).begin_calls@ == 1,
            final(self).stop_calls@ == 0,
            final(self).dealloc_calls@ == 0,
            final(self).received@ == old(self).received@,
            final(self).wire@ == old(self).wire@,
            call == SessionCall::Begin,
    {
        self.phase = Phase::Streaming;
        proof {
            self.begin_calls@ = 1;
        }
        SessionCall::Begin
    }

    /// One iteration of the drain loop's receive side: blocks on the channel
    /// for the next frame. A frame is recorded and handed out, byte for byte,
    /// to be written to the socket; `None` means the producer end is gone, so
    /// the loop is over and teardown is owed.
    pub fn drain_step(&mut self, frames: &FrameConsumer) -> (out: Option<Vec<u8>>)
        requires
            old(self).wf(),
            old(self).phase == Phase::Streaming,
        ensures
            final(self).wf(),
            final(self).wire@ == old(self).wire@,
            final(self).begin_calls@ == 1,
            final(self).stop_calls@ == 0,
            final(self).dealloc_calls@ == 0,
            match out {
                Some(bytes) => {
                    &&& final(self).phase == Phase::Writing
                    &&& final(self).pending@ == bytes@
                    &&& final(self).received@ == old(self).received@.push(bytes@)
                    &&& final(self).streamed@ == old(self).streamed@
                },
                None => {
                    &&& final(self).phase == Phase::Stopping
                    &&& final(self).received@ == old(self).received@
                    &&& final(self).streamed@ == old(self).streamed@
                    &&& !final(self).write_broke@
                },
            },
    {
        match frames.recv_frame() {
            Some(frame) => {
                self.phase = Phase::Writing;
                proof {
                    self.received@ = self.received@.push(frame@);
                    self.pending@ = frame@;
                    assert(self.received@.take(self.streamed@.len() as int) =~= self.streamed@);
                }
                Some(frame)
            },
            None => {
                self.phase = Phase::Stopping;
                None
            },
        }
    }

    /// The in-flight socket write completed: its frame's bytes are now on the
    /// wire, after everything streamed before them and in one piece.
    pub fn write_completed(&mut self)
        requires
            old(self).wf(),
            old(self).phase == Phase::Writing,
        ensures
            final(self).wf(),
            final(self).phase == Phase::Streaming,
            final(self).wire@ == old(self).wire@ + old(self).pending@,
            final(self).streamed@ == old(self).streamed@.push(old(self).pending@),
            final(self).received@ == old(self).received@,
    {
        proof {
            lemma_stream_bytes_push(self.streamed@, self.pending@);
            self.wire@ = self.wire@ + self.pending@;
            self.streamed@ = self.streamed@.push(self.pending@);
            assert(self.received@.take(self.streamed@.len() as int) =~= self.streamed@);
        }
        self.phase = Phase::Streaming;
    }

    /// The in-flight socket write failed: the client is gone or broken. The
    /// loop is over and teardown is owed; the wire keeps only the frames
    /// whose writes completed.
    pub fn write_failed(&mut self)
        requires
            old(self).wf(),
            old(self).phase == Phase::Writing,
        ensures
            final(self).wf(),
            final(self).phase == Phase::Stopping,
            final(self).wire@ == old(self).wire@,
            final(self).streamed@ == old(self).streamed@,
            final(self).received@ == old(self).received@,
            final(self).write_broke@,
    {
        proof {
            self.write_broke@ = true;
        }
        self.phase = Phase::Stopping;
    }

    /// The drain loop has exited, for whatever reason: frame production must
    /// now cease, by the one and only Stop call.
    pub fn stop_session(&mut self) -> (call: SessionCall)
        requires
            old(self).wf(),
            old(self).phase == Phase::Stopping,
        ensures
            final(self).wf(),
            final(self).phase == Phase::Stopped,
            final(self).stop_calls@ == 1,
            final(self).dealloc_calls@ == 0,
            final(self).wire@ == old(self).wire@,
            final(self).streamed@ == old(self).streamed@,
            final(self).received@ == old(self).received@,
            final(self).write_broke@ == old(self).write_broke@,
            call == SessionCall::Stop,
    {
        self.phase = Phase::Stopped;
        proof {
            self.stop_calls@ = 1;
        }
        SessionCall::Stop
    }

    /// Stop has been called: the engine-side state must now be released, by
    /// the one and only Deallocate call. The handle is dead afterwards.
    pub fn deallocate_session(&mut self) -> (call: SessionCall)
        requires
            old(self).wf(),
            old(self).phase == Phase::Stopped,
        ensures
            final(self).wf(),
            final(self).phase == Phase::Done,
            final(self).stop_calls@ == 1,
            final(self).dealloc_calls@ == 1,
            final(self).wire@ == old(self).wire@,
            final(self).streamed@ == old(self).streamed@,
            final(self).received@ == old(self).received@,
            final(self).write_broke@ == old(self).write_broke@,
            call == SessionCall::Deallocate,
    {
        self.phase = Phase::Done;
        proof {
            self.dealloc_calls@ = 1;
        }
        SessionCall::Deallocate
    }
}

/// Ordering: the bytes a client observes are exactly the concatenation of the
/// frames this connection received, in arrival order, with no interleaving,
/// duplication or reordering — cut short only where a write failed, and then
/// at a frame boundary of the completed prefix. A connection whose writes all
/// succeeded puts every received frame on the wire, through teardown.
pub proof fn lemma_stream_ordering(d: ConnectionDriver)
    requires
        d.wf(),
    ensures
        d.wire@ == stream_bytes(d.streamed@),
        d.streamed@ == d.received@.take(d.streamed@.len() as int),
        d.phase == Phase::Streaming ==> d.streamed@ == d.received@,
        !d.write_broke@ && d.phase != Phase::Writing ==> d.wire@ == stream_bytes(d.received@),
{
}

/// Teardown completeness: a connection that reached its end after a live Init
/// made the Stop call exactly once and the Deallocate call exactly once.
pub proof fn lemma_teardown_complete(d: ConnectionDriver)
    requires
        d.wf(),
        d.phase == Phase::Done,
    ensures
        d.begin_calls@ == 1,
        d.stop_calls@ == 1,
        d.dealloc_calls@ == 1,
{
}

/// Teardown order: in every reachable state each engine call has happened at
/// most once, Stop never precedes Begin, and Deallocate never precedes Stop.
pub proof fn lemma_teardown_order(d: ConnectionDriver)
    requires
        d.wf(),
    ensures
        d.begin_calls@ <= 1,
        d.stop_calls@ <= 1,
        d.dealloc_calls@ <= 1,
        d.stop_calls@ <= d.begin_calls@,
        d.dealloc_calls@ <= d.stop_calls@,
{
}

/// Null-handle short-circuit: after Init returns null, Begin, Stop and
/// Deallocate are never called and no byte is ever written to the socket.
pub proof fn lemma_rejected_silent(d: ConnectionDriver)
    requires
        d.wf(),
        d.phase == Phase::Rejected,
    ensures
        d.begin_calls@ == 0,
        d.stop_calls@ == 0,
        d.dealloc_calls@ == 0,
        d.received@ == Seq::<Seq<u8>>::empty(),
        d.wire@ == Seq::<u8>::empty(),
{
    assert(stream_bytes(d.streamed@) =~= Seq::<u8>::empty());
}

/// Isolation: a connection's wire bytes are a function of its own received
/// frames and write progress alone, so nothing of one connection can appear
/// on another's socket unless it arrived on that connection's own channel.
/// Two drivers also share no state — every operation takes exactly one
/// driver — and each records its own session's single Begin.
pub proof fn lemma_isolation(a: ConnectionDriver, b: ConnectionDriver)
    requires
        a.wf(),
        b.wf(),
    ensures
        a.wire@ == stream_bytes(a.received@.take(a.streamed@.len() as int)),
        b.wire@ == stream_bytes(b.received@.take(b.streamed@.len() as int)),
        a.received@ == b.received@ && a.streamed@.len() == b.streamed@.len() ==> a.wire@
            == b.wire@,
{
}

} // verus!
