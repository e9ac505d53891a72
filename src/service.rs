use vstd::prelude::*;
use crate::frame::{echo_reply, reply_to, EchoError, Frame, FrameView, Message, MessageView};

verus! {

/// Per-connection liveness record: when the peer last proved it was alive.
pub struct ConnectionState {
    pub last_heartbeat: u64,
}

impl ConnectionState {
    pub fn new(now: u64) -> (r: Self)
        ensures
            r.last_heartbeat == now,
    {
        ConnectionState { last_heartbeat: now }
    }

    /// Records a liveness proof at `now`; the clock never runs backwards.
    pub fn touch(&mut self, now: u64)
        requires
            old(self).last_heartbeat <= now,
        ensures
            final(self).last_heartbeat == now,
    {
        self.last_heartbeat = now;
    }
}

/// Producer end of a one-shot notification: armed when made, it fires at
/// most once, and firing again is a no-op.
pub struct ShutdownSignal {
    armed: bool,
}

impl ShutdownSignal {
    pub closed spec fn is_armed(&self) -> bool {
        self.armed
    }

    pub fn new() -> (r: Self)
        ensures
            r.is_armed(),
    {
        ShutdownSignal { armed: true }
    }

    /// Disarms the signal; true exactly when this call is the one that
    /// fires it and the notification must be delivered now.
    pub fn fire(&mut self) -> (r: bool)
        ensures
            r == old(self).is_armed(),
            !final(self).is_armed(),
    {
        let r = self.armed;
        self.armed = false;
        r
    }

    pub fn armed(&self) -> (r: bool)
        ensures
            r == self.is_armed(),
    {
        self.armed
    }
}

/// The state of one connection's echo service, in mathematical terms.
pub ghost struct ServiceView {
    pub last_heartbeat: u64,
    pub closed: bool,
    pub signal_armed: bool,
}

/// What the echo service does with one frame when it is still open:
/// `Err(())` where the frame is fatal.
pub open spec fn handled(closed: bool, f: FrameView) -> Result<Option<MessageView>, ()> {
    if closed {
        Ok(None)
    } else {
        match reply_to(f) {
            Ok(m) => Ok(Some(m)),
            Err(_) => Err(()),
        }
    }
}

/// Whether the service is closed after handling `f`: once a close goes out,
/// or the frame was fatal, nothing more is sent.
pub open spec fn closed_after(closed: bool, f: FrameView) -> bool {
    closed || match reply_to(f) {
        Ok(m) => m is Close,
        Err(_) => true,
    }
}

/// The liveness timestamp after handling `f` at `now`: only a ping counts.
pub open spec fn heartbeat_after(last: u64, closed: bool, f: FrameView, now: u64) -> u64 {
    if !closed && f is Ping {
        now
    } else {
        last
    }
}

/// Everything the service sends in answer to a sequence of frames, in
/// order; a fatal frame ends the sequence.
pub open spec fn outbound(closed: bool, frames: Seq<FrameView>) -> Seq<MessageView>
    decreases frames.len(),
{
    if frames.len() == 0 {
        Seq::empty()
    } else {
        let f = frames[0];
        match handled(closed, f) {
            Err(_) => Seq::empty(),
            Ok(reply) => {
                let rest = outbound(closed_after(closed, f), frames.drop_first());
                match reply {
                    Some(m) => seq![m] + rest,
                    None => rest,
                }
            },
        }
    }
}

/// Frame-by-frame echo service of one connection. It owns the connection's
/// liveness record (the single writer) and the producer end of the signal
/// that stops the connection's heartbeat supervisor.
pub struct EchoService {
    state: ConnectionState,
    closed: bool,
    signal: ShutdownSignal,
}

impl View for EchoService {
    type V = ServiceView;

    closed spec fn view(&self) -> ServiceView {
        ServiceView {
            last_heartbeat: self.state.last_heartbeat,
            closed: self.closed,
            signal_armed: self.signal.is_armed(),
        }
    }
}

impl EchoService {
    /// A fresh service for a connection accepted at `now`.
    pub fn new(now: u64) -> (r: Self)
        ensures
            r@ == (ServiceView { last_heartbeat: now, closed: false, signal_armed: true }),
    {
        EchoService { state: ConnectionState::new(now), closed: false, signal: ShutdownSignal::new() }
    }

    /// Answers one frame received at `now`. A ping refreshes the liveness
    /// timestamp; after a close went out (or a fatal frame) nothing is sent.
    pub fn handle(&mut self, frame: Frame, now: u64) -> (r: Result<Option<Message>, EchoError>)
        requires
            old(self)@.last_heartbeat <= now,
        ensures
            r is Err <==> handled(old(self)@.closed, frame@) is Err,
            r matches Ok(reply) ==> handled(old(self)@.closed, frame@) == Ok::<
                Option<MessageView>,
                (),
            >(
                match reply {
                    Some(m) => Some(m@),
                    None => None,
                },
            ),
            r matches Err(e) ==> e == EchoError::InvalidText,
            final(self)@.closed == closed_after(old(self)@.closed, frame@),
            final(self)@.last_heartbeat == heartbeat_after(
                old(self)@.last_heartbeat,
                old(self)@.closed,
                frame@,
                now,
            ),
            final(self)@.signal_armed == old(self)@.signal_armed,
    {
        if self.closed {
            return Ok(None);
        }
        let is_ping = matches!(frame, Frame::Ping(_));
        match echo_reply(frame) {
            Ok(m) => {
                if is_ping {
                    self.state.touch(now);
                }
                if matches!(m, Message::Close(_)) {
                    self.closed = true;
                }
                Ok(Some(m))
            },
            Err(e) => {
                self.closed = true;
                Err(e)
            },
        }
    }

    /// Called once when the transport session ends, whatever the cause:
    /// true exactly when the shutdown notification is to be sent now.
    pub fn teardown(&mut self) -> (r: bool)
        ensures
            r == old(self)@.signal_armed,
            final(self)@ == (ServiceView { signal_armed: false, ..old(self)@ }),
    {
        self.signal.fire()
    }

    pub fn last_heartbeat(&self) -> (r: u64)
        ensures
            r == self@.last_heartbeat,
    {
        self.state.last_heartbeat
    }

    pub fn is_closed(&self) -> (r: bool)
        ensures
            r == self@.closed,
    {
        self.closed
    }
}

/// A closed service sends nothing more, whatever arrives.
pub proof fn lemma_closed_is_silent(frames: Seq<FrameView>)
    ensures
        outbound(true, frames) == Seq::<MessageView>::empty(),
    decreases frames.len(),
{
    if frames.len() > 0 {
        lemma_closed_is_silent(frames.drop_first());
    }
}

/// A ping is answered by a pong with the same payload, and, on a clock
/// that has moved on since the last heartbeat, the timestamp strictly grows.
pub proof fn lemma_ping_answered_and_refreshes(last: u64, p: Seq<u8>, now: u64)
    requires
        last < now,
    ensures
        handled(false, FrameView::Ping(p)) == Ok::<Option<MessageView>, ()>(
            Some(MessageView::Pong(p)),
        ),
        heartbeat_after(last, false, FrameView::Ping(p), now) > last,
        !closed_after(false, FrameView::Ping(p)),
{
}

/// A close from the peer, on an open connection, yields exactly one
/// outbound close with the same reason and no further traffic.
pub proof fn lemma_close_echoed_once(r: Option<crate::frame::ReasonView>, rest: Seq<FrameView>)
    ensures
        outbound(false, seq![FrameView::Close(r)] + rest) == seq![MessageView::Close(r)],
{
    let frames = seq![FrameView::Close(r)] + rest;
    assert(frames.drop_first() =~= rest);
    lemma_closed_is_silent(rest);
    assert(seq![MessageView::Close(r)] + Seq::<MessageView>::empty() =~= seq![MessageView::Close(r)]);
}

} // verus!
