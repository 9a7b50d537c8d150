//! The connection lifecycle: transport events in, handler callbacks and
//! outbound frames out.
use vstd::prelude::*;
use crate::close_code::{close_code_of, CloseCode};
use crate::error::Error;
use crate::handler::Handler;
use crate::message::Message;
use crate::sender::{Frame, FrameView, LinkState, Sender};

verus! {

/// Where a connection stands in its lifecycle.
#[derive(Debug, PartialEq, Eq, Clone, Copy, Structural)]
pub enum ConnState {
    /// The transport handshake has not completed.
    Connecting,
    /// Messages flow both ways.
    Open,
    /// A close frame has been sent; inbound messages are no longer delivered.
    Closing,
    /// The connection is over.
    Closed,
}

/// What the transport reports.
#[derive(Debug)]
pub enum Event {
    /// The handshake completed.
    Opened,
    /// An application message arrived.
    Received(Message),
    /// A malformed frame arrived (such as text that is not UTF-8).
    Malformed(String),
    /// A close frame arrived, with its code if it held one, and its reason.
    RemoteClose(Option<u16>, String),
    /// The socket went away without a close frame.
    Dropped,
    /// The transport failed.
    Failed(String),
}

/// One handler callback, as the connection made it.
#[derive(Debug, PartialEq, Eq, Clone, Copy, Structural)]
pub enum Callback {
    /// `on_open`
    Open,
    /// `on_message`
    Message,
    /// `on_error`
    Error,
    /// `on_close`, with the code it was given
    Close(CloseCode),
}

/// Callbacks in lifecycle order: `on_open` first and only there, and an
/// `on_close` nowhere but last.
pub open spec fn trace_ordered(t: Seq<Callback>) -> bool {
    &&& t.len() > 0 ==> t[0] is Open
    &&& forall|i: int| 0 < i < t.len() ==> !(#[trigger] t[i] is Open)
    &&& forall|i: int| 0 <= i < t.len() - 1 ==> !(#[trigger] t[i] is Close)
}

/// Whether the trace holds no `on_close`.
pub open spec fn not_closed(t: Seq<Callback>) -> bool {
    forall|i: int| 0 <= i < t.len() ==> !(#[trigger] t[i] is Close)
}

/// The code handed to `on_close` for a remote close frame: the frame's own,
/// or `Status` when it held none.
pub open spec fn remote_close_code(code: Option<u16>) -> CloseCode {
    match code {
        Some(c) => close_code_of(c),
        None => CloseCode::Status,
    }
}

/// The code of the close frame sent back in answer to a remote close frame.
pub open spec fn echo_close_code(code: Option<u16>) -> CloseCode {
    match code {
        Some(c) => close_code_of(c),
        None => CloseCode::Empty,
    }
}

/// What a connection shows: its state, its sender's state, the callbacks
/// made so far and the frames waiting for the transport.
pub struct ConnectionView {
    /// Where the connection stands.
    pub state: ConnState,
    /// Where its sender stands.
    pub link: LinkState,
    /// Every handler callback made, in order.
    pub trace: Seq<Callback>,
    /// Outbound frames not yet taken, oldest first.
    pub outbox: Seq<FrameView>,
}

/// A callback that may fail was made: its record, then an `on_error` if it failed.
pub open spec fn after_callback(before: Seq<Callback>, kind: Callback, after: Seq<Callback>) -> bool {
    after == before.push(kind) || after == before.push(kind).push(Callback::Error)
}

/// The connection ended: the callbacks `extra`, then `on_close` with `code`,
/// with `outbox` left for the transport.
pub open spec fn terminated(
    o: ConnectionView,
    n: ConnectionView,
    extra: Seq<Callback>,
    code: CloseCode,
    outbox: Seq<FrameView>,
) -> bool {
    &&& n.state is Closed
    &&& n.link is Closed
    &&& n.trace == (o.trace + extra).push(Callback::Close(code))
    &&& n.outbox == outbox
}

/// After a callback, the connection is open while the sender is, else closing.
pub open spec fn settled(n: ConnectionView) -> bool {
    &&& (n.state is Open || n.state is Closing)
    &&& (n.state is Open <==> n.link is Open)
}

/// How one transport event moves a connection from `o` to `n`.
pub open spec fn step(o: ConnectionView, ev: Event, n: ConnectionView) -> bool {
    match o.state {
        ConnState::Closed => n == o,
        ConnState::Connecting => match ev {
            Event::Opened => {
                &&& after_callback(o.trace, Callback::Open, n.trace)
                &&& settled(n)
                &&& n.trace.len() == o.trace.len() + 2 ==> n.state is Closing
            },
            _ => {
                &&& n.state is Closed
                &&& n.link is Closed
                &&& n.trace == o.trace
                &&& n.outbox == o.outbox
            },
        },
        _ => match ev {
            Event::Opened => n == o,
            Event::Received(_) => if o.state is Open {
                after_callback(o.trace, Callback::Message, n.trace) && settled(n)
            } else {
                n == o
            },
            Event::Malformed(_) => terminated(
                o,
                n,
                seq![Callback::Error],
                CloseCode::Invalid,
                if o.state is Open {
                    o.outbox.push(FrameView::Close(CloseCode::Invalid, Seq::empty()))
                } else {
                    o.outbox
                },
            ),
            Event::RemoteClose(code, _) => terminated(
                o,
                n,
                Seq::empty(),
                remote_close_code(code),
                if o.state is Open {
                    o.outbox.push(FrameView::Close(echo_close_code(code), Seq::empty()))
                } else {
                    o.outbox
                },
            ),
            Event::Dropped => terminated(o, n, Seq::empty(), CloseCode::Abnormal, o.outbox),
            Event::Failed(_) => terminated(
                o,
                n,
                seq![Callback::Error],
                CloseCode::Abnormal,
                o.outbox,
            ),
        },
    }
}

/// One WebSocket connection: its lifecycle state, the handler bound to it
/// for good, the sender the handler writes through, and the record of the
/// callbacks made.
pub struct Connection<H: Handler> {
    state: ConnState,
    handler: H,
    sender: Sender,
    trace: Vec<Callback>,
}

impl<H: Handler> View for Connection<H> {
    type V = ConnectionView;

    closed spec fn view(&self) -> ConnectionView {
        ConnectionView {
            state: self.state,
            link: self.sender@.state,
            trace: self.trace@,
            outbox: self.sender@.outbox,
        }
    }
}

impl<H: Handler> Connection<H> {
    /// The lifecycle invariant.
    pub open spec fn wf(&self) -> bool {
        let v = self@;
        &&& trace_ordered(v.trace)
        &&& v.state is Connecting ==> v.trace.len() == 0 && v.link is Open
        &&& v.state is Open ==> v.trace.len() > 0 && not_closed(v.trace) && v.link is Open
        &&& v.state is Closing ==> v.trace.len() > 0 && not_closed(v.trace) && !(v.link is Open)
        &&& v.state is Closed ==> v.link is Closed && (v.trace.len() == 0 || v.trace.last() is Close)
    }

    /// A connection that waits for its handshake, with `handler` bound to it.
    pub fn new(handler: H) -> (c: Self)
        ensures
            c.wf(),
            c@.state is Connecting,
            c@.link is Open,
            c@.trace == Seq::<Callback>::empty(),
            c@.outbox == Seq::<FrameView>::empty(),
    {
        let c = Connection { state: ConnState::Connecting, handler, sender: Sender::new(), trace: Vec::new() };
        assert(c@.trace =~= Seq::<Callback>::empty());
        c
    }

    /// Where the connection stands.
    pub fn state(&self) -> (r: ConnState)
        ensures
            r == self@.state,
    {
        self.state
    }

    /// The callbacks made so far, in order.
    pub fn callbacks(&self) -> (r: &Vec<Callback>)
        ensures
            r@ == self@.trace,
    {
        &self.trace
    }

    /// The handler bound to this connection.
    pub fn handler(&self) -> &H {
        &self.handler
    }

    /// Hand the outbound frames to the transport, oldest first.
    pub fn take_outgoing(&mut self) -> (r: Vec<Frame>)
        requires
            old(self).wf(),
        ensures
            final(self).wf(),
            crate::sender::frames_view(r@) == old(self)@.outbox,
            final(self)@.outbox == Seq::<FrameView>::empty(),
            final(self)@.state == old(self)@.state,
            final(self)@.link == old(self)@.link,
            final(self)@.trace == old(self)@.trace,
    {
        self.sender.take_outgoing()
    }

    /// Record an `on_error` and make it.
    fn report(&mut self, err: Error)
        requires
            trace_ordered(old(self).trace@),
            old(self).trace@.len() > 0,
            not_closed(old(self).trace@),
        ensures
            final(self).trace@ == old(self).trace@.push(Callback::Error),
            trace_ordered(final(self).trace@),
            not_closed(final(self).trace@),
            final(self).state == old(self).state,
            final(self).sender == old(self).sender,
    {
        self.trace.push(Callback::Error);
        self.handler.on_error(err);
    }

    /// Record the outcome of a callback that may fail, then follow the sender:
    /// open while it is open, closing once it is not. A failed `on_open`
    /// closes the link with `Error`.
    fn settle(&mut self, res: crate::error::Result<()>, close_on_error: bool)
        requires
            trace_ordered(old(self).trace@),
            old(self).trace@.len() > 0,
            not_closed(old(self).trace@),
        ensures
            final(self).wf(),
            settled(final(self)@),
            res is Ok ==> final(self).trace@ == old(self).trace@,
            res is Err ==> final(self).trace@ == old(self).trace@.push(Callback::Error),
            res is Err && close_on_error ==> final(self)@.state is Closing,
    {
        match res {
            Ok(()) => {},
            Err(e) => {
                self.report(e);
                if close_on_error {
                    let _ = self.sender.close(CloseCode::Error);
                }
            },
        }
        if self.sender.state() == LinkState::Open {
            self.state = ConnState::Open;
        } else {
            self.state = ConnState::Closing;
        }
    }

    /// End the connection: the sender goes inert and `on_close` is made, once.
    fn finish(&mut self, code: CloseCode, reason: &str)
        requires
            trace_ordered(old(self).trace@),
            old(self).trace@.len() > 0,
            not_closed(old(self).trace@),
        ensures
            final(self).wf(),
            final(self)@.state is Closed,
            final(self)@.link is Closed,
            final(self)@.trace == old(self)@.trace.push(Callback::Close(code)),
            final(self)@.outbox == old(self)@.outbox,
    {
        self.trace.push(Callback::Close(code));
        self.sender.shut();
        self.state = ConnState::Closed;
        self.handler.on_close(code, reason);
    }

    /// Feed one transport event to the connection, making the handler
    /// callbacks that it calls for.
    pub fn handle(&mut self, ev: Event)
        requires
            old(self).wf(),
        ensures
            final(self).wf(),
            step(old(self)@, ev, final(self)@),
    {
        let ghost o = self@;
        let ghost e = ev;
        match self.state {
            ConnState::Closed => {},
            ConnState::Connecting => match ev {
                Event::Opened => {
                    self.trace.push(Callback::Open);
                    let res = self.handler.on_open(&mut self.sender);
                    self.settle(res, true);
                },
                _ => {
                    self.sender.shut();
                    self.state = ConnState::Closed;
                },
            },
            ConnState::Open | ConnState::Closing => match ev {
                Event::Opened => {},
                Event::Received(m) => {
                    if self.state == ConnState::Open {
                        self.trace.push(Callback::Message);
                        let res = self.handler.on_message(&mut self.sender, m);
                        self.settle(res, false);
                    }
                },
                Event::Malformed(detail) => {
                    if self.state == ConnState::Open {
                        self.sender.push_close(CloseCode::Invalid, String::new());
                    }
                    self.report(Error::ProtocolViolation(detail));
                    self.finish(CloseCode::Invalid, "");
                    assert(self@.trace =~= (o.trace + seq![Callback::Error]).push(
                        Callback::Close(CloseCode::Invalid),
                    ));
                },
                Event::RemoteClose(code, reason) => {
                    let (ours, echo) = match code {
                        Some(c) => (CloseCode::from_code(c), CloseCode::from_code(c)),
                        None => (CloseCode::Status, CloseCode::Empty),
                    };
                    if self.state == ConnState::Open {
                        self.sender.push_close(echo, String::new());
                    }
                    self.finish(ours, reason.as_str());
                    assert(self@.trace =~= (o.trace + Seq::empty()).push(Callback::Close(ours)));
                },
                Event::Dropped => {
                    self.finish(CloseCode::Abnormal, "");
                    assert(self@.trace =~= (o.trace + Seq::empty()).push(
                        Callback::Close(CloseCode::Abnormal),
                    ));
                },
                Event::Failed(detail) => {
                    self.report(Error::Transport(detail));
                    self.finish(CloseCode::Abnormal, "");
                    assert(self@.trace =~= (o.trace + seq![Callback::Error]).push(
                        Callback::Close(CloseCode::Abnormal),
                    ));
                },
            },
        }
    }
}

/// In every run, callbacks come in lifecycle order: `on_open` first, every
/// `on_message` before the end, and once the connection has closed after
/// opening, exactly one `on_close`, as the last callback.
pub proof fn lemma_callback_order<H: Handler>(c: &Connection<H>)
    requires
        c.wf(),
    ensures
        c@.trace.len() > 0 ==> c@.trace[0] is Open,
        forall|i: int| 0 < i < c@.trace.len() ==> !(#[trigger] c@.trace[i] is Open),
        forall|i: int| 0 <= i < c@.trace.len() && #[trigger] c@.trace[i] is Message
            ==> 0 < i && (c@.state is Closed ==> i < c@.trace.len() - 1),
        c@.state is Closed && c@.trace.len() > 0 ==> forall|i: int|
            0 <= i < c@.trace.len() ==> (#[trigger] c@.trace[i] is Close <==> i == c@.trace.len() - 1),
        !(c@.state is Closed) ==> not_closed(c@.trace),
{
}

} // verus!
