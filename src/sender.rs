//! The outbound side of a connection.
use vstd::prelude::*;
use vstd::utf8::encode_utf8;
use crate::close_code::CloseCode;
use crate::error::{Error, Result};
use crate::message::{Message, MessageView};

verus! {

/// The largest close reason, in bytes of UTF-8, that fits in a close frame.
pub const MAX_REASON_BYTES: usize = 123;

/// Where the outbound side of a connection stands.
#[derive(Debug, PartialEq, Eq, Clone, Copy, Structural)]
pub enum LinkState {
    /// Messages may be sent.
    Open,
    /// A close frame has been queued; nothing more may be sent.
    Closing,
    /// The connection is gone.
    Closed,
}

/// One outbound frame, in the order it was issued.
#[derive(Debug)]
pub enum Frame {
    /// An application message.
    Data(Message),
    /// A close frame with its code and reason.
    Close(CloseCode, String),
}

/// What an outbound frame holds.
pub enum FrameView {
    /// An application message.
    Data(MessageView),
    /// A close frame with its code and reason.
    Close(CloseCode, Seq<char>),
}

impl View for Frame {
    type V = FrameView;

    open spec fn view(&self) -> FrameView {
        match self {
            Frame::Data(m) => FrameView::Data(m@),
            Frame::Close(c, r) => FrameView::Close(*c, r@),
        }
    }
}

/// The frames of a queue, as values.
pub open spec fn frames_view(v: Seq<Frame>) -> Seq<FrameView> {
    v.map_values(|f: Frame| f@)
}

/// A handle used to send messages and close requests over one connection.
/// Frames wait in its queue, in the order they were issued, until the
/// transport takes them.
pub struct Sender {
    state: LinkState,
    outbox: Vec<Frame>,
}

/// The state of a sender and the frames it holds.
pub struct SenderView {
    /// Where the outbound side stands.
    pub state: LinkState,
    /// The frames not yet handed to the transport, oldest first.
    pub outbox: Seq<FrameView>,
}

impl View for Sender {
    type V = SenderView;

    closed spec fn view(&self) -> SenderView {
        SenderView { state: self.state, outbox: frames_view(self.outbox@) }
    }
}

/// Whether a close reason fits in a close frame.
pub open spec fn reason_fits(reason: Seq<char>) -> bool {
    encode_utf8(reason).len() <= MAX_REASON_BYTES
}

/// The sender after a message was sent: queued if the link is open, else unchanged.
pub open spec fn after_send(v: SenderView, m: MessageView) -> SenderView {
    if v.state is Open {
        SenderView { state: v.state, outbox: v.outbox.push(FrameView::Data(m)) }
    } else {
        v
    }
}

/// Whether a close request is accepted.
pub open spec fn close_accepted(v: SenderView, reason: Seq<char>) -> bool {
    reason_fits(reason) && v.state is Open
}

/// The sender after a close request: closing, with the close frame queued,
/// if the request is accepted; else unchanged.
pub open spec fn after_close(v: SenderView, code: CloseCode, reason: Seq<char>) -> SenderView {
    if close_accepted(v, reason) {
        SenderView {
            state: LinkState::Closing,
            outbox: v.outbox.push(FrameView::Close(code, reason)),
        }
    } else {
        v
    }
}

impl Sender {
    /// A sender for a link that is open and has nothing queued.
    pub fn new() -> (s: Sender)
        ensures
            s@.state is Open,
            s@.outbox == Seq::<FrameView>::empty(),
    {
        let s = Sender { state: LinkState::Open, outbox: Vec::new() };
        assert(s@.outbox =~= Seq::<FrameView>::empty());
        s
    }

    /// Where the outbound side stands.
    pub fn state(&self) -> (r: LinkState)
        ensures
            r == self@.state,
    {
        self.state
    }

    /// How many frames wait for the transport.
    pub fn pending(&self) -> (r: usize)
        ensures
            r == self@.outbox.len(),
    {
        self.outbox.len()
    }

    /// Send a message over the connection. Fails with `Transport` when the
    /// link is not open.
    pub fn send(&mut self, msg: Message) -> (r: Result<()>)
        ensures
            final(self)@ == after_send(old(self)@, msg@),
            r is Ok <==> old(self)@.state is Open,
            r is Err ==> r->Err_0 is Transport,
    {
        if self.state != LinkState::Open {
            return Err(Error::Transport("the connection is not open".to_owned()));
        }
        let ghost before = self.outbox@;
        let ghost m = msg@;
        self.outbox.push(Frame::Data(msg));
        assert(frames_view(self.outbox@) =~= frames_view(before).push(FrameView::Data(m)));
        Ok(())
    }

    /// Send a close code to the other endpoint.
    pub fn close(&mut self, code: CloseCode) -> (r: Result<()>)
        ensures
            final(self)@ == after_close(old(self)@, code, Seq::<char>::empty()),
            r is Ok <==> old(self)@.state is Open,
            r is Err ==> r->Err_0 is Transport,
    {
        proof {
            reveal_strlit("");
            assert(""@ =~= Seq::<char>::empty());
        }
        self.close_with_reason(code, "")
    }

    /// Send a close code and a descriptive reason. Fails with
    /// `InvalidArgument` when the reason exceeds the close frame's room, and
    /// with `Transport` when the link is not open (a second close included).
    pub fn close_with_reason(&mut self, code: CloseCode, reason: &str) -> (r: Result<()>)
        ensures
            final(self)@ == after_close(old(self)@, code, reason@),
            r is Ok <==> close_accepted(old(self)@, reason@),
            r is Err ==> (r->Err_0 is InvalidArgument <==> !reason_fits(reason@)),
            r is Err ==> (r->Err_0 is Transport <==> reason_fits(reason@)),
    {
        if reason.as_bytes().len() > MAX_REASON_BYTES {
            return Err(Error::InvalidArgument("close reason longer than a close frame allows".to_owned()));
        }
        if self.state != LinkState::Open {
            return Err(Error::Transport("the connection is not open".to_owned()));
        }
        self.push_close(code, reason.to_owned());
        self.state = LinkState::Closing;
        Ok(())
    }

    /// Queue a close frame whatever the state.
    pub(crate) fn push_close(&mut self, code: CloseCode, reason: String)
        ensures
            final(self)@.state == old(self)@.state,
            final(self)@.outbox == old(self)@.outbox.push(FrameView::Close(code, reason@)),
    {
        let ghost before = self.outbox@;
        let ghost r = reason@;
        self.outbox.push(Frame::Close(code, reason));
        assert(frames_view(self.outbox@) =~= frames_view(before).push(FrameView::Close(code, r)));
    }

    /// Mark the link closed: every later send fails.
    pub(crate) fn shut(&mut self)
        ensures
            final(self)@.state is Closed,
            final(self)@.outbox == old(self)@.outbox,
    {
        self.state = LinkState::Closed;
    }

    /// Hand the queued frames over, oldest first, leaving the queue empty.
    pub fn take_outgoing(&mut self) -> (r: Vec<Frame>)
        ensures
            frames_view(r@) == old(self)@.outbox,
            final(self)@.state == old(self)@.state,
            final(self)@.outbox == Seq::<FrameView>::empty(),
    {
        let mut r: Vec<Frame> = Vec::new();
        std::mem::swap(&mut r, &mut self.outbox);
        assert(frames_view(self.outbox@) =~= Seq::<FrameView>::empty());
        r
    }
}

/// Sends issued before a close on an open link all go out, in the order
/// issued, ahead of the close frame.
pub proof fn lemma_sends_precede_close(
    v: SenderView,
    m1: MessageView,
    m2: MessageView,
    code: CloseCode,
    reason: Seq<char>,
)
    requires
        v.state is Open,
        reason_fits(reason),
    ensures
        after_close(after_send(after_send(v, m1), m2), code, reason).outbox == v.outbox
            + seq![FrameView::Data(m1), FrameView::Data(m2), FrameView::Close(code, reason)],
        after_close(after_send(after_send(v, m1), m2), code, reason).state is Closing,
{
    assert(after_close(after_send(after_send(v, m1), m2), code, reason).outbox =~= v.outbox
        + seq![FrameView::Data(m1), FrameView::Data(m2), FrameView::Close(code, reason)]);
}

/// Once a link stops being open, sends and further close requests change nothing.
pub proof fn lemma_closed_link_is_inert(v: SenderView, m: MessageView, code: CloseCode, reason: Seq<char>)
    requires
        !(v.state is Open),
    ensures
        after_send(v, m) == v,
        after_close(v, code, reason) == v,
{
}

/// A second close request is refused and queues no second close frame.
pub proof fn lemma_close_once(v: SenderView, c1: CloseCode, r1: Seq<char>, c2: CloseCode, r2: Seq<char>)
    requires
        close_accepted(v, r1),
    ensures
        !close_accepted(after_close(v, c1, r1), r2),
        after_close(after_close(v, c1, r1), c2, r2) == after_close(v, c1, r1),
{
}

} // verus!
