//! WebSocket application messages.
use vstd::prelude::*;

verus! {

/// An enum representing the various forms of a WebSocket message.
#[derive(Debug)]
pub enum Message {
    /// A text WebSocket message
    Text(String),
    /// A binary WebSocket message
    Binary(Vec<u8>),
}

/// What a message holds: its kind and its payload.
pub enum MessageView {
    /// Text, as characters.
    Text(Seq<char>),
    /// Binary data, as bytes.
    Binary(Seq<u8>),
}

impl View for Message {
    type V = MessageView;

    open spec fn view(&self) -> MessageView {
        match self {
            Message::Text(s) => MessageView::Text(s@),
            Message::Binary(b) => MessageView::Binary(b@),
        }
    }
}

impl Message {
    /// Create a new text WebSocket message.
    pub fn text(string: String) -> (r: Message)
        ensures
            r == Message::Text(string),
            r@ == MessageView::Text(string@),
    {
        Message::Text(string)
    }

    /// Create a new binary WebSocket message.
    pub fn binary(bin: Vec<u8>) -> (r: Message)
        ensures
            r == Message::Binary(bin),
            r@ == MessageView::Binary(bin@),
    {
        Message::Binary(bin)
    }

    /// The text of a text message, or `None` for a binary one.
    pub fn as_text(&self) -> (r: Option<&str>)
        ensures
            match self@ {
                MessageView::Text(s) => r.is_some() && r.unwrap()@ == s,
                MessageView::Binary(_) => r.is_none(),
            },
    {
        match self {
            Message::Text(s) => Some(s.as_str()),
            Message::Binary(_) => None,
        }
    }

    /// The bytes of a binary message, or `None` for a text one.
    pub fn as_binary(&self) -> (r: Option<&[u8]>)
        ensures
            match self@ {
                MessageView::Binary(b) => r.is_some() && r.unwrap()@ == b,
                MessageView::Text(_) => r.is_none(),
            },
    {
        match self {
            Message::Binary(b) => Some(b.as_slice()),
            Message::Text(_) => None,
        }
    }
}

impl From<String> for Message {
    fn from(string: String) -> (r: Message)
        ensures
            r@ == MessageView::Text(string@),
    {
        Message::text(string)
    }
}

impl vstd::std_specs::convert::FromSpecImpl<String> for Message {
    open spec fn obeys_from_spec() -> bool {
        true
    }

    open spec fn from_spec(v: String) -> Message {
        Message::Text(v)
    }
}

impl<'a> From<&'a str> for Message {
    fn from(string: &'a str) -> (r: Message)
        ensures
            r@ == MessageView::Text(string@),
    {
        Message::text(string.to_owned())
    }
}

impl<'a> vstd::std_specs::convert::FromSpecImpl<&'a str> for Message {
    open spec fn obeys_from_spec() -> bool {
        false
    }

    open spec fn from_spec(v: &'a str) -> Message {
        vstd::pervasive::arbitrary()
    }
}

impl<'a> From<&'a [u8]> for Message {
    fn from(data: &'a [u8]) -> (r: Message)
        ensures
            r@ == MessageView::Binary(data@),
    {
        Message::binary(copy_bytes(data))
    }
}

/// A fresh vector holding the bytes of a slice.
fn copy_bytes(data: &[u8]) -> (r: Vec<u8>)
    ensures
        r@ == data@,
{
    let mut r: Vec<u8> = Vec::with_capacity(data.len());
    let mut i: usize = 0;
    while i < data.len()
        invariant
            i <= data@.len(),
            r@ == data@.subrange(0, i as int),
        decreases data@.len() - i,
    {
        r.push(data[i]);
        i = i + 1;
    }
    assert(r@ =~= data@);
    r
}

impl<'a> vstd::std_specs::convert::FromSpecImpl<&'a [u8]> for Message {
    open spec fn obeys_from_spec() -> bool {
        false
    }

    open spec fn from_spec(v: &'a [u8]) -> Message {
        vstd::pervasive::arbitrary()
    }
}

impl From<Vec<u8>> for Message {
    fn from(data: Vec<u8>) -> (r: Message)
        ensures
            r@ == MessageView::Binary(data@),
    {
        Message::binary(data)
    }
}

impl vstd::std_specs::convert::FromSpecImpl<Vec<u8>> for Message {
    open spec fn obeys_from_spec() -> bool {
        true
    }

    open spec fn from_spec(v: Vec<u8>) -> Message {
        Message::Binary(v)
    }
}

/// A text message gives back exactly the string it was made from.
pub proof fn lemma_text_round_trip(s: Seq<char>, m: Message)
    requires
        m@ == MessageView::Text(s),
    ensures
        m is Text,
        m->Text_0@ == s,
{
}

/// A binary message gives back exactly the bytes it was made from.
pub proof fn lemma_binary_round_trip(b: Seq<u8>, m: Message)
    requires
        m@ == MessageView::Binary(b),
    ensures
        m is Binary,
        m->Binary_0@ == b,
{
}

} // verus!
