use vstd::prelude::*;
use vstd::string::StringExecFns;

verus! {

/// The kinds of frame this client understands.
#[derive(Debug, Clone, Copy, PartialEq, Eq, Structural)]
pub enum MsgTypes {
    Users,
    Register,
    Message,
}

/// The discriminant that stands on the wire for a kind.
pub open spec fn tag_of(t: MsgTypes) -> Seq<char> {
    match t {
        MsgTypes::Users => "users"@,
        MsgTypes::Register => "register"@,
        MsgTypes::Message => "message"@,
    }
}

/// The kind that a discriminant names, if it names one.
pub open spec fn kind_of(tag: Seq<char>) -> Option<MsgTypes> {
    if tag == "users"@ {
        Some(MsgTypes::Users)
    } else if tag == "register"@ {
        Some(MsgTypes::Register)
    } else if tag == "message"@ {
        Some(MsgTypes::Message)
    } else {
        None
    }
}

impl MsgTypes {
    /// The wire discriminant of this kind.
    pub fn tag(&self) -> (r: String)
        ensures
            r@ == tag_of(*self),
    {
        match self {
            MsgTypes::Users => String::from_str("users"),
            MsgTypes::Register => String::from_str("register"),
            MsgTypes::Message => String::from_str("message"),
        }
    }

    /// The kind named by a wire discriminant; `None` for one this client does not know.
    pub fn from_tag(tag: &str) -> (r: Option<MsgTypes>)
        ensures
            r == kind_of(tag@),
    {
        let t = String::from_str(tag);
        if t == String::from_str("users") {
            Some(MsgTypes::Users)
        } else if t == String::from_str("register") {
            Some(MsgTypes::Register)
        } else if t == String::from_str("message") {
            Some(MsgTypes::Message)
        } else {
            None
        }
    }
}

/// The wire envelope: a discriminant and two optional payload fields.
#[derive(Debug, Clone, PartialEq, Eq)]
pub struct WebSocketMessage {
    pub message_type: String,
    pub data_array: Option<Vec<String>>,
    pub data: Option<String>,
}

/// The mathematical value of an envelope.
pub struct WireView {
    pub message_type: Seq<char>,
    pub data_array: Option<Seq<Seq<char>>>,
    pub data: Option<Seq<char>>,
}

pub open spec fn opt_str_view(o: Option<String>) -> Option<Seq<char>> {
    match o {
        Some(s) => Some(s@),
        None => None,
    }
}

pub open spec fn opt_vec_view(o: Option<Vec<String>>) -> Option<Seq<Seq<char>>> {
    match o {
        Some(v) => Some(v.deep_view()),
        None => None,
    }
}

impl WebSocketMessage {
    pub open spec fn view(&self) -> WireView {
        WireView {
            message_type: self.message_type@,
            data_array: opt_vec_view(self.data_array),
            data: opt_str_view(self.data),
        }
    }
}

/// One decoded frame.
#[derive(Debug, Clone, PartialEq, Eq)]
pub enum Frame {
    /// A user announces itself under an identifier.
    Register(String),
    /// The full roster, in order; it replaces the previous one.
    Users(Vec<String>),
    /// A chat message; the payload is the encoded inner record.
    Message(String),
    /// A frame of a kind this client does not know, kept with its discriminant.
    Ignored(String),
}

/// The mathematical value of a frame.
pub enum FrameView {
    Register(Seq<char>),
    Users(Seq<Seq<char>>),
    Message(Seq<char>),
    Ignored(Seq<char>),
}

impl Frame {
    pub open spec fn view(&self) -> FrameView {
        match self {
            Frame::Register(s) => FrameView::Register(s@),
            Frame::Users(v) => FrameView::Users(v.deep_view()),
            Frame::Message(s) => FrameView::Message(s@),
            Frame::Ignored(t) => FrameView::Ignored(t@),
        }
    }
}

/// A frame can be sent when an ignored one carries a discriminant of no known kind.
pub open spec fn frame_valid(f: FrameView) -> bool {
    match f {
        FrameView::Ignored(t) => kind_of(t) is None,
        _ => true,
    }
}

/// Why an envelope does not decode.
#[derive(Debug, Clone, Copy, PartialEq, Eq, Structural)]
pub enum MalformedFrame {
    /// A `register` or `message` envelope without its `data` string.
    MissingData,
    /// A `users` envelope without its `dataArray` sequence.
    MissingDataArray,
}

/// The envelope that stands on the wire for a frame.
pub open spec fn encode_spec(f: FrameView) -> WireView {
    match f {
        FrameView::Register(u) => WireView {
            message_type: tag_of(MsgTypes::Register),
            data_array: None,
            data: Some(u),
        },
        FrameView::Users(a) => WireView {
            message_type: tag_of(MsgTypes::Users),
            data_array: Some(a),
            data: None,
        },
        FrameView::Message(d) => WireView {
            message_type: tag_of(MsgTypes::Message),
            data_array: None,
            data: Some(d),
        },
        FrameView::Ignored(t) => WireView { message_type: t, data_array: None, data: None },
    }
}

/// The frame an envelope holds: unknown kinds are ignored, a known kind needs
/// its payload field.
pub open spec fn decode_spec(w: WireView) -> Result<FrameView, MalformedFrame> {
    match kind_of(w.message_type) {
        Some(MsgTypes::Users) => match w.data_array {
            Some(a) => Ok(FrameView::Users(a)),
            None => Err(MalformedFrame::MissingDataArray),
        },
        Some(MsgTypes::Register) => match w.data {
            Some(d) => Ok(FrameView::Register(d)),
            None => Err(MalformedFrame::MissingData),
        },
        Some(MsgTypes::Message) => match w.data {
            Some(d) => Ok(FrameView::Message(d)),
            None => Err(MalformedFrame::MissingData),
        },
        None => Ok(FrameView::Ignored(w.message_type)),
    }
}

/// Whether a decode result is the given value of the spec.
pub open spec fn decoded_as(r: Result<Frame, MalformedFrame>, s: Result<FrameView, MalformedFrame>) -> bool {
    match r {
        Ok(f) => s == Ok::<FrameView, MalformedFrame>(f.view()),
        Err(e) => s == Err::<FrameView, MalformedFrame>(e),
    }
}

/// Puts a frame into its wire envelope.
pub fn encode(f: Frame) -> (r: WebSocketMessage)
    ensures
        r.view() == encode_spec(f.view()),
{
    match f {
        Frame::Register(u) => WebSocketMessage {
            message_type: MsgTypes::Register.tag(),
            data_array: None,
            data: Some(u),
        },
        Frame::Users(a) => WebSocketMessage {
            message_type: MsgTypes::Users.tag(),
            data_array: Some(a),
            data: None,
        },
        Frame::Message(d) => WebSocketMessage {
            message_type: MsgTypes::Message.tag(),
            data_array: None,
            data: Some(d),
        },
        Frame::Ignored(t) => WebSocketMessage { message_type: t, data_array: None, data: None },
    }
}

/// Reads the frame out of a wire envelope.
pub fn decode(w: WebSocketMessage) -> (r: Result<Frame, MalformedFrame>)
    ensures
        decoded_as(r, decode_spec(w.view())),
{
    match MsgTypes::from_tag(w.message_type.as_str()) {
        Some(MsgTypes::Users) => match w.data_array {
            Some(a) => Ok(Frame::Users(a)),
            None => Err(MalformedFrame::MissingDataArray),
        },
        Some(MsgTypes::Register) => match w.data {
            Some(d) => Ok(Frame::Register(d)),
            None => Err(MalformedFrame::MissingData),
        },
        Some(MsgTypes::Message) => match w.data {
            Some(d) => Ok(Frame::Message(d)),
            None => Err(MalformedFrame::MissingData),
        },
        None => Ok(Frame::Ignored(w.message_type)),
    }
}

/// Decoding the envelope of a valid frame gives the frame back.
pub proof fn lemma_round_trip(f: FrameView)
    requires
        frame_valid(f),
    ensures
        decode_spec(encode_spec(f)) == Ok::<FrameView, MalformedFrame>(f),
{
    match f {
        FrameView::Register(_) => lemma_kind_of_tag(MsgTypes::Register),
        FrameView::Users(_) => lemma_kind_of_tag(MsgTypes::Users),
        FrameView::Message(_) => lemma_kind_of_tag(MsgTypes::Message),
        FrameView::Ignored(_) => {},
    }
}

/// Each kind's discriminant names that kind.
pub proof fn lemma_kind_of_tag(k: MsgTypes)
    ensures
        kind_of(tag_of(k)) == Some(k),
{
    reveal_strlit("users");
    reveal_strlit("register");
    reveal_strlit("message");
    assert("users"@.len() == 5);
    assert("register"@.len() == 8);
    assert("message"@.len() == 7);
}

/// The inner record that a chat message carries.
#[derive(Debug, Clone, PartialEq, Eq)]
pub struct MessageData {
    pub from: String,
    pub message: String,
}

} // verus!
