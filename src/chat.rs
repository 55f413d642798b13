use vstd::prelude::*;
use vstd::string::StringExecFns;

use crate::content::{content_of, transform, Content, ContentView};
use crate::protocol::{
    decode, decode_spec, encode, encode_spec, kind_of, Frame, FrameView, MalformedFrame, MessageData,
    WebSocketMessage, WireView,
};
use crate::store::{record_applied, roster_applied, ChatState, SessionView, UserProfile};

verus! {

/// The glyphs the emoji picker offers, in order.
pub open spec fn emoji_glyphs() -> Seq<Seq<char>> {
    seq![
        "\u{1F600}"@, "\u{1F602}"@, "\u{1F60D}"@, "\u{1F525}"@, "\u{1F44D}"@,
        "\u{2764}\u{FE0F}"@, "\u{1F389}"@, "\u{1F914}"@, "\u{1F44F}"@, "\u{1F64C}"@,
        "\u{1F60E}"@, "\u{1F929}"@, "\u{1F973}"@, "\u{1F60A}"@, "\u{1F917}"@,
    ]
}

/// The glyphs the emoji picker offers.
pub fn emoji_picker() -> (r: Vec<String>)
    ensures
        r.deep_view() == emoji_glyphs(),
{
    let r = vec![
        String::from_str("\u{1F600}"), String::from_str("\u{1F602}"),
        String::from_str("\u{1F60D}"), String::from_str("\u{1F525}"),
        String::from_str("\u{1F44D}"), String::from_str("\u{2764}\u{FE0F}"),
        String::from_str("\u{1F389}"), String::from_str("\u{1F914}"),
        String::from_str("\u{1F44F}"), String::from_str("\u{1F64C}"),
        String::from_str("\u{1F60E}"), String::from_str("\u{1F929}"),
        String::from_str("\u{1F973}"), String::from_str("\u{1F60A}"),
        String::from_str("\u{1F917}"),
    ];
    assert(r.deep_view() =~= emoji_glyphs());
    r
}

/// What the controller is told.
#[derive(Debug, Clone, PartialEq, Eq)]
pub enum Msg {
    /// An inbound envelope.
    HandleMsg(WebSocketMessage),
    /// The inner record of an inbound chat message, once read.
    HandleRecord(MessageData),
    /// The user edited the input field; it now holds this text.
    EditInput(String),
    /// The user submits the input field.
    SubmitMessage,
    /// The user picked a glyph in the emoji picker.
    AddEmoji(String),
    /// The user opened or closed the emoji picker.
    ToggleEmojiPicker,
}

/// The mathematical value of a `Msg`.
pub enum MsgView {
    HandleMsg(WireView),
    HandleRecord((Seq<char>, Seq<char>)),
    EditInput(Seq<char>),
    SubmitMessage,
    AddEmoji(Seq<char>),
    ToggleEmojiPicker,
}

impl Msg {
    pub open spec fn view(&self) -> MsgView {
        match self {
            Msg::HandleMsg(w) => MsgView::HandleMsg(w.view()),
            Msg::HandleRecord(m) => MsgView::HandleRecord(m.view()),
            Msg::EditInput(s) => MsgView::EditInput(s@),
            Msg::SubmitMessage => MsgView::SubmitMessage,
            Msg::AddEmoji(g) => MsgView::AddEmoji(g@),
            Msg::ToggleEmojiPicker => MsgView::ToggleEmojiPicker,
        }
    }
}

/// What the host has to do after a message.
#[derive(Debug, Clone, PartialEq, Eq)]
pub struct Reaction {
    /// The view-state changed and should be drawn again.
    pub render: bool,
    /// A chat message to send: the host writes this record as text and hands
    /// the envelope of `Frame::Message` of that text to the transport.
    pub submit: Option<MessageData>,
    /// A chat message's payload, to be read as an inner record and handed
    /// back as `Msg::HandleRecord`.
    pub read_record: Option<String>,
    /// An inbound envelope that did not decode; the state is unchanged.
    pub error: Option<MalformedFrame>,
}

/// The mathematical value of a `Reaction`.
pub struct ReactionView {
    pub render: bool,
    pub submit: Option<(Seq<char>, Seq<char>)>,
    pub read_record: Option<Seq<char>>,
    pub error: Option<MalformedFrame>,
}

impl Reaction {
    pub open spec fn view(&self) -> ReactionView {
        ReactionView {
            render: self.render,
            submit: match self.submit {
                Some(m) => Some(m.view()),
                None => None,
            },
            read_record: match self.read_record {
                Some(d) => Some(d@),
                None => None,
            },
            error: self.error,
        }
    }
}

/// The mathematical value of the controller.
pub struct ChatView {
    pub user: Seq<char>,
    pub session: SessionView,
    pub input: Seq<char>,
    pub show_emoji_picker: bool,
}

/// A reaction that asks nothing of the host.
pub open spec fn quiet(render: bool) -> ReactionView {
    ReactionView { render, submit: None, read_record: None, error: None }
}

/// How the controller moves on one message, and what it asks of the host.
pub open spec fn step(c: ChatView, m: MsgView) -> (ChatView, ReactionView) {
    match m {
        MsgView::HandleMsg(w) => match decode_spec(w) {
            Ok(FrameView::Users(ids)) => (
                ChatView { session: roster_applied(c.session, ids), ..c },
                quiet(true),
            ),
            Ok(FrameView::Message(d)) => (
                c,
                ReactionView { render: false, submit: None, read_record: Some(d), error: None },
            ),
            Ok(_) => (c, quiet(false)),
            Err(e) => (
                c,
                ReactionView { render: false, submit: None, read_record: None, error: Some(e) },
            ),
        },
        MsgView::HandleRecord(r) => (
            ChatView { session: record_applied(c.session, r), ..c },
            quiet(true),
        ),
        MsgView::EditInput(s) => (ChatView { input: s, ..c }, quiet(false)),
        MsgView::SubmitMessage => (
            ChatView { input: Seq::empty(), show_emoji_picker: false, ..c },
            ReactionView {
                render: false,
                submit: Some((c.user, c.input)),
                read_record: None,
                error: None,
            },
        ),
        MsgView::AddEmoji(g) => (
            ChatView { input: c.input + g, show_emoji_picker: false, ..c },
            quiet(true),
        ),
        MsgView::ToggleEmojiPicker => (
            ChatView { show_emoji_picker: !c.show_emoji_picker, ..c },
            quiet(true),
        ),
    }
}

/// An envelope of a kind this client does not know changes nothing and asks
/// nothing of the host.
pub proof fn lemma_unknown_kind_ignored(c: ChatView, w: WireView)
    requires
        kind_of(w.message_type) is None,
    ensures
        step(c, MsgView::HandleMsg(w)) == (c, quiet(false)),
{
}

/// One chat message as the presentation layer draws it.
#[derive(Debug, Clone, PartialEq, Eq)]
pub struct MessageView {
    pub sender: UserProfile,
    pub content: Content,
}

/// The controller of one chat session.
pub struct Chat {
    user: String,
    state: ChatState,
    input: String,
    show_emoji_picker: bool,
}

impl Chat {
    /// The mathematical value of the controller.
    pub closed spec fn model(&self) -> ChatView {
        ChatView { user: self.user@, session: self.state@, input: self.input@, show_emoji_picker: self.show_emoji_picker }
    }

    pub closed spec fn wf(&self) -> bool {
        self.state.wf()
    }

    /// Starts a session for `user`: empty roster and history, empty input,
    /// picker closed, and the registration envelope to send.
    pub fn create(user: &str) -> (r: (Chat, WebSocketMessage))
        ensures
            r.0.wf(),
            r.0.model().user == user@,
            r.0.model().session.roster == Seq::<Seq<char>>::empty(),
            r.0.model().session.history == Seq::<(Seq<char>, Seq<char>)>::empty(),
            r.0.model().input == Seq::<char>::empty(),
            !r.0.model().show_emoji_picker,
            r.1.view() == encode_spec(FrameView::Register(user@)),
    {
        let register = encode(Frame::Register(String::from_str(user)));
        let chat = Chat {
            user: String::from_str(user),
            state: ChatState::new(),
            input: String::new(),
            show_emoji_picker: false,
        };
        (chat, register)
    }

    /// Handles one message; see `step`.
    pub fn update(&mut self, msg: Msg) -> (r: Reaction)
        requires
            old(self).wf(),
        ensures
            final(self).wf(),
            (final(self).model(), r.view()) == step(old(self).model(), msg.view()),
    {
        match msg {
            Msg::HandleMsg(w) => match decode(w) {
                Ok(Frame::Users(ids)) => {
                    self.state.replace_roster(&ids);
                    Reaction { render: true, submit: None, read_record: None, error: None }
                },
                Ok(Frame::Message(d)) => {
                    Reaction { render: false, submit: None, read_record: Some(d), error: None }
                },
                Ok(_) => Reaction { render: false, submit: None, read_record: None, error: None },
                Err(e) => Reaction { render: false, submit: None, read_record: None, error: Some(e) },
            },
            Msg::HandleRecord(m) => {
                self.state.push_message(m);
                Reaction { render: true, submit: None, read_record: None, error: None }
            },
            Msg::EditInput(s) => {
                self.input = s;
                Reaction { render: false, submit: None, read_record: None, error: None }
            },
            Msg::SubmitMessage => {
                let record = MessageData { from: self.user.clone(), message: self.input.clone() };
                self.input = String::new();
                self.show_emoji_picker = false;
                Reaction { render: false, submit: Some(record), read_record: None, error: None }
            },
            Msg::AddEmoji(g) => {
                self.input.append(g.as_str());
                self.show_emoji_picker = false;
                Reaction { render: true, submit: None, read_record: None, error: None }
            },
            Msg::ToggleEmojiPicker => {
                self.show_emoji_picker = !self.show_emoji_picker;
                Reaction { render: true, submit: None, read_record: None, error: None }
            },
        }
    }

    /// The history as drawn: each message with its sender's roster entry (made
    /// on the spot for a sender not on the roster) and its rendered content.
    pub fn view(&self) -> (r: Vec<MessageView>)
        requires
            self.wf(),
        ensures
            r@.len() == self.model().session.history.len(),
            forall|i: int| 0 <= i < r@.len() ==> {
                &&& (#[trigger] r@[i]).sender.name@ == self.model().session.history[i].0
                &&& r@[i].sender.wf()
                &&& r@[i].content.view() == content_of(self.model().session.history[i].1)
            },
    {
        let messages = self.state.messages();
        let mut out: Vec<MessageView> = Vec::new();
        let mut i: usize = 0;
        while i < messages.len()
            invariant
                self.wf(),
                messages@.map_values(|m: MessageData| m.view()) == self.model().session.history,
                i <= messages@.len(),
                out@.len() == i,
                forall|j: int| 0 <= j < i ==> {
                    &&& (#[trigger] out@[j]).sender.name@ == self.model().session.history[j].0
                    &&& out@[j].sender.wf()
                    &&& out@[j].content.view() == content_of(self.model().session.history[j].1)
                },
            decreases messages@.len() - i,
        {
            let m = &messages[i];
            assert(m.view() == self.model().session.history[i as int]);
            let sender = self.state.resolve_sender(m.from.as_str());
            let content = transform(m.message.as_str());
            out.push(MessageView { sender, content });
            i = i + 1;
        }
        out
    }

    /// The session's roster and history.
    pub fn state(&self) -> (r: &ChatState)
        ensures
            r@ == self.model().session,
            r.wf() == self.wf(),
    {
        &self.state
    }

    /// The identifier of the local user.
    pub fn user(&self) -> (r: &String)
        ensures
            r@ == self.model().user,
    {
        &self.user
    }

    /// The input field's content.
    pub fn input(&self) -> (r: &String)
        ensures
            r@ == self.model().input,
    {
        &self.input
    }

    /// Whether the emoji picker is open.
    pub fn show_emoji_picker(&self) -> (r: bool)
        ensures
            r == self.model().show_emoji_picker,
    {
        self.show_emoji_picker
    }
}

} // verus!
