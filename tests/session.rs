use serde_json::Value;
use yewchat::chat::{emoji_picker, Chat, Msg};
use yewchat::content::Content;
use yewchat::protocol::{MalformedFrame, MessageData, WebSocketMessage};
use yewchat::store::ChatState;

fn ids(v: &[&str]) -> Vec<String> {
    v.iter().map(|s| s.to_string()).collect()
}

fn names(s: &ChatState) -> Vec<String> {
    s.users().iter().map(|u| u.name.clone()).collect()
}

fn record(from: &str, message: &str) -> MessageData {
    MessageData { from: from.to_string(), message: message.to_string() }
}

/// Reads a wire text into an envelope, as a host would.
fn parse_envelope(text: &str) -> WebSocketMessage {
    let v: Value = serde_json::from_str(text).unwrap();
    WebSocketMessage {
        message_type: v["messageType"].as_str().unwrap().to_string(),
        data_array: v
            .get("dataArray")
            .and_then(|a| a.as_array())
            .map(|a| a.iter().map(|s| s.as_str().unwrap().to_string()).collect()),
        data: v.get("data").and_then(|d| d.as_str()).map(|d| d.to_string()),
    }
}

#[test]
fn snapshot_keeps_given_order() {
    let mut s = ChatState::new();
    s.replace_roster(&ids(&["a", "b", "c"]));
    assert_eq!(names(&s), ids(&["a", "b", "c"]));
    s.replace_roster(&ids(&["c", "b", "a"]));
    assert_eq!(names(&s), ids(&["c", "b", "a"]));
}

#[test]
fn snapshot_twice_equals_once() {
    let mut once = ChatState::new();
    once.replace_roster(&ids(&["x", "y"]));
    let mut twice = ChatState::new();
    twice.replace_roster(&ids(&["x", "y"]));
    twice.replace_roster(&ids(&["x", "y"]));
    assert_eq!(once.users(), twice.users());
}

#[test]
fn snapshot_keeps_duplicates_and_sets_avatars() {
    let mut s = ChatState::new();
    s.replace_roster(&ids(&["bob", "bob"]));
    assert_eq!(s.users().len(), 2);
    for u in s.users() {
        assert_eq!(u.avatar, "https://avatars.dicebear.com/api/adventurer-neutral/bob.svg");
    }
    s.replace_roster(&ids(&[]));
    assert!(s.users().is_empty());
}

#[test]
fn history_is_append_only() {
    let mut s = ChatState::new();
    s.replace_roster(&ids(&["a"]));
    for i in 0..5 {
        s.push_message(record("a", &format!("m{}", i)));
    }
    assert_eq!(s.messages().len(), 5);
    for (i, m) in s.messages().iter().enumerate() {
        assert_eq!(m.message, format!("m{}", i));
    }
    s.replace_roster(&ids(&[]));
    assert_eq!(s.messages().len(), 5);
}

#[test]
fn unknown_sender_is_synthesized() {
    let s = ChatState::new();
    let u = s.resolve_sender("ghost");
    assert_eq!(u.name, "ghost");
    assert_eq!(u.avatar, "https://avatars.dicebear.com/api/adventurer-neutral/ghost.svg");
    assert_eq!(s.resolve_sender("ghost"), u);
    assert!(s.users().is_empty());
}

#[test]
fn known_sender_comes_from_roster() {
    let mut s = ChatState::new();
    s.replace_roster(&ids(&["alice", "bob"]));
    let u = s.resolve_sender("bob");
    assert_eq!(u, s.users()[1]);
}

#[test]
fn bogus_frame_changes_nothing() {
    let (mut chat, _) = Chat::create("alice");
    let r = chat.update(Msg::HandleMsg(parse_envelope("{\"messageType\":\"bogus\"}")));
    assert!(!r.render);
    assert_eq!(r.submit, None);
    assert_eq!(r.read_record, None);
    assert_eq!(r.error, None);
    assert!(chat.state().users().is_empty());
    assert!(chat.state().messages().is_empty());
}

#[test]
fn malformed_frame_is_reported() {
    let (mut chat, _) = Chat::create("alice");
    chat.update(Msg::HandleMsg(parse_envelope("{\"messageType\":\"users\",\"dataArray\":[\"a\"],\"data\":null}")));
    let r = chat.update(Msg::HandleMsg(parse_envelope("{\"messageType\":\"users\",\"dataArray\":null,\"data\":\"a\"}")));
    assert_eq!(r.error, Some(MalformedFrame::MissingDataArray));
    assert!(!r.render);
    assert_eq!(names(chat.state()), ids(&["a"]));
}

#[test]
fn end_to_end_session() {
    let (mut chat, register) = Chat::create("alice");
    assert_eq!(chat.user(), "alice");
    let expected = parse_envelope("{\"messageType\":\"register\",\"data\":\"alice\",\"dataArray\":null}");
    assert_eq!(register, expected);

    let r = chat.update(Msg::HandleMsg(parse_envelope(
        "{\"messageType\":\"users\",\"dataArray\":[\"alice\",\"bob\"],\"data\":null}",
    )));
    assert!(r.render);
    assert_eq!(names(chat.state()), ids(&["alice", "bob"]));

    let r = chat.update(Msg::HandleMsg(parse_envelope(
        "{\"messageType\":\"message\",\"data\":\"{\\\"from\\\":\\\"bob\\\",\\\"message\\\":\\\"hi :hati:\\\"}\",\"dataArray\":null}",
    )));
    assert!(!r.render);
    let inner: Value = serde_json::from_str(&r.read_record.unwrap()).unwrap();
    let rec = record(inner["from"].as_str().unwrap(), inner["message"].as_str().unwrap());
    let r = chat.update(Msg::HandleRecord(rec));
    assert!(r.render);
    assert_eq!(chat.state().messages(), &vec![record("bob", "hi :hati:")]);

    let view = chat.view();
    assert_eq!(view.len(), 1);
    assert_eq!(view[0].sender, chat.state().users()[1]);
    assert_eq!(view[0].content, Content::Text("hi \u{2764}\u{FE0F}".to_string()));
}

#[test]
fn view_synthesizes_missing_sender() {
    let (mut chat, _) = Chat::create("alice");
    chat.update(Msg::HandleRecord(record("carol", "cat.gif")));
    let view = chat.view();
    assert_eq!(view[0].sender.name, "carol");
    assert_eq!(view[0].sender.avatar, "https://avatars.dicebear.com/api/adventurer-neutral/carol.svg");
    assert_eq!(view[0].content, Content::Image("cat.gif".to_string()));
    assert!(chat.state().users().is_empty());
}

#[test]
fn submit_sends_and_clears_without_echo() {
    let (mut chat, _) = Chat::create("alice");
    chat.update(Msg::ToggleEmojiPicker);
    chat.update(Msg::EditInput("halo ".to_string()));
    let r = chat.update(Msg::SubmitMessage);
    assert_eq!(r.submit, Some(record("alice", "halo ")));
    assert!(!r.render);
    assert_eq!(chat.input(), "");
    assert!(!chat.show_emoji_picker());
    assert!(chat.state().messages().is_empty());
}

#[test]
fn picked_emoji_is_appended_and_closes_picker() {
    let (mut chat, _) = Chat::create("alice");
    chat.update(Msg::EditInput("hai".to_string()));
    let r = chat.update(Msg::ToggleEmojiPicker);
    assert!(r.render);
    assert!(chat.show_emoji_picker());
    let r = chat.update(Msg::AddEmoji("\u{1F600}".to_string()));
    assert!(r.render);
    assert_eq!(chat.input(), "hai\u{1F600}");
    assert!(!chat.show_emoji_picker());
}

#[test]
fn toggle_flips_the_picker() {
    let (mut chat, _) = Chat::create("alice");
    assert!(!chat.show_emoji_picker());
    chat.update(Msg::ToggleEmojiPicker);
    assert!(chat.show_emoji_picker());
    chat.update(Msg::ToggleEmojiPicker);
    assert!(!chat.show_emoji_picker());
}

#[test]
fn register_frame_is_ignored_inbound() {
    let (mut chat, _) = Chat::create("alice");
    let r = chat.update(Msg::HandleMsg(parse_envelope("{\"messageType\":\"register\",\"data\":\"bob\",\"dataArray\":null}")));
    assert!(!r.render);
    assert_eq!(r.error, None);
    assert!(chat.state().users().is_empty());
}

#[test]
fn picker_offers_fifteen_glyphs() {
    let e = emoji_picker();
    assert_eq!(e.len(), 15);
    assert_eq!(e[0], "\u{1F600}");
    assert_eq!(e[5], "\u{2764}\u{FE0F}");
    assert_eq!(e[14], "\u{1F917}");
}
