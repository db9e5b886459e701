use yew_chat::{Chat, InboundEvent, MessageData, Msg, MsgTypes, Theme, WebSocketMessage};

fn users_text(names: &[&str]) -> String {
    let list: Vec<String> = names.iter().map(|n| format!("\"{}\"", n)).collect();
    format!("{{\"messageType\":\"users\",\"dataArray\":[{}],\"data\":null}}", list.join(","))
}

fn message_text(from: &str, body: &str) -> String {
    let inner = format!("{{\"from\":\"{}\",\"message\":\"{}\",\"reactions\":[]}}", from, body);
    let data = serde_json::to_string(&inner).unwrap();
    format!("{{\"messageType\":\"message\",\"dataArray\":null,\"data\":{}}}", data)
}

fn reaction_text(index: u64, emoji: &str, from: &str) -> String {
    let inner = format!("{{\"messageIndex\":{},\"emoji\":\"{}\",\"from\":\"{}\"}}", index, emoji, from);
    let data = serde_json::to_string(&inner).unwrap();
    format!("{{\"messageType\":\"reaction\",\"dataArray\":null,\"data\":{}}}", data)
}

fn reactions_of(chat: &Chat, i: usize) -> Vec<(String, String)> {
    chat.messages[i].reactions.clone()
}

fn pair(u: &str, e: &str) -> (String, String) {
    (u.to_string(), e.to_string())
}

#[test]
fn message_then_reaction_then_clear() {
    let mut chat = Chat::new();
    assert!(chat.messages.is_empty());
    assert!(chat.handle_msg(&message_text("bob", "hi")));
    assert_eq!(chat.messages.len(), 1);
    assert_eq!(chat.messages[0].from, "bob");
    assert_eq!(chat.messages[0].message, "hi");
    assert!(chat.messages[0].reactions.is_empty());
    assert!(chat.handle_msg(&reaction_text(0, "❤️", "alice")));
    assert_eq!(reactions_of(&chat, 0), vec![pair("alice", "❤️")]);
    assert!(chat.handle_msg(&reaction_text(0, "", "alice")));
    assert!(reactions_of(&chat, 0).is_empty());
}

#[test]
fn roster_is_replaced_not_merged() {
    let mut chat = Chat::new();
    assert!(chat.handle_msg(&users_text(&["a", "b"])));
    assert_eq!(chat.users.len(), 2);
    assert!(chat.handle_msg(&users_text(&["c"])));
    assert_eq!(chat.users.len(), 1);
    assert_eq!(chat.users[0].name, "c");
    assert_eq!(
        chat.users[0].avatar,
        "https://avatars.dicebear.com/api/adventurer-neutral/c.svg"
    );
}

#[test]
fn empty_roster_snapshot() {
    let mut chat = Chat::new();
    assert!(chat.handle_msg(&users_text(&["a"])));
    assert!(chat.handle_msg(&users_text(&[])));
    assert!(chat.users.is_empty());
}

#[test]
fn reaction_out_of_range_changes_nothing() {
    let mut chat = Chat::new();
    assert!(chat.handle_msg(&message_text("bob", "hi")));
    assert!(chat.handle_msg(&reaction_text(1, "👍", "alice")));
    assert!(chat.handle_msg(&reaction_text(u64::MAX, "👍", "alice")));
    assert_eq!(chat.messages.len(), 1);
    assert!(chat.messages[0].reactions.is_empty());
    let mut empty = Chat::new();
    assert!(empty.handle_msg(&reaction_text(0, "👍", "alice")));
    assert!(empty.messages.is_empty());
}

#[test]
fn one_reaction_per_user() {
    let mut chat = Chat::new();
    chat.handle_msg(&message_text("bob", "hi"));
    chat.handle_msg(&reaction_text(0, "👍", "alice"));
    chat.handle_msg(&reaction_text(0, "😂", "carol"));
    chat.handle_msg(&reaction_text(0, "❤️", "alice"));
    chat.handle_msg(&reaction_text(0, "❤️", "alice"));
    assert_eq!(reactions_of(&chat, 0), vec![pair("carol", "😂"), pair("alice", "❤️")]);
}

#[test]
fn toggle_on_then_off() {
    let mut chat = Chat::new();
    let me = "alice".to_string();
    chat.handle_msg(&message_text("bob", "hi"));
    let on = chat.react_to_message(&me, 0, "👍".to_string()).unwrap();
    assert_eq!(on.message_type, MsgTypes::Reaction);
    assert_eq!(on.data.as_deref(), Some("[0,\"👍\"]"));
    chat.handle_msg(&reaction_text(0, "👍", "alice"));
    let off = chat.react_to_message(&me, 0, "👍".to_string()).unwrap();
    assert_eq!(off.data.as_deref(), Some("[0,\"\"]"));
    chat.handle_msg(&reaction_text(0, "", "alice"));
    assert!(reactions_of(&chat, 0).is_empty());
}

#[test]
fn toggle_replaces_other_emoji() {
    let mut chat = Chat::new();
    let me = "alice".to_string();
    chat.handle_msg(&message_text("bob", "hi"));
    chat.handle_msg(&message_text("bob", "again"));
    chat.handle_msg(&reaction_text(1, "👍", "alice"));
    let w = chat.react_to_message(&me, 1, "😂".to_string()).unwrap();
    assert_eq!(w.data.as_deref(), Some("[1,\"😂\"]"));
    assert!(w.data_array.is_none());
    assert!(chat.react_to_message(&me, 2, "😂".to_string()).is_none());
    assert_eq!(reactions_of(&chat, 1), vec![pair("alice", "👍")]);
}

#[test]
fn outbound_reaction_wire_text() {
    let w = WebSocketMessage::reaction(3, "👍");
    assert_eq!(
        w.to_json(),
        "{\"messageType\":\"reaction\",\"dataArray\":null,\"data\":\"[3,\\\"👍\\\"]\"}"
    );
    let big = WebSocketMessage::reaction(1234567, "x");
    assert_eq!(big.data.as_deref(), Some("[1234567,\"x\"]"));
}

#[test]
fn register_wire_text() {
    let w = WebSocketMessage::register("alice".to_string());
    assert_eq!(
        w.to_json(),
        "{\"messageType\":\"register\",\"dataArray\":null,\"data\":\"alice\"}"
    );
}

#[test]
fn envelope_round_trip() {
    let envelopes = vec![
        WebSocketMessage::register("al\"ice".to_string()),
        WebSocketMessage::message("line\nbreak \\ and ünïcode 👍".to_string()),
        WebSocketMessage {
            message_type: MsgTypes::Users,
            data_array: Some(vec!["a".to_string(), "b\"c".to_string()]),
            data: None,
        },
        WebSocketMessage { message_type: MsgTypes::Users, data_array: Some(vec![]), data: None },
        WebSocketMessage::reaction(0, "❤️"),
    ];
    for w in envelopes {
        let text = w.to_json();
        let back = WebSocketMessage::from_json(&text).unwrap();
        assert_eq!(back.message_type, w.message_type);
        assert_eq!(back.data_array, w.data_array);
        assert_eq!(back.data, w.data);
        assert_eq!(back.to_json(), text);
    }
}

#[test]
fn quoting_escapes_payload() {
    let w = WebSocketMessage::message("say \"hi\"".to_string());
    assert_eq!(
        w.to_json(),
        "{\"messageType\":\"message\",\"dataArray\":null,\"data\":\"say \\\"hi\\\"\"}"
    );
}

#[test]
fn decode_spec_examples() {
    let w = WebSocketMessage::from_json(
        "{\"messageType\":\"users\",\"dataArray\":[\"alice\",\"bob\"],\"data\":null}",
    )
    .unwrap();
    assert_eq!(w.message_type, MsgTypes::Users);
    assert_eq!(w.data_array, Some(vec!["alice".to_string(), "bob".to_string()]));
    assert_eq!(w.data, None);
    let r = InboundEvent::from_json(
        "{\"messageType\":\"reaction\",\"dataArray\":null,\"data\":\"{\\\"messageIndex\\\":0,\\\"emoji\\\":\\\"👍\\\",\\\"from\\\":\\\"alice\\\"}\"}",
    )
    .unwrap();
    match r {
        InboundEvent::Reaction { message_index, emoji, from } => {
            assert_eq!(message_index, 0);
            assert_eq!(emoji, "👍");
            assert_eq!(from, "alice");
        }
        _ => panic!("expected a reaction"),
    }
}

#[test]
fn absent_fields_read_as_none() {
    let w = WebSocketMessage::from_json("{\"messageType\":\"register\",\"data\":\"x\"}").unwrap();
    assert_eq!(w.message_type, MsgTypes::Register);
    assert_eq!(w.data_array, None);
    assert_eq!(w.data.as_deref(), Some("x"));
}

#[test]
fn bad_texts_are_dropped() {
    let mut chat = Chat::new();
    chat.handle_msg(&message_text("bob", "hi"));
    let bad = [
        "",
        "not json",
        "[1,2]",
        "{\"messageType\":\"shout\",\"dataArray\":null,\"data\":null}",
        "{\"messageType\":\"Users\",\"dataArray\":[],\"data\":null}",
        "{\"dataArray\":[],\"data\":null}",
        "{\"messageType\":\"users\",\"dataArray\":null,\"data\":null}",
        "{\"messageType\":\"users\",\"dataArray\":[1],\"data\":null}",
        "{\"messageType\":\"message\",\"dataArray\":null,\"data\":null}",
        "{\"messageType\":\"message\",\"dataArray\":null,\"data\":\"{}\"}",
        "{\"messageType\":\"message\",\"dataArray\":null,\"data\":\"nope\"}",
        "{\"messageType\":\"reaction\",\"dataArray\":null,\"data\":\"[0,\\\"x\\\"]\"}",
        "{\"messageType\":\"reaction\",\"dataArray\":null,\"data\":\"{\\\"messageIndex\\\":0,\\\"emoji\\\":\\\"x\\\"}\"}",
        "{\"messageType\":\"reaction\",\"dataArray\":null,\"data\":\"{\\\"messageIndex\\\":-1,\\\"emoji\\\":\\\"x\\\",\\\"from\\\":\\\"a\\\"}\"}",
        "{\"messageType\":\"register\",\"dataArray\":null,\"data\":\"alice\"}",
    ];
    for text in bad.iter() {
        assert!(!chat.handle_msg(text), "accepted {}", text);
    }
    assert_eq!(chat.messages.len(), 1);
    assert!(chat.users.is_empty());
}

#[test]
fn message_payload_reactions_default_and_kept() {
    let m = MessageData::from_json("{\"from\":\"a\",\"message\":\"b\"}").unwrap();
    assert!(m.reactions.is_empty());
    let m = MessageData::from_json(
        "{\"from\":\"a\",\"message\":\"b\",\"reactions\":[[\"c\",\"👍\"]]}",
    )
    .unwrap();
    assert_eq!(m.reactions, vec![pair("c", "👍")]);
    assert!(MessageData::from_json("{\"from\":\"a\",\"message\":\"b\",\"reactions\":null}").is_none());
}

#[test]
fn submit_sends_and_clears() {
    let mut chat = Chat::new();
    assert!(chat.submit_message().is_none());
    chat.input = "hello".to_string();
    let w = chat.submit_message().unwrap();
    assert_eq!(w.message_type, MsgTypes::Message);
    assert_eq!(w.data.as_deref(), Some("hello"));
    assert_eq!(chat.input, "");
    assert!(chat.messages.is_empty());
}

#[test]
fn emoji_picker_and_theme() {
    let mut chat = Chat::new();
    let me = "me".to_string();
    assert_eq!(chat.theme, Theme::Classic);
    assert!(chat.update(&me, Msg::ToggleEmojiPicker).0);
    assert!(chat.emoji_picker_open);
    chat.input = "hi ".to_string();
    let (redraw, out) = chat.update(&me, Msg::AddEmoji("🎉".to_string()));
    assert!(redraw && out.is_none());
    assert_eq!(chat.input, "hi 🎉");
    assert_eq!(chat.selected_emoji.as_deref(), Some("🎉"));
    assert!(!chat.emoji_picker_open);
    let (redraw, out) = chat.update(&me, Msg::SetTheme(Theme::Forest));
    assert!(redraw && out.is_none());
    assert_eq!(chat.theme, Theme::Forest);
    let (redraw, out) = chat.update(&me, Msg::SubmitMessage);
    assert!(!redraw);
    assert_eq!(out.unwrap().data.as_deref(), Some("hi 🎉"));
}

#[test]
fn update_routes_inbound_text() {
    let mut chat = Chat::new();
    let me = "alice".to_string();
    let (redraw, out) = chat.update(&me, Msg::HandleMsg(message_text("bob", "hi")));
    assert!(redraw && out.is_none());
    let (redraw, out) = chat.update(&me, Msg::ReactToMessage(0, "👍".to_string()));
    assert!(!redraw);
    assert_eq!(out.unwrap().data.as_deref(), Some("[0,\"👍\"]"));
    assert!(chat.messages[0].reactions.is_empty());
    let (redraw, _) = chat.update(&me, Msg::HandleMsg("garbage".to_string()));
    assert!(!redraw);
}

#[test]
fn theme_classes() {
    assert_eq!(Theme::Classic.bg_class(), "bg-gray-100");
    assert_eq!(Theme::Midnight.bg_class(), "bg-gray-900");
    assert_eq!(Theme::Sky.bg_class(), "bg-blue-100");
    assert_eq!(Theme::Forest.bg_class(), "bg-green-100");
    assert_eq!(Theme::Classic.msg_class(), "bg-white text-gray-800");
    assert_eq!(Theme::Midnight.msg_class(), "bg-gray-800 text-gray-100");
    assert_eq!(Theme::Sky.msg_class(), "bg-blue-50 text-blue-900");
    assert_eq!(Theme::Forest.msg_class(), "bg-green-50 text-green-900");
}

#[test]
fn tags_round_trip() {
    for t in [MsgTypes::Users, MsgTypes::Register, MsgTypes::Message, MsgTypes::Reaction] {
        assert_eq!(MsgTypes::from_tag(&t.tag()), Some(t));
    }
    assert_eq!(MsgTypes::Reaction.tag(), "reaction");
    assert_eq!(MsgTypes::from_tag(&"USERS".to_string()), None);
}

#[test]
fn apply_typed_events() {
    let mut chat = Chat::new();
    assert!(chat.apply(InboundEvent::Users(vec!["x".to_string()])));
    assert_eq!(chat.users[0].avatar, yew_chat::session::avatar_url("x"));
    assert!(chat.apply(InboundEvent::Message(MessageData {
        from: "x".to_string(),
        message: "m".to_string(),
        reactions: vec![],
    })));
    assert!(chat.apply(InboundEvent::Reaction {
        message_index: 0,
        emoji: "👍".to_string(),
        from: "y".to_string(),
    }));
    assert_eq!(reactions_of(&chat, 0), vec![pair("y", "👍")]);
}

#[test]
fn users_wire_text() {
    let w = WebSocketMessage {
        message_type: MsgTypes::Users,
        data_array: Some(vec!["alice".to_string(), "b\"ob".to_string()]),
        data: None,
    };
    assert_eq!(
        w.to_json(),
        "{\"messageType\":\"users\",\"dataArray\":[\"alice\",\"b\\\"ob\"],\"data\":null}"
    );
}

#[test]
fn members_read_back() {
    let w = WebSocketMessage::message("x".to_string());
    let ms = w.members();
    assert_eq!(ms.len(), 3);
    assert_eq!(ms[0], pair("messageType", "\"message\""));
    assert_eq!(ms[1], pair("dataArray", "null"));
    assert_eq!(ms[2], pair("data", "\"x\""));
    let back = WebSocketMessage::from_members(&ms).unwrap();
    assert_eq!(back.message_type, MsgTypes::Message);
    assert_eq!(back.data.as_deref(), Some("x"));
    assert!(back.data_array.is_none());
}
