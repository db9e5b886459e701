//! The wire codec: the envelope `{"messageType", "dataArray", "data"}` and the
//! payloads nested in its `data` field.
use crate::json::{
    decimal, json_object_members, json_opt_string_list_value, json_opt_string_value,
    json_pair_list_value, json_quoted, json_quoted_list, json_string_value, json_u64_value,
    pair_views, parse_object, parse_opt_string, parse_opt_string_list, parse_pair_list,
    parse_string, parse_u64, quote, quote_list, string_views, write_null, write_u64,
};
use vstd::prelude::*;

verus! {

/// The four kinds of wire event.
#[derive(Clone, Copy, Debug, PartialEq, Eq, Structural)]
pub enum MsgTypes {
    Users,
    Register,
    Message,
    Reaction,
}

/// The envelope of every wire event.
pub struct WebSocketMessage {
    pub message_type: MsgTypes,
    pub data_array: Option<Vec<String>>,
    pub data: Option<String>,
}

pub struct WireView {
    pub message_type: MsgTypes,
    pub data_array: Option<Seq<Seq<char>>>,
    pub data: Option<Seq<char>>,
}

impl View for WebSocketMessage {
    type V = WireView;

    open spec fn view(&self) -> WireView {
        WireView {
            message_type: self.message_type,
            data_array: match self.data_array {
                Some(v) => Some(string_views(v@)),
                None => None,
            },
            data: match self.data {
                Some(s) => Some(s@),
                None => None,
            },
        }
    }
}

/// One chat message with its reactions, as (user, emoji) pairs.
pub struct MessageData {
    pub from: String,
    pub message: String,
    pub reactions: Vec<(String, String)>,
}

pub struct MessageView {
    pub from: Seq<char>,
    pub message: Seq<char>,
    pub reactions: Seq<(Seq<char>, Seq<char>)>,
}

impl View for MessageData {
    type V = MessageView;

    open spec fn view(&self) -> MessageView {
        MessageView { from: self.from@, message: self.message@, reactions: pair_views(self.reactions@) }
    }
}

/// An inbound event that the reducer consumes.
pub enum InboundEvent {
    /// A snapshot of the roster.
    Users(Vec<String>),
    /// A message to append to the log.
    Message(MessageData),
    /// `from` sets its reaction on a message; an empty `emoji` clears it.
    Reaction { message_index: u64, emoji: String, from: String },
}

pub enum EventView {
    Users(Seq<Seq<char>>),
    Message(MessageView),
    Reaction { message_index: u64, emoji: Seq<char>, from: Seq<char> },
}

impl View for InboundEvent {
    type V = EventView;

    open spec fn view(&self) -> EventView {
        match self {
            InboundEvent::Users(v) => EventView::Users(string_views(v@)),
            InboundEvent::Message(m) => EventView::Message(m@),
            InboundEvent::Reaction { message_index, emoji, from } => EventView::Reaction {
                message_index: *message_index,
                emoji: emoji@,
                from: from@,
            },
        }
    }
}

/// The lowercase tag that names each kind on the wire.
pub open spec fn tag_of(t: MsgTypes) -> Seq<char> {
    match t {
        MsgTypes::Users => "users"@,
        MsgTypes::Register => "register"@,
        MsgTypes::Message => "message"@,
        MsgTypes::Reaction => "reaction"@,
    }
}

/// The kind that a tag names, if any.
pub open spec fn tag_from(s: Seq<char>) -> Option<MsgTypes> {
    if s == "users"@ {
        Some(MsgTypes::Users)
    } else if s == "register"@ {
        Some(MsgTypes::Register)
    } else if s == "message"@ {
        Some(MsgTypes::Message)
    } else if s == "reaction"@ {
        Some(MsgTypes::Reaction)
    } else {
        None
    }
}

/// The value text of the first member named `key`.
pub open spec fn member(ms: Seq<(Seq<char>, Seq<char>)>, key: Seq<char>) -> Option<Seq<char>>
    decreases ms.len(),
{
    if ms.len() == 0 {
        None
    } else if ms[0].0 == key {
        Some(ms[0].1)
    } else {
        member(ms.drop_first(), key)
    }
}

/// A required string member.
pub open spec fn string_member(ms: Seq<(Seq<char>, Seq<char>)>, key: Seq<char>) -> Option<Seq<char>> {
    match member(ms, key) {
        Some(raw) => json_string_value(raw),
        None => None,
    }
}

/// The envelope that an object's members describe: `messageType` must be a
/// known tag; `dataArray` and `data` may be absent or `null`.
pub open spec fn wire_of_members(ms: Seq<(Seq<char>, Seq<char>)>) -> Option<WireView> {
    let t = match string_member(ms, "messageType"@) {
        Some(s) => tag_from(s),
        None => None,
    };
    let a = match member(ms, "dataArray"@) {
        Some(raw) => json_opt_string_list_value(raw),
        None => Some(None),
    };
    let d = match member(ms, "data"@) {
        Some(raw) => json_opt_string_value(raw),
        None => Some(None),
    };
    if t.is_some() && a.is_some() && d.is_some() {
        Some(WireView { message_type: t.unwrap(), data_array: a.unwrap(), data: d.unwrap() })
    } else {
        None
    }
}

/// The envelope that a wire text decodes to.
pub open spec fn wire_of_text(text: Seq<char>) -> Option<WireView> {
    match json_object_members(text) {
        Some(ms) => wire_of_members(ms),
        None => None,
    }
}

/// The inbound `message` payload `{from, message, reactions}`; `reactions`
/// defaults to none.
pub open spec fn message_of_text(text: Seq<char>) -> Option<MessageView> {
    match json_object_members(text) {
        Some(ms) => {
            let from = string_member(ms, "from"@);
            let message = string_member(ms, "message"@);
            let reactions = match member(ms, "reactions"@) {
                Some(raw) => json_pair_list_value(raw),
                None => Some(Seq::empty()),
            };
            if from.is_some() && message.is_some() && reactions.is_some() {
                Some(
                    MessageView {
                        from: from.unwrap(),
                        message: message.unwrap(),
                        reactions: reactions.unwrap(),
                    },
                )
            } else {
                None
            }
        },
        None => None,
    }
}

/// The inbound `reaction` payload `{messageIndex, emoji, from}`, all required.
pub open spec fn reaction_of_text(text: Seq<char>) -> Option<EventView> {
    match json_object_members(text) {
        Some(ms) => {
            let index = match member(ms, "messageIndex"@) {
                Some(raw) => json_u64_value(raw),
                None => None,
            };
            let emoji = string_member(ms, "emoji"@);
            let from = string_member(ms, "from"@);
            if index.is_some() && emoji.is_some() && from.is_some() {
                Some(
                    EventView::Reaction {
                        message_index: index.unwrap(),
                        emoji: emoji.unwrap(),
                        from: from.unwrap(),
                    },
                )
            } else {
                None
            }
        },
        None => None,
    }
}

/// The inbound event that an envelope carries. `register` is outbound only,
/// and each other kind needs its field.
pub open spec fn event_of_wire(w: WireView) -> Option<EventView> {
    match w.message_type {
        MsgTypes::Users => match w.data_array {
            Some(names) => Some(EventView::Users(names)),
            None => None,
        },
        MsgTypes::Message => match w.data {
            Some(d) => match message_of_text(d) {
                Some(m) => Some(EventView::Message(m)),
                None => None,
            },
            None => None,
        },
        MsgTypes::Reaction => match w.data {
            Some(d) => reaction_of_text(d),
            None => None,
        },
        MsgTypes::Register => None,
    }
}

/// The inbound event that a wire text decodes to.
pub open spec fn event_of_text(text: Seq<char>) -> Option<EventView> {
    match wire_of_text(text) {
        Some(w) => event_of_wire(w),
        None => None,
    }
}

/// The text of an absent or present string list.
pub open spec fn opt_list_text(a: Option<Seq<Seq<char>>>) -> Seq<char> {
    match a {
        Some(l) => json_quoted_list(l),
        None => "null"@,
    }
}

/// The text of an absent or present string.
pub open spec fn opt_string_text(d: Option<Seq<char>>) -> Seq<char> {
    match d {
        Some(s) => json_quoted(s),
        None => "null"@,
    }
}

/// The three members that an envelope is written as, in this order.
pub open spec fn wire_members(w: WireView) -> Seq<(Seq<char>, Seq<char>)> {
    seq![
        ("messageType"@, json_quoted(tag_of(w.message_type))),
        ("dataArray"@, opt_list_text(w.data_array)),
        ("data"@, opt_string_text(w.data)),
    ]
}

pub open spec fn member_text(p: (Seq<char>, Seq<char>)) -> Seq<char> {
    json_quoted(p.0) + ":"@ + p.1
}

/// Members written one after another, separated by commas.
pub open spec fn members_text(ms: Seq<(Seq<char>, Seq<char>)>) -> Seq<char>
    decreases ms.len(),
{
    if ms.len() == 0 {
        Seq::empty()
    } else if ms.len() == 1 {
        member_text(ms[0])
    } else {
        members_text(ms.drop_last()) + ","@ + member_text(ms.last())
    }
}

/// A JSON object with the given members, written compactly.
pub open spec fn object_text(ms: Seq<(Seq<char>, Seq<char>)>) -> Seq<char> {
    "{"@ + members_text(ms) + "}"@
}

/// The wire text of an envelope.
pub open spec fn wire_text(w: WireView) -> Seq<char> {
    object_text(wire_members(w))
}

/// The `data` of an outbound reaction: the pair `[messageIndex, emoji]`.
pub open spec fn reaction_data_text(index: nat, emoji: Seq<char>) -> Seq<char> {
    "["@ + decimal(index) + ","@ + json_quoted(emoji) + "]"@
}

/// Every tag names the kind it is written for.
pub proof fn lemma_tag_round_trip(t: MsgTypes)
    ensures
        tag_from(tag_of(t)) == Some(t),
{
    reveal_strlit("users");
    reveal_strlit("register");
    reveal_strlit("message");
    reveal_strlit("reaction");
    assert("register"@.len() != "users"@.len());
    assert("message"@.len() != "users"@.len());
    assert("message"@.len() != "register"@.len());
    assert("reaction"@.len() != "users"@.len());
    assert("reaction"@.len() != "message"@.len());
    assert("register"@[2] != "reaction"@[2]);
}

impl MsgTypes {
    /// The tag written on the wire.
    pub fn tag(&self) -> (r: String)
        ensures
            r@ == tag_of(*self),
    {
        match self {
            MsgTypes::Users => String::from_str("users"),
            MsgTypes::Register => String::from_str("register"),
            MsgTypes::Message => String::from_str("message"),
            MsgTypes::Reaction => String::from_str("reaction"),
        }
    }

    /// The kind that `s` names, if any.
    pub fn from_tag(s: &String) -> (r: Option<MsgTypes>)
        ensures
            r == tag_from(s@),
    {
        if *s == String::from_str("users") {
            Some(MsgTypes::Users)
        } else if *s == String::from_str("register") {
            Some(MsgTypes::Register)
        } else if *s == String::from_str("message") {
            Some(MsgTypes::Message)
        } else if *s == String::from_str("reaction") {
            Some(MsgTypes::Reaction)
        } else {
            None
        }
    }
}

/// The value text of the first member named `key`.
fn find_member(ms: &Vec<(String, String)>, key: &str) -> (r: Option<String>)
    ensures
        match r {
            Some(v) => member(pair_views(ms@), key@) == Some(v@),
            None => member(pair_views(ms@), key@).is_none(),
        },
{
    let k = String::from_str(key);
    let ghost all = pair_views(ms@);
    let mut i: usize = 0;
    assert(all.subrange(0, all.len() as int) =~= all);
    while i < ms.len()
        invariant
            i <= ms.len(),
            all == pair_views(ms@),
            k@ == key@,
            member(all, key@) == member(all.subrange(i as int, all.len() as int), key@),
        decreases ms.len() - i,
    {
        let ghost rest = all.subrange(i as int, all.len() as int);
        assert(rest.drop_first() =~= all.subrange(i + 1, all.len() as int));
        assert(rest[0] == (ms@[i as int].0@, ms@[i as int].1@));
        if ms[i].0 == k {
            let v = ms[i].1.clone();
            assert(member(rest, key@) == Some(v@));
            return Some(v);
        }
        i = i + 1;
    }
    None
}

fn string_member_of(ms: &Vec<(String, String)>, key: &str) -> (r: Option<String>)
    ensures
        match r {
            Some(v) => string_member(pair_views(ms@), key@) == Some(v@),
            None => string_member(pair_views(ms@), key@).is_none(),
        },
{
    match find_member(ms, key) {
        Some(raw) => parse_string(raw.as_str()),
        None => None,
    }
}

/// Writes a JSON object with the given members; each value is JSON text
/// already.
fn frame_object(ms: &Vec<(String, String)>) -> (r: String)
    ensures
        r@ == object_text(pair_views(ms@)),
{
    let ghost all = pair_views(ms@);
    let mut body = String::new();
    let mut i: usize = 0;
    while i < ms.len()
        invariant
            i <= ms.len(),
            all == pair_views(ms@),
            body@ == members_text(all.take(i as int)),
        decreases ms.len() - i,
    {
        let ghost before = body@;
        if i > 0 {
            body.append(",");
        }
        let k = quote(ms[i].0.as_str());
        body.append(k.as_str());
        body.append(":");
        body.append(ms[i].1.as_str());
        proof {
            let t = all.take(i + 1);
            assert(t.drop_last() =~= all.take(i as int));
            assert(t.last() == (ms@[i as int].0@, ms@[i as int].1@));
            if i == 0 {
                assert(all.take(0) =~= Seq::<(Seq<char>, Seq<char>)>::empty());
                assert(body@ =~= member_text(t[0]));
            } else {
                assert(body@ =~= before + ","@ + member_text(t.last()));
            }
        }
        i = i + 1;
    }
    assert(all.take(ms.len() as int) =~= all);
    let mut r = String::from_str("{");
    r.append(body.as_str());
    r.append("}");
    r
}

impl WebSocketMessage {
    /// The envelope that an object's members describe.
    pub fn from_members(ms: &Vec<(String, String)>) -> (r: Option<WebSocketMessage>)
        ensures
            match r {
                Some(w) => wire_of_members(pair_views(ms@)) == Some(w@),
                None => wire_of_members(pair_views(ms@)).is_none(),
            },
    {
        let t = match string_member_of(ms, "messageType") {
            Some(s) => MsgTypes::from_tag(&s),
            None => None,
        };
        let a = match find_member(ms, "dataArray") {
            Some(raw) => parse_opt_string_list(raw.as_str()),
            None => Some(None),
        };
        let d = match find_member(ms, "data") {
            Some(raw) => parse_opt_string(raw.as_str()),
            None => Some(None),
        };
        match (t, a, d) {
            (Some(message_type), Some(data_array), Some(data)) => Some(
                WebSocketMessage { message_type, data_array, data },
            ),
            _ => None,
        }
    }

    /// The members that the envelope is written as; reading them back gives the
    /// envelope again.
    pub fn members(&self) -> (r: Vec<(String, String)>)
        ensures
            pair_views(r@) == wire_members(self@),
            wire_of_members(pair_views(r@)) == Some(self@),
    {
        let t = quote(self.message_type.tag().as_str());
        let a = match &self.data_array {
            Some(v) => quote_list(v),
            None => write_null(),
        };
        let d = match &self.data {
            Some(s) => quote(s.as_str()),
            None => write_null(),
        };
        let mut r: Vec<(String, String)> = Vec::new();
        r.push((String::from_str("messageType"), t));
        r.push((String::from_str("dataArray"), a));
        r.push((String::from_str("data"), d));
        proof {
            let ms = pair_views(r@);
            assert(ms =~= wire_members(self@));
            reveal_strlit("messageType");
            reveal_strlit("dataArray");
            reveal_strlit("data");
            let m1 = ms.drop_first();
            let m2 = m1.drop_first();
            assert(m1[0] == ms[1]);
            assert(m2[0] == ms[2]);
            assert("messageType"@.len() != "dataArray"@.len());
            assert("messageType"@.len() != "data"@.len());
            assert("dataArray"@.len() != "data"@.len());
            assert(member(ms, "messageType"@) == Some(ms[0].1));
            assert(member(m1, "dataArray"@) == Some(ms[1].1));
            assert(member(ms, "dataArray"@) == Some(ms[1].1));
            assert(member(m2, "data"@) == Some(ms[2].1));
            assert(member(m1, "data"@) == Some(ms[2].1));
            assert(member(ms, "data"@) == Some(ms[2].1));
            lemma_tag_round_trip(self.message_type);
        }
        r
    }

    /// Encodes the envelope as wire text.
    pub fn to_json(&self) -> (r: String)
        ensures
            r@ == wire_text(self@),
    {
        let ms = self.members();
        frame_object(&ms)
    }

    /// The outbound event that announces the local user.
    pub fn register(name: String) -> (r: WebSocketMessage)
        ensures
            r@ == (WireView { message_type: MsgTypes::Register, data_array: None, data: Some(name@) }),
    {
        WebSocketMessage { message_type: MsgTypes::Register, data_array: None, data: Some(name) }
    }

    /// The outbound event that sends a chat message.
    pub fn message(text: String) -> (r: WebSocketMessage)
        ensures
            r@ == (WireView { message_type: MsgTypes::Message, data_array: None, data: Some(text@) }),
    {
        WebSocketMessage { message_type: MsgTypes::Message, data_array: None, data: Some(text) }
    }

    /// The outbound event that sets the local user's reaction on a message; an
    /// empty `emoji` clears it.
    pub fn reaction(index: usize, emoji: &str) -> (r: WebSocketMessage)
        ensures
            r@ == (WireView {
                message_type: MsgTypes::Reaction,
                data_array: None,
                data: Some(reaction_data_text(index as nat, emoji@)),
            }),
    {
        let mut d = String::from_str("[");
        let n = write_u64(index as u64);
        d.append(n.as_str());
        d.append(",");
        let q = quote(emoji);
        d.append(q.as_str());
        d.append("]");
        WebSocketMessage { message_type: MsgTypes::Reaction, data_array: None, data: Some(d) }
    }

    /// Decodes a wire text into its envelope.
    pub fn from_json(text: &str) -> (r: Option<WebSocketMessage>)
        ensures
            match r {
                Some(w) => wire_of_text(text@) == Some(w@),
                None => wire_of_text(text@).is_none(),
            },
    {
        match parse_object(text) {
            Some(ms) => WebSocketMessage::from_members(&ms),
            None => None,
        }
    }
}

impl MessageData {
    /// Decodes the inbound `message` payload.
    pub fn from_json(text: &str) -> (r: Option<MessageData>)
        ensures
            match r {
                Some(m) => message_of_text(text@) == Some(m@),
                None => message_of_text(text@).is_none(),
            },
    {
        let ms = match parse_object(text) {
            Some(ms) => ms,
            None => return None,
        };
        let from = string_member_of(&ms, "from");
        let message = string_member_of(&ms, "message");
        let reactions = match find_member(&ms, "reactions") {
            Some(raw) => parse_pair_list(raw.as_str()),
            None => {
                let v: Vec<(String, String)> = Vec::new();
                assert(pair_views(v@) =~= Seq::empty());
                Some(v)
            },
        };
        match (from, message, reactions) {
            (Some(from), Some(message), Some(reactions)) => Some(
                MessageData { from, message, reactions },
            ),
            _ => None,
        }
    }
}

impl InboundEvent {
    /// Decodes the inbound `reaction` payload.
    pub fn reaction_from_json(text: &str) -> (r: Option<InboundEvent>)
        ensures
            match r {
                Some(e) => reaction_of_text(text@) == Some(e@),
                None => reaction_of_text(text@).is_none(),
            },
    {
        let ms = match parse_object(text) {
            Some(ms) => ms,
            None => return None,
        };
        let index = match find_member(&ms, "messageIndex") {
            Some(raw) => parse_u64(raw.as_str()),
            None => None,
        };
        let emoji = string_member_of(&ms, "emoji");
        let from = string_member_of(&ms, "from");
        match (index, emoji, from) {
            (Some(message_index), Some(emoji), Some(from)) => Some(
                InboundEvent::Reaction { message_index, emoji, from },
            ),
            _ => None,
        }
    }

    /// The inbound event that an envelope carries.
    pub fn from_wire(w: WebSocketMessage) -> (r: Option<InboundEvent>)
        ensures
            match r {
                Some(e) => event_of_wire(w@) == Some(e@),
                None => event_of_wire(w@).is_none(),
            },
    {
        match w.message_type {
            MsgTypes::Users => match w.data_array {
                Some(names) => Some(InboundEvent::Users(names)),
                None => None,
            },
            MsgTypes::Message => match w.data {
                Some(d) => match MessageData::from_json(d.as_str()) {
                    Some(m) => Some(InboundEvent::Message(m)),
                    None => None,
                },
                None => None,
            },
            MsgTypes::Reaction => match w.data {
                Some(d) => InboundEvent::reaction_from_json(d.as_str()),
                None => None,
            },
            MsgTypes::Register => None,
        }
    }

    /// Decodes a wire text into the inbound event it carries.
    pub fn from_json(text: &str) -> (r: Option<InboundEvent>)
        ensures
            match r {
                Some(e) => event_of_text(text@) == Some(e@),
                None => event_of_text(text@).is_none(),
            },
    {
        match WebSocketMessage::from_json(text) {
            Some(w) => InboundEvent::from_wire(w),
            None => None,
        }
    }
}

} // verus!
