//! The session state of a chat view, the reducer that applies inbound events to
//! it, and the dispatcher that turns user intents into outbound events.
use crate::json::{pair_views, string_views};
use crate::theme::Theme;
use crate::wire::{
    event_of_text, EventView, InboundEvent, MessageData, MessageView, WebSocketMessage, WireView,
    reaction_data_text,
};
use vstd::prelude::*;

verus! {

/// A user of the roster with the picture shown beside their name.
pub struct UserProfile {
    pub name: String,
    pub avatar: String,
}

/// What the user of a session does, or a wire text that arrived.
pub enum Msg {
    HandleMsg(String),
    SubmitMessage,
    ToggleEmojiPicker,
    AddEmoji(String),
    ReactToMessage(usize, String),
    SetTheme(Theme),
}

/// The state of one session: roster, message log, picker, theme and the text
/// being typed.
pub struct Chat {
    pub users: Vec<UserProfile>,
    pub messages: Vec<MessageData>,
    pub emoji_picker_open: bool,
    pub selected_emoji: Option<String>,
    pub theme: Theme,
    pub input: String,
}

pub struct ChatView {
    /// (name, avatar) of each user.
    pub users: Seq<(Seq<char>, Seq<char>)>,
    pub messages: Seq<MessageView>,
    pub emoji_picker_open: bool,
    pub selected_emoji: Option<Seq<char>>,
    pub theme: Theme,
    pub input: Seq<char>,
}

pub open spec fn profile_views(v: Seq<UserProfile>) -> Seq<(Seq<char>, Seq<char>)> {
    v.map_values(|u: UserProfile| (u.name@, u.avatar@))
}

pub open spec fn message_views(v: Seq<MessageData>) -> Seq<MessageView> {
    v.map_values(|m: MessageData| m@)
}

impl View for Chat {
    type V = ChatView;

    open spec fn view(&self) -> ChatView {
        ChatView {
            users: profile_views(self.users@),
            messages: message_views(self.messages@),
            emoji_picker_open: self.emoji_picker_open,
            selected_emoji: match self.selected_emoji {
                Some(e) => Some(e@),
                None => None,
            },
            theme: self.theme,
            input: self.input@,
        }
    }
}

/// The avatar picture of a user, derived from the name alone.
pub open spec fn avatar_of(name: Seq<char>) -> Seq<char> {
    "https://avatars.dicebear.com/api/adventurer-neutral/"@ + name + ".svg"@
}

/// One roster entry per name, in order.
pub open spec fn profiles_of(names: Seq<Seq<char>>) -> Seq<(Seq<char>, Seq<char>)> {
    names.map_values(|n: Seq<char>| (n, avatar_of(n)))
}

pub open spec fn not_from(user: Seq<char>) -> spec_fn((Seq<char>, Seq<char>)) -> bool {
    |p: (Seq<char>, Seq<char>)| p.0 != user
}

/// The reactions of a message once `from` has set `emoji`: any earlier one of
/// `from` goes, and a non-empty `emoji` is added last.
pub open spec fn react(
    rs: Seq<(Seq<char>, Seq<char>)>,
    from: Seq<char>,
    emoji: Seq<char>,
) -> Seq<(Seq<char>, Seq<char>)> {
    let kept = rs.filter(not_from(from));
    if emoji.len() == 0 {
        kept
    } else {
        kept.push((from, emoji))
    }
}

/// The state after an inbound event. A reaction on a message that does not
/// exist changes nothing.
pub open spec fn apply_event(s: ChatView, e: EventView) -> ChatView {
    match e {
        EventView::Users(names) => ChatView { users: profiles_of(names), ..s },
        EventView::Message(m) => ChatView { messages: s.messages.push(m), ..s },
        EventView::Reaction { message_index, emoji, from } => {
            if message_index < s.messages.len() {
                let i = message_index as int;
                let m = s.messages[i];
                ChatView {
                    messages: s.messages.update(
                        i,
                        MessageView { reactions: react(m.reactions, from, emoji), ..m },
                    ),
                    ..s
                }
            } else {
                s
            }
        },
    }
}

/// The emoji of the first reaction of `user`, if any.
pub open spec fn current_reaction(rs: Seq<(Seq<char>, Seq<char>)>, user: Seq<char>) -> Option<
    Seq<char>,
>
    decreases rs.len(),
{
    if rs.len() == 0 {
        None
    } else if rs[0].0 == user {
        Some(rs[0].1)
    } else {
        current_reaction(rs.drop_first(), user)
    }
}

/// The emoji that a toggle of `emoji` by `user` asks for: nothing when it is
/// the user's current reaction, else `emoji`.
pub open spec fn toggled(
    rs: Seq<(Seq<char>, Seq<char>)>,
    user: Seq<char>,
    emoji: Seq<char>,
) -> Seq<char> {
    if current_reaction(rs, user) == Some(emoji) {
        Seq::empty()
    } else {
        emoji
    }
}

/// The avatar picture of a user.
pub fn avatar_url(name: &str) -> (r: String)
    ensures
        r@ == avatar_of(name@),
{
    let mut r = String::from_str("https://avatars.dicebear.com/api/adventurer-neutral/");
    r.append(name);
    r.append(".svg");
    r
}

/// The reactions `rs` once `from` has set `emoji`.
fn react_vec(rs: &Vec<(String, String)>, from: String, emoji: String) -> (r: Vec<(String, String)>)
    ensures
        pair_views(r@) == react(pair_views(rs@), from@, emoji@),
{
    let ghost all = pair_views(rs@);
    let ghost pred = not_from(from@);
    let mut out: Vec<(String, String)> = Vec::new();
    let mut i: usize = 0;
    assert(all.take(0).filter(pred) =~= Seq::empty()) by {
        reveal(Seq::filter);
        assert(all.take(0) =~= Seq::<(Seq<char>, Seq<char>)>::empty());
    }
    assert(pair_views(out@) =~= Seq::empty());
    while i < rs.len()
        invariant
            i <= rs.len(),
            all == pair_views(rs@),
            pred == not_from(from@),
            pair_views(out@) == all.take(i as int).filter(pred),
        decreases rs.len() - i,
    {
        let ghost before = out@;
        let ghost t = all.take(i + 1);
        assert(t.drop_last() =~= all.take(i as int));
        assert(t.last() == (rs@[i as int].0@, rs@[i as int].1@));
        assert(t.len() > 0);
        proof {
            reveal(Seq::filter);
        }
        assert(pred(t.last()) == (t.last().0 != from@));
        assert(t.filter(pred) == (if pred(t.last()) {
            t.drop_last().filter(pred).push(t.last())
        } else {
            t.drop_last().filter(pred)
        }));
        if rs[i].0 != from {
            out.push((rs[i].0.clone(), rs[i].1.clone()));
            assert(pair_views(out@) =~= pair_views(before).push(t.last()));
        }
        i = i + 1;
    }
    assert(all.take(rs.len() as int) =~= all);
    if !emoji.as_str().is_empty() {
        let ghost before = out@;
        out.push((from, emoji));
        assert(pair_views(out@) =~= pair_views(before).push((from@, emoji@)));
    }
    out
}

/// The emoji of the first reaction of `user` in `rs`, if any.
fn find_reaction(rs: &Vec<(String, String)>, user: &String) -> (r: Option<String>)
    ensures
        match r {
            Some(e) => current_reaction(pair_views(rs@), user@) == Some(e@),
            None => current_reaction(pair_views(rs@), user@).is_none(),
        },
{
    let ghost all = pair_views(rs@);
    let mut i: usize = 0;
    assert(all.subrange(0, all.len() as int) =~= all);
    while i < rs.len()
        invariant
            i <= rs.len(),
            all == pair_views(rs@),
            current_reaction(all, user@) == current_reaction(
                all.subrange(i as int, all.len() as int),
                user@,
            ),
        decreases rs.len() - i,
    {
        let ghost rest = all.subrange(i as int, all.len() as int);
        assert(rest.drop_first() =~= all.subrange(i + 1, all.len() as int));
        assert(rest[0] == (rs@[i as int].0@, rs@[i as int].1@));
        if rs[i].0 == *user {
            let e = rs[i].1.clone();
            assert(current_reaction(rest, user@) == Some(e@));
            return Some(e);
        }
        i = i + 1;
    }
    None
}

/// The roster entries for `names`, in order.
fn profiles(names: &Vec<String>) -> (r: Vec<UserProfile>)
    ensures
        profile_views(r@) == profiles_of(string_views(names@)),
{
    let ghost want = profiles_of(string_views(names@));
    let mut out: Vec<UserProfile> = Vec::new();
    let mut i: usize = 0;
    while i < names.len()
        invariant
            i <= names.len(),
            want == profiles_of(string_views(names@)),
            profile_views(out@) == want.take(i as int),
        decreases names.len() - i,
    {
        let ghost before = out@;
        let name = names[i].clone();
        let avatar = avatar_url(name.as_str());
        let ghost entry = (name@, avatar@);
        assert(string_views(names@)[i as int] == name@);
        assert(want[i as int] == entry);
        out.push(UserProfile { name, avatar });
        assert(profile_views(out@) =~= profile_views(before).push(entry));
        assert(profile_views(out@) =~= want.take(i + 1));
        i = i + 1;
    }
    assert(want.take(names.len() as int) =~= want);
    out
}

impl Chat {
    /// A fresh session: nobody online, no messages, picker closed, classic
    /// theme, nothing typed.
    pub fn new() -> (r: Chat)
        ensures
            r@.users.len() == 0,
            r@.messages.len() == 0,
            !r@.emoji_picker_open,
            r@.selected_emoji.is_none(),
            r@.theme == Theme::Classic,
            r@.input.len() == 0,
    {
        Chat {
            users: Vec::new(),
            messages: Vec::new(),
            emoji_picker_open: false,
            selected_emoji: None,
            theme: Theme::Classic,
            input: String::new(),
        }
    }

    /// Applies an inbound event; the view is always to be drawn again.
    pub fn apply(&mut self, e: InboundEvent) -> (r: bool)
        ensures
            final(self)@ == apply_event(old(self)@, e@),
            r,
    {
        let ghost s = self@;
        let ghost ev = e@;
        match e {
            InboundEvent::Users(names) => {
                self.users = profiles(&names);
            },
            InboundEvent::Message(m) => {
                let ghost mv = m@;
                self.messages.push(m);
                assert(message_views(self.messages@) =~= s.messages.push(mv));
            },
            InboundEvent::Reaction { message_index, emoji, from } => {
                if message_index < self.messages.len() as u64 {
                    let idx = message_index as usize;
                    let nr = react_vec(&self.messages[idx].reactions, from, emoji);
                    self.messages[idx].reactions = nr;
                    assert(message_views(self.messages@) =~= apply_event(s, ev).messages);
                }
            },
        }
        assert(self@ == apply_event(s, ev));
        true
    }

    /// Decodes a wire text and applies the event it carries. Text that does
    /// not decode, and an inbound `register`, leave the state as it is and ask
    /// for no redraw.
    pub fn handle_msg(&mut self, text: &str) -> (r: bool)
        ensures
            match event_of_text(text@) {
                Some(e) => final(self)@ == apply_event(old(self)@, e) && r,
                None => final(self)@ == old(self)@ && !r,
            },
    {
        match InboundEvent::from_json(text) {
            Some(e) => self.apply(e),
            None => false,
        }
    }

    /// Sends what has been typed, if anything, and clears it. The message joins
    /// the log only when its echo arrives.
    pub fn submit_message(&mut self) -> (r: Option<WebSocketMessage>)
        ensures
            old(self)@.input.len() == 0 ==> r.is_none() && final(self)@ == old(self)@,
            old(self)@.input.len() > 0 ==> r.is_some() && r.unwrap()@ == (WireView {
                message_type: crate::wire::MsgTypes::Message,
                data_array: None,
                data: Some(old(self)@.input),
            }) && final(self)@ == (ChatView { input: Seq::empty(), ..old(self)@ }),
    {
        if self.input.as_str().is_empty() {
            return None;
        }
        let text = self.input.clone();
        self.input = String::new();
        assert(self@ == (ChatView { input: Seq::empty(), ..old(self)@ }));
        Some(WebSocketMessage::message(text))
    }

    /// Opens or closes the emoji picker.
    pub fn toggle_emoji_picker(&mut self) -> (r: bool)
        ensures
            final(self)@ == (ChatView { emoji_picker_open: !old(self)@.emoji_picker_open, ..old(self)@ }),
            r,
    {
        self.emoji_picker_open = !self.emoji_picker_open;
        true
    }

    /// Adds a picked emoji to what is being typed and closes the picker.
    pub fn add_emoji(&mut self, emoji: String) -> (r: bool)
        ensures
            final(self)@ == (ChatView {
                input: old(self)@.input + emoji@,
                selected_emoji: Some(emoji@),
                emoji_picker_open: false,
                ..old(self)@
            }),
            r,
    {
        self.input.append(emoji.as_str());
        self.selected_emoji = Some(emoji);
        self.emoji_picker_open = false;
        true
    }

    /// Chooses the theme; it is not sent anywhere.
    pub fn set_theme(&mut self, theme: Theme) -> (r: bool)
        ensures
            final(self)@ == (ChatView { theme, ..old(self)@ }),
            r,
    {
        self.theme = theme;
        true
    }

    /// The outbound event for `user` toggling `emoji` on message `idx`: off
    /// when it is their current reaction there, else on in place of any other.
    /// The state changes only when the echo arrives; an index past the log
    /// sends nothing.
    pub fn react_to_message(&self, user: &String, idx: usize, emoji: String) -> (r: Option<
        WebSocketMessage,
    >)
        ensures
            idx >= self@.messages.len() ==> r.is_none(),
            idx < self@.messages.len() ==> r.is_some() && r.unwrap()@ == (WireView {
                message_type: crate::wire::MsgTypes::Reaction,
                data_array: None,
                data: Some(
                    reaction_data_text(
                        idx as nat,
                        toggled(self@.messages[idx as int].reactions, user@, emoji@),
                    ),
                ),
            }),
    {
        if idx >= self.messages.len() {
            return None;
        }
        let current = find_reaction(&self.messages[idx].reactions, user);
        let new_emoji = match current {
            Some(cur) => if cur == emoji {
                String::new()
            } else {
                emoji
            },
            None => emoji,
        };
        Some(WebSocketMessage::reaction(idx, new_emoji.as_str()))
    }
    /// Handles one intent or inbound text for the local user `user`: whether
    /// to draw again, and the event to send, if any.
    pub fn update(&mut self, user: &String, msg: Msg) -> (r: (bool, Option<WebSocketMessage>))
        ensures
            match msg {
                Msg::HandleMsg(text) => r.1.is_none() && match event_of_text(text@) {
                    Some(e) => final(self)@ == apply_event(old(self)@, e) && r.0,
                    None => final(self)@ == old(self)@ && !r.0,
                },
                Msg::SubmitMessage => !r.0 && (old(self)@.input.len() == 0 ==> r.1.is_none()
                    && final(self)@ == old(self)@) && (old(self)@.input.len() > 0 ==> r.1.is_some()
                    && r.1.unwrap()@ == (WireView {
                    message_type: crate::wire::MsgTypes::Message,
                    data_array: None,
                    data: Some(old(self)@.input),
                }) && final(self)@ == (ChatView { input: Seq::empty(), ..old(self)@ })),
                Msg::ToggleEmojiPicker => r.0 && r.1.is_none() && final(self)@ == (ChatView {
                    emoji_picker_open: !old(self)@.emoji_picker_open,
                    ..old(self)@
                }),
                Msg::AddEmoji(emoji) => r.0 && r.1.is_none() && final(self)@ == (ChatView {
                    input: old(self)@.input + emoji@,
                    selected_emoji: Some(emoji@),
                    emoji_picker_open: false,
                    ..old(self)@
                }),
                Msg::ReactToMessage(idx, emoji) => !r.0 && final(self)@ == old(self)@ && (idx
                    >= old(self)@.messages.len() ==> r.1.is_none()) && (idx < old(
                    self,
                )@.messages.len() ==> r.1.is_some() && r.1.unwrap()@ == (WireView {
                    message_type: crate::wire::MsgTypes::Reaction,
                    data_array: None,
                    data: Some(
                        reaction_data_text(
                            idx as nat,
                            toggled(old(self)@.messages[idx as int].reactions, user@, emoji@),
                        ),
                    ),
                })),
                Msg::SetTheme(theme) => r.0 && r.1.is_none() && final(self)@ == (ChatView {
                    theme,
                    ..old(self)@
                }),
            },
    {
        match msg {
            Msg::HandleMsg(text) => (self.handle_msg(text.as_str()), None),
            Msg::SubmitMessage => (false, self.submit_message()),
            Msg::ToggleEmojiPicker => (self.toggle_emoji_picker(), None),
            Msg::AddEmoji(emoji) => (self.add_emoji(emoji), None),
            Msg::ReactToMessage(idx, emoji) => (false, self.react_to_message(user, idx, emoji)),
            Msg::SetTheme(theme) => (self.set_theme(theme), None),
        }
    }
}

} // verus!
