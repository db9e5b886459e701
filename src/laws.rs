//! What holds of the reducer and the dispatcher over many events.
use crate::session::{apply_event, current_reaction, not_from, profiles_of, react, toggled, ChatView};
use crate::wire::EventView;
use vstd::prelude::*;

verus! {

/// No user has two reactions in `rs`.
pub open spec fn one_per_user(rs: Seq<(Seq<char>, Seq<char>)>) -> bool {
    forall|i: int, j: int| 0 <= i < j < rs.len() ==> rs[i].0 != rs[j].0
}

/// No user has two reactions on any message.
pub open spec fn reactions_one_per_user(s: ChatView) -> bool {
    forall|k: int| 0 <= k < s.messages.len() ==> one_per_user(#[trigger] s.messages[k].reactions)
}

/// The state after the events `es`, in order.
pub open spec fn apply_all(s: ChatView, es: Seq<EventView>) -> ChatView
    decreases es.len(),
{
    if es.len() == 0 {
        s
    } else {
        apply_all(apply_event(s, es[0]), es.drop_first())
    }
}

/// An event brings no message with two reactions of one user.
pub open spec fn brings_one_per_user(e: EventView) -> bool {
    match e {
        EventView::Message(m) => one_per_user(m.reactions),
        _ => true,
    }
}

proof fn lemma_filter_one_per_user(rs: Seq<(Seq<char>, Seq<char>)>, user: Seq<char>)
    requires
        one_per_user(rs),
    ensures
        one_per_user(rs.filter(not_from(user))),
        forall|i: int|
            0 <= i < rs.filter(not_from(user)).len() ==> exists|j: int|
                0 <= j < rs.len() && #[trigger] rs.filter(not_from(user))[i] == rs[j],
    decreases rs.len(),
{
    reveal(Seq::filter);
    let pred = not_from(user);
    if rs.len() > 0 {
        let d = rs.drop_last();
        lemma_filter_one_per_user(d, user);
        let fd = d.filter(pred);
        let f = rs.filter(pred);
        assert(forall|i: int| 0 <= i < fd.len() ==> exists|j: int| 0 <= j < rs.len() - 1 && #[trigger] fd[i] == rs[j]) by {
            assert forall|i: int| 0 <= i < fd.len() implies exists|j: int|
                0 <= j < rs.len() - 1 && #[trigger] fd[i] == rs[j] by {
                let j = choose|j: int| 0 <= j < d.len() && fd[i] == d[j];
                assert(d[j] == rs[j]);
            }
        }
        if pred(rs.last()) {
            assert(f == fd.push(rs.last()));
            assert forall|i: int, j: int| 0 <= i < j < f.len() implies f[i].0 != f[j].0 by {
                if j == f.len() - 1 {
                    let k = choose|k: int| 0 <= k < rs.len() - 1 && fd[i] == rs[k];
                    assert(f[i] == rs[k]);
                } else {
                    assert(f[i] == fd[i] && f[j] == fd[j]);
                }
            }
            assert forall|i: int| 0 <= i < f.len() implies exists|j: int|
                0 <= j < rs.len() && #[trigger] f[i] == rs[j] by {
                if i == f.len() - 1 {
                    assert(f[i] == rs[rs.len() - 1]);
                } else {
                    assert(f[i] == fd[i]);
                }
            }
        } else {
            assert(f == fd);
        }
    }
}

proof fn lemma_react_one_per_user(rs: Seq<(Seq<char>, Seq<char>)>, from: Seq<char>, emoji: Seq<char>)
    requires
        one_per_user(rs),
    ensures
        one_per_user(react(rs, from, emoji)),
{
    broadcast use vstd::seq_lib::group_filter_ensures;
    lemma_filter_one_per_user(rs, from);
    let kept = rs.filter(not_from(from));
    if emoji.len() > 0 {
        let r = kept.push((from, emoji));
        assert forall|i: int, j: int| 0 <= i < j < r.len() implies r[i].0 != r[j].0 by {
            if j == r.len() - 1 {
                assert(not_from(from)(kept[i]));
            } else {
                assert(r[i] == kept[i] && r[j] == kept[j]);
            }
        }
    }
}

/// An event keeps every message at one reaction per user at most, unless it
/// brings a message that breaks this itself.
pub proof fn lemma_event_keeps_one_per_user(s: ChatView, e: EventView)
    requires
        reactions_one_per_user(s),
        brings_one_per_user(e),
    ensures
        reactions_one_per_user(apply_event(s, e)),
{
    if let EventView::Message(m) = e {
        let t = apply_event(s, e);
        assert forall|k: int| 0 <= k < t.messages.len() implies one_per_user(
            #[trigger] t.messages[k].reactions,
        ) by {
            if k < s.messages.len() {
                assert(t.messages[k] == s.messages[k]);
            }
        }
    }
    if let EventView::Reaction { message_index, emoji, from } = e {
        if message_index < s.messages.len() {
            let i = message_index as int;
            lemma_react_one_per_user(s.messages[i].reactions, from, emoji);
            let t = apply_event(s, e);
            assert forall|k: int| 0 <= k < t.messages.len() implies one_per_user(
                #[trigger] t.messages[k].reactions,
            ) by {
                if k != i {
                    assert(t.messages[k] == s.messages[k]);
                }
            }
        }
    }
}

/// After any run of events, reactions among them, every message still has one
/// reaction per user at most, unless an event brought a message that broke
/// this itself.
pub proof fn lemma_events_keep_one_per_user(s: ChatView, es: Seq<EventView>)
    requires
        reactions_one_per_user(s),
        forall|k: int| 0 <= k < es.len() ==> brings_one_per_user(#[trigger] es[k]),
    ensures
        reactions_one_per_user(apply_all(s, es)),
    decreases es.len(),
{
    if es.len() > 0 {
        lemma_event_keeps_one_per_user(s, es[0]);
        assert forall|k: int| 0 <= k < es.drop_first().len() implies brings_one_per_user(
            #[trigger] es.drop_first()[k],
        ) by {
            assert(es.drop_first()[k] == es[k + 1]);
        }
        lemma_events_keep_one_per_user(apply_event(s, es[0]), es.drop_first());
    }
}

proof fn lemma_no_reaction(rs: Seq<(Seq<char>, Seq<char>)>, user: Seq<char>)
    requires
        current_reaction(rs, user).is_none(),
    ensures
        forall|i: int| 0 <= i < rs.len() ==> (#[trigger] rs[i]).0 != user,
    decreases rs.len(),
{
    if rs.len() > 0 {
        lemma_no_reaction(rs.drop_first(), user);
        assert forall|i: int| 0 <= i < rs.len() implies (#[trigger] rs[i]).0 != user by {
            if i > 0 {
                assert(rs[i] == rs.drop_first()[i - 1]);
            }
        }
    }
}

proof fn lemma_filter_keeps_all(rs: Seq<(Seq<char>, Seq<char>)>, user: Seq<char>)
    requires
        forall|i: int| 0 <= i < rs.len() ==> (#[trigger] rs[i]).0 != user,
    ensures
        rs.filter(not_from(user)) == rs,
    decreases rs.len(),
{
    reveal(Seq::filter);
    if rs.len() > 0 {
        let d = rs.drop_last();
        assert forall|i: int| 0 <= i < d.len() implies (#[trigger] d[i]).0 != user by {
            assert(d[i] == rs[i]);
        }
        lemma_filter_keeps_all(d, user);
        assert(rs.last().0 != user);
        assert(d.push(rs.last()) =~= rs);
    }
}

proof fn lemma_current_after_push(
    rs: Seq<(Seq<char>, Seq<char>)>,
    user: Seq<char>,
    emoji: Seq<char>,
)
    requires
        forall|i: int| 0 <= i < rs.len() ==> (#[trigger] rs[i]).0 != user,
    ensures
        current_reaction(rs.push((user, emoji)), user) == Some(emoji),
    decreases rs.len(),
{
    let r = rs.push((user, emoji));
    if rs.len() > 0 {
        let d = rs.drop_first();
        assert forall|i: int| 0 <= i < d.len() implies (#[trigger] d[i]).0 != user by {
            assert(d[i] == rs[i + 1]);
        }
        lemma_current_after_push(d, user, emoji);
        assert(r.drop_first() =~= d.push((user, emoji)));
        assert(r[0] == rs[0]);
    }
}

/// Toggling an emoji that a user has not set on a message asks for it; once
/// that echo is applied, toggling it again asks to clear it; once that echo is
/// applied too, the user has no reaction there and the state is as before.
pub proof fn lemma_toggle_on_then_off(s: ChatView, user: Seq<char>, index: u64, emoji: Seq<char>)
    requires
        index < s.messages.len(),
        emoji.len() > 0,
        current_reaction(s.messages[index as int].reactions, user).is_none(),
    ensures
        toggled(s.messages[index as int].reactions, user, emoji) == emoji,
        ({
            let s1 = apply_event(s, EventView::Reaction { message_index: index, emoji, from: user });
            &&& current_reaction(s1.messages[index as int].reactions, user) == Some(emoji)
            &&& toggled(s1.messages[index as int].reactions, user, emoji) == Seq::<char>::empty()
            &&& {
                let s2 = apply_event(
                    s1,
                    EventView::Reaction { message_index: index, emoji: Seq::empty(), from: user },
                );
                &&& current_reaction(s2.messages[index as int].reactions, user).is_none()
                &&& s2 == s
            }
        }),
{
    broadcast use vstd::seq_lib::group_filter_ensures;
    let i = index as int;
    let rs = s.messages[i].reactions;
    lemma_no_reaction(rs, user);
    lemma_filter_keeps_all(rs, user);
    let r1 = rs.push((user, emoji));
    assert(react(rs, user, emoji) == r1);
    lemma_current_after_push(rs, user, emoji);
    let s1 = apply_event(s, EventView::Reaction { message_index: index, emoji, from: user });
    assert(s1.messages[i].reactions == r1);
    reveal(Seq::filter);
    assert(r1.drop_last() =~= rs);
    assert(r1.filter(not_from(user)) == rs.filter(not_from(user)));
    let s2 = apply_event(
        s1,
        EventView::Reaction { message_index: index, emoji: Seq::empty(), from: user },
    );
    assert(s2.messages[i].reactions == rs);
    assert(s2.messages =~= s.messages);
}

/// A reaction on a message past the end of the log changes nothing.
pub proof fn lemma_out_of_range_reaction(
    s: ChatView,
    index: u64,
    emoji: Seq<char>,
    from: Seq<char>,
)
    requires
        index >= s.messages.len(),
    ensures
        apply_event(s, EventView::Reaction { message_index: index, emoji, from }) == s,
{
}

/// A roster snapshot replaces the roster: the earlier one leaves nothing.
pub proof fn lemma_roster_replaced(s: ChatView, first: Seq<Seq<char>>, second: Seq<Seq<char>>)
    ensures
        apply_event(apply_event(s, EventView::Users(first)), EventView::Users(second)) == (ChatView {
            users: profiles_of(second),
            ..s
        }),
{
}

} // verus!
