//! Laws of the router: what holds of every message, stated over the spec
//! functions that the router's contracts use.

use vstd::prelude::*;
use crate::model::{ActionView, ControlSignal, MessageView, UserId};
use crate::router::{
    command_actions, has_verb, is_addressed, mention_replies, mention_retort, message_actions,
    moderation_replies, verb_actions, verb_of,
};

verus! {

/// No action in `s` is a control signal.
pub open spec fn raises_nothing(s: Seq<ActionView>) -> bool {
    forall|i: int| 0 <= i < s.len() ==> !(#[trigger] s[i] is Raise)
}

/// A control signal in `s` stands last, right after a reply.
pub open spec fn signal_follows_reply(s: Seq<ActionView>) -> bool {
    forall|i: int|
        0 <= i < s.len() && (#[trigger] s[i] is Raise) ==> i == s.len() - 1 && i >= 1 && s[i - 1] is Reply
}

proof fn lemma_mention_replies(mentions: Seq<UserId>, blocked: UserId)
    ensures
        forall|i: int|
            0 <= i < mention_replies(mentions, blocked).len() ==> #[trigger] mention_replies(
                mentions,
                blocked,
            )[i] == ActionView::Reply(mention_retort(blocked)),
        !mentions.contains(blocked) ==> mention_replies(mentions, blocked).len() == 0,
    decreases mentions.len(),
{
    if mentions.len() > 0 {
        let rest = mentions.drop_last();
        lemma_mention_replies(rest, blocked);
        if !mentions.contains(blocked) {
            assert(!rest.contains(blocked)) by {
                if rest.contains(blocked) {
                    let j = choose|j: int| 0 <= j < rest.len() && rest[j] == blocked;
                    assert(mentions[j] == blocked);
                }
            }
            assert(mentions[mentions.len() - 1] != blocked);
        }
    }
}

proof fn lemma_moderation(author: UserId, mentions: Seq<UserId>, blocked: UserId)
    ensures
        raises_nothing(moderation_replies(author, mentions, blocked)),
        author != blocked && !mentions.contains(blocked) ==> moderation_replies(
            author,
            mentions,
            blocked,
        ).len() == 0,
{
    lemma_mention_replies(mentions, blocked);
    let own: Seq<ActionView> = if author == blocked {
        seq![ActionView::Reply("shut up"@)]
    } else {
        seq![]
    };
    let all = moderation_replies(author, mentions, blocked);
    assert(all == own + mention_replies(mentions, blocked));
    assert forall|i: int| 0 <= i < all.len() implies !(#[trigger] all[i] is Raise) by {
        if i >= own.len() {
            assert(all[i] == mention_replies(mentions, blocked)[i - own.len()]);
        }
    }
}

proof fn lemma_literals()
    ensures
        "info"@ != "restart"@,
        "info"@ != "exit"@,
        "restart"@ != "exit"@,
{
    reveal_strlit("info");
    reveal_strlit("restart");
    reveal_strlit("exit");
    assert("info"@.len() != "restart"@.len());
    assert("info"@[0] != "exit"@[0]);
    assert("restart"@.len() != "exit"@.len());
}

/// A message whose first token is not the bot's name (up to ASCII case), or
/// that arrives before the name is known, runs no command: the only replies
/// it gets are those of the moderation rules, and none at all when neither
/// its author nor any mention is the blocked user.
pub proof fn unaddressed_message_is_silent(
    name: Option<Seq<char>>,
    owner: Option<UserId>,
    about: Seq<char>,
    blocked: UserId,
    m: MessageView,
)
    requires
        !is_addressed(name, m.content),
    ensures
        message_actions(name, owner, about, blocked, m) == if m.author_is_bot {
            Seq::<ActionView>::empty()
        } else {
            moderation_replies(m.author, m.mentions, blocked)
        },
        m.author != blocked && !m.mentions.contains(blocked) ==> message_actions(
            name,
            owner,
            about,
            blocked,
            m,
        ).len() == 0,
{
    lemma_moderation(m.author, m.mentions, blocked);
    assert(moderation_replies(m.author, m.mentions, blocked) + Seq::<ActionView>::empty()
        =~= moderation_replies(m.author, m.mentions, blocked));
}

/// A message addressed to the bot that holds no second token is silent in
/// the same way: it runs no command, and only the moderation rules may reply.
pub proof fn commandless_message_is_silent(
    name: Option<Seq<char>>,
    owner: Option<UserId>,
    about: Seq<char>,
    blocked: UserId,
    m: MessageView,
)
    requires
        !has_verb(m.content),
    ensures
        command_actions(name, owner, m.author, about, m.content).len() == 0,
        message_actions(name, owner, about, blocked, m) == if m.author_is_bot {
            Seq::<ActionView>::empty()
        } else {
            moderation_replies(m.author, m.mentions, blocked)
        },
        m.author != blocked && !m.mentions.contains(blocked) ==> message_actions(
            name,
            owner,
            about,
            blocked,
            m,
        ).len() == 0,
{
    lemma_moderation(m.author, m.mentions, blocked);
    assert(moderation_replies(m.author, m.mentions, blocked) + Seq::<ActionView>::empty()
        =~= moderation_replies(m.author, m.mentions, blocked));
}

/// `restart` or `exit` from anyone but the registered owner gets exactly the
/// reply "You are not the owner", and the message raises no signal.
pub proof fn non_owner_is_refused(
    name: Option<Seq<char>>,
    owner: UserId,
    about: Seq<char>,
    blocked: UserId,
    m: MessageView,
)
    requires
        is_addressed(name, m.content),
        has_verb(m.content),
        verb_of(m.content) == "restart"@ || verb_of(m.content) == "exit"@,
        m.author != owner,
    ensures
        command_actions(name, Some(owner), m.author, about, m.content) == seq![
            ActionView::Reply("You are not the owner"@),
        ],
        raises_nothing(message_actions(name, Some(owner), about, blocked, m)),
{
    lemma_literals();
    lemma_moderation(m.author, m.mentions, blocked);
    let all = message_actions(name, Some(owner), about, blocked, m);
    let md = moderation_replies(m.author, m.mentions, blocked);
    if !m.author_is_bot {
        assert forall|i: int| 0 <= i < all.len() implies !(#[trigger] all[i] is Raise) by {
            if i < md.len() {
                assert(all[i] == md[i]);
            }
        }
    }
}

/// `restart` or `exit` from the owner gets, after the moderation replies, its
/// acknowledgement and then the matching signal, last.
pub proof fn owner_command_acknowledges_then_signals(
    name: Option<Seq<char>>,
    about: Seq<char>,
    blocked: UserId,
    m: MessageView,
)
    requires
        !m.author_is_bot,
        is_addressed(name, m.content),
        has_verb(m.content),
    ensures
        verb_of(m.content) == "restart"@ ==> message_actions(name, Some(m.author), about, blocked, m)
            == moderation_replies(m.author, m.mentions, blocked) + seq![
            ActionView::Reply("restarting…"@),
            ActionView::Raise(ControlSignal::Restart),
        ],
        verb_of(m.content) == "exit"@ ==> message_actions(name, Some(m.author), about, blocked, m)
            == moderation_replies(m.author, m.mentions, blocked) + seq![
            ActionView::Reply("exiting…"@),
            ActionView::Raise(ControlSignal::Exit),
        ],
{
    lemma_literals();
}

/// Whatever the message and the session, a control signal is the last action
/// and comes right after a reply: the reply is sent before the process loop
/// sees the signal.
pub proof fn signal_is_last_after_reply(
    name: Option<Seq<char>>,
    owner: Option<UserId>,
    about: Seq<char>,
    blocked: UserId,
    m: MessageView,
)
    ensures
        signal_follows_reply(message_actions(name, owner, about, blocked, m)),
{
    lemma_moderation(m.author, m.mentions, blocked);
    let all = message_actions(name, owner, about, blocked, m);
    let md = moderation_replies(m.author, m.mentions, blocked);
    let cmd = command_actions(name, owner, m.author, about, m.content);
    if !m.author_is_bot {
        assert(all == md + cmd);
        assert forall|i: int| 0 <= i < all.len() && (#[trigger] all[i] is Raise) implies i == all.len() - 1
            && i >= 1 && all[i - 1] is Reply by {
            if i < md.len() {
                assert(all[i] == md[i]);
            } else {
                assert(all[i] == cmd[i - md.len()]);
                assert(all[i - 1] == cmd[i - 1 - md.len()]);
            }
        }
    }
}

/// `info` answers anyone, owner or not, registered owner or none, with the
/// configured text alone, and raises nothing.
pub proof fn info_answers_anyone(
    about: Seq<char>,
    owner_a: Option<UserId>,
    author_a: UserId,
    owner_b: Option<UserId>,
    author_b: UserId,
)
    ensures
        verb_actions("info"@, owner_a, author_a, about) == seq![ActionView::Reply(about)],
        verb_actions("info"@, owner_a, author_a, about) == verb_actions("info"@, owner_b, author_b, about),
{
}

} // verus!
