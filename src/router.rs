//! Routing of one chat message: the two moderation rules, then the commands
//! addressed to the bot by name.

use vstd::prelude::*;
use vstd::string::*;
use crate::model::{Action, ActionView, ControlSignal, Message, MessageView, UserId, actions_view};
use crate::text::{decimal, eq_ignore_ascii_case, find_token_end, first_token_matches, push_decimal, token_end};

verus! {

/// The user whose messages and mentions get a retort.
pub const BLOCKED_USER: u64 = 687492720356491400;

/// What the router needs beside the session: the text of `info` and the
/// user that the moderation rules single out.
#[derive(Clone, Debug)]
pub struct Config {
    pub about: String,
    pub blocked: UserId,
}

impl Config {
    /// A configuration whose `info` reply reads `<package> v<version>`.
    pub fn new(package: &str, version: &str) -> (r: Config)
        ensures
            r.about@ == package@ + " v"@ + version@,
            r.blocked == UserId(BLOCKED_USER),
    {
        let mut about = String::from_str(package);
        about.append(" v");
        about.append(version);
        Config { about, blocked: UserId(BLOCKED_USER) }
    }
}

/// The reply to a mention of the blocked user.
pub open spec fn mention_retort(blocked: UserId) -> Seq<char> {
    "haha <@"@ + decimal(blocked.0 as nat) + ">"@
}

/// One reply for each mention of the blocked user, in the order of `mentions`.
pub open spec fn mention_replies(mentions: Seq<UserId>, blocked: UserId) -> Seq<ActionView>
    decreases mentions.len(),
{
    if mentions.len() == 0 {
        seq![]
    } else {
        let rest = mention_replies(mentions.drop_last(), blocked);
        if mentions.last() == blocked {
            rest.push(ActionView::Reply(mention_retort(blocked)))
        } else {
            rest
        }
    }
}

/// The replies of the moderation rules: the retort to the blocked author,
/// then one per mention of the blocked user.
pub open spec fn moderation_replies(author: UserId, mentions: Seq<UserId>, blocked: UserId) -> Seq<
    ActionView,
> {
    let own: Seq<ActionView> = if author == blocked {
        seq![ActionView::Reply("shut up"@)]
    } else {
        seq![]
    };
    own + mention_replies(mentions, blocked)
}

/// The first token of `content` names the bot: its name is known and equals
/// that token up to ASCII case.
pub open spec fn is_addressed(name: Option<Seq<char>>, content: Seq<char>) -> bool {
    &&& name is Some
    &&& eq_ignore_ascii_case(content.take(token_end(content, 0)), name->0)
}

/// `content` holds a second token.
pub open spec fn has_verb(content: Seq<char>) -> bool {
    token_end(content, 0) < content.len()
}

/// The second token of `content`.
pub open spec fn verb_of(content: Seq<char>) -> Seq<char> {
    let e = token_end(content, 0);
    content.subrange(e + 1, token_end(content, e + 1))
}

/// A privileged command: refused without a registered owner or for anyone
/// but the owner; for the owner, the acknowledgement and then the signal.
pub open spec fn privileged(
    owner: Option<UserId>,
    author: UserId,
    ack: Seq<char>,
    signal: ControlSignal,
) -> Seq<ActionView> {
    match owner {
        None => seq![ActionView::Reply("an owner is not registered"@)],
        Some(o) => if o == author {
            seq![ActionView::Reply(ack), ActionView::Raise(signal)]
        } else {
            seq![ActionView::Reply("You are not the owner"@)]
        },
    }
}

/// What a command verb does.
pub open spec fn verb_actions(verb: Seq<char>, owner: Option<UserId>, author: UserId, about: Seq<char>) -> Seq<
    ActionView,
> {
    if verb == "info"@ {
        seq![ActionView::Reply(about)]
    } else if verb == "restart"@ {
        privileged(owner, author, "restarting…"@, ControlSignal::Restart)
    } else if verb == "exit"@ {
        privileged(owner, author, "exiting…"@, ControlSignal::Exit)
    } else {
        seq![ActionView::Reply("command `"@ + verb + "` not recognized"@)]
    }
}

/// What the command part of a message does: nothing unless it is addressed
/// to the bot and holds a verb.
pub open spec fn command_actions(
    name: Option<Seq<char>>,
    owner: Option<UserId>,
    author: UserId,
    about: Seq<char>,
    content: Seq<char>,
) -> Seq<ActionView> {
    if is_addressed(name, content) && has_verb(content) {
        verb_actions(verb_of(content), owner, author, about)
    } else {
        seq![]
    }
}

/// Everything a message leads to: nothing for a bot author; otherwise the
/// moderation replies, then the command's actions.
pub open spec fn message_actions(
    name: Option<Seq<char>>,
    owner: Option<UserId>,
    about: Seq<char>,
    blocked: UserId,
    m: MessageView,
) -> Seq<ActionView> {
    if m.author_is_bot {
        seq![]
    } else {
        moderation_replies(m.author, m.mentions, blocked) + command_actions(
            name,
            owner,
            m.author,
            about,
            m.content,
        )
    }
}

proof fn lemma_push_view(v: Seq<Action>, a: Action)
    ensures
        actions_view(v.push(a)) == actions_view(v).push(a@),
{
    assert(actions_view(v.push(a)) =~= actions_view(v).push(a@));
}

fn reply(text: &str) -> (r: Action)
    ensures
        r@ == ActionView::Reply(text@),
{
    Action::Reply(String::from_str(text))
}

/// The moderation replies to a message from `author` that mentions `mentions`.
pub fn moderation(author: UserId, mentions: &Vec<UserId>, blocked: UserId) -> (r: Vec<Action>)
    ensures
        actions_view(r@) == moderation_replies(author, mentions@, blocked),
{
    let mut out: Vec<Action> = Vec::new();
    if author == blocked {
        let a = reply("shut up");
        proof { lemma_push_view(out@, a); }
        out.push(a);
    }
    let ghost own = actions_view(out@);
    assert(actions_view(out@) == own + mention_replies(mentions@.take(0), blocked)) by {
        assert(own + mention_replies(mentions@.take(0), blocked) =~= own);
    }
    let mut i: usize = 0;
    while i < mentions.len()
        invariant
            0 <= i <= mentions@.len(),
            actions_view(out@) == own + mention_replies(mentions@.take(i as int), blocked),
        decreases mentions@.len() - i,
    {
        assert(mentions@.take(i + 1).drop_last() =~= mentions@.take(i as int));
        if mentions[i] == blocked {
            let mut t = String::from_str("haha <@");
            push_decimal(&mut t, blocked.0);
            t.append(">");
            let a = Action::Reply(t);
            proof { lemma_push_view(out@, a); }
            out.push(a);
        }
        i = i + 1;
    }
    assert(mentions@.take(mentions@.len() as int) =~= mentions@);
    proof {
        if author == blocked {
            assert(own =~= seq![ActionView::Reply("shut up"@)]);
        } else {
            assert(own =~= Seq::<ActionView>::empty());
        }
    }
    out
}

/// The `info` command: the configured text, whoever asks.
pub fn info(about: &String) -> (r: Vec<Action>)
    ensures
        actions_view(r@) == seq![ActionView::Reply(about@)],
{
    let mut out: Vec<Action> = Vec::new();
    out.push(Action::Reply(about.clone()));
    assert(actions_view(out@) =~= seq![ActionView::Reply(about@)]);
    out
}

/// The `restart` command asked by `author`.
pub fn restart(owner: Option<UserId>, author: UserId) -> (r: Vec<Action>)
    ensures
        actions_view(r@) == privileged(owner, author, "restarting…"@, ControlSignal::Restart),
{
    privileged_command(owner, author, "restarting…", ControlSignal::Restart)
}

/// The `exit` command asked by `author`.
pub fn exit(owner: Option<UserId>, author: UserId) -> (r: Vec<Action>)
    ensures
        actions_view(r@) == privileged(owner, author, "exiting…"@, ControlSignal::Exit),
{
    privileged_command(owner, author, "exiting…", ControlSignal::Exit)
}

fn privileged_command(owner: Option<UserId>, author: UserId, ack: &str, signal: ControlSignal) -> (r: Vec<Action>)
    ensures
        actions_view(r@) == privileged(owner, author, ack@, signal),
{
    let mut out: Vec<Action> = Vec::new();
    match owner {
        None => {
            out.push(reply("an owner is not registered"));
        },
        Some(o) => {
            if o == author {
                out.push(reply(ack));
                out.push(Action::Raise(signal));
            } else {
                out.push(reply("You are not the owner"));
            }
        },
    }
    assert(actions_view(out@) =~= privileged(owner, author, ack@, signal));
    out
}

/// The actions of the command part of a message, given the bot's name (none
/// before the gateway confirmed it) and its owner.
pub fn route_command(name: &Option<String>, owner: Option<UserId>, author: UserId, about: &String, content: &String) -> (r: Vec<Action>)
    ensures
        actions_view(r@) == command_actions(
            match name { Some(s) => Some(s@), None => None },
            owner,
            author,
            about@,
            content@,
        ),
{
    let text = content.as_str();
    let n: usize = text.unicode_len();
    let e: usize = find_token_end(text, 0);
    proof { crate::text::lemma_token_end_bounds(content@, 0); }
    let addressed = match name {
        None => false,
        Some(s) => first_token_matches(text, e, s.as_str()),
    };
    if !addressed || e == n {
        let out: Vec<Action> = Vec::new();
        assert(actions_view(out@) =~= Seq::<ActionView>::empty());
        return out;
    }
    let e2: usize = find_token_end(text, e + 1);
    proof { crate::text::lemma_token_end_bounds(content@, e + 1); }
    let verb = String::from_str(text.substring_char(e + 1, e2));
    assert(verb@ == verb_of(content@));
    let mut out: Vec<Action>;
    if verb == String::from_str("info") {
        out = info(about);
    } else if verb == String::from_str("restart") {
        out = restart(owner, author);
    } else if verb == String::from_str("exit") {
        out = exit(owner, author);
    } else {
        let mut t = String::from_str("command `");
        t.append(verb.as_str());
        t.append("` not recognized");
        out = Vec::new();
        out.push(Action::Reply(t));
        assert(actions_view(out@) =~= seq![ActionView::Reply("command `"@ + verb@ + "` not recognized"@)]);
    }
    out
}

} // verus!
