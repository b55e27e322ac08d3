//! The plain values that flow between the gateway, the dispatcher and the
//! process loop.

use vstd::prelude::*;

verus! {

/// A chat user, by numeric id.
#[derive(Clone, Copy, Debug, PartialEq, Eq, Structural)]
pub struct UserId(pub u64);

/// A chat channel, by numeric id.
#[derive(Clone, Copy, Debug, PartialEq, Eq, Structural)]
pub struct ChannelId(pub u64);

/// A request, raised by a privileged command, that the process loop restart
/// with a fresh session or stop. It is never an error.
#[derive(Clone, Copy, Debug, PartialEq, Eq, Structural)]
pub enum ControlSignal {
    Restart,
    Exit,
}

/// A chat message as the dispatcher sees it.
#[derive(Clone, Debug, PartialEq, Eq)]
pub struct Message {
    pub author: UserId,
    pub author_is_bot: bool,
    pub channel: ChannelId,
    pub content: String,
    pub mentions: Vec<UserId>,
}

/// The mathematical value of a [`Message`].
pub ghost struct MessageView {
    pub author: UserId,
    pub author_is_bot: bool,
    pub channel: ChannelId,
    pub content: Seq<char>,
    pub mentions: Seq<UserId>,
}

impl View for Message {
    type V = MessageView;

    open spec fn view(&self) -> MessageView {
        MessageView {
            author: self.author,
            author_is_bot: self.author_is_bot,
            channel: self.channel,
            content: self.content@,
            mentions: self.mentions@,
        }
    }
}

/// The gateway events that the bot acts on; every other kind is `Other`.
#[derive(Clone, Debug, PartialEq, Eq)]
pub enum Event {
    /// The gateway confirmed the bot's identity, under this user name.
    Ready { name: String },
    /// A message was posted in a channel the bot can see.
    MessageCreate(Message),
    Other,
}

/// One step that the caller of the dispatcher carries out, in order.
#[derive(Clone, Debug, PartialEq, Eq)]
pub enum Action {
    /// Post this text to the channel of the message being handled.
    Reply(String),
    /// Write this line to the operator's output.
    Announce(String),
    /// Hand this signal to the process loop; nothing follows it.
    Raise(ControlSignal),
}

/// The mathematical value of an [`Action`].
pub ghost enum ActionView {
    Reply(Seq<char>),
    Announce(Seq<char>),
    Raise(ControlSignal),
}

impl View for Action {
    type V = ActionView;

    open spec fn view(&self) -> ActionView {
        match self {
            Action::Reply(t) => ActionView::Reply(t@),
            Action::Announce(t) => ActionView::Announce(t@),
            Action::Raise(s) => ActionView::Raise(*s),
        }
    }
}

/// The values of a list of actions.
pub open spec fn actions_view(v: Seq<Action>) -> Seq<ActionView> {
    v.map_values(|a: Action| a@)
}

} // verus!
