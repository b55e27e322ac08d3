//! A small chat bot core: the session state kept for one gateway connection,
//! the routing of chat messages to the bot's commands, and the signals by which
//! a command asks the process loop to restart or stop.
//!
//! The library decides; its caller acts. For each gateway event the caller
//! gets back a list of [`Action`]s to carry out in order: replies to post,
//! lines to write, and at most one [`ControlSignal`], always last. When a
//! session ends, [`next_step`] says whether to reconnect, report or stop.

mod bot;
mod laws;
mod lifecycle;
mod model;
mod router;
mod text;

pub use bot::{message_actions_of, ready_line, Bot, BotView, EventCache};
pub use laws::{
    commandless_message_is_silent, info_answers_anyone, non_owner_is_refused,
    owner_command_acknowledges_then_signals, raises_nothing, signal_follows_reply,
    signal_is_last_after_reply, unaddressed_message_is_silent,
};
pub use lifecycle::{next_step, Next, SessionEnd};
pub use model::{actions_view, Action, ActionView, ChannelId, ControlSignal, Event, Message, MessageView, UserId};
pub use router::{
    command_actions, exit, has_verb, info, is_addressed, mention_replies, mention_retort,
    message_actions, moderation, moderation_replies, privileged, restart, route_command,
    verb_actions, verb_of, Config, BLOCKED_USER,
};
pub use text::{
    decimal, eq_ignore_ascii_case, find_token_end, first_token_matches, fold_ascii, push_decimal,
    token_end,
};
