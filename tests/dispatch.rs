use kako::{Action, Bot, ChannelId, Config, ControlSignal, Event, Message, UserId, BLOCKED_USER};

const OWNER: u64 = 1001;
const OTHER: u64 = 2002;

fn config() -> Config {
    Config::new("kako", "0.1.0")
}

fn ready_bot(owner: Option<UserId>) -> Bot {
    let mut bot = Bot::new(String::from("tok"), owner);
    bot.set_name(String::from("kako"));
    bot
}

fn message(author: u64, content: &str) -> Message {
    Message {
        author: UserId(author),
        author_is_bot: false,
        channel: ChannelId(77),
        content: String::from(content),
        mentions: Vec::new(),
    }
}

fn reply(text: &str) -> Action {
    Action::Reply(String::from(text))
}

#[test]
fn owner_exit_acknowledges_then_raises_exit() {
    let bot = ready_bot(Some(UserId(OWNER)));
    let actions = bot.commands(&config(), &message(OWNER, "kako exit"));
    assert_eq!(actions, vec![reply("exiting…"), Action::Raise(ControlSignal::Exit)]);
}

#[test]
fn owner_restart_acknowledges_then_raises_restart() {
    let bot = ready_bot(Some(UserId(OWNER)));
    let actions = bot.commands(&config(), &message(OWNER, "kako restart"));
    assert_eq!(actions, vec![reply("restarting…"), Action::Raise(ControlSignal::Restart)]);
}

#[test]
fn non_owner_restart_is_refused() {
    let bot = ready_bot(Some(UserId(OWNER)));
    let actions = bot.commands(&config(), &message(OTHER, "kako restart"));
    assert_eq!(actions, vec![reply("You are not the owner")]);
}

#[test]
fn non_owner_exit_is_refused() {
    let bot = ready_bot(Some(UserId(OWNER)));
    let actions = bot.commands(&config(), &message(OTHER, "kako exit"));
    assert_eq!(actions, vec![reply("You are not the owner")]);
}

#[test]
fn privileged_without_owner_is_refused() {
    let bot = ready_bot(None);
    let actions = bot.commands(&config(), &message(OWNER, "kako exit"));
    assert_eq!(actions, vec![reply("an owner is not registered")]);
    let actions = bot.commands(&config(), &message(OWNER, "kako restart"));
    assert_eq!(actions, vec![reply("an owner is not registered")]);
}

#[test]
fn info_matches_name_ignoring_case() {
    let bot = ready_bot(Some(UserId(OWNER)));
    let actions = bot.commands(&config(), &message(OTHER, "KAKO info"));
    assert_eq!(actions, vec![reply("kako v0.1.0")]);
}

#[test]
fn info_is_the_same_for_everyone_and_repeats() {
    let mut bot = ready_bot(Some(UserId(OWNER)));
    let cfg = config();
    let first = bot.matcher(&cfg, Event::MessageCreate(message(OWNER, "kako info")));
    let second = bot.matcher(&cfg, Event::MessageCreate(message(OTHER, "kako info")));
    assert_eq!(first, vec![reply("kako v0.1.0")]);
    assert_eq!(first, second);
    assert_eq!(bot.name(), "kako");
    assert_eq!(bot.owner(), Some(UserId(OWNER)));
}

#[test]
fn bot_author_gets_nothing() {
    let bot = ready_bot(Some(UserId(OWNER)));
    let mut m = message(BLOCKED_USER, "kako exit");
    m.author_is_bot = true;
    m.mentions = vec![UserId(BLOCKED_USER)];
    assert_eq!(bot.commands(&config(), &m), Vec::new());
}

#[test]
fn blocked_author_gets_retort_whatever_the_content() {
    let bot = ready_bot(Some(UserId(OWNER)));
    let actions = bot.commands(&config(), &message(BLOCKED_USER, "hello there"));
    assert_eq!(actions, vec![reply("shut up")]);
    let actions = bot.commands(&config(), &message(BLOCKED_USER, "kako info"));
    assert_eq!(actions, vec![reply("shut up"), reply("kako v0.1.0")]);
}

#[test]
fn mentions_of_blocked_user_each_get_a_reply() {
    let bot = ready_bot(Some(UserId(OWNER)));
    let mut m = message(OTHER, "hi");
    m.mentions = vec![UserId(BLOCKED_USER), UserId(OWNER), UserId(BLOCKED_USER)];
    let retort = reply("haha <@687492720356491400>");
    assert_eq!(bot.commands(&config(), &m), vec![retort.clone(), retort]);
}

#[test]
fn unaddressed_message_is_ignored() {
    let bot = ready_bot(Some(UserId(OWNER)));
    assert_eq!(bot.commands(&config(), &message(OWNER, "hello exit")), Vec::new());
    assert_eq!(bot.commands(&config(), &message(OWNER, "kakoexit")), Vec::new());
    assert_eq!(bot.commands(&config(), &message(OWNER, "")), Vec::new());
}

#[test]
fn name_alone_is_silent() {
    let bot = ready_bot(Some(UserId(OWNER)));
    assert_eq!(bot.commands(&config(), &message(OWNER, "kako")), Vec::new());
    assert_eq!(bot.commands(&config(), &message(OWNER, "Kako")), Vec::new());
}

#[test]
fn unknown_verb_is_named_in_reply() {
    let bot = ready_bot(Some(UserId(OWNER)));
    let actions = bot.commands(&config(), &message(OTHER, "kako dance now"));
    assert_eq!(actions, vec![reply("command `dance` not recognized")]);
}

#[test]
fn empty_verb_after_trailing_space() {
    let bot = ready_bot(Some(UserId(OWNER)));
    let actions = bot.commands(&config(), &message(OTHER, "kako "));
    assert_eq!(actions, vec![reply("command `` not recognized")]);
    let actions = bot.commands(&config(), &message(OTHER, "kako  info"));
    assert_eq!(actions, vec![reply("command `` not recognized")]);
}

#[test]
fn verbs_are_case_sensitive() {
    let bot = ready_bot(Some(UserId(OWNER)));
    let actions = bot.commands(&config(), &message(OWNER, "kako EXIT"));
    assert_eq!(actions, vec![reply("command `EXIT` not recognized")]);
}

#[test]
fn nothing_matches_before_the_name_is_known() {
    let bot = Bot::new(String::from("tok"), Some(UserId(OWNER)));
    assert_eq!(bot.name(), "");
    assert_eq!(bot.commands(&config(), &message(OWNER, " exit")), Vec::new());
    assert_eq!(bot.commands(&config(), &message(OWNER, "kako exit")), Vec::new());
}

#[test]
fn ready_sets_name_and_announces() {
    let mut bot = Bot::new(String::from("tok"), Some(UserId(OWNER)));
    let actions = bot.matcher(&config(), Event::Ready { name: String::from("kako") });
    assert_eq!(actions, vec![Action::Announce(String::from("kako ready!"))]);
    assert_eq!(bot.name(), "kako");
    assert_eq!(bot.token(), "tok");
    let actions = bot.matcher(&config(), Event::MessageCreate(message(OWNER, "kako exit")));
    assert_eq!(actions, vec![reply("exiting…"), Action::Raise(ControlSignal::Exit)]);
}

#[test]
fn other_events_do_nothing() {
    let mut bot = ready_bot(Some(UserId(OWNER)));
    assert_eq!(bot.matcher(&config(), Event::Other), Vec::new());
    assert_eq!(bot.name(), "kako");
}

#[test]
fn handle_records_shard_then_dispatches() {
    let mut bot = ready_bot(Some(UserId(OWNER)));
    let raw = twilight_model::gateway::event::Event::GatewayHeartbeatAck;
    let actions = bot.handle(&config(), 3, &raw, Event::MessageCreate(message(OTHER, "kako info")));
    assert_eq!(actions, vec![reply("kako v0.1.0")]);
    assert_eq!(bot.shard(), 3);
    bot.run(5, &raw);
    assert_eq!(bot.shard(), 5);
    assert_eq!(bot.name(), "kako");
}

/// Carries out actions the way the process does, recording each reply sent,
/// and returns how the session ended.
fn carry_out(actions: Vec<Action>, sent: &mut Vec<String>) -> Option<kako::SessionEnd> {
    for action in actions {
        match action {
            Action::Reply(text) => sent.push(text),
            Action::Announce(_) => {}
            Action::Raise(signal) => return Some(kako::SessionEnd::Signal(signal)),
        }
    }
    None
}

#[test]
fn owner_exit_round_trip() {
    let mut bot = ready_bot(Some(UserId(OWNER)));
    let mut sent = Vec::new();
    let actions = bot.matcher(&config(), Event::MessageCreate(message(OWNER, "kako exit")));
    let end = carry_out(actions, &mut sent);
    assert_eq!(sent, vec![String::from("exiting…")]);
    assert_eq!(end, Some(kako::SessionEnd::Signal(ControlSignal::Exit)));
    assert_eq!(kako::next_step(end.unwrap()), kako::Next::Terminate);
}

#[test]
fn owner_restart_round_trip() {
    let mut bot = ready_bot(Some(UserId(OWNER)));
    let mut sent = Vec::new();
    let actions = bot.matcher(&config(), Event::MessageCreate(message(OWNER, "kako restart")));
    let end = carry_out(actions, &mut sent);
    assert_eq!(sent, vec![String::from("restarting…")]);
    assert_eq!(kako::next_step(end.unwrap()), kako::Next::Reconnect);
}

#[test]
fn non_owner_round_trip_raises_nothing() {
    let mut bot = ready_bot(Some(UserId(OWNER)));
    let mut sent = Vec::new();
    let actions = bot.matcher(&config(), Event::MessageCreate(message(OTHER, "kako restart")));
    let end = carry_out(actions, &mut sent);
    assert_eq!(sent, vec![String::from("You are not the owner")]);
    assert_eq!(end, None);
}
