use kako::{
    exit, find_token_end, first_token_matches, info, moderation, next_step, push_decimal, restart,
    route_command, Action, Config, ControlSignal, Next, SessionEnd, UserId, BLOCKED_USER,
};

#[test]
fn token_end_finds_first_space() {
    assert_eq!(find_token_end("kako info", 0), 4);
    assert_eq!(find_token_end("kako info", 5), 9);
    assert_eq!(find_token_end("kako", 0), 4);
    assert_eq!(find_token_end(" x", 0), 0);
    assert_eq!(find_token_end("", 0), 0);
    assert_eq!(find_token_end("é ü", 0), 1);
}

#[test]
fn first_token_compares_ascii_case_only() {
    assert!(first_token_matches("KaKo info", 4, "kako"));
    assert!(!first_token_matches("kakoo info", 5, "kako"));
    assert!(!first_token_matches("kak info", 3, "kako"));
    assert!(first_token_matches("É x", 1, "É"));
    assert!(!first_token_matches("É x", 1, "é"));
}

#[test]
fn decimal_rendering() {
    let mut s = String::from("n=");
    push_decimal(&mut s, 0);
    assert_eq!(s, "n=0");
    let mut s = String::new();
    push_decimal(&mut s, 1234567890);
    assert_eq!(s, "1234567890");
    let mut s = String::new();
    push_decimal(&mut s, u64::MAX);
    assert_eq!(s, "18446744073709551615");
}

#[test]
fn config_about_text() {
    let c = Config::new("kako", "2.3.4");
    assert_eq!(c.about, "kako v2.3.4");
    assert_eq!(c.blocked, UserId(BLOCKED_USER));
}

#[test]
fn command_helpers() {
    let about = String::from("x v1");
    assert_eq!(info(&about), vec![Action::Reply(about.clone())]);
    assert_eq!(
        restart(Some(UserId(1)), UserId(1)),
        vec![Action::Reply(String::from("restarting…")), Action::Raise(ControlSignal::Restart)]
    );
    assert_eq!(exit(Some(UserId(1)), UserId(2)), vec![Action::Reply(String::from("You are not the owner"))]);
    assert_eq!(exit(None, UserId(2)), vec![Action::Reply(String::from("an owner is not registered"))]);
}

#[test]
fn route_without_name_is_silent() {
    let about = String::from("x v1");
    assert_eq!(route_command(&None, Some(UserId(1)), UserId(1), &about, &String::from("kako exit")), Vec::new());
    let name = Some(String::from("kako"));
    assert_eq!(
        route_command(&name, Some(UserId(1)), UserId(1), &about, &String::from("kako exit")),
        vec![Action::Reply(String::from("exiting…")), Action::Raise(ControlSignal::Exit)]
    );
}

#[test]
fn moderation_without_blocked_user_is_empty() {
    assert_eq!(moderation(UserId(5), &vec![UserId(6)], UserId(BLOCKED_USER)), Vec::new());
    assert_eq!(
        moderation(UserId(7), &vec![UserId(7)], UserId(7)),
        vec![Action::Reply(String::from("shut up")), Action::Reply(String::from("haha <@7>"))]
    );
}

#[test]
fn loop_steps() {
    assert_eq!(next_step(SessionEnd::Signal(ControlSignal::Restart)), Next::Reconnect);
    assert_eq!(next_step(SessionEnd::Signal(ControlSignal::Exit)), Next::Terminate);
    assert_eq!(next_step(SessionEnd::StreamEnded), Next::Reconnect);
    assert_eq!(
        next_step(SessionEnd::Failed(String::from("exit"))),
        Next::ReportAndReconnect(String::from("exit"))
    );
}
