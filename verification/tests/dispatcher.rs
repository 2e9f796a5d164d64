use yearbot::dispatch::Action;
use yearbot::dispatch::decide;
use yearbot::dispatch::handle_message;
use yearbot::dispatch::help_message;
use yearbot::dispatch::ping_message;
use yearbot::dispatch::unknown_message;
use yearbot::instant::Instant;

fn midyear() -> Instant {
    // 2024-07-02T12:00:00Z: day 184 of 366, leap year.
    Instant::from_fields(2024, 184, 12).unwrap()
}

#[test]
fn bare_trigger_reports_progress() {
    let reply = handle_message(false, "!yp", &midyear(), 0);
    assert_eq!(reply.unwrap(), "[▓▓▓▓▓▓▓░░░░░░░░] 50%");
}

#[test]
fn ping_reports_latency() {
    let reply = handle_message(false, "!yp ping", &midyear(), 200);
    assert_eq!(reply.unwrap(), "Pong! This message had a latency of 200ms.");
}

#[test]
fn negative_latency_is_rendered_signed() {
    let reply = handle_message(false, "!yp ping", &midyear(), -5);
    assert_eq!(reply.unwrap(), "Pong! This message had a latency of -5ms.");
}

#[test]
fn help_is_the_fixed_text() {
    let reply = handle_message(false, "!yp help", &midyear(), 0);
    assert_eq!(
        reply.unwrap(),
        "Available commands:\n1. !yp\n2. !yp ping\n-> !yp help"
    );
}

#[test]
fn unknown_argument_is_the_fixed_error() {
    let reply = handle_message(false, "!yp foo", &midyear(), 0);
    assert_eq!(
        reply.unwrap(),
        "Unknown arguments. Try '!yp help' for more information."
    );
}

#[test]
fn foreign_command_is_ignored() {
    assert!(handle_message(false, "!other", &midyear(), 0).is_none());
}

#[test]
fn bot_author_is_ignored() {
    assert!(handle_message(true, "!yp", &midyear(), 0).is_none());
}

#[test]
fn missing_prefix_is_ignored() {
    assert!(handle_message(false, "yp", &midyear(), 0).is_none());
    assert!(handle_message(false, "hello !yp", &midyear(), 0).is_none());
    assert!(handle_message(false, "", &midyear(), 0).is_none());
    assert!(handle_message(false, "!", &midyear(), 0).is_none());
}

#[test]
fn trigger_is_case_insensitive() {
    let reply = handle_message(false, "!YP", &midyear(), 0);
    assert_eq!(reply.unwrap(), "[▓▓▓▓▓▓▓░░░░░░░░] 50%");
    let reply = handle_message(false, "!Yp ping", &midyear(), 7);
    assert_eq!(reply.unwrap(), "Pong! This message had a latency of 7ms.");
}

#[test]
fn arguments_are_case_sensitive() {
    let reply = handle_message(false, "!yp PING", &midyear(), 0);
    assert_eq!(
        reply.unwrap(),
        "Unknown arguments. Try '!yp help' for more information."
    );
}

#[test]
fn extra_arguments_after_ping_are_ignored() {
    let reply = handle_message(false, "!yp ping now please", &midyear(), 31);
    assert_eq!(reply.unwrap(), "Pong! This message had a latency of 31ms.");
}

#[test]
fn trailing_space_is_an_empty_argument() {
    let reply = handle_message(false, "!yp ", &midyear(), 0);
    assert_eq!(
        reply.unwrap(),
        "Unknown arguments. Try '!yp help' for more information."
    );
}

#[test]
fn decide_covers_every_action() {
    assert_eq!(decide(true, "!yp"), Action::Ignore);
    assert_eq!(decide(false, "no prefix"), Action::Ignore);
    assert_eq!(decide(false, "!other"), Action::Ignore);
    assert_eq!(decide(false, "!yp"), Action::ReportProgress);
    assert_eq!(decide(false, "!yp ping"), Action::Ping);
    assert_eq!(decide(false, "!yp help"), Action::Help);
    assert_eq!(decide(false, "!yp anything"), Action::UnknownArguments);
}

#[test]
fn reply_texts_match_their_builders() {
    assert_eq!(
        help_message(),
        "Available commands:\n1. !yp\n2. !yp ping\n-> !yp help"
    );
    assert_eq!(
        unknown_message(),
        "Unknown arguments. Try '!yp help' for more information."
    );
    assert_eq!(ping_message(0), "Pong! This message had a latency of 0ms.");
    assert_eq!(
        ping_message(i64::MAX),
        "Pong! This message had a latency of 9223372036854775807ms."
    );
    assert_eq!(
        ping_message(i64::MIN),
        "Pong! This message had a latency of -9223372036854775808ms."
    );
}
