use telegramd::command::{decimal_string, Command, Reply};

#[test]
fn getid_replies_in_chat_with_id_as_code() {
    match Command::answer(99, Command::GetId) {
        Reply::Text { chat, text, html } => {
            assert_eq!(chat, 99);
            assert_eq!(text, "The chat ID is: <code>99</code>");
            assert!(html);
        }
        Reply::Dice { .. } => panic!("expected a text reply"),
    }
}

#[test]
fn getid_renders_negative_group_id() {
    match Command::answer(-1001234567890, Command::GetId) {
        Reply::Text { chat, text, .. } => {
            assert_eq!(chat, -1001234567890);
            assert_eq!(text, "The chat ID is: <code>-1001234567890</code>");
        }
        Reply::Dice { .. } => panic!("expected a text reply"),
    }
}

#[test]
fn ping_replies_pong() {
    match Command::answer(7, Command::Ping) {
        Reply::Text { chat, text, html } => {
            assert_eq!(chat, 7);
            assert_eq!(text, "pong!");
            assert!(!html);
        }
        Reply::Dice { .. } => panic!("expected a text reply"),
    }
}

#[test]
fn help_replies_with_descriptions() {
    match Command::answer(5, Command::Help) {
        Reply::Text { chat, text, html } => {
            assert_eq!(chat, 5);
            assert_eq!(
                text,
                "/help \u{2014} Help\n/getid \u{2014} Get chat id\n/ping \u{2014} Pong!\n/dice \u{2014} Roll a dice"
            );
            assert!(!html);
        }
        Reply::Dice { .. } => panic!("expected a text reply"),
    }
}

#[test]
fn dice_asks_platform_for_a_roll() {
    assert!(matches!(Command::answer(12, Command::Dice), Reply::Dice { chat: 12 }));
}

#[test]
fn decimal_rendering_edges() {
    assert_eq!(decimal_string(0), "0");
    assert_eq!(decimal_string(9), "9");
    assert_eq!(decimal_string(10), "10");
    assert_eq!(decimal_string(-7), "-7");
    assert_eq!(decimal_string(i64::MAX), "9223372036854775807");
    assert_eq!(decimal_string(i64::MIN), "-9223372036854775808");
}

#[test]
fn parses_commands_ignoring_case() {
    assert_eq!(Command::parse("/getid", "MyBot"), Some(Command::GetId));
    assert_eq!(Command::parse("/GetId", "MyBot"), Some(Command::GetId));
    assert_eq!(Command::parse("/PING", "MyBot"), Some(Command::Ping));
    assert_eq!(Command::parse("/help now please", "MyBot"), Some(Command::Help));
    assert_eq!(Command::parse("/dice@mybot", "MyBot"), Some(Command::Dice));
}

#[test]
fn rejects_other_texts() {
    assert_eq!(Command::parse("/dice@OtherBot", "MyBot"), None);
    assert_eq!(Command::parse("hello /ping", "MyBot"), None);
    assert_eq!(Command::parse("/pingx", "MyBot"), None);
    assert_eq!(Command::parse("", "MyBot"), None);
    assert_eq!(Command::parse("/", "MyBot"), None);
    assert_eq!(Command::parse("ping", "MyBot"), None);
}

#[test]
fn matches_ascii_case_only() {
    assert!(telegramd::command::equal_ignoring_case("GeTiD", "getid"));
    assert!(!telegramd::command::equal_ignoring_case("get", "getid"));
    assert!(!telegramd::command::equal_ignoring_case("[", "{"));
}
