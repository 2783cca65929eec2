use auto_gippity::helpers::command_line::{
    classify_confirmation, clean_user_response, read_confirmation, Confirmation, PrintCommand,
    TextColor,
};
use auto_gippity::helpers::text::{join_text, same_text};

#[test]
fn tests_prints_agent_msg() {
    let (position, statement) = PrintCommand::AICall
        .agent_message("Managing Agent", "Testing testing, processing something");
    assert_eq!(position.color, TextColor::Green);
    assert_eq!(position.text, "Agent: Managing Agent: ");
    assert_eq!(statement.color, TextColor::Cyan);
    assert_eq!(statement.text, "Agent: Testing testing, processing something: ");
}

#[test]
fn each_kind_of_line_has_its_colour() {
    assert_eq!(PrintCommand::AICall.statement_color(), TextColor::Cyan);
    assert_eq!(PrintCommand::UnitTest.statement_color(), TextColor::Magenta);
    assert_eq!(PrintCommand::Issue.statement_color(), TextColor::Red);
}

#[test]
fn consent_tokens_are_classified() {
    for answer in ["1", "ok", "y"] {
        assert_eq!(classify_confirmation(answer), Confirmation::Proceed);
    }
    for answer in ["2", "no", "n"] {
        assert_eq!(classify_confirmation(answer), Confirmation::Stop);
    }
    for answer in ["", "yes", "3", "OK", " ok", "nope"] {
        assert_eq!(classify_confirmation(answer), Confirmation::Unrecognized);
    }
}

#[test]
fn a_line_is_trimmed_and_lowered_before_it_is_classified() {
    assert_eq!(read_confirmation("  OK \n"), Confirmation::Proceed);
    assert_eq!(read_confirmation("Y\r\n"), Confirmation::Proceed);
    assert_eq!(read_confirmation("1\n"), Confirmation::Proceed);
    assert_eq!(read_confirmation("\tNo\n"), Confirmation::Stop);
    assert_eq!(read_confirmation("N"), Confirmation::Stop);
    assert_eq!(read_confirmation("2 \n"), Confirmation::Stop);
    assert_eq!(read_confirmation("o k\n"), Confirmation::Unrecognized);
    assert_eq!(read_confirmation("\n"), Confirmation::Unrecognized);
}

#[test]
fn user_response_is_trimmed_only() {
    assert_eq!(clean_user_response("  Build Me a Shop \n"), "Build Me a Shop");
    assert_eq!(clean_user_response("\n"), "");
    assert_eq!(clean_user_response("inner  space"), "inner  space");
}

#[test]
fn texts_are_compared_and_joined_by_their_characters() {
    assert!(same_text("get", "get"));
    assert!(!same_text("get", "GET"));
    assert!(!same_text("get", "get "));
    assert_eq!(join_text("ab", "cd"), "abcd");
    assert_eq!(join_text("", ""), "");
}

fn has_white_space_property(c: char) -> bool {
    let code = c as u32;
    (0x09..=0x0D).contains(&code)
        || code == 0x20
        || code == 0x85
        || code == 0xA0
        || code == 0x1680
        || (0x2000..=0x200A).contains(&code)
        || code == 0x2028
        || code == 0x2029
        || code == 0x202F
        || code == 0x205F
        || code == 0x3000
}

#[test]
fn exactly_the_white_space_characters_are_trimmed() {
    let mut white = 0;
    for code in 0..=0x10FFFFu32 {
        if let Some(c) = char::from_u32(code) {
            let line = format!("{}core{}", c, c);
            let expected = if has_white_space_property(c) { "core".to_string() } else { line.clone() };
            assert_eq!(clean_user_response(&line), expected, "character U+{:04X}", code);
            if has_white_space_property(c) {
                white += 1;
            }
        }
    }
    assert_eq!(white, 25);
}

#[test]
fn trimming_takes_white_space_from_both_ends_only() {
    assert_eq!(clean_user_response(" \t\r\n\u{a0}\u{3000}a b\u{2003}c \u{85}\u{2028}\n"), "a b\u{2003}c");
    assert_eq!(clean_user_response("\u{200b}x\u{feff}"), "\u{200b}x\u{feff}");
    assert_eq!(clean_user_response(" \n\t "), "");
    assert_eq!(clean_user_response(""), "");
    assert_eq!(clean_user_response("tight"), "tight");
}
