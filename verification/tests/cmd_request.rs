use magit::cmd_request::{
    next_join_delay, parse_command, split_cmd_words, invite_is_for_user, Command,
};

#[test]
fn nothing_special() {
    assert_eq!(split_cmd_words("a b c d").unwrap(), ["a", "b", "c", "d"]);
}

#[test]
fn quoted_strings() {
    assert_eq!(split_cmd_words("a \"b b\" a").unwrap(), ["a", "b b", "a"]);
}

#[test]
fn escaped_double_quotes() {
    assert_eq!(split_cmd_words("a \"\\\"b\\\" c\" d").unwrap(), ["a", "\"b\" c", "d"]);
}

#[test]
fn escaped_single_quotes() {
    assert_eq!(split_cmd_words("a \"'b' c\" d").unwrap(), ["a", "'b' c", "d"]);
}

#[test]
fn escaped_spaces() {
    assert_eq!(split_cmd_words("a b\\ c d").unwrap(), ["a", "b c", "d"]);
}

#[test]
fn bad_double_quotes() {
    assert_eq!(split_cmd_words("a \"b c d e").unwrap_err(), "Mismatched quotes oops");
}

#[test]
fn bad_single_quotes() {
    assert_eq!(split_cmd_words("a 'b c d e").unwrap_err(), "Mismatched quotes oops");
}

#[test]
fn bad_quotes() {
    assert_eq!(split_cmd_words("one '\"\"\"").unwrap_err(), "Mismatched quotes oops");
}

#[test]
fn trailing_whitespace() {
    assert_eq!(split_cmd_words("a b c d ").unwrap(), ["a", "b", "c", "d"]);
}

#[test]
fn percent_signs() {
    assert_eq!(split_cmd_words("abc '%foo bar%'").unwrap(), ["abc", "%foo bar%"]);
}

#[test]
fn invalid_escape_is_refused() {
    assert_eq!(split_cmd_words("a \\q").unwrap_err(), "Invalid escape char");
    assert_eq!(split_cmd_words("a \\").unwrap_err(), "Invalid escape char");
}

#[test]
fn escapes_name_control_characters() {
    assert_eq!(split_cmd_words("\\n\\t\\e\\$").unwrap(), ["\n\t\u{1b}$"]);
}

#[test]
fn doubled_space_gives_empty_word() {
    assert_eq!(split_cmd_words("a  b").unwrap(), ["a", "", "b"]);
}

#[test]
fn other_quote_inside_quotes_is_kept() {
    assert_eq!(split_cmd_words("'a\"b'").unwrap(), ["a\"b"]);
    assert_eq!(split_cmd_words("x'a b'y").unwrap(), ["xa by"]);
}

#[test]
fn joined_plain_words_split_back() {
    let words = ["party", "create", "issue", "x-y_z"];
    let line = words.join(" ");
    assert_eq!(split_cmd_words(&line).unwrap(), words);
}

#[test]
fn party_command() {
    match parse_command("!github party hello") {
        Some(Command::Octocat(m)) => assert_eq!(m, "hello"),
        _ => panic!("expected an octocat command"),
    }
}

#[test]
fn create_issue_commands() {
    match parse_command("!github create issue \"a title\"") {
        Some(Command::Create(t, None)) => assert_eq!(t, "a title"),
        _ => panic!("expected an issue without a body"),
    }
    match parse_command("!github create issue title 'the body'") {
        Some(Command::Create(t, Some(b))) => {
            assert_eq!(t, "title");
            assert_eq!(b, "the body");
        }
        _ => panic!("expected an issue with a body"),
    }
}

#[test]
fn messages_that_are_no_command() {
    assert!(parse_command("github party hello").is_none());
    assert!(parse_command("!github party").is_none());
    assert!(parse_command("!github party 'unclosed").is_none());
    assert!(parse_command("!github create pr title").is_none());
    assert!(parse_command("!github create issue a b c").is_none());
}

#[test]
fn invites_for_the_bot() {
    assert!(invite_is_for_user("@magit:matrix.org", "magit"));
    assert!(!invite_is_for_user("@other:matrix.org", "magit"));
    assert!(invite_is_for_user("anything", ""));
}

#[test]
fn join_retry_schedule() {
    let mut delay = 2;
    let mut waits = vec![delay];
    while let Some(next) = next_join_delay(delay) {
        delay = next;
        waits.push(delay);
    }
    assert_eq!(waits, [2, 4, 8, 16, 32, 64, 128, 256, 512, 1024, 2048]);
    assert_eq!(next_join_delay(1800), Some(3600));
    assert_eq!(next_join_delay(1801), None);
    assert_eq!(next_join_delay(u64::MAX), None);
}

#[test]
fn quote_free_lines_split_at_whitespace() {
    let empty: Vec<String> = vec![];
    assert_eq!(split_cmd_words("").unwrap(), empty);
    assert_eq!(split_cmd_words(" a").unwrap(), ["", "a"]);
    assert_eq!(split_cmd_words("a  b").unwrap(), ["a", "", "b"]);
    assert_eq!(split_cmd_words("a b ").unwrap(), ["a", "b"]);
    assert_eq!(split_cmd_words("a\tb\u{3000}c").unwrap(), ["a", "b", "c"]);
}
