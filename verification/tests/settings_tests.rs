use imgup::settings::{parse_settings, ConfigError, Settings};

fn ok(text: &str) -> Settings {
    parse_settings(text).ok().unwrap()
}

#[test]
fn parses_the_four_keys() {
    let s = ok("TOKEN = \"testtoken\"\nUSER = \"acme\"\nREPO = \"imgs\"\nPATH = \"cli\"\n");
    assert_eq!(s.token, "testtoken");
    assert_eq!(s.user, "acme");
    assert_eq!(s.repo, "imgs");
    assert_eq!(s.path, "cli");
}

#[test]
fn ignores_blank_lines_and_comments() {
    let s = ok("# settings\n\nTOKEN=\"t\"\n  # indented comment\nUSER=\"u\"\nREPO=\"r\"\nPATH=\"p\"");
    assert_eq!(s.token, "t");
    assert_eq!(s.user, "u");
}

#[test]
fn allows_blanks_around_key_and_value() {
    let s = ok("  TOKEN   =   \"t\"  \nUSER=\"u\"\nREPO=\"r\"\nPATH=\"p\"");
    assert_eq!(s.token, "t");
}

#[test]
fn last_assignment_of_a_key_wins() {
    let s = ok("TOKEN=\"old\"\nUSER=\"u\"\nREPO=\"r\"\nPATH=\"p\"\nTOKEN=\"new\"");
    assert_eq!(s.token, "new");
}

#[test]
fn unknown_keys_are_ignored() {
    let s = ok("TOKEN=\"t\"\nUSER=\"u\"\nREPO=\"r\"\nPATH=\"p\"\nEXTRA=\"x\"");
    assert_eq!(s.path, "p");
}

#[test]
fn value_may_be_empty() {
    let s = ok("TOKEN=\"\"\nUSER=\"u\"\nREPO=\"r\"\nPATH=\"p\"");
    assert_eq!(s.token, "");
}

#[test]
fn each_missing_key_is_fatal_in_order() {
    let e = parse_settings("").err().unwrap();
    assert_eq!(e.message(), "config key TOKEN is missing");
    let e = parse_settings("TOKEN=\"t\"").err().unwrap();
    assert_eq!(e.message(), "config key USER is missing");
    let e = parse_settings("TOKEN=\"t\"\nUSER=\"u\"").err().unwrap();
    assert_eq!(e.message(), "config key REPO is missing");
    let e = parse_settings("TOKEN=\"t\"\nUSER=\"u\"\nREPO=\"r\"").err().unwrap();
    assert_eq!(e.message(), "config key PATH is missing");
}

#[test]
fn a_malformed_line_is_rejected() {
    let e = parse_settings("TOKEN=\"t\"\nwhat is this\nUSER=\"u\"").err().unwrap();
    assert!(matches!(&e, ConfigError::BadLine(l) if l == "what is this"));
    assert_eq!(e.message(), "bad config line: what is this");
}

#[test]
fn unquoted_or_half_quoted_values_are_rejected() {
    assert!(parse_settings("TOKEN = t").is_err());
    assert!(parse_settings("TOKEN = \"t").is_err());
    assert!(parse_settings("TOKEN = \"a\"b\"").is_err());
    assert!(parse_settings("= \"t\"").is_err());
}
