use service_status::input::{is_space, parse_names};

fn names(list: &[&str]) -> Vec<String> {
    list.iter().map(|n| n.to_string()).collect()
}

fn like_std(line: &str) -> Vec<String> {
    line.trim().split(", ").map(|s| s.to_string()).collect()
}

#[test]
fn one_name() {
    assert_eq!(parse_names("sshd\n"), names(&["sshd"]));
}

#[test]
fn several_names() {
    assert_eq!(parse_names("sshd, cron, nginx\n"), names(&["sshd", "cron", "nginx"]));
}

#[test]
fn the_sentinel_token() {
    assert_eq!(parse_names(":all_services\n"), names(&[":all_services"]));
}

#[test]
fn empty_line_gives_one_empty_name() {
    assert_eq!(parse_names(""), names(&[""]));
    assert_eq!(parse_names("\n"), names(&[""]));
    assert_eq!(parse_names("   \t\r\n"), names(&[""]));
}

#[test]
fn white_space_at_the_ends_is_dropped() {
    assert_eq!(parse_names("  \t sshd, cron \r\n"), names(&["sshd", "cron"]));
    assert_eq!(parse_names("\u{a0}\u{3000}sshd\u{2003}"), names(&["sshd"]));
}

#[test]
fn comma_without_space_does_not_separate() {
    assert_eq!(parse_names("a,b\n"), names(&["a,b"]));
    assert_eq!(parse_names("a ,b\n"), names(&["a ,b"]));
}

#[test]
fn odd_separators() {
    assert_eq!(parse_names("a,  b"), names(&["a", " b"]));
    assert_eq!(parse_names("a,, b"), names(&["a,", "b"]));
    assert_eq!(parse_names("a, , b"), names(&["a", "", "b"]));
    assert_eq!(parse_names(", a"), names(&["", "a"]));
    assert_eq!(parse_names("a, b,"), names(&["a", "b,"]));
    assert_eq!(parse_names("a, b, "), names(&["a", "b,"]));
    assert_eq!(parse_names("x, , "), names(&["x", ","]));
}

#[test]
fn names_beyond_ascii() {
    assert_eq!(parse_names("dienst-ä, 服务\n"), names(&["dienst-ä", "服务"]));
}

#[test]
fn agrees_with_trim_and_split() {
    let lines = [
        "", " ", ",", ", ", " ,", ",,", ", , ", "a", "a, b", "a,b", " a, b ", "a, b, c, d",
        ", , , ", ",, ,, ", "a,  b,   c", "\ta, b\n", "é, ü", "a ,b , c", " , ",
    ];
    for line in lines {
        assert_eq!(parse_names(line), like_std(line), "line {:?}", line);
    }
}

#[test]
fn is_space_agrees_with_std() {
    let mut code = 0u32;
    while code <= 0x3100 {
        if let Some(c) = char::from_u32(code) {
            assert_eq!(is_space(c), c.is_whitespace(), "code {:x}", code);
        }
        code += 1;
    }
    assert!(!is_space('\u{feff}'));
    assert!(!is_space('\u{10ffff}'));
}
