use tempest::num::{parse_u32_exec, u64_to_string};
use tempest::order::sort_strings;
use tempest::path::join_str;
use tempest::text::{from_chars, lines_exec, remove_sudo, to_chars, trim_str};

fn lines(s: &str) -> Vec<String> {
    lines_exec(&to_chars(s)).iter().map(|l| from_chars(l)).collect()
}

#[test]
fn lines_like_std() {
    for s in ["", "a", "a\n", "a\r\nb\n", "\n\n", "x\r", "a\rb\nc", "one\ntwo\r\nthree"] {
        let expected: Vec<String> = s.lines().map(|l| l.to_string()).collect();
        assert_eq!(lines(s), expected, "input {:?}", s);
    }
}

#[test]
fn trim_like_std() {
    for s in ["  x  ", "\u{3000}y\u{a0}", "\t\n", "", "a b", "\u{200b}z"] {
        assert_eq!(trim_str(s), s.trim(), "input {:?}", s);
    }
}

#[test]
fn sudo_removed() {
    assert_eq!(remove_sudo("sudo dnf install x && sudo y"), "dnf install x && y");
    assert_eq!(remove_sudo("sudosudo "), "sudo");
    assert_eq!(remove_sudo("none"), "none");
}

#[test]
fn decimal_and_parse() {
    assert_eq!(u64_to_string(0), "0");
    assert_eq!(u64_to_string(1234567890123), "1234567890123");
    assert_eq!(parse_u32_exec(&to_chars("007")), Some(7));
    assert_eq!(parse_u32_exec(&to_chars("+42")), Some(42));
    assert_eq!(parse_u32_exec(&to_chars("-1")), None);
    assert_eq!(parse_u32_exec(&to_chars("")), None);
    assert_eq!(parse_u32_exec(&to_chars("4294967296")), None);
    assert_eq!(parse_u32_exec(&to_chars("12a")), None);
    for n in [0u32, 9, 10, 65535, u32::MAX] {
        assert_eq!(parse_u32_exec(&to_chars(&u64_to_string(n as u64))), Some(n));
    }
}

#[test]
fn join_like_path() {
    assert_eq!(join_str("/a", "b"), "/a/b");
    assert_eq!(join_str("/a/", "b"), "/a/b");
    assert_eq!(join_str("", "b"), "b");
    assert_eq!(join_str("/a", "/b"), "/b");
}

#[test]
fn sort_like_std() {
    let input = vec!["vortex-optim".to_string(), "fps-unlocker".to_string(), "b".to_string(), "a".to_string(), "ab".to_string(), "é".to_string()];
    let mut expected = input.clone();
    expected.sort();
    assert_eq!(sort_strings(input), expected);
}
