use netprobe::text::{contains, decimal_string, lines, parse_u32, replace};

#[test]
fn decimal_notation() {
    assert_eq!(decimal_string(0), "0");
    assert_eq!(decimal_string(7), "7");
    assert_eq!(decimal_string(36), "36");
    assert_eq!(decimal_string(255), "255");
    assert_eq!(decimal_string(u64::MAX), "18446744073709551615");
}

#[test]
fn parse_u32_accepts_what_std_accepts() {
    for s in ["0", "42", "+7", "007", "4294967295", "", "+", "-1", "4294967296", "12a", " 1", "99999999999"] {
        assert_eq!(parse_u32(s), s.parse::<u32>().ok(), "input {:?}", s);
    }
}

#[test]
fn contains_finds_substrings() {
    assert!(contains("Local Peer ID: abc", "Local Peer ID:"));
    assert!(contains("abc", ""));
    assert!(contains("abcabd", "abd"));
    assert!(!contains("ab", "abc"));
    assert!(!contains("Local peer id", "Local Peer ID:"));
}

#[test]
fn replace_matches_std() {
    for (s, p, r) in [
        ("Local Peer ID: 12D3Koo", "Local Peer ID: ", ""),
        ("12\\:34\\:56", "\\", ""),
        ("aaaa", "aa", "b"),
        ("abcabc", "bc", "XYZ"),
        ("nothing here", "zz", "y"),
        ("", "a", "b"),
    ] {
        assert_eq!(replace(s, p, r), s.replace(p, r), "input {:?}", (s, p, r));
    }
}

#[test]
fn lines_match_std() {
    for s in ["", "a", "a\n", "a\nb", "a\r\nb\r\n", "\n\n", "a\r", "x\ry\n\rz", "yes:1:2\nno:3:4\n"] {
        let expected: Vec<String> = s.lines().map(|l| l.to_string()).collect();
        assert_eq!(lines(s), expected, "input {:?}", s);
    }
}
