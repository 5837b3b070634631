use peer_reviews::config::parse_port;
use peer_reviews::text::{bool_to_text, int_to_text, same_text, split_on_bar, trim};

#[test]
fn trim_matches_std() {
    let samples = [
        "", " ", "abc", "  abc  ", "\t\n a b \r\n", "\u{3000}x\u{00A0}", "\u{2028}\u{205F}", "a\u{200B}",
        "\u{85}mid dle\u{1680}", "\u{2000}\u{200A}y\u{202F}",
    ];
    for s in samples.iter() {
        assert_eq!(trim(s), s.trim(), "trimming {:?}", s);
    }
}

#[test]
fn trim_twice_is_trim_once() {
    let s = " \t pass word \n";
    assert_eq!(trim(trim(s)), trim(s));
    assert_eq!(trim(s), "pass word");
}

#[test]
fn int_text_matches_to_string() {
    for n in [0i64, 7, 10, 305, -1, -305, 4294967295, i64::MAX, i64::MIN].iter() {
        assert_eq!(int_to_text(*n), n.to_string());
    }
}

#[test]
fn bool_text_matches_to_string() {
    assert_eq!(bool_to_text(true), true.to_string());
    assert_eq!(bool_to_text(false), false.to_string());
}

#[test]
fn same_text_compares_contents() {
    assert!(same_text("abc", "abc"));
    assert!(!same_text("abc", "abd"));
    assert!(!same_text("abc", "abc "));
}

#[test]
fn split_matches_std() {
    for s in ["", "|", "a", "a|b", "||", "x|x|x|x|x|x", "1|ann|10a|a@b.c|pic|false", "é|ü|"].iter() {
        let expected: Vec<String> = s.split('|').map(str::to_owned).collect();
        assert_eq!(split_on_bar(s), expected, "splitting {:?}", s);
    }
}

#[test]
fn join_of_split_gives_text_back() {
    let s = "a||b|c|";
    assert_eq!(split_on_bar(s).join("|"), s);
}

#[test]
fn parse_port_matches_std() {
    for s in ["", "+", "0", "80", "+8080", "65535", "65536", "70000", "-1", "-0", "12a", " 80", "0080", "999999999999"].iter() {
        assert_eq!(parse_port(s), s.parse::<u16>().ok(), "parsing {:?}", s);
    }
}
