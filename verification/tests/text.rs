use swarmdon::text::{
    chars_of, is_whitespace, join, same_text, split_lines, split_once, trim, without_suffix,
};

#[test]
fn whitespace_agrees_with_std_on_every_char() {
    let mut code: u32 = 0;
    while code <= 0x10FFFF {
        if let Some(c) = char::from_u32(code) {
            assert_eq!(is_whitespace(c), c.is_whitespace(), "U+{:04X}", code);
        }
        code += 1;
    }
}

#[test]
fn trim_agrees_with_std() {
    let samples = [
        "",
        " ",
        "abc",
        "  abc",
        "abc  ",
        " \t a b \n",
        "\u{3000}x\u{2003}",
        "\u{85}\u{a0}",
        "a\u{200b}",
        " é ",
    ];
    for s in samples {
        assert_eq!(trim(s), s.trim().to_string(), "{:?}", s);
    }
}

#[test]
fn without_suffix_agrees_with_std() {
    let cases = [
        ("xabab", "ab"),
        ("abab", "ab"),
        ("ab", "abc"),
        ("", "a"),
        ("aaa", "aa"),
        ("with Alex, Bob", "with Alex, Bob"),
        ("lunch with Alex", "with Alex"),
        ("lunch with Alexwith Alex", "with Alex"),
        ("héé", "é"),
        ("abcabd", "abc"),
        ("abc", ""),
    ];
    for (s, pat) in cases {
        assert_eq!(
            without_suffix(s, pat),
            s.strip_suffix(pat).unwrap_or(s).to_string(),
            "{:?} {:?}",
            s,
            pat
        );
    }
}

#[test]
fn without_suffix_takes_the_suffix_off_once() {
    assert_eq!(without_suffix("xabab", "ab"), "xab".to_string());
    assert_eq!(without_suffix("xab", "abc"), "xab".to_string());
    assert_eq!(without_suffix("ab", "ab"), "".to_string());
}

#[test]
fn split_lines_agrees_with_std() {
    let samples = [
        "",
        "a",
        "a\n",
        "a\nb",
        "a\r\nb\r\n",
        "\n",
        "\n\n",
        "a\r",
        "a\r\n\rb\n\r",
        "alex=alex@example.com\nbob=bob@example.org\n",
        "x\n\ny",
    ];
    for s in samples {
        let expected: Vec<String> = s.lines().map(|l| l.to_string()).collect();
        assert_eq!(split_lines(s), expected, "{:?}", s);
    }
}

#[test]
fn split_once_agrees_with_std() {
    let samples = ["a=b", "=", "a=", "=b", "a=b=c", "abc", "", "é=ü"];
    for s in samples {
        let expected = s
            .split_once('=')
            .map(|(a, b)| (a.to_string(), b.to_string()));
        assert_eq!(split_once(s, '='), expected, "{:?}", s);
    }
}

#[test]
fn join_puts_the_separator_between_neighbours() {
    assert_eq!(join(&vec![], ", "), "".to_string());
    assert_eq!(join(&vec!["Alex".to_string()], ", "), "Alex".to_string());
    assert_eq!(
        join(&vec!["Alex".to_string(), "Bob".to_string(), "".to_string()], ", "),
        "Alex, Bob, ".to_string()
    );
}

#[test]
fn chars_are_counted_not_bytes() {
    assert_eq!(chars_of("hé"), vec!['h', 'é']);
    assert_eq!(
        split_once("é=ü=", '='),
        Some(("é".to_string(), "ü=".to_string()))
    );
    assert_eq!(trim("\u{2003}é "), "é".to_string());
}

#[test]
fn same_text_compares_contents() {
    assert!(same_text("abc", "abc"));
    assert!(!same_text("abc", "abd"));
    assert!(!same_text("abc", "ab"));
    assert!(same_text("", ""));
}
