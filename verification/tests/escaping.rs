use roffman::escape;

#[test]
fn it_escapes() {
    let input = r#"~/docs/$ bash -c "awk '' ``""#;

    assert_eq!(
        escape(input),
        "\\(ti/docs/$ bash \\-c \\(dqawk \\(aq\\(aq \\(ga\\(ga\\(dq"
    );

    let dot_on_new_line = "\n.some dot on new line";

    assert_eq!(escape(dot_on_new_line), "\n\\&.some dot on new line")
}

#[test]
fn plain_text_is_unchanged() {
    let input = "Lorem ipsum dolor sit amet, 123 (x) [y] {z} a.b";
    assert_eq!(escape(input), input);
    assert_eq!(escape(""), "");
}

#[test]
fn every_special_character_has_its_sequence() {
    assert_eq!(escape("-"), "\\-");
    assert_eq!(escape("'"), "\\(aq");
    assert_eq!(escape("\u{2018}"), "\\(oq");
    assert_eq!(escape("\u{2019}"), "\\(cq");
    assert_eq!(escape("\""), "\\(dq");
    assert_eq!(escape("\u{201c}"), "\\(lq");
    assert_eq!(escape("\u{201d}"), "\\(rq");
    assert_eq!(escape("`"), "\\(ga");
    assert_eq!(escape("^"), "\\(ha");
    assert_eq!(escape("\\"), "\\e");
    assert_eq!(escape("~"), "\\(ti");
}

#[test]
fn other_unicode_passes_through() {
    assert_eq!(escape("żółw €™"), "żółw €™");
    assert_eq!(escape("a\u{2014}b"), "a\u{2014}b");
}

#[test]
fn no_raw_special_character_is_left() {
    let escaped = escape("a-b 'c' \"d\" `e` ^f ~g \\h \u{2018}i\u{2019} \u{201c}j\u{201d}");
    let chars: Vec<char> = escaped.chars().collect();
    for (i, ch) in chars.iter().enumerate() {
        match ch {
            '\'' | '"' | '`' | '^' | '~' | '\u{2018}' | '\u{2019}' | '\u{201c}' | '\u{201d}' => {
                panic!("raw {} at {}", ch, i)
            }
            '-' => assert_eq!(chars[i - 1], '\\'),
            '\\' => assert!(matches!(chars[i + 1], '-' | '(' | 'e' | '&')),
            _ => {}
        }
    }
}

#[test]
fn dots_are_guarded_only_behind_a_line_feed() {
    assert_eq!(escape(".TH"), ".TH");
    assert_eq!(escape("a.b"), "a.b");
    assert_eq!(escape("a\n.b"), "a\n\\&.b");
    assert_eq!(escape("\n.\n."), "\n\\&.\n\\&.");
    assert_eq!(escape("\n.."), "\n\\&..");
    assert_eq!(escape("\n-."), "\n\\-.");
    assert_eq!(escape("x\n"), "x\n");
}

#[test]
fn escaping_two_parts_joins_the_escaped_parts() {
    let a = "one-two\n";
    let b = ".three";
    let joined = format!("{}{}", a, b);
    assert_eq!(escape(&joined), format!("{}\\&{}", escape(a), escape(b)));
    let c = "four";
    let joined = format!("{}{}", a, c);
    assert_eq!(escape(&joined), format!("{}{}", escape(a), escape(c)));
}
