use roffman::text::{contains_whitespace, decimal_text, write_quoted, write_quoted_if_whitespace};
use roffman::{
    FontStyle, IntoRoffNode, Roff, RoffError, RoffNode, RoffNodeInner, RoffText, Roffable, Section,
    SectionNumber, SynopsisOpt,
};
use std::borrow::Cow;

fn rendered(node: &RoffNode, was_text: bool) -> (String, bool) {
    let mut out = String::new();
    let after = node.inner_ref().render(&mut out, was_text);
    (out, after)
}

fn section_text(nodes: Vec<RoffNode>) -> String {
    let mut out = String::new();
    Section::new("S", nodes).render(&mut out, false);
    out
}

#[test]
fn text_is_written_between_the_markers_of_its_style() {
    let mut out = String::new();
    RoffText::new("a-b", None).render(&mut out);
    assert_eq!(out, "a\\-b");
    let mut out = String::new();
    RoffText::new("a-b", Some(FontStyle::Bold)).render(&mut out);
    assert_eq!(out, "\\fBa\\-b\\fR");
    let mut out = String::new();
    "x".roff().italic().render(&mut out);
    assert_eq!(out, "\\fIx\\fR");
    let mut out = String::from("kept ");
    RoffText::new("y", Some(FontStyle::Roman)).render(&mut out);
    assert_eq!(out, "kept y");
}

#[test]
fn text_keeps_its_escaped_content_and_style() {
    let text = RoffText::new("it's", Some(FontStyle::Italic));
    assert_eq!(text.content(), "it\\(aqs");
    assert_eq!(text.style(), FontStyle::Italic);
    let bold = text.clone().bold();
    assert_eq!(bold.content(), "it\\(aqs");
    assert_eq!(bold.style(), FontStyle::Bold);
    assert_eq!(text, text.clone());
    assert_eq!(RoffText::default().content(), "");
    assert_eq!(RoffText::default().style(), FontStyle::Roman);
    assert_eq!(FontStyle::default(), FontStyle::Roman);
}

#[test]
fn arguments_are_quoted_exactly_where_they_hold_whitespace() {
    for (input, expected) in [
        ("plain", "plain"),
        ("two words", "\"two words\""),
        ("tab\there", "\"tab\there\""),
        ("line\nfeed", "\"line\nfeed\""),
        ("form\x0Cfeed", "\"form\x0Cfeed\""),
        ("carriage\rreturn", "\"carriage\rreturn\""),
        ("vertical\x0Btab", "vertical\x0Btab"),
        ("no\u{a0}break", "no\u{a0}break"),
        ("", ""),
        (" ", "\" \""),
    ] {
        let mut out = String::new();
        write_quoted_if_whitespace(&input.roff(), &mut out);
        assert_eq!(out, expected);
        assert_eq!(
            out.len() >= 2 && out.starts_with('"') && out.ends_with('"'),
            contains_whitespace(input)
        );
    }
    let mut out = String::new();
    write_quoted_if_whitespace(&"a b".roff().bold(), &mut out);
    assert_eq!(out, "\"\\fBa b\\fR\"");
    let mut out = String::new();
    write_quoted_if_whitespace(&"\"ab\"".roff(), &mut out);
    assert_eq!(out, "\\(dqab\\(dq");
    let mut out = String::new();
    write_quoted(&"ab".roff(), &mut out);
    assert_eq!(out, "\"ab\"");
}

#[test]
fn numbers_are_written_in_decimal() {
    assert_eq!(decimal_text(0), "0");
    assert_eq!(decimal_text(7), "7");
    assert_eq!(decimal_text(10), "10");
    assert_eq!(decimal_text(99), "99");
    assert_eq!(decimal_text(100), "100");
    assert_eq!(decimal_text(105), "105");
    assert_eq!(decimal_text(255), "255");
    for n in 0..=255u8 {
        assert_eq!(decimal_text(n), n.to_string());
        assert_eq!(n.roff().content(), n.to_string());
    }
}

#[test]
fn text_like_values_convert_to_the_same_text() {
    let expected = "a\\-b";
    assert_eq!("a-b".roff().content(), expected);
    assert_eq!((&"a-b").roff().content(), expected);
    assert_eq!(String::from("a-b").roff().content(), expected);
    assert_eq!((&String::from("a-b")).roff().content(), expected);
    assert_eq!(Cow::Borrowed("a-b").roff().content(), expected);
    assert_eq!(Cow::<str>::Owned(String::from("a-b")).roff().content(), expected);
    assert_eq!("a-b".roff().bold().roff().style(), FontStyle::Bold);
    assert_eq!(SectionNumber::Games.roff().content(), "6");
}

#[test]
fn section_numbers() {
    assert_eq!(u8::from(SectionNumber::UserCommands), 1);
    assert_eq!(u8::from(SectionNumber::SystemCalls), 2);
    assert_eq!(u8::from(SectionNumber::LibraryCalls), 3);
    assert_eq!(u8::from(SectionNumber::Devices), 4);
    assert_eq!(u8::from(SectionNumber::FileFormatsAndConfigurationFiles), 5);
    assert_eq!(u8::from(SectionNumber::Games), 6);
    assert_eq!(u8::from(SectionNumber::Miscellaneous), 7);
    assert_eq!(u8::from(SectionNumber::SystemManagementCommands), 8);
    assert_eq!(u8::from(SectionNumber::Custom(0)), 0);
    assert_eq!(u8::from(SectionNumber::Custom(255)), 255);
    assert_eq!(SectionNumber::Custom(1), SectionNumber::Custom(1));
    assert_ne!(SectionNumber::Custom(1), SectionNumber::UserCommands);
}

#[test]
fn inline_nodes_are_written_as_they_are() {
    for was_text in [false, true] {
        assert_eq!(rendered(&RoffNode::text("a-b"), was_text), ("a\\-b".to_string(), true));
        assert_eq!(rendered(&RoffNode::registered_sign(), was_text), ("\\*R".to_string(), true));
        assert_eq!(rendered(&RoffNode::left_quote(), was_text), ("\\*(lq".to_string(), true));
        assert_eq!(rendered(&RoffNode::right_quote(), was_text), ("\\*(rq".to_string(), true));
        assert_eq!(rendered(&RoffNode::trademark_sign(), was_text), ("\\*(Tm".to_string(), true));
        assert_eq!(rendered(&RoffNode::em_dash(), was_text), ("\\(em".to_string(), true));
        assert_eq!(rendered(&RoffNode::en_dash(), was_text), ("\\(en".to_string(), true));
        assert_eq!(rendered(&RoffNode::non_breaking_space(), was_text), ("\\~".to_string(), true));
    }
}

#[test]
fn a_line_break_keeps_the_state() {
    assert_eq!(rendered(&RoffNode::linebreak(), false), ("\n.br\n".to_string(), false));
    assert_eq!(rendered(&RoffNode::linebreak(), true), ("\n.br\n".to_string(), true));
}

#[test]
fn paragraphs() {
    let empty: Vec<RoffNode> = vec![];
    assert_eq!(rendered(&RoffNode::paragraph(empty), false), (".P\n".to_string(), false));
    let empty: Vec<RoffNode> = vec![];
    assert_eq!(rendered(&RoffNode::paragraph(empty), true), ("\n.P\n".to_string(), true));
    assert_eq!(
        rendered(&RoffNode::paragraph(vec!["a", "b"]), true),
        ("\n.P\nab".to_string(), true)
    );
    let inner: Vec<RoffNode> = vec![];
    assert_eq!(
        rendered(&RoffNode::paragraph(vec![RoffNode::paragraph(inner)]), true),
        ("\n.P\n\n.P\n".to_string(), true)
    );
}

#[test]
fn indented_paragraphs() {
    assert_eq!(
        rendered(&RoffNode::indented_paragraph(vec!["content"], Some(4), None::<&str>), false),
        (".IP \"\" 4\ncontent\n".to_string(), false)
    );
    assert_eq!(
        rendered(&RoffNode::indented_paragraph(vec!["content"], None, None::<&str>), true),
        ("\n.IP\ncontent\n".to_string(), false)
    );
    assert_eq!(
        rendered(&RoffNode::indented_paragraph(vec!["content"], None, Some("unused")), false),
        (".IP\ncontent\n".to_string(), false)
    );
    assert_eq!(
        rendered(&RoffNode::indented_paragraph(vec!["c"], Some(255), Some("a title")), false),
        (".IP \"a title\" 255\nc\n".to_string(), false)
    );
    assert_eq!(
        rendered(&RoffNode::indented_paragraph(vec!["c"], Some(0), Some("title")), false),
        (".IP title 0\nc\n".to_string(), false)
    );
}

#[test]
fn tagged_paragraphs() {
    assert_eq!(
        rendered(&RoffNode::tagged_paragraph(vec!["content"], "a title".roff().bold()), true),
        ("\n.TP\n\\fBa title\\fR\ncontent\n".to_string(), false)
    );
    let empty: Vec<&str> = vec![];
    assert_eq!(
        rendered(&RoffNode::tagged_paragraph(empty, "t"), false),
        (".TP\nt\n\n".to_string(), false)
    );
}

#[test]
fn examples() {
    assert_eq!(
        rendered(&RoffNode::example(vec!["a\n", "b"]), true),
        ("\n.EX\na\nb\n.EE\n".to_string(), false)
    );
    let empty: Vec<&str> = vec![];
    assert_eq!(rendered(&RoffNode::example(empty), false), (".EX\n\n.EE\n".to_string(), false));
}

#[test]
fn synopses() {
    let no_text: Vec<&str> = vec![];
    assert_eq!(
        rendered(&RoffNode::synopsis("a command", no_text, vec![]), true),
        ("\n.SY \"a command\"\n.YS\n".to_string(), false)
    );
    assert_eq!(
        rendered(
            &RoffNode::synopsis(
                "ls",
                vec!["lists"],
                vec![
                    SynopsisOpt::new("--bold"),
                    SynopsisOpt::new("-o").argument("a file"),
                    SynopsisOpt::new("-x").description(vec!["one", " two"]),
                ]
            ),
            false
        ),
        (
            ".SY ls\nlists\n\n.OP \\-\\-bold\n\n\n.OP \\-o \"a file\"\n\n\n.OP \\-x\none two\n.YS\n"
                .to_string(),
            false
        )
    );
    let option = SynopsisOpt::new("-a").argument("B").description(vec!["c"]);
    assert_eq!(option.name().content(), "\\-a");
    assert_eq!(option.argument_ref().unwrap().content(), "B");
    assert_eq!(option.description_ref().unwrap().len(), 1);
    let copy = option.clone();
    assert_eq!(copy.name().content(), "\\-a");
    assert!(SynopsisOpt::new("-a").argument_ref().is_none());
    assert!(SynopsisOpt::new("-a").description_ref().is_none());
}

#[test]
fn links() {
    assert_eq!(
        rendered(&RoffNode::url("GitHub", "https://github.com/vv9k/roffman"), false),
        (".UR https://github.com/vv9k/roffman\nGitHub\n.UE\n".to_string(), false)
    );
    assert_eq!(
        rendered(&RoffNode::url("", "https://github.com/vv9k/roffman"), true),
        ("\n.UR https://github.com/vv9k/roffman\n.UE\n".to_string(), false)
    );
    assert_eq!(
        rendered(&RoffNode::url("".roff().bold(), "x"), false),
        (".UR x\n\\fB\\fR.UE\n".to_string(), false)
    );
    assert_eq!(
        rendered(&RoffNode::email("John Test", "test@invalid.domain"), true),
        ("\n.MT test@invalid.domain\nJohn Test\n.ME\n".to_string(), false)
    );
}

#[test]
fn nested_blocks_start_on_a_fresh_line() {
    let node = RoffNode::nested(vec![RoffNode::text("inside")]);
    assert_eq!(rendered(&node, true), ("\n.RS\ninside\n.RE\n".to_string(), false));
    let node = RoffNode::nested(vec![RoffNode::url("", "x")]);
    assert_eq!(rendered(&node, false), (".RS\n.UR x\n.UE\n.RE\n".to_string(), false));
    let empty: Vec<RoffNode> = vec![];
    assert_eq!(rendered(&RoffNode::nested(empty), true), ("\n.RS\n.RE\n".to_string(), false));
}

#[test]
fn nesting_three_levels_deep() {
    let node = RoffNode::nested(vec![RoffNode::nested(vec![RoffNode::nested(vec![
        RoffNode::paragraph(vec!["first"]),
        RoffNode::paragraph(vec!["second"]),
    ])])]);
    assert_eq!(
        rendered(&node, false).0,
        ".RS\n.RS\n.RS\n.P\nfirst\n.P\nsecond\n.RE\n.RE\n.RE\n"
    );
}

#[test]
fn comments_stand_on_one_line_of_their_own() {
    assert_eq!(
        rendered(&RoffNode::comment("one\ntwo - \"three\""), false),
        (".\\\" one two - \"three\"\n".to_string(), false)
    );
    assert_eq!(rendered(&RoffNode::comment(""), true), ("\n.\\\" \n".to_string(), false));
    assert_eq!(
        section_text(vec![RoffNode::text("text"), RoffNode::comment("c"), RoffNode::text("t")]),
        ".SH S\ntext\n.\\\" c\nt"
    );
}

#[test]
fn one_line_feed_stands_between_text_and_a_block() {
    let inline = || {
        vec![
            RoffNode::text("text"),
            RoffNode::trademark_sign(),
            RoffNode::em_dash(),
            RoffNode::non_breaking_space(),
        ]
    };
    let blocks = || {
        let none: Vec<RoffNode> = vec![];
        let no_lines: Vec<&str> = vec![];
        let no_text: Vec<&str> = vec![];
        vec![
            RoffNode::paragraph(vec!["p"]),
            RoffNode::indented_paragraph(vec!["p"], None, None::<&str>),
            RoffNode::tagged_paragraph(vec!["p"], "t"),
            RoffNode::example(no_lines),
            RoffNode::synopsis("c", no_text, vec![]),
            RoffNode::url("n", "a"),
            RoffNode::email("n", "a"),
            RoffNode::nested(none),
            RoffNode::comment("c"),
        ]
    };
    for (i, first) in inline().into_iter().enumerate() {
        for (j, second) in blocks().into_iter().enumerate() {
            let alone_first = rendered(&inline()[i], false).0;
            let alone_second = rendered(&blocks()[j], false).0;
            assert!(alone_second.starts_with('.'));
            assert_eq!(
                section_text(vec![first.clone(), second]),
                format!(".SH S\n{}\n{}", alone_first, alone_second)
            );
        }
    }
    for (i, first) in inline().into_iter().enumerate() {
        for (j, second) in inline().into_iter().enumerate() {
            assert_eq!(
                section_text(vec![first.clone(), second]),
                format!(".SH S\n{}{}", rendered(&inline()[i], false).0, rendered(&inline()[j], true).0)
            );
        }
    }
}

#[test]
fn nodes_convert_and_copy() {
    let node = RoffNode::paragraph(vec![
        RoffNode::text("a"),
        RoffNode::nested(vec![RoffNode::synopsis(
            "c",
            vec!["d"],
            vec![SynopsisOpt::new("o").argument("p").description(vec!["q"])],
        )]),
        RoffNode::indented_paragraph(vec!["x"], Some(3), Some("y z")),
        RoffNode::comment("k"),
    ]);
    let copy = node.clone();
    assert_eq!(rendered(&copy, true), rendered(&node, true));
    let inner: RoffNodeInner = node.into_inner();
    let inner_copy = inner.clone();
    let back = inner.into_roff();
    assert_eq!(rendered(&back, false), rendered(&copy, false));
    assert_eq!(rendered(&inner_copy.into_roff(), false), rendered(&copy, false));
    assert_eq!(rendered(&"a-b".into_roff(), false), ("a\\-b".to_string(), true));
    assert_eq!(rendered(&RoffNode::text("t").into_roff(), false), ("t".to_string(), true));
}

#[test]
fn sections_and_documents() {
    let mut out = String::new();
    let after = Section::new("a title", vec!["text"]).subtitle("sub").render(&mut out, true);
    assert_eq!(out, "\n.SH \"a title\"\n.SS sub\ntext");
    assert!(after);
    let none: Vec<RoffNode> = vec![];
    let section = Section::new("T", none);
    let mut out = String::new();
    assert!(!section.clone().render(&mut out, false));
    assert_eq!(out, ".SH T\n");

    let roff = Roff::new("a title", SectionNumber::Custom(42)).date("August 2021");
    assert_eq!(roff.to_string().unwrap(), ".TH \"a title\" 42 \"August 2021\"\n");
    let roff = Roff::new("title", SectionNumber::Custom(255)).date("2021");
    assert_eq!(roff.to_string().unwrap(), ".TH title 255 2021\n");
    let roff = roff.add_section(section).section("U", vec![RoffNode::url("", "x")]);
    let mut out = String::from("kept");
    roff.render(&mut out);
    assert_eq!(out, "kept.TH title 255 2021\n.SH T\n.SH U\n.UR x\n.UE\n");
    assert_eq!(roff.clone().to_string().unwrap(), roff.to_string().unwrap());
}

#[test]
fn errors_name_their_kind_and_cause() {
    assert_eq!(
        RoffError::StringRenderFailed("bad bytes".to_string()).message(),
        "Failed to render ROFF to string - `bad bytes`"
    );
    assert_eq!(
        RoffError::RenderFailed("broken pipe".to_string()).message(),
        "Failed to render ROFF - `broken pipe`"
    );
}

#[test]
fn a_whole_page() {
    let roff = Roff::new("roffman", SectionNumber::Miscellaneous)
        .date("August 2021")
        .section(
            "BASIC USAGE",
            vec![
                RoffNode::paragraph(vec![
                    "This is how you create a basic paragraph using roffman.",
                ]),
                RoffNode::indented_paragraph(
                    vec![
                        "This line should be slightly indented to the ".roff(),
                        "right.".roff().bold(),
                    ],
                    Some(4),
                    Some("optional-title"),
                ),
                RoffNode::synopsis(
                    "roffman-command",
                    vec![
                        "This is the description of this command. It will be displayed right next to".roff(),
                        " it".roff().italic(),
                    ],
                    vec![
                        SynopsisOpt::new("--opt").description(vec!["some simple opt"]),
                        SynopsisOpt::new("--opt-with-arg")
                            .argument("ARG")
                            .description(vec!["opt with an argument"]),
                        SynopsisOpt::new("--bold"),
                    ],
                ),
                RoffNode::paragraph(vec!["Example:".roff().bold()]),
                RoffNode::example(vec![
                    r#"
impl Roffable for u8 {
    fn roff(&self) -> RoffText {
        self.to_string().roff()
    }
}"#,
                ]),
                RoffNode::url("GitHub", "https://github.com/vv9k/roffman"),
                RoffNode::text("\nvv9k"),
                RoffNode::trademark_sign(),
            ],
        );

    let rendered = roff.to_string().unwrap();

    let output = r#".TH roffman 7 "August 2021"
.SH "BASIC USAGE"
.P
This is how you create a basic paragraph using roffman.
.IP optional\-title 4
This line should be slightly indented to the \fBright.\fR
.SY roffman\-command
This is the description of this command. It will be displayed right next to\fI it\fR

.OP \-\-opt
some simple opt

.OP \-\-opt\-with\-arg ARG
opt with an argument

.OP \-\-bold

.YS
.P
\fBExample:\fR
.EX

impl Roffable for u8 {
    fn roff(&self) \-> RoffText {
        self.to_string().roff()
    }
}
.EE
.UR https://github.com/vv9k/roffman
GitHub
.UE

vv9k\*(Tm
"#;

    assert_eq!(rendered.trim(), output.trim());
}
