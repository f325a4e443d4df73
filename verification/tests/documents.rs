use roffman::{Roff, RoffNode, Roffable, Section, SectionNumber, SynopsisOpt};

#[test]
fn it_roffs() {
    let roff = Roff::new("test", SectionNumber::UserCommands)
        .section(
            "test section 1",
            vec![RoffNode::paragraph(vec![
                "this is some very ".roff(),
                "special".roff().bold(),
                " text".roff(),
            ])],
        )
        .section(
            "test section 2",
            vec![RoffNode::indented_paragraph(
                vec![
                    "Lorem ipsum".roff().italic(),
                    " dolor sit amet, consectetur adipiscing elit. Vivamus quis malesuada eros."
                        .roff()
                        .roff(),
                ],
                Some(4),
                None::<&str>,
            )],
        )
        .section(
            "test section 3",
            vec![RoffNode::tagged_paragraph(
                vec!["tagged paragraph with some content".roff()],
                "paragraph title".roff().bold(),
            )],
        )
        .section(
            "test section 4",
            vec![
                RoffNode::indented_paragraph(
                    vec!["Indented paragraph with a title"],
                    Some(4),
                    Some("Paragraph title with spaces"),
                ),
                RoffNode::indented_paragraph(
                    vec!["Another indented paragraph"],
                    Some(2),
                    Some("title-no-spaces"),
                ),
            ],
        );

    let rendered = roff.to_string().unwrap();
    assert_eq!(
        r#".TH test 1
.SH "test section 1"
.P
this is some very \fBspecial\fR text
.SH "test section 2"
.IP "" 4
\fILorem ipsum\fR dolor sit amet, consectetur adipiscing elit. Vivamus quis malesuada eros.
.SH "test section 3"
.TP
\fBparagraph title\fR
tagged paragraph with some content
.SH "test section 4"
.IP "Paragraph title with spaces" 4
Indented paragraph with a title
.IP title\-no\-spaces 2
Another indented paragraph
"#,
        rendered
    )
}

#[test]
fn it_nests_roffs() {
    let roff = Roff::new("test", SectionNumber::UserCommands).add_section(
        Section::new(
            "BASE SECTION",
            vec![
                RoffNode::paragraph(vec![
                    RoffNode::text("some text in first paragraph."),
                    RoffNode::nested(vec![RoffNode::paragraph(vec![
                        RoffNode::text("some nested paragraph"),
                        RoffNode::nested(vec![RoffNode::paragraph(vec![RoffNode::text(
                            "some doubly nested paragraph",
                        )])]),
                        RoffNode::text("some text after nested para"),
                    ])]),
                ]),
                RoffNode::paragraph(vec!["back two levels left", " without roffs"]),
            ],
        )
        .subtitle("with some subtitle..."),
    );

    let rendered = roff.to_string().unwrap();
    assert_eq!(
        rendered,
        r#".TH test 1
.SH "BASE SECTION"
.SS "with some subtitle..."
.P
some text in first paragraph.
.RS
.P
some nested paragraph
.RS
.P
some doubly nested paragraph
.RE
some text after nested para
.RE
.P
back two levels left without roffs"#,
    )
}

#[test]
fn it_roffs_examples() {
    let roff = Roff::new("test-examples", SectionNumber::LibraryCalls).section(
        "BASE SECTION",
        vec![
            RoffNode::text("Lorem ipsum dolor sit amet, consectetur adipiscing elit. Vivamus quis malesuada eros."),
            RoffNode::example(vec![
                "let example = String::new()\n",
                "let x = example.clone();\n",
                "if x.len() > 0 {\n",
                "\tprintln!(\"{}\", x);\n",
                "}\n",
            ]),
        ],
    );

    let rendered = roff.to_string().unwrap();
    assert_eq!(
        r#".TH test\-examples 3
.SH "BASE SECTION"
Lorem ipsum dolor sit amet, consectetur adipiscing elit. Vivamus quis malesuada eros.
.EX
let example = String::new()
let x = example.clone();
if x.len() > 0 {
	println!(\(dq{}\(dq, x);
}

.EE
"#,
        rendered
    )
}

#[test]
fn synopsis_works() {
    let roff = Roff::new("test-synopsis", SectionNumber::Miscellaneous).section(
        "SYNOPSIS",
        vec![RoffNode::synopsis(
            "ls",
            vec![
                "lists files in the given".roff(),
                "path".roff().italic(),
                ".".roff(),
            ],
            vec![
                SynopsisOpt::new("-l").description(vec!["use a long listing format"]),
                SynopsisOpt::new("-L, --dereference").description(vec!["when showing file information for a symbolic link, show information for the file the link references rather than for the link itself"]),
                SynopsisOpt::new("--block-size").argument("SIZE").description(vec!["with -l, scale sizes by SIZE when printing them"]),
            ],
        )],
    );

    let rendered = roff.to_string().unwrap();
    assert_eq!(
        r#".TH test\-synopsis 7
.SH SYNOPSIS
.SY ls
lists files in the given\fIpath\fR.

.OP \-l
use a long listing format

.OP "\-L, \-\-dereference"
when showing file information for a symbolic link, show information for the file the link references rather than for the link itself

.OP \-\-block\-size SIZE
with \-l, scale sizes by SIZE when printing them
.YS
"#,
        rendered
    )
}

#[test]
fn urls_and_emails_work() {
    let roff = Roff::new("test-urls", SectionNumber::Miscellaneous).section(
        "URLS",
        vec![
            RoffNode::url("GitHub", "https://github.com/vv9k/roffman"),
            RoffNode::url("crates.io", "https://crates.io/crates/roffman"),
            RoffNode::url("docs.rs", "https://docs.rs/roffman"),
            RoffNode::url("", "https://docs.rs/roffman"),
            RoffNode::url("", ""),
            RoffNode::email("John Test", "test@invalid.domain"),
            RoffNode::email("", "test@invalid.domain"),
            RoffNode::email("", ""),
        ],
    );

    let rendered = roff.to_string().unwrap();
    assert_eq!(
        r#".TH test\-urls 7
.SH URLS
.UR https://github.com/vv9k/roffman
GitHub
.UE
.UR https://crates.io/crates/roffman
crates.io
.UE
.UR https://docs.rs/roffman
docs.rs
.UE
.UR https://docs.rs/roffman
.UE
.UR 
.UE
.MT test@invalid.domain
John Test
.ME
.MT test@invalid.domain
.ME
.MT 
.ME
"#,
        rendered
    )
}

#[test]
fn special_strings_work() {
    let roff = Roff::new("test-strings", SectionNumber::Miscellaneous).section(
        "STRINGS",
        vec![
            RoffNode::left_quote(),
            RoffNode::text("this is some example quoted text."),
            RoffNode::right_quote(),
            RoffNode::text(" "),
            RoffNode::registered_sign(),
            RoffNode::text(" roffman"),
            RoffNode::trademark_sign(),
            RoffNode::linebreak(),
            RoffNode::text("123"),
            RoffNode::en_dash(),
            RoffNode::text("321"),
            RoffNode::linebreak(),
            RoffNode::text("some text"),
            RoffNode::em_dash(),
            RoffNode::text("interupted sentence in the middle"),
            RoffNode::em_dash(),
            RoffNode::text("more text..."),
        ],
    );

    let rendered = roff.to_string().unwrap();
    assert_eq!(
        r#".TH test\-strings 7
.SH STRINGS
\*(lqthis is some example quoted text.\*(rq \*R roffman\*(Tm
.br
123\(en321
.br
some text\(eminterupted sentence in the middle\(emmore text..."#,
        rendered
    )
}

#[test]
fn section_after_text_renders() {
    let roff = Roff::new("test-sections", SectionNumber::Miscellaneous)
        .section("TEXTS", vec![RoffNode::text("this is some example text.")])
        .section(
            "NEXT",
            vec![
                RoffNode::text("this is some example text on second section.\n"),
                RoffNode::text("this is some example.\n"),
                RoffNode::text("this is some example text."),
            ],
        )
        .section("THIRD", vec![RoffNode::text("this is some example text.")]);

    let rendered = roff.to_string().unwrap();
    assert_eq!(
        r#".TH test\-sections 7
.SH TEXTS
this is some example text.
.SH NEXT
this is some example text on second section.
this is some example.
this is some example text.
.SH THIRD
this is some example text."#,
        rendered
    )
}

#[test]
fn breaks_line() {
    let roff = Roff::new("test-breaks", SectionNumber::Miscellaneous).section(
        "BREAKS",
        vec![
            RoffNode::text("this is some example text."),
            RoffNode::linebreak(),
            RoffNode::text("this is some example text on second line."),
            RoffNode::linebreak(),
            RoffNode::text("this is some example text on third line."),
        ],
    );

    let rendered = roff.to_string().unwrap();
    assert_eq!(
        rendered,
        r#".TH test\-breaks 7
.SH BREAKS
this is some example text.
.br
this is some example text on second line.
.br
this is some example text on third line."#
    )
}
