//! Styled text, the smallest unit that is rendered, and how it is written as
//! running text and as the argument of a macro.

use crate::escape::{escape, escaped, is_escaped, push_char};
use vstd::prelude::*;

verus! {

broadcast use vstd::string::group_string_axioms;

/// Style that can be applied to [`RoffText`].
#[derive(Copy, Clone, Debug, PartialEq, Eq, Structural)]
pub enum FontStyle {
    Bold,
    Italic,
    Roman,
}

impl Default for FontStyle {
    fn default() -> (style: Self)
        ensures
            style == FontStyle::Roman,
    {
        FontStyle::Roman
    }
}

/// What a [`RoffText`] stands for: escaped characters and their style.
pub struct TextModel {
    pub content: Seq<char>,
    pub style: FontStyle,
}

impl TextModel {
    /// The text that escaping `raw` gives, in the roman style.
    pub open spec fn plain(raw: Seq<char>) -> TextModel {
        TextModel { content: escaped(raw), style: FontStyle::Roman }
    }

    /// The same content in another style.
    pub open spec fn with_style(self, style: FontStyle) -> TextModel {
        TextModel { content: self.content, style }
    }

    /// Whether the content is safe in ROFF source at every position.
    pub open spec fn wf(self) -> bool {
        is_escaped(self.content)
    }
}

/// Styled text, the most basic unit of a document. Its content is escaped when
/// it is made, so that it can be written into ROFF source as it is.
#[derive(Debug, PartialEq)]
pub struct RoffText {
    content: String,
    style: FontStyle,
}

impl View for RoffText {
    type V = TextModel;

    closed spec fn view(&self) -> TextModel {
        TextModel { content: self.content@, style: self.style }
    }
}

impl RoffText {
    #[verifier::type_invariant]
    spec fn content_is_escaped(self) -> bool {
        is_escaped(self.content@)
    }

    /// Escapes `content` and gives it `style`, or the roman style where none is named.
    pub fn new(content: &str, style: Option<FontStyle>) -> (text: Self)
        ensures
            text@ == TextModel::plain(content@).with_style(
                match style {
                    Some(s) => s,
                    None => FontStyle::Roman,
                },
            ),
            text@.wf(),
    {
        let style = match style {
            Some(s) => s,
            None => FontStyle::default(),
        };
        Self { content: escape(content), style }
    }

    /// Sets the style of this text to bold.
    pub fn bold(self) -> (text: Self)
        ensures
            text@ == self@.with_style(FontStyle::Bold),
    {
        proof {
            use_type_invariant(&self);
        }
        Self { content: self.content, style: FontStyle::Bold }
    }

    /// Sets the style of this text to italic.
    pub fn italic(self) -> (text: Self)
        ensures
            text@ == self@.with_style(FontStyle::Italic),
    {
        proof {
            use_type_invariant(&self);
        }
        Self { content: self.content, style: FontStyle::Italic }
    }

    /// The escaped text.
    pub fn content(&self) -> (content: &str)
        ensures
            content@ == self@.content,
            is_escaped(content@),
    {
        proof {
            use_type_invariant(self);
        }
        self.content.as_str()
    }

    /// The style of the text.
    pub fn style(&self) -> (style: FontStyle)
        ensures
            style == self@.style,
    {
        self.style
    }

    /// Appends the text to `writer`, between the markers of its style.
    pub fn render(&self, writer: &mut String)
        ensures
            final(writer)@ == old(writer)@ + styled(self@),
    {
        match self.style {
            FontStyle::Bold => {
                writer.append("\\fB");
                writer.append(self.content.as_str());
                writer.append("\\fR");
            },
            FontStyle::Italic => {
                writer.append("\\fI");
                writer.append(self.content.as_str());
                writer.append("\\fR");
            },
            FontStyle::Roman => {
                writer.append(self.content.as_str());
            },
        }
    }
}

impl Clone for RoffText {
    fn clone(&self) -> (text: Self)
        ensures
            text@ == self@,
    {
        proof {
            use_type_invariant(self);
        }
        Self { content: self.content.clone(), style: self.style }
    }
}

impl Default for RoffText {
    fn default() -> (text: Self)
        ensures
            text@ == (TextModel { content: Seq::empty(), style: FontStyle::Roman }),
    {
        Self { content: String::new(), style: FontStyle::Roman }
    }
}

/// The models of the texts of a list, in order.
pub open spec fn text_models(texts: Seq<RoffText>) -> Seq<TextModel> {
    Seq::new(texts.len(), |i: int| texts[i]@)
}

/// The model of a text that may be missing.
pub open spec fn optional_text_model(text: Option<RoffText>) -> Option<TextModel> {
    match text {
        Some(text) => Some(text@),
        None => None,
    }
}

/// A copy of a list of texts.
pub(crate) fn clone_texts(texts: &Vec<RoffText>) -> (copy: Vec<RoffText>)
    ensures
        text_models(copy@) == text_models(texts@),
{
    let mut copy: Vec<RoffText> = Vec::new();
    let mut i: usize = 0;
    while i < texts.len()
        invariant
            0 <= i <= texts.len(),
            copy@.len() == i,
            forall|j: int| 0 <= j < i ==> (#[trigger] copy@[j])@ == texts@[j]@,
        decreases texts.len() - i,
    {
        copy.push(texts[i].clone());
        i += 1;
    }
    assert(text_models(copy@) =~= text_models(texts@));
    copy
}

/// A copy of a text that may be missing.
pub(crate) fn clone_optional_text(text: &Option<RoffText>) -> (copy: Option<RoffText>)
    ensures
        optional_text_model(copy) == optional_text_model(*text),
{
    match text {
        Some(text) => Some(text.clone()),
        None => None,
    }
}

/// How a text is written in running text: its content between the markers of its style.
pub open spec fn styled(text: TextModel) -> Seq<char> {
    match text.style {
        FontStyle::Bold => "\\fB"@ + text.content + "\\fR"@,
        FontStyle::Italic => "\\fI"@ + text.content + "\\fR"@,
        FontStyle::Roman => text.content,
    }
}

/// The texts of a list written one behind the other, with nothing between them.
pub open spec fn styled_all(texts: Seq<TextModel>) -> Seq<char>
    decreases texts.len(),
{
    if texts.len() == 0 {
        Seq::empty()
    } else {
        styled_all(texts.drop_last()) + styled(texts.last())
    }
}

/// Whether `ch` is a space, a tab, a line feed, a form feed or a carriage return.
pub open spec fn is_ascii_whitespace(ch: char) -> bool {
    ch == ' ' || ch == '\t' || ch == '\n' || ch == '\x0C' || ch == '\r'
}

/// Whether any character of `s` is ASCII whitespace.
pub open spec fn has_whitespace(s: Seq<char>) -> bool {
    exists|i: int| 0 <= i < s.len() && is_ascii_whitespace(#[trigger] s[i])
}

/// A text between double quotes.
pub open spec fn quoted(text: TextModel) -> Seq<char> {
    "\""@ + styled(text) + "\""@
}

/// How a text is written as the argument of a macro: between double quotes
/// where its content holds whitespace, and as it is where it holds none.
pub open spec fn quoted_if_whitespace(text: TextModel) -> Seq<char> {
    if has_whitespace(text.content) {
        quoted(text)
    } else {
        styled(text)
    }
}

/// Whether `s` begins and ends with a double quote of its own.
pub open spec fn is_quoted(s: Seq<char>) -> bool {
    s.len() >= 2 && s[0] == '"' && s.last() == '"'
}

/// A macro argument is surrounded by double quotes exactly where its content
/// holds ASCII whitespace.
pub proof fn lemma_quoted_iff_whitespace(text: TextModel)
    requires
        text.wf(),
    ensures
        is_quoted(quoted_if_whitespace(text)) <==> has_whitespace(text.content),
{
    reveal_strlit("\"");
    reveal_strlit("\\fB");
    reveal_strlit("\\fI");
    reveal_strlit("\\fR");
    let shown = styled(text);
    if has_whitespace(text.content) {
        assert(quoted(text)[0] == '"');
        assert(quoted(text).last() == '"');
    } else if shown.len() >= 2 {
        match text.style {
            FontStyle::Bold => {
                assert(shown[0] == '\\');
            },
            FontStyle::Italic => {
                assert(shown[0] == '\\');
            },
            FontStyle::Roman => {
                assert(crate::escape::safe_at(text.content, 0));
            },
        }
    }
}

/// Appends `roff` to `writer`, between double quotes.
pub fn write_quoted(roff: &RoffText, writer: &mut String)
    ensures
        final(writer)@ == old(writer)@ + quoted(roff@),
{
    writer.append("\"");
    roff.render(writer);
    writer.append("\"");
}

/// Whether any character of `text` is ASCII whitespace.
pub fn contains_whitespace(text: &str) -> (found: bool)
    ensures
        found == has_whitespace(text@),
{
    let mut found = false;
    for ch in it: text.chars()
        invariant
            it.seq() == text@,
            found == has_whitespace(text@.take(it.index())),
    {
        let ghost seen = text@.take(it.index());
        let ghost next = text@.take(it.index() + 1);
        if ch == ' ' || ch == '\t' || ch == '\n' || ch == '\x0C' || ch == '\r' {
            assert(is_ascii_whitespace(next[it.index()]));
            found = true;
        } else {
            proof {
                if has_whitespace(next) {
                    let i = choose|i: int|
                        0 <= i < next.len() && is_ascii_whitespace(#[trigger] next[i]);
                    assert(is_ascii_whitespace(seen[i]));
                }
                if has_whitespace(seen) {
                    let i = choose|i: int|
                        0 <= i < seen.len() && is_ascii_whitespace(#[trigger] seen[i]);
                    assert(is_ascii_whitespace(next[i]));
                }
            }
        }
    }
    assert(text@.take(text@.len() as int) =~= text@);
    found
}

/// Appends `roff` to `writer` as the argument of a macro: quoted where its
/// content holds ASCII whitespace, and only there.
pub fn write_quoted_if_whitespace(roff: &RoffText, writer: &mut String)
    ensures
        final(writer)@ == old(writer)@ + quoted_if_whitespace(roff@),
        is_quoted(quoted_if_whitespace(roff@)) <==> has_whitespace(roff@.content),
{
    let content = roff.content();
    proof {
        lemma_quoted_iff_whitespace(roff@);
    }
    if contains_whitespace(content) {
        write_quoted(roff, writer)
    } else {
        roff.render(writer)
    }
}

/// The character of the decimal digit `d`.
pub open spec fn digit(d: nat) -> char {
    if d == 0 {
        '0'
    } else if d == 1 {
        '1'
    } else if d == 2 {
        '2'
    } else if d == 3 {
        '3'
    } else if d == 4 {
        '4'
    } else if d == 5 {
        '5'
    } else if d == 6 {
        '6'
    } else if d == 7 {
        '7'
    } else if d == 8 {
        '8'
    } else {
        '9'
    }
}

/// The decimal digits of `n`, without leading zeros.
pub open spec fn decimal(n: nat) -> Seq<char>
    decreases n,
{
    if n < 10 {
        seq![digit(n)]
    } else {
        decimal(n / 10).push(digit(n % 10))
    }
}

fn digit_char(d: u8) -> (ch: char)
    requires
        d < 10,
    ensures
        ch == digit(d as nat),
{
    if d == 0 {
        '0'
    } else if d == 1 {
        '1'
    } else if d == 2 {
        '2'
    } else if d == 3 {
        '3'
    } else if d == 4 {
        '4'
    } else if d == 5 {
        '5'
    } else if d == 6 {
        '6'
    } else if d == 7 {
        '7'
    } else if d == 8 {
        '8'
    } else {
        '9'
    }
}

/// The decimal digits of `n` as text.
pub fn decimal_text(n: u8) -> (text: String)
    ensures
        text@ == decimal(n as nat),
{
    let mut text = String::new();
    if n >= 100 {
        push_char(&mut text, digit_char(n / 100));
    }
    if n >= 10 {
        push_char(&mut text, digit_char((n / 10) % 10));
    }
    push_char(&mut text, digit_char(n % 10));
    proof {
        reveal_with_fuel(decimal, 3);
        assert(text@ =~= decimal(n as nat));
    }
    text
}

/// Escaping leaves the decimal digits of a number as they are.
pub proof fn lemma_escaped_decimal(n: nat)
    ensures
        escaped(decimal(n)) == decimal(n),
{
    lemma_decimal_digits(n);
    let s = decimal(n);
    assert forall|i: int| 0 <= i < s.len() implies !crate::escape::is_special(#[trigger] s[i]) by {
        assert('0' <= s[i] <= '9');
    }
    assert forall|i: int| 0 <= i < s.len() implies !#[trigger] crate::escape::is_line_dot(s, i) by {
        assert('0' <= s[i] <= '9');
    }
    crate::escape::lemma_escaped_plain(s);
}

/// A number is written as a macro argument by its decimal digits alone.
pub proof fn lemma_decimal_argument(n: nat)
    ensures
        quoted_if_whitespace(TextModel::plain(decimal(n))) == decimal(n),
{
    lemma_escaped_decimal(n);
    lemma_decimal_digits(n);
    let s = decimal(n);
    if has_whitespace(s) {
        let i = choose|i: int| 0 <= i < s.len() && is_ascii_whitespace(#[trigger] s[i]);
        assert('0' <= s[i] <= '9');
    }
}

proof fn lemma_decimal_digits(n: nat)
    ensures
        forall|i: int| 0 <= i < decimal(n).len() ==> '0' <= #[trigger] decimal(n)[i] <= '9',
    decreases n,
{
    let s = decimal(n);
    if n >= 10 {
        let front = decimal(n / 10);
        lemma_decimal_digits(n / 10);
        assert forall|i: int| 0 <= i < s.len() implies '0' <= #[trigger] s[i] <= '9' by {
            if i < front.len() {
                assert(s[i] == front[i]);
            } else {
                assert(s[i] == digit(n % 10));
            }
        }
    } else {
        assert(s[0] == digit(n));
    }
}

} // verus!
