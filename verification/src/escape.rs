//! Escaping of plain text so that it is safe inside ROFF source.
//!
//! Escaping works in two passes. The first replaces every character that ROFF
//! gives a meaning to by its escape sequence. The second looks at the result
//! and puts `\&` in front of every dot that directly follows a line feed, so
//! that no line of the text can be read as a macro request.

use vstd::prelude::*;

verus! {

broadcast use vstd::string::group_string_axioms;

/// A character of the input, sorted by how it has to be written in ROFF source.
#[derive(Clone, Copy, Debug, PartialEq, Eq)]
pub enum EscapeToken {
    Dash,
    LatinApostrophe,
    OpeningQuote,
    ClosingQuote,
    DoubleQuote,
    LeftDoubleQuote,
    RightDoubleQuote,
    GraveAccent,
    CircumflexAccent,
    ReverseSolidus,
    Tilde,
    Unescaped(char),
}

impl EscapeToken {
    /// The token that `ch` is read as.
    pub open spec fn of(ch: char) -> EscapeToken {
        if ch == '-' {
            EscapeToken::Dash
        } else if ch == '\'' {
            EscapeToken::LatinApostrophe
        } else if ch == '\u{2018}' {
            EscapeToken::OpeningQuote
        } else if ch == '\u{2019}' {
            EscapeToken::ClosingQuote
        } else if ch == '"' {
            EscapeToken::DoubleQuote
        } else if ch == '\u{201c}' {
            EscapeToken::LeftDoubleQuote
        } else if ch == '\u{201d}' {
            EscapeToken::RightDoubleQuote
        } else if ch == '`' {
            EscapeToken::GraveAccent
        } else if ch == '^' {
            EscapeToken::CircumflexAccent
        } else if ch == '\\' {
            EscapeToken::ReverseSolidus
        } else if ch == '~' {
            EscapeToken::Tilde
        } else {
            EscapeToken::Unescaped(ch)
        }
    }

    /// The escape sequence of the token; empty for a character that needs none.
    pub open spec fn sequence(self) -> Seq<char> {
        match self {
            EscapeToken::Dash => seq!['\\', '-'],
            EscapeToken::LatinApostrophe => seq!['\\', '(', 'a', 'q'],
            EscapeToken::OpeningQuote => seq!['\\', '(', 'o', 'q'],
            EscapeToken::ClosingQuote => seq!['\\', '(', 'c', 'q'],
            EscapeToken::DoubleQuote => seq!['\\', '(', 'd', 'q'],
            EscapeToken::LeftDoubleQuote => seq!['\\', '(', 'l', 'q'],
            EscapeToken::RightDoubleQuote => seq!['\\', '(', 'r', 'q'],
            EscapeToken::GraveAccent => seq!['\\', '(', 'g', 'a'],
            EscapeToken::CircumflexAccent => seq!['\\', '(', 'h', 'a'],
            EscapeToken::ReverseSolidus => seq!['\\', 'e'],
            EscapeToken::Tilde => seq!['\\', '(', 't', 'i'],
            EscapeToken::Unescaped(_) => Seq::empty(),
        }
    }

    /// What the token is written as: its escape sequence, or the character itself.
    pub open spec fn written(self) -> Seq<char> {
        match self {
            EscapeToken::Unescaped(ch) => seq![ch],
            _ => self.sequence(),
        }
    }

    /// The escape sequence of the token as text; empty for a character that needs none.
    pub fn escape_sequence(&self) -> (text: &'static str)
        ensures
            text@ == self.sequence(),
    {
        match self {
            EscapeToken::Dash => {
                proof {
                    reveal_strlit("\\-");
                }
                assert("\\-"@ =~= seq!['\\', '-']);
                "\\-"
            },
            EscapeToken::LatinApostrophe => {
                proof {
                    reveal_strlit("\\(aq");
                }
                assert("\\(aq"@ =~= seq!['\\', '(', 'a', 'q']);
                "\\(aq"
            },
            EscapeToken::OpeningQuote => {
                proof {
                    reveal_strlit("\\(oq");
                }
                assert("\\(oq"@ =~= seq!['\\', '(', 'o', 'q']);
                "\\(oq"
            },
            EscapeToken::ClosingQuote => {
                proof {
                    reveal_strlit("\\(cq");
                }
                assert("\\(cq"@ =~= seq!['\\', '(', 'c', 'q']);
                "\\(cq"
            },
            EscapeToken::DoubleQuote => {
                proof {
                    reveal_strlit("\\(dq");
                }
                assert("\\(dq"@ =~= seq!['\\', '(', 'd', 'q']);
                "\\(dq"
            },
            EscapeToken::LeftDoubleQuote => {
                proof {
                    reveal_strlit("\\(lq");
                }
                assert("\\(lq"@ =~= seq!['\\', '(', 'l', 'q']);
                "\\(lq"
            },
            EscapeToken::RightDoubleQuote => {
                proof {
                    reveal_strlit("\\(rq");
                }
                assert("\\(rq"@ =~= seq!['\\', '(', 'r', 'q']);
                "\\(rq"
            },
            EscapeToken::GraveAccent => {
                proof {
                    reveal_strlit("\\(ga");
                }
                assert("\\(ga"@ =~= seq!['\\', '(', 'g', 'a']);
                "\\(ga"
            },
            EscapeToken::CircumflexAccent => {
                proof {
                    reveal_strlit("\\(ha");
                }
                assert("\\(ha"@ =~= seq!['\\', '(', 'h', 'a']);
                "\\(ha"
            },
            EscapeToken::ReverseSolidus => {
                proof {
                    reveal_strlit("\\e");
                }
                assert("\\e"@ =~= seq!['\\', 'e']);
                "\\e"
            },
            EscapeToken::Tilde => {
                proof {
                    reveal_strlit("\\(ti");
                }
                assert("\\(ti"@ =~= seq!['\\', '(', 't', 'i']);
                "\\(ti"
            },
            EscapeToken::Unescaped(_) => {
                proof {
                    reveal_strlit("");
                }
                assert(""@ =~= Seq::<char>::empty());
                ""
            },
        }
    }

    /// The character itself, where it needs no escape sequence.
    pub fn unescaped_char(&self) -> (ch: Option<char>)
        ensures
            ch == (match *self {
                EscapeToken::Unescaped(c) => Some(c),
                _ => None,
            }),
    {
        if let EscapeToken::Unescaped(ch) = self {
            Some(*ch)
        } else {
            None
        }
    }
}

impl From<char> for EscapeToken {
    /// Reads one character of the input.
    fn from(ch: char) -> (token: EscapeToken) {
        if ch == '-' {
            EscapeToken::Dash
        } else if ch == '\'' {
            EscapeToken::LatinApostrophe
        } else if ch == '\u{2018}' {
            EscapeToken::OpeningQuote
        } else if ch == '\u{2019}' {
            EscapeToken::ClosingQuote
        } else if ch == '"' {
            EscapeToken::DoubleQuote
        } else if ch == '\u{201c}' {
            EscapeToken::LeftDoubleQuote
        } else if ch == '\u{201d}' {
            EscapeToken::RightDoubleQuote
        } else if ch == '`' {
            EscapeToken::GraveAccent
        } else if ch == '^' {
            EscapeToken::CircumflexAccent
        } else if ch == '\\' {
            EscapeToken::ReverseSolidus
        } else if ch == '~' {
            EscapeToken::Tilde
        } else {
            EscapeToken::Unescaped(ch)
        }
    }
}

impl vstd::std_specs::convert::FromSpecImpl<char> for EscapeToken {
    open spec fn obeys_from_spec() -> bool {
        true
    }

    open spec fn from_spec(ch: char) -> EscapeToken {
        EscapeToken::of(ch)
    }
}

/// What stands for `ch` in ROFF source.
pub open spec fn escape_char(ch: char) -> Seq<char> {
    EscapeToken::of(ch).written()
}

/// The first pass: every character replaced by what stands for it.
pub open spec fn substitute(s: Seq<char>) -> Seq<char>
    decreases s.len(),
{
    if s.len() == 0 {
        Seq::empty()
    } else {
        substitute(s.drop_last()) + escape_char(s.last())
    }
}

/// Whether position `i` of `s` holds a dot that directly follows a line feed.
pub open spec fn is_line_dot(s: Seq<char>, i: int) -> bool {
    0 < i < s.len() && s[i] == '.' && s[i - 1] == '\n'
}

/// The second pass: `\&` put in front of every dot that directly follows a line feed.
pub open spec fn guard_line_dots(s: Seq<char>) -> Seq<char>
    decreases s.len(),
{
    if s.len() == 0 {
        Seq::empty()
    } else if is_line_dot(s, s.len() - 1) {
        guard_line_dots(s.drop_last()) + seq!['\\', '&', '.']
    } else {
        guard_line_dots(s.drop_last()).push(s.last())
    }
}

/// The escaped form of `s`.
pub open spec fn escaped(s: Seq<char>) -> Seq<char> {
    guard_line_dots(substitute(s))
}

/// Whether `ch` is one of the characters that are written as an escape sequence.
pub open spec fn is_special(ch: char) -> bool {
    !(EscapeToken::of(ch) is Unescaped)
}

/// What escaping puts between the escaped forms of `a` and `b` when the two are
/// joined: `\&` where the join brings a dot directly behind a line feed.
pub open spec fn seam(a: Seq<char>, b: Seq<char>) -> Seq<char> {
    if a.len() > 0 && b.len() > 0 && a.last() == '\n' && b[0] == '.' {
        seq!['\\', '&']
    } else {
        Seq::empty()
    }
}

/// Whether position `j` of `t` is safe in ROFF source: a backslash starts an
/// escape sequence, a dash stands behind a backslash, no other character with a
/// meaning to ROFF stands there, and no dot directly follows a line feed.
pub open spec fn safe_at(t: Seq<char>, j: int) -> bool {
    &&& t[j] == '\\' ==> j + 1 < t.len() && (t[j + 1] == '-' || t[j + 1] == '(' || t[j + 1] == 'e'
        || t[j + 1] == '&')
    &&& t[j] == '-' ==> j > 0 && t[j - 1] == '\\'
    &&& t[j] != '\\' && t[j] != '-' ==> !is_special(t[j])
    &&& !is_line_dot(t, j)
}

/// Whether `t` is safe at every position.
pub open spec fn is_escaped(t: Seq<char>) -> bool {
    forall|j: int| 0 <= j < t.len() ==> #[trigger] safe_at(t, j)
}

proof fn lemma_substitute_concat(a: Seq<char>, b: Seq<char>)
    ensures
        substitute(a + b) == substitute(a) + substitute(b),
    decreases b.len(),
{
    if b.len() == 0 {
        assert(a + b =~= a);
    } else {
        assert((a + b).drop_last() =~= a + b.drop_last());
        lemma_substitute_concat(a, b.drop_last());
    }
}

proof fn lemma_substitute_one(ch: char)
    ensures
        substitute(seq![ch]) == escape_char(ch),
{
    assert(seq![ch].drop_last() =~= Seq::<char>::empty());
    assert(substitute(seq![ch].drop_last()) =~= Seq::<char>::empty());
}

/// The first pass keeps the ends of a text recognisable: its result is not
/// empty, ends in a line feed only where the text does, and begins with a dot
/// only where the text does.
proof fn lemma_substitute_ends(s: Seq<char>)
    requires
        s.len() > 0,
    ensures
        substitute(s).len() > 0,
        substitute(s).last() == '\n' <==> s.last() == '\n',
        substitute(s)[0] == '.' <==> s[0] == '.',
{
    assert(s =~= s.drop_last() + seq![s.last()]);
    lemma_substitute_concat(s.drop_last(), seq![s.last()]);
    lemma_substitute_one(s.last());
    assert(s =~= seq![s[0]] + s.skip(1));
    lemma_substitute_concat(seq![s[0]], s.skip(1));
    lemma_substitute_one(s[0]);
}

proof fn lemma_guard_concat(x: Seq<char>, y: Seq<char>)
    ensures
        guard_line_dots(x + y) == guard_line_dots(x) + seam(x, y) + guard_line_dots(y),
    decreases y.len(),
{
    if y.len() == 0 {
        assert(x + y =~= x);
    } else {
        let front = y.drop_last();
        assert((x + y).drop_last() =~= x + front);
        lemma_guard_concat(x, front);
        if front.len() == 0 {
            assert(guard_line_dots(front) =~= Seq::<char>::empty());
            assert(!is_line_dot(y, y.len() - 1));
        } else {
            assert(is_line_dot(x + y, (x + y).len() - 1) == is_line_dot(y, y.len() - 1));
            assert(seam(x, y) == seam(x, front));
        }
    }
}

/// Escaping a text made of two parts gives the escaped parts, with `\&` between
/// them where the join brings a dot directly behind a line feed.
pub proof fn lemma_escaped_concat(a: Seq<char>, b: Seq<char>)
    ensures
        escaped(a + b) == escaped(a) + seam(a, b) + escaped(b),
{
    lemma_substitute_concat(a, b);
    lemma_guard_concat(substitute(a), substitute(b));
    if a.len() > 0 {
        lemma_substitute_ends(a);
    }
    if b.len() > 0 {
        lemma_substitute_ends(b);
    }
}

/// A single character is escaped to what stands for it.
pub proof fn lemma_escaped_one(ch: char)
    ensures
        escaped(seq![ch]) == escape_char(ch),
{
    lemma_substitute_one(ch);
    let t = escape_char(ch);
    reveal_with_fuel(guard_line_dots, 5);
    if t.len() == 1 {
        assert(t.drop_last() =~= Seq::<char>::empty());
        assert(guard_line_dots(t) =~= t);
    } else if t.len() == 2 {
        assert(t.drop_last().drop_last() =~= Seq::<char>::empty());
        assert(guard_line_dots(t) =~= t);
    } else {
        assert(t.len() == 4);
        assert(t.drop_last().drop_last().drop_last().drop_last() =~= Seq::<char>::empty());
        assert(guard_line_dots(t) =~= t);
    }
}

/// The escaped form of a text that is not empty is not empty, and ends in a
/// line feed only where the text does.
pub proof fn lemma_escaped_last(s: Seq<char>)
    requires
        s.len() > 0,
    ensures
        escaped(s).len() > 0,
        escaped(s).last() == '\n' <==> s.last() == '\n',
{
    assert(s =~= s.drop_last() + seq![s.last()]);
    lemma_escaped_concat(s.drop_last(), seq![s.last()]);
    lemma_escaped_one(s.last());
}

/// Text in which no character is written as an escape sequence, and no dot
/// directly follows a line feed, is left as it is.
pub proof fn lemma_escaped_plain(s: Seq<char>)
    requires
        forall|i: int| 0 <= i < s.len() ==> !is_special(#[trigger] s[i]),
        forall|i: int| 0 <= i < s.len() ==> !#[trigger] is_line_dot(s, i),
    ensures
        escaped(s) == s,
    decreases s.len(),
{
    if s.len() == 0 {
        assert(substitute(s) =~= Seq::<char>::empty());
    } else {
        let front = s.drop_last();
        assert(s =~= front + seq![s.last()]);
        assert forall|i: int| 0 <= i < front.len() implies !#[trigger] is_line_dot(front, i) by {
            assert(!is_line_dot(s, i));
        }
        assert forall|i: int| 0 <= i < front.len() implies !is_special(#[trigger] front[i]) by {
            assert(front[i] == s[i]);
        }
        lemma_escaped_plain(front);
        lemma_escaped_concat(front, seq![s.last()]);
        lemma_escaped_one(s.last());
        assert(!is_line_dot(s, s.len() - 1));
        assert(!is_special(s[s.len() - 1]));
        assert(seam(front, seq![s.last()]) =~= Seq::<char>::empty());
    }
}

/// Escaped text is safe at every position: each character that ROFF gives a
/// meaning to has become part of an escape sequence, and no dot directly
/// follows a line feed.
pub proof fn lemma_escaped_is_escaped(s: Seq<char>)
    ensures
        is_escaped(escaped(s)),
    decreases s.len(),
{
    if s.len() == 0 {
        assert(substitute(s) =~= Seq::<char>::empty());
    } else {
        let front = s.drop_last();
        let ch = s.last();
        let before = escaped(front);
        let between = seam(front, seq![ch]);
        let piece = escape_char(ch);
        let all = escaped(s);
        assert(s =~= front + seq![ch]);
        lemma_escaped_is_escaped(front);
        lemma_escaped_concat(front, seq![ch]);
        lemma_escaped_one(ch);
        if front.len() > 0 {
            lemma_escaped_last(front);
        }
        assert(all == before + between + piece);
        assert forall|j: int| 0 <= j < all.len() implies #[trigger] safe_at(all, j) by {
            if j < before.len() {
                assert(safe_at(before, j));
                assert(all[j] == before[j]);
                if j > 0 {
                    assert(all[j - 1] == before[j - 1]);
                }
                if j + 1 < before.len() {
                    assert(all[j + 1] == before[j + 1]);
                }
            } else if j < before.len() + between.len() {
                assert(ch == '.');
                assert(piece =~= seq!['.']);
                let n = before.len() as int;
                assert(all[n] == '\\');
                assert(all[n + 1] == '&');
                assert(all[n + 2] == '.');
            } else {
                let k = j - before.len() - between.len();
                assert(all[j] == piece[k]);
                if k > 0 {
                    assert(all[j - 1] == piece[k - 1]);
                }
                if k + 1 < piece.len() {
                    assert(all[j + 1] == piece[k + 1]);
                }
                if k == 0 && between.len() > 0 {
                    assert(all[j - 1] == '&');
                }
                if k == 0 && between.len() == 0 && before.len() > 0 {
                    assert(all[j - 1] == before.last());
                }
            }
        }
    }
}

/// A dot that directly follows a line feed is written as `\&.`, and every
/// other dot as itself; what stands before and behind it is escaped by itself.
pub proof fn lemma_escaped_dot(s: Seq<char>, i: int)
    requires
        0 <= i < s.len(),
        s[i] == '.',
    ensures
        escaped(s) == escaped(s.take(i)) + (if is_line_dot(s, i) {
            seq!['\\', '&', '.']
        } else {
            seq!['.']
        }) + escaped(s.skip(i + 1)),
{
    let a = s.take(i);
    let b = s.skip(i + 1);
    assert(s =~= a + seq!['.'] + b);
    lemma_escaped_concat(a + seq!['.'], b);
    lemma_escaped_concat(a, seq!['.']);
    lemma_escaped_one('.');
    assert(seam(a + seq!['.'], b) =~= Seq::<char>::empty());
    if is_line_dot(s, i) {
        assert(a.last() == s[i - 1]);
        assert(seam(a, seq!['.']) + seq!['.'] =~= seq!['\\', '&', '.']);
        assert(escaped(a) + seam(a, seq!['.']) + seq!['.'] =~= escaped(a) + seq!['\\', '&', '.']);
    } else {
        if a.len() > 0 {
            assert(a.last() == s[i - 1]);
        }
        assert(seam(a, seq!['.']) =~= Seq::<char>::empty());
        assert(escaped(a) + seam(a, seq!['.']) + seq!['.'] =~= escaped(a) + seq!['.']);
    }
}

/// Appends `ch` to `text` by `String::push`. Taken on trust: afterwards the
/// text is what it was before, with `ch` behind it.
#[verifier::external_body]
pub(crate) fn push_char(text: &mut String, ch: char)
    ensures
        final(text)@ == old(text)@.push(ch),
{
    text.push(ch)
}

/// The first pass of escaping.
fn substitute_text(text: &str) -> (out: String)
    ensures
        out@ == substitute(text@),
{
    let mut out = String::new();
    for ch in it: text.chars()
        invariant
            it.seq() == text@,
            out@ == substitute(text@.take(it.index())),
    {
        let token = EscapeToken::from(ch);
        if let Some(plain) = token.unescaped_char() {
            push_char(&mut out, plain);
        } else {
            out.append(token.escape_sequence());
        }
        assert(text@.take(it.index() + 1).drop_last() =~= text@.take(it.index()));
    }
    assert(text@.take(text@.len() as int) =~= text@);
    out
}

/// The second pass of escaping.
fn guard_text(text: &str) -> (out: String)
    ensures
        out@ == guard_line_dots(text@),
{
    let mut out = String::new();
    let mut after_line_feed = false;
    for ch in it: text.chars()
        invariant
            it.seq() == text@,
            out@ == guard_line_dots(text@.take(it.index())),
            after_line_feed == (it.index() > 0 && text@[it.index() - 1] == '\n'),
    {
        if ch == '.' && after_line_feed {
            proof {
                reveal_strlit("\\&.");
            }
            assert("\\&."@ =~= seq!['\\', '&', '.']);
            out.append("\\&.");
        } else {
            push_char(&mut out, ch);
        }
        after_line_feed = ch == '\n';
        assert(text@.take(it.index() + 1).drop_last() =~= text@.take(it.index()));
    }
    assert(text@.take(text@.len() as int) =~= text@);
    out
}

/// Escapes `text` for use in ROFF source. The result is safe at every position.
pub fn escape(text: &str) -> (out: String)
    ensures
        out@ == escaped(text@),
        is_escaped(out@),
{
    proof {
        lemma_escaped_is_escaped(text@);
    }
    let substituted = substitute_text(text);
    guard_text(substituted.as_str())
}

} // verus!
