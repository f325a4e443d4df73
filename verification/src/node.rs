//! The nodes of a document, what they stand for, and how they are rendered.
//!
//! Rendering walks the tree once, depth first. It carries one flag from node to
//! node: whether the node rendered last left the output inside a line of
//! running text. A node that begins with a macro request ends that line first.

use crate::escape::push_char;
use crate::roffable::{
    into_inner_nodes, into_nodes, into_texts, node_models, roff_models, IntoRoffNode, Roffable,
};
use crate::synopsis::{clone_options, option_models, SynopsisOpt, SynopsisOptModel};
use crate::text::{
    clone_optional_text, clone_texts, decimal, lemma_escaped_decimal, optional_text_model,
    quoted_if_whitespace, styled, styled_all, text_models, write_quoted_if_whitespace, RoffText,
    TextModel,
};
use vstd::prelude::*;

verus! {

broadcast use vstd::string::group_string_axioms;

/// What a node stands for: the tree that rendering walks.
#[allow(inconsistent_fields)]
pub enum NodeModel {
    /// Styled running text.
    Text(TextModel),
    /// A paragraph of nodes.
    Paragraph(Seq<NodeModel>),
    /// An indented paragraph, with the width of the indentation and a title
    /// where they are given.
    IndentedParagraph { content: Seq<NodeModel>, indentation: Option<u8>, title: Option<TextModel> },
    /// A paragraph with a title on a line of its own.
    TaggedParagraph { content: Seq<NodeModel>, title: TextModel },
    /// A block of monospaced text.
    Example(Seq<TextModel>),
    /// A synopsis of a command with its options.
    Synopsis { command: TextModel, text: Seq<TextModel>, opts: Seq<SynopsisOptModel> },
    /// A link to a web address.
    Url { name: TextModel, address: TextModel },
    /// A link to an email address.
    Email { name: TextModel, address: TextModel },
    RegisteredSign,
    LeftQuote,
    RightQuote,
    TrademarkSign,
    /// Nodes that are indented as a block.
    Nested(Seq<NodeModel>),
    /// A line break.
    Break,
    EmDash,
    EnDash,
    NonBreakingSpace,
    /// A comment in the ROFF source; its text is not escaped.
    Comment(Seq<char>),
}

impl NodeModel {
    /// Whether the node is written into the running line: text or a glyph.
    pub open spec fn is_inline(self) -> bool {
        match self {
            NodeModel::Text(_)
            | NodeModel::RegisteredSign
            | NodeModel::LeftQuote
            | NodeModel::RightQuote
            | NodeModel::TrademarkSign
            | NodeModel::EmDash
            | NodeModel::EnDash
            | NodeModel::NonBreakingSpace => true,
            _ => false,
        }
    }

    /// Whether the node begins with a macro request that needs a line of its own.
    pub open spec fn is_block(self) -> bool {
        match self {
            NodeModel::Paragraph(_)
            | NodeModel::IndentedParagraph { .. }
            | NodeModel::TaggedParagraph { .. }
            | NodeModel::Example(_)
            | NodeModel::Synopsis { .. }
            | NodeModel::Url { .. }
            | NodeModel::Email { .. }
            | NodeModel::Nested(_)
            | NodeModel::Comment(_) => true,
            _ => false,
        }
    }

    /// The macro request that a block begins with.
    pub open spec fn request(self) -> Seq<char> {
        match self {
            NodeModel::Paragraph(_) => ".P"@,
            NodeModel::IndentedParagraph { .. } => ".IP"@,
            NodeModel::TaggedParagraph { .. } => ".TP"@,
            NodeModel::Example(_) => ".EX"@,
            NodeModel::Synopsis { .. } => ".SY"@,
            NodeModel::Url { .. } => ".UR"@,
            NodeModel::Email { .. } => ".MT"@,
            NodeModel::Nested(_) => ".RS"@,
            NodeModel::Comment(_) => ".\\\""@,
            _ => Seq::empty(),
        }
    }
}

/// What rendering gives: the text written, and whether it ends inside a line of
/// running text.
pub struct Rendered {
    pub text: Seq<char>,
    pub was_text: bool,
}

/// The line feed that ends a line of running text, where there is one to end.
pub open spec fn line_end(was_text: bool) -> Seq<char> {
    if was_text {
        "\n"@
    } else {
        Seq::empty()
    }
}

/// The arguments of an indented paragraph: none where no indentation is given;
/// else the title as a macro argument, or an empty pair of quotes where there
/// is no title, and the width of the indentation.
pub open spec fn indentation_clause(indentation: Option<u8>, title: Option<TextModel>) -> Seq<char> {
    match indentation {
        Some(width) => " "@ + (match title {
            Some(title) => quoted_if_whitespace(title),
            None => "\"\""@,
        }) + " "@ + decimal(width as nat),
        None => Seq::empty(),
    }
}

/// One option of a synopsis: an empty line, the request with the name and the
/// argument of the option, and its description on the next line.
pub open spec fn render_option(opt: SynopsisOptModel) -> Seq<char> {
    "\n.OP "@ + quoted_if_whitespace(opt.name) + (match opt.argument {
        Some(argument) => " "@ + quoted_if_whitespace(argument),
        None => Seq::empty(),
    }) + "\n"@ + (match opt.description {
        Some(description) => styled_all(description),
        None => Seq::empty(),
    }) + "\n"@
}

/// The options of a synopsis, one behind the other.
pub open spec fn render_options(opts: Seq<SynopsisOptModel>) -> Seq<char>
    decreases opts.len(),
{
    if opts.len() == 0 {
        Seq::empty()
    } else {
        render_options(opts.drop_last()) + render_option(opts.last())
    }
}

/// A link: the opening request with the address, the visible name on a line of
/// its own unless it is empty, and the closing request.
pub open spec fn render_link(
    open: Seq<char>,
    close: Seq<char>,
    name: TextModel,
    address: TextModel,
) -> Seq<char> {
    open + " "@ + styled(address) + "\n"@ + styled(name) + line_end(name.content.len() > 0) + close
        + "\n"@
}

/// The text of a comment on one line: every line feed replaced by a space.
pub open spec fn one_line(comment: Seq<char>) -> Seq<char> {
    Seq::new(
        comment.len(),
        |i: int|
            if comment[i] == '\n' {
                ' '
            } else {
                comment[i]
            },
    )
}

/// What rendering `node` gives when `was_text` tells whether the output so far
/// ends inside a line of running text. Text and glyphs are written into the
/// running line. A block ends the running line first.
pub open spec fn render_node(node: NodeModel, was_text: bool) -> Rendered
    decreases node, 1nat,
{
    match node {
        NodeModel::Text(text) => Rendered { text: styled(text), was_text: true },
        NodeModel::RegisteredSign => Rendered { text: "\\*R"@, was_text: true },
        NodeModel::LeftQuote => Rendered { text: "\\*(lq"@, was_text: true },
        NodeModel::RightQuote => Rendered { text: "\\*(rq"@, was_text: true },
        NodeModel::TrademarkSign => Rendered { text: "\\*(Tm"@, was_text: true },
        NodeModel::EmDash => Rendered { text: "\\(em"@, was_text: true },
        NodeModel::EnDash => Rendered { text: "\\(en"@, was_text: true },
        NodeModel::NonBreakingSpace => Rendered { text: "\\~"@, was_text: true },
        NodeModel::Break => Rendered { text: "\n.br\n"@, was_text },
        _ => {
            let block = render_block(node, was_text);
            Rendered { text: line_end(was_text) + block.text, was_text: block.was_text }
        },
    }
}

/// What a block writes once the running line is ended: its request, and what
/// belongs to it. The nodes inside a paragraph are rendered in the state that
/// the paragraph found, those inside a nested block on a fresh line. A
/// paragraph leaves the state that its last node left; every other block ends
/// with a line feed of its own.
pub open spec fn render_block(node: NodeModel, was_text: bool) -> Rendered
    decreases node, 0nat,
{
    match node {
        NodeModel::Paragraph(content) => {
            let inner = render_nodes(content, was_text);
            Rendered { text: ".P\n"@ + inner.text, was_text: inner.was_text }
        },
        NodeModel::IndentedParagraph { content, indentation, title } => {
            let inner = render_nodes(content, was_text);
            Rendered {
                text: ".IP"@ + indentation_clause(indentation, title) + "\n"@ + inner.text + "\n"@,
                was_text: false,
            }
        },
        NodeModel::TaggedParagraph { content, title } => {
            let inner = render_nodes(content, was_text);
            Rendered {
                text: ".TP\n"@ + styled(title) + "\n"@ + inner.text + "\n"@,
                was_text: false,
            }
        },
        NodeModel::Example(lines) => Rendered {
            text: ".EX\n"@ + styled_all(lines) + "\n.EE\n"@,
            was_text: false,
        },
        NodeModel::Synopsis { command, text, opts } => Rendered {
            text: ".SY "@ + quoted_if_whitespace(command) + "\n"@ + styled_all(text) + line_end(
                text.len() > 0,
            ) + render_options(opts) + ".YS\n"@,
            was_text: false,
        },
        NodeModel::Url { name, address } => Rendered {
            text: render_link(".UR"@, ".UE"@, name, address),
            was_text: false,
        },
        NodeModel::Email { name, address } => Rendered {
            text: render_link(".MT"@, ".ME"@, name, address),
            was_text: false,
        },
        NodeModel::Nested(nodes) => {
            let inner = render_nodes(nodes, false);
            Rendered {
                text: ".RS\n"@ + inner.text + line_end(inner.was_text) + ".RE\n"@,
                was_text: false,
            }
        },
        NodeModel::Comment(comment) => Rendered {
            text: ".\\\" "@ + one_line(comment) + "\n"@,
            was_text: false,
        },
        _ => Rendered { text: Seq::empty(), was_text },
    }
}

/// What rendering sibling nodes in order gives: each node is rendered in the
/// state that the node before it left.
pub open spec fn render_nodes(nodes: Seq<NodeModel>, was_text: bool) -> Rendered
    decreases nodes, 2nat,
{
    if nodes.len() == 0 {
        Rendered { text: Seq::empty(), was_text }
    } else {
        let before = render_nodes(nodes.drop_last(), was_text);
        let last = render_node(nodes.last(), before.was_text);
        Rendered { text: before.text + last.text, was_text: last.was_text }
    }
}

/// Rendering siblings in two parts is rendering the first part, then the
/// second in the state that the first left.
pub proof fn lemma_render_nodes_concat(a: Seq<NodeModel>, b: Seq<NodeModel>, was_text: bool)
    ensures
        render_nodes(a + b, was_text).text == render_nodes(a, was_text).text + render_nodes(
            b,
            render_nodes(a, was_text).was_text,
        ).text,
        render_nodes(a + b, was_text).was_text == render_nodes(
            b,
            render_nodes(a, was_text).was_text,
        ).was_text,
    decreases b.len(),
{
    if b.len() == 0 {
        assert(a + b =~= a);
    } else {
        assert((a + b).drop_last() =~= a + b.drop_last());
        lemma_render_nodes_concat(a, b.drop_last(), was_text);
    }
}

/// Rendering a single node as a list of siblings is rendering the node.
pub proof fn lemma_render_nodes_one(node: NodeModel, was_text: bool)
    ensures
        render_nodes(seq![node], was_text) == render_node(node, was_text),
{
    let none = Seq::<NodeModel>::empty();
    assert(seq![node].drop_last() =~= none);
    assert(render_nodes(none, was_text) == Rendered { text: Seq::empty(), was_text });
    assert(render_nodes(seq![node], was_text).text =~= render_node(node, was_text).text);
}

/// Text and glyphs are written as they are, whatever stands before them, and
/// leave the output inside a line of running text.
pub proof fn lemma_inline_ignores_state(node: NodeModel, was_text: bool)
    requires
        node.is_inline(),
    ensures
        render_node(node, was_text).text == render_node(node, false).text,
        render_node(node, was_text).was_text,
{
}

/// A block begins with its request, which begins with a dot.
pub proof fn lemma_block_begins_with_request(node: NodeModel, was_text: bool)
    requires
        node.is_block(),
    ensures
        node.request().len() > 0,
        node.request()[0] == '.',
        node.request().is_prefix_of(render_block(node, was_text).text),
{
    reveal_strlit(".P");
    reveal_strlit(".P\n");
    reveal_strlit(".IP");
    reveal_strlit(".TP");
    reveal_strlit(".TP\n");
    reveal_strlit(".EX");
    reveal_strlit(".EX\n");
    reveal_strlit(".SY");
    reveal_strlit(".SY ");
    reveal_strlit(".UR");
    reveal_strlit(".MT");
    reveal_strlit(".RS");
    reveal_strlit(".RS\n");
    reveal_strlit(".\\\"");
    reveal_strlit(".\\\" ");
    let request = node.request();
    let text = render_block(node, was_text).text;
    assert(request.len() <= text.len());
    assert(request =~= text.subrange(0, request.len() as int));
}

/// Where text or a glyph is directly followed by a block, exactly one line
/// feed stands between what the two write: the block begins on the next line.
pub proof fn lemma_line_feed_before_block(nodes: Seq<NodeModel>, i: int, was_text: bool)
    requires
        0 <= i,
        i + 1 < nodes.len(),
        nodes[i].is_inline(),
        nodes[i + 1].is_block(),
    ensures
        render_nodes(nodes, was_text).text == render_nodes(nodes.take(i), was_text).text
            + render_node(nodes[i], false).text + "\n"@ + render_block(nodes[i + 1], true).text
            + render_nodes(nodes.skip(i + 2), render_block(nodes[i + 1], true).was_text).text,
{
    let before = nodes.take(i);
    let pair = seq![nodes[i], nodes[i + 1]];
    let after = nodes.skip(i + 2);
    assert(nodes =~= before + pair + after);
    lemma_render_nodes_concat(before + pair, after, was_text);
    lemma_render_nodes_concat(before, pair, was_text);
    let state = render_nodes(before, was_text).was_text;
    assert(pair =~= seq![nodes[i]] + seq![nodes[i + 1]]);
    lemma_render_nodes_concat(seq![nodes[i]], seq![nodes[i + 1]], state);
    lemma_render_nodes_one(nodes[i], state);
    lemma_render_nodes_one(nodes[i + 1], true);
    lemma_inline_ignores_state(nodes[i], state);
    assert(render_nodes(pair, state).text =~= render_node(nodes[i], false).text + "\n"@
        + render_block(nodes[i + 1], true).text);
}

/// Where text or a glyph is directly followed by text or a glyph, nothing
/// stands between what the two write.
pub proof fn lemma_nothing_between_inline(nodes: Seq<NodeModel>, i: int, was_text: bool)
    requires
        0 <= i,
        i + 1 < nodes.len(),
        nodes[i].is_inline(),
        nodes[i + 1].is_inline(),
    ensures
        render_nodes(nodes, was_text).text == render_nodes(nodes.take(i), was_text).text
            + render_node(nodes[i], false).text + render_node(nodes[i + 1], false).text
            + render_nodes(nodes.skip(i + 2), true).text,
{
    let before = nodes.take(i);
    let pair = seq![nodes[i], nodes[i + 1]];
    let after = nodes.skip(i + 2);
    assert(nodes =~= before + pair + after);
    lemma_render_nodes_concat(before + pair, after, was_text);
    lemma_render_nodes_concat(before, pair, was_text);
    let state = render_nodes(before, was_text).was_text;
    assert(pair =~= seq![nodes[i]] + seq![nodes[i + 1]]);
    lemma_render_nodes_concat(seq![nodes[i]], seq![nodes[i + 1]], state);
    lemma_render_nodes_one(nodes[i], state);
    lemma_render_nodes_one(nodes[i + 1], true);
    lemma_inline_ignores_state(nodes[i], state);
    lemma_inline_ignores_state(nodes[i + 1], true);
}

/// Base struct used to create ROFFs.
#[derive(Debug)]
pub struct RoffNode(RoffNodeInner);

/// The kinds of node.
#[derive(Debug)]
#[allow(inconsistent_fields)]
pub enum RoffNodeInner {
    /// The most basic node type, contains only text with style.
    Text(RoffText),
    /// A simple paragraph that can contain nested items.
    Paragraph(Vec<RoffNodeInner>),
    /// Indented paragraph that can contain nested items.
    IndentedParagraph { content: Vec<RoffNodeInner>, indentation: Option<u8>, title: Option<RoffText> },
    /// Paragraph with a title.
    TaggedParagraph { content: Vec<RoffNodeInner>, title: RoffText },
    /// An example block where text is monospaced.
    Example(Vec<RoffText>),
    Synopsis { command: RoffText, text: Vec<RoffText>, opts: Vec<SynopsisOpt> },
    Url { name: RoffText, address: RoffText },
    Email { name: RoffText, address: RoffText },
    RegisteredSign,
    LeftQuote,
    RightQuote,
    TrademarkSign,
    Nested(Vec<RoffNode>),
    Break,
    EmDash,
    EnDash,
    NonBreakingSpace,
    Comment(String),
}

/// The models of the nodes of a list, in order.
pub open spec fn inner_models(nodes: Seq<RoffNodeInner>) -> Seq<NodeModel>
    decreases nodes,
{
    Seq::new(
        nodes.len(),
        |i: int|
            if 0 <= i < nodes.len() {
                nodes[i].model()
            } else {
                arbitrary()
            },
    )
}

/// The models of the nodes of a list, in order.
pub open spec fn outer_models(nodes: Seq<RoffNode>) -> Seq<NodeModel>
    decreases nodes,
{
    Seq::new(
        nodes.len(),
        |i: int|
            if 0 <= i < nodes.len() {
                nodes[i].model()
            } else {
                arbitrary()
            },
    )
}

impl RoffNodeInner {
    /// What the node stands for.
    pub open spec fn model(self) -> NodeModel
        decreases self,
    {
        match self {
            RoffNodeInner::Text(text) => NodeModel::Text(text@),
            RoffNodeInner::Paragraph(content) => NodeModel::Paragraph(inner_models(content@)),
            RoffNodeInner::IndentedParagraph { content, indentation, title } => {
                NodeModel::IndentedParagraph {
                    content: inner_models(content@),
                    indentation,
                    title: optional_text_model(title),
                }
            },
            RoffNodeInner::TaggedParagraph { content, title } => NodeModel::TaggedParagraph {
                content: inner_models(content@),
                title: title@,
            },
            RoffNodeInner::Example(lines) => NodeModel::Example(text_models(lines@)),
            RoffNodeInner::Synopsis { command, text, opts } => NodeModel::Synopsis {
                command: command@,
                text: text_models(text@),
                opts: option_models(opts@),
            },
            RoffNodeInner::Url { name, address } => NodeModel::Url {
                name: name@,
                address: address@,
            },
            RoffNodeInner::Email { name, address } => NodeModel::Email {
                name: name@,
                address: address@,
            },
            RoffNodeInner::RegisteredSign => NodeModel::RegisteredSign,
            RoffNodeInner::LeftQuote => NodeModel::LeftQuote,
            RoffNodeInner::RightQuote => NodeModel::RightQuote,
            RoffNodeInner::TrademarkSign => NodeModel::TrademarkSign,
            RoffNodeInner::Nested(nodes) => NodeModel::Nested(outer_models(nodes@)),
            RoffNodeInner::Break => NodeModel::Break,
            RoffNodeInner::EmDash => NodeModel::EmDash,
            RoffNodeInner::EnDash => NodeModel::EnDash,
            RoffNodeInner::NonBreakingSpace => NodeModel::NonBreakingSpace,
            RoffNodeInner::Comment(comment) => NodeModel::Comment(comment@),
        }
    }
}

impl RoffNode {
    /// What the node stands for.
    pub closed spec fn model(self) -> NodeModel
        decreases self,
    {
        self.0.model()
    }
}

impl View for RoffNodeInner {
    type V = NodeModel;

    open spec fn view(&self) -> NodeModel {
        self.model()
    }
}

impl View for RoffNode {
    type V = NodeModel;

    open spec fn view(&self) -> NodeModel {
        self.model()
    }
}

/// A copy of a list of nodes.
pub(crate) fn clone_inner_nodes(nodes: &Vec<RoffNodeInner>) -> (copy: Vec<RoffNodeInner>)
    ensures
        inner_models(copy@) == inner_models(nodes@),
    decreases nodes, 0nat,
{
    let mut copy: Vec<RoffNodeInner> = Vec::new();
    let mut i: usize = 0;
    while i < nodes.len()
        invariant
            0 <= i <= nodes.len(),
            copy@.len() == i,
            forall|j: int| 0 <= j < i ==> (#[trigger] copy@[j])@ == nodes@[j]@,
        decreases nodes.len() - i,
    {
        copy.push(nodes[i].duplicate());
        i += 1;
    }
    assert(inner_models(copy@) =~= inner_models(nodes@));
    copy
}

/// A copy of the nodes of a nested block.
fn clone_nodes(nodes: &Vec<RoffNode>) -> (copy: Vec<RoffNode>)
    ensures
        outer_models(copy@) == outer_models(nodes@),
    decreases nodes, 0nat,
{
    let mut copy: Vec<RoffNode> = Vec::new();
    let mut i: usize = 0;
    while i < nodes.len()
        invariant
            0 <= i <= nodes.len(),
            copy@.len() == i,
            forall|j: int| 0 <= j < i ==> (#[trigger] copy@[j])@ == nodes@[j]@,
        decreases nodes.len() - i,
    {
        copy.push(RoffNode(nodes[i].0.duplicate()));
        i += 1;
    }
    assert(outer_models(copy@) =~= outer_models(nodes@));
    copy
}

impl RoffNodeInner {
    /// A copy of the node and of everything inside it.
    fn duplicate(&self) -> (copy: Self)
        ensures
            copy@ == self@,
        decreases self, 0nat,
    {
        match self {
            RoffNodeInner::Text(text) => RoffNodeInner::Text(text.clone()),
            RoffNodeInner::Paragraph(content) => RoffNodeInner::Paragraph(
                clone_inner_nodes(content),
            ),
            RoffNodeInner::IndentedParagraph { content, indentation, title } => {
                RoffNodeInner::IndentedParagraph {
                    content: clone_inner_nodes(content),
                    indentation: *indentation,
                    title: clone_optional_text(title),
                }
            },
            RoffNodeInner::TaggedParagraph { content, title } => RoffNodeInner::TaggedParagraph {
                content: clone_inner_nodes(content),
                title: title.clone(),
            },
            RoffNodeInner::Example(lines) => RoffNodeInner::Example(clone_texts(lines)),
            RoffNodeInner::Synopsis { command, text, opts } => RoffNodeInner::Synopsis {
                command: command.clone(),
                text: clone_texts(text),
                opts: clone_options(opts),
            },
            RoffNodeInner::Url { name, address } => RoffNodeInner::Url {
                name: name.clone(),
                address: address.clone(),
            },
            RoffNodeInner::Email { name, address } => RoffNodeInner::Email {
                name: name.clone(),
                address: address.clone(),
            },
            RoffNodeInner::RegisteredSign => RoffNodeInner::RegisteredSign,
            RoffNodeInner::LeftQuote => RoffNodeInner::LeftQuote,
            RoffNodeInner::RightQuote => RoffNodeInner::RightQuote,
            RoffNodeInner::TrademarkSign => RoffNodeInner::TrademarkSign,
            RoffNodeInner::Nested(nodes) => RoffNodeInner::Nested(clone_nodes(nodes)),
            RoffNodeInner::Break => RoffNodeInner::Break,
            RoffNodeInner::EmDash => RoffNodeInner::EmDash,
            RoffNodeInner::EnDash => RoffNodeInner::EnDash,
            RoffNodeInner::NonBreakingSpace => RoffNodeInner::NonBreakingSpace,
            RoffNodeInner::Comment(comment) => RoffNodeInner::Comment(comment.clone()),
        }
    }
}

impl Clone for RoffNodeInner {
    fn clone(&self) -> (copy: Self)
        ensures
            copy@ == self@,
    {
        self.duplicate()
    }
}

impl Clone for RoffNode {
    fn clone(&self) -> (copy: Self)
        ensures
            copy@ == self@,
    {
        RoffNode(self.0.duplicate())
    }
}

/// Ends the line of running text, where the output is inside one.
fn end_line(writer: &mut String, was_text: bool)
    ensures
        final(writer)@ == old(writer)@ + line_end(was_text),
{
    if was_text {
        writer.append("\n");
    }
}

/// Appends the texts of a list to `writer`, one behind the other.
fn render_texts(texts: &Vec<RoffText>, writer: &mut String)
    ensures
        final(writer)@ == old(writer)@ + styled_all(text_models(texts@)),
{
    let ghost models = text_models(texts@);
    let ghost start = writer@;
    let mut i: usize = 0;
    while i < texts.len()
        invariant
            0 <= i <= texts.len(),
            models == text_models(texts@),
            writer@ == start + styled_all(models.take(i as int)),
        decreases texts.len() - i,
    {
        texts[i].render(writer);
        assert(models.take(i + 1).drop_last() =~= models.take(i as int));
        i += 1;
    }
    assert(models.take(i as int) =~= models);
}

/// Appends one option of a synopsis to `writer`.
fn render_synopsis_option(opt: &SynopsisOpt, writer: &mut String)
    ensures
        final(writer)@ == old(writer)@ + render_option(opt@),
{
    writer.append("\n.OP ");
    write_quoted_if_whitespace(opt.name(), writer);
    if let Some(argument) = opt.argument_ref() {
        writer.append(" ");
        write_quoted_if_whitespace(argument, writer);
    }
    writer.append("\n");
    if let Some(description) = opt.description_ref() {
        render_texts(description, writer);
    }
    writer.append("\n");
}

/// Appends the options of a synopsis to `writer`, one behind the other.
fn render_synopsis_options(opts: &Vec<SynopsisOpt>, writer: &mut String)
    ensures
        final(writer)@ == old(writer)@ + render_options(option_models(opts@)),
{
    let ghost models = option_models(opts@);
    let ghost start = writer@;
    let mut i: usize = 0;
    while i < opts.len()
        invariant
            0 <= i <= opts.len(),
            models == option_models(opts@),
            writer@ == start + render_options(models.take(i as int)),
        decreases opts.len() - i,
    {
        render_synopsis_option(&opts[i], writer);
        assert(models.take(i + 1).drop_last() =~= models.take(i as int));
        i += 1;
    }
    assert(models.take(i as int) =~= models);
}

/// Appends a link to `writer`: `open` and `close` are its two requests.
fn render_address(open: &str, close: &str, name: &RoffText, address: &RoffText, writer: &mut String)
    ensures
        final(writer)@ == old(writer)@ + render_link(open@, close@, name@, address@),
{
    writer.append(open);
    writer.append(" ");
    address.render(writer);
    writer.append("\n");
    name.render(writer);
    if !name.content().is_empty() {
        writer.append("\n");
    }
    writer.append(close);
    writer.append("\n");
}

/// The text of a comment on one line.
fn comment_line(comment: &str) -> (line: String)
    ensures
        line@ == one_line(comment@),
{
    let mut line = String::new();
    for ch in it: comment.chars()
        invariant
            it.seq() == comment@,
            line@ == one_line(comment@.take(it.index())),
    {
        if ch == '\n' {
            push_char(&mut line, ' ');
        } else {
            push_char(&mut line, ch);
        }
        assert(one_line(comment@.take(it.index() + 1)) =~= one_line(
            comment@.take(it.index()),
        ).push(
            if ch == '\n' {
                ' '
            } else {
                ch
            },
        ));
    }
    assert(comment@.take(comment@.len() as int) =~= comment@);
    line
}

/// Renders sibling nodes in order, each in the state that the one before it left.
pub(crate) fn render_children(nodes: &Vec<RoffNodeInner>, writer: &mut String, was_text: bool) -> (after: bool)
    ensures
        final(writer)@ == old(writer)@ + render_nodes(inner_models(nodes@), was_text).text,
        after == render_nodes(inner_models(nodes@), was_text).was_text,
    decreases nodes, 0nat,
{
    let ghost models = inner_models(nodes@);
    let ghost start = writer@;
    let mut state = was_text;
    let mut i: usize = 0;
    while i < nodes.len()
        invariant
            0 <= i <= nodes.len(),
            models == inner_models(nodes@),
            writer@ == start + render_nodes(models.take(i as int), was_text).text,
            state == render_nodes(models.take(i as int), was_text).was_text,
        decreases nodes.len() - i,
    {
        state = nodes[i].render(writer, state);
        assert(models.take(i + 1).drop_last() =~= models.take(i as int));
        i += 1;
    }
    assert(models.take(i as int) =~= models);
    state
}

/// Renders the nodes of a nested block in order.
fn render_nested_children(nodes: &Vec<RoffNode>, writer: &mut String, was_text: bool) -> (after:
    bool)
    ensures
        final(writer)@ == old(writer)@ + render_nodes(outer_models(nodes@), was_text).text,
        after == render_nodes(outer_models(nodes@), was_text).was_text,
    decreases nodes, 0nat,
{
    let ghost models = outer_models(nodes@);
    let ghost start = writer@;
    let mut state = was_text;
    let mut i: usize = 0;
    while i < nodes.len()
        invariant
            0 <= i <= nodes.len(),
            models == outer_models(nodes@),
            writer@ == start + render_nodes(models.take(i as int), was_text).text,
            state == render_nodes(models.take(i as int), was_text).was_text,
        decreases nodes.len() - i,
    {
        state = nodes[i].0.render(writer, state);
        assert(models.take(i + 1).drop_last() =~= models.take(i as int));
        i += 1;
    }
    assert(models.take(i as int) =~= models);
    state
}

fn render_paragraph(content: &Vec<RoffNodeInner>, writer: &mut String, was_text: bool) -> (after:
    bool)
    ensures
        final(writer)@ == old(writer)@ + render_node(
            NodeModel::Paragraph(inner_models(content@)),
            was_text,
        ).text,
        after == render_node(NodeModel::Paragraph(inner_models(content@)), was_text).was_text,
    decreases content, 1nat,
{
    end_line(writer, was_text);
    writer.append(".P\n");
    render_children(content, writer, was_text)
}

/// Appends the arguments of an indented paragraph to `writer`.
fn write_indentation(indentation: &Option<u8>, title: &Option<RoffText>, writer: &mut String)
    ensures
        final(writer)@ == old(writer)@ + indentation_clause(
            *indentation,
            optional_text_model(*title),
        ),
{
    if let Some(width) = indentation {
        writer.append(" ");
        if let Some(title) = title {
            write_quoted_if_whitespace(title, writer);
        } else {
            writer.append("\"\"");
        }
        writer.append(" ");
        proof {
            lemma_escaped_decimal(*width as nat);
        }
        width.roff().render(writer);
    }
}

fn render_indented_paragraph(
    content: &Vec<RoffNodeInner>,
    indentation: &Option<u8>,
    title: &Option<RoffText>,
    writer: &mut String,
    was_text: bool,
) -> (after: bool)
    ensures
        final(writer)@ == old(writer)@ + render_node(
            NodeModel::IndentedParagraph {
                content: inner_models(content@),
                indentation: *indentation,
                title: optional_text_model(*title),
            },
            was_text,
        ).text,
        !after,
    decreases content, 1nat,
{
    end_line(writer, was_text);
    writer.append(".IP");
    write_indentation(indentation, title, writer);
    writer.append("\n");
    render_children(content, writer, was_text);
    writer.append("\n");
    false
}

fn render_tagged_paragraph(
    content: &Vec<RoffNodeInner>,
    title: &RoffText,
    writer: &mut String,
    was_text: bool,
) -> (after: bool)
    ensures
        final(writer)@ == old(writer)@ + render_node(
            NodeModel::TaggedParagraph { content: inner_models(content@), title: title@ },
            was_text,
        ).text,
        !after,
    decreases content, 1nat,
{
    end_line(writer, was_text);
    writer.append(".TP\n");
    title.render(writer);
    writer.append("\n");
    render_children(content, writer, was_text);
    writer.append("\n");
    false
}

fn render_example(lines: &Vec<RoffText>, writer: &mut String, was_text: bool)
    ensures
        final(writer)@ == old(writer)@ + render_node(
            NodeModel::Example(text_models(lines@)),
            was_text,
        ).text,
{
    end_line(writer, was_text);
    writer.append(".EX\n");
    render_texts(lines, writer);
    writer.append("\n.EE\n");
}

fn render_synopsis(
    command: &RoffText,
    text: &Vec<RoffText>,
    opts: &Vec<SynopsisOpt>,
    writer: &mut String,
    was_text: bool,
)
    ensures
        final(writer)@ == old(writer)@ + render_node(
            NodeModel::Synopsis {
                command: command@,
                text: text_models(text@),
                opts: option_models(opts@),
            },
            was_text,
        ).text,
{
    end_line(writer, was_text);
    writer.append(".SY ");
    write_quoted_if_whitespace(command, writer);
    writer.append("\n");
    render_texts(text, writer);
    end_line(writer, !text.is_empty());
    render_synopsis_options(opts, writer);
    writer.append(".YS\n");
}

fn render_nested(nodes: &Vec<RoffNode>, writer: &mut String, was_text: bool)
    ensures
        final(writer)@ == old(writer)@ + render_node(
            NodeModel::Nested(outer_models(nodes@)),
            was_text,
        ).text,
    decreases nodes, 1nat,
{
    end_line(writer, was_text);
    writer.append(".RS\n");
    let inner = render_nested_children(nodes, writer, false);
    end_line(writer, inner);
    writer.append(".RE\n");
}

fn render_comment(comment: &String, writer: &mut String, was_text: bool)
    ensures
        final(writer)@ == old(writer)@ + render_node(NodeModel::Comment(comment@), was_text).text,
{
    end_line(writer, was_text);
    writer.append(".\\\" ");
    let line = comment_line(comment.as_str());
    writer.append(line.as_str());
    writer.append("\n");
}

impl RoffNodeInner {
    /// Appends the node to `writer`. `was_text` tells whether the output so
    /// far ends inside a line of running text; the result tells the same of
    /// the output after the node.
    pub fn render(&self, writer: &mut String, was_text: bool) -> (after: bool)
        ensures
            final(writer)@ == old(writer)@ + render_node(self@, was_text).text,
            after == render_node(self@, was_text).was_text,
        decreases self, 0nat,
    {
        match self {
            RoffNodeInner::Text(text) => {
                text.render(writer);
                true
            },
            RoffNodeInner::Paragraph(content) => render_paragraph(content, writer, was_text),
            RoffNodeInner::IndentedParagraph { content, indentation, title } => {
                render_indented_paragraph(content, indentation, title, writer, was_text)
            },
            RoffNodeInner::TaggedParagraph { content, title } => {
                render_tagged_paragraph(content, title, writer, was_text)
            },
            RoffNodeInner::Example(lines) => {
                render_example(lines, writer, was_text);
                false
            },
            RoffNodeInner::Synopsis { command, text, opts } => {
                render_synopsis(command, text, opts, writer, was_text);
                false
            },
            RoffNodeInner::Url { name, address } => {
                end_line(writer, was_text);
                render_address(".UR", ".UE", name, address, writer);
                false
            },
            RoffNodeInner::Email { name, address } => {
                end_line(writer, was_text);
                render_address(".MT", ".ME", name, address, writer);
                false
            },
            RoffNodeInner::Nested(nodes) => {
                render_nested(nodes, writer, was_text);
                false
            },
            RoffNodeInner::Break => {
                writer.append("\n.br\n");
                was_text
            },
            RoffNodeInner::RegisteredSign => {
                writer.append("\\*R");
                true
            },
            RoffNodeInner::LeftQuote => {
                writer.append("\\*(lq");
                true
            },
            RoffNodeInner::RightQuote => {
                writer.append("\\*(rq");
                true
            },
            RoffNodeInner::TrademarkSign => {
                writer.append("\\*(Tm");
                true
            },
            RoffNodeInner::EmDash => {
                writer.append("\\(em");
                true
            },
            RoffNodeInner::EnDash => {
                writer.append("\\(en");
                true
            },
            RoffNodeInner::NonBreakingSpace => {
                writer.append("\\~");
                true
            },
            RoffNodeInner::Comment(comment) => {
                render_comment(comment, writer, was_text);
                false
            },
        }
    }
}

impl RoffNode {
    /// The kind of node that this is.
    pub fn into_inner(self) -> (inner: RoffNodeInner)
        ensures
            inner@ == self@,
    {
        self.0
    }

    /// The kind of node that this is.
    pub fn inner_ref(&self) -> (inner: &RoffNodeInner)
        ensures
            inner@ == self@,
    {
        &self.0
    }
}

impl IntoRoffNode for RoffNodeInner {
    open spec fn node_model(self) -> NodeModel {
        self@
    }

    fn into_roff(self) -> (node: RoffNode) {
        RoffNode(self)
    }
}

/// The model of a title that may be missing.
pub open spec fn title_model<T: Roffable>(title: Option<T>) -> Option<TextModel> {
    match title {
        Some(title) => Some(title.roff_model()),
        None => None,
    }
}

impl RoffNode {
    /// Creates a simple text node.
    pub fn text(content: impl Roffable) -> (node: Self)
        ensures
            node@ == NodeModel::Text(content.roff_model()),
    {
        Self(RoffNodeInner::Text(content.roff()))
    }

    /// Creates a new paragraph node.
    pub fn paragraph<R: IntoRoffNode>(content: Vec<R>) -> (node: Self)
        ensures
            node@ == NodeModel::Paragraph(node_models(content@)),
    {
        Self(RoffNodeInner::Paragraph(into_inner_nodes(content)))
    }

    /// Creates a new indented paragraph node.
    pub fn indented_paragraph<R: IntoRoffNode, T: Roffable>(
        content: Vec<R>,
        indentation: Option<u8>,
        title: Option<T>,
    ) -> (node: Self)
        ensures
            node@ == (NodeModel::IndentedParagraph {
                content: node_models(content@),
                indentation,
                title: title_model(title),
            }),
    {
        let title = match title {
            Some(title) => Some(title.roff()),
            None => None,
        };
        Self(
            RoffNodeInner::IndentedParagraph {
                content: into_inner_nodes(content),
                indentation,
                title,
            },
        )
    }

    /// Creates a new paragraph node with a title.
    pub fn tagged_paragraph<R: IntoRoffNode>(content: Vec<R>, title: impl Roffable) -> (node: Self)
        ensures
            node@ == (NodeModel::TaggedParagraph {
                content: node_models(content@),
                title: title.roff_model(),
            }),
    {
        Self(
            RoffNodeInner::TaggedParagraph {
                content: into_inner_nodes(content),
                title: title.roff(),
            },
        )
    }

    /// Creates a new example node. An example block usually has the font set to monospaced.
    pub fn example<R: Roffable>(content: Vec<R>) -> (node: Self)
        ensures
            node@ == NodeModel::Example(roff_models(content@)),
    {
        Self(RoffNodeInner::Example(into_texts(content)))
    }

    /// Creates a new synopsis node explaining the given `command` with `description` and `opts`.
    pub fn synopsis<R: Roffable>(
        command: impl Roffable,
        description: Vec<R>,
        opts: Vec<SynopsisOpt>,
    ) -> (node: Self)
        ensures
            node@ == (NodeModel::Synopsis {
                command: command.roff_model(),
                text: roff_models(description@),
                opts: option_models(opts@),
            }),
    {
        Self(
            RoffNodeInner::Synopsis {
                command: command.roff(),
                text: into_texts(description),
                opts,
            },
        )
    }

    /// Creates a new URL node, where `name` is the visible part of the URL and
    /// `address` is where it points to.
    pub fn url(name: impl Roffable, address: impl Roffable) -> (node: Self)
        ensures
            node@ == (NodeModel::Url { name: name.roff_model(), address: address.roff_model() }),
    {
        Self(RoffNodeInner::Url { name: name.roff(), address: address.roff() })
    }

    /// Creates a new email node, where `address` is the email address and
    /// `name` is the visible text.
    pub fn email(name: impl Roffable, address: impl Roffable) -> (node: Self)
        ensures
            node@ == (NodeModel::Email { name: name.roff_model(), address: address.roff_model() }),
    {
        Self(RoffNodeInner::Email { name: name.roff(), address: address.roff() })
    }

    /// Returns a node that will be rendered as a registered sign.
    pub fn registered_sign() -> (node: Self)
        ensures
            node@ == NodeModel::RegisteredSign,
    {
        Self(RoffNodeInner::RegisteredSign)
    }

    /// Returns a node that will be rendered as a left quote.
    pub fn left_quote() -> (node: Self)
        ensures
            node@ == NodeModel::LeftQuote,
    {
        Self(RoffNodeInner::LeftQuote)
    }

    /// Returns a node that will be rendered as a right quote.
    pub fn right_quote() -> (node: Self)
        ensures
            node@ == NodeModel::RightQuote,
    {
        Self(RoffNodeInner::RightQuote)
    }

    /// Returns a node that will be rendered as a trademark sign.
    pub fn trademark_sign() -> (node: Self)
        ensures
            node@ == NodeModel::TrademarkSign,
    {
        Self(RoffNodeInner::TrademarkSign)
    }

    /// Nests nodes by indenting all of the nodes inside.
    pub fn nested<R: IntoRoffNode>(nodes: Vec<R>) -> (node: Self)
        ensures
            node@ == NodeModel::Nested(node_models(nodes@)),
    {
        Self(RoffNodeInner::Nested(into_nodes(nodes)))
    }

    /// Breaks the line in text. Use this instead of raw line feeds in text.
    pub fn linebreak() -> (node: Self)
        ensures
            node@ == NodeModel::Break,
    {
        Self(RoffNodeInner::Break)
    }

    /// A long dash, used for an interruption in a sentence.
    pub fn em_dash() -> (node: Self)
        ensures
            node@ == NodeModel::EmDash,
    {
        Self(RoffNodeInner::EmDash)
    }

    /// A dash that separates the ends of a range.
    pub fn en_dash() -> (node: Self)
        ensures
            node@ == NodeModel::EnDash,
    {
        Self(RoffNodeInner::EnDash)
    }

    /// Adjustable non-breaking space. Use this to prevent a break inside a
    /// short phrase or between a number and its unit.
    pub fn non_breaking_space() -> (node: Self)
        ensures
            node@ == NodeModel::NonBreakingSpace,
    {
        Self(RoffNodeInner::NonBreakingSpace)
    }

    /// Adds a comment to the generated ROFF. Line feeds in the comment are
    /// rendered as spaces.
    pub fn comment(comment: &str) -> (node: Self)
        ensures
            node@ == NodeModel::Comment(comment@),
    {
        Self(RoffNodeInner::Comment(comment.to_owned()))
    }
}

} // verus!
