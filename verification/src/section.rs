//! Sections of a document.

use crate::node::{inner_models, line_end, render_nodes, NodeModel, Rendered, RoffNodeInner};
use crate::roffable::{into_inner_nodes, node_models, IntoRoffNode, Roffable};
use crate::text::{
    clone_optional_text, optional_text_model, quoted_if_whitespace, write_quoted_if_whitespace, RoffText, TextModel,
};
use vstd::prelude::*;

verus! {

/// What a [`Section`] stands for.
pub struct SectionModel {
    pub title: TextModel,
    pub subtitle: Option<TextModel>,
    pub nodes: Seq<NodeModel>,
}

/// The heading of a section: the request with the title, and the request with
/// the subtitle where there is one.
pub open spec fn section_heading(section: SectionModel) -> Seq<char> {
    ".SH "@ + quoted_if_whitespace(section.title) + "\n"@ + (match section.subtitle {
        Some(subtitle) => ".SS "@ + quoted_if_whitespace(subtitle) + "\n"@,
        None => Seq::empty(),
    })
}

/// What rendering `section` gives when `was_text` tells whether the output so
/// far ends inside a line of running text. The nodes of the section start on a
/// fresh line.
pub open spec fn render_section(section: SectionModel, was_text: bool) -> Rendered {
    let inner = render_nodes(section.nodes, false);
    Rendered {
        text: line_end(was_text) + section_heading(section) + inner.text,
        was_text: inner.was_text,
    }
}

/// What rendering sections in order gives: each section is rendered in the
/// state that the section before it left.
pub open spec fn render_sections(sections: Seq<SectionModel>, was_text: bool) -> Rendered
    decreases sections.len(),
{
    if sections.len() == 0 {
        Rendered { text: Seq::empty(), was_text }
    } else {
        let before = render_sections(sections.drop_last(), was_text);
        let last = render_section(sections.last(), before.was_text);
        Rendered { text: before.text + last.text, was_text: last.was_text }
    }
}

/// A single section of the ROFF document.
#[derive(Debug)]
pub struct Section {
    title: RoffText,
    subtitle: Option<RoffText>,
    nodes: Vec<RoffNodeInner>,
}

impl View for Section {
    type V = SectionModel;

    closed spec fn view(&self) -> SectionModel {
        SectionModel {
            title: self.title@,
            subtitle: optional_text_model(self.subtitle),
            nodes: inner_models(self.nodes@),
        }
    }
}

impl Clone for Section {
    fn clone(&self) -> (copy: Self)
        ensures
            copy@ == self@,
    {
        Self {
            title: self.title.clone(),
            subtitle: clone_optional_text(&self.subtitle),
            nodes: crate::node::clone_inner_nodes(&self.nodes),
        }
    }
}

/// The models of the sections of a list, in order.
pub open spec fn section_models(sections: Seq<Section>) -> Seq<SectionModel> {
    Seq::new(sections.len(), |i: int| sections[i]@)
}

impl Section {
    /// Creates a new section with `title` and `content`.
    pub fn new<R: IntoRoffNode>(title: impl Roffable, content: Vec<R>) -> (section: Self)
        ensures
            section@ == (SectionModel {
                title: title.roff_model(),
                subtitle: None,
                nodes: node_models(content@),
            }),
    {
        Self { title: title.roff(), subtitle: None, nodes: into_inner_nodes(content) }
    }

    /// Sets the sub heading of this section.
    pub fn subtitle(self, subtitle: impl Roffable) -> (section: Self)
        ensures
            section@ == (SectionModel { subtitle: Some(subtitle.roff_model()), ..self@ }),
    {
        Self { title: self.title, subtitle: Some(subtitle.roff()), nodes: self.nodes }
    }

    /// Appends the heading of the section to `writer`.
    fn write_heading(&self, writer: &mut String)
        ensures
            final(writer)@ == old(writer)@ + section_heading(self@),
    {
        writer.append(".SH ");
        write_quoted_if_whitespace(&self.title, writer);
        writer.append("\n");
        if let Some(subtitle) = &self.subtitle {
            writer.append(".SS ");
            write_quoted_if_whitespace(subtitle, writer);
            writer.append("\n");
        }
    }

    /// Appends the section to `writer`. `was_text` tells whether the output so
    /// far ends inside a line of running text; the result tells the same of
    /// the output after the section.
    pub fn render(&self, writer: &mut String, was_text: bool) -> (after: bool)
        ensures
            final(writer)@ == old(writer)@ + render_section(self@, was_text).text,
            after == render_section(self@, was_text).was_text,
    {
        if was_text {
            writer.append("\n");
        }
        self.write_heading(writer);
        crate::node::render_children(&self.nodes, writer, false)
    }
}

} // verus!
