//! The document: its title header and its sections.

use crate::error::RoffError;
use crate::roffable::{node_models, IntoRoffNode, Roffable};
use crate::section::{render_sections, section_models, Section, SectionModel};
use crate::text::{
    clone_optional_text, optional_text_model, decimal, lemma_decimal_argument, quoted_if_whitespace,
    write_quoted_if_whitespace, RoffText, TextModel,
};
use vstd::prelude::*;

verus! {

/// Defines the section to which the given ROFF belongs.
#[derive(Copy, Clone, Debug, PartialEq, Eq, Structural)]
pub enum SectionNumber {
    /// Commands that can be executed by the user from within a shell.
    UserCommands,
    /// Functions which wrap operations performed by the kernel.
    SystemCalls,
    /// All library functions excluding the system call wrappers.
    LibraryCalls,
    /// Files found in `/dev` which allow to access to devices through the kernel.
    Devices,
    /// Describes various human-readable file formats and configuration files.
    FileFormatsAndConfigurationFiles,
    /// Games and funny little programs available on the system.
    Games,
    /// Overviews or descriptions of various topics, conventions, and protocols.
    Miscellaneous,
    /// Commands like `mount(8)`, many of which only root can execute.
    SystemManagementCommands,
    /// A custom section number.
    Custom(u8),
}

impl SectionNumber {
    /// The number of the section.
    pub open spec fn number(self) -> u8 {
        match self {
            SectionNumber::UserCommands => 1,
            SectionNumber::SystemCalls => 2,
            SectionNumber::LibraryCalls => 3,
            SectionNumber::Devices => 4,
            SectionNumber::FileFormatsAndConfigurationFiles => 5,
            SectionNumber::Games => 6,
            SectionNumber::Miscellaneous => 7,
            SectionNumber::SystemManagementCommands => 8,
            SectionNumber::Custom(n) => n,
        }
    }
}

impl From<SectionNumber> for u8 {
    fn from(s: SectionNumber) -> (n: u8) {
        match s {
            SectionNumber::UserCommands => 1,
            SectionNumber::SystemCalls => 2,
            SectionNumber::LibraryCalls => 3,
            SectionNumber::Devices => 4,
            SectionNumber::FileFormatsAndConfigurationFiles => 5,
            SectionNumber::Games => 6,
            SectionNumber::Miscellaneous => 7,
            SectionNumber::SystemManagementCommands => 8,
            SectionNumber::Custom(n) => n,
        }
    }
}

impl vstd::std_specs::convert::FromSpecImpl<SectionNumber> for u8 {
    open spec fn obeys_from_spec() -> bool {
        true
    }

    open spec fn from_spec(s: SectionNumber) -> u8 {
        s.number()
    }
}

impl Roffable for SectionNumber {
    open spec fn roff_model(&self) -> TextModel {
        TextModel::plain(decimal(self.number() as nat))
    }

    fn roff(&self) -> (text: RoffText) {
        u8::from(*self).roff()
    }
}

/// What a [`Roff`] stands for.
pub struct RoffModel {
    pub title: TextModel,
    pub date: Option<TextModel>,
    pub section: SectionNumber,
    pub sections: Seq<SectionModel>,
}

/// The title header: the request with the title, the number of the section,
/// and the date where there is one.
pub open spec fn title_header(roff: RoffModel) -> Seq<char> {
    ".TH"@ + " "@ + quoted_if_whitespace(roff.title) + " "@ + decimal(roff.section.number() as nat)
        + (match roff.date {
        Some(date) => " "@ + quoted_if_whitespace(date),
        None => Seq::empty(),
    }) + "\n"@
}

/// The ROFF source of a document: the title header, then the sections in
/// order, the first of them on a fresh line.
pub open spec fn render_document(roff: RoffModel) -> Seq<char> {
    title_header(roff) + render_sections(roff.sections, false).text
}

/// Represents a ROFF document that can be rendered and displayed with tools
/// like `man`.
#[derive(Debug)]
pub struct Roff {
    title: RoffText,
    date: Option<RoffText>,
    section: SectionNumber,
    sections: Vec<Section>,
}

impl View for Roff {
    type V = RoffModel;

    closed spec fn view(&self) -> RoffModel {
        RoffModel {
            title: self.title@,
            date: optional_text_model(self.date),
            section: self.section,
            sections: section_models(self.sections@),
        }
    }
}

impl Clone for Roff {
    fn clone(&self) -> (copy: Self)
        ensures
            copy@ == self@,
    {
        let mut sections: Vec<Section> = Vec::new();
        let mut i: usize = 0;
        while i < self.sections.len()
            invariant
                0 <= i <= self.sections.len(),
                sections@.len() == i,
                forall|j: int| 0 <= j < i ==> (#[trigger] sections@[j])@ == self.sections@[j]@,
            decreases self.sections.len() - i,
        {
            sections.push(self.sections[i].clone());
            i += 1;
        }
        assert(section_models(sections@) =~= section_models(self.sections@));
        Self {
            title: self.title.clone(),
            date: clone_optional_text(&self.date),
            section: self.section,
            sections,
        }
    }
}

impl Roff {
    /// Creates a new `Roff` with a `title` and a `section`.
    pub fn new(title: impl Roffable, section: SectionNumber) -> (roff: Self)
        ensures
            roff@ == (RoffModel {
                title: title.roff_model(),
                date: None,
                section,
                sections: Seq::empty(),
            }),
    {
        let roff = Self { title: title.roff(), date: None, section, sections: Vec::new() };
        assert(section_models(roff.sections@) =~= Seq::empty());
        roff
    }

    /// Renders this roff to a `String`. Rendering into memory always succeeds.
    pub fn to_string(&self) -> (rendered: Result<String, RoffError>)
        ensures
            rendered matches Ok(text) && text@ == render_document(self@),
    {
        let mut writer = String::new();
        self.render(&mut writer);
        Ok(writer)
    }

    /// Builder method for adding a date to this roff.
    pub fn date(self, date: impl Roffable) -> (roff: Self)
        ensures
            roff@ == (RoffModel { date: Some(date.roff_model()), ..self@ }),
    {
        Self {
            title: self.title,
            date: Some(date.roff()),
            section: self.section,
            sections: self.sections,
        }
    }

    /// Adds an already defined section to this roff.
    pub fn add_section(self, section: Section) -> (roff: Self)
        ensures
            roff@ == (RoffModel { sections: self@.sections.push(section@), ..self@ }),
    {
        let mut sections = self.sections;
        sections.push(section);
        let roff = Self { title: self.title, date: self.date, section: self.section, sections };
        assert(roff@.sections =~= self@.sections.push(section@));
        roff
    }

    /// Builder method for adding a new section to this roff.
    pub fn section<R: IntoRoffNode>(self, title: impl Roffable, content: Vec<R>) -> (roff: Self)
        ensures
            roff@ == (RoffModel {
                sections: self@.sections.push(
                    SectionModel {
                        title: title.roff_model(),
                        subtitle: None,
                        nodes: node_models(content@),
                    },
                ),
                ..self@
            }),
    {
        self.add_section(Section::new(title, content))
    }

    fn write_title(&self, writer: &mut String)
        ensures
            final(writer)@ == old(writer)@ + " "@ + quoted_if_whitespace(self@.title),
    {
        writer.append(" ");
        write_quoted_if_whitespace(&self.title, writer)
    }

    fn write_section(&self, writer: &mut String)
        ensures
            final(writer)@ == old(writer)@ + " "@ + decimal(self@.section.number() as nat),
    {
        writer.append(" ");
        proof {
            lemma_decimal_argument(self.section.number() as nat);
        }
        write_quoted_if_whitespace(&self.section.roff(), writer)
    }

    fn write_date(&self, writer: &mut String)
        ensures
            final(writer)@ == old(writer)@ + (match self@.date {
                Some(date) => " "@ + quoted_if_whitespace(date),
                None => Seq::empty(),
            }),
    {
        if let Some(date) = &self.date {
            writer.append(" ");
            write_quoted_if_whitespace(date, writer);
        }
    }

    fn write_title_header(&self, writer: &mut String)
        ensures
            final(writer)@ == old(writer)@ + title_header(self@),
    {
        writer.append(".TH");
        self.write_title(writer);
        self.write_section(writer);
        self.write_date(writer);
        writer.append("\n");
    }

    /// Appends the ROFF source of this document to `writer`.
    pub fn render(&self, writer: &mut String)
        ensures
            final(writer)@ == old(writer)@ + render_document(self@),
    {
        self.write_title_header(writer);
        let ghost models = section_models(self.sections@);
        let ghost start = writer@;
        let mut was_text = false;
        let mut i: usize = 0;
        while i < self.sections.len()
            invariant
                0 <= i <= self.sections.len(),
                models == section_models(self.sections@),
                writer@ == start + render_sections(models.take(i as int), false).text,
                was_text == render_sections(models.take(i as int), false).was_text,
            decreases self.sections.len() - i,
        {
            was_text = self.sections[i].render(writer, was_text);
            assert(models.take(i + 1).drop_last() =~= models.take(i as int));
            i += 1;
        }
        assert(models.take(i as int) =~= models);
    }
}

} // verus!
