//! Build ROFF manual pages from a tree of nodes and render them to text.

pub mod error;
pub mod escape;
pub mod node;
pub mod roff;
pub mod roffable;
pub mod section;
pub mod synopsis;
pub mod text;

pub use error::RoffError;
pub use escape::escape;
pub use node::{RoffNode, RoffNodeInner};
pub use roff::{Roff, SectionNumber};
pub use roffable::{IntoRoffNode, Roffable};
pub use section::Section;
pub use synopsis::SynopsisOpt;
pub use text::{write_quoted, write_quoted_if_whitespace, FontStyle, RoffText};
