//! The errors of rendering.

use vstd::prelude::*;

verus! {

/// An error type returned by the functions used in this crate. Each kind holds
/// the message of what went wrong underneath.
#[derive(Debug)]
pub enum RoffError {
    /// Rendering to a string failed.
    StringRenderFailed(String),
    /// Rendering to a sink failed.
    RenderFailed(String),
}

impl RoffError {
    /// The message of the error, which names its kind and its cause.
    pub open spec fn message_text(self) -> Seq<char> {
        match self {
            RoffError::StringRenderFailed(cause) => "Failed to render ROFF to string - `"@ + cause@
                + "`"@,
            RoffError::RenderFailed(cause) => "Failed to render ROFF - `"@ + cause@ + "`"@,
        }
    }

    /// The message of the error, which names its kind and its cause.
    pub fn message(&self) -> (message: String)
        ensures
            message@ == self.message_text(),
    {
        let mut message = String::new();
        match self {
            RoffError::StringRenderFailed(cause) => {
                message.append("Failed to render ROFF to string - `");
                message.append(cause.as_str());
            },
            RoffError::RenderFailed(cause) => {
                message.append("Failed to render ROFF - `");
                message.append(cause.as_str());
            },
        }
        message.append("`");
        message
    }
}

} // verus!
