//! Options of a synopsis block.

use crate::roffable::{roff_models, Roffable};
use crate::text::{
    clone_optional_text, clone_texts, optional_text_model, text_models, RoffText, TextModel,
};
use vstd::prelude::*;

verus! {

/// What a [`SynopsisOpt`] stands for.
pub struct SynopsisOptModel {
    pub name: TextModel,
    pub argument: Option<TextModel>,
    pub description: Option<Seq<TextModel>>,
}

/// An option used by the synopsis block of [`crate::RoffNode::synopsis`].
#[derive(Debug)]
pub struct SynopsisOpt {
    name: RoffText,
    argument: Option<RoffText>,
    description: Option<Vec<RoffText>>,
}

impl View for SynopsisOpt {
    type V = SynopsisOptModel;

    closed spec fn view(&self) -> SynopsisOptModel {
        SynopsisOptModel {
            name: self.name@,
            argument: optional_text_model(self.argument),
            description: match self.description {
                Some(description) => Some(text_models(description@)),
                None => None,
            },
        }
    }
}

impl SynopsisOpt {
    /// Creates a new option used in a synopsis block.
    pub fn new<R: Roffable>(name: R) -> (opt: Self)
        ensures
            opt@ == (SynopsisOptModel {
                name: name.roff_model(),
                argument: None,
                description: None,
            }),
    {
        Self { name: name.roff(), argument: None, description: None }
    }

    /// Sets the name of the argument that this option takes.
    pub fn argument<R: Roffable>(self, argument: R) -> (opt: Self)
        ensures
            opt@ == (SynopsisOptModel { argument: Some(argument.roff_model()), ..self@ }),
    {
        Self { name: self.name, argument: Some(argument.roff()), description: self.description }
    }

    /// Sets the description of this option.
    pub fn description<R: Roffable>(self, description: Vec<R>) -> (opt: Self)
        ensures
            opt@ == (SynopsisOptModel { description: Some(roff_models(description@)), ..self@ }),
    {
        let texts = crate::roffable::into_texts(description);
        Self { name: self.name, argument: self.argument, description: Some(texts) }
    }

    /// The name of the option.
    pub fn name(&self) -> (name: &RoffText)
        ensures
            name@ == self@.name,
    {
        &self.name
    }

    /// The name of the argument that the option takes, if it takes one.
    pub fn argument_ref(&self) -> (argument: Option<&RoffText>)
        ensures
            argument is Some == self@.argument is Some,
            argument matches Some(a) ==> a@ == self@.argument->0,
    {
        self.argument.as_ref()
    }

    /// The description of the option, if it has one.
    pub fn description_ref(&self) -> (description: Option<&Vec<RoffText>>)
        ensures
            description is Some == self@.description is Some,
            description matches Some(d) ==> text_models(d@) == self@.description->0,
    {
        self.description.as_ref()
    }
}

impl Clone for SynopsisOpt {
    fn clone(&self) -> (copy: Self)
        ensures
            copy@ == self@,
    {
        let description = match &self.description {
            Some(description) => Some(clone_texts(description)),
            None => None,
        };
        Self { name: self.name.clone(), argument: clone_optional_text(&self.argument), description }
    }
}

/// A copy of a list of options.
pub(crate) fn clone_options(opts: &Vec<SynopsisOpt>) -> (copy: Vec<SynopsisOpt>)
    ensures
        option_models(copy@) == option_models(opts@),
{
    let mut copy: Vec<SynopsisOpt> = Vec::new();
    let mut i: usize = 0;
    while i < opts.len()
        invariant
            0 <= i <= opts.len(),
            copy@.len() == i,
            forall|j: int| 0 <= j < i ==> (#[trigger] copy@[j])@ == opts@[j]@,
        decreases opts.len() - i,
    {
        copy.push(opts[i].clone());
        i += 1;
    }
    assert(option_models(copy@) =~= option_models(opts@));
    copy
}

/// The models of the options of a list, in order.
pub open spec fn option_models(opts: Seq<SynopsisOpt>) -> Seq<SynopsisOptModel> {
    Seq::new(opts.len(), |i: int| opts[i]@)
}

} // verus!
