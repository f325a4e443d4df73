//! Conversion of text-like values into styled text and into nodes.

use crate::node::{inner_models, outer_models, NodeModel, RoffNode, RoffNodeInner};
use crate::text::{decimal, decimal_text, text_models, RoffText, TextModel};
use std::borrow::Cow;
use vstd::prelude::*;

verus! {

/// Convenience trait to convert items to [`RoffText`].
pub trait Roffable {
    /// What the text returned by [`Roffable::roff`] stands for.
    spec fn roff_model(&self) -> TextModel;

    /// Returns this item as [`RoffText`].
    fn roff(&self) -> (text: RoffText)
        ensures
            text@ == self.roff_model(),
    ;
}

impl Roffable for String {
    open spec fn roff_model(&self) -> TextModel {
        TextModel::plain(self@)
    }

    fn roff(&self) -> (text: RoffText) {
        RoffText::new(self.as_str(), None)
    }
}

impl Roffable for &String {
    open spec fn roff_model(&self) -> TextModel {
        TextModel::plain(self@)
    }

    fn roff(&self) -> (text: RoffText) {
        RoffText::new(self.as_str(), None)
    }
}

impl Roffable for &str {
    open spec fn roff_model(&self) -> TextModel {
        TextModel::plain(self@)
    }

    fn roff(&self) -> (text: RoffText) {
        RoffText::new(self, None)
    }
}

impl Roffable for &&str {
    open spec fn roff_model(&self) -> TextModel {
        TextModel::plain(self@)
    }

    fn roff(&self) -> (text: RoffText) {
        RoffText::new(**self, None)
    }
}

impl Roffable for Cow<'_, str> {
    open spec fn roff_model(&self) -> TextModel {
        TextModel::plain(self@)
    }

    fn roff(&self) -> (text: RoffText) {
        match self {
            Cow::Borrowed(borrowed) => RoffText::new(borrowed, None),
            Cow::Owned(owned) => RoffText::new(owned.as_str(), None),
        }
    }
}

impl Roffable for u8 {
    open spec fn roff_model(&self) -> TextModel {
        TextModel::plain(decimal(*self as nat))
    }

    fn roff(&self) -> (text: RoffText) {
        let digits = decimal_text(*self);
        RoffText::new(digits.as_str(), None)
    }
}

impl Roffable for RoffText {
    open spec fn roff_model(&self) -> TextModel {
        self@
    }

    fn roff(&self) -> (text: RoffText) {
        self.clone()
    }
}

/// The texts that the items of a list are converted to, in order.
pub open spec fn roff_models<R: Roffable>(items: Seq<R>) -> Seq<TextModel> {
    Seq::new(items.len(), |i: int| items[i].roff_model())
}

/// Converts every item of a list to text.
pub fn into_texts<R: Roffable>(items: Vec<R>) -> (texts: Vec<RoffText>)
    ensures
        text_models(texts@) == roff_models(items@),
{
    let mut texts: Vec<RoffText> = Vec::new();
    let mut i: usize = 0;
    while i < items.len()
        invariant
            0 <= i <= items.len(),
            texts@.len() == i,
            forall|j: int| 0 <= j < i ==> (#[trigger] texts@[j])@ == items@[j].roff_model(),
        decreases items.len() - i,
    {
        texts.push(items[i].roff());
        i += 1;
    }
    assert(text_models(texts@) =~= roff_models(items@));
    texts
}

} // verus!

verus! {

/// A trait that describes items that can be turned into a [`RoffNode`].
pub trait IntoRoffNode {
    /// What the node returned by [`IntoRoffNode::into_roff`] stands for.
    spec fn node_model(self) -> NodeModel;

    /// Convert this item into a `RoffNode`.
    fn into_roff(self) -> (node: RoffNode)
        ensures
            node@ == self.node_model(),
    ;
}

impl IntoRoffNode for RoffNode {
    open spec fn node_model(self) -> NodeModel {
        self@
    }

    fn into_roff(self) -> (node: RoffNode) {
        self
    }
}

/// The nodes that the items of a list are converted to, in order.
pub open spec fn node_models<R: IntoRoffNode>(items: Seq<R>) -> Seq<NodeModel> {
    Seq::new(items.len(), |i: int| items[i].node_model())
}

impl<R: Roffable> IntoRoffNode for R {
    open spec fn node_model(self) -> NodeModel {
        NodeModel::Text(self.roff_model())
    }

    fn into_roff(self) -> (node: RoffNode) {
        RoffNode::text(self.roff())
    }
}

/// Converts every item of a list to a node.
pub fn into_nodes<R: IntoRoffNode>(items: Vec<R>) -> (nodes: Vec<RoffNode>)
    ensures
        outer_models(nodes@) == node_models(items@),
{
    let mut nodes: Vec<RoffNode> = Vec::new();
    let ghost given = items@;
    for item in it: items
        invariant
            it.seq() == given,
            nodes@.len() == it.index(),
            forall|j: int| 0 <= j < nodes@.len() ==> (#[trigger] nodes@[j])@ == given[j].node_model(),
    {
        nodes.push(item.into_roff());
    }
    assert(outer_models(nodes@) =~= node_models(given));
    nodes
}

/// Converts every item of a list to the kind of node that it is.
pub fn into_inner_nodes<R: IntoRoffNode>(items: Vec<R>) -> (nodes: Vec<RoffNodeInner>)
    ensures
        inner_models(nodes@) == node_models(items@),
{
    let mut nodes: Vec<RoffNodeInner> = Vec::new();
    let ghost given = items@;
    for item in it: items
        invariant
            it.seq() == given,
            nodes@.len() == it.index(),
            forall|j: int| 0 <= j < nodes@.len() ==> (#[trigger] nodes@[j])@ == given[j].node_model(),
    {
        nodes.push(item.into_roff().into_inner());
    }
    assert(inner_models(nodes@) =~= node_models(given));
    nodes
}

} // verus!
