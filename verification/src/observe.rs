//! Traversal without context.
//!
//! An observer is told of every node of a document and of nothing else: it
//! receives no context and synthesizes none. `ContextFree` makes a visitor of
//! an observer, so that `Walk` drives it like any other. `Identifiers` is the
//! observer that gathers the identifiers of a document.

use vstd::prelude::*;

use crate::graph::{Kind, ThingView};
use crate::model::texts;
use crate::order::{only_the_hook_sees_the_context, walked};
use crate::visitor::{Element, Visit};

verus! {

/// A consumer of a traversal that takes each node by itself.
pub trait Observe: View + Sized {
    /// The observer's state after it was told of `node` in state `state`.
    spec fn seen(state: Self::V, node: Element<'_>) -> Self::V;

    fn observe(&mut self, node: Element<'_>)
        ensures
            final(self)@ == Self::seen(old(self)@, node),
    ;
}

/// The visitor that tells `O` of every node and hands no context down.
pub struct ContextFree<O>(pub O);

impl<O: Observe> View for ContextFree<O> {
    type V = O::V;

    open spec fn view(&self) -> O::V {
        self.0@
    }
}

impl<B, O: Observe> Visit<B> for ContextFree<O> {
    open spec fn after(state: O::V, parent: Option<ThingView<B>>, node: Element<'_>) -> O::V {
        O::seen(state, node)
    }

    open spec fn yields(state: O::V, parent: Option<ThingView<B>>, node: Element<'_>) -> Option<
        ThingView<B>,
    > {
        None
    }

    fn visit_other(&mut self, _parent: Option<Kind<B>>, node: Element<'_>) -> (ctx: Option<
        Kind<B>,
    >) {
        self.0.observe(node);
        None
    }
}

/// What a walk leaves of a context-free visitor does not depend on the
/// context that the walk is given: no hook of it sees a context.
pub proof fn context_is_not_seen<B, O: Observe>(
    s: O::V,
    c: Option<ThingView<B>>,
    d: Option<ThingView<B>>,
    node: Element<'_>,
)
    ensures
        walked::<B, ContextFree<O>>(s, c, node) == walked::<B, ContextFree<O>>(s, d, node),
{
    only_the_hook_sees_the_context::<B, ContextFree<O>>(s, c, d, node);
}

/// The identifiers of a document, named and anonymous, one for each place
/// where the document holds one, in the order of the traversal.
pub struct Identifiers {
    found: Vec<String>,
}

impl View for Identifiers {
    type V = Seq<Seq<char>>;

    closed spec fn view(&self) -> Seq<Seq<char>> {
        texts(self.found@)
    }
}

impl Identifiers {
    pub fn new() -> (identifiers: Self)
        ensures
            identifiers@ == Seq::<Seq<char>>::empty(),
    {
        let identifiers = Identifiers { found: Vec::new() };
        assert(identifiers@ =~= Seq::<Seq<char>>::empty());
        identifiers
    }

    /// The identifiers gathered so far.
    pub fn found(&self) -> (found: &Vec<String>)
        ensures
            texts(found@) == self@,
            found.len() == self@.len(),
            forall|i: int| 0 <= i < found.len() ==> (#[trigger] found[i])@ == self@[i],
    {
        &self.found
    }

    fn keep(&mut self, text: String)
        ensures
            final(self)@ == old(self)@.push(text@),
    {
        self.found.push(text);
        assert(final(self)@ =~= old(self)@.push(text@));
    }
}

impl Observe for Identifiers {
    open spec fn seen(state: Seq<Seq<char>>, node: Element<'_>) -> Seq<Seq<char>> {
        match node {
            Element::Iri(iri) => state.push(iri@),
            Element::AnonymousIndividual(anonymous) => state.push(anonymous@),
            _ => state,
        }
    }

    fn observe(&mut self, node: Element<'_>) {
        match node {
            Element::Iri(iri) => self.keep(iri.underlying()),
            Element::AnonymousIndividual(anonymous) => self.keep(anonymous.underlying()),
            _ => {},
        }
    }
}

} // verus!
