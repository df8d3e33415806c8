//! The graph that a document stands for.
//!
//! `HornedVOWLExtract` is a visitor. Walked over a document it resolves every
//! identifier that the watched axioms name to a dense index, in the order in
//! which it first meets them, and records vertices and edges that speak of
//! those indices. The axioms it watches are class and named-individual
//! declarations, equivalent classes, subclass-of and object property
//! assertions; of every other node it is told and takes no notice.
//!
//! Nothing is extracted yet of the domain or the range of a property, and of an
//! equivalent-classes axiom only the members that are plain class references
//! and new to the cache are grouped.
//!
//! An index is a `u32`. An extractor assigns at most `limit` of them, and at
//! most `u32::MAX` whatever the limit. Where an axiom needs an index that can no
//! longer be given, or has a shape that the graph has no place for, nothing is
//! recorded for it but an `ExtractError`, and the traversal goes on.

use vstd::hash_map::StringHashMap;
use vstd::prelude::*;
use vstd::std_specs::convert::FromSpecImpl;

use crate::graph::{Edge, Kind, Node, NodeView, Thing, ThingView};
use crate::laws::{absorbing_keeps_wf, extracted_is_dense, resolving_keeps_dense};
use crate::model::{
    texts, AnnotatedComponent, ClassExpression, Component, DeclareClass, DeclareNamedIndividual,
    EquivalentClasses, Individual, ObjectPropertyAssertion, ObjectPropertyExpression, SetOntology,
    SubClassOf,
};
use crate::visitor::{Element, Visit};
use crate::walk::{walked_set_ontology, Walk};

verus! {

/// Why an axiom left no trace in the graph.
#[derive(Clone, Copy, Debug, PartialEq, Eq, Structural)]
pub enum ExtractError {
    /// A subclass-of axiom one side of which is no plain class reference.
    CompositeSubClassOf,
    /// An object property assertion whose property is an inverse.
    InverseObjectPropertyAssertion,
    /// An identifier that was met when every index had been given out.
    IndexSpaceExhausted,
}

/// Whether `long` is `short` with more appended.
pub open spec fn begins_with<T>(long: Seq<T>, short: Seq<T>) -> bool {
    &&& short.len() <= long.len()
    &&& forall|i: int| 0 <= i < short.len() ==> #[trigger] long[i] == short[i]
}

/// What an extractor is to a contract.
pub struct Graph {
    /// The vertices, in the order in which they were recorded.
    pub nodes: Seq<NodeView<u32>>,
    /// The edges, in the order in which they were recorded.
    pub edges: Seq<Edge<u32>>,
    /// For every identifier met: its index, and a second index that is held
    /// in reserve and always empty.
    pub cache: Map<Seq<char>, (u32, Option<u32>)>,
    /// The identifiers met, in the order in which they were first met: the
    /// one at place `i` has the index `i`.
    pub names: Seq<Seq<char>>,
    /// The axioms passed over, in the order in which they were met.
    pub errors: Seq<ExtractError>,
    /// The number of indices that may be given out.
    pub limit: nat,
}

impl Graph {
    /// The graph of an extractor that has seen nothing.
    pub open spec fn empty(limit: nat) -> Graph {
        Graph {
            nodes: seq![],
            edges: seq![],
            cache: Map::empty(),
            names: seq![],
            errors: seq![],
            limit,
        }
    }

    /// The index that resolving `x` returns: the one `x` has, or else the next
    /// free one, or nothing where `x` is new and no index is left.
    pub open spec fn index_for(self, x: Seq<char>) -> Option<u32> {
        if self.cache.contains_key(x) {
            Some(self.cache[x].0)
        } else if self.names.len() < self.limit && self.names.len() <= u32::MAX {
            Some(self.names.len() as u32)
        } else {
            None
        }
    }

    /// What resolving `x` returns: whether `x` was known already, and its index.
    pub open spec fn outcome(self, x: Seq<char>) -> Option<(bool, u32)> {
        match self.index_for(x) {
            Some(index) => Some((self.cache.contains_key(x), index)),
            None => None,
        }
    }

    /// The graph once `x` has been resolved: `x` has the index `index_for(x)`
    /// where there is one, and nothing else has changed.
    pub open spec fn with_name(self, x: Seq<char>) -> Graph {
        match self.index_for(x) {
            Some(index) if !self.cache.contains_key(x) => Graph {
                cache: self.cache.insert(x, (index, None)),
                names: self.names.push(x),
                ..self
            },
            _ => self,
        }
    }

    pub open spec fn with_node(self, node: NodeView<u32>) -> Graph {
        Graph { nodes: self.nodes.push(node), ..self }
    }

    pub open spec fn with_edge(self, edge: Edge<u32>) -> Graph {
        Graph { edges: self.edges.push(edge), ..self }
    }

    pub open spec fn noted(self, error: ExtractError) -> Graph {
        Graph { errors: self.errors.push(error), ..self }
    }

    /// The graph once an axiom has named `x`: `x` is resolved, or the lack of
    /// an index for it is noted.
    pub open spec fn named(self, x: Seq<char>) -> Graph {
        match self.index_for(x) {
            Some(_) => self.with_name(x),
            None => self.noted(ExtractError::IndexSpaceExhausted),
        }
    }

    /// The graph once an axiom has named `x` as a vertex: `x` is resolved as by
    /// `named`, and where that gave it a new index, `vertex` of that index is
    /// recorded.
    pub open spec fn declared(self, x: Seq<char>, vertex: spec_fn(u32) -> NodeView<u32>) -> Graph {
        match self.outcome(x) {
            Some((false, index)) => self.named(x).with_node(vertex(index)),
            _ => self.named(x),
        }
    }

    /// The context that a declaration of `x` hands down: `vertex` of the index
    /// of `x`, where `x` has one.
    pub open spec fn declared_context(
        self,
        x: Seq<char>,
        vertex: spec_fn(u32) -> NodeView<u32>,
    ) -> Option<ThingView<u32>> {
        match self.index_for(x) {
            Some(index) => Some(ThingView::Node(vertex(index))),
            None => None,
        }
    }

    /// The graph once the first `n` of `members` have been looked at for an
    /// equivalent-classes axiom, and the indices gathered for its group: every
    /// plain class reference among them is resolved, and the group holds the
    /// indices that this gave out anew, in the order of the members.
    pub open spec fn gathered(self, members: &Vec<ClassExpression>, n: nat) -> (Graph, Seq<u32>)
        decreases n,
    {
        if n == 0 || n > members.len() {
            (self, seq![])
        } else {
            let (graph, group) = self.gathered(members, (n - 1) as nat);
            match members[n - 1].plain() {
                Some(x) => match graph.outcome(x) {
                    Some((false, index)) => (graph.named(x), group.push(index)),
                    _ => (graph.named(x), group),
                },
                None => (graph, group),
            }
        }
    }

    /// The graph after an equivalent-classes axiom: its plain members are
    /// resolved, and where that gave out any index anew, one vertex groups
    /// those indices.
    pub open spec fn equated(self, e: &EquivalentClasses) -> Graph {
        let (graph, group) = self.gathered(&e.0, e.0.len() as nat);
        if group.len() > 0 {
            graph.with_node(NodeView::EquivalentClass(group))
        } else {
            graph
        }
    }

    pub open spec fn equated_context(self, e: &EquivalentClasses) -> Option<ThingView<u32>> {
        let (graph, group) = self.gathered(&e.0, e.0.len() as nat);
        if group.len() > 0 {
            Some(ThingView::Node(NodeView::EquivalentClass(group)))
        } else {
            None
        }
    }

    /// The edge of a subclass-of axiom, from the subclass to the superclass:
    /// there is one where both sides are plain class references and both have
    /// an index once resolved, the subclass first.
    pub open spec fn subclass_edge(self, e: &SubClassOf) -> Option<Edge<u32>> {
        match (e.sub.plain(), e.sup.plain()) {
            (Some(sub), Some(sup)) => match (
                self.index_for(sub),
                self.declared(sub, |i: u32| NodeView::Class(i)).index_for(sup),
            ) {
                (Some(from), Some(to)) => Some(Edge::SubclassOf(from, to)),
                _ => None,
            },
            _ => None,
        }
    }

    /// The graph after a subclass-of axiom. Where both sides are plain class
    /// references, each is declared as a class, the subclass first, and the
    /// edge is recorded where there is one. Where a side is composite, only
    /// that is noted.
    pub open spec fn subclassed(self, e: &SubClassOf) -> Graph {
        match (e.sub.plain(), e.sup.plain()) {
            (Some(sub), Some(sup)) => {
                let graph = self.declared(sub, |i: u32| NodeView::Class(i)).declared(
                    sup,
                    |i: u32| NodeView::Class(i),
                );
                match self.subclass_edge(e) {
                    Some(edge) => graph.with_edge(edge),
                    None => graph,
                }
            },
            _ => self.noted(ExtractError::CompositeSubClassOf),
        }
    }

    /// The edge of an object property assertion, holding subject, predicate
    /// and object: there is one where the property is no inverse and predicate,
    /// subject and object each have an index once resolved in that order.
    pub open spec fn assertion_edge(self, e: &ObjectPropertyAssertion) -> Option<Edge<u32>> {
        match e.ope {
            ObjectPropertyExpression::ObjectProperty(p) => {
                let first = self.named(p.0@);
                let second = first.named(e.from.name());
                match (
                    self.index_for(p.0@),
                    first.index_for(e.from.name()),
                    second.index_for(e.to.name()),
                ) {
                    (Some(predicate), Some(subject), Some(object)) => Some(
                        Edge::ObjectProperty(subject, predicate, object),
                    ),
                    _ => None,
                }
            },
            ObjectPropertyExpression::InverseObjectProperty(_) => None,
        }
    }

    /// The graph after an object property assertion. Where the property is no
    /// inverse, predicate, subject and object are resolved in that order, and
    /// the edge is recorded where there is one; no vertex is. Where the
    /// property is an inverse, only that is noted.
    pub open spec fn asserted(self, e: &ObjectPropertyAssertion) -> Graph {
        match e.ope {
            ObjectPropertyExpression::ObjectProperty(p) => {
                let graph = self.named(p.0@).named(e.from.name()).named(e.to.name());
                match self.assertion_edge(e) {
                    Some(edge) => graph.with_edge(edge),
                    None => graph,
                }
            },
            ObjectPropertyExpression::InverseObjectProperty(_) => self.noted(
                ExtractError::InverseObjectPropertyAssertion,
            ),
        }
    }

    pub open spec fn edge_context(edge: Option<Edge<u32>>) -> Option<ThingView<u32>> {
        match edge {
            Some(edge) => Some(ThingView::Edge(edge)),
            None => None,
        }
    }

    /// Whether the indices given out are exactly those below the number of
    /// identifiers met: the identifier first met at place `i` has the index
    /// `i` and no second index, every identifier of the cache is the one met at
    /// the place of its index, and no more were met than may be given an index.
    pub open spec fn dense(self) -> bool {
        &&& self.names.len() <= self.limit <= u32::MAX
        &&& forall|i: int|
            0 <= i < self.names.len() ==> self.cache.contains_key(#[trigger] self.names[i])
                && self.cache[self.names[i]] == (i as u32, None::<u32>)
        &&& forall|x: Seq<char>| #[trigger]
            self.cache.contains_key(x) ==> self.cache[x].0 < self.names.len()
                && self.names[self.cache[x].0 as int] == x
    }

    /// Whether each of `indices` has been given out.
    pub open spec fn given_out(self, indices: Seq<u32>) -> bool {
        forall|k: int| 0 <= k < indices.len() ==> (#[trigger] indices[k]) < self.names.len()
    }

    /// Whether every vertex and every edge speaks of indices that have been
    /// given out.
    pub open spec fn grounded(self) -> bool {
        &&& forall|n: int|
            0 <= n < self.nodes.len() ==> self.given_out((#[trigger] self.nodes[n]).indices())
        &&& forall|n: int|
            0 <= n < self.edges.len() ==> self.given_out((#[trigger] self.edges[n]).indices())
    }

    /// Whether the graph is one that an extractor can have built.
    pub open spec fn wf(self) -> bool {
        self.dense() && self.grounded()
    }

    /// Whether `self` is `old` with more appended and nothing taken back:
    /// every identifier has kept its index, and the vertices, edges and errors
    /// of `old` stand where they stood.
    pub open spec fn grown_from(self, old: Graph) -> bool {
        &&& old.cache.submap_of(self.cache)
        &&& begins_with(self.names, old.names)
        &&& begins_with(self.nodes, old.nodes)
        &&& begins_with(self.edges, old.edges)
        &&& begins_with(self.errors, old.errors)
        &&& old.limit == self.limit
    }

    /// The graph once the axiom `e` has been walked: what the hook of its kind
    /// makes of it where it is of a watched kind, and the graph as it was where
    /// it is not.
    pub open spec fn absorbed(self, e: &Component) -> Graph {
        match e {
            Component::DeclareClass(ax) => self.declared(ax.0.0@, |i: u32| NodeView::Class(i)),
            Component::DeclareNamedIndividual(ax) => self.declared(
                ax.0.0@,
                |i: u32| NodeView::Thing(i),
            ),
            Component::EquivalentClasses(ax) => self.equated(ax),
            Component::SubClassOf(ax) => self.subclassed(ax),
            Component::ObjectPropertyAssertion(ax) => self.asserted(ax),
            _ => self,
        }
    }

    /// The graph once the first `n` of `items` have been walked, in their order.
    pub open spec fn absorbed_all(self, items: &Vec<AnnotatedComponent>, n: nat) -> Graph
        decreases n,
    {
        if n == 0 || n > items.len() {
            self
        } else {
            self.absorbed_all(items, (n - 1) as nat).absorbed(&items[n - 1].component)
        }
    }
}

/// The graph of `document`: that of an extractor which had seen nothing, could
/// give out `u32::MAX` indices and was walked over `document`.
pub open spec fn extracted(document: &SetOntology) -> Graph {
    walked_set_ontology::<u32, HornedVOWLExtract>(
        Graph::empty(u32::MAX as nat),
        None,
        document,
    )
}

/// The views of `nodes`, one for one.
pub open spec fn node_views(nodes: Seq<Node<u32>>) -> Seq<NodeView<u32>> {
    Seq::new(nodes.len(), |i: int| nodes[i]@)
}

/// A visitor that builds the graph of the document it is walked over.
pub struct HornedVOWLExtract {
    nodes: Vec<Node<u32>>,
    edges: Vec<Edge<u32>>,
    iricache: StringHashMap<(u32, Option<u32>)>,
    names: Vec<String>,
    errors: Vec<ExtractError>,
    limit: u32,
}

impl View for HornedVOWLExtract {
    type V = Graph;

    closed spec fn view(&self) -> Graph {
        Graph {
            nodes: node_views(self.nodes@),
            edges: self.edges@,
            cache: self.iricache@,
            names: texts(self.names@),
            errors: self.errors@,
            limit: self.limit as nat,
        }
    }
}

impl Default for HornedVOWLExtract {
    /// An extractor that has seen nothing and may give out `u32::MAX` indices.
    fn default() -> (extract: Self)
        ensures
            extract@ == Graph::empty(u32::MAX as nat),
            extract@.wf(),
    {
        HornedVOWLExtract::with_limit(u32::MAX)
    }
}

impl From<SetOntology> for HornedVOWLExtract {
    /// The extractor that `ontology` leaves behind once walked.
    fn from(ontology: SetOntology) -> (extract: Self)
        ensures
            extract@ == extracted(&ontology),
            extract@.wf(),
    {
        let mut walk = Walk::<u32, Self>::new(Self::default());
        walk.set_ontology(None, &ontology);
        proof {
            extracted_is_dense(&ontology);
        }
        walk.into_visit()
    }
}

impl FromSpecImpl<SetOntology> for HornedVOWLExtract {
    /// Two extractors with one graph need not be one value, so `from` is held
    /// to its own contract and not to `from_spec`.
    open spec fn obeys_from_spec() -> bool {
        false
    }

    open spec fn from_spec(ontology: SetOntology) -> Self {
        choose|extract: Self| extract@ == extracted(&ontology)
    }
}

impl HornedVOWLExtract {
    /// An extractor that has seen nothing and may give out `limit` indices.
    pub fn with_limit(limit: u32) -> (extract: Self)
        ensures
            extract@ == Graph::empty(limit as nat),
            extract@.wf(),
    {
        let extract = HornedVOWLExtract {
            nodes: Vec::new(),
            edges: Vec::new(),
            iricache: StringHashMap::new(),
            names: Vec::new(),
            errors: Vec::new(),
            limit,
        };
        assert(extract@.nodes =~= seq![]);
        assert(extract@.names =~= seq![]);
        extract
    }

    /// The vertices recorded so far.
    pub fn nodes(&self) -> (nodes: &Vec<Node<u32>>)
        ensures
            node_views(nodes@) == self@.nodes,
            nodes.len() == self@.nodes.len(),
            forall|i: int| 0 <= i < nodes.len() ==> (#[trigger] nodes[i])@ == self@.nodes[i],
    {
        &self.nodes
    }

    /// The edges recorded so far.
    pub fn edges(&self) -> (edges: &Vec<Edge<u32>>)
        ensures
            edges@ == self@.edges,
    {
        &self.edges
    }

    /// The axioms passed over so far.
    pub fn errors(&self) -> (errors: &Vec<ExtractError>)
        ensures
            errors@ == self@.errors,
    {
        &self.errors
    }

    /// The number of indices that may be given out.
    pub fn limit(&self) -> (limit: u32)
        ensures
            limit == self@.limit,
    {
        self.limit
    }

    /// The identifiers met so far, each at the place of its index.
    pub fn names(&self) -> (names: &Vec<String>)
        ensures
            texts(names@) == self@.names,
            names.len() == self@.names.len(),
            forall|i: int| 0 <= i < names.len() ==> (#[trigger] names[i])@ == self@.names[i],
    {
        &self.names
    }

    /// The number of identifiers met so far.
    pub fn len(&self) -> (n: usize)
        ensures
            n == self@.names.len(),
    {
        self.names.len()
    }

    /// The index of `x`, where `x` was met.
    pub fn index_of(&self, x: &str) -> (index: Option<u32>)
        ensures
            index == if self@.cache.contains_key(x@) {
                Some(self@.cache[x@].0)
            } else {
                None
            },
    {
        match self.iricache.get(x) {
            Some(entry) => Some(entry.0),
            None => None,
        }
    }

    /// Resolves `x`: gives it the next free index unless it has one, and
    /// returns whether it had one, and the index. No vertex, edge or error is
    /// recorded.
    pub fn try_insert(&mut self, x: String) -> (found: Result<(bool, u32), ExtractError>)
        ensures
            final(self)@ == old(self)@.with_name(x@),
            found == match old(self)@.outcome(x@) {
                Some(pair) => Ok::<(bool, u32), ExtractError>(pair),
                None => Err::<(bool, u32), ExtractError>(ExtractError::IndexSpaceExhausted),
            },
            old(self)@.wf() ==> final(self)@.wf(),
    {
        proof {
            if self@.wf() {
                resolving_keeps_dense(self@, x@);
            }
        }
        match self.iricache.get(x.as_str()) {
            Some(entry) => Ok((true, entry.0)),
            None => {
                let n = self.names.len();
                if n < self.limit as usize {
                    let index = n as u32;
                    self.names.push(x.clone());
                    self.iricache.insert(x, (index, None));
                    assert(final(self)@.names =~= old(self)@.names.push(x@));
                    Ok((false, index))
                } else {
                    Err(ExtractError::IndexSpaceExhausted)
                }
            },
        }
    }

    /// Resolves `x`, which has an index or can be given one: see `try_insert`.
    pub fn insert(&mut self, x: String) -> (found: (bool, u32))
        requires
            old(self)@.index_for(x@) is Some,
        ensures
            final(self)@ == old(self)@.with_name(x@),
            Some(found) == old(self)@.outcome(x@),
            old(self)@.wf() ==> final(self)@.wf(),
    {
        proof {
            if self@.wf() {
                resolving_keeps_dense(self@, x@);
            }
        }
        match self.iricache.get(x.as_str()) {
            Some(entry) => (true, entry.0),
            None => {
                let index = self.names.len() as u32;
                self.names.push(x.clone());
                self.iricache.insert(x, (index, None));
                assert(final(self)@.names =~= old(self)@.names.push(x@));
                (false, index)
            },
        }
    }

    /// Resolves `x` for an axiom: as `try_insert`, and a failure is noted.
    fn resolve(&mut self, x: String) -> (found: Option<(bool, u32)>)
        ensures
            final(self)@ == old(self)@.named(x@),
            found == old(self)@.outcome(x@),
    {
        match self.try_insert(x) {
            Ok(found) => Some(found),
            Err(error) => {
                self.errors.push(error);
                None
            },
        }
    }

    fn record(&mut self, node: Node<u32>)
        ensures
            final(self)@ == old(self)@.with_node(node@),
    {
        self.nodes.push(node);
        assert(final(self)@.nodes =~= old(self)@.nodes.push(node@));
    }
}

impl Visit<u32> for HornedVOWLExtract {
    open spec fn after(state: Graph, parent: Option<ThingView<u32>>, node: Element<'_>) -> Graph {
        match node {
            Element::DeclareClass(e) => state.declared(e.0.0@, |i: u32| NodeView::Class(i)),
            Element::DeclareNamedIndividual(e) => state.declared(
                e.0.0@,
                |i: u32| NodeView::Thing(i),
            ),
            Element::EquivalentClasses(e) => state.equated(e),
            Element::SubClassOf(e) => state.subclassed(e),
            Element::ObjectPropertyAssertion(e) => state.asserted(e),
            _ => state,
        }
    }

    open spec fn yields(state: Graph, parent: Option<ThingView<u32>>, node: Element<'_>) -> Option<
        ThingView<u32>,
    > {
        match node {
            Element::DeclareClass(e) => state.declared_context(
                e.0.0@,
                |i: u32| NodeView::Class(i),
            ),
            Element::DeclareNamedIndividual(e) => state.declared_context(
                e.0.0@,
                |i: u32| NodeView::Thing(i),
            ),
            Element::EquivalentClasses(e) => state.equated_context(e),
            Element::SubClassOf(e) => Graph::edge_context(state.subclass_edge(e)),
            Element::ObjectPropertyAssertion(e) => Graph::edge_context(state.assertion_edge(e)),
            _ => None,
        }
    }

    /// No notice is taken of a node that is none of the watched axioms.
    fn visit_other(&mut self, parent: Option<Kind<u32>>, node: Element<'_>) -> (ctx: Option<
        Kind<u32>,
    >)
        ensures
            old(self)@.wf() ==> final(self)@.wf(),
    {
        match node {
            Element::DeclareClass(e) => self.visit_declare_class(parent, e),
            Element::DeclareNamedIndividual(e) => self.visit_declare_named_individual(parent, e),
            Element::EquivalentClasses(e) => self.visit_equivalent_classes(parent, e),
            Element::SubClassOf(e) => self.visit_sub_class_of(parent, e),
            Element::ObjectPropertyAssertion(e) => self.visit_object_property_assertion(parent, e),
            _ => None,
        }
    }

    fn visit_declare_class(&mut self, _parent: Option<Kind<u32>>, e: &DeclareClass) -> (ctx: Option<
        Kind<u32>,
    >)
        ensures
            old(self)@.wf() ==> final(self)@.wf(),
    {
        proof {
            if self@.wf() {
                absorbing_keeps_wf(self@, &Component::DeclareClass(*e));
            }
        }
        match self.resolve(e.0.0.underlying()) {
            Some((present, index)) => {
                if !present {
                    self.record(Node::Class(index));
                }
                Some(Kind(Thing::Node(Node::Class(index))))
            },
            None => None,
        }
    }

    fn visit_declare_named_individual(
        &mut self,
        _parent: Option<Kind<u32>>,
        e: &DeclareNamedIndividual,
    ) -> (ctx: Option<Kind<u32>>)
        ensures
            old(self)@.wf() ==> final(self)@.wf(),
    {
        proof {
            if self@.wf() {
                absorbing_keeps_wf(self@, &Component::DeclareNamedIndividual(*e));
            }
        }
        match self.resolve(e.0.0.underlying()) {
            Some((present, index)) => {
                if !present {
                    self.record(Node::Thing(index));
                }
                Some(Kind(Thing::Node(Node::Thing(index))))
            },
            None => None,
        }
    }

    fn visit_equivalent_classes(
        &mut self,
        _parent: Option<Kind<u32>>,
        e: &EquivalentClasses,
    ) -> (ctx: Option<Kind<u32>>)
        ensures
            old(self)@.wf() ==> final(self)@.wf(),
    {
        proof {
            if self@.wf() {
                absorbing_keeps_wf(self@, &Component::EquivalentClasses(*e));
            }
        }
        let ghost start = self@;
        let members = &e.0;
        let mut equivalent_classes: Vec<u32> = Vec::new();
        let mut at: usize = 0;
        while at < members.len()
            invariant
                at <= members.len(),
                (self@, equivalent_classes@) == start.gathered(members, at as nat),
            decreases members.len() - at,
        {
            match &members[at] {
                ClassExpression::Class(name) => {
                    match self.resolve(name.0.underlying()) {
                        Some((present, index)) => {
                            if !present {
                                equivalent_classes.push(index);
                            }
                        },
                        None => {},
                    }
                },
                _ => {},
            }
            at = at + 1;
        }
        if equivalent_classes.len() > 0 {
            let node = Node::EquivalentClass(equivalent_classes);
            let ctx = Kind(Thing::Node(node.clone()));
            self.record(node);
            Some(ctx)
        } else {
            None
        }
    }

    fn visit_sub_class_of(&mut self, _parent: Option<Kind<u32>>, e: &SubClassOf) -> (ctx: Option<
        Kind<u32>,
    >)
        ensures
            old(self)@.wf() ==> final(self)@.wf(),
    {
        proof {
            if self@.wf() {
                absorbing_keeps_wf(self@, &Component::SubClassOf(*e));
            }
        }
        match &e.sub {
            ClassExpression::Class(sub) => {
                match &e.sup {
                    ClassExpression::Class(sup) => {
                        let index_sub = self.resolve(sub.0.underlying());
                        if let Some((false, index)) = index_sub {
                            self.record(Node::Class(index));
                        }
                        let index_sup = self.resolve(sup.0.underlying());
                        if let Some((false, index)) = index_sup {
                            self.record(Node::Class(index));
                        }
                        match (index_sub, index_sup) {
                            (Some((_, from)), Some((_, to))) => {
                                self.edges.push(Edge::SubclassOf(from, to));
                                Some(Kind(Thing::Edge(Edge::SubclassOf(from, to))))
                            },
                            _ => None,
                        }
                    },
                    _ => {
                        self.errors.push(ExtractError::CompositeSubClassOf);
                        None
                    },
                }
            },
            _ => {
                self.errors.push(ExtractError::CompositeSubClassOf);
                None
            },
        }
    }

    fn visit_object_property_assertion(
        &mut self,
        _parent: Option<Kind<u32>>,
        e: &ObjectPropertyAssertion,
    ) -> (ctx: Option<Kind<u32>>)
        ensures
            old(self)@.wf() ==> final(self)@.wf(),
    {
        proof {
            if self@.wf() {
                absorbing_keeps_wf(self@, &Component::ObjectPropertyAssertion(*e));
            }
        }
        match e.ope.as_property() {
            Some(property) => {
                let index_ope = self.resolve(property.0.underlying());
                let index_from = self.resolve(name_of(&e.from));
                let index_to = self.resolve(name_of(&e.to));
                match (index_ope, index_from, index_to) {
                    (Some((_, predicate)), Some((_, subject)), Some((_, object))) => {
                        let edge = Edge::ObjectProperty(subject, predicate, object);
                        self.edges.push(edge);
                        Some(Kind(Thing::Edge(edge)))
                    },
                    _ => None,
                }
            },
            None => {
                self.errors.push(ExtractError::InverseObjectPropertyAssertion);
                None
            },
        }
    }
}

/// A copy of the text under which `individual` is known.
fn name_of(individual: &Individual) -> (text: String)
    ensures
        text@ == individual.name(),
{
    match individual {
        Individual::Named(name) => name.0.underlying(),
        Individual::Anonymous(anonymous) => anonymous.underlying(),
    }
}

} // verus!
