//! The vertices and edges of the extracted graph, and the value that a hook
//! hands down to the hooks of its children.
//!
//! A vertex or an edge speaks of identifiers by index. A `Node` that groups
//! several indices holds them in a `Vec`; contracts speak of it through its
//! view, which holds them in a `Seq`.

use vstd::prelude::*;
use vstd::std_specs::convert::FromSpecImpl;

verus! {

/// A vertex of the graph.
#[derive(Debug, PartialEq, Eq)]
pub enum Node<T> {
    Class(T),
    ExternalClass(T),
    Thing(T),
    EquivalentClass(Vec<T>),
    Union(T),
    DisjointUnion(T),
    Intersection(T),
    Complement(T),
    DeprecatedClass(T),
    AnonymousClass(T),
    Literal(T),
    RdfsClass(T),
    RdfsResource(T),
}

/// What a `Node` is to a contract: the same vertex, its group as a sequence.
pub enum NodeView<T> {
    Class(T),
    ExternalClass(T),
    Thing(T),
    EquivalentClass(Seq<T>),
    Union(T),
    DisjointUnion(T),
    Intersection(T),
    Complement(T),
    DeprecatedClass(T),
    AnonymousClass(T),
    Literal(T),
    RdfsClass(T),
    RdfsResource(T),
}

impl<T> View for Node<T> {
    type V = NodeView<T>;

    open spec fn view(&self) -> NodeView<T> {
        match self {
            Node::Class(i) => NodeView::Class(*i),
            Node::ExternalClass(i) => NodeView::ExternalClass(*i),
            Node::Thing(i) => NodeView::Thing(*i),
            Node::EquivalentClass(group) => NodeView::EquivalentClass(group@),
            Node::Union(i) => NodeView::Union(*i),
            Node::DisjointUnion(i) => NodeView::DisjointUnion(*i),
            Node::Intersection(i) => NodeView::Intersection(*i),
            Node::Complement(i) => NodeView::Complement(*i),
            Node::DeprecatedClass(i) => NodeView::DeprecatedClass(*i),
            Node::AnonymousClass(i) => NodeView::AnonymousClass(*i),
            Node::Literal(i) => NodeView::Literal(*i),
            Node::RdfsClass(i) => NodeView::RdfsClass(*i),
            Node::RdfsResource(i) => NodeView::RdfsResource(*i),
        }
    }
}

impl<T> NodeView<T> {
    /// The indices that the vertex speaks of: its group, or its one index.
    pub open spec fn indices(self) -> Seq<T> {
        match self {
            NodeView::Class(i) => seq![i],
            NodeView::ExternalClass(i) => seq![i],
            NodeView::Thing(i) => seq![i],
            NodeView::EquivalentClass(group) => group,
            NodeView::Union(i) => seq![i],
            NodeView::DisjointUnion(i) => seq![i],
            NodeView::Intersection(i) => seq![i],
            NodeView::Complement(i) => seq![i],
            NodeView::DeprecatedClass(i) => seq![i],
            NodeView::AnonymousClass(i) => seq![i],
            NodeView::Literal(i) => seq![i],
            NodeView::RdfsClass(i) => seq![i],
            NodeView::RdfsResource(i) => seq![i],
        }
    }
}

/// A copy of `group`, member by member.
fn copied<T: Copy>(group: &Vec<T>) -> (copy: Vec<T>)
    ensures
        copy@ == group@,
{
    let mut copy: Vec<T> = Vec::new();
    let mut at: usize = 0;
    while at < group.len()
        invariant
            at <= group.len(),
            copy@ == group@.take(at as int),
        decreases group.len() - at,
    {
        copy.push(group[at]);
        at = at + 1;
    }
    assert(group@.take(group.len() as int) == group@);
    copy
}

impl<T: Copy> Clone for Node<T> {
    fn clone(&self) -> (copy: Self)
        ensures
            copy@ == self@,
    {
        match self {
            Node::Class(i) => Node::Class(*i),
            Node::ExternalClass(i) => Node::ExternalClass(*i),
            Node::Thing(i) => Node::Thing(*i),
            Node::EquivalentClass(group) => Node::EquivalentClass(copied(group)),
            Node::Union(i) => Node::Union(*i),
            Node::DisjointUnion(i) => Node::DisjointUnion(*i),
            Node::Intersection(i) => Node::Intersection(*i),
            Node::Complement(i) => Node::Complement(*i),
            Node::DeprecatedClass(i) => Node::DeprecatedClass(*i),
            Node::AnonymousClass(i) => Node::AnonymousClass(*i),
            Node::Literal(i) => Node::Literal(*i),
            Node::RdfsClass(i) => Node::RdfsClass(*i),
            Node::RdfsResource(i) => Node::RdfsResource(*i),
        }
    }
}

/// A directed, typed relation between identifiers. `ObjectProperty` holds
/// subject, predicate and object, in that order; the others hold source and
/// target. `NoDraw` stands for an edge that exists and is not to be rendered.
#[derive(Debug, PartialEq, Eq)]
pub enum Edge<T> {
    Datatype(T, T),
    ObjectProperty(T, T, T),
    DatatypeProperty(T, T),
    SubclassOf(T, T),
    InverseProperty(T, T),
    DisjointWith(T, T),
    RdfProperty(T, T),
    DeprecatedProperty(T, T),
    ExternalProperty(T, T),
    ValuesFrom(T, T),
    NoDraw,
}

impl<T: Copy> Clone for Edge<T> {
    fn clone(&self) -> (copy: Self)
        ensures
            copy == *self,
    {
        *self
    }
}

impl<T: Copy> Copy for Edge<T> {}

impl<T> Edge<T> {
    /// The indices that the edge speaks of, in the order in which it holds them.
    pub open spec fn indices(self) -> Seq<T> {
        match self {
            Edge::Datatype(a, b) => seq![a, b],
            Edge::ObjectProperty(a, b, c) => seq![a, b, c],
            Edge::DatatypeProperty(a, b) => seq![a, b],
            Edge::SubclassOf(a, b) => seq![a, b],
            Edge::InverseProperty(a, b) => seq![a, b],
            Edge::DisjointWith(a, b) => seq![a, b],
            Edge::RdfProperty(a, b) => seq![a, b],
            Edge::DeprecatedProperty(a, b) => seq![a, b],
            Edge::ExternalProperty(a, b) => seq![a, b],
            Edge::ValuesFrom(a, b) => seq![a, b],
            Edge::NoDraw => seq![],
        }
    }
}

/// A vertex or an edge.
#[derive(Debug, PartialEq, Eq)]
pub enum Thing<T> {
    Node(Node<T>),
    Edge(Edge<T>),
}

/// What a `Thing` is to a contract.
pub enum ThingView<T> {
    Node(NodeView<T>),
    Edge(Edge<T>),
}

impl<T> View for Thing<T> {
    type V = ThingView<T>;

    open spec fn view(&self) -> ThingView<T> {
        match self {
            Thing::Node(node) => ThingView::Node(node@),
            Thing::Edge(edge) => ThingView::Edge(*edge),
        }
    }
}

impl<T: Copy> Clone for Thing<T> {
    fn clone(&self) -> (copy: Self)
        ensures
            copy@ == self@,
    {
        match self {
            Thing::Node(node) => Thing::Node(node.clone()),
            Thing::Edge(edge) => Thing::Edge(*edge),
        }
    }
}

impl From<Node<u32>> for Thing<u32> {
    fn from(node: Node<u32>) -> (thing: Self) {
        Thing::Node(node)
    }
}

impl FromSpecImpl<Node<u32>> for Thing<u32> {
    open spec fn obeys_from_spec() -> bool {
        true
    }

    open spec fn from_spec(node: Node<u32>) -> Self {
        Thing::Node(node)
    }
}

impl From<Edge<u32>> for Thing<u32> {
    fn from(edge: Edge<u32>) -> (thing: Self) {
        Thing::Edge(edge)
    }
}

impl FromSpecImpl<Edge<u32>> for Thing<u32> {
    open spec fn obeys_from_spec() -> bool {
        true
    }

    open spec fn from_spec(edge: Edge<u32>) -> Self {
        Thing::Edge(edge)
    }
}

/// The value that a hook synthesizes for the hooks of its children.
#[derive(Debug, PartialEq, Eq)]
pub struct Kind<T>(pub Thing<T>);

impl<T> View for Kind<T> {
    type V = ThingView<T>;

    open spec fn view(&self) -> ThingView<T> {
        self.0@
    }
}

impl<T: Copy> Clone for Kind<T> {
    fn clone(&self) -> (copy: Self)
        ensures
            copy@ == self@,
    {
        Kind(self.0.clone())
    }
}

/// What a context is to a contract: the view of the value handed down, or
/// nothing where no ancestor synthesized one.
pub open spec fn context<T>(parent: Option<Kind<T>>) -> Option<ThingView<T>> {
    match parent {
        Some(kind) => Some(kind@),
        None => None,
    }
}

/// A wrapper that hands out a copy of what it wraps.
pub trait ForVisit<T> {
    fn inner(&self) -> T;
}

impl<T: Copy> ForVisit<Thing<T>> for Kind<T> {
    fn inner(&self) -> (thing: Thing<T>)
        ensures
            thing@ == self@,
    {
        self.0.clone()
    }
}

} // verus!
