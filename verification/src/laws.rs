//! What holds of every document and of every run.
//!
//! The laws speak of `Graph`, the view of an extractor, and of the spec
//! functions by which the contracts of `HornedVOWLExtract` and of `Walk` say
//! what a call leaves behind. They come in four groups: what resolving an
//! identifier does to the cache, that every axiom keeps a graph well formed,
//! that a document leaves what its axioms leave one after the other, and how
//! many subclass-of edges that is.

use vstd::prelude::*;

use crate::extract::{extracted, ExtractError, Graph, HornedVOWLExtract};
use crate::graph::{Edge, NodeView, ThingView};
use crate::model::{
    AnnotatedComponent, ClassExpression, Component, ObjectPropertyAssertion,
    ObjectPropertyExpression, SetOntology, SubClassOf,
};
use crate::quiet::{
    quiet_annotation_set, quiet_class_assertion, quiet_class_expression,
    quiet_class_expression_vec, quiet_data_property_domain, quiet_data_property_range,
    quiet_datatype_definition, quiet_different_individuals, quiet_disjoint_classes,
    quiet_disjoint_data_properties, quiet_disjoint_object_properties, quiet_disjoint_union,
    quiet_equivalent_data_properties, quiet_equivalent_object_properties, quiet_has_key,
    quiet_object_property_domain, quiet_object_property_range, quiet_rule, quiet_same_individual,
    quiet_sub_object_property_of,
};
use crate::visitor::{Element, Visit};
use crate::walk::{
    walked_annotated_component, walked_annotated_components, walked_component,
    walked_set_ontology,
};

verus! {

/// The graph once the first `n` of `xs` have been resolved, in their order.
pub open spec fn resolved_all(g: Graph, xs: Seq<Seq<char>>, n: nat) -> Graph
    decreases n,
{
    if n == 0 || n > xs.len() {
        g
    } else {
        resolved_all(g, xs, (n - 1) as nat).with_name(xs[n - 1])
    }
}

/// What resolving `xs[at]` returns once those before it have been resolved.
pub open spec fn outcome_at(g: Graph, xs: Seq<Seq<char>>, at: nat) -> Option<(bool, u32)> {
    resolved_all(g, xs, at).outcome(xs[at as int])
}

proof fn index_is_kept(g: Graph, xs: Seq<Seq<char>>, first: nat, n: nat)
    requires
        first < n <= xs.len(),
        outcome_at(g, xs, first) is Some,
    ensures
        resolved_all(g, xs, n).cache.contains_key(xs[first as int]),
        resolved_all(g, xs, n).cache[xs[first as int]].0 == outcome_at(g, xs, first).unwrap().1,
    decreases n,
{
    if n > first + 1 {
        index_is_kept(g, xs, first, (n - 1) as nat);
    }
}

proof fn exhaustion_is_kept(g: Graph, xs: Seq<Seq<char>>, first: nat, n: nat)
    requires
        first <= n <= xs.len(),
        first < xs.len(),
        outcome_at(g, xs, first) is None,
    ensures
        resolved_all(g, xs, n) == resolved_all(g, xs, first),
    decreases n,
{
    if n > first {
        exhaustion_is_kept(g, xs, first, (n - 1) as nat);
    }
}

/// However often an identifier is resolved, and whatever is resolved in
/// between, every call after the first reports it as known and returns the index
/// that the first call returned. Where the first call found no index left,
/// none of them finds one.
pub proof fn resolving_is_deduplicated(g: Graph, xs: Seq<Seq<char>>, first: nat, later: nat)
    requires
        first < later < xs.len(),
        xs[first as int] == xs[later as int],
    ensures
        match outcome_at(g, xs, first) {
            Some((_, index)) => outcome_at(g, xs, later) == Some((true, index)),
            None => outcome_at(g, xs, later) is None,
        },
{
    if outcome_at(g, xs, first) is Some {
        index_is_kept(g, xs, first, later);
    } else {
        exhaustion_is_kept(g, xs, first, later);
    }
}

/// Resolving an identifier a second time changes nothing, and resolving
/// another one leaves it its index.
pub proof fn resolving_is_stable(g: Graph, x: Seq<char>, y: Seq<char>)
    ensures
        g.with_name(x).with_name(x) == g.with_name(x),
        g.cache.contains_key(x) ==> g.with_name(y).cache.contains_key(x) && g.with_name(
            y,
        ).cache[x] == g.cache[x],
{
}

/// A graph that has only grown speaks of indices given out wherever the graph
/// it grew from did.
proof fn growing_keeps_given_out(old: Graph, new: Graph)
    requires
        old.grounded(),
        old.names.len() <= new.names.len(),
    ensures
        forall|n: int|
            0 <= n < old.nodes.len() ==> new.given_out((#[trigger] old.nodes[n]).indices()),
        forall|n: int|
            0 <= n < old.edges.len() ==> new.given_out((#[trigger] old.edges[n]).indices()),
{
    assert forall|n: int| 0 <= n < old.nodes.len() implies new.given_out(
        (#[trigger] old.nodes[n]).indices(),
    ) by {
        assert(old.given_out(old.nodes[n].indices()));
    }
    assert forall|n: int| 0 <= n < old.edges.len() implies new.given_out(
        (#[trigger] old.edges[n]).indices(),
    ) by {
        assert(old.given_out(old.edges[n].indices()));
    }
}

proof fn grown_from_is_transitive(a: Graph, b: Graph, c: Graph)
    requires
        b.grown_from(a),
        c.grown_from(b),
    ensures
        c.grown_from(a),
{
    assert forall|x: Seq<char>| #[trigger] a.cache.dom().contains(x) implies c.cache.dom().contains(
        x,
    ) && a.cache[x] == c.cache[x] by {
        assert(b.cache.dom().contains(x));
    }
}

/// In a dense graph the cache is a numbering of the identifiers met: it holds
/// each of them once, no two of them share an index, and they are as many as
/// the indices given out.
pub proof fn dense_is_a_numbering(g: Graph)
    requires
        g.dense(),
    ensures
        g.names.no_duplicates(),
        g.cache.dom() == g.names.to_set(),
        g.cache.dom().finite(),
        g.cache.len() == g.names.len(),
        forall|x: Seq<char>, y: Seq<char>|
            g.cache.contains_key(x) && g.cache.contains_key(y) && g.cache[x].0 == g.cache[y].0
                ==> x == y,
{
    assert(g.cache.dom() =~= g.names.to_set()) by {
        assert forall|x: Seq<char>| g.cache.dom().contains(x) implies g.names.to_set().contains(
            x,
        ) by {
            assert(g.names[g.cache[x].0 as int] == x);
        }
    }
    g.names.unique_seq_to_set();
}

/// Resolving an identifier keeps a graph well formed and takes nothing back.
/// Where the identifier has an index or is given one, it has that index
/// afterwards, and the index is below the number of identifiers met.
pub proof fn resolving_keeps_dense(g: Graph, x: Seq<char>)
    requires
        g.wf(),
    ensures
        g.with_name(x).wf(),
        g.with_name(x).grown_from(g),
        g.index_for(x) matches Some(index) ==> g.with_name(x).cache.contains_key(x)
            && g.with_name(x).cache[x].0 == index && index < g.with_name(x).names.len(),
        g.index_for(x) is None ==> g.with_name(x) == g,
{
    growing_keeps_given_out(g, g.with_name(x));
}

proof fn noting_keeps_wf(g: Graph, error: ExtractError)
    requires
        g.wf(),
    ensures
        g.noted(error).wf(),
        g.noted(error).grown_from(g),
{
    growing_keeps_given_out(g, g.noted(error));
}

proof fn recording_node_keeps_wf(g: Graph, node: NodeView<u32>)
    requires
        g.wf(),
        g.given_out(node.indices()),
    ensures
        g.with_node(node).wf(),
        g.with_node(node).grown_from(g),
{
    growing_keeps_given_out(g, g.with_node(node));
}

proof fn recording_edge_keeps_wf(g: Graph, edge: Edge<u32>)
    requires
        g.wf(),
        g.given_out(edge.indices()),
    ensures
        g.with_edge(edge).wf(),
        g.with_edge(edge).grown_from(g),
{
    growing_keeps_given_out(g, g.with_edge(edge));
}

proof fn naming_keeps_wf(g: Graph, x: Seq<char>)
    requires
        g.wf(),
    ensures
        g.named(x).wf(),
        g.named(x).grown_from(g),
        g.index_for(x) matches Some(index) ==> index < g.named(x).names.len(),
        g.index_for(x) is None ==> ran_out(g.named(x)),
{
    resolving_keeps_dense(g, x);
    noting_keeps_wf(g, ExtractError::IndexSpaceExhausted);
    if g.index_for(x) is None {
        assert(g.named(x).errors[g.errors.len() as int] == ExtractError::IndexSpaceExhausted);
    }
}

proof fn declaring_keeps_wf(g: Graph, x: Seq<char>, vertex: spec_fn(u32) -> NodeView<u32>)
    requires
        g.wf(),
        forall|i: u32| (#[trigger] vertex(i)).indices() =~= seq![i],
    ensures
        g.declared(x, vertex).wf(),
        g.declared(x, vertex).grown_from(g),
        g.index_for(x) matches Some(index) ==> index < g.declared(x, vertex).names.len(),
        g.index_for(x) is None ==> ran_out(g.declared(x, vertex)),
{
    naming_keeps_wf(g, x);
    match g.outcome(x) {
        Some((false, index)) => {
            assert(vertex(index).indices() =~= seq![index]);
            recording_node_keeps_wf(g.named(x), vertex(index));
            grown_from_is_transitive(g, g.named(x), g.declared(x, vertex));
        },
        _ => {},
    }
}

proof fn gathering_keeps_wf(g: Graph, members: &Vec<ClassExpression>, n: nat)
    requires
        g.wf(),
    ensures
        g.gathered(members, n).0.wf(),
        g.gathered(members, n).0.grown_from(g),
        g.gathered(members, n).0.given_out(g.gathered(members, n).1),
    decreases n,
{
    if n > 0 && n <= members.len() {
        gathering_keeps_wf(g, members, (n - 1) as nat);
        let (graph, group) = g.gathered(members, (n - 1) as nat);
        match members[n - 1].plain() {
            Some(x) => {
                naming_keeps_wf(graph, x);
                grown_from_is_transitive(g, graph, graph.named(x));
            },
            None => {},
        }
    }
}

proof fn subclassing_keeps_wf(g: Graph, e: &SubClassOf)
    requires
        g.wf(),
    ensures
        g.subclassed(e).wf(),
        g.subclassed(e).grown_from(g),
{
    match (e.sub.plain(), e.sup.plain()) {
        (Some(sub), Some(sup)) => {
            let class = |i: u32| NodeView::Class(i);
            let first = g.declared(sub, class);
            let second = first.declared(sup, class);
            declaring_keeps_wf(g, sub, class);
            declaring_keeps_wf(first, sup, class);
            grown_from_is_transitive(g, first, second);
            match g.subclass_edge(e) {
                Some(edge) => {
                    recording_edge_keeps_wf(second, edge);
                    grown_from_is_transitive(g, second, g.subclassed(e));
                },
                None => {},
            }
        },
        _ => {
            noting_keeps_wf(g, ExtractError::CompositeSubClassOf);
        },
    }
}

proof fn asserting_keeps_wf(g: Graph, e: &ObjectPropertyAssertion)
    requires
        g.wf(),
    ensures
        g.asserted(e).wf(),
        g.asserted(e).grown_from(g),
{
    match e.ope {
        ObjectPropertyExpression::ObjectProperty(p) => {
            let first = g.named(p.0@);
            let second = first.named(e.from.name());
            let third = second.named(e.to.name());
            naming_keeps_wf(g, p.0@);
            naming_keeps_wf(first, e.from.name());
            naming_keeps_wf(second, e.to.name());
            grown_from_is_transitive(g, first, second);
            grown_from_is_transitive(g, second, third);
            match g.assertion_edge(e) {
                Some(edge) => {
                    recording_edge_keeps_wf(third, edge);
                    grown_from_is_transitive(g, third, g.asserted(e));
                },
                None => {},
            }
        },
        ObjectPropertyExpression::InverseObjectProperty(_) => {
            noting_keeps_wf(g, ExtractError::InverseObjectPropertyAssertion);
        },
    }
}

/// Every axiom keeps a graph well formed and takes nothing back: the indices
/// stay dense, every vertex and edge speaks of indices given out, and what the
/// graph held it holds in the same place.
pub proof fn absorbing_keeps_wf(g: Graph, e: &Component)
    requires
        g.wf(),
    ensures
        g.absorbed(e).wf(),
        g.absorbed(e).grown_from(g),
{
    match e {
        Component::DeclareClass(ax) => {
            declaring_keeps_wf(g, ax.0.0@, |i: u32| NodeView::Class(i));
        },
        Component::DeclareNamedIndividual(ax) => {
            declaring_keeps_wf(g, ax.0.0@, |i: u32| NodeView::Thing(i));
        },
        Component::EquivalentClasses(ax) => {
            gathering_keeps_wf(g, &ax.0, ax.0.len() as nat);
            let (graph, group) = g.gathered(&ax.0, ax.0.len() as nat);
            if group.len() > 0 {
                recording_node_keeps_wf(graph, NodeView::EquivalentClass(group));
                grown_from_is_transitive(g, graph, g.equated(ax));
            }
        },
        Component::SubClassOf(ax) => {
            subclassing_keeps_wf(g, ax);
        },
        Component::ObjectPropertyAssertion(ax) => {
            asserting_keeps_wf(g, ax);
        },
        _ => {},
    }
}

/// What `absorbing_keeps_wf` says of one axiom holds of any run of them.
pub proof fn absorbing_all_keeps_wf(g: Graph, items: &Vec<AnnotatedComponent>, n: nat)
    requires
        g.wf(),
    ensures
        g.absorbed_all(items, n).wf(),
        g.absorbed_all(items, n).grown_from(g),
    decreases n,
{
    if n > 0 && n <= items.len() {
        let before = g.absorbed_all(items, (n - 1) as nat);
        absorbing_all_keeps_wf(g, items, (n - 1) as nat);
        absorbing_keeps_wf(before, &items[n - 1].component);
        grown_from_is_transitive(g, before, g.absorbed_all(items, n));
    }
}

/// Walking an axiom leaves what the hook of its kind made of it: nothing below
/// an axiom moves the extractor, and nothing but the five watched kinds does.
pub proof fn walk_absorbs_component(s: Graph, c: Option<ThingView<u32>>, e: &Component)
    ensures
        walked_component::<u32, HornedVOWLExtract>(s, c, e) == s.absorbed(e),
{
    let c1 = HornedVOWLExtract::yields(s, c, Element::Component(e));
    match e {
        Component::EquivalentClasses(ax) => {
            quiet_class_expression_vec(
                s.equated(ax),
                HornedVOWLExtract::yields(s, c1, Element::EquivalentClasses(ax)),
                &ax.0,
            );
        },
        Component::SubClassOf(ax) => {
            let c2 = HornedVOWLExtract::yields(s, c1, Element::SubClassOf(ax));
            quiet_class_expression(s.subclassed(ax), c2, &ax.sup);
            quiet_class_expression(s.subclassed(ax), c2, &ax.sub);
        },
        Component::DisjointClasses(ax) => quiet_disjoint_classes(s, c1, ax),
        Component::DisjointUnion(ax) => quiet_disjoint_union(s, c1, ax),
        Component::SubObjectPropertyOf(ax) => quiet_sub_object_property_of(s, c1, ax),
        Component::EquivalentObjectProperties(ax) => quiet_equivalent_object_properties(s, c1, ax),
        Component::DisjointObjectProperties(ax) => quiet_disjoint_object_properties(s, c1, ax),
        Component::ObjectPropertyDomain(ax) => quiet_object_property_domain(s, c1, ax),
        Component::ObjectPropertyRange(ax) => quiet_object_property_range(s, c1, ax),
        Component::EquivalentDataProperties(ax) => quiet_equivalent_data_properties(s, c1, ax),
        Component::DisjointDataProperties(ax) => quiet_disjoint_data_properties(s, c1, ax),
        Component::DataPropertyDomain(ax) => quiet_data_property_domain(s, c1, ax),
        Component::DataPropertyRange(ax) => quiet_data_property_range(s, c1, ax),
        Component::DatatypeDefinition(ax) => quiet_datatype_definition(s, c1, ax),
        Component::HasKey(ax) => quiet_has_key(s, c1, ax),
        Component::SameIndividual(ax) => quiet_same_individual(s, c1, ax),
        Component::DifferentIndividuals(ax) => quiet_different_individuals(s, c1, ax),
        Component::ClassAssertion(ax) => quiet_class_assertion(s, c1, ax),
        Component::Rule(ax) => quiet_rule(s, c1, ax),
        _ => {},
    }
}

/// The annotations of an axiom move the extractor no more than what lies
/// below the axiom.
pub proof fn walk_absorbs_annotated_component(
    s: Graph,
    c: Option<ThingView<u32>>,
    e: &AnnotatedComponent,
)
    ensures
        walked_annotated_component::<u32, HornedVOWLExtract>(s, c, e) == s.absorbed(&e.component),
{
    let c1 = HornedVOWLExtract::yields(s, c, Element::AnnotatedComponent(e));
    walk_absorbs_component(s, c1, &e.component);
    quiet_annotation_set(s.absorbed(&e.component), c1, &e.ann);
}

/// A run of axioms leaves what they leave one after the other.
pub proof fn walk_absorbs_components(
    s: Graph,
    c: Option<ThingView<u32>>,
    items: &Vec<AnnotatedComponent>,
    n: nat,
)
    ensures
        walked_annotated_components::<u32, HornedVOWLExtract>(s, c, items, n) == s.absorbed_all(
            items,
            n,
        ),
    decreases n,
{
    if n > 0 && n <= items.len() {
        walk_absorbs_components(s, c, items, (n - 1) as nat);
        walk_absorbs_annotated_component(s.absorbed_all(items, (n - 1) as nat), c, &items[n - 1]);
    }
}

/// A document leaves the graph that its axioms leave one after the other, in
/// the order in which the document holds them: its identifier leaves nothing.
pub proof fn walk_absorbs_document(s: Graph, c: Option<ThingView<u32>>, document: &SetOntology)
    ensures
        walked_set_ontology::<u32, HornedVOWLExtract>(s, c, document) == s.absorbed_all(
            &document.components,
            document.components.len() as nat,
        ),
{
    let c1 = HornedVOWLExtract::yields(s, c, Element::SetOntology(document));
    walk_absorbs_components(s, c1, &document.components, document.components.len() as nat);
}

/// The graph of a document is well formed: the identifier first met at
/// place `i` has the index `i`, so that the indices are the numbers below the
/// count of the identifiers, each given to one of them; and every vertex and
/// edge speaks of such indices.
pub proof fn extracted_is_dense(document: &SetOntology)
    ensures
        extracted(document).wf(),
        extracted(document).cache.len() == extracted(document).names.len(),
{
    let empty = Graph::empty(u32::MAX as nat);
    walk_absorbs_document(empty, None, document);
    absorbing_all_keeps_wf(empty, &document.components, document.components.len() as nat);
    dense_is_a_numbering(extracted(document));
}

/// The number of subclass-of edges among `edges`.
pub open spec fn subclass_edges(edges: Seq<Edge<u32>>) -> nat
    decreases edges.len(),
{
    if edges.len() == 0 {
        0
    } else {
        subclass_edges(edges.drop_last()) + if edges.last() is SubclassOf {
            1nat
        } else {
            0nat
        }
    }
}

/// Whether `e` is a subclass-of axiom both sides of which are plain class
/// references.
pub open spec fn is_plain_subclass_axiom(e: &Component) -> bool {
    e matches Component::SubClassOf(ax) && ax.sub.plain() is Some && ax.sup.plain() is Some
}

/// The number of such axioms among the first `n` of `items`.
pub open spec fn plain_subclass_axioms(items: &Vec<AnnotatedComponent>, n: nat) -> nat
    decreases n,
{
    if n == 0 || n > items.len() {
        0
    } else {
        plain_subclass_axioms(items, (n - 1) as nat) + if is_plain_subclass_axiom(
            &items[n - 1].component,
        ) {
            1nat
        } else {
            0nat
        }
    }
}

/// The edge that the axiom at place `at` of `items` leaves, where it is a
/// subclass-of axiom and leaves one.
pub open spec fn subclass_edge_at(g: Graph, items: &Vec<AnnotatedComponent>, at: int) -> Option<
    Edge<u32>,
> {
    match items[at].component {
        Component::SubClassOf(ax) => g.absorbed_all(items, at as nat).subclass_edge(&ax),
        _ => None,
    }
}

/// Whether every subclass-of axiom among the first `n` of `items` whose
/// sides are both plain class references found an index for each side.
pub open spec fn subclass_axioms_found_indices(
    g: Graph,
    items: &Vec<AnnotatedComponent>,
    n: nat,
) -> bool {
    forall|at: int|
        0 <= at < n && at < items.len() && is_plain_subclass_axiom(&items[at].component)
            ==> (#[trigger] subclass_edge_at(g, items, at)) is Some
}

/// Whether an identifier was turned away for want of an index.
pub open spec fn ran_out(g: Graph) -> bool {
    g.errors.contains(ExtractError::IndexSpaceExhausted)
}

proof fn running_out_is_kept(old: Graph, new: Graph)
    requires
        new.grown_from(old),
        ran_out(old),
    ensures
        ran_out(new),
{
    let at = choose|at: int|
        0 <= at < old.errors.len() && old.errors[at] == ExtractError::IndexSpaceExhausted;
    assert(new.errors[at] == ExtractError::IndexSpaceExhausted);
}

proof fn one_more_edge(edges: Seq<Edge<u32>>, edge: Edge<u32>)
    ensures
        subclass_edges(edges.push(edge)) == subclass_edges(edges) + if edge is SubclassOf {
            1nat
        } else {
            0nat
        },
{
    assert(edges.push(edge).drop_last() =~= edges);
}

/// Whether `e` is a subclass-of axiom that leaves an edge.
spec fn leaves_subclass_edge(g: Graph, e: &Component) -> bool {
    e matches Component::SubClassOf(ax) && g.subclass_edge(ax) is Some
}

/// An axiom adds a subclass-of edge where it is a subclass-of axiom that
/// leaves one, and no axiom adds another.
proof fn absorbing_counts_subclass_edge(g: Graph, e: &Component)
    ensures
        subclass_edges(g.absorbed(e).edges) == subclass_edges(g.edges) + if leaves_subclass_edge(
            g,
            e,
        ) {
            1nat
        } else {
            0nat
        },
{
    match e {
        Component::EquivalentClasses(ax) => {
            gathering_keeps_edges(g, &ax.0, ax.0.len() as nat);
        },
        Component::SubClassOf(ax) => {
            match g.subclass_edge(ax) {
                Some(edge) => one_more_edge(g.edges, edge),
                None => {},
            }
        },
        Component::ObjectPropertyAssertion(ax) => {
            match g.assertion_edge(ax) {
                Some(edge) => one_more_edge(g.edges, edge),
                None => {},
            }
        },
        _ => {},
    }
}

proof fn gathering_keeps_edges(g: Graph, members: &Vec<ClassExpression>, n: nat)
    ensures
        g.gathered(members, n).0.edges == g.edges,
    decreases n,
{
    if n > 0 && n <= members.len() {
        gathering_keeps_edges(g, members, (n - 1) as nat);
    }
}

/// Where every subclass-of axiom whose sides are both plain class references
/// found an index for each side, a run of axioms adds one subclass-of edge for
/// each such axiom among them, and none besides.
pub proof fn subclass_edges_are_counted(g: Graph, items: &Vec<AnnotatedComponent>, n: nat)
    requires
        subclass_axioms_found_indices(g, items, n),
    ensures
        subclass_edges(g.absorbed_all(items, n).edges) == subclass_edges(g.edges)
            + plain_subclass_axioms(items, n),
    decreases n,
{
    if n > 0 && n <= items.len() {
        let before = g.absorbed_all(items, (n - 1) as nat);
        subclass_edges_are_counted(g, items, (n - 1) as nat);
        absorbing_counts_subclass_edge(before, &items[n - 1].component);
        if is_plain_subclass_axiom(&items[n - 1].component) {
            assert(subclass_edge_at(g, items, n - 1) is Some);
        }
    }
}

/// A subclass-of axiom whose sides are both plain class references finds an
/// index for each side unless an identifier is turned away.
proof fn finding_indices_or_running_out(g: Graph, e: &SubClassOf)
    requires
        g.wf(),
        e.sub.plain() is Some,
        e.sup.plain() is Some,
    ensures
        g.subclass_edge(e) is Some || ran_out(g.subclassed(e)),
{
    let class = |i: u32| NodeView::Class(i);
    let first = g.declared(e.sub.plain().unwrap(), class);
    let second = first.declared(e.sup.plain().unwrap(), class);
    declaring_keeps_wf(g, e.sub.plain().unwrap(), class);
    declaring_keeps_wf(first, e.sup.plain().unwrap(), class);
    if ran_out(first) {
        running_out_is_kept(first, second);
    }
}

/// Where no identifier was turned away in a run of axioms, every subclass-of
/// axiom among them whose sides are both plain class references found an index
/// for each side.
pub proof fn nothing_turned_away_suffices(g: Graph, items: &Vec<AnnotatedComponent>, n: nat)
    requires
        g.wf(),
        n <= items.len(),
        !ran_out(g.absorbed_all(items, n)),
    ensures
        subclass_axioms_found_indices(g, items, n),
{
    assert forall|at: int|
        0 <= at < n && at < items.len() && is_plain_subclass_axiom(
            &items[at].component,
        ) implies (#[trigger] subclass_edge_at(g, items, at)) is Some by {
        let before = g.absorbed_all(items, at as nat);
        let after = g.absorbed_all(items, (at + 1) as nat);
        absorbing_all_keeps_wf(g, items, at as nat);
        later_grows_from_earlier(g, items, (at + 1) as nat, n);
        match items[at].component {
            Component::SubClassOf(ax) => {
                finding_indices_or_running_out(before, &ax);
                if ran_out(after) {
                    running_out_is_kept(after, g.absorbed_all(items, n));
                }
            },
            _ => {},
        }
    }
}

proof fn later_grows_from_earlier(g: Graph, items: &Vec<AnnotatedComponent>, m: nat, n: nat)
    requires
        g.wf(),
        m <= n <= items.len(),
    ensures
        g.absorbed_all(items, n).grown_from(g.absorbed_all(items, m)),
    decreases n,
{
    if n > m {
        let before = g.absorbed_all(items, (n - 1) as nat);
        later_grows_from_earlier(g, items, m, (n - 1) as nat);
        absorbing_all_keeps_wf(g, items, (n - 1) as nat);
        absorbing_keeps_wf(before, &items[n - 1].component);
        grown_from_is_transitive(g.absorbed_all(items, m), before, g.absorbed_all(items, n));
    }
}

/// The graph of a document has as many subclass-of edges as the document has
/// subclass-of axioms whose sides are both plain class references, where each
/// of these found an index for each side; and each of its edges speaks of
/// indices that were given out.
pub proof fn extracted_subclass_edges(document: &SetOntology)
    requires
        subclass_axioms_found_indices(
            Graph::empty(u32::MAX as nat),
            &document.components,
            document.components.len() as nat,
        ),
    ensures
        subclass_edges(extracted(document).edges) == plain_subclass_axioms(
            &document.components,
            document.components.len() as nat,
        ),
        forall|n: int|
            0 <= n < extracted(document).edges.len() ==> extracted(document).given_out(
                #[trigger] extracted(document).edges[n].indices(),
            ),
{
    let empty = Graph::empty(u32::MAX as nat);
    walk_absorbs_document(empty, None, document);
    subclass_edges_are_counted(empty, &document.components, document.components.len() as nat);
    extracted_is_dense(document);
}

/// Two runs over one document end with the same vertices, the same edges and
/// the same cache.
pub proof fn extraction_is_repeatable(
    first: HornedVOWLExtract,
    second: HornedVOWLExtract,
    document: &SetOntology,
)
    requires
        first@ == extracted(document),
        second@ == extracted(document),
    ensures
        first@.nodes == second@.nodes,
        first@.edges == second@.edges,
        first@.cache == second@.cache,
{
}

} // verus!
