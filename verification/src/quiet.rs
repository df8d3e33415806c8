//! What the extractor takes no notice of.
//!
//! `HornedVOWLExtract` reacts to five kinds of axiom and to nothing below them.
//! The lemmas here show, kind by kind, that walking any other part of a
//! document leaves its graph as it was, whatever the context. Only the kinds
//! that hold a list or an expression nested in itself need a lemma: of the
//! others the definitions say as much.

use vstd::prelude::*;

use crate::extract::{Graph, HornedVOWLExtract};
use crate::graph::ThingView;
use crate::model::{
    Annotation, Atom, ClassAssertion, ClassExpression, DArgument, DataProperty,
    DataPropertyDomain, DataPropertyRange, DataRange, DatatypeDefinition, DifferentIndividuals,
    DisjointClasses, DisjointDataProperties, DisjointObjectProperties, DisjointUnion,
    EquivalentDataProperties, EquivalentObjectProperties, FacetRestriction, HasKey, Individual,
    Literal, ObjectPropertyDomain, ObjectPropertyExpression, ObjectPropertyRange,
    PropertyExpression, Rule, SameIndividual, SubObjectPropertyExpression, SubObjectPropertyOf,
};
use crate::visitor::{Element, Visit};
use crate::walk::{
    walked_annotation_set, walked_annotations, walked_atom, walked_atom_vec, walked_atoms,
    walked_class_assertion, walked_class_expression, walked_class_expression_vec,
    walked_class_expressions, walked_darg_vec, walked_dargs, walked_data_properties,
    walked_data_property_domain, walked_data_property_range, walked_data_property_vec,
    walked_data_range, walked_data_range_vec, walked_data_ranges, walked_datatype_definition,
    walked_different_individuals, walked_disjoint_classes, walked_disjoint_data_properties,
    walked_disjoint_object_properties, walked_disjoint_union,
    walked_equivalent_data_properties, walked_equivalent_object_properties,
    walked_facet_restriction_vec, walked_facet_restrictions, walked_has_key,
    walked_individual_vec, walked_individuals, walked_literal_vec, walked_literals,
    walked_object_property_domain, walked_object_property_expression_vec,
    walked_object_property_expressions, walked_object_property_range,
    walked_property_expressions, walked_rule, walked_same_individual,
    walked_sub_object_property_expression, walked_sub_object_property_of,
};

verus! {

pub(crate) proof fn quiet_disjoint_classes(s: Graph, c: Option<ThingView<u32>>, e: &DisjointClasses)
    ensures
        walked_disjoint_classes::<u32, HornedVOWLExtract>(s, c, e) == s,
{
    let c1 = HornedVOWLExtract::yields(s, c, Element::DisjointClasses(e));
    quiet_class_expression_vec(s, c1, &e.0);
}

pub(crate) proof fn quiet_disjoint_union(s: Graph, c: Option<ThingView<u32>>, e: &DisjointUnion)
    ensures
        walked_disjoint_union::<u32, HornedVOWLExtract>(s, c, e) == s,
{
    let c1 = HornedVOWLExtract::yields(s, c, Element::DisjointUnion(e));
    quiet_class_expression_vec(s, c1, &e.1);
}

pub(crate) proof fn quiet_sub_object_property_of(
    s: Graph,
    c: Option<ThingView<u32>>,
    e: &SubObjectPropertyOf,
)
    ensures
        walked_sub_object_property_of::<u32, HornedVOWLExtract>(s, c, e) == s,
{
    let c1 = HornedVOWLExtract::yields(s, c, Element::SubObjectPropertyOf(e));
    quiet_sub_object_property_expression(s, c1, &e.sub);
}

pub(crate) proof fn quiet_equivalent_object_properties(
    s: Graph,
    c: Option<ThingView<u32>>,
    e: &EquivalentObjectProperties,
)
    ensures
        walked_equivalent_object_properties::<u32, HornedVOWLExtract>(s, c, e) == s,
{
    let c1 = HornedVOWLExtract::yields(s, c, Element::EquivalentObjectProperties(e));
    quiet_object_property_expression_vec(s, c1, &e.0);
}

pub(crate) proof fn quiet_disjoint_object_properties(
    s: Graph,
    c: Option<ThingView<u32>>,
    e: &DisjointObjectProperties,
)
    ensures
        walked_disjoint_object_properties::<u32, HornedVOWLExtract>(s, c, e) == s,
{
    let c1 = HornedVOWLExtract::yields(s, c, Element::DisjointObjectProperties(e));
    quiet_object_property_expression_vec(s, c1, &e.0);
}

pub(crate) proof fn quiet_object_property_domain(
    s: Graph,
    c: Option<ThingView<u32>>,
    e: &ObjectPropertyDomain,
)
    ensures
        walked_object_property_domain::<u32, HornedVOWLExtract>(s, c, e) == s,
{
    let c1 = HornedVOWLExtract::yields(s, c, Element::ObjectPropertyDomain(e));
    quiet_class_expression(s, c1, &e.ce);
}

pub(crate) proof fn quiet_object_property_range(
    s: Graph,
    c: Option<ThingView<u32>>,
    e: &ObjectPropertyRange,
)
    ensures
        walked_object_property_range::<u32, HornedVOWLExtract>(s, c, e) == s,
{
    let c1 = HornedVOWLExtract::yields(s, c, Element::ObjectPropertyRange(e));
    quiet_class_expression(s, c1, &e.ce);
}

pub(crate) proof fn quiet_equivalent_data_properties(
    s: Graph,
    c: Option<ThingView<u32>>,
    e: &EquivalentDataProperties,
)
    ensures
        walked_equivalent_data_properties::<u32, HornedVOWLExtract>(s, c, e) == s,
{
    let c1 = HornedVOWLExtract::yields(s, c, Element::EquivalentDataProperties(e));
    quiet_data_property_vec(s, c1, &e.0);
}

pub(crate) proof fn quiet_disjoint_data_properties(
    s: Graph,
    c: Option<ThingView<u32>>,
    e: &DisjointDataProperties,
)
    ensures
        walked_disjoint_data_properties::<u32, HornedVOWLExtract>(s, c, e) == s,
{
    let c1 = HornedVOWLExtract::yields(s, c, Element::DisjointDataProperties(e));
    quiet_data_property_vec(s, c1, &e.0);
}

pub(crate) proof fn quiet_data_property_domain(
    s: Graph,
    c: Option<ThingView<u32>>,
    e: &DataPropertyDomain,
)
    ensures
        walked_data_property_domain::<u32, HornedVOWLExtract>(s, c, e) == s,
{
    let c1 = HornedVOWLExtract::yields(s, c, Element::DataPropertyDomain(e));
    quiet_class_expression(s, c1, &e.ce);
}

pub(crate) proof fn quiet_data_property_range(
    s: Graph,
    c: Option<ThingView<u32>>,
    e: &DataPropertyRange,
)
    ensures
        walked_data_property_range::<u32, HornedVOWLExtract>(s, c, e) == s,
{
    let c1 = HornedVOWLExtract::yields(s, c, Element::DataPropertyRange(e));
    quiet_data_range(s, c1, &e.dr);
}

pub(crate) proof fn quiet_datatype_definition(
    s: Graph,
    c: Option<ThingView<u32>>,
    e: &DatatypeDefinition,
)
    ensures
        walked_datatype_definition::<u32, HornedVOWLExtract>(s, c, e) == s,
{
    let c1 = HornedVOWLExtract::yields(s, c, Element::DatatypeDefinition(e));
    quiet_data_range(s, c1, &e.range);
}

pub(crate) proof fn quiet_has_key(s: Graph, c: Option<ThingView<u32>>, e: &HasKey)
    ensures
        walked_has_key::<u32, HornedVOWLExtract>(s, c, e) == s,
{
    let c1 = HornedVOWLExtract::yields(s, c, Element::HasKey(e));
    quiet_class_expression(s, c1, &e.ce);
    quiet_property_expressions(s, c1, &e.vpe, e.vpe.len() as nat);
}

pub(crate) proof fn quiet_property_expressions(
    s: Graph,
    c: Option<ThingView<u32>>,
    items: &Vec<PropertyExpression>,
    n: nat,
)
    ensures
        walked_property_expressions::<u32, HornedVOWLExtract>(s, c, items, n) == s,
    decreases n,
{
    if n > 0 && n <= items.len() {
        quiet_property_expressions(s, c, items, (n - 1) as nat);
    }
}

pub(crate) proof fn quiet_same_individual(s: Graph, c: Option<ThingView<u32>>, e: &SameIndividual)
    ensures
        walked_same_individual::<u32, HornedVOWLExtract>(s, c, e) == s,
{
    let c1 = HornedVOWLExtract::yields(s, c, Element::SameIndividual(e));
    quiet_individual_vec(s, c1, &e.0);
}

pub(crate) proof fn quiet_different_individuals(
    s: Graph,
    c: Option<ThingView<u32>>,
    e: &DifferentIndividuals,
)
    ensures
        walked_different_individuals::<u32, HornedVOWLExtract>(s, c, e) == s,
{
    let c1 = HornedVOWLExtract::yields(s, c, Element::DifferentIndividuals(e));
    quiet_individual_vec(s, c1, &e.0);
}

pub(crate) proof fn quiet_class_assertion(s: Graph, c: Option<ThingView<u32>>, e: &ClassAssertion)
    ensures
        walked_class_assertion::<u32, HornedVOWLExtract>(s, c, e) == s,
{
    let c1 = HornedVOWLExtract::yields(s, c, Element::ClassAssertion(e));
    quiet_class_expression(s, c1, &e.ce);
}

pub(crate) proof fn quiet_rule(s: Graph, c: Option<ThingView<u32>>, e: &Rule)
    ensures
        walked_rule::<u32, HornedVOWLExtract>(s, c, e) == s,
{
    let c1 = HornedVOWLExtract::yields(s, c, Element::Rule(e));
    quiet_atom_vec(s, c1, &e.head);
    quiet_atom_vec(s, c1, &e.body);
}

pub(crate) proof fn quiet_atom(s: Graph, c: Option<ThingView<u32>>, e: &Atom)
    ensures
        walked_atom::<u32, HornedVOWLExtract>(s, c, e) == s,
{
    let c1 = HornedVOWLExtract::yields(s, c, Element::Atom(e));
    match e {
        Atom::BuiltInAtom { pred, args } => quiet_darg_vec(s, c1, args),
        Atom::ClassAtom { pred, arg } => quiet_class_expression(s, c1, pred),
        Atom::DataPropertyAtom { pred, args } => {},
        Atom::DataRangeAtom { pred, arg } => quiet_data_range(s, c1, pred),
        Atom::DifferentIndividualsAtom(arg1, arg2) => {},
        Atom::ObjectPropertyAtom { pred, args } => {},
        Atom::SameIndividualAtom(arg1, arg2) => {},
    }
}

pub(crate) proof fn quiet_sub_object_property_expression(
    s: Graph,
    c: Option<ThingView<u32>>,
    e: &SubObjectPropertyExpression,
)
    ensures
        walked_sub_object_property_expression::<u32, HornedVOWLExtract>(s, c, e) == s,
{
    let c1 = HornedVOWLExtract::yields(s, c, Element::SubObjectPropertyExpression(e));
    match e {
        SubObjectPropertyExpression::ObjectPropertyChain(chain) => {
            quiet_object_property_expression_vec(s, c1, chain)
        },
        SubObjectPropertyExpression::ObjectPropertyExpression(ope) => {},
    }
}

pub(crate) proof fn quiet_data_range(s: Graph, c: Option<ThingView<u32>>, e: &DataRange)
    ensures
        walked_data_range::<u32, HornedVOWLExtract>(s, c, e) == s,
    decreases e, 0nat,
{
    let c1 = HornedVOWLExtract::yields(s, c, Element::DataRange(e));
    match e {
        DataRange::Datatype(dt) => {},
        DataRange::DataIntersectionOf(v) => quiet_data_range_vec(s, c1, v),
        DataRange::DataUnionOf(v) => quiet_data_range_vec(s, c1, v),
        DataRange::DataComplementOf(inner) => quiet_data_range(s, c1, inner),
        DataRange::DataOneOf(v) => quiet_literal_vec(s, c1, v),
        DataRange::DatatypeRestriction(dt, v) => quiet_facet_restriction_vec(s, c1, v),
    }
}

pub(crate) proof fn quiet_class_expression(s: Graph, c: Option<ThingView<u32>>, e: &ClassExpression)
    ensures
        walked_class_expression::<u32, HornedVOWLExtract>(s, c, e) == s,
    decreases e, 0nat,
{
    let c1 = HornedVOWLExtract::yields(s, c, Element::ClassExpression(e));
    match e {
        ClassExpression::Class(cls) => {},
        ClassExpression::ObjectIntersectionOf(v) => quiet_class_expression_vec(s, c1, v),
        ClassExpression::ObjectUnionOf(v) => quiet_class_expression_vec(s, c1, v),
        ClassExpression::ObjectComplementOf(inner) => quiet_class_expression(s, c1, inner),
        ClassExpression::ObjectOneOf(v) => quiet_individual_vec(s, c1, v),
        ClassExpression::ObjectSomeValuesFrom { ope, bce } => quiet_class_expression(s, c1, bce),
        ClassExpression::ObjectAllValuesFrom { ope, bce } => quiet_class_expression(s, c1, bce),
        ClassExpression::ObjectHasValue { ope, i } => {},
        ClassExpression::ObjectHasSelf(ope) => {},
        ClassExpression::ObjectMinCardinality { n, ope, bce } => quiet_class_expression(s, c1, bce),
        ClassExpression::ObjectMaxCardinality { n, ope, bce } => quiet_class_expression(s, c1, bce),
        ClassExpression::ObjectExactCardinality { n, ope, bce } => {
            quiet_class_expression(s, c1, bce)
        },
        ClassExpression::DataSomeValuesFrom { dp, dr } => quiet_data_range(s, c1, dr),
        ClassExpression::DataAllValuesFrom { dp, dr } => quiet_data_range(s, c1, dr),
        ClassExpression::DataHasValue { dp, l } => {},
        ClassExpression::DataMinCardinality { n, dp, dr } => quiet_data_range(s, c1, dr),
        ClassExpression::DataMaxCardinality { n, dp, dr } => quiet_data_range(s, c1, dr),
        ClassExpression::DataExactCardinality { n, dp, dr } => quiet_data_range(s, c1, dr),
    }
}

pub(crate) proof fn quiet_annotation_set(s: Graph, c: Option<ThingView<u32>>, e: &Vec<Annotation>)
    ensures
        walked_annotation_set::<u32, HornedVOWLExtract>(s, c, e) == s,
{
    let c1 = HornedVOWLExtract::yields(s, c, Element::AnnotationSet(e));
    quiet_annotations(s, c1, e, e.len() as nat);
}

pub(crate) proof fn quiet_annotations(
    s: Graph,
    c: Option<ThingView<u32>>,
    items: &Vec<Annotation>,
    n: nat,
)
    ensures
        walked_annotations::<u32, HornedVOWLExtract>(s, c, items, n) == s,
    decreases n,
{
    if n > 0 && n <= items.len() {
        quiet_annotations(s, c, items, (n - 1) as nat);
    }
}

pub(crate) proof fn quiet_class_expression_vec(
    s: Graph,
    c: Option<ThingView<u32>>,
    e: &Vec<ClassExpression>,
)
    ensures
        walked_class_expression_vec::<u32, HornedVOWLExtract>(s, c, e) == s,
    decreases e, 1nat,
{
    let c1 = HornedVOWLExtract::yields(s, c, Element::ClassExpressionVec(e));
    quiet_class_expressions(s, c1, e, e.len() as nat);
}

pub(crate) proof fn quiet_class_expressions(
    s: Graph,
    c: Option<ThingView<u32>>,
    items: &Vec<ClassExpression>,
    n: nat,
)
    ensures
        walked_class_expressions::<u32, HornedVOWLExtract>(s, c, items, n) == s,
    decreases items, 0nat, n,
{
    if n > 0 && n <= items.len() {
        quiet_class_expressions(s, c, items, (n - 1) as nat);
        quiet_class_expression(s, c, &items[n - 1]);
    }
}

pub(crate) proof fn quiet_object_property_expression_vec(
    s: Graph,
    c: Option<ThingView<u32>>,
    e: &Vec<ObjectPropertyExpression>,
)
    ensures
        walked_object_property_expression_vec::<u32, HornedVOWLExtract>(s, c, e) == s,
{
    let c1 = HornedVOWLExtract::yields(s, c, Element::ObjectPropertyExpressionVec(e));
    quiet_object_property_expressions(s, c1, e, e.len() as nat);
}

pub(crate) proof fn quiet_object_property_expressions(
    s: Graph,
    c: Option<ThingView<u32>>,
    items: &Vec<ObjectPropertyExpression>,
    n: nat,
)
    ensures
        walked_object_property_expressions::<u32, HornedVOWLExtract>(s, c, items, n) == s,
    decreases n,
{
    if n > 0 && n <= items.len() {
        quiet_object_property_expressions(s, c, items, (n - 1) as nat);
    }
}

pub(crate) proof fn quiet_data_property_vec(
    s: Graph,
    c: Option<ThingView<u32>>,
    e: &Vec<DataProperty>,
)
    ensures
        walked_data_property_vec::<u32, HornedVOWLExtract>(s, c, e) == s,
{
    let c1 = HornedVOWLExtract::yields(s, c, Element::DataPropertyVec(e));
    quiet_data_properties(s, c1, e, e.len() as nat);
}

pub(crate) proof fn quiet_data_properties(
    s: Graph,
    c: Option<ThingView<u32>>,
    items: &Vec<DataProperty>,
    n: nat,
)
    ensures
        walked_data_properties::<u32, HornedVOWLExtract>(s, c, items, n) == s,
    decreases n,
{
    if n > 0 && n <= items.len() {
        quiet_data_properties(s, c, items, (n - 1) as nat);
    }
}

pub(crate) proof fn quiet_individual_vec(s: Graph, c: Option<ThingView<u32>>, e: &Vec<Individual>)
    ensures
        walked_individual_vec::<u32, HornedVOWLExtract>(s, c, e) == s,
{
    let c1 = HornedVOWLExtract::yields(s, c, Element::IndividualVec(e));
    quiet_individuals(s, c1, e, e.len() as nat);
}

pub(crate) proof fn quiet_individuals(
    s: Graph,
    c: Option<ThingView<u32>>,
    items: &Vec<Individual>,
    n: nat,
)
    ensures
        walked_individuals::<u32, HornedVOWLExtract>(s, c, items, n) == s,
    decreases n,
{
    if n > 0 && n <= items.len() {
        quiet_individuals(s, c, items, (n - 1) as nat);
    }
}

pub(crate) proof fn quiet_literal_vec(s: Graph, c: Option<ThingView<u32>>, e: &Vec<Literal>)
    ensures
        walked_literal_vec::<u32, HornedVOWLExtract>(s, c, e) == s,
{
    let c1 = HornedVOWLExtract::yields(s, c, Element::LiteralVec(e));
    quiet_literals(s, c1, e, e.len() as nat);
}

pub(crate) proof fn quiet_literals(
    s: Graph,
    c: Option<ThingView<u32>>,
    items: &Vec<Literal>,
    n: nat,
)
    ensures
        walked_literals::<u32, HornedVOWLExtract>(s, c, items, n) == s,
    decreases n,
{
    if n > 0 && n <= items.len() {
        quiet_literals(s, c, items, (n - 1) as nat);
    }
}

pub(crate) proof fn quiet_facet_restriction_vec(
    s: Graph,
    c: Option<ThingView<u32>>,
    e: &Vec<FacetRestriction>,
)
    ensures
        walked_facet_restriction_vec::<u32, HornedVOWLExtract>(s, c, e) == s,
{
    let c1 = HornedVOWLExtract::yields(s, c, Element::FacetRestrictionVec(e));
    quiet_facet_restrictions(s, c1, e, e.len() as nat);
}

pub(crate) proof fn quiet_facet_restrictions(
    s: Graph,
    c: Option<ThingView<u32>>,
    items: &Vec<FacetRestriction>,
    n: nat,
)
    ensures
        walked_facet_restrictions::<u32, HornedVOWLExtract>(s, c, items, n) == s,
    decreases n,
{
    if n > 0 && n <= items.len() {
        quiet_facet_restrictions(s, c, items, (n - 1) as nat);
    }
}

pub(crate) proof fn quiet_data_range_vec(s: Graph, c: Option<ThingView<u32>>, e: &Vec<DataRange>)
    ensures
        walked_data_range_vec::<u32, HornedVOWLExtract>(s, c, e) == s,
    decreases e, 1nat,
{
    let c1 = HornedVOWLExtract::yields(s, c, Element::DataRangeVec(e));
    quiet_data_ranges(s, c1, e, e.len() as nat);
}

pub(crate) proof fn quiet_data_ranges(
    s: Graph,
    c: Option<ThingView<u32>>,
    items: &Vec<DataRange>,
    n: nat,
)
    ensures
        walked_data_ranges::<u32, HornedVOWLExtract>(s, c, items, n) == s,
    decreases items, 0nat, n,
{
    if n > 0 && n <= items.len() {
        quiet_data_ranges(s, c, items, (n - 1) as nat);
        quiet_data_range(s, c, &items[n - 1]);
    }
}

pub(crate) proof fn quiet_atom_vec(s: Graph, c: Option<ThingView<u32>>, e: &Vec<Atom>)
    ensures
        walked_atom_vec::<u32, HornedVOWLExtract>(s, c, e) == s,
{
    let c1 = HornedVOWLExtract::yields(s, c, Element::AtomVec(e));
    quiet_atoms(s, c1, e, e.len() as nat);
}

pub(crate) proof fn quiet_atoms(s: Graph, c: Option<ThingView<u32>>, items: &Vec<Atom>, n: nat)
    ensures
        walked_atoms::<u32, HornedVOWLExtract>(s, c, items, n) == s,
    decreases n,
{
    if n > 0 && n <= items.len() {
        quiet_atoms(s, c, items, (n - 1) as nat);
        quiet_atom(s, c, &items[n - 1]);
    }
}

pub(crate) proof fn quiet_darg_vec(s: Graph, c: Option<ThingView<u32>>, e: &Vec<DArgument>)
    ensures
        walked_darg_vec::<u32, HornedVOWLExtract>(s, c, e) == s,
{
    let c1 = HornedVOWLExtract::yields(s, c, Element::DArgumentVec(e));
    quiet_dargs(s, c1, e, e.len() as nat);
}

pub(crate) proof fn quiet_dargs(s: Graph, c: Option<ThingView<u32>>, items: &Vec<DArgument>, n: nat)
    ensures
        walked_dargs::<u32, HornedVOWLExtract>(s, c, items, n) == s,
    decreases n,
{
    if n > 0 && n <= items.len() {
        quiet_dargs(s, c, items, (n - 1) as nat);
    }
}

} // verus!
