//! The traversal of a document.
//!
//! `Walk` holds a visitor and drives it over a document, depth first: at every
//! node it calls the hook of the node's kind, then walks the node's children in
//! the order that the grammar fixes, handing each of them the value that this
//! hook returned. Which hooks run, in which order and with which context, is
//! stated by the spec functions `walked_*`: `walked_x(s, c, e)` is the visitor's
//! state once `e` has been walked from the state `s` with the context `c`. They
//! follow the grammar type by type; `crate::order` says the same of all kinds
//! of node at once.

use std::marker::PhantomData;
use vstd::prelude::*;

use crate::graph::{context, Kind, ThingView};
use crate::model::{
    AnnotatedComponent, Annotation, AnnotationAssertion, AnnotationProperty,
    AnnotationPropertyDomain, AnnotationPropertyRange, AnnotationSubject, AnnotationValue,
    AnonymousIndividual, AsymmetricObjectProperty, Atom, Class, ClassAssertion,
    ClassExpression, Component, DArgument, DataProperty, DataPropertyAssertion,
    DataPropertyDomain, DataPropertyRange, DataRange, Datatype, DatatypeDefinition,
    DeclareAnnotationProperty, DeclareClass, DeclareDataProperty, DeclareDatatype,
    DeclareNamedIndividual, DeclareObjectProperty, DifferentIndividuals, DisjointClasses,
    DisjointDataProperties, DisjointObjectProperties, DisjointUnion, DocIRI, EquivalentClasses,
    EquivalentDataProperties, EquivalentObjectProperties, Facet, FacetRestriction,
    FunctionalDataProperty, FunctionalObjectProperty, HasKey, IArgument, IRI, Import,
    Individual, InverseFunctionalObjectProperty, InverseObjectProperties,
    IrreflexiveObjectProperty, Literal, NamedIndividual, NegativeDataPropertyAssertion,
    NegativeObjectPropertyAssertion, ObjectProperty, ObjectPropertyAssertion,
    ObjectPropertyDomain, ObjectPropertyExpression, ObjectPropertyRange, OntologyAnnotation,
    OntologyID, PropertyExpression, ReflexiveObjectProperty, Rule, SameIndividual, SetOntology,
    SubAnnotationPropertyOf, SubClassOf, SubDataPropertyOf, SubObjectPropertyExpression,
    SubObjectPropertyOf, SymmetricObjectProperty, TransitiveObjectProperty, Variable,
};
use crate::visitor::{Element, Visit};

verus! {

pub open spec fn walked_iri<B, V: Visit<B>>(s: V::V, c: Option<ThingView<B>>, e: &IRI) -> V::V
{
    V::after(s, c, Element::Iri(e))
}

pub open spec fn walked_anonymous_individual<B, V: Visit<B>>(
    s: V::V,
    c: Option<ThingView<B>>,
    e: &AnonymousIndividual,
) -> V::V
{
    V::after(s, c, Element::AnonymousIndividual(e))
}

pub open spec fn walked_individual<B, V: Visit<B>>(
    s: V::V,
    c: Option<ThingView<B>>,
    e: &Individual,
) -> V::V
{
    let s1 = V::after(s, c, Element::Individual(e));
    let c1 = V::yields(s, c, Element::Individual(e));
    match e {
        Individual::Anonymous(a) => walked_anonymous_individual::<B, V>(s1, c1, a),
        Individual::Named(n) => walked_named_individual::<B, V>(s1, c1, n),
    }
}

pub open spec fn walked_annotation_subject<B, V: Visit<B>>(
    s: V::V,
    c: Option<ThingView<B>>,
    e: &AnnotationSubject,
) -> V::V
{
    let s1 = V::after(s, c, Element::AnnotationSubject(e));
    let c1 = V::yields(s, c, Element::AnnotationSubject(e));
    match e {
        AnnotationSubject::IRI(iri) => walked_iri::<B, V>(s1, c1, iri),
        AnnotationSubject::AnonymousIndividual(anon) => {
            walked_anonymous_individual::<B, V>(s1, c1, anon)
        },
    }
}

pub open spec fn walked_dociri<B, V: Visit<B>>(s: V::V, c: Option<ThingView<B>>, e: &DocIRI) -> V::V
{
    let s1 = V::after(s, c, Element::DocIRI(e));
    let c1 = V::yields(s, c, Element::DocIRI(e));
    walked_iri::<B, V>(s1, c1, &e.0)
}

pub open spec fn walked_class<B, V: Visit<B>>(s: V::V, c: Option<ThingView<B>>, e: &Class) -> V::V
{
    let s1 = V::after(s, c, Element::Class(e));
    let c1 = V::yields(s, c, Element::Class(e));
    walked_iri::<B, V>(s1, c1, &e.0)
}

pub open spec fn walked_datatype<B, V: Visit<B>>(
    s: V::V,
    c: Option<ThingView<B>>,
    e: &Datatype,
) -> V::V
{
    let s1 = V::after(s, c, Element::Datatype(e));
    let c1 = V::yields(s, c, Element::Datatype(e));
    walked_iri::<B, V>(s1, c1, &e.0)
}

pub open spec fn walked_object_property<B, V: Visit<B>>(
    s: V::V,
    c: Option<ThingView<B>>,
    e: &ObjectProperty,
) -> V::V
{
    let s1 = V::after(s, c, Element::ObjectProperty(e));
    let c1 = V::yields(s, c, Element::ObjectProperty(e));
    walked_iri::<B, V>(s1, c1, &e.0)
}

pub open spec fn walked_data_property<B, V: Visit<B>>(
    s: V::V,
    c: Option<ThingView<B>>,
    e: &DataProperty,
) -> V::V
{
    let s1 = V::after(s, c, Element::DataProperty(e));
    let c1 = V::yields(s, c, Element::DataProperty(e));
    walked_iri::<B, V>(s1, c1, &e.0)
}

pub open spec fn walked_annotation_property<B, V: Visit<B>>(
    s: V::V,
    c: Option<ThingView<B>>,
    e: &AnnotationProperty,
) -> V::V
{
    let s1 = V::after(s, c, Element::AnnotationProperty(e));
    let c1 = V::yields(s, c, Element::AnnotationProperty(e));
    walked_iri::<B, V>(s1, c1, &e.0)
}

pub open spec fn walked_named_individual<B, V: Visit<B>>(
    s: V::V,
    c: Option<ThingView<B>>,
    e: &NamedIndividual,
) -> V::V
{
    let s1 = V::after(s, c, Element::NamedIndividual(e));
    let c1 = V::yields(s, c, Element::NamedIndividual(e));
    walked_iri::<B, V>(s1, c1, &e.0)
}

pub open spec fn walked_annotated_component<B, V: Visit<B>>(
    s: V::V,
    c: Option<ThingView<B>>,
    e: &AnnotatedComponent,
) -> V::V
{
    let s1 = V::after(s, c, Element::AnnotatedComponent(e));
    let c1 = V::yields(s, c, Element::AnnotatedComponent(e));
    let s2 = walked_component::<B, V>(s1, c1, &e.component);
    walked_annotation_set::<B, V>(s2, c1, &e.ann)
}

pub open spec fn walked_component<B, V: Visit<B>>(
    s: V::V,
    c: Option<ThingView<B>>,
    e: &Component,
) -> V::V
{
    let s1 = V::after(s, c, Element::Component(e));
    let c1 = V::yields(s, c, Element::Component(e));
    match e {
        Component::OntologyID(ax) => walked_ontology_id::<B, V>(s1, c1, ax),
        Component::DocIRI(ax) => walked_dociri::<B, V>(s1, c1, ax),
        Component::Import(ax) => walked_import::<B, V>(s1, c1, ax),
        Component::OntologyAnnotation(ax) => walked_ontology_annotation::<B, V>(s1, c1, ax),
        Component::DeclareClass(ax) => walked_declare_class::<B, V>(s1, c1, ax),
        Component::DeclareObjectProperty(ax) => walked_declare_object_property::<B, V>(s1, c1, ax),
        Component::DeclareAnnotationProperty(ax) => {
            walked_declare_annotation_property::<B, V>(s1, c1, ax)
        },
        Component::DeclareDataProperty(ax) => walked_declare_data_property::<B, V>(s1, c1, ax),
        Component::DeclareNamedIndividual(ax) => {
            walked_declare_named_individual::<B, V>(s1, c1, ax)
        },
        Component::DeclareDatatype(ax) => walked_declare_datatype::<B, V>(s1, c1, ax),
        Component::SubClassOf(ax) => walked_sub_class_of::<B, V>(s1, c1, ax),
        Component::EquivalentClasses(ax) => walked_equivalent_classes::<B, V>(s1, c1, ax),
        Component::DisjointClasses(ax) => walked_disjoint_classes::<B, V>(s1, c1, ax),
        Component::DisjointUnion(ax) => walked_disjoint_union::<B, V>(s1, c1, ax),
        Component::SubObjectPropertyOf(ax) => walked_sub_object_property_of::<B, V>(s1, c1, ax),
        Component::EquivalentObjectProperties(ax) => {
            walked_equivalent_object_properties::<B, V>(s1, c1, ax)
        },
        Component::DisjointObjectProperties(ax) => {
            walked_disjoint_object_properties::<B, V>(s1, c1, ax)
        },
        Component::InverseObjectProperties(ax) => {
            walked_inverse_object_properties::<B, V>(s1, c1, ax)
        },
        Component::ObjectPropertyDomain(ax) => walked_object_property_domain::<B, V>(s1, c1, ax),
        Component::ObjectPropertyRange(ax) => walked_object_property_range::<B, V>(s1, c1, ax),
        Component::FunctionalObjectProperty(ax) => {
            walked_functional_object_property::<B, V>(s1, c1, ax)
        },
        Component::InverseFunctionalObjectProperty(ax) => {
            walked_inverse_functional_object_property::<B, V>(s1, c1, ax)
        },
        Component::ReflexiveObjectProperty(ax) => {
            walked_reflexive_object_property::<B, V>(s1, c1, ax)
        },
        Component::IrreflexiveObjectProperty(ax) => {
            walked_irreflexive_object_property::<B, V>(s1, c1, ax)
        },
        Component::SymmetricObjectProperty(ax) => {
            walked_symmetric_object_property::<B, V>(s1, c1, ax)
        },
        Component::AsymmetricObjectProperty(ax) => {
            walked_asymmetric_object_property::<B, V>(s1, c1, ax)
        },
        Component::TransitiveObjectProperty(ax) => {
            walked_transitive_object_property::<B, V>(s1, c1, ax)
        },
        Component::SubDataPropertyOf(ax) => walked_sub_data_property_of::<B, V>(s1, c1, ax),
        Component::EquivalentDataProperties(ax) => {
            walked_equivalent_data_properties::<B, V>(s1, c1, ax)
        },
        Component::DisjointDataProperties(ax) => {
            walked_disjoint_data_properties::<B, V>(s1, c1, ax)
        },
        Component::DataPropertyDomain(ax) => walked_data_property_domain::<B, V>(s1, c1, ax),
        Component::DataPropertyRange(ax) => walked_data_property_range::<B, V>(s1, c1, ax),
        Component::FunctionalDataProperty(ax) => {
            walked_functional_data_property::<B, V>(s1, c1, ax)
        },
        Component::DatatypeDefinition(ax) => walked_datatype_definition::<B, V>(s1, c1, ax),
        Component::HasKey(ax) => walked_has_key::<B, V>(s1, c1, ax),
        Component::SameIndividual(ax) => walked_same_individual::<B, V>(s1, c1, ax),
        Component::DifferentIndividuals(ax) => walked_different_individuals::<B, V>(s1, c1, ax),
        Component::ClassAssertion(ax) => walked_class_assertion::<B, V>(s1, c1, ax),
        Component::ObjectPropertyAssertion(ax) => {
            walked_object_property_assertion::<B, V>(s1, c1, ax)
        },
        Component::NegativeObjectPropertyAssertion(ax) => {
            walked_negative_object_property_assertion::<B, V>(s1, c1, ax)
        },
        Component::DataPropertyAssertion(ax) => walked_data_property_assertion::<B, V>(s1, c1, ax),
        Component::NegativeDataPropertyAssertion(ax) => {
            walked_negative_data_property_assertion::<B, V>(s1, c1, ax)
        },
        Component::AnnotationAssertion(ax) => walked_annotation_assertion::<B, V>(s1, c1, ax),
        Component::SubAnnotationPropertyOf(ax) => {
            walked_sub_annotation_property_of::<B, V>(s1, c1, ax)
        },
        Component::AnnotationPropertyDomain(ax) => {
            walked_annotation_property_domain::<B, V>(s1, c1, ax)
        },
        Component::AnnotationPropertyRange(ax) => {
            walked_annotation_property_range::<B, V>(s1, c1, ax)
        },
        Component::Rule(ax) => walked_rule::<B, V>(s1, c1, ax),
    }
}

pub open spec fn walked_import<B, V: Visit<B>>(s: V::V, c: Option<ThingView<B>>, e: &Import) -> V::V
{
    let s1 = V::after(s, c, Element::Import(e));
    let c1 = V::yields(s, c, Element::Import(e));
    walked_iri::<B, V>(s1, c1, &e.0)
}

pub open spec fn walked_ontology_annotation<B, V: Visit<B>>(
    s: V::V,
    c: Option<ThingView<B>>,
    e: &OntologyAnnotation,
) -> V::V
{
    let s1 = V::after(s, c, Element::OntologyAnnotation(e));
    let c1 = V::yields(s, c, Element::OntologyAnnotation(e));
    walked_annotation::<B, V>(s1, c1, &e.0)
}

pub open spec fn walked_declare_class<B, V: Visit<B>>(
    s: V::V,
    c: Option<ThingView<B>>,
    e: &DeclareClass,
) -> V::V
{
    let s1 = V::after(s, c, Element::DeclareClass(e));
    let c1 = V::yields(s, c, Element::DeclareClass(e));
    walked_class::<B, V>(s1, c1, &e.0)
}

pub open spec fn walked_declare_object_property<B, V: Visit<B>>(
    s: V::V,
    c: Option<ThingView<B>>,
    e: &DeclareObjectProperty,
) -> V::V
{
    let s1 = V::after(s, c, Element::DeclareObjectProperty(e));
    let c1 = V::yields(s, c, Element::DeclareObjectProperty(e));
    walked_object_property::<B, V>(s1, c1, &e.0)
}

pub open spec fn walked_declare_annotation_property<B, V: Visit<B>>(
    s: V::V,
    c: Option<ThingView<B>>,
    e: &DeclareAnnotationProperty,
) -> V::V
{
    let s1 = V::after(s, c, Element::DeclareAnnotationProperty(e));
    let c1 = V::yields(s, c, Element::DeclareAnnotationProperty(e));
    walked_annotation_property::<B, V>(s1, c1, &e.0)
}

pub open spec fn walked_declare_data_property<B, V: Visit<B>>(
    s: V::V,
    c: Option<ThingView<B>>,
    e: &DeclareDataProperty,
) -> V::V
{
    let s1 = V::after(s, c, Element::DeclareDataProperty(e));
    let c1 = V::yields(s, c, Element::DeclareDataProperty(e));
    walked_data_property::<B, V>(s1, c1, &e.0)
}

pub open spec fn walked_declare_named_individual<B, V: Visit<B>>(
    s: V::V,
    c: Option<ThingView<B>>,
    e: &DeclareNamedIndividual,
) -> V::V
{
    let s1 = V::after(s, c, Element::DeclareNamedIndividual(e));
    let c1 = V::yields(s, c, Element::DeclareNamedIndividual(e));
    walked_named_individual::<B, V>(s1, c1, &e.0)
}

pub open spec fn walked_declare_datatype<B, V: Visit<B>>(
    s: V::V,
    c: Option<ThingView<B>>,
    e: &DeclareDatatype,
) -> V::V
{
    let s1 = V::after(s, c, Element::DeclareDatatype(e));
    let c1 = V::yields(s, c, Element::DeclareDatatype(e));
    walked_datatype::<B, V>(s1, c1, &e.0)
}

pub open spec fn walked_sub_class_of<B, V: Visit<B>>(
    s: V::V,
    c: Option<ThingView<B>>,
    e: &SubClassOf,
) -> V::V
{
    let s1 = V::after(s, c, Element::SubClassOf(e));
    let c1 = V::yields(s, c, Element::SubClassOf(e));
    let s2 = walked_class_expression::<B, V>(s1, c1, &e.sup);
    walked_class_expression::<B, V>(s2, c1, &e.sub)
}

pub open spec fn walked_equivalent_classes<B, V: Visit<B>>(
    s: V::V,
    c: Option<ThingView<B>>,
    e: &EquivalentClasses,
) -> V::V
{
    let s1 = V::after(s, c, Element::EquivalentClasses(e));
    let c1 = V::yields(s, c, Element::EquivalentClasses(e));
    walked_class_expression_vec::<B, V>(s1, c1, &e.0)
}

pub open spec fn walked_disjoint_classes<B, V: Visit<B>>(
    s: V::V,
    c: Option<ThingView<B>>,
    e: &DisjointClasses,
) -> V::V
{
    let s1 = V::after(s, c, Element::DisjointClasses(e));
    let c1 = V::yields(s, c, Element::DisjointClasses(e));
    walked_class_expression_vec::<B, V>(s1, c1, &e.0)
}

pub open spec fn walked_disjoint_union<B, V: Visit<B>>(
    s: V::V,
    c: Option<ThingView<B>>,
    e: &DisjointUnion,
) -> V::V
{
    let s1 = V::after(s, c, Element::DisjointUnion(e));
    let c1 = V::yields(s, c, Element::DisjointUnion(e));
    let s2 = walked_class::<B, V>(s1, c1, &e.0);
    walked_class_expression_vec::<B, V>(s2, c1, &e.1)
}

pub open spec fn walked_sub_object_property_of<B, V: Visit<B>>(
    s: V::V,
    c: Option<ThingView<B>>,
    e: &SubObjectPropertyOf,
) -> V::V
{
    let s1 = V::after(s, c, Element::SubObjectPropertyOf(e));
    let c1 = V::yields(s, c, Element::SubObjectPropertyOf(e));
    let s2 = walked_object_property_expression::<B, V>(s1, c1, &e.sup);
    walked_sub_object_property_expression::<B, V>(s2, c1, &e.sub)
}

pub open spec fn walked_equivalent_object_properties<B, V: Visit<B>>(
    s: V::V,
    c: Option<ThingView<B>>,
    e: &EquivalentObjectProperties,
) -> V::V
{
    let s1 = V::after(s, c, Element::EquivalentObjectProperties(e));
    let c1 = V::yields(s, c, Element::EquivalentObjectProperties(e));
    walked_object_property_expression_vec::<B, V>(s1, c1, &e.0)
}

pub open spec fn walked_disjoint_object_properties<B, V: Visit<B>>(
    s: V::V,
    c: Option<ThingView<B>>,
    e: &DisjointObjectProperties,
) -> V::V
{
    let s1 = V::after(s, c, Element::DisjointObjectProperties(e));
    let c1 = V::yields(s, c, Element::DisjointObjectProperties(e));
    walked_object_property_expression_vec::<B, V>(s1, c1, &e.0)
}

pub open spec fn walked_inverse_object_properties<B, V: Visit<B>>(
    s: V::V,
    c: Option<ThingView<B>>,
    e: &InverseObjectProperties,
) -> V::V
{
    let s1 = V::after(s, c, Element::InverseObjectProperties(e));
    let c1 = V::yields(s, c, Element::InverseObjectProperties(e));
    let s2 = walked_object_property::<B, V>(s1, c1, &e.0);
    walked_object_property::<B, V>(s2, c1, &e.1)
}

pub open spec fn walked_object_property_domain<B, V: Visit<B>>(
    s: V::V,
    c: Option<ThingView<B>>,
    e: &ObjectPropertyDomain,
) -> V::V
{
    let s1 = V::after(s, c, Element::ObjectPropertyDomain(e));
    let c1 = V::yields(s, c, Element::ObjectPropertyDomain(e));
    let s2 = walked_object_property_expression::<B, V>(s1, c1, &e.ope);
    walked_class_expression::<B, V>(s2, c1, &e.ce)
}

pub open spec fn walked_object_property_range<B, V: Visit<B>>(
    s: V::V,
    c: Option<ThingView<B>>,
    e: &ObjectPropertyRange,
) -> V::V
{
    let s1 = V::after(s, c, Element::ObjectPropertyRange(e));
    let c1 = V::yields(s, c, Element::ObjectPropertyRange(e));
    let s2 = walked_object_property_expression::<B, V>(s1, c1, &e.ope);
    walked_class_expression::<B, V>(s2, c1, &e.ce)
}

pub open spec fn walked_functional_object_property<B, V: Visit<B>>(
    s: V::V,
    c: Option<ThingView<B>>,
    e: &FunctionalObjectProperty,
) -> V::V
{
    let s1 = V::after(s, c, Element::FunctionalObjectProperty(e));
    let c1 = V::yields(s, c, Element::FunctionalObjectProperty(e));
    walked_object_property_expression::<B, V>(s1, c1, &e.0)
}

pub open spec fn walked_inverse_functional_object_property<B, V: Visit<B>>(
    s: V::V,
    c: Option<ThingView<B>>,
    e: &InverseFunctionalObjectProperty,
) -> V::V
{
    let s1 = V::after(s, c, Element::InverseFunctionalObjectProperty(e));
    let c1 = V::yields(s, c, Element::InverseFunctionalObjectProperty(e));
    walked_object_property_expression::<B, V>(s1, c1, &e.0)
}

pub open spec fn walked_reflexive_object_property<B, V: Visit<B>>(
    s: V::V,
    c: Option<ThingView<B>>,
    e: &ReflexiveObjectProperty,
) -> V::V
{
    let s1 = V::after(s, c, Element::ReflexiveObjectProperty(e));
    let c1 = V::yields(s, c, Element::ReflexiveObjectProperty(e));
    walked_object_property_expression::<B, V>(s1, c1, &e.0)
}

pub open spec fn walked_irreflexive_object_property<B, V: Visit<B>>(
    s: V::V,
    c: Option<ThingView<B>>,
    e: &IrreflexiveObjectProperty,
) -> V::V
{
    let s1 = V::after(s, c, Element::IrreflexiveObjectProperty(e));
    let c1 = V::yields(s, c, Element::IrreflexiveObjectProperty(e));
    walked_object_property_expression::<B, V>(s1, c1, &e.0)
}

pub open spec fn walked_symmetric_object_property<B, V: Visit<B>>(
    s: V::V,
    c: Option<ThingView<B>>,
    e: &SymmetricObjectProperty,
) -> V::V
{
    let s1 = V::after(s, c, Element::SymmetricObjectProperty(e));
    let c1 = V::yields(s, c, Element::SymmetricObjectProperty(e));
    walked_object_property_expression::<B, V>(s1, c1, &e.0)
}

pub open spec fn walked_asymmetric_object_property<B, V: Visit<B>>(
    s: V::V,
    c: Option<ThingView<B>>,
    e: &AsymmetricObjectProperty,
) -> V::V
{
    let s1 = V::after(s, c, Element::AsymmetricObjectProperty(e));
    let c1 = V::yields(s, c, Element::AsymmetricObjectProperty(e));
    walked_object_property_expression::<B, V>(s1, c1, &e.0)
}

pub open spec fn walked_transitive_object_property<B, V: Visit<B>>(
    s: V::V,
    c: Option<ThingView<B>>,
    e: &TransitiveObjectProperty,
) -> V::V
{
    let s1 = V::after(s, c, Element::TransitiveObjectProperty(e));
    let c1 = V::yields(s, c, Element::TransitiveObjectProperty(e));
    walked_object_property_expression::<B, V>(s1, c1, &e.0)
}

pub open spec fn walked_sub_data_property_of<B, V: Visit<B>>(
    s: V::V,
    c: Option<ThingView<B>>,
    e: &SubDataPropertyOf,
) -> V::V
{
    let s1 = V::after(s, c, Element::SubDataPropertyOf(e));
    let c1 = V::yields(s, c, Element::SubDataPropertyOf(e));
    let s2 = walked_data_property::<B, V>(s1, c1, &e.sup);
    walked_data_property::<B, V>(s2, c1, &e.sub)
}

pub open spec fn walked_equivalent_data_properties<B, V: Visit<B>>(
    s: V::V,
    c: Option<ThingView<B>>,
    e: &EquivalentDataProperties,
) -> V::V
{
    let s1 = V::after(s, c, Element::EquivalentDataProperties(e));
    let c1 = V::yields(s, c, Element::EquivalentDataProperties(e));
    walked_data_property_vec::<B, V>(s1, c1, &e.0)
}

pub open spec fn walked_disjoint_data_properties<B, V: Visit<B>>(
    s: V::V,
    c: Option<ThingView<B>>,
    e: &DisjointDataProperties,
) -> V::V
{
    let s1 = V::after(s, c, Element::DisjointDataProperties(e));
    let c1 = V::yields(s, c, Element::DisjointDataProperties(e));
    walked_data_property_vec::<B, V>(s1, c1, &e.0)
}

pub open spec fn walked_data_property_domain<B, V: Visit<B>>(
    s: V::V,
    c: Option<ThingView<B>>,
    e: &DataPropertyDomain,
) -> V::V
{
    let s1 = V::after(s, c, Element::DataPropertyDomain(e));
    let c1 = V::yields(s, c, Element::DataPropertyDomain(e));
    let s2 = walked_data_property::<B, V>(s1, c1, &e.dp);
    walked_class_expression::<B, V>(s2, c1, &e.ce)
}

pub open spec fn walked_data_property_range<B, V: Visit<B>>(
    s: V::V,
    c: Option<ThingView<B>>,
    e: &DataPropertyRange,
) -> V::V
{
    let s1 = V::after(s, c, Element::DataPropertyRange(e));
    let c1 = V::yields(s, c, Element::DataPropertyRange(e));
    let s2 = walked_data_property::<B, V>(s1, c1, &e.dp);
    walked_data_range::<B, V>(s2, c1, &e.dr)
}

pub open spec fn walked_functional_data_property<B, V: Visit<B>>(
    s: V::V,
    c: Option<ThingView<B>>,
    e: &FunctionalDataProperty,
) -> V::V
{
    let s1 = V::after(s, c, Element::FunctionalDataProperty(e));
    let c1 = V::yields(s, c, Element::FunctionalDataProperty(e));
    walked_data_property::<B, V>(s1, c1, &e.0)
}

pub open spec fn walked_datatype_definition<B, V: Visit<B>>(
    s: V::V,
    c: Option<ThingView<B>>,
    e: &DatatypeDefinition,
) -> V::V
{
    let s1 = V::after(s, c, Element::DatatypeDefinition(e));
    let c1 = V::yields(s, c, Element::DatatypeDefinition(e));
    let s2 = walked_datatype::<B, V>(s1, c1, &e.kind);
    walked_data_range::<B, V>(s2, c1, &e.range)
}

pub open spec fn walked_has_key<B, V: Visit<B>>(
    s: V::V,
    c: Option<ThingView<B>>,
    e: &HasKey,
) -> V::V
{
    let s1 = V::after(s, c, Element::HasKey(e));
    let c1 = V::yields(s, c, Element::HasKey(e));
    let s2 = walked_class_expression::<B, V>(s1, c1, &e.ce);
    walked_property_expressions::<B, V>(s2, c1, &e.vpe, e.vpe.len() as nat)
}

/// The state once the first `n` members of `items` were walked from `s`, each
/// under the context `c`.
pub open spec fn walked_property_expressions<B, V: Visit<B>>(
    s: V::V,
    c: Option<ThingView<B>>,
    items: &Vec<PropertyExpression>,
    n: nat,
) -> V::V
    decreases n,
{
    if n == 0 || n > items.len() {
        s
    } else {
        walked_property_expression::<B, V>(
            walked_property_expressions::<B, V>(s, c, items, (n - 1) as nat),
            c,
            &items[n - 1],
        )
    }
}

pub open spec fn walked_same_individual<B, V: Visit<B>>(
    s: V::V,
    c: Option<ThingView<B>>,
    e: &SameIndividual,
) -> V::V
{
    let s1 = V::after(s, c, Element::SameIndividual(e));
    let c1 = V::yields(s, c, Element::SameIndividual(e));
    walked_individual_vec::<B, V>(s1, c1, &e.0)
}

pub open spec fn walked_different_individuals<B, V: Visit<B>>(
    s: V::V,
    c: Option<ThingView<B>>,
    e: &DifferentIndividuals,
) -> V::V
{
    let s1 = V::after(s, c, Element::DifferentIndividuals(e));
    let c1 = V::yields(s, c, Element::DifferentIndividuals(e));
    walked_individual_vec::<B, V>(s1, c1, &e.0)
}

pub open spec fn walked_class_assertion<B, V: Visit<B>>(
    s: V::V,
    c: Option<ThingView<B>>,
    e: &ClassAssertion,
) -> V::V
{
    let s1 = V::after(s, c, Element::ClassAssertion(e));
    let c1 = V::yields(s, c, Element::ClassAssertion(e));
    let s2 = walked_class_expression::<B, V>(s1, c1, &e.ce);
    walked_individual::<B, V>(s2, c1, &e.i)
}

pub open spec fn walked_object_property_assertion<B, V: Visit<B>>(
    s: V::V,
    c: Option<ThingView<B>>,
    e: &ObjectPropertyAssertion,
) -> V::V
{
    let s1 = V::after(s, c, Element::ObjectPropertyAssertion(e));
    let c1 = V::yields(s, c, Element::ObjectPropertyAssertion(e));
    let s2 = walked_object_property_expression::<B, V>(s1, c1, &e.ope);
    let s3 = walked_individual::<B, V>(s2, c1, &e.from);
    walked_individual::<B, V>(s3, c1, &e.to)
}

pub open spec fn walked_negative_object_property_assertion<B, V: Visit<B>>(
    s: V::V,
    c: Option<ThingView<B>>,
    e: &NegativeObjectPropertyAssertion,
) -> V::V
{
    let s1 = V::after(s, c, Element::NegativeObjectPropertyAssertion(e));
    let c1 = V::yields(s, c, Element::NegativeObjectPropertyAssertion(e));
    let s2 = walked_object_property_expression::<B, V>(s1, c1, &e.ope);
    let s3 = walked_individual::<B, V>(s2, c1, &e.from);
    walked_individual::<B, V>(s3, c1, &e.to)
}

pub open spec fn walked_data_property_assertion<B, V: Visit<B>>(
    s: V::V,
    c: Option<ThingView<B>>,
    e: &DataPropertyAssertion,
) -> V::V
{
    let s1 = V::after(s, c, Element::DataPropertyAssertion(e));
    let c1 = V::yields(s, c, Element::DataPropertyAssertion(e));
    let s2 = walked_data_property::<B, V>(s1, c1, &e.dp);
    let s3 = walked_individual::<B, V>(s2, c1, &e.from);
    walked_literal::<B, V>(s3, c1, &e.to)
}

pub open spec fn walked_negative_data_property_assertion<B, V: Visit<B>>(
    s: V::V,
    c: Option<ThingView<B>>,
    e: &NegativeDataPropertyAssertion,
) -> V::V
{
    let s1 = V::after(s, c, Element::NegativeDataPropertyAssertion(e));
    let c1 = V::yields(s, c, Element::NegativeDataPropertyAssertion(e));
    let s2 = walked_data_property::<B, V>(s1, c1, &e.dp);
    let s3 = walked_individual::<B, V>(s2, c1, &e.from);
    walked_literal::<B, V>(s3, c1, &e.to)
}

pub open spec fn walked_annotation_assertion<B, V: Visit<B>>(
    s: V::V,
    c: Option<ThingView<B>>,
    e: &AnnotationAssertion,
) -> V::V
{
    let s1 = V::after(s, c, Element::AnnotationAssertion(e));
    let c1 = V::yields(s, c, Element::AnnotationAssertion(e));
    let s2 = walked_annotation_subject::<B, V>(s1, c1, &e.subject);
    walked_annotation::<B, V>(s2, c1, &e.ann)
}

pub open spec fn walked_sub_annotation_property_of<B, V: Visit<B>>(
    s: V::V,
    c: Option<ThingView<B>>,
    e: &SubAnnotationPropertyOf,
) -> V::V
{
    let s1 = V::after(s, c, Element::SubAnnotationPropertyOf(e));
    let c1 = V::yields(s, c, Element::SubAnnotationPropertyOf(e));
    let s2 = walked_annotation_property::<B, V>(s1, c1, &e.sup);
    walked_annotation_property::<B, V>(s2, c1, &e.sub)
}

pub open spec fn walked_annotation_property_domain<B, V: Visit<B>>(
    s: V::V,
    c: Option<ThingView<B>>,
    e: &AnnotationPropertyDomain,
) -> V::V
{
    let s1 = V::after(s, c, Element::AnnotationPropertyDomain(e));
    let c1 = V::yields(s, c, Element::AnnotationPropertyDomain(e));
    let s2 = walked_annotation_property::<B, V>(s1, c1, &e.ap);
    walked_iri::<B, V>(s2, c1, &e.iri)
}

pub open spec fn walked_annotation_property_range<B, V: Visit<B>>(
    s: V::V,
    c: Option<ThingView<B>>,
    e: &AnnotationPropertyRange,
) -> V::V
{
    let s1 = V::after(s, c, Element::AnnotationPropertyRange(e));
    let c1 = V::yields(s, c, Element::AnnotationPropertyRange(e));
    let s2 = walked_annotation_property::<B, V>(s1, c1, &e.ap);
    walked_iri::<B, V>(s2, c1, &e.iri)
}

pub open spec fn walked_rule<B, V: Visit<B>>(s: V::V, c: Option<ThingView<B>>, e: &Rule) -> V::V
{
    let s1 = V::after(s, c, Element::Rule(e));
    let c1 = V::yields(s, c, Element::Rule(e));
    let s2 = walked_atom_vec::<B, V>(s1, c1, &e.head);
    walked_atom_vec::<B, V>(s2, c1, &e.body)
}

pub open spec fn walked_atom<B, V: Visit<B>>(s: V::V, c: Option<ThingView<B>>, e: &Atom) -> V::V
{
    let s1 = V::after(s, c, Element::Atom(e));
    let c1 = V::yields(s, c, Element::Atom(e));
    match e {
        Atom::BuiltInAtom { pred, args } => {
            let s2 = walked_iri::<B, V>(s1, c1, pred);
            walked_darg_vec::<B, V>(s2, c1, args)
        },
        Atom::ClassAtom { pred, arg } => {
            let s2 = walked_class_expression::<B, V>(s1, c1, pred);
            walked_iarg::<B, V>(s2, c1, arg)
        },
        Atom::DataPropertyAtom { pred, args } => {
            let s2 = walked_data_property::<B, V>(s1, c1, pred);
            let s3 = walked_darg::<B, V>(s2, c1, &args.0);
            walked_darg::<B, V>(s3, c1, &args.1)
        },
        Atom::DataRangeAtom { pred, arg } => {
            let s2 = walked_data_range::<B, V>(s1, c1, pred);
            walked_darg::<B, V>(s2, c1, arg)
        },
        Atom::DifferentIndividualsAtom(arg1, arg2) => {
            let s2 = walked_iarg::<B, V>(s1, c1, arg1);
            walked_iarg::<B, V>(s2, c1, arg2)
        },
        Atom::ObjectPropertyAtom { pred, args } => {
            let s2 = walked_object_property_expression::<B, V>(s1, c1, pred);
            let s3 = walked_iarg::<B, V>(s2, c1, &args.0);
            walked_iarg::<B, V>(s3, c1, &args.1)
        },
        Atom::SameIndividualAtom(arg1, arg2) => {
            let s2 = walked_iarg::<B, V>(s1, c1, arg1);
            walked_iarg::<B, V>(s2, c1, arg2)
        },
    }
}

pub open spec fn walked_variable<B, V: Visit<B>>(
    s: V::V,
    c: Option<ThingView<B>>,
    e: &Variable,
) -> V::V
{
    V::after(s, c, Element::Variable(e))
}

pub open spec fn walked_darg<B, V: Visit<B>>(
    s: V::V,
    c: Option<ThingView<B>>,
    e: &DArgument,
) -> V::V
{
    let s1 = V::after(s, c, Element::DArgument(e));
    let c1 = V::yields(s, c, Element::DArgument(e));
    match e {
        DArgument::Literal(l) => walked_literal::<B, V>(s1, c1, l),
        DArgument::Variable(v) => walked_variable::<B, V>(s1, c1, v),
    }
}

pub open spec fn walked_iarg<B, V: Visit<B>>(
    s: V::V,
    c: Option<ThingView<B>>,
    e: &IArgument,
) -> V::V
{
    let s1 = V::after(s, c, Element::IArgument(e));
    let c1 = V::yields(s, c, Element::IArgument(e));
    match e {
        IArgument::Individual(i) => walked_individual::<B, V>(s1, c1, i),
        IArgument::Variable(v) => walked_variable::<B, V>(s1, c1, v),
    }
}

pub open spec fn walked_literal<B, V: Visit<B>>(
    s: V::V,
    c: Option<ThingView<B>>,
    e: &Literal,
) -> V::V
{
    let s1 = V::after(s, c, Element::Literal(e));
    let c1 = V::yields(s, c, Element::Literal(e));
    match e {
        Literal::Simple { literal } => V::after(s1, c1, Element::Str(literal)),
        Literal::Language { literal, lang } => {
            let s2 = V::after(s1, c1, Element::Str(literal));
            V::after(s2, c1, Element::Str(lang))
        },
        Literal::Datatype { literal: _, datatype_iri } => walked_iri::<B, V>(s1, c1, datatype_iri),
    }
}

pub open spec fn walked_annotation<B, V: Visit<B>>(
    s: V::V,
    c: Option<ThingView<B>>,
    e: &Annotation,
) -> V::V
{
    let s1 = V::after(s, c, Element::Annotation(e));
    let c1 = V::yields(s, c, Element::Annotation(e));
    let s2 = walked_annotation_property::<B, V>(s1, c1, &e.ap);
    walked_annotation_value::<B, V>(s2, c1, &e.av)
}

pub open spec fn walked_annotation_value<B, V: Visit<B>>(
    s: V::V,
    c: Option<ThingView<B>>,
    e: &AnnotationValue,
) -> V::V
{
    let s1 = V::after(s, c, Element::AnnotationValue(e));
    let c1 = V::yields(s, c, Element::AnnotationValue(e));
    match e {
        AnnotationValue::Literal(lit) => walked_literal::<B, V>(s1, c1, lit),
        AnnotationValue::IRI(iri) => walked_iri::<B, V>(s1, c1, iri),
        AnnotationValue::AnonymousIndividual(anon) => {
            walked_anonymous_individual::<B, V>(s1, c1, anon)
        },
    }
}

pub open spec fn walked_object_property_expression<B, V: Visit<B>>(
    s: V::V,
    c: Option<ThingView<B>>,
    e: &ObjectPropertyExpression,
) -> V::V
{
    let s1 = V::after(s, c, Element::ObjectPropertyExpression(e));
    let c1 = V::yields(s, c, Element::ObjectPropertyExpression(e));
    match e {
        ObjectPropertyExpression::ObjectProperty(prop) => {
            walked_object_property::<B, V>(s1, c1, prop)
        },
        ObjectPropertyExpression::InverseObjectProperty(prop) => {
            walked_object_property::<B, V>(s1, c1, prop)
        },
    }
}

pub open spec fn walked_sub_object_property_expression<B, V: Visit<B>>(
    s: V::V,
    c: Option<ThingView<B>>,
    e: &SubObjectPropertyExpression,
) -> V::V
{
    let s1 = V::after(s, c, Element::SubObjectPropertyExpression(e));
    let c1 = V::yields(s, c, Element::SubObjectPropertyExpression(e));
    match e {
        SubObjectPropertyExpression::ObjectPropertyChain(chain) => {
            walked_object_property_expression_vec::<B, V>(s1, c1, chain)
        },
        SubObjectPropertyExpression::ObjectPropertyExpression(ope) => {
            walked_object_property_expression::<B, V>(s1, c1, ope)
        },
    }
}

pub open spec fn walked_property_expression<B, V: Visit<B>>(
    s: V::V,
    c: Option<ThingView<B>>,
    e: &PropertyExpression,
) -> V::V
{
    let s1 = V::after(s, c, Element::PropertyExpression(e));
    let c1 = V::yields(s, c, Element::PropertyExpression(e));
    match e {
        PropertyExpression::ObjectPropertyExpression(ope) => {
            walked_object_property_expression::<B, V>(s1, c1, ope)
        },
        PropertyExpression::DataProperty(dp) => walked_data_property::<B, V>(s1, c1, dp),
        PropertyExpression::AnnotationProperty(ap) => {
            walked_annotation_property::<B, V>(s1, c1, ap)
        },
    }
}

pub open spec fn walked_facet_restriction<B, V: Visit<B>>(
    s: V::V,
    c: Option<ThingView<B>>,
    e: &FacetRestriction,
) -> V::V
{
    let s1 = V::after(s, c, Element::FacetRestriction(e));
    let c1 = V::yields(s, c, Element::FacetRestriction(e));
    let s2 = walked_facet::<B, V>(s1, c1, &e.f);
    walked_literal::<B, V>(s2, c1, &e.l)
}

pub open spec fn walked_facet<B, V: Visit<B>>(s: V::V, c: Option<ThingView<B>>, e: &Facet) -> V::V
{
    V::after(s, c, Element::Facet(e))
}

pub open spec fn walked_data_range<B, V: Visit<B>>(
    s: V::V,
    c: Option<ThingView<B>>,
    e: &DataRange,
) -> V::V
    decreases e, 0nat,
{
    let s1 = V::after(s, c, Element::DataRange(e));
    let c1 = V::yields(s, c, Element::DataRange(e));
    match e {
        DataRange::Datatype(dt) => walked_datatype::<B, V>(s1, c1, dt),
        DataRange::DataIntersectionOf(v) => walked_data_range_vec::<B, V>(s1, c1, v),
        DataRange::DataUnionOf(v) => walked_data_range_vec::<B, V>(s1, c1, v),
        DataRange::DataComplementOf(inner) => walked_data_range::<B, V>(s1, c1, inner),
        DataRange::DataOneOf(v) => walked_literal_vec::<B, V>(s1, c1, v),
        DataRange::DatatypeRestriction(dt, v) => {
            let s2 = walked_datatype::<B, V>(s1, c1, dt);
            walked_facet_restriction_vec::<B, V>(s2, c1, v)
        },
    }
}

pub open spec fn walked_class_expression<B, V: Visit<B>>(
    s: V::V,
    c: Option<ThingView<B>>,
    e: &ClassExpression,
) -> V::V
    decreases e, 0nat,
{
    let s1 = V::after(s, c, Element::ClassExpression(e));
    let c1 = V::yields(s, c, Element::ClassExpression(e));
    match e {
        ClassExpression::Class(cls) => walked_class::<B, V>(s1, c1, cls),
        ClassExpression::ObjectIntersectionOf(v) => walked_class_expression_vec::<B, V>(s1, c1, v),
        ClassExpression::ObjectUnionOf(v) => walked_class_expression_vec::<B, V>(s1, c1, v),
        ClassExpression::ObjectComplementOf(inner) => {
            walked_class_expression::<B, V>(s1, c1, inner)
        },
        ClassExpression::ObjectOneOf(v) => walked_individual_vec::<B, V>(s1, c1, v),
        ClassExpression::ObjectSomeValuesFrom { ope, bce } => {
            let s2 = walked_object_property_expression::<B, V>(s1, c1, ope);
            walked_class_expression::<B, V>(s2, c1, bce)
        },
        ClassExpression::ObjectAllValuesFrom { ope, bce } => {
            let s2 = walked_object_property_expression::<B, V>(s1, c1, ope);
            walked_class_expression::<B, V>(s2, c1, bce)
        },
        ClassExpression::ObjectHasValue { ope, i } => {
            let s2 = walked_object_property_expression::<B, V>(s1, c1, ope);
            walked_individual::<B, V>(s2, c1, i)
        },
        ClassExpression::ObjectHasSelf(ope) => {
            walked_object_property_expression::<B, V>(s1, c1, ope)
        },
        ClassExpression::ObjectMinCardinality { n, ope, bce } => {
            let s2 = V::after(s1, c1, Element::U32(n));
            let s3 = walked_object_property_expression::<B, V>(s2, c1, ope);
            walked_class_expression::<B, V>(s3, c1, bce)
        },
        ClassExpression::ObjectMaxCardinality { n, ope, bce } => {
            let s2 = V::after(s1, c1, Element::U32(n));
            let s3 = walked_object_property_expression::<B, V>(s2, c1, ope);
            walked_class_expression::<B, V>(s3, c1, bce)
        },
        ClassExpression::ObjectExactCardinality { n, ope, bce } => {
            let s2 = V::after(s1, c1, Element::U32(n));
            let s3 = walked_object_property_expression::<B, V>(s2, c1, ope);
            walked_class_expression::<B, V>(s3, c1, bce)
        },
        ClassExpression::DataSomeValuesFrom { dp, dr } => {
            let s2 = walked_data_property::<B, V>(s1, c1, dp);
            walked_data_range::<B, V>(s2, c1, dr)
        },
        ClassExpression::DataAllValuesFrom { dp, dr } => {
            let s2 = walked_data_property::<B, V>(s1, c1, dp);
            walked_data_range::<B, V>(s2, c1, dr)
        },
        ClassExpression::DataHasValue { dp, l } => {
            let s2 = walked_data_property::<B, V>(s1, c1, dp);
            walked_literal::<B, V>(s2, c1, l)
        },
        ClassExpression::DataMinCardinality { n, dp, dr } => {
            let s2 = V::after(s1, c1, Element::U32(n));
            let s3 = walked_data_property::<B, V>(s2, c1, dp);
            walked_data_range::<B, V>(s3, c1, dr)
        },
        ClassExpression::DataMaxCardinality { n, dp, dr } => {
            let s2 = V::after(s1, c1, Element::U32(n));
            let s3 = walked_data_property::<B, V>(s2, c1, dp);
            walked_data_range::<B, V>(s3, c1, dr)
        },
        ClassExpression::DataExactCardinality { n, dp, dr } => {
            let s2 = V::after(s1, c1, Element::U32(n));
            let s3 = walked_data_property::<B, V>(s2, c1, dp);
            walked_data_range::<B, V>(s3, c1, dr)
        },
    }
}

pub open spec fn walked_ontology_id<B, V: Visit<B>>(
    s: V::V,
    c: Option<ThingView<B>>,
    e: &OntologyID,
) -> V::V
{
    let s1 = V::after(s, c, Element::OntologyID(e));
    let c1 = V::yields(s, c, Element::OntologyID(e));
    let s2 = walked_option_iri::<B, V>(s1, c1, &e.iri);
    walked_option_iri::<B, V>(s2, c1, &e.viri)
}

pub open spec fn walked_set_ontology<B, V: Visit<B>>(
    s: V::V,
    c: Option<ThingView<B>>,
    e: &SetOntology,
) -> V::V
{
    let s1 = V::after(s, c, Element::SetOntology(e));
    let c1 = V::yields(s, c, Element::SetOntology(e));
    let s2 = walked_ontology_id::<B, V>(s1, c1, &e.id);
    walked_annotated_components::<B, V>(s2, c1, &e.components, e.components.len() as nat)
}

/// The state once the first `n` members of `items` were walked from `s`, each
/// under the context `c`.
pub open spec fn walked_annotated_components<B, V: Visit<B>>(
    s: V::V,
    c: Option<ThingView<B>>,
    items: &Vec<AnnotatedComponent>,
    n: nat,
) -> V::V
    decreases n,
{
    if n == 0 || n > items.len() {
        s
    } else {
        walked_annotated_component::<B, V>(
            walked_annotated_components::<B, V>(s, c, items, (n - 1) as nat),
            c,
            &items[n - 1],
        )
    }
}

pub open spec fn walked_option_iri<B, V: Visit<B>>(
    s: V::V,
    c: Option<ThingView<B>>,
    e: &Option<IRI>,
) -> V::V
{
    let s1 = V::after(s, c, Element::OptionIri(e));
    let c1 = V::yields(s, c, Element::OptionIri(e));
    match e {
        Some(iri) => walked_iri::<B, V>(s1, c1, iri),
        None => s1,
    }
}

pub open spec fn walked_annotation_set<B, V: Visit<B>>(
    s: V::V,
    c: Option<ThingView<B>>,
    e: &Vec<Annotation>,
) -> V::V
{
    let s1 = V::after(s, c, Element::AnnotationSet(e));
    let c1 = V::yields(s, c, Element::AnnotationSet(e));
    walked_annotations::<B, V>(s1, c1, e, e.len() as nat)
}

/// The state once the first `n` members of `items` were walked from `s`, each
/// under the context `c`.
pub open spec fn walked_annotations<B, V: Visit<B>>(
    s: V::V,
    c: Option<ThingView<B>>,
    items: &Vec<Annotation>,
    n: nat,
) -> V::V
    decreases n,
{
    if n == 0 || n > items.len() {
        s
    } else {
        walked_annotation::<B, V>(
            walked_annotations::<B, V>(s, c, items, (n - 1) as nat),
            c,
            &items[n - 1],
        )
    }
}

pub open spec fn walked_class_expression_vec<B, V: Visit<B>>(
    s: V::V,
    c: Option<ThingView<B>>,
    e: &Vec<ClassExpression>,
) -> V::V
    decreases e, 1nat,
{
    let s1 = V::after(s, c, Element::ClassExpressionVec(e));
    let c1 = V::yields(s, c, Element::ClassExpressionVec(e));
    walked_class_expressions::<B, V>(s1, c1, e, e.len() as nat)
}

/// The state once the first `n` members of `items` were walked from `s`, each
/// under the context `c`.
pub open spec fn walked_class_expressions<B, V: Visit<B>>(
    s: V::V,
    c: Option<ThingView<B>>,
    items: &Vec<ClassExpression>,
    n: nat,
) -> V::V
    decreases items, 0nat, n,
{
    if n == 0 || n > items.len() {
        s
    } else {
        walked_class_expression::<B, V>(
            walked_class_expressions::<B, V>(s, c, items, (n - 1) as nat),
            c,
            &items[n - 1],
        )
    }
}

pub open spec fn walked_object_property_expression_vec<B, V: Visit<B>>(
    s: V::V,
    c: Option<ThingView<B>>,
    e: &Vec<ObjectPropertyExpression>,
) -> V::V
{
    let s1 = V::after(s, c, Element::ObjectPropertyExpressionVec(e));
    let c1 = V::yields(s, c, Element::ObjectPropertyExpressionVec(e));
    walked_object_property_expressions::<B, V>(s1, c1, e, e.len() as nat)
}

/// The state once the first `n` members of `items` were walked from `s`, each
/// under the context `c`.
pub open spec fn walked_object_property_expressions<B, V: Visit<B>>(
    s: V::V,
    c: Option<ThingView<B>>,
    items: &Vec<ObjectPropertyExpression>,
    n: nat,
) -> V::V
    decreases n,
{
    if n == 0 || n > items.len() {
        s
    } else {
        walked_object_property_expression::<B, V>(
            walked_object_property_expressions::<B, V>(s, c, items, (n - 1) as nat),
            c,
            &items[n - 1],
        )
    }
}

pub open spec fn walked_data_property_vec<B, V: Visit<B>>(
    s: V::V,
    c: Option<ThingView<B>>,
    e: &Vec<DataProperty>,
) -> V::V
{
    let s1 = V::after(s, c, Element::DataPropertyVec(e));
    let c1 = V::yields(s, c, Element::DataPropertyVec(e));
    walked_data_properties::<B, V>(s1, c1, e, e.len() as nat)
}

/// The state once the first `n` members of `items` were walked from `s`, each
/// under the context `c`.
pub open spec fn walked_data_properties<B, V: Visit<B>>(
    s: V::V,
    c: Option<ThingView<B>>,
    items: &Vec<DataProperty>,
    n: nat,
) -> V::V
    decreases n,
{
    if n == 0 || n > items.len() {
        s
    } else {
        walked_data_property::<B, V>(
            walked_data_properties::<B, V>(s, c, items, (n - 1) as nat),
            c,
            &items[n - 1],
        )
    }
}

pub open spec fn walked_individual_vec<B, V: Visit<B>>(
    s: V::V,
    c: Option<ThingView<B>>,
    e: &Vec<Individual>,
) -> V::V
{
    let s1 = V::after(s, c, Element::IndividualVec(e));
    let c1 = V::yields(s, c, Element::IndividualVec(e));
    walked_individuals::<B, V>(s1, c1, e, e.len() as nat)
}

/// The state once the first `n` members of `items` were walked from `s`, each
/// under the context `c`.
pub open spec fn walked_individuals<B, V: Visit<B>>(
    s: V::V,
    c: Option<ThingView<B>>,
    items: &Vec<Individual>,
    n: nat,
) -> V::V
    decreases n,
{
    if n == 0 || n > items.len() {
        s
    } else {
        walked_individual::<B, V>(
            walked_individuals::<B, V>(s, c, items, (n - 1) as nat),
            c,
            &items[n - 1],
        )
    }
}

pub open spec fn walked_literal_vec<B, V: Visit<B>>(
    s: V::V,
    c: Option<ThingView<B>>,
    e: &Vec<Literal>,
) -> V::V
{
    let s1 = V::after(s, c, Element::LiteralVec(e));
    let c1 = V::yields(s, c, Element::LiteralVec(e));
    walked_literals::<B, V>(s1, c1, e, e.len() as nat)
}

/// The state once the first `n` members of `items` were walked from `s`, each
/// under the context `c`.
pub open spec fn walked_literals<B, V: Visit<B>>(
    s: V::V,
    c: Option<ThingView<B>>,
    items: &Vec<Literal>,
    n: nat,
) -> V::V
    decreases n,
{
    if n == 0 || n > items.len() {
        s
    } else {
        walked_literal::<B, V>(
            walked_literals::<B, V>(s, c, items, (n - 1) as nat),
            c,
            &items[n - 1],
        )
    }
}

pub open spec fn walked_facet_restriction_vec<B, V: Visit<B>>(
    s: V::V,
    c: Option<ThingView<B>>,
    e: &Vec<FacetRestriction>,
) -> V::V
{
    let s1 = V::after(s, c, Element::FacetRestrictionVec(e));
    let c1 = V::yields(s, c, Element::FacetRestrictionVec(e));
    walked_facet_restrictions::<B, V>(s1, c1, e, e.len() as nat)
}

/// The state once the first `n` members of `items` were walked from `s`, each
/// under the context `c`.
pub open spec fn walked_facet_restrictions<B, V: Visit<B>>(
    s: V::V,
    c: Option<ThingView<B>>,
    items: &Vec<FacetRestriction>,
    n: nat,
) -> V::V
    decreases n,
{
    if n == 0 || n > items.len() {
        s
    } else {
        walked_facet_restriction::<B, V>(
            walked_facet_restrictions::<B, V>(s, c, items, (n - 1) as nat),
            c,
            &items[n - 1],
        )
    }
}

pub open spec fn walked_data_range_vec<B, V: Visit<B>>(
    s: V::V,
    c: Option<ThingView<B>>,
    e: &Vec<DataRange>,
) -> V::V
    decreases e, 1nat,
{
    let s1 = V::after(s, c, Element::DataRangeVec(e));
    let c1 = V::yields(s, c, Element::DataRangeVec(e));
    walked_data_ranges::<B, V>(s1, c1, e, e.len() as nat)
}

/// The state once the first `n` members of `items` were walked from `s`, each
/// under the context `c`.
pub open spec fn walked_data_ranges<B, V: Visit<B>>(
    s: V::V,
    c: Option<ThingView<B>>,
    items: &Vec<DataRange>,
    n: nat,
) -> V::V
    decreases items, 0nat, n,
{
    if n == 0 || n > items.len() {
        s
    } else {
        walked_data_range::<B, V>(
            walked_data_ranges::<B, V>(s, c, items, (n - 1) as nat),
            c,
            &items[n - 1],
        )
    }
}

pub open spec fn walked_atom_vec<B, V: Visit<B>>(
    s: V::V,
    c: Option<ThingView<B>>,
    e: &Vec<Atom>,
) -> V::V
{
    let s1 = V::after(s, c, Element::AtomVec(e));
    let c1 = V::yields(s, c, Element::AtomVec(e));
    walked_atoms::<B, V>(s1, c1, e, e.len() as nat)
}

/// The state once the first `n` members of `items` were walked from `s`, each
/// under the context `c`.
pub open spec fn walked_atoms<B, V: Visit<B>>(
    s: V::V,
    c: Option<ThingView<B>>,
    items: &Vec<Atom>,
    n: nat,
) -> V::V
    decreases n,
{
    if n == 0 || n > items.len() {
        s
    } else {
        walked_atom::<B, V>(
            walked_atoms::<B, V>(s, c, items, (n - 1) as nat),
            c,
            &items[n - 1],
        )
    }
}

pub open spec fn walked_darg_vec<B, V: Visit<B>>(
    s: V::V,
    c: Option<ThingView<B>>,
    e: &Vec<DArgument>,
) -> V::V
{
    let s1 = V::after(s, c, Element::DArgumentVec(e));
    let c1 = V::yields(s, c, Element::DArgumentVec(e));
    walked_dargs::<B, V>(s1, c1, e, e.len() as nat)
}

/// The state once the first `n` members of `items` were walked from `s`, each
/// under the context `c`.
pub open spec fn walked_dargs<B, V: Visit<B>>(
    s: V::V,
    c: Option<ThingView<B>>,
    items: &Vec<DArgument>,
    n: nat,
) -> V::V
    decreases n,
{
    if n == 0 || n > items.len() {
        s
    } else {
        walked_darg::<B, V>(
            walked_dargs::<B, V>(s, c, items, (n - 1) as nat),
            c,
            &items[n - 1],
        )
    }
}

/// A traversal: the visitor that is driven over a document, and the means
/// to drive it. One method walks one kind of node; `set_ontology` walks a whole
/// document.
pub struct Walk<B, V>(V, PhantomData<B>);

impl<B, V> Walk<B, V> {
    /// The visitor that is driven.
    pub closed spec fn visitor(&self) -> V {
        self.0
    }
}

impl<B, V: Visit<B>> View for Walk<B, V> {
    type V = V::V;

    /// The state of the visitor.
    open spec fn view(&self) -> V::V {
        self.visitor()@
    }
}

impl<B: Copy, V: Visit<B>> Walk<B, V> {
    /// A traversal that drives `v`.
    pub fn new(v: V) -> (walk: Self)
        ensures
            walk.visitor() == v,
    {
        Walk(v, PhantomData)
    }

    /// The visitor, to be looked at or changed between two walks.
    pub fn as_mut_visit(&mut self) -> (v: &mut V)
        ensures
            *v == old(self).visitor(),
            final(self).visitor() == *final(v),
    {
        &mut self.0
    }

    /// The visitor, once the traversal is over.
    pub fn into_visit(self) -> (v: V)
        ensures
            v == self.visitor(),
    {
        self.0
    }

    pub fn iri(&mut self, parent: Option<Kind<B>>, e: &IRI)
        ensures
            final(self)@ == walked_iri::<B, V>(old(self)@, context(parent), e),
    {
        self.0.visit_iri(parent, e);
    }

    pub fn anonymous_individual(&mut self, parent: Option<Kind<B>>, e: &AnonymousIndividual)
        ensures
            final(self)@ == walked_anonymous_individual::<B, V>(old(self)@, context(parent), e),
    {
        self.0.visit_anonymous_individual(parent, e);
    }

    pub fn individual(&mut self, parent: Option<Kind<B>>, e: &Individual)
        ensures
            final(self)@ == walked_individual::<B, V>(old(self)@, context(parent), e),
    {
        let new_parent = self.0.visit_individual(parent, e);
        match e {
            Individual::Anonymous(a) => self.anonymous_individual(new_parent, a),
            Individual::Named(n) => self.named_individual(new_parent, n),
        }
    }

    pub fn annotation_subject(&mut self, parent: Option<Kind<B>>, e: &AnnotationSubject)
        ensures
            final(self)@ == walked_annotation_subject::<B, V>(old(self)@, context(parent), e),
    {
        let new_parent = self.0.visit_annotation_subject(parent, e);
        match e {
            AnnotationSubject::IRI(iri) => self.iri(new_parent, iri),
            AnnotationSubject::AnonymousIndividual(anon) => {
                self.anonymous_individual(new_parent, anon)
            },
        }
    }

    pub fn dociri(&mut self, parent: Option<Kind<B>>, e: &DocIRI)
        ensures
            final(self)@ == walked_dociri::<B, V>(old(self)@, context(parent), e),
    {
        let new_parent = self.0.visit_dociri(parent, e);
        self.iri(new_parent, &e.0);
    }

    pub fn class(&mut self, parent: Option<Kind<B>>, e: &Class)
        ensures
            final(self)@ == walked_class::<B, V>(old(self)@, context(parent), e),
    {
        let new_parent = self.0.visit_class(parent, e);
        self.iri(new_parent, &e.0);
    }

    pub fn datatype(&mut self, parent: Option<Kind<B>>, e: &Datatype)
        ensures
            final(self)@ == walked_datatype::<B, V>(old(self)@, context(parent), e),
    {
        let new_parent = self.0.visit_datatype(parent, e);
        self.iri(new_parent, &e.0);
    }

    pub fn object_property(&mut self, parent: Option<Kind<B>>, e: &ObjectProperty)
        ensures
            final(self)@ == walked_object_property::<B, V>(old(self)@, context(parent), e),
    {
        let new_parent = self.0.visit_object_property(parent, e);
        self.iri(new_parent, &e.0);
    }

    pub fn data_property(&mut self, parent: Option<Kind<B>>, e: &DataProperty)
        ensures
            final(self)@ == walked_data_property::<B, V>(old(self)@, context(parent), e),
    {
        let new_parent = self.0.visit_data_property(parent, e);
        self.iri(new_parent, &e.0);
    }

    pub fn annotation_property(&mut self, parent: Option<Kind<B>>, e: &AnnotationProperty)
        ensures
            final(self)@ == walked_annotation_property::<B, V>(old(self)@, context(parent), e),
    {
        let new_parent = self.0.visit_annotation_property(parent, e);
        self.iri(new_parent, &e.0);
    }

    pub fn named_individual(&mut self, parent: Option<Kind<B>>, e: &NamedIndividual)
        ensures
            final(self)@ == walked_named_individual::<B, V>(old(self)@, context(parent), e),
    {
        let new_parent = self.0.visit_named_individual(parent, e);
        self.iri(new_parent, &e.0);
    }

    pub fn annotated_component(&mut self, parent: Option<Kind<B>>, e: &AnnotatedComponent)
        ensures
            final(self)@ == walked_annotated_component::<B, V>(old(self)@, context(parent), e),
    {
        let new_parent = self.0.visit_annotated_component(parent, e);
        self.component(new_parent.clone(), &e.component);
        self.annotation_set(new_parent, &e.ann);
    }

    pub fn component(&mut self, parent: Option<Kind<B>>, e: &Component)
        ensures
            final(self)@ == walked_component::<B, V>(old(self)@, context(parent), e),
    {
        let new_parent = self.0.visit_component(parent, e);
        match e {
            Component::OntologyID(ax) => self.ontology_id(new_parent, ax),
            Component::DocIRI(ax) => self.dociri(new_parent, ax),
            Component::Import(ax) => self.import(new_parent, ax),
            Component::OntologyAnnotation(ax) => self.ontology_annotation(new_parent, ax),
            Component::DeclareClass(ax) => self.declare_class(new_parent, ax),
            Component::DeclareObjectProperty(ax) => self.declare_object_property(new_parent, ax),
            Component::DeclareAnnotationProperty(ax) => {
                self.declare_annotation_property(new_parent, ax)
            },
            Component::DeclareDataProperty(ax) => self.declare_data_property(new_parent, ax),
            Component::DeclareNamedIndividual(ax) => self.declare_named_individual(new_parent, ax),
            Component::DeclareDatatype(ax) => self.declare_datatype(new_parent, ax),
            Component::SubClassOf(ax) => self.sub_class_of(new_parent, ax),
            Component::EquivalentClasses(ax) => self.equivalent_classes(new_parent, ax),
            Component::DisjointClasses(ax) => self.disjoint_classes(new_parent, ax),
            Component::DisjointUnion(ax) => self.disjoint_union(new_parent, ax),
            Component::SubObjectPropertyOf(ax) => self.sub_object_property_of(new_parent, ax),
            Component::EquivalentObjectProperties(ax) => {
                self.equivalent_object_properties(new_parent, ax)
            },
            Component::DisjointObjectProperties(ax) => {
                self.disjoint_object_properties(new_parent, ax)
            },
            Component::InverseObjectProperties(ax) => {
                self.inverse_object_properties(new_parent, ax)
            },
            Component::ObjectPropertyDomain(ax) => self.object_property_domain(new_parent, ax),
            Component::ObjectPropertyRange(ax) => self.object_property_range(new_parent, ax),
            Component::FunctionalObjectProperty(ax) => {
                self.functional_object_property(new_parent, ax)
            },
            Component::InverseFunctionalObjectProperty(ax) => {
                self.inverse_functional_object_property(new_parent, ax)
            },
            Component::ReflexiveObjectProperty(ax) => {
                self.reflexive_object_property(new_parent, ax)
            },
            Component::IrreflexiveObjectProperty(ax) => {
                self.irreflexive_object_property(new_parent, ax)
            },
            Component::SymmetricObjectProperty(ax) => {
                self.symmetric_object_property(new_parent, ax)
            },
            Component::AsymmetricObjectProperty(ax) => {
                self.asymmetric_object_property(new_parent, ax)
            },
            Component::TransitiveObjectProperty(ax) => {
                self.transitive_object_property(new_parent, ax)
            },
            Component::SubDataPropertyOf(ax) => self.sub_data_property_of(new_parent, ax),
            Component::EquivalentDataProperties(ax) => {
                self.equivalent_data_properties(new_parent, ax)
            },
            Component::DisjointDataProperties(ax) => self.disjoint_data_properties(new_parent, ax),
            Component::DataPropertyDomain(ax) => self.data_property_domain(new_parent, ax),
            Component::DataPropertyRange(ax) => self.data_property_range(new_parent, ax),
            Component::FunctionalDataProperty(ax) => self.functional_data_property(new_parent, ax),
            Component::DatatypeDefinition(ax) => self.datatype_definition(new_parent, ax),
            Component::HasKey(ax) => self.has_key(new_parent, ax),
            Component::SameIndividual(ax) => self.same_individual(new_parent, ax),
            Component::DifferentIndividuals(ax) => self.different_individuals(new_parent, ax),
            Component::ClassAssertion(ax) => self.class_assertion(new_parent, ax),
            Component::ObjectPropertyAssertion(ax) => {
                self.object_property_assertion(new_parent, ax)
            },
            Component::NegativeObjectPropertyAssertion(ax) => {
                self.negative_object_property_assertion(new_parent, ax)
            },
            Component::DataPropertyAssertion(ax) => self.data_property_assertion(new_parent, ax),
            Component::NegativeDataPropertyAssertion(ax) => {
                self.negative_data_property_assertion(new_parent, ax)
            },
            Component::AnnotationAssertion(ax) => self.annotation_assertion(new_parent, ax),
            Component::SubAnnotationPropertyOf(ax) => {
                self.sub_annotation_property_of(new_parent, ax)
            },
            Component::AnnotationPropertyDomain(ax) => {
                self.annotation_property_domain(new_parent, ax)
            },
            Component::AnnotationPropertyRange(ax) => {
                self.annotation_property_range(new_parent, ax)
            },
            Component::Rule(ax) => self.rule(new_parent, ax),
        }
    }

    pub fn import(&mut self, parent: Option<Kind<B>>, e: &Import)
        ensures
            final(self)@ == walked_import::<B, V>(old(self)@, context(parent), e),
    {
        let new_parent = self.0.visit_import(parent, e);
        self.iri(new_parent, &e.0);
    }

    pub fn ontology_annotation(&mut self, parent: Option<Kind<B>>, e: &OntologyAnnotation)
        ensures
            final(self)@ == walked_ontology_annotation::<B, V>(old(self)@, context(parent), e),
    {
        let new_parent = self.0.visit_ontology_annotation(parent, e);
        self.annotation(new_parent, &e.0);
    }

    pub fn declare_class(&mut self, parent: Option<Kind<B>>, e: &DeclareClass)
        ensures
            final(self)@ == walked_declare_class::<B, V>(old(self)@, context(parent), e),
    {
        let new_parent = self.0.visit_declare_class(parent, e);
        self.class(new_parent, &e.0);
    }

    pub fn declare_object_property(&mut self, parent: Option<Kind<B>>, e: &DeclareObjectProperty)
        ensures
            final(self)@ == walked_declare_object_property::<B, V>(old(self)@, context(parent), e),
    {
        let new_parent = self.0.visit_declare_object_property(parent, e);
        self.object_property(new_parent, &e.0);
    }

    pub fn declare_annotation_property(
        &mut self,
        parent: Option<Kind<B>>,
        e: &DeclareAnnotationProperty,
    )
        ensures
            final(self)@
                == walked_declare_annotation_property::<B, V>(old(self)@, context(parent), e),
    {
        let new_parent = self.0.visit_declare_annotation_property(parent, e);
        self.annotation_property(new_parent, &e.0);
    }

    pub fn declare_data_property(&mut self, parent: Option<Kind<B>>, e: &DeclareDataProperty)
        ensures
            final(self)@ == walked_declare_data_property::<B, V>(old(self)@, context(parent), e),
    {
        let new_parent = self.0.visit_declare_data_property(parent, e);
        self.data_property(new_parent, &e.0);
    }

    pub fn declare_named_individual(&mut self, parent: Option<Kind<B>>, e: &DeclareNamedIndividual)
        ensures
            final(self)@ == walked_declare_named_individual::<B, V>(old(self)@, context(parent), e),
    {
        let new_parent = self.0.visit_declare_named_individual(parent, e);
        self.named_individual(new_parent, &e.0);
    }

    pub fn declare_datatype(&mut self, parent: Option<Kind<B>>, e: &DeclareDatatype)
        ensures
            final(self)@ == walked_declare_datatype::<B, V>(old(self)@, context(parent), e),
    {
        let new_parent = self.0.visit_declare_datatype(parent, e);
        self.datatype(new_parent, &e.0);
    }

    pub fn sub_class_of(&mut self, parent: Option<Kind<B>>, e: &SubClassOf)
        ensures
            final(self)@ == walked_sub_class_of::<B, V>(old(self)@, context(parent), e),
    {
        let new_parent = self.0.visit_sub_class_of(parent, e);
        self.class_expression(new_parent.clone(), &e.sup);
        self.class_expression(new_parent, &e.sub);
    }

    pub fn equivalent_classes(&mut self, parent: Option<Kind<B>>, e: &EquivalentClasses)
        ensures
            final(self)@ == walked_equivalent_classes::<B, V>(old(self)@, context(parent), e),
    {
        let new_parent = self.0.visit_equivalent_classes(parent, e);
        self.class_expression_vec(new_parent, &e.0);
    }

    pub fn disjoint_classes(&mut self, parent: Option<Kind<B>>, e: &DisjointClasses)
        ensures
            final(self)@ == walked_disjoint_classes::<B, V>(old(self)@, context(parent), e),
    {
        let new_parent = self.0.visit_disjoint_classes(parent, e);
        self.class_expression_vec(new_parent, &e.0);
    }

    pub fn disjoint_union(&mut self, parent: Option<Kind<B>>, e: &DisjointUnion)
        ensures
            final(self)@ == walked_disjoint_union::<B, V>(old(self)@, context(parent), e),
    {
        let new_parent = self.0.visit_disjoint_union(parent, e);
        self.class(new_parent.clone(), &e.0);
        self.class_expression_vec(new_parent, &e.1);
    }

    pub fn sub_object_property_of(&mut self, parent: Option<Kind<B>>, e: &SubObjectPropertyOf)
        ensures
            final(self)@ == walked_sub_object_property_of::<B, V>(old(self)@, context(parent), e),
    {
        let new_parent = self.0.visit_sub_object_property_of(parent, e);
        self.object_property_expression(new_parent.clone(), &e.sup);
        self.sub_object_property_expression(new_parent, &e.sub);
    }

    pub fn equivalent_object_properties(
        &mut self,
        parent: Option<Kind<B>>,
        e: &EquivalentObjectProperties,
    )
        ensures
            final(self)@
                == walked_equivalent_object_properties::<B, V>(old(self)@, context(parent), e),
    {
        let new_parent = self.0.visit_equivalent_object_properties(parent, e);
        self.object_property_expression_vec(new_parent, &e.0);
    }

    pub fn disjoint_object_properties(
        &mut self,
        parent: Option<Kind<B>>,
        e: &DisjointObjectProperties,
    )
        ensures
            final(self)@
                == walked_disjoint_object_properties::<B, V>(old(self)@, context(parent), e),
    {
        let new_parent = self.0.visit_disjoint_object_properties(parent, e);
        self.object_property_expression_vec(new_parent, &e.0);
    }

    pub fn inverse_object_properties(
        &mut self,
        parent: Option<Kind<B>>,
        e: &InverseObjectProperties,
    )
        ensures
            final(self)@
                == walked_inverse_object_properties::<B, V>(old(self)@, context(parent), e),
    {
        let new_parent = self.0.visit_inverse_object_properties(parent, e);
        self.object_property(new_parent.clone(), &e.0);
        self.object_property(new_parent, &e.1);
    }

    pub fn object_property_domain(&mut self, parent: Option<Kind<B>>, e: &ObjectPropertyDomain)
        ensures
            final(self)@ == walked_object_property_domain::<B, V>(old(self)@, context(parent), e),
    {
        let new_parent = self.0.visit_object_property_domain(parent, e);
        self.object_property_expression(new_parent.clone(), &e.ope);
        self.class_expression(new_parent, &e.ce);
    }

    pub fn object_property_range(&mut self, parent: Option<Kind<B>>, e: &ObjectPropertyRange)
        ensures
            final(self)@ == walked_object_property_range::<B, V>(old(self)@, context(parent), e),
    {
        let new_parent = self.0.visit_object_property_range(parent, e);
        self.object_property_expression(new_parent.clone(), &e.ope);
        self.class_expression(new_parent, &e.ce);
    }

    pub fn functional_object_property(
        &mut self,
        parent: Option<Kind<B>>,
        e: &FunctionalObjectProperty,
    )
        ensures
            final(self)@
                == walked_functional_object_property::<B, V>(old(self)@, context(parent), e),
    {
        let new_parent = self.0.visit_functional_object_property(parent, e);
        self.object_property_expression(new_parent, &e.0);
    }

    pub fn inverse_functional_object_property(
        &mut self,
        parent: Option<Kind<B>>,
        e: &InverseFunctionalObjectProperty,
    )
        ensures
            final(self)@ == walked_inverse_functional_object_property::<B, V>(
                old(self)@,
                context(parent),
                e,
            ),
    {
        let new_parent = self.0.visit_inverse_functional_object_property(parent, e);
        self.object_property_expression(new_parent, &e.0);
    }

    pub fn reflexive_object_property(
        &mut self,
        parent: Option<Kind<B>>,
        e: &ReflexiveObjectProperty,
    )
        ensures
            final(self)@
                == walked_reflexive_object_property::<B, V>(old(self)@, context(parent), e),
    {
        let new_parent = self.0.visit_reflexive_object_property(parent, e);
        self.object_property_expression(new_parent, &e.0);
    }

    pub fn irreflexive_object_property(
        &mut self,
        parent: Option<Kind<B>>,
        e: &IrreflexiveObjectProperty,
    )
        ensures
            final(self)@
                == walked_irreflexive_object_property::<B, V>(old(self)@, context(parent), e),
    {
        let new_parent = self.0.visit_irreflexive_object_property(parent, e);
        self.object_property_expression(new_parent, &e.0);
    }

    pub fn symmetric_object_property(
        &mut self,
        parent: Option<Kind<B>>,
        e: &SymmetricObjectProperty,
    )
        ensures
            final(self)@
                == walked_symmetric_object_property::<B, V>(old(self)@, context(parent), e),
    {
        let new_parent = self.0.visit_symmetric_object_property(parent, e);
        self.object_property_expression(new_parent, &e.0);
    }

    pub fn asymmetric_object_property(
        &mut self,
        parent: Option<Kind<B>>,
        e: &AsymmetricObjectProperty,
    )
        ensures
            final(self)@
                == walked_asymmetric_object_property::<B, V>(old(self)@, context(parent), e),
    {
        let new_parent = self.0.visit_asymmetric_object_property(parent, e);
        self.object_property_expression(new_parent, &e.0);
    }

    pub fn transitive_object_property(
        &mut self,
        parent: Option<Kind<B>>,
        e: &TransitiveObjectProperty,
    )
        ensures
            final(self)@
                == walked_transitive_object_property::<B, V>(old(self)@, context(parent), e),
    {
        let new_parent = self.0.visit_transitive_object_property(parent, e);
        self.object_property_expression(new_parent, &e.0);
    }

    pub fn sub_data_property_of(&mut self, parent: Option<Kind<B>>, e: &SubDataPropertyOf)
        ensures
            final(self)@ == walked_sub_data_property_of::<B, V>(old(self)@, context(parent), e),
    {
        let new_parent = self.0.visit_sub_data_property_of(parent, e);
        self.data_property(new_parent.clone(), &e.sup);
        self.data_property(new_parent, &e.sub);
    }

    pub fn equivalent_data_properties(
        &mut self,
        parent: Option<Kind<B>>,
        e: &EquivalentDataProperties,
    )
        ensures
            final(self)@
                == walked_equivalent_data_properties::<B, V>(old(self)@, context(parent), e),
    {
        let new_parent = self.0.visit_equivalent_data_properties(parent, e);
        self.data_property_vec(new_parent, &e.0);
    }

    pub fn disjoint_data_properties(&mut self, parent: Option<Kind<B>>, e: &DisjointDataProperties)
        ensures
            final(self)@ == walked_disjoint_data_properties::<B, V>(old(self)@, context(parent), e),
    {
        let new_parent = self.0.visit_disjoint_data_properties(parent, e);
        self.data_property_vec(new_parent, &e.0);
    }

    pub fn data_property_domain(&mut self, parent: Option<Kind<B>>, e: &DataPropertyDomain)
        ensures
            final(self)@ == walked_data_property_domain::<B, V>(old(self)@, context(parent), e),
    {
        let new_parent = self.0.visit_data_property_domain(parent, e);
        self.data_property(new_parent.clone(), &e.dp);
        self.class_expression(new_parent, &e.ce);
    }

    pub fn data_property_range(&mut self, parent: Option<Kind<B>>, e: &DataPropertyRange)
        ensures
            final(self)@ == walked_data_property_range::<B, V>(old(self)@, context(parent), e),
    {
        let new_parent = self.0.visit_data_property_range(parent, e);
        self.data_property(new_parent.clone(), &e.dp);
        self.data_range(new_parent, &e.dr);
    }

    pub fn functional_data_property(&mut self, parent: Option<Kind<B>>, e: &FunctionalDataProperty)
        ensures
            final(self)@ == walked_functional_data_property::<B, V>(old(self)@, context(parent), e),
    {
        let new_parent = self.0.visit_functional_data_property(parent, e);
        self.data_property(new_parent, &e.0);
    }

    pub fn datatype_definition(&mut self, parent: Option<Kind<B>>, e: &DatatypeDefinition)
        ensures
            final(self)@ == walked_datatype_definition::<B, V>(old(self)@, context(parent), e),
    {
        let new_parent = self.0.visit_datatype_definition(parent, e);
        self.datatype(new_parent.clone(), &e.kind);
        self.data_range(new_parent, &e.range);
    }

    pub fn has_key(&mut self, parent: Option<Kind<B>>, e: &HasKey)
        ensures
            final(self)@ == walked_has_key::<B, V>(old(self)@, context(parent), e),
    {
        let new_parent = self.0.visit_has_key(parent, e);
        self.class_expression(new_parent.clone(), &e.ce);
        let ghost start = self@;
        let items = &e.vpe;
        let mut at: usize = 0;
        while at < items.len()
            invariant
                at <= items.len(),
                self@ == walked_property_expressions::<B, V>(
                    start,
                    context(new_parent),
                    items,
                    at as nat,
                ),
            decreases items.len() - at,
        {
            self.property_expression(new_parent.clone(), &items[at]);
            at = at + 1;
        }
    }

    pub fn same_individual(&mut self, parent: Option<Kind<B>>, e: &SameIndividual)
        ensures
            final(self)@ == walked_same_individual::<B, V>(old(self)@, context(parent), e),
    {
        let new_parent = self.0.visit_same_individual(parent, e);
        self.individual_vec(new_parent, &e.0);
    }

    pub fn different_individuals(&mut self, parent: Option<Kind<B>>, e: &DifferentIndividuals)
        ensures
            final(self)@ == walked_different_individuals::<B, V>(old(self)@, context(parent), e),
    {
        let new_parent = self.0.visit_different_individuals(parent, e);
        self.individual_vec(new_parent, &e.0);
    }

    pub fn class_assertion(&mut self, parent: Option<Kind<B>>, e: &ClassAssertion)
        ensures
            final(self)@ == walked_class_assertion::<B, V>(old(self)@, context(parent), e),
    {
        let new_parent = self.0.visit_class_assertion(parent, e);
        self.class_expression(new_parent.clone(), &e.ce);
        self.individual(new_parent, &e.i);
    }

    pub fn object_property_assertion(
        &mut self,
        parent: Option<Kind<B>>,
        e: &ObjectPropertyAssertion,
    )
        ensures
            final(self)@
                == walked_object_property_assertion::<B, V>(old(self)@, context(parent), e),
    {
        let new_parent = self.0.visit_object_property_assertion(parent, e);
        self.object_property_expression(new_parent.clone(), &e.ope);
        self.individual(new_parent.clone(), &e.from);
        self.individual(new_parent, &e.to);
    }

    pub fn negative_object_property_assertion(
        &mut self,
        parent: Option<Kind<B>>,
        e: &NegativeObjectPropertyAssertion,
    )
        ensures
            final(self)@ == walked_negative_object_property_assertion::<B, V>(
                old(self)@,
                context(parent),
                e,
            ),
    {
        let new_parent = self.0.visit_negative_object_property_assertion(parent, e);
        self.object_property_expression(new_parent.clone(), &e.ope);
        self.individual(new_parent.clone(), &e.from);
        self.individual(new_parent, &e.to);
    }

    pub fn data_property_assertion(&mut self, parent: Option<Kind<B>>, e: &DataPropertyAssertion)
        ensures
            final(self)@ == walked_data_property_assertion::<B, V>(old(self)@, context(parent), e),
    {
        let new_parent = self.0.visit_data_property_assertion(parent, e);
        self.data_property(new_parent.clone(), &e.dp);
        self.individual(new_parent.clone(), &e.from);
        self.literal(new_parent, &e.to);
    }

    pub fn negative_data_property_assertion(
        &mut self,
        parent: Option<Kind<B>>,
        e: &NegativeDataPropertyAssertion,
    )
        ensures
            final(self)@
                == walked_negative_data_property_assertion::<B, V>(old(self)@, context(parent), e),
    {
        let new_parent = self.0.visit_negative_data_property_assertion(parent, e);
        self.data_property(new_parent.clone(), &e.dp);
        self.individual(new_parent.clone(), &e.from);
        self.literal(new_parent, &e.to);
    }

    pub fn annotation_assertion(&mut self, parent: Option<Kind<B>>, e: &AnnotationAssertion)
        ensures
            final(self)@ == walked_annotation_assertion::<B, V>(old(self)@, context(parent), e),
    {
        let new_parent = self.0.visit_annotation_assertion(parent, e);
        self.annotation_subject(new_parent.clone(), &e.subject);
        self.annotation(new_parent, &e.ann);
    }

    pub fn sub_annotation_property_of(
        &mut self,
        parent: Option<Kind<B>>,
        e: &SubAnnotationPropertyOf,
    )
        ensures
            final(self)@
                == walked_sub_annotation_property_of::<B, V>(old(self)@, context(parent), e),
    {
        let new_parent = self.0.visit_sub_annotation_property_of(parent, e);
        self.annotation_property(new_parent.clone(), &e.sup);
        self.annotation_property(new_parent, &e.sub);
    }

    pub fn annotation_property_domain(
        &mut self,
        parent: Option<Kind<B>>,
        e: &AnnotationPropertyDomain,
    )
        ensures
            final(self)@
                == walked_annotation_property_domain::<B, V>(old(self)@, context(parent), e),
    {
        let new_parent = self.0.visit_annotation_property_domain(parent, e);
        self.annotation_property(new_parent.clone(), &e.ap);
        self.iri(new_parent, &e.iri);
    }

    pub fn annotation_property_range(
        &mut self,
        parent: Option<Kind<B>>,
        e: &AnnotationPropertyRange,
    )
        ensures
            final(self)@
                == walked_annotation_property_range::<B, V>(old(self)@, context(parent), e),
    {
        let new_parent = self.0.visit_annotation_property_range(parent, e);
        self.annotation_property(new_parent.clone(), &e.ap);
        self.iri(new_parent, &e.iri);
    }

    pub fn rule(&mut self, parent: Option<Kind<B>>, e: &Rule)
        ensures
            final(self)@ == walked_rule::<B, V>(old(self)@, context(parent), e),
    {
        let new_parent = self.0.visit_rule(parent, e);
        self.atom_vec(new_parent.clone(), &e.head);
        self.atom_vec(new_parent, &e.body);
    }

    pub fn atom(&mut self, parent: Option<Kind<B>>, e: &Atom)
        ensures
            final(self)@ == walked_atom::<B, V>(old(self)@, context(parent), e),
    {
        let new_parent = self.0.visit_atom(parent, e);
        match e {
            Atom::BuiltInAtom { pred, args } => {
                self.iri(new_parent.clone(), pred);
                self.darg_vec(new_parent, args);
            },
            Atom::ClassAtom { pred, arg } => {
                self.class_expression(new_parent.clone(), pred);
                self.iarg(new_parent, arg);
            },
            Atom::DataPropertyAtom { pred, args } => {
                self.data_property(new_parent.clone(), pred);
                self.darg(new_parent.clone(), &args.0);
                self.darg(new_parent, &args.1);
            },
            Atom::DataRangeAtom { pred, arg } => {
                self.data_range(new_parent.clone(), pred);
                self.darg(new_parent, arg);
            },
            Atom::DifferentIndividualsAtom(arg1, arg2) => {
                self.iarg(new_parent.clone(), arg1);
                self.iarg(new_parent, arg2);
            },
            Atom::ObjectPropertyAtom { pred, args } => {
                self.object_property_expression(new_parent.clone(), pred);
                self.iarg(new_parent.clone(), &args.0);
                self.iarg(new_parent, &args.1);
            },
            Atom::SameIndividualAtom(arg1, arg2) => {
                self.iarg(new_parent.clone(), arg1);
                self.iarg(new_parent, arg2);
            },
        }
    }

    pub fn variable(&mut self, parent: Option<Kind<B>>, e: &Variable)
        ensures
            final(self)@ == walked_variable::<B, V>(old(self)@, context(parent), e),
    {
        self.0.visit_variable(parent, e);
    }

    pub fn darg(&mut self, parent: Option<Kind<B>>, e: &DArgument)
        ensures
            final(self)@ == walked_darg::<B, V>(old(self)@, context(parent), e),
    {
        let new_parent = self.0.visit_darg(parent, e);
        match e {
            DArgument::Literal(l) => self.literal(new_parent, l),
            DArgument::Variable(v) => self.variable(new_parent, v),
        }
    }

    pub fn iarg(&mut self, parent: Option<Kind<B>>, e: &IArgument)
        ensures
            final(self)@ == walked_iarg::<B, V>(old(self)@, context(parent), e),
    {
        let new_parent = self.0.visit_iarg(parent, e);
        match e {
            IArgument::Individual(i) => self.individual(new_parent, i),
            IArgument::Variable(v) => self.variable(new_parent, v),
        }
    }

    pub fn literal(&mut self, parent: Option<Kind<B>>, e: &Literal)
        ensures
            final(self)@ == walked_literal::<B, V>(old(self)@, context(parent), e),
    {
        let new_parent = self.0.visit_literal(parent, e);
        match e {
            Literal::Simple { literal } => {
                self.0.visit_string(new_parent, literal);
            },
            Literal::Language { literal, lang } => {
                self.0.visit_string(new_parent.clone(), literal);
                self.0.visit_string(new_parent, lang);
            },
            Literal::Datatype { literal: _, datatype_iri } => self.iri(new_parent, datatype_iri),
        }
    }

    pub fn annotation(&mut self, parent: Option<Kind<B>>, e: &Annotation)
        ensures
            final(self)@ == walked_annotation::<B, V>(old(self)@, context(parent), e),
    {
        let new_parent = self.0.visit_annotation(parent, e);
        self.annotation_property(new_parent.clone(), &e.ap);
        self.annotation_value(new_parent, &e.av);
    }

    pub fn annotation_value(&mut self, parent: Option<Kind<B>>, e: &AnnotationValue)
        ensures
            final(self)@ == walked_annotation_value::<B, V>(old(self)@, context(parent), e),
    {
        let new_parent = self.0.visit_annotation_value(parent, e);
        match e {
            AnnotationValue::Literal(lit) => self.literal(new_parent, lit),
            AnnotationValue::IRI(iri) => self.iri(new_parent, iri),
            AnnotationValue::AnonymousIndividual(anon) => {
                self.anonymous_individual(new_parent, anon)
            },
        }
    }

    pub fn object_property_expression(
        &mut self,
        parent: Option<Kind<B>>,
        e: &ObjectPropertyExpression,
    )
        ensures
            final(self)@
                == walked_object_property_expression::<B, V>(old(self)@, context(parent), e),
    {
        let new_parent = self.0.visit_object_property_expression(parent, e);
        match e {
            ObjectPropertyExpression::ObjectProperty(prop) => {
                self.object_property(new_parent, prop)
            },
            ObjectPropertyExpression::InverseObjectProperty(prop) => {
                self.object_property(new_parent, prop)
            },
        }
    }

    pub fn sub_object_property_expression(
        &mut self,
        parent: Option<Kind<B>>,
        e: &SubObjectPropertyExpression,
    )
        ensures
            final(self)@
                == walked_sub_object_property_expression::<B, V>(old(self)@, context(parent), e),
    {
        let new_parent = self.0.visit_sub_object_property_expression(parent, e);
        match e {
            SubObjectPropertyExpression::ObjectPropertyChain(chain) => {
                self.object_property_expression_vec(new_parent, chain)
            },
            SubObjectPropertyExpression::ObjectPropertyExpression(ope) => {
                self.object_property_expression(new_parent, ope)
            },
        }
    }

    pub fn property_expression(&mut self, parent: Option<Kind<B>>, e: &PropertyExpression)
        ensures
            final(self)@ == walked_property_expression::<B, V>(old(self)@, context(parent), e),
    {
        let new_parent = self.0.visit_property_expression(parent, e);
        match e {
            PropertyExpression::ObjectPropertyExpression(ope) => {
                self.object_property_expression(new_parent, ope)
            },
            PropertyExpression::DataProperty(dp) => self.data_property(new_parent, dp),
            PropertyExpression::AnnotationProperty(ap) => self.annotation_property(new_parent, ap),
        }
    }

    pub fn facet_restriction(&mut self, parent: Option<Kind<B>>, e: &FacetRestriction)
        ensures
            final(self)@ == walked_facet_restriction::<B, V>(old(self)@, context(parent), e),
    {
        let new_parent = self.0.visit_facet_restriction(parent, e);
        self.facet(new_parent.clone(), &e.f);
        self.literal(new_parent, &e.l);
    }

    pub fn facet(&mut self, parent: Option<Kind<B>>, e: &Facet)
        ensures
            final(self)@ == walked_facet::<B, V>(old(self)@, context(parent), e),
    {
        self.0.visit_facet(parent, e);
    }

    pub fn data_range(&mut self, parent: Option<Kind<B>>, e: &DataRange)
        ensures
            final(self)@ == walked_data_range::<B, V>(old(self)@, context(parent), e),
        decreases e, 0nat,
    {
        let new_parent = self.0.visit_data_range(parent, e);
        match e {
            DataRange::Datatype(dt) => self.datatype(new_parent, dt),
            DataRange::DataIntersectionOf(v) => self.data_range_vec(new_parent, v),
            DataRange::DataUnionOf(v) => self.data_range_vec(new_parent, v),
            DataRange::DataComplementOf(inner) => self.data_range(new_parent, inner),
            DataRange::DataOneOf(v) => self.literal_vec(new_parent, v),
            DataRange::DatatypeRestriction(dt, v) => {
                self.datatype(new_parent.clone(), dt);
                self.facet_restriction_vec(new_parent, v);
            },
        }
    }

    pub fn class_expression(&mut self, parent: Option<Kind<B>>, e: &ClassExpression)
        ensures
            final(self)@ == walked_class_expression::<B, V>(old(self)@, context(parent), e),
        decreases e, 0nat,
    {
        let new_parent = self.0.visit_class_expression(parent, e);
        match e {
            ClassExpression::Class(cls) => self.class(new_parent, cls),
            ClassExpression::ObjectIntersectionOf(v) => self.class_expression_vec(new_parent, v),
            ClassExpression::ObjectUnionOf(v) => self.class_expression_vec(new_parent, v),
            ClassExpression::ObjectComplementOf(inner) => self.class_expression(new_parent, inner),
            ClassExpression::ObjectOneOf(v) => self.individual_vec(new_parent, v),
            ClassExpression::ObjectSomeValuesFrom { ope, bce } => {
                self.object_property_expression(new_parent.clone(), ope);
                self.class_expression(new_parent, bce);
            },
            ClassExpression::ObjectAllValuesFrom { ope, bce } => {
                self.object_property_expression(new_parent.clone(), ope);
                self.class_expression(new_parent, bce);
            },
            ClassExpression::ObjectHasValue { ope, i } => {
                self.object_property_expression(new_parent.clone(), ope);
                self.individual(new_parent, i);
            },
            ClassExpression::ObjectHasSelf(ope) => self.object_property_expression(new_parent, ope),
            ClassExpression::ObjectMinCardinality { n, ope, bce } => {
                self.0.visit_u32(new_parent.clone(), n);
                self.object_property_expression(new_parent.clone(), ope);
                self.class_expression(new_parent, bce);
            },
            ClassExpression::ObjectMaxCardinality { n, ope, bce } => {
                self.0.visit_u32(new_parent.clone(), n);
                self.object_property_expression(new_parent.clone(), ope);
                self.class_expression(new_parent, bce);
            },
            ClassExpression::ObjectExactCardinality { n, ope, bce } => {
                self.0.visit_u32(new_parent.clone(), n);
                self.object_property_expression(new_parent.clone(), ope);
                self.class_expression(new_parent, bce);
            },
            ClassExpression::DataSomeValuesFrom { dp, dr } => {
                self.data_property(new_parent.clone(), dp);
                self.data_range(new_parent, dr);
            },
            ClassExpression::DataAllValuesFrom { dp, dr } => {
                self.data_property(new_parent.clone(), dp);
                self.data_range(new_parent, dr);
            },
            ClassExpression::DataHasValue { dp, l } => {
                self.data_property(new_parent.clone(), dp);
                self.literal(new_parent, l);
            },
            ClassExpression::DataMinCardinality { n, dp, dr } => {
                self.0.visit_u32(new_parent.clone(), n);
                self.data_property(new_parent.clone(), dp);
                self.data_range(new_parent, dr);
            },
            ClassExpression::DataMaxCardinality { n, dp, dr } => {
                self.0.visit_u32(new_parent.clone(), n);
                self.data_property(new_parent.clone(), dp);
                self.data_range(new_parent, dr);
            },
            ClassExpression::DataExactCardinality { n, dp, dr } => {
                self.0.visit_u32(new_parent.clone(), n);
                self.data_property(new_parent.clone(), dp);
                self.data_range(new_parent, dr);
            },
        }
    }

    pub fn ontology_id(&mut self, parent: Option<Kind<B>>, e: &OntologyID)
        ensures
            final(self)@ == walked_ontology_id::<B, V>(old(self)@, context(parent), e),
    {
        let new_parent = self.0.visit_ontology_id(parent, e);
        self.option_iri(new_parent.clone(), &e.iri);
        self.option_iri(new_parent, &e.viri);
    }

    pub fn set_ontology(&mut self, parent: Option<Kind<B>>, e: &SetOntology)
        ensures
            final(self)@ == walked_set_ontology::<B, V>(old(self)@, context(parent), e),
    {
        let new_parent = self.0.visit_set_ontology(parent, e);
        self.ontology_id(new_parent.clone(), &e.id);
        let ghost start = self@;
        let items = &e.components;
        let mut at: usize = 0;
        while at < items.len()
            invariant
                at <= items.len(),
                self@ == walked_annotated_components::<B, V>(
                    start,
                    context(new_parent),
                    items,
                    at as nat,
                ),
            decreases items.len() - at,
        {
            self.annotated_component(new_parent.clone(), &items[at]);
            at = at + 1;
        }
    }

    pub fn option_iri(&mut self, parent: Option<Kind<B>>, e: &Option<IRI>)
        ensures
            final(self)@ == walked_option_iri::<B, V>(old(self)@, context(parent), e),
    {
        let new_parent = self.0.visit_option_iri(parent, e);
        match e {
            Some(iri) => self.iri(new_parent, iri),
            None => {},
        }
    }

    pub fn annotation_set(&mut self, parent: Option<Kind<B>>, e: &Vec<Annotation>)
        ensures
            final(self)@ == walked_annotation_set::<B, V>(old(self)@, context(parent), e),
    {
        let new_parent = self.0.visit_annotation_set(parent, e);
        let ghost start = self@;
        let mut at: usize = 0;
        while at < e.len()
            invariant
                at <= e.len(),
                self@ == walked_annotations::<B, V>(start, context(new_parent), e, at as nat),
            decreases e.len() - at,
        {
            self.annotation(new_parent.clone(), &e[at]);
            at = at + 1;
        }
    }

    pub fn class_expression_vec(&mut self, parent: Option<Kind<B>>, e: &Vec<ClassExpression>)
        ensures
            final(self)@ == walked_class_expression_vec::<B, V>(old(self)@, context(parent), e),
        decreases e, 1nat,
    {
        let new_parent = self.0.visit_class_expression_vec(parent, e);
        let ghost start = self@;
        let mut at: usize = 0;
        while at < e.len()
            invariant
                at <= e.len(),
                self@ == walked_class_expressions::<B, V>(start, context(new_parent), e, at as nat),
            decreases e.len() - at,
        {
            self.class_expression(new_parent.clone(), &e[at]);
            at = at + 1;
        }
    }

    pub fn object_property_expression_vec(
        &mut self,
        parent: Option<Kind<B>>,
        e: &Vec<ObjectPropertyExpression>,
    )
        ensures
            final(self)@
                == walked_object_property_expression_vec::<B, V>(old(self)@, context(parent), e),
    {
        let new_parent = self.0.visit_object_property_expression_vec(parent, e);
        let ghost start = self@;
        let mut at: usize = 0;
        while at < e.len()
            invariant
                at <= e.len(),
                self@ == walked_object_property_expressions::<B, V>(
                    start,
                    context(new_parent),
                    e,
                    at as nat,
                ),
            decreases e.len() - at,
        {
            self.object_property_expression(new_parent.clone(), &e[at]);
            at = at + 1;
        }
    }

    pub fn data_property_vec(&mut self, parent: Option<Kind<B>>, e: &Vec<DataProperty>)
        ensures
            final(self)@ == walked_data_property_vec::<B, V>(old(self)@, context(parent), e),
    {
        let new_parent = self.0.visit_data_property_vec(parent, e);
        let ghost start = self@;
        let mut at: usize = 0;
        while at < e.len()
            invariant
                at <= e.len(),
                self@ == walked_data_properties::<B, V>(start, context(new_parent), e, at as nat),
            decreases e.len() - at,
        {
            self.data_property(new_parent.clone(), &e[at]);
            at = at + 1;
        }
    }

    pub fn individual_vec(&mut self, parent: Option<Kind<B>>, e: &Vec<Individual>)
        ensures
            final(self)@ == walked_individual_vec::<B, V>(old(self)@, context(parent), e),
    {
        let new_parent = self.0.visit_individual_vec(parent, e);
        let ghost start = self@;
        let mut at: usize = 0;
        while at < e.len()
            invariant
                at <= e.len(),
                self@ == walked_individuals::<B, V>(start, context(new_parent), e, at as nat),
            decreases e.len() - at,
        {
            self.individual(new_parent.clone(), &e[at]);
            at = at + 1;
        }
    }

    pub fn literal_vec(&mut self, parent: Option<Kind<B>>, e: &Vec<Literal>)
        ensures
            final(self)@ == walked_literal_vec::<B, V>(old(self)@, context(parent), e),
    {
        let new_parent = self.0.visit_literal_vec(parent, e);
        let ghost start = self@;
        let mut at: usize = 0;
        while at < e.len()
            invariant
                at <= e.len(),
                self@ == walked_literals::<B, V>(start, context(new_parent), e, at as nat),
            decreases e.len() - at,
        {
            self.literal(new_parent.clone(), &e[at]);
            at = at + 1;
        }
    }

    pub fn facet_restriction_vec(&mut self, parent: Option<Kind<B>>, e: &Vec<FacetRestriction>)
        ensures
            final(self)@ == walked_facet_restriction_vec::<B, V>(old(self)@, context(parent), e),
    {
        let new_parent = self.0.visit_facet_restriction_vec(parent, e);
        let ghost start = self@;
        let mut at: usize = 0;
        while at < e.len()
            invariant
                at <= e.len(),
                self@
                    == walked_facet_restrictions::<B, V>(start, context(new_parent), e, at as nat),
            decreases e.len() - at,
        {
            self.facet_restriction(new_parent.clone(), &e[at]);
            at = at + 1;
        }
    }

    pub fn data_range_vec(&mut self, parent: Option<Kind<B>>, e: &Vec<DataRange>)
        ensures
            final(self)@ == walked_data_range_vec::<B, V>(old(self)@, context(parent), e),
        decreases e, 1nat,
    {
        let new_parent = self.0.visit_data_range_vec(parent, e);
        let ghost start = self@;
        let mut at: usize = 0;
        while at < e.len()
            invariant
                at <= e.len(),
                self@ == walked_data_ranges::<B, V>(start, context(new_parent), e, at as nat),
            decreases e.len() - at,
        {
            self.data_range(new_parent.clone(), &e[at]);
            at = at + 1;
        }
    }

    pub fn atom_vec(&mut self, parent: Option<Kind<B>>, e: &Vec<Atom>)
        ensures
            final(self)@ == walked_atom_vec::<B, V>(old(self)@, context(parent), e),
    {
        let new_parent = self.0.visit_atom_vec(parent, e);
        let ghost start = self@;
        let mut at: usize = 0;
        while at < e.len()
            invariant
                at <= e.len(),
                self@ == walked_atoms::<B, V>(start, context(new_parent), e, at as nat),
            decreases e.len() - at,
        {
            self.atom(new_parent.clone(), &e[at]);
            at = at + 1;
        }
    }

    pub fn darg_vec(&mut self, parent: Option<Kind<B>>, e: &Vec<DArgument>)
        ensures
            final(self)@ == walked_darg_vec::<B, V>(old(self)@, context(parent), e),
    {
        let new_parent = self.0.visit_darg_vec(parent, e);
        let ghost start = self@;
        let mut at: usize = 0;
        while at < e.len()
            invariant
                at <= e.len(),
                self@ == walked_dargs::<B, V>(start, context(new_parent), e, at as nat),
            decreases e.len() - at,
        {
            self.darg(new_parent.clone(), &e[at]);
            at = at + 1;
        }
    }
}

} // verus!
