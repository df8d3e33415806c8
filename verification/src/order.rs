//! The order of a traversal, said once for every kind of node.
//!
//! `children` lists what lies directly below a node, in the order in which it
//! is walked. `context_comes_from_the_parent` shows that this is all there is to
//! a traversal: the hook of a node runs with the context that the node was
//! given, and every child is then walked, in that order, with the value that
//! this hook returned. So the hook of a child receives what the hook of its
//! parent returned, whatever a sibling or an ancestor further up returned.

use vstd::prelude::*;

use crate::graph::ThingView;
use crate::model::{
    AnnotatedComponent, Annotation, AnnotationSubject, AnnotationValue, Atom, ClassExpression,
    Component, DArgument, DataProperty, DataRange, FacetRestriction, IArgument, Individual,
    Literal, ObjectPropertyExpression, PropertyExpression, SubObjectPropertyExpression,
};
use crate::visitor::{Element, Visit};
use crate::walk::{
    walked_annotated_component, walked_annotated_components, walked_annotation,
    walked_annotation_assertion, walked_annotation_property, walked_annotation_property_domain,
    walked_annotation_property_range, walked_annotation_set, walked_annotation_subject,
    walked_annotation_value, walked_annotations, walked_anonymous_individual,
    walked_asymmetric_object_property, walked_atom, walked_atom_vec, walked_atoms,
    walked_class, walked_class_assertion, walked_class_expression, walked_class_expression_vec,
    walked_class_expressions, walked_component, walked_darg, walked_darg_vec, walked_dargs,
    walked_data_properties, walked_data_property, walked_data_property_assertion,
    walked_data_property_domain, walked_data_property_range, walked_data_property_vec,
    walked_data_range, walked_data_range_vec, walked_data_ranges, walked_datatype,
    walked_datatype_definition, walked_declare_annotation_property, walked_declare_class,
    walked_declare_data_property, walked_declare_datatype, walked_declare_named_individual,
    walked_declare_object_property, walked_different_individuals, walked_disjoint_classes,
    walked_disjoint_data_properties, walked_disjoint_object_properties, walked_disjoint_union,
    walked_dociri, walked_equivalent_classes, walked_equivalent_data_properties,
    walked_equivalent_object_properties, walked_facet, walked_facet_restriction,
    walked_facet_restriction_vec, walked_facet_restrictions, walked_functional_data_property,
    walked_functional_object_property, walked_has_key, walked_iarg, walked_import,
    walked_individual, walked_individual_vec, walked_individuals,
    walked_inverse_functional_object_property, walked_inverse_object_properties, walked_iri,
    walked_irreflexive_object_property, walked_literal, walked_literal_vec, walked_literals,
    walked_named_individual, walked_negative_data_property_assertion,
    walked_negative_object_property_assertion, walked_object_property,
    walked_object_property_assertion, walked_object_property_domain,
    walked_object_property_expression, walked_object_property_expression_vec,
    walked_object_property_expressions, walked_object_property_range,
    walked_ontology_annotation, walked_ontology_id, walked_option_iri,
    walked_property_expression, walked_property_expressions, walked_reflexive_object_property,
    walked_rule, walked_same_individual, walked_set_ontology,
    walked_sub_annotation_property_of, walked_sub_class_of, walked_sub_data_property_of,
    walked_sub_object_property_expression, walked_sub_object_property_of,
    walked_symmetric_object_property, walked_transitive_object_property, walked_variable,
};

verus! {

/// The members of `items` as nodes, one for one.
pub open spec fn property_expression_elements<'a>(
    items: &'a Vec<PropertyExpression>,
) -> Seq<Element<'a>> {
    Seq::new(items.len() as nat, |i: int| Element::PropertyExpression(&items[i]))
}

/// The members of `items` as nodes, one for one.
pub open spec fn annotated_component_elements<'a>(
    items: &'a Vec<AnnotatedComponent>,
) -> Seq<Element<'a>> {
    Seq::new(items.len() as nat, |i: int| Element::AnnotatedComponent(&items[i]))
}

/// What lies directly below `node`, in the order in which it is walked.
pub open spec fn children<'a>(node: Element<'a>) -> Seq<Element<'a>> {
    match node {
        Element::Str(_) => seq![],
        Element::U32(_) => seq![],
        Element::Iri(_) => seq![],
        Element::AnonymousIndividual(_) => seq![],
        Element::Individual(e) => match e {
            Individual::Anonymous(a) => seq![Element::AnonymousIndividual(a)],
            Individual::Named(n) => seq![Element::NamedIndividual(n)],
        },
        Element::AnnotationSubject(e) => match e {
            AnnotationSubject::IRI(iri) => seq![Element::Iri(iri)],
            AnnotationSubject::AnonymousIndividual(anon) => seq![
                Element::AnonymousIndividual(anon),
            ],
        },
        Element::DocIRI(e) => seq![Element::Iri(&e.0)],
        Element::Class(e) => seq![Element::Iri(&e.0)],
        Element::Datatype(e) => seq![Element::Iri(&e.0)],
        Element::ObjectProperty(e) => seq![Element::Iri(&e.0)],
        Element::DataProperty(e) => seq![Element::Iri(&e.0)],
        Element::AnnotationProperty(e) => seq![Element::Iri(&e.0)],
        Element::NamedIndividual(e) => seq![Element::Iri(&e.0)],
        Element::AnnotatedComponent(e) => seq![
            Element::Component(&e.component),
            Element::AnnotationSet(&e.ann),
        ],
        Element::Component(e) => match e {
            Component::OntologyID(ax) => seq![Element::OntologyID(ax)],
            Component::DocIRI(ax) => seq![Element::DocIRI(ax)],
            Component::Import(ax) => seq![Element::Import(ax)],
            Component::OntologyAnnotation(ax) => seq![Element::OntologyAnnotation(ax)],
            Component::DeclareClass(ax) => seq![Element::DeclareClass(ax)],
            Component::DeclareObjectProperty(ax) => seq![Element::DeclareObjectProperty(ax)],
            Component::DeclareAnnotationProperty(ax) => seq![
                Element::DeclareAnnotationProperty(ax),
            ],
            Component::DeclareDataProperty(ax) => seq![Element::DeclareDataProperty(ax)],
            Component::DeclareNamedIndividual(ax) => seq![Element::DeclareNamedIndividual(ax)],
            Component::DeclareDatatype(ax) => seq![Element::DeclareDatatype(ax)],
            Component::SubClassOf(ax) => seq![Element::SubClassOf(ax)],
            Component::EquivalentClasses(ax) => seq![Element::EquivalentClasses(ax)],
            Component::DisjointClasses(ax) => seq![Element::DisjointClasses(ax)],
            Component::DisjointUnion(ax) => seq![Element::DisjointUnion(ax)],
            Component::SubObjectPropertyOf(ax) => seq![Element::SubObjectPropertyOf(ax)],
            Component::EquivalentObjectProperties(ax) => seq![
                Element::EquivalentObjectProperties(ax),
            ],
            Component::DisjointObjectProperties(ax) => seq![Element::DisjointObjectProperties(ax)],
            Component::InverseObjectProperties(ax) => seq![Element::InverseObjectProperties(ax)],
            Component::ObjectPropertyDomain(ax) => seq![Element::ObjectPropertyDomain(ax)],
            Component::ObjectPropertyRange(ax) => seq![Element::ObjectPropertyRange(ax)],
            Component::FunctionalObjectProperty(ax) => seq![Element::FunctionalObjectProperty(ax)],
            Component::InverseFunctionalObjectProperty(ax) => seq![
                Element::InverseFunctionalObjectProperty(ax),
            ],
            Component::ReflexiveObjectProperty(ax) => seq![Element::ReflexiveObjectProperty(ax)],
            Component::IrreflexiveObjectProperty(ax) => seq![
                Element::IrreflexiveObjectProperty(ax),
            ],
            Component::SymmetricObjectProperty(ax) => seq![Element::SymmetricObjectProperty(ax)],
            Component::AsymmetricObjectProperty(ax) => seq![Element::AsymmetricObjectProperty(ax)],
            Component::TransitiveObjectProperty(ax) => seq![Element::TransitiveObjectProperty(ax)],
            Component::SubDataPropertyOf(ax) => seq![Element::SubDataPropertyOf(ax)],
            Component::EquivalentDataProperties(ax) => seq![Element::EquivalentDataProperties(ax)],
            Component::DisjointDataProperties(ax) => seq![Element::DisjointDataProperties(ax)],
            Component::DataPropertyDomain(ax) => seq![Element::DataPropertyDomain(ax)],
            Component::DataPropertyRange(ax) => seq![Element::DataPropertyRange(ax)],
            Component::FunctionalDataProperty(ax) => seq![Element::FunctionalDataProperty(ax)],
            Component::DatatypeDefinition(ax) => seq![Element::DatatypeDefinition(ax)],
            Component::HasKey(ax) => seq![Element::HasKey(ax)],
            Component::SameIndividual(ax) => seq![Element::SameIndividual(ax)],
            Component::DifferentIndividuals(ax) => seq![Element::DifferentIndividuals(ax)],
            Component::ClassAssertion(ax) => seq![Element::ClassAssertion(ax)],
            Component::ObjectPropertyAssertion(ax) => seq![Element::ObjectPropertyAssertion(ax)],
            Component::NegativeObjectPropertyAssertion(ax) => seq![
                Element::NegativeObjectPropertyAssertion(ax),
            ],
            Component::DataPropertyAssertion(ax) => seq![Element::DataPropertyAssertion(ax)],
            Component::NegativeDataPropertyAssertion(ax) => seq![
                Element::NegativeDataPropertyAssertion(ax),
            ],
            Component::AnnotationAssertion(ax) => seq![Element::AnnotationAssertion(ax)],
            Component::SubAnnotationPropertyOf(ax) => seq![Element::SubAnnotationPropertyOf(ax)],
            Component::AnnotationPropertyDomain(ax) => seq![Element::AnnotationPropertyDomain(ax)],
            Component::AnnotationPropertyRange(ax) => seq![Element::AnnotationPropertyRange(ax)],
            Component::Rule(ax) => seq![Element::Rule(ax)],
        },
        Element::Import(e) => seq![Element::Iri(&e.0)],
        Element::OntologyAnnotation(e) => seq![Element::Annotation(&e.0)],
        Element::DeclareClass(e) => seq![Element::Class(&e.0)],
        Element::DeclareObjectProperty(e) => seq![Element::ObjectProperty(&e.0)],
        Element::DeclareAnnotationProperty(e) => seq![Element::AnnotationProperty(&e.0)],
        Element::DeclareDataProperty(e) => seq![Element::DataProperty(&e.0)],
        Element::DeclareNamedIndividual(e) => seq![Element::NamedIndividual(&e.0)],
        Element::DeclareDatatype(e) => seq![Element::Datatype(&e.0)],
        Element::SubClassOf(e) => seq![
            Element::ClassExpression(&e.sup),
            Element::ClassExpression(&e.sub),
        ],
        Element::EquivalentClasses(e) => seq![Element::ClassExpressionVec(&e.0)],
        Element::DisjointClasses(e) => seq![Element::ClassExpressionVec(&e.0)],
        Element::DisjointUnion(e) => seq![Element::Class(&e.0), Element::ClassExpressionVec(&e.1)],
        Element::SubObjectPropertyOf(e) => seq![
            Element::ObjectPropertyExpression(&e.sup),
            Element::SubObjectPropertyExpression(&e.sub),
        ],
        Element::EquivalentObjectProperties(e) => seq![Element::ObjectPropertyExpressionVec(&e.0)],
        Element::DisjointObjectProperties(e) => seq![Element::ObjectPropertyExpressionVec(&e.0)],
        Element::InverseObjectProperties(e) => seq![
            Element::ObjectProperty(&e.0),
            Element::ObjectProperty(&e.1),
        ],
        Element::ObjectPropertyDomain(e) => seq![
            Element::ObjectPropertyExpression(&e.ope),
            Element::ClassExpression(&e.ce),
        ],
        Element::ObjectPropertyRange(e) => seq![
            Element::ObjectPropertyExpression(&e.ope),
            Element::ClassExpression(&e.ce),
        ],
        Element::FunctionalObjectProperty(e) => seq![Element::ObjectPropertyExpression(&e.0)],
        Element::InverseFunctionalObjectProperty(e) => seq![
            Element::ObjectPropertyExpression(&e.0),
        ],
        Element::ReflexiveObjectProperty(e) => seq![Element::ObjectPropertyExpression(&e.0)],
        Element::IrreflexiveObjectProperty(e) => seq![Element::ObjectPropertyExpression(&e.0)],
        Element::SymmetricObjectProperty(e) => seq![Element::ObjectPropertyExpression(&e.0)],
        Element::AsymmetricObjectProperty(e) => seq![Element::ObjectPropertyExpression(&e.0)],
        Element::TransitiveObjectProperty(e) => seq![Element::ObjectPropertyExpression(&e.0)],
        Element::SubDataPropertyOf(e) => seq![
            Element::DataProperty(&e.sup),
            Element::DataProperty(&e.sub),
        ],
        Element::EquivalentDataProperties(e) => seq![Element::DataPropertyVec(&e.0)],
        Element::DisjointDataProperties(e) => seq![Element::DataPropertyVec(&e.0)],
        Element::DataPropertyDomain(e) => seq![
            Element::DataProperty(&e.dp),
            Element::ClassExpression(&e.ce),
        ],
        Element::DataPropertyRange(e) => seq![
            Element::DataProperty(&e.dp),
            Element::DataRange(&e.dr),
        ],
        Element::FunctionalDataProperty(e) => seq![Element::DataProperty(&e.0)],
        Element::DatatypeDefinition(e) => seq![
            Element::Datatype(&e.kind),
            Element::DataRange(&e.range),
        ],
        Element::HasKey(e) => seq![Element::ClassExpression(&e.ce)] + property_expression_elements(
            &e.vpe,
        ),
        Element::SameIndividual(e) => seq![Element::IndividualVec(&e.0)],
        Element::DifferentIndividuals(e) => seq![Element::IndividualVec(&e.0)],
        Element::ClassAssertion(e) => seq![
            Element::ClassExpression(&e.ce),
            Element::Individual(&e.i),
        ],
        Element::ObjectPropertyAssertion(e) => seq![
            Element::ObjectPropertyExpression(&e.ope),
            Element::Individual(&e.from),
            Element::Individual(&e.to),
        ],
        Element::NegativeObjectPropertyAssertion(e) => seq![
            Element::ObjectPropertyExpression(&e.ope),
            Element::Individual(&e.from),
            Element::Individual(&e.to),
        ],
        Element::DataPropertyAssertion(e) => seq![
            Element::DataProperty(&e.dp),
            Element::Individual(&e.from),
            Element::Literal(&e.to),
        ],
        Element::NegativeDataPropertyAssertion(e) => seq![
            Element::DataProperty(&e.dp),
            Element::Individual(&e.from),
            Element::Literal(&e.to),
        ],
        Element::AnnotationAssertion(e) => seq![
            Element::AnnotationSubject(&e.subject),
            Element::Annotation(&e.ann),
        ],
        Element::SubAnnotationPropertyOf(e) => seq![
            Element::AnnotationProperty(&e.sup),
            Element::AnnotationProperty(&e.sub),
        ],
        Element::AnnotationPropertyDomain(e) => seq![
            Element::AnnotationProperty(&e.ap),
            Element::Iri(&e.iri),
        ],
        Element::AnnotationPropertyRange(e) => seq![
            Element::AnnotationProperty(&e.ap),
            Element::Iri(&e.iri),
        ],
        Element::Rule(e) => seq![Element::AtomVec(&e.head), Element::AtomVec(&e.body)],
        Element::Atom(e) => match e {
            Atom::BuiltInAtom { pred, args } => seq![
                Element::Iri(pred),
                Element::DArgumentVec(args),
            ],
            Atom::ClassAtom { pred, arg } => seq![
                Element::ClassExpression(pred),
                Element::IArgument(arg),
            ],
            Atom::DataPropertyAtom { pred, args } => seq![
                Element::DataProperty(pred),
                Element::DArgument(&args.0),
                Element::DArgument(&args.1),
            ],
            Atom::DataRangeAtom { pred, arg } => seq![
                Element::DataRange(pred),
                Element::DArgument(arg),
            ],
            Atom::DifferentIndividualsAtom(arg1, arg2) => seq![
                Element::IArgument(arg1),
                Element::IArgument(arg2),
            ],
            Atom::ObjectPropertyAtom { pred, args } => seq![
                Element::ObjectPropertyExpression(pred),
                Element::IArgument(&args.0),
                Element::IArgument(&args.1),
            ],
            Atom::SameIndividualAtom(arg1, arg2) => seq![
                Element::IArgument(arg1),
                Element::IArgument(arg2),
            ],
        },
        Element::Variable(_) => seq![],
        Element::IArgument(e) => match e {
            IArgument::Individual(i) => seq![Element::Individual(i)],
            IArgument::Variable(v) => seq![Element::Variable(v)],
        },
        Element::DArgument(e) => match e {
            DArgument::Literal(l) => seq![Element::Literal(l)],
            DArgument::Variable(v) => seq![Element::Variable(v)],
        },
        Element::Literal(e) => match e {
            Literal::Simple { literal } => seq![Element::Str(literal)],
            Literal::Language { literal, lang } => seq![Element::Str(literal), Element::Str(lang)],
            Literal::Datatype { literal: _, datatype_iri } => seq![Element::Iri(datatype_iri)],
        },
        Element::Annotation(e) => seq![
            Element::AnnotationProperty(&e.ap),
            Element::AnnotationValue(&e.av),
        ],
        Element::AnnotationValue(e) => match e {
            AnnotationValue::Literal(lit) => seq![Element::Literal(lit)],
            AnnotationValue::IRI(iri) => seq![Element::Iri(iri)],
            AnnotationValue::AnonymousIndividual(anon) => seq![Element::AnonymousIndividual(anon)],
        },
        Element::ObjectPropertyExpression(e) => match e {
            ObjectPropertyExpression::ObjectProperty(prop) => seq![Element::ObjectProperty(prop)],
            ObjectPropertyExpression::InverseObjectProperty(prop) => seq![
                Element::ObjectProperty(prop),
            ],
        },
        Element::SubObjectPropertyExpression(e) => match e {
            SubObjectPropertyExpression::ObjectPropertyChain(chain) => seq![
                Element::ObjectPropertyExpressionVec(chain),
            ],
            SubObjectPropertyExpression::ObjectPropertyExpression(ope) => seq![
                Element::ObjectPropertyExpression(ope),
            ],
        },
        Element::PropertyExpression(e) => match e {
            PropertyExpression::ObjectPropertyExpression(ope) => seq![
                Element::ObjectPropertyExpression(ope),
            ],
            PropertyExpression::DataProperty(dp) => seq![Element::DataProperty(dp)],
            PropertyExpression::AnnotationProperty(ap) => seq![Element::AnnotationProperty(ap)],
        },
        Element::FacetRestriction(e) => seq![Element::Facet(&e.f), Element::Literal(&e.l)],
        Element::Facet(_) => seq![],
        Element::DataRange(e) => match e {
            DataRange::Datatype(dt) => seq![Element::Datatype(dt)],
            DataRange::DataIntersectionOf(v) => seq![Element::DataRangeVec(v)],
            DataRange::DataUnionOf(v) => seq![Element::DataRangeVec(v)],
            DataRange::DataComplementOf(inner) => seq![Element::DataRange(inner)],
            DataRange::DataOneOf(v) => seq![Element::LiteralVec(v)],
            DataRange::DatatypeRestriction(dt, v) => seq![
                Element::Datatype(dt),
                Element::FacetRestrictionVec(v),
            ],
        },
        Element::ClassExpression(e) => match e {
            ClassExpression::Class(cls) => seq![Element::Class(cls)],
            ClassExpression::ObjectIntersectionOf(v) => seq![Element::ClassExpressionVec(v)],
            ClassExpression::ObjectUnionOf(v) => seq![Element::ClassExpressionVec(v)],
            ClassExpression::ObjectComplementOf(inner) => seq![Element::ClassExpression(inner)],
            ClassExpression::ObjectOneOf(v) => seq![Element::IndividualVec(v)],
            ClassExpression::ObjectSomeValuesFrom { ope, bce } => seq![
                Element::ObjectPropertyExpression(ope),
                Element::ClassExpression(bce),
            ],
            ClassExpression::ObjectAllValuesFrom { ope, bce } => seq![
                Element::ObjectPropertyExpression(ope),
                Element::ClassExpression(bce),
            ],
            ClassExpression::ObjectHasValue { ope, i } => seq![
                Element::ObjectPropertyExpression(ope),
                Element::Individual(i),
            ],
            ClassExpression::ObjectHasSelf(ope) => seq![Element::ObjectPropertyExpression(ope)],
            ClassExpression::ObjectMinCardinality { n, ope, bce } => seq![
                Element::U32(n),
                Element::ObjectPropertyExpression(ope),
                Element::ClassExpression(bce),
            ],
            ClassExpression::ObjectMaxCardinality { n, ope, bce } => seq![
                Element::U32(n),
                Element::ObjectPropertyExpression(ope),
                Element::ClassExpression(bce),
            ],
            ClassExpression::ObjectExactCardinality { n, ope, bce } => seq![
                Element::U32(n),
                Element::ObjectPropertyExpression(ope),
                Element::ClassExpression(bce),
            ],
            ClassExpression::DataSomeValuesFrom { dp, dr } => seq![
                Element::DataProperty(dp),
                Element::DataRange(dr),
            ],
            ClassExpression::DataAllValuesFrom { dp, dr } => seq![
                Element::DataProperty(dp),
                Element::DataRange(dr),
            ],
            ClassExpression::DataHasValue { dp, l } => seq![
                Element::DataProperty(dp),
                Element::Literal(l),
            ],
            ClassExpression::DataMinCardinality { n, dp, dr } => seq![
                Element::U32(n),
                Element::DataProperty(dp),
                Element::DataRange(dr),
            ],
            ClassExpression::DataMaxCardinality { n, dp, dr } => seq![
                Element::U32(n),
                Element::DataProperty(dp),
                Element::DataRange(dr),
            ],
            ClassExpression::DataExactCardinality { n, dp, dr } => seq![
                Element::U32(n),
                Element::DataProperty(dp),
                Element::DataRange(dr),
            ],
        },
        Element::OntologyID(e) => seq![Element::OptionIri(&e.iri), Element::OptionIri(&e.viri)],
        Element::SetOntology(e) => seq![Element::OntologyID(&e.id)] + annotated_component_elements(
            &e.components,
        ),
        Element::OptionIri(e) => match e {
            Some(iri) => seq![Element::Iri(iri)],
            None => seq![],
        },
        Element::AnnotationSet(e) => Seq::new(e.len() as nat, |i: int| Element::Annotation(&e[i])),
        Element::ClassExpressionVec(e) => Seq::new(
            e.len() as nat,
            |i: int| Element::ClassExpression(&e[i]),
        ),
        Element::ObjectPropertyExpressionVec(e) => Seq::new(
            e.len() as nat,
            |i: int| Element::ObjectPropertyExpression(&e[i]),
        ),
        Element::DataPropertyVec(e) => Seq::new(
            e.len() as nat,
            |i: int| Element::DataProperty(&e[i]),
        ),
        Element::DataRangeVec(e) => Seq::new(e.len() as nat, |i: int| Element::DataRange(&e[i])),
        Element::IndividualVec(e) => Seq::new(e.len() as nat, |i: int| Element::Individual(&e[i])),
        Element::LiteralVec(e) => Seq::new(e.len() as nat, |i: int| Element::Literal(&e[i])),
        Element::FacetRestrictionVec(e) => Seq::new(
            e.len() as nat,
            |i: int| Element::FacetRestriction(&e[i]),
        ),
        Element::AtomVec(e) => Seq::new(e.len() as nat, |i: int| Element::Atom(&e[i])),
        Element::DArgumentVec(e) => Seq::new(e.len() as nat, |i: int| Element::DArgument(&e[i])),
    }
}

/// The state of the visitor once `node` has been walked from the state `s`
/// with the context `c`.
pub open spec fn walked<B, V: Visit<B>>(
    s: V::V,
    c: Option<ThingView<B>>,
    node: Element<'_>,
) -> V::V {
    match node {
        Element::Str(_) => V::after(s, c, node),
        Element::U32(_) => V::after(s, c, node),
        Element::Iri(e) => walked_iri::<B, V>(s, c, e),
        Element::AnonymousIndividual(e) => walked_anonymous_individual::<B, V>(s, c, e),
        Element::Individual(e) => walked_individual::<B, V>(s, c, e),
        Element::AnnotationSubject(e) => walked_annotation_subject::<B, V>(s, c, e),
        Element::DocIRI(e) => walked_dociri::<B, V>(s, c, e),
        Element::Class(e) => walked_class::<B, V>(s, c, e),
        Element::Datatype(e) => walked_datatype::<B, V>(s, c, e),
        Element::ObjectProperty(e) => walked_object_property::<B, V>(s, c, e),
        Element::DataProperty(e) => walked_data_property::<B, V>(s, c, e),
        Element::AnnotationProperty(e) => walked_annotation_property::<B, V>(s, c, e),
        Element::NamedIndividual(e) => walked_named_individual::<B, V>(s, c, e),
        Element::AnnotatedComponent(e) => walked_annotated_component::<B, V>(s, c, e),
        Element::Component(e) => walked_component::<B, V>(s, c, e),
        Element::Import(e) => walked_import::<B, V>(s, c, e),
        Element::OntologyAnnotation(e) => walked_ontology_annotation::<B, V>(s, c, e),
        Element::DeclareClass(e) => walked_declare_class::<B, V>(s, c, e),
        Element::DeclareObjectProperty(e) => walked_declare_object_property::<B, V>(s, c, e),
        Element::DeclareAnnotationProperty(e) => {
            walked_declare_annotation_property::<B, V>(s, c, e)
        },
        Element::DeclareDataProperty(e) => walked_declare_data_property::<B, V>(s, c, e),
        Element::DeclareNamedIndividual(e) => walked_declare_named_individual::<B, V>(s, c, e),
        Element::DeclareDatatype(e) => walked_declare_datatype::<B, V>(s, c, e),
        Element::SubClassOf(e) => walked_sub_class_of::<B, V>(s, c, e),
        Element::EquivalentClasses(e) => walked_equivalent_classes::<B, V>(s, c, e),
        Element::DisjointClasses(e) => walked_disjoint_classes::<B, V>(s, c, e),
        Element::DisjointUnion(e) => walked_disjoint_union::<B, V>(s, c, e),
        Element::SubObjectPropertyOf(e) => walked_sub_object_property_of::<B, V>(s, c, e),
        Element::EquivalentObjectProperties(e) => {
            walked_equivalent_object_properties::<B, V>(s, c, e)
        },
        Element::DisjointObjectProperties(e) => walked_disjoint_object_properties::<B, V>(s, c, e),
        Element::InverseObjectProperties(e) => walked_inverse_object_properties::<B, V>(s, c, e),
        Element::ObjectPropertyDomain(e) => walked_object_property_domain::<B, V>(s, c, e),
        Element::ObjectPropertyRange(e) => walked_object_property_range::<B, V>(s, c, e),
        Element::FunctionalObjectProperty(e) => walked_functional_object_property::<B, V>(s, c, e),
        Element::InverseFunctionalObjectProperty(e) => {
            walked_inverse_functional_object_property::<B, V>(s, c, e)
        },
        Element::ReflexiveObjectProperty(e) => walked_reflexive_object_property::<B, V>(s, c, e),
        Element::IrreflexiveObjectProperty(e) => {
            walked_irreflexive_object_property::<B, V>(s, c, e)
        },
        Element::SymmetricObjectProperty(e) => walked_symmetric_object_property::<B, V>(s, c, e),
        Element::AsymmetricObjectProperty(e) => walked_asymmetric_object_property::<B, V>(s, c, e),
        Element::TransitiveObjectProperty(e) => walked_transitive_object_property::<B, V>(s, c, e),
        Element::SubDataPropertyOf(e) => walked_sub_data_property_of::<B, V>(s, c, e),
        Element::EquivalentDataProperties(e) => walked_equivalent_data_properties::<B, V>(s, c, e),
        Element::DisjointDataProperties(e) => walked_disjoint_data_properties::<B, V>(s, c, e),
        Element::DataPropertyDomain(e) => walked_data_property_domain::<B, V>(s, c, e),
        Element::DataPropertyRange(e) => walked_data_property_range::<B, V>(s, c, e),
        Element::FunctionalDataProperty(e) => walked_functional_data_property::<B, V>(s, c, e),
        Element::DatatypeDefinition(e) => walked_datatype_definition::<B, V>(s, c, e),
        Element::HasKey(e) => walked_has_key::<B, V>(s, c, e),
        Element::SameIndividual(e) => walked_same_individual::<B, V>(s, c, e),
        Element::DifferentIndividuals(e) => walked_different_individuals::<B, V>(s, c, e),
        Element::ClassAssertion(e) => walked_class_assertion::<B, V>(s, c, e),
        Element::ObjectPropertyAssertion(e) => walked_object_property_assertion::<B, V>(s, c, e),
        Element::NegativeObjectPropertyAssertion(e) => {
            walked_negative_object_property_assertion::<B, V>(s, c, e)
        },
        Element::DataPropertyAssertion(e) => walked_data_property_assertion::<B, V>(s, c, e),
        Element::NegativeDataPropertyAssertion(e) => {
            walked_negative_data_property_assertion::<B, V>(s, c, e)
        },
        Element::AnnotationAssertion(e) => walked_annotation_assertion::<B, V>(s, c, e),
        Element::SubAnnotationPropertyOf(e) => walked_sub_annotation_property_of::<B, V>(s, c, e),
        Element::AnnotationPropertyDomain(e) => walked_annotation_property_domain::<B, V>(s, c, e),
        Element::AnnotationPropertyRange(e) => walked_annotation_property_range::<B, V>(s, c, e),
        Element::Rule(e) => walked_rule::<B, V>(s, c, e),
        Element::Atom(e) => walked_atom::<B, V>(s, c, e),
        Element::Variable(e) => walked_variable::<B, V>(s, c, e),
        Element::IArgument(e) => walked_iarg::<B, V>(s, c, e),
        Element::DArgument(e) => walked_darg::<B, V>(s, c, e),
        Element::Literal(e) => walked_literal::<B, V>(s, c, e),
        Element::Annotation(e) => walked_annotation::<B, V>(s, c, e),
        Element::AnnotationValue(e) => walked_annotation_value::<B, V>(s, c, e),
        Element::ObjectPropertyExpression(e) => walked_object_property_expression::<B, V>(s, c, e),
        Element::SubObjectPropertyExpression(e) => {
            walked_sub_object_property_expression::<B, V>(s, c, e)
        },
        Element::PropertyExpression(e) => walked_property_expression::<B, V>(s, c, e),
        Element::FacetRestriction(e) => walked_facet_restriction::<B, V>(s, c, e),
        Element::Facet(e) => walked_facet::<B, V>(s, c, e),
        Element::DataRange(e) => walked_data_range::<B, V>(s, c, e),
        Element::ClassExpression(e) => walked_class_expression::<B, V>(s, c, e),
        Element::OntologyID(e) => walked_ontology_id::<B, V>(s, c, e),
        Element::SetOntology(e) => walked_set_ontology::<B, V>(s, c, e),
        Element::OptionIri(e) => walked_option_iri::<B, V>(s, c, e),
        Element::AnnotationSet(e) => walked_annotation_set::<B, V>(s, c, e),
        Element::ClassExpressionVec(e) => walked_class_expression_vec::<B, V>(s, c, e),
        Element::ObjectPropertyExpressionVec(e) => {
            walked_object_property_expression_vec::<B, V>(s, c, e)
        },
        Element::DataPropertyVec(e) => walked_data_property_vec::<B, V>(s, c, e),
        Element::DataRangeVec(e) => walked_data_range_vec::<B, V>(s, c, e),
        Element::IndividualVec(e) => walked_individual_vec::<B, V>(s, c, e),
        Element::LiteralVec(e) => walked_literal_vec::<B, V>(s, c, e),
        Element::FacetRestrictionVec(e) => walked_facet_restriction_vec::<B, V>(s, c, e),
        Element::AtomVec(e) => walked_atom_vec::<B, V>(s, c, e),
        Element::DArgumentVec(e) => walked_darg_vec::<B, V>(s, c, e),
    }
}

/// The state once the first `n` of `nodes` have been walked from `s`, each
/// with the context `c`.
pub open spec fn walked_each<B, V: Visit<B>>(
    s: V::V,
    c: Option<ThingView<B>>,
    nodes: Seq<Element<'_>>,
    n: nat,
) -> V::V
    decreases n,
{
    if n == 0 || n > nodes.len() {
        s
    } else {
        walked::<B, V>(walked_each::<B, V>(s, c, nodes, (n - 1) as nat), c, nodes[n - 1])
    }
}

/// Walking two runs of nodes one after the other is walking the first and then
/// the second from where the first left off.
proof fn walked_each_of_two_runs<B, V: Visit<B>>(
    s: V::V,
    c: Option<ThingView<B>>,
    first: Seq<Element<'_>>,
    second: Seq<Element<'_>>,
    n: nat,
)
    requires
        n <= second.len(),
    ensures
        walked_each::<B, V>(s, c, first + second, first.len() + n) == walked_each::<B, V>(
            walked_each::<B, V>(s, c, first, first.len()),
            c,
            second,
            n,
        ),
    decreases n,
{
    if n == 0 {
        walked_each_of_a_prefix::<B, V>(s, c, first, first + second, first.len());
    } else {
        walked_each_of_two_runs::<B, V>(s, c, first, second, (n - 1) as nat);
        assert((first + second)[first.len() + n - 1] == second[n - 1]);
    }
}

/// Walking the first `n` nodes of a run takes no notice of those that follow.
proof fn walked_each_of_a_prefix<B, V: Visit<B>>(
    s: V::V,
    c: Option<ThingView<B>>,
    short: Seq<Element<'_>>,
    long: Seq<Element<'_>>,
    n: nat,
)
    requires
        n <= short.len() <= long.len(),
        forall|i: int| 0 <= i < short.len() ==> short[i] == long[i],
    ensures
        walked_each::<B, V>(s, c, short, n) == walked_each::<B, V>(s, c, long, n),
    decreases n,
{
    if n > 0 {
        walked_each_of_a_prefix::<B, V>(s, c, short, long, (n - 1) as nat);
    }
}

/// Walking the members of `items` as nodes is walking them as members of their list.
proof fn each_of_property_expressions<B, V: Visit<B>>(
    s: V::V,
    c: Option<ThingView<B>>,
    items: &Vec<PropertyExpression>,
    n: nat,
)
    ensures
        walked_each::<B, V>(s, c, property_expression_elements(items), n)
            == walked_property_expressions::<B, V>(s, c, items, n),
    decreases n,
{
    if n > 0 && n <= items.len() {
        each_of_property_expressions::<B, V>(s, c, items, (n - 1) as nat);
    }
}

/// Walking the members of `items` as nodes is walking them as members of their list.
proof fn each_of_annotated_components<B, V: Visit<B>>(
    s: V::V,
    c: Option<ThingView<B>>,
    items: &Vec<AnnotatedComponent>,
    n: nat,
)
    ensures
        walked_each::<B, V>(s, c, annotated_component_elements(items), n)
            == walked_annotated_components::<B, V>(s, c, items, n),
    decreases n,
{
    if n > 0 && n <= items.len() {
        each_of_annotated_components::<B, V>(s, c, items, (n - 1) as nat);
    }
}

/// Walking the members of `items` as nodes is walking them as members of their list.
proof fn each_of_annotations<B, V: Visit<B>>(
    s: V::V,
    c: Option<ThingView<B>>,
    items: &Vec<Annotation>,
    n: nat,
)
    ensures
        walked_each::<B, V>(s, c, children(Element::AnnotationSet(items)), n)
            == walked_annotations::<B, V>(s, c, items, n),
    decreases n,
{
    if n > 0 && n <= items.len() {
        each_of_annotations::<B, V>(s, c, items, (n - 1) as nat);
    }
}

/// Walking the members of `items` as nodes is walking them as members of their list.
proof fn each_of_class_expressions<B, V: Visit<B>>(
    s: V::V,
    c: Option<ThingView<B>>,
    items: &Vec<ClassExpression>,
    n: nat,
)
    ensures
        walked_each::<B, V>(s, c, children(Element::ClassExpressionVec(items)), n)
            == walked_class_expressions::<B, V>(s, c, items, n),
    decreases n,
{
    if n > 0 && n <= items.len() {
        each_of_class_expressions::<B, V>(s, c, items, (n - 1) as nat);
    }
}

/// Walking the members of `items` as nodes is walking them as members of their list.
proof fn each_of_object_property_expressions<B, V: Visit<B>>(
    s: V::V,
    c: Option<ThingView<B>>,
    items: &Vec<ObjectPropertyExpression>,
    n: nat,
)
    ensures
        walked_each::<B, V>(s, c, children(Element::ObjectPropertyExpressionVec(items)), n)
            == walked_object_property_expressions::<B, V>(s, c, items, n),
    decreases n,
{
    if n > 0 && n <= items.len() {
        each_of_object_property_expressions::<B, V>(s, c, items, (n - 1) as nat);
    }
}

/// Walking the members of `items` as nodes is walking them as members of their list.
proof fn each_of_data_properties<B, V: Visit<B>>(
    s: V::V,
    c: Option<ThingView<B>>,
    items: &Vec<DataProperty>,
    n: nat,
)
    ensures
        walked_each::<B, V>(s, c, children(Element::DataPropertyVec(items)), n)
            == walked_data_properties::<B, V>(s, c, items, n),
    decreases n,
{
    if n > 0 && n <= items.len() {
        each_of_data_properties::<B, V>(s, c, items, (n - 1) as nat);
    }
}

/// Walking the members of `items` as nodes is walking them as members of their list.
proof fn each_of_individuals<B, V: Visit<B>>(
    s: V::V,
    c: Option<ThingView<B>>,
    items: &Vec<Individual>,
    n: nat,
)
    ensures
        walked_each::<B, V>(s, c, children(Element::IndividualVec(items)), n)
            == walked_individuals::<B, V>(s, c, items, n),
    decreases n,
{
    if n > 0 && n <= items.len() {
        each_of_individuals::<B, V>(s, c, items, (n - 1) as nat);
    }
}

/// Walking the members of `items` as nodes is walking them as members of their list.
proof fn each_of_literals<B, V: Visit<B>>(
    s: V::V,
    c: Option<ThingView<B>>,
    items: &Vec<Literal>,
    n: nat,
)
    ensures
        walked_each::<B, V>(s, c, children(Element::LiteralVec(items)), n)
            == walked_literals::<B, V>(s, c, items, n),
    decreases n,
{
    if n > 0 && n <= items.len() {
        each_of_literals::<B, V>(s, c, items, (n - 1) as nat);
    }
}

/// Walking the members of `items` as nodes is walking them as members of their list.
proof fn each_of_facet_restrictions<B, V: Visit<B>>(
    s: V::V,
    c: Option<ThingView<B>>,
    items: &Vec<FacetRestriction>,
    n: nat,
)
    ensures
        walked_each::<B, V>(s, c, children(Element::FacetRestrictionVec(items)), n)
            == walked_facet_restrictions::<B, V>(s, c, items, n),
    decreases n,
{
    if n > 0 && n <= items.len() {
        each_of_facet_restrictions::<B, V>(s, c, items, (n - 1) as nat);
    }
}

/// Walking the members of `items` as nodes is walking them as members of their list.
proof fn each_of_data_ranges<B, V: Visit<B>>(
    s: V::V,
    c: Option<ThingView<B>>,
    items: &Vec<DataRange>,
    n: nat,
)
    ensures
        walked_each::<B, V>(s, c, children(Element::DataRangeVec(items)), n)
            == walked_data_ranges::<B, V>(s, c, items, n),
    decreases n,
{
    if n > 0 && n <= items.len() {
        each_of_data_ranges::<B, V>(s, c, items, (n - 1) as nat);
    }
}

/// Walking the members of `items` as nodes is walking them as members of their list.
proof fn each_of_atoms<B, V: Visit<B>>(
    s: V::V,
    c: Option<ThingView<B>>,
    items: &Vec<Atom>,
    n: nat,
)
    ensures
        walked_each::<B, V>(s, c, children(Element::AtomVec(items)), n)
            == walked_atoms::<B, V>(s, c, items, n),
    decreases n,
{
    if n > 0 && n <= items.len() {
        each_of_atoms::<B, V>(s, c, items, (n - 1) as nat);
    }
}

/// Walking the members of `items` as nodes is walking them as members of their list.
proof fn each_of_dargs<B, V: Visit<B>>(
    s: V::V,
    c: Option<ThingView<B>>,
    items: &Vec<DArgument>,
    n: nat,
)
    ensures
        walked_each::<B, V>(s, c, children(Element::DArgumentVec(items)), n)
            == walked_dargs::<B, V>(s, c, items, n),
    decreases n,
{
    if n > 0 && n <= items.len() {
        each_of_dargs::<B, V>(s, c, items, (n - 1) as nat);
    }
}

/// `context_comes_from_the_parent`, of components.
proof fn order_of_components<B, V: Visit<B>>(
    s: V::V,
    c: Option<ThingView<B>>,
    node: Element<'_>,
)
    requires
        node is Component,
    ensures
        walked::<B, V>(s, c, node) == walked_each::<B, V>(
            V::after(s, c, node),
            V::yields(s, c, node),
            children(node),
            children(node).len(),
        ),
{
    reveal_with_fuel(walked_each, 4);
}

/// `context_comes_from_the_parent`, of class expressions.
proof fn order_of_class_expressions<B, V: Visit<B>>(
    s: V::V,
    c: Option<ThingView<B>>,
    node: Element<'_>,
)
    requires
        node is ClassExpression
            || node is ClassExpressionVec,
    ensures
        walked::<B, V>(s, c, node) == walked_each::<B, V>(
            V::after(s, c, node),
            V::yields(s, c, node),
            children(node),
            children(node).len(),
        ),
{
    reveal_with_fuel(walked_each, 4);
    let s1 = V::after(s, c, node);
    let c1 = V::yields(s, c, node);
    match node {
        Element::ClassExpressionVec(e) => {
            each_of_class_expressions::<B, V>(s1, c1, e, e.len() as nat)
        },
        _ => {},
    }
}

/// `context_comes_from_the_parent`, of entities.
proof fn order_of_entities<B, V: Visit<B>>(
    s: V::V,
    c: Option<ThingView<B>>,
    node: Element<'_>,
)
    requires
        node is Str
            || node is U32
            || node is Iri
            || node is AnonymousIndividual
            || node is Individual
            || node is AnnotationSubject
            || node is Class
            || node is Datatype
            || node is ObjectProperty
            || node is DataProperty
            || node is AnnotationProperty
            || node is NamedIndividual
            || node is Variable
            || node is Facet
            || node is IndividualVec,
    ensures
        walked::<B, V>(s, c, node) == walked_each::<B, V>(
            V::after(s, c, node),
            V::yields(s, c, node),
            children(node),
            children(node).len(),
        ),
{
    reveal_with_fuel(walked_each, 4);
    let s1 = V::after(s, c, node);
    let c1 = V::yields(s, c, node);
    match node {
        Element::IndividualVec(e) => each_of_individuals::<B, V>(s1, c1, e, e.len() as nat),
        _ => {},
    }
}

/// `context_comes_from_the_parent`, of documents.
proof fn order_of_documents<B, V: Visit<B>>(
    s: V::V,
    c: Option<ThingView<B>>,
    node: Element<'_>,
)
    requires
        node is SetOntology
            || node is OntologyID
            || node is OptionIri
            || node is AnnotatedComponent
            || node is AnnotationSet
            || node is Annotation
            || node is AnnotationValue
            || node is Literal
            || node is LiteralVec
            || node is DocIRI
            || node is Import
            || node is OntologyAnnotation,
    ensures
        walked::<B, V>(s, c, node) == walked_each::<B, V>(
            V::after(s, c, node),
            V::yields(s, c, node),
            children(node),
            children(node).len(),
        ),
{
    reveal_with_fuel(walked_each, 4);
    let s1 = V::after(s, c, node);
    let c1 = V::yields(s, c, node);
    match node {
        Element::SetOntology(e) => {
            let first = seq![Element::OntologyID(&e.id)];
            let second = annotated_component_elements(&e.components);
            walked_each_of_two_runs::<B, V>(s1, c1, first, second, second.len());
            each_of_annotated_components::<B, V>(
                walked_each::<B, V>(s1, c1, first, first.len()),
                c1,
                &e.components,
                e.components.len() as nat,
            );
        },
        Element::AnnotationSet(e) => each_of_annotations::<B, V>(s1, c1, e, e.len() as nat),
        Element::LiteralVec(e) => each_of_literals::<B, V>(s1, c1, e, e.len() as nat),
        _ => {},
    }
}

/// `context_comes_from_the_parent`, of declarations.
proof fn order_of_declarations<B, V: Visit<B>>(
    s: V::V,
    c: Option<ThingView<B>>,
    node: Element<'_>,
)
    requires
        node is DeclareClass
            || node is DeclareObjectProperty
            || node is DeclareAnnotationProperty
            || node is DeclareDataProperty
            || node is DeclareNamedIndividual
            || node is DeclareDatatype,
    ensures
        walked::<B, V>(s, c, node) == walked_each::<B, V>(
            V::after(s, c, node),
            V::yields(s, c, node),
            children(node),
            children(node).len(),
        ),
{
    reveal_with_fuel(walked_each, 4);
}

/// `context_comes_from_the_parent`, of class axioms.
proof fn order_of_class_axioms<B, V: Visit<B>>(
    s: V::V,
    c: Option<ThingView<B>>,
    node: Element<'_>,
)
    requires
        node is SubClassOf
            || node is EquivalentClasses
            || node is DisjointClasses
            || node is DisjointUnion
            || node is HasKey,
    ensures
        walked::<B, V>(s, c, node) == walked_each::<B, V>(
            V::after(s, c, node),
            V::yields(s, c, node),
            children(node),
            children(node).len(),
        ),
{
    reveal_with_fuel(walked_each, 4);
    let s1 = V::after(s, c, node);
    let c1 = V::yields(s, c, node);
    match node {
        Element::HasKey(e) => {
            let first = seq![Element::ClassExpression(&e.ce)];
            let second = property_expression_elements(&e.vpe);
            walked_each_of_two_runs::<B, V>(s1, c1, first, second, second.len());
            each_of_property_expressions::<B, V>(
                walked_each::<B, V>(s1, c1, first, first.len()),
                c1,
                &e.vpe,
                e.vpe.len() as nat,
            );
        },
        _ => {},
    }
}

/// `context_comes_from_the_parent`, of object property axioms.
proof fn order_of_object_property_axioms<B, V: Visit<B>>(
    s: V::V,
    c: Option<ThingView<B>>,
    node: Element<'_>,
)
    requires
        node is SubObjectPropertyOf
            || node is EquivalentObjectProperties
            || node is DisjointObjectProperties
            || node is InverseObjectProperties
            || node is ObjectPropertyDomain
            || node is ObjectPropertyRange
            || node is FunctionalObjectProperty
            || node is InverseFunctionalObjectProperty
            || node is ReflexiveObjectProperty
            || node is IrreflexiveObjectProperty
            || node is SymmetricObjectProperty
            || node is AsymmetricObjectProperty
            || node is TransitiveObjectProperty,
    ensures
        walked::<B, V>(s, c, node) == walked_each::<B, V>(
            V::after(s, c, node),
            V::yields(s, c, node),
            children(node),
            children(node).len(),
        ),
{
    reveal_with_fuel(walked_each, 4);
}

/// `context_comes_from_the_parent`, of property expressions.
proof fn order_of_property_expressions<B, V: Visit<B>>(
    s: V::V,
    c: Option<ThingView<B>>,
    node: Element<'_>,
)
    requires
        node is ObjectPropertyExpression
            || node is SubObjectPropertyExpression
            || node is PropertyExpression
            || node is ObjectPropertyExpressionVec
            || node is DataPropertyVec,
    ensures
        walked::<B, V>(s, c, node) == walked_each::<B, V>(
            V::after(s, c, node),
            V::yields(s, c, node),
            children(node),
            children(node).len(),
        ),
{
    reveal_with_fuel(walked_each, 4);
    let s1 = V::after(s, c, node);
    let c1 = V::yields(s, c, node);
    match node {
        Element::ObjectPropertyExpressionVec(e) => {
            each_of_object_property_expressions::<B, V>(s1, c1, e, e.len() as nat)
        },
        Element::DataPropertyVec(e) => each_of_data_properties::<B, V>(s1, c1, e, e.len() as nat),
        _ => {},
    }
}

/// `context_comes_from_the_parent`, of data property axioms.
proof fn order_of_data_property_axioms<B, V: Visit<B>>(
    s: V::V,
    c: Option<ThingView<B>>,
    node: Element<'_>,
)
    requires
        node is SubDataPropertyOf
            || node is EquivalentDataProperties
            || node is DisjointDataProperties
            || node is DataPropertyDomain
            || node is DataPropertyRange
            || node is FunctionalDataProperty
            || node is DatatypeDefinition,
    ensures
        walked::<B, V>(s, c, node) == walked_each::<B, V>(
            V::after(s, c, node),
            V::yields(s, c, node),
            children(node),
            children(node).len(),
        ),
{
    reveal_with_fuel(walked_each, 4);
}

/// `context_comes_from_the_parent`, of data ranges.
proof fn order_of_data_ranges<B, V: Visit<B>>(
    s: V::V,
    c: Option<ThingView<B>>,
    node: Element<'_>,
)
    requires
        node is DataRange
            || node is DataRangeVec
            || node is FacetRestriction
            || node is FacetRestrictionVec,
    ensures
        walked::<B, V>(s, c, node) == walked_each::<B, V>(
            V::after(s, c, node),
            V::yields(s, c, node),
            children(node),
            children(node).len(),
        ),
{
    reveal_with_fuel(walked_each, 4);
    let s1 = V::after(s, c, node);
    let c1 = V::yields(s, c, node);
    match node {
        Element::DataRangeVec(e) => each_of_data_ranges::<B, V>(s1, c1, e, e.len() as nat),
        Element::FacetRestrictionVec(e) => {
            each_of_facet_restrictions::<B, V>(s1, c1, e, e.len() as nat)
        },
        _ => {},
    }
}

/// `context_comes_from_the_parent`, of assertions.
proof fn order_of_assertions<B, V: Visit<B>>(
    s: V::V,
    c: Option<ThingView<B>>,
    node: Element<'_>,
)
    requires
        node is SameIndividual
            || node is DifferentIndividuals
            || node is ClassAssertion
            || node is ObjectPropertyAssertion
            || node is NegativeObjectPropertyAssertion
            || node is DataPropertyAssertion
            || node is NegativeDataPropertyAssertion,
    ensures
        walked::<B, V>(s, c, node) == walked_each::<B, V>(
            V::after(s, c, node),
            V::yields(s, c, node),
            children(node),
            children(node).len(),
        ),
{
    reveal_with_fuel(walked_each, 4);
}

/// `context_comes_from_the_parent`, of annotation axioms.
proof fn order_of_annotation_axioms<B, V: Visit<B>>(
    s: V::V,
    c: Option<ThingView<B>>,
    node: Element<'_>,
)
    requires
        node is AnnotationAssertion
            || node is SubAnnotationPropertyOf
            || node is AnnotationPropertyDomain
            || node is AnnotationPropertyRange,
    ensures
        walked::<B, V>(s, c, node) == walked_each::<B, V>(
            V::after(s, c, node),
            V::yields(s, c, node),
            children(node),
            children(node).len(),
        ),
{
    reveal_with_fuel(walked_each, 4);
}

/// `context_comes_from_the_parent`, of rules.
proof fn order_of_rules<B, V: Visit<B>>(
    s: V::V,
    c: Option<ThingView<B>>,
    node: Element<'_>,
)
    requires
        node is Rule
            || node is Atom
            || node is AtomVec
            || node is IArgument
            || node is DArgument
            || node is DArgumentVec,
    ensures
        walked::<B, V>(s, c, node) == walked_each::<B, V>(
            V::after(s, c, node),
            V::yields(s, c, node),
            children(node),
            children(node).len(),
        ),
{
    reveal_with_fuel(walked_each, 4);
    let s1 = V::after(s, c, node);
    let c1 = V::yields(s, c, node);
    match node {
        Element::AtomVec(e) => each_of_atoms::<B, V>(s1, c1, e, e.len() as nat),
        Element::DArgumentVec(e) => each_of_dargs::<B, V>(s1, c1, e, e.len() as nat),
        _ => {},
    }
}

/// Walking a node is running its hook and then walking its children in their
/// order, each from the state that the one before it left and each with the
/// value that the hook of the node returned. The context that the node was
/// given reaches its hook and nothing below it.
pub proof fn context_comes_from_the_parent<B, V: Visit<B>>(
    s: V::V,
    c: Option<ThingView<B>>,
    node: Element<'_>,
)
    ensures
        walked::<B, V>(s, c, node) == walked_each::<B, V>(
            V::after(s, c, node),
            V::yields(s, c, node),
            children(node),
            children(node).len(),
        ),
{
    match node {
        Element::Component(_) => order_of_components::<B, V>(s, c, node),
        Element::ClassExpression(_)
        | Element::ClassExpressionVec(_) => order_of_class_expressions::<B, V>(s, c, node),
        Element::Str(_)
        | Element::U32(_)
        | Element::Iri(_)
        | Element::AnonymousIndividual(_)
        | Element::Individual(_)
        | Element::AnnotationSubject(_)
        | Element::Class(_)
        | Element::Datatype(_)
        | Element::ObjectProperty(_)
        | Element::DataProperty(_)
        | Element::AnnotationProperty(_)
        | Element::NamedIndividual(_)
        | Element::Variable(_)
        | Element::Facet(_)
        | Element::IndividualVec(_) => order_of_entities::<B, V>(s, c, node),
        Element::SetOntology(_)
        | Element::OntologyID(_)
        | Element::OptionIri(_)
        | Element::AnnotatedComponent(_)
        | Element::AnnotationSet(_)
        | Element::Annotation(_)
        | Element::AnnotationValue(_)
        | Element::Literal(_)
        | Element::LiteralVec(_)
        | Element::DocIRI(_)
        | Element::Import(_)
        | Element::OntologyAnnotation(_) => order_of_documents::<B, V>(s, c, node),
        Element::DeclareClass(_)
        | Element::DeclareObjectProperty(_)
        | Element::DeclareAnnotationProperty(_)
        | Element::DeclareDataProperty(_)
        | Element::DeclareNamedIndividual(_)
        | Element::DeclareDatatype(_) => order_of_declarations::<B, V>(s, c, node),
        Element::SubClassOf(_)
        | Element::EquivalentClasses(_)
        | Element::DisjointClasses(_)
        | Element::DisjointUnion(_)
        | Element::HasKey(_) => order_of_class_axioms::<B, V>(s, c, node),
        Element::SubObjectPropertyOf(_)
        | Element::EquivalentObjectProperties(_)
        | Element::DisjointObjectProperties(_)
        | Element::InverseObjectProperties(_)
        | Element::ObjectPropertyDomain(_)
        | Element::ObjectPropertyRange(_)
        | Element::FunctionalObjectProperty(_)
        | Element::InverseFunctionalObjectProperty(_)
        | Element::ReflexiveObjectProperty(_)
        | Element::IrreflexiveObjectProperty(_)
        | Element::SymmetricObjectProperty(_)
        | Element::AsymmetricObjectProperty(_)
        | Element::TransitiveObjectProperty(_) => {
            order_of_object_property_axioms::<B, V>(s, c, node)
        },
        Element::ObjectPropertyExpression(_)
        | Element::SubObjectPropertyExpression(_)
        | Element::PropertyExpression(_)
        | Element::ObjectPropertyExpressionVec(_)
        | Element::DataPropertyVec(_) => order_of_property_expressions::<B, V>(s, c, node),
        Element::SubDataPropertyOf(_)
        | Element::EquivalentDataProperties(_)
        | Element::DisjointDataProperties(_)
        | Element::DataPropertyDomain(_)
        | Element::DataPropertyRange(_)
        | Element::FunctionalDataProperty(_)
        | Element::DatatypeDefinition(_) => order_of_data_property_axioms::<B, V>(s, c, node),
        Element::DataRange(_)
        | Element::DataRangeVec(_)
        | Element::FacetRestriction(_)
        | Element::FacetRestrictionVec(_) => order_of_data_ranges::<B, V>(s, c, node),
        Element::SameIndividual(_)
        | Element::DifferentIndividuals(_)
        | Element::ClassAssertion(_)
        | Element::ObjectPropertyAssertion(_)
        | Element::NegativeObjectPropertyAssertion(_)
        | Element::DataPropertyAssertion(_)
        | Element::NegativeDataPropertyAssertion(_) => order_of_assertions::<B, V>(s, c, node),
        Element::AnnotationAssertion(_)
        | Element::SubAnnotationPropertyOf(_)
        | Element::AnnotationPropertyDomain(_)
        | Element::AnnotationPropertyRange(_) => order_of_annotation_axioms::<B, V>(s, c, node),
        Element::Rule(_)
        | Element::Atom(_)
        | Element::AtomVec(_)
        | Element::IArgument(_)
        | Element::DArgument(_)
        | Element::DArgumentVec(_) => order_of_rules::<B, V>(s, c, node),
    }
}

/// What lies below a node is walked alike whatever context the node was
/// given, once its hook has run alike: an ancestor further up than the parent
/// has no say in what a hook receives.
pub proof fn only_the_hook_sees_the_context<B, V: Visit<B>>(
    s: V::V,
    c: Option<ThingView<B>>,
    d: Option<ThingView<B>>,
    node: Element<'_>,
)
    requires
        V::after(s, c, node) == V::after(s, d, node),
        V::yields(s, c, node) == V::yields(s, d, node),
    ensures
        walked::<B, V>(s, c, node) == walked::<B, V>(s, d, node),
{
    context_comes_from_the_parent::<B, V>(s, c, node);
    context_comes_from_the_parent::<B, V>(s, d, node);
}

} // verus!
