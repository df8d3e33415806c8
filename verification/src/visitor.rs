//! The hooks of a traversal.
//!
//! A visitor is told of every node of a document, in the order in which `Walk`
//! reaches them. With each node it receives the value that the hook of the
//! node's parent synthesized, and may synthesize one for the node's children.
//!
//! What a visitor does is stated once, by two spec functions over its view:
//! `after` gives its state once a hook has run, `yields` the value that the hook
//! returns. Every hook is held to them, so a traversal is a function of the
//! visitor's state and of the document.

use vstd::prelude::*;

use crate::graph::{context, Kind, ThingView};
use crate::model::{
    AnnotatedComponent, Annotation, AnnotationAssertion, AnnotationProperty,
    AnnotationPropertyDomain, AnnotationPropertyRange, AnnotationSubject, AnnotationValue,
    AnonymousIndividual, AsymmetricObjectProperty, Atom, Class, ClassAssertion,
    ClassExpression, Component, DArgument, DataProperty, DataPropertyAssertion,
    DataPropertyDomain, DataPropertyRange, DataRange, Datatype, DatatypeDefinition,
    DeclareAnnotationProperty, DeclareClass, DeclareDataProperty, DeclareDatatype,
    DeclareNamedIndividual, DeclareObjectProperty, DifferentIndividuals, DisjointClasses,
    DisjointDataProperties, DisjointObjectProperties, DisjointUnion, DocIRI, EquivalentClasses,
    EquivalentDataProperties, EquivalentObjectProperties, Facet, FacetRestriction,
    FunctionalDataProperty, FunctionalObjectProperty, HasKey, IArgument, IRI, Import,
    Individual, InverseFunctionalObjectProperty, InverseObjectProperties,
    IrreflexiveObjectProperty, Literal, NamedIndividual, NegativeDataPropertyAssertion,
    NegativeObjectPropertyAssertion, ObjectProperty, ObjectPropertyAssertion,
    ObjectPropertyDomain, ObjectPropertyExpression, ObjectPropertyRange, OntologyAnnotation,
    OntologyID, PropertyExpression, ReflexiveObjectProperty, Rule, SameIndividual, SetOntology,
    SubAnnotationPropertyOf, SubClassOf, SubDataPropertyOf, SubObjectPropertyExpression,
    SubObjectPropertyOf, SymmetricObjectProperty, TransitiveObjectProperty, Variable,
};

verus! {

/// A node of a document, as the hook of its kind sees it.
pub enum Element<'a> {
    Str(&'a String),
    U32(&'a u32),
    Iri(&'a IRI),
    AnonymousIndividual(&'a AnonymousIndividual),
    Individual(&'a Individual),
    AnnotationSubject(&'a AnnotationSubject),
    DocIRI(&'a DocIRI),
    Class(&'a Class),
    Datatype(&'a Datatype),
    ObjectProperty(&'a ObjectProperty),
    DataProperty(&'a DataProperty),
    AnnotationProperty(&'a AnnotationProperty),
    NamedIndividual(&'a NamedIndividual),
    AnnotatedComponent(&'a AnnotatedComponent),
    Component(&'a Component),
    Import(&'a Import),
    OntologyAnnotation(&'a OntologyAnnotation),
    DeclareClass(&'a DeclareClass),
    DeclareObjectProperty(&'a DeclareObjectProperty),
    DeclareAnnotationProperty(&'a DeclareAnnotationProperty),
    DeclareDataProperty(&'a DeclareDataProperty),
    DeclareNamedIndividual(&'a DeclareNamedIndividual),
    DeclareDatatype(&'a DeclareDatatype),
    SubClassOf(&'a SubClassOf),
    EquivalentClasses(&'a EquivalentClasses),
    DisjointClasses(&'a DisjointClasses),
    DisjointUnion(&'a DisjointUnion),
    SubObjectPropertyOf(&'a SubObjectPropertyOf),
    EquivalentObjectProperties(&'a EquivalentObjectProperties),
    DisjointObjectProperties(&'a DisjointObjectProperties),
    InverseObjectProperties(&'a InverseObjectProperties),
    ObjectPropertyDomain(&'a ObjectPropertyDomain),
    ObjectPropertyRange(&'a ObjectPropertyRange),
    FunctionalObjectProperty(&'a FunctionalObjectProperty),
    InverseFunctionalObjectProperty(&'a InverseFunctionalObjectProperty),
    ReflexiveObjectProperty(&'a ReflexiveObjectProperty),
    IrreflexiveObjectProperty(&'a IrreflexiveObjectProperty),
    SymmetricObjectProperty(&'a SymmetricObjectProperty),
    AsymmetricObjectProperty(&'a AsymmetricObjectProperty),
    TransitiveObjectProperty(&'a TransitiveObjectProperty),
    SubDataPropertyOf(&'a SubDataPropertyOf),
    EquivalentDataProperties(&'a EquivalentDataProperties),
    DisjointDataProperties(&'a DisjointDataProperties),
    DataPropertyDomain(&'a DataPropertyDomain),
    DataPropertyRange(&'a DataPropertyRange),
    FunctionalDataProperty(&'a FunctionalDataProperty),
    DatatypeDefinition(&'a DatatypeDefinition),
    HasKey(&'a HasKey),
    SameIndividual(&'a SameIndividual),
    DifferentIndividuals(&'a DifferentIndividuals),
    ClassAssertion(&'a ClassAssertion),
    ObjectPropertyAssertion(&'a ObjectPropertyAssertion),
    NegativeObjectPropertyAssertion(&'a NegativeObjectPropertyAssertion),
    DataPropertyAssertion(&'a DataPropertyAssertion),
    NegativeDataPropertyAssertion(&'a NegativeDataPropertyAssertion),
    AnnotationAssertion(&'a AnnotationAssertion),
    SubAnnotationPropertyOf(&'a SubAnnotationPropertyOf),
    AnnotationPropertyDomain(&'a AnnotationPropertyDomain),
    AnnotationPropertyRange(&'a AnnotationPropertyRange),
    Rule(&'a Rule),
    Atom(&'a Atom),
    Variable(&'a Variable),
    IArgument(&'a IArgument),
    DArgument(&'a DArgument),
    Literal(&'a Literal),
    Annotation(&'a Annotation),
    AnnotationValue(&'a AnnotationValue),
    ObjectPropertyExpression(&'a ObjectPropertyExpression),
    SubObjectPropertyExpression(&'a SubObjectPropertyExpression),
    PropertyExpression(&'a PropertyExpression),
    FacetRestriction(&'a FacetRestriction),
    Facet(&'a Facet),
    DataRange(&'a DataRange),
    ClassExpression(&'a ClassExpression),
    OntologyID(&'a OntologyID),
    SetOntology(&'a SetOntology),
    OptionIri(&'a Option<IRI>),
    AnnotationSet(&'a Vec<Annotation>),
    ClassExpressionVec(&'a Vec<ClassExpression>),
    ObjectPropertyExpressionVec(&'a Vec<ObjectPropertyExpression>),
    DataPropertyVec(&'a Vec<DataProperty>),
    DataRangeVec(&'a Vec<DataRange>),
    IndividualVec(&'a Vec<Individual>),
    LiteralVec(&'a Vec<Literal>),
    FacetRestrictionVec(&'a Vec<FacetRestriction>),
    AtomVec(&'a Vec<Atom>),
    DArgumentVec(&'a Vec<DArgument>),
}

/// A consumer of a traversal.
///
/// `visit_other` is the one hook that a visitor has to write. Each of the others
/// hands its node to `visit_other` unless the visitor overrides it, so a visitor
/// names only the kinds it extracts from. A visitor whose `visit_other` returns
/// `None` and changes nothing is told of every node and reacts to none that it
/// did not name.
pub trait Visit<B>: View + Sized {
    /// The visitor's state after the hook of `node` ran in state `state` and
    /// received `parent`.
    spec fn after(state: Self::V, parent: Option<ThingView<B>>, node: Element<'_>) -> Self::V;

    /// The value that the hook of `node` returns in state `state` on receiving
    /// `parent`: the context of the node's children.
    spec fn yields(state: Self::V, parent: Option<ThingView<B>>, node: Element<'_>) -> Option<
        ThingView<B>,
    >;

    /// The hook of every kind of node that has none of its own.
    fn visit_other(&mut self, parent: Option<Kind<B>>, node: Element<'_>) -> (ctx: Option<Kind<B>>)
        ensures
            final(self)@ == Self::after(old(self)@, context(parent), node),
            context(ctx) == Self::yields(old(self)@, context(parent), node),
    ;

    fn visit_string(&mut self, parent: Option<Kind<B>>, e: &String) -> (ctx: Option<Kind<B>>)
        ensures
            final(self)@ == Self::after(old(self)@, context(parent), Element::Str(e)),
            context(ctx) == Self::yields(old(self)@, context(parent), Element::Str(e)),
    {
        self.visit_other(parent, Element::Str(e))
    }

    fn visit_u32(&mut self, parent: Option<Kind<B>>, e: &u32) -> (ctx: Option<Kind<B>>)
        ensures
            final(self)@ == Self::after(old(self)@, context(parent), Element::U32(e)),
            context(ctx) == Self::yields(old(self)@, context(parent), Element::U32(e)),
    {
        self.visit_other(parent, Element::U32(e))
    }

    fn visit_iri(&mut self, parent: Option<Kind<B>>, e: &IRI) -> (ctx: Option<Kind<B>>)
        ensures
            final(self)@ == Self::after(old(self)@, context(parent), Element::Iri(e)),
            context(ctx) == Self::yields(old(self)@, context(parent), Element::Iri(e)),
    {
        self.visit_other(parent, Element::Iri(e))
    }

    fn visit_anonymous_individual(
        &mut self,
        parent: Option<Kind<B>>,
        e: &AnonymousIndividual,
    ) -> (ctx: Option<Kind<B>>)
        ensures
            final(self)@
                == Self::after(old(self)@, context(parent), Element::AnonymousIndividual(e)),
            context(ctx)
                == Self::yields(old(self)@, context(parent), Element::AnonymousIndividual(e)),
    {
        self.visit_other(parent, Element::AnonymousIndividual(e))
    }

    fn visit_individual(
        &mut self,
        parent: Option<Kind<B>>,
        e: &Individual,
    ) -> (ctx: Option<Kind<B>>)
        ensures
            final(self)@ == Self::after(old(self)@, context(parent), Element::Individual(e)),
            context(ctx) == Self::yields(old(self)@, context(parent), Element::Individual(e)),
    {
        self.visit_other(parent, Element::Individual(e))
    }

    fn visit_annotation_subject(
        &mut self,
        parent: Option<Kind<B>>,
        e: &AnnotationSubject,
    ) -> (ctx: Option<Kind<B>>)
        ensures
            final(self)@ == Self::after(old(self)@, context(parent), Element::AnnotationSubject(e)),
            context(ctx)
                == Self::yields(old(self)@, context(parent), Element::AnnotationSubject(e)),
    {
        self.visit_other(parent, Element::AnnotationSubject(e))
    }

    fn visit_dociri(&mut self, parent: Option<Kind<B>>, e: &DocIRI) -> (ctx: Option<Kind<B>>)
        ensures
            final(self)@ == Self::after(old(self)@, context(parent), Element::DocIRI(e)),
            context(ctx) == Self::yields(old(self)@, context(parent), Element::DocIRI(e)),
    {
        self.visit_other(parent, Element::DocIRI(e))
    }

    fn visit_class(&mut self, parent: Option<Kind<B>>, e: &Class) -> (ctx: Option<Kind<B>>)
        ensures
            final(self)@ == Self::after(old(self)@, context(parent), Element::Class(e)),
            context(ctx) == Self::yields(old(self)@, context(parent), Element::Class(e)),
    {
        self.visit_other(parent, Element::Class(e))
    }

    fn visit_datatype(&mut self, parent: Option<Kind<B>>, e: &Datatype) -> (ctx: Option<Kind<B>>)
        ensures
            final(self)@ == Self::after(old(self)@, context(parent), Element::Datatype(e)),
            context(ctx) == Self::yields(old(self)@, context(parent), Element::Datatype(e)),
    {
        self.visit_other(parent, Element::Datatype(e))
    }

    fn visit_object_property(
        &mut self,
        parent: Option<Kind<B>>,
        e: &ObjectProperty,
    ) -> (ctx: Option<Kind<B>>)
        ensures
            final(self)@ == Self::after(old(self)@, context(parent), Element::ObjectProperty(e)),
            context(ctx) == Self::yields(old(self)@, context(parent), Element::ObjectProperty(e)),
    {
        self.visit_other(parent, Element::ObjectProperty(e))
    }

    fn visit_data_property(
        &mut self,
        parent: Option<Kind<B>>,
        e: &DataProperty,
    ) -> (ctx: Option<Kind<B>>)
        ensures
            final(self)@ == Self::after(old(self)@, context(parent), Element::DataProperty(e)),
            context(ctx) == Self::yields(old(self)@, context(parent), Element::DataProperty(e)),
    {
        self.visit_other(parent, Element::DataProperty(e))
    }

    fn visit_annotation_property(
        &mut self,
        parent: Option<Kind<B>>,
        e: &AnnotationProperty,
    ) -> (ctx: Option<Kind<B>>)
        ensures
            final(self)@
                == Self::after(old(self)@, context(parent), Element::AnnotationProperty(e)),
            context(ctx)
                == Self::yields(old(self)@, context(parent), Element::AnnotationProperty(e)),
    {
        self.visit_other(parent, Element::AnnotationProperty(e))
    }

    fn visit_named_individual(
        &mut self,
        parent: Option<Kind<B>>,
        e: &NamedIndividual,
    ) -> (ctx: Option<Kind<B>>)
        ensures
            final(self)@ == Self::after(old(self)@, context(parent), Element::NamedIndividual(e)),
            context(ctx) == Self::yields(old(self)@, context(parent), Element::NamedIndividual(e)),
    {
        self.visit_other(parent, Element::NamedIndividual(e))
    }

    fn visit_annotated_component(
        &mut self,
        parent: Option<Kind<B>>,
        e: &AnnotatedComponent,
    ) -> (ctx: Option<Kind<B>>)
        ensures
            final(self)@
                == Self::after(old(self)@, context(parent), Element::AnnotatedComponent(e)),
            context(ctx)
                == Self::yields(old(self)@, context(parent), Element::AnnotatedComponent(e)),
    {
        self.visit_other(parent, Element::AnnotatedComponent(e))
    }

    fn visit_component(&mut self, parent: Option<Kind<B>>, e: &Component) -> (ctx: Option<Kind<B>>)
        ensures
            final(self)@ == Self::after(old(self)@, context(parent), Element::Component(e)),
            context(ctx) == Self::yields(old(self)@, context(parent), Element::Component(e)),
    {
        self.visit_other(parent, Element::Component(e))
    }

    fn visit_import(&mut self, parent: Option<Kind<B>>, e: &Import) -> (ctx: Option<Kind<B>>)
        ensures
            final(self)@ == Self::after(old(self)@, context(parent), Element::Import(e)),
            context(ctx) == Self::yields(old(self)@, context(parent), Element::Import(e)),
    {
        self.visit_other(parent, Element::Import(e))
    }

    fn visit_ontology_annotation(
        &mut self,
        parent: Option<Kind<B>>,
        e: &OntologyAnnotation,
    ) -> (ctx: Option<Kind<B>>)
        ensures
            final(self)@
                == Self::after(old(self)@, context(parent), Element::OntologyAnnotation(e)),
            context(ctx)
                == Self::yields(old(self)@, context(parent), Element::OntologyAnnotation(e)),
    {
        self.visit_other(parent, Element::OntologyAnnotation(e))
    }

    fn visit_declare_class(
        &mut self,
        parent: Option<Kind<B>>,
        e: &DeclareClass,
    ) -> (ctx: Option<Kind<B>>)
        ensures
            final(self)@ == Self::after(old(self)@, context(parent), Element::DeclareClass(e)),
            context(ctx) == Self::yields(old(self)@, context(parent), Element::DeclareClass(e)),
    {
        self.visit_other(parent, Element::DeclareClass(e))
    }

    fn visit_declare_object_property(
        &mut self,
        parent: Option<Kind<B>>,
        e: &DeclareObjectProperty,
    ) -> (ctx: Option<Kind<B>>)
        ensures
            final(self)@
                == Self::after(old(self)@, context(parent), Element::DeclareObjectProperty(e)),
            context(ctx)
                == Self::yields(old(self)@, context(parent), Element::DeclareObjectProperty(e)),
    {
        self.visit_other(parent, Element::DeclareObjectProperty(e))
    }

    fn visit_declare_annotation_property(
        &mut self,
        parent: Option<Kind<B>>,
        e: &DeclareAnnotationProperty,
    ) -> (ctx: Option<Kind<B>>)
        ensures
            final(self)@
                == Self::after(old(self)@, context(parent), Element::DeclareAnnotationProperty(e)),
            context(ctx)
                == Self::yields(old(self)@, context(parent), Element::DeclareAnnotationProperty(e)),
    {
        self.visit_other(parent, Element::DeclareAnnotationProperty(e))
    }

    fn visit_declare_data_property(
        &mut self,
        parent: Option<Kind<B>>,
        e: &DeclareDataProperty,
    ) -> (ctx: Option<Kind<B>>)
        ensures
            final(self)@
                == Self::after(old(self)@, context(parent), Element::DeclareDataProperty(e)),
            context(ctx)
                == Self::yields(old(self)@, context(parent), Element::DeclareDataProperty(e)),
    {
        self.visit_other(parent, Element::DeclareDataProperty(e))
    }

    fn visit_declare_named_individual(
        &mut self,
        parent: Option<Kind<B>>,
        e: &DeclareNamedIndividual,
    ) -> (ctx: Option<Kind<B>>)
        ensures
            final(self)@
                == Self::after(old(self)@, context(parent), Element::DeclareNamedIndividual(e)),
            context(ctx)
                == Self::yields(old(self)@, context(parent), Element::DeclareNamedIndividual(e)),
    {
        self.visit_other(parent, Element::DeclareNamedIndividual(e))
    }

    fn visit_declare_datatype(
        &mut self,
        parent: Option<Kind<B>>,
        e: &DeclareDatatype,
    ) -> (ctx: Option<Kind<B>>)
        ensures
            final(self)@ == Self::after(old(self)@, context(parent), Element::DeclareDatatype(e)),
            context(ctx) == Self::yields(old(self)@, context(parent), Element::DeclareDatatype(e)),
    {
        self.visit_other(parent, Element::DeclareDatatype(e))
    }

    fn visit_sub_class_of(
        &mut self,
        parent: Option<Kind<B>>,
        e: &SubClassOf,
    ) -> (ctx: Option<Kind<B>>)
        ensures
            final(self)@ == Self::after(old(self)@, context(parent), Element::SubClassOf(e)),
            context(ctx) == Self::yields(old(self)@, context(parent), Element::SubClassOf(e)),
    {
        self.visit_other(parent, Element::SubClassOf(e))
    }

    fn visit_equivalent_classes(
        &mut self,
        parent: Option<Kind<B>>,
        e: &EquivalentClasses,
    ) -> (ctx: Option<Kind<B>>)
        ensures
            final(self)@ == Self::after(old(self)@, context(parent), Element::EquivalentClasses(e)),
            context(ctx)
                == Self::yields(old(self)@, context(parent), Element::EquivalentClasses(e)),
    {
        self.visit_other(parent, Element::EquivalentClasses(e))
    }

    fn visit_disjoint_classes(
        &mut self,
        parent: Option<Kind<B>>,
        e: &DisjointClasses,
    ) -> (ctx: Option<Kind<B>>)
        ensures
            final(self)@ == Self::after(old(self)@, context(parent), Element::DisjointClasses(e)),
            context(ctx) == Self::yields(old(self)@, context(parent), Element::DisjointClasses(e)),
    {
        self.visit_other(parent, Element::DisjointClasses(e))
    }

    fn visit_disjoint_union(
        &mut self,
        parent: Option<Kind<B>>,
        e: &DisjointUnion,
    ) -> (ctx: Option<Kind<B>>)
        ensures
            final(self)@ == Self::after(old(self)@, context(parent), Element::DisjointUnion(e)),
            context(ctx) == Self::yields(old(self)@, context(parent), Element::DisjointUnion(e)),
    {
        self.visit_other(parent, Element::DisjointUnion(e))
    }

    fn visit_sub_object_property_of(
        &mut self,
        parent: Option<Kind<B>>,
        e: &SubObjectPropertyOf,
    ) -> (ctx: Option<Kind<B>>)
        ensures
            final(self)@
                == Self::after(old(self)@, context(parent), Element::SubObjectPropertyOf(e)),
            context(ctx)
                == Self::yields(old(self)@, context(parent), Element::SubObjectPropertyOf(e)),
    {
        self.visit_other(parent, Element::SubObjectPropertyOf(e))
    }

    fn visit_equivalent_object_properties(
        &mut self,
        parent: Option<Kind<B>>,
        e: &EquivalentObjectProperties,
    ) -> (ctx: Option<Kind<B>>)
        ensures
            final(self)@
                == Self::after(old(self)@, context(parent), Element::EquivalentObjectProperties(e)),
            context(ctx) == Self::yields(
                old(self)@,
                context(parent),
                Element::EquivalentObjectProperties(e),
            ),
    {
        self.visit_other(parent, Element::EquivalentObjectProperties(e))
    }

    fn visit_disjoint_object_properties(
        &mut self,
        parent: Option<Kind<B>>,
        e: &DisjointObjectProperties,
    ) -> (ctx: Option<Kind<B>>)
        ensures
            final(self)@
                == Self::after(old(self)@, context(parent), Element::DisjointObjectProperties(e)),
            context(ctx)
                == Self::yields(old(self)@, context(parent), Element::DisjointObjectProperties(e)),
    {
        self.visit_other(parent, Element::DisjointObjectProperties(e))
    }

    fn visit_inverse_object_properties(
        &mut self,
        parent: Option<Kind<B>>,
        e: &InverseObjectProperties,
    ) -> (ctx: Option<Kind<B>>)
        ensures
            final(self)@
                == Self::after(old(self)@, context(parent), Element::InverseObjectProperties(e)),
            context(ctx)
                == Self::yields(old(self)@, context(parent), Element::InverseObjectProperties(e)),
    {
        self.visit_other(parent, Element::InverseObjectProperties(e))
    }

    fn visit_object_property_domain(
        &mut self,
        parent: Option<Kind<B>>,
        e: &ObjectPropertyDomain,
    ) -> (ctx: Option<Kind<B>>)
        ensures
            final(self)@
                == Self::after(old(self)@, context(parent), Element::ObjectPropertyDomain(e)),
            context(ctx)
                == Self::yields(old(self)@, context(parent), Element::ObjectPropertyDomain(e)),
    {
        self.visit_other(parent, Element::ObjectPropertyDomain(e))
    }

    fn visit_object_property_range(
        &mut self,
        parent: Option<Kind<B>>,
        e: &ObjectPropertyRange,
    ) -> (ctx: Option<Kind<B>>)
        ensures
            final(self)@
                == Self::after(old(self)@, context(parent), Element::ObjectPropertyRange(e)),
            context(ctx)
                == Self::yields(old(self)@, context(parent), Element::ObjectPropertyRange(e)),
    {
        self.visit_other(parent, Element::ObjectPropertyRange(e))
    }

    fn visit_functional_object_property(
        &mut self,
        parent: Option<Kind<B>>,
        e: &FunctionalObjectProperty,
    ) -> (ctx: Option<Kind<B>>)
        ensures
            final(self)@
                == Self::after(old(self)@, context(parent), Element::FunctionalObjectProperty(e)),
            context(ctx)
                == Self::yields(old(self)@, context(parent), Element::FunctionalObjectProperty(e)),
    {
        self.visit_other(parent, Element::FunctionalObjectProperty(e))
    }

    fn visit_inverse_functional_object_property(
        &mut self,
        parent: Option<Kind<B>>,
        e: &InverseFunctionalObjectProperty,
    ) -> (ctx: Option<Kind<B>>)
        ensures
            final(self)@ == Self::after(
                old(self)@,
                context(parent),
                Element::InverseFunctionalObjectProperty(e),
            ),
            context(ctx) == Self::yields(
                old(self)@,
                context(parent),
                Element::InverseFunctionalObjectProperty(e),
            ),
    {
        self.visit_other(parent, Element::InverseFunctionalObjectProperty(e))
    }

    fn visit_reflexive_object_property(
        &mut self,
        parent: Option<Kind<B>>,
        e: &ReflexiveObjectProperty,
    ) -> (ctx: Option<Kind<B>>)
        ensures
            final(self)@
                == Self::after(old(self)@, context(parent), Element::ReflexiveObjectProperty(e)),
            context(ctx)
                == Self::yields(old(self)@, context(parent), Element::ReflexiveObjectProperty(e)),
    {
        self.visit_other(parent, Element::ReflexiveObjectProperty(e))
    }

    fn visit_irreflexive_object_property(
        &mut self,
        parent: Option<Kind<B>>,
        e: &IrreflexiveObjectProperty,
    ) -> (ctx: Option<Kind<B>>)
        ensures
            final(self)@
                == Self::after(old(self)@, context(parent), Element::IrreflexiveObjectProperty(e)),
            context(ctx)
                == Self::yields(old(self)@, context(parent), Element::IrreflexiveObjectProperty(e)),
    {
        self.visit_other(parent, Element::IrreflexiveObjectProperty(e))
    }

    fn visit_symmetric_object_property(
        &mut self,
        parent: Option<Kind<B>>,
        e: &SymmetricObjectProperty,
    ) -> (ctx: Option<Kind<B>>)
        ensures
            final(self)@
                == Self::after(old(self)@, context(parent), Element::SymmetricObjectProperty(e)),
            context(ctx)
                == Self::yields(old(self)@, context(parent), Element::SymmetricObjectProperty(e)),
    {
        self.visit_other(parent, Element::SymmetricObjectProperty(e))
    }

    fn visit_asymmetric_object_property(
        &mut self,
        parent: Option<Kind<B>>,
        e: &AsymmetricObjectProperty,
    ) -> (ctx: Option<Kind<B>>)
        ensures
            final(self)@
                == Self::after(old(self)@, context(parent), Element::AsymmetricObjectProperty(e)),
            context(ctx)
                == Self::yields(old(self)@, context(parent), Element::AsymmetricObjectProperty(e)),
    {
        self.visit_other(parent, Element::AsymmetricObjectProperty(e))
    }

    fn visit_transitive_object_property(
        &mut self,
        parent: Option<Kind<B>>,
        e: &TransitiveObjectProperty,
    ) -> (ctx: Option<Kind<B>>)
        ensures
            final(self)@
                == Self::after(old(self)@, context(parent), Element::TransitiveObjectProperty(e)),
            context(ctx)
                == Self::yields(old(self)@, context(parent), Element::TransitiveObjectProperty(e)),
    {
        self.visit_other(parent, Element::TransitiveObjectProperty(e))
    }

    fn visit_sub_data_property_of(
        &mut self,
        parent: Option<Kind<B>>,
        e: &SubDataPropertyOf,
    ) -> (ctx: Option<Kind<B>>)
        ensures
            final(self)@ == Self::after(old(self)@, context(parent), Element::SubDataPropertyOf(e)),
            context(ctx)
                == Self::yields(old(self)@, context(parent), Element::SubDataPropertyOf(e)),
    {
        self.visit_other(parent, Element::SubDataPropertyOf(e))
    }

    fn visit_equivalent_data_properties(
        &mut self,
        parent: Option<Kind<B>>,
        e: &EquivalentDataProperties,
    ) -> (ctx: Option<Kind<B>>)
        ensures
            final(self)@
                == Self::after(old(self)@, context(parent), Element::EquivalentDataProperties(e)),
            context(ctx)
                == Self::yields(old(self)@, context(parent), Element::EquivalentDataProperties(e)),
    {
        self.visit_other(parent, Element::EquivalentDataProperties(e))
    }

    fn visit_disjoint_data_properties(
        &mut self,
        parent: Option<Kind<B>>,
        e: &DisjointDataProperties,
    ) -> (ctx: Option<Kind<B>>)
        ensures
            final(self)@
                == Self::after(old(self)@, context(parent), Element::DisjointDataProperties(e)),
            context(ctx)
                == Self::yields(old(self)@, context(parent), Element::DisjointDataProperties(e)),
    {
        self.visit_other(parent, Element::DisjointDataProperties(e))
    }

    fn visit_data_property_domain(
        &mut self,
        parent: Option<Kind<B>>,
        e: &DataPropertyDomain,
    ) -> (ctx: Option<Kind<B>>)
        ensures
            final(self)@
                == Self::after(old(self)@, context(parent), Element::DataPropertyDomain(e)),
            context(ctx)
                == Self::yields(old(self)@, context(parent), Element::DataPropertyDomain(e)),
    {
        self.visit_other(parent, Element::DataPropertyDomain(e))
    }

    fn visit_data_property_range(
        &mut self,
        parent: Option<Kind<B>>,
        e: &DataPropertyRange,
    ) -> (ctx: Option<Kind<B>>)
        ensures
            final(self)@ == Self::after(old(self)@, context(parent), Element::DataPropertyRange(e)),
            context(ctx)
                == Self::yields(old(self)@, context(parent), Element::DataPropertyRange(e)),
    {
        self.visit_other(parent, Element::DataPropertyRange(e))
    }

    fn visit_functional_data_property(
        &mut self,
        parent: Option<Kind<B>>,
        e: &FunctionalDataProperty,
    ) -> (ctx: Option<Kind<B>>)
        ensures
            final(self)@
                == Self::after(old(self)@, context(parent), Element::FunctionalDataProperty(e)),
            context(ctx)
                == Self::yields(old(self)@, context(parent), Element::FunctionalDataProperty(e)),
    {
        self.visit_other(parent, Element::FunctionalDataProperty(e))
    }

    fn visit_datatype_definition(
        &mut self,
        parent: Option<Kind<B>>,
        e: &DatatypeDefinition,
    ) -> (ctx: Option<Kind<B>>)
        ensures
            final(self)@
                == Self::after(old(self)@, context(parent), Element::DatatypeDefinition(e)),
            context(ctx)
                == Self::yields(old(self)@, context(parent), Element::DatatypeDefinition(e)),
    {
        self.visit_other(parent, Element::DatatypeDefinition(e))
    }

    fn visit_has_key(&mut self, parent: Option<Kind<B>>, e: &HasKey) -> (ctx: Option<Kind<B>>)
        ensures
            final(self)@ == Self::after(old(self)@, context(parent), Element::HasKey(e)),
            context(ctx) == Self::yields(old(self)@, context(parent), Element::HasKey(e)),
    {
        self.visit_other(parent, Element::HasKey(e))
    }

    fn visit_same_individual(
        &mut self,
        parent: Option<Kind<B>>,
        e: &SameIndividual,
    ) -> (ctx: Option<Kind<B>>)
        ensures
            final(self)@ == Self::after(old(self)@, context(parent), Element::SameIndividual(e)),
            context(ctx) == Self::yields(old(self)@, context(parent), Element::SameIndividual(e)),
    {
        self.visit_other(parent, Element::SameIndividual(e))
    }

    fn visit_different_individuals(
        &mut self,
        parent: Option<Kind<B>>,
        e: &DifferentIndividuals,
    ) -> (ctx: Option<Kind<B>>)
        ensures
            final(self)@
                == Self::after(old(self)@, context(parent), Element::DifferentIndividuals(e)),
            context(ctx)
                == Self::yields(old(self)@, context(parent), Element::DifferentIndividuals(e)),
    {
        self.visit_other(parent, Element::DifferentIndividuals(e))
    }

    fn visit_class_assertion(
        &mut self,
        parent: Option<Kind<B>>,
        e: &ClassAssertion,
    ) -> (ctx: Option<Kind<B>>)
        ensures
            final(self)@ == Self::after(old(self)@, context(parent), Element::ClassAssertion(e)),
            context(ctx) == Self::yields(old(self)@, context(parent), Element::ClassAssertion(e)),
    {
        self.visit_other(parent, Element::ClassAssertion(e))
    }

    fn visit_object_property_assertion(
        &mut self,
        parent: Option<Kind<B>>,
        e: &ObjectPropertyAssertion,
    ) -> (ctx: Option<Kind<B>>)
        ensures
            final(self)@
                == Self::after(old(self)@, context(parent), Element::ObjectPropertyAssertion(e)),
            context(ctx)
                == Self::yields(old(self)@, context(parent), Element::ObjectPropertyAssertion(e)),
    {
        self.visit_other(parent, Element::ObjectPropertyAssertion(e))
    }

    fn visit_negative_object_property_assertion(
        &mut self,
        parent: Option<Kind<B>>,
        e: &NegativeObjectPropertyAssertion,
    ) -> (ctx: Option<Kind<B>>)
        ensures
            final(self)@ == Self::after(
                old(self)@,
                context(parent),
                Element::NegativeObjectPropertyAssertion(e),
            ),
            context(ctx) == Self::yields(
                old(self)@,
                context(parent),
                Element::NegativeObjectPropertyAssertion(e),
            ),
    {
        self.visit_other(parent, Element::NegativeObjectPropertyAssertion(e))
    }

    fn visit_data_property_assertion(
        &mut self,
        parent: Option<Kind<B>>,
        e: &DataPropertyAssertion,
    ) -> (ctx: Option<Kind<B>>)
        ensures
            final(self)@
                == Self::after(old(self)@, context(parent), Element::DataPropertyAssertion(e)),
            context(ctx)
                == Self::yields(old(self)@, context(parent), Element::DataPropertyAssertion(e)),
    {
        self.visit_other(parent, Element::DataPropertyAssertion(e))
    }

    fn visit_negative_data_property_assertion(
        &mut self,
        parent: Option<Kind<B>>,
        e: &NegativeDataPropertyAssertion,
    ) -> (ctx: Option<Kind<B>>)
        ensures
            final(self)@ == Self::after(
                old(self)@,
                context(parent),
                Element::NegativeDataPropertyAssertion(e),
            ),
            context(ctx) == Self::yields(
                old(self)@,
                context(parent),
                Element::NegativeDataPropertyAssertion(e),
            ),
    {
        self.visit_other(parent, Element::NegativeDataPropertyAssertion(e))
    }

    fn visit_annotation_assertion(
        &mut self,
        parent: Option<Kind<B>>,
        e: &AnnotationAssertion,
    ) -> (ctx: Option<Kind<B>>)
        ensures
            final(self)@
                == Self::after(old(self)@, context(parent), Element::AnnotationAssertion(e)),
            context(ctx)
                == Self::yields(old(self)@, context(parent), Element::AnnotationAssertion(e)),
    {
        self.visit_other(parent, Element::AnnotationAssertion(e))
    }

    fn visit_sub_annotation_property_of(
        &mut self,
        parent: Option<Kind<B>>,
        e: &SubAnnotationPropertyOf,
    ) -> (ctx: Option<Kind<B>>)
        ensures
            final(self)@
                == Self::after(old(self)@, context(parent), Element::SubAnnotationPropertyOf(e)),
            context(ctx)
                == Self::yields(old(self)@, context(parent), Element::SubAnnotationPropertyOf(e)),
    {
        self.visit_other(parent, Element::SubAnnotationPropertyOf(e))
    }

    fn visit_annotation_property_domain(
        &mut self,
        parent: Option<Kind<B>>,
        e: &AnnotationPropertyDomain,
    ) -> (ctx: Option<Kind<B>>)
        ensures
            final(self)@
                == Self::after(old(self)@, context(parent), Element::AnnotationPropertyDomain(e)),
            context(ctx)
                == Self::yields(old(self)@, context(parent), Element::AnnotationPropertyDomain(e)),
    {
        self.visit_other(parent, Element::AnnotationPropertyDomain(e))
    }

    fn visit_annotation_property_range(
        &mut self,
        parent: Option<Kind<B>>,
        e: &AnnotationPropertyRange,
    ) -> (ctx: Option<Kind<B>>)
        ensures
            final(self)@
                == Self::after(old(self)@, context(parent), Element::AnnotationPropertyRange(e)),
            context(ctx)
                == Self::yields(old(self)@, context(parent), Element::AnnotationPropertyRange(e)),
    {
        self.visit_other(parent, Element::AnnotationPropertyRange(e))
    }

    fn visit_rule(&mut self, parent: Option<Kind<B>>, e: &Rule) -> (ctx: Option<Kind<B>>)
        ensures
            final(self)@ == Self::after(old(self)@, context(parent), Element::Rule(e)),
            context(ctx) == Self::yields(old(self)@, context(parent), Element::Rule(e)),
    {
        self.visit_other(parent, Element::Rule(e))
    }

    fn visit_atom(&mut self, parent: Option<Kind<B>>, e: &Atom) -> (ctx: Option<Kind<B>>)
        ensures
            final(self)@ == Self::after(old(self)@, context(parent), Element::Atom(e)),
            context(ctx) == Self::yields(old(self)@, context(parent), Element::Atom(e)),
    {
        self.visit_other(parent, Element::Atom(e))
    }

    fn visit_variable(&mut self, parent: Option<Kind<B>>, e: &Variable) -> (ctx: Option<Kind<B>>)
        ensures
            final(self)@ == Self::after(old(self)@, context(parent), Element::Variable(e)),
            context(ctx) == Self::yields(old(self)@, context(parent), Element::Variable(e)),
    {
        self.visit_other(parent, Element::Variable(e))
    }

    fn visit_iarg(&mut self, parent: Option<Kind<B>>, e: &IArgument) -> (ctx: Option<Kind<B>>)
        ensures
            final(self)@ == Self::after(old(self)@, context(parent), Element::IArgument(e)),
            context(ctx) == Self::yields(old(self)@, context(parent), Element::IArgument(e)),
    {
        self.visit_other(parent, Element::IArgument(e))
    }

    fn visit_darg(&mut self, parent: Option<Kind<B>>, e: &DArgument) -> (ctx: Option<Kind<B>>)
        ensures
            final(self)@ == Self::after(old(self)@, context(parent), Element::DArgument(e)),
            context(ctx) == Self::yields(old(self)@, context(parent), Element::DArgument(e)),
    {
        self.visit_other(parent, Element::DArgument(e))
    }

    fn visit_literal(&mut self, parent: Option<Kind<B>>, e: &Literal) -> (ctx: Option<Kind<B>>)
        ensures
            final(self)@ == Self::after(old(self)@, context(parent), Element::Literal(e)),
            context(ctx) == Self::yields(old(self)@, context(parent), Element::Literal(e)),
    {
        self.visit_other(parent, Element::Literal(e))
    }

    fn visit_annotation(
        &mut self,
        parent: Option<Kind<B>>,
        e: &Annotation,
    ) -> (ctx: Option<Kind<B>>)
        ensures
            final(self)@ == Self::after(old(self)@, context(parent), Element::Annotation(e)),
            context(ctx) == Self::yields(old(self)@, context(parent), Element::Annotation(e)),
    {
        self.visit_other(parent, Element::Annotation(e))
    }

    fn visit_annotation_value(
        &mut self,
        parent: Option<Kind<B>>,
        e: &AnnotationValue,
    ) -> (ctx: Option<Kind<B>>)
        ensures
            final(self)@ == Self::after(old(self)@, context(parent), Element::AnnotationValue(e)),
            context(ctx) == Self::yields(old(self)@, context(parent), Element::AnnotationValue(e)),
    {
        self.visit_other(parent, Element::AnnotationValue(e))
    }

    fn visit_object_property_expression(
        &mut self,
        parent: Option<Kind<B>>,
        e: &ObjectPropertyExpression,
    ) -> (ctx: Option<Kind<B>>)
        ensures
            final(self)@
                == Self::after(old(self)@, context(parent), Element::ObjectPropertyExpression(e)),
            context(ctx)
                == Self::yields(old(self)@, context(parent), Element::ObjectPropertyExpression(e)),
    {
        self.visit_other(parent, Element::ObjectPropertyExpression(e))
    }

    fn visit_sub_object_property_expression(
        &mut self,
        parent: Option<Kind<B>>,
        e: &SubObjectPropertyExpression,
    ) -> (ctx: Option<Kind<B>>)
        ensures
            final(self)@ == Self::after(
                old(self)@,
                context(parent),
                Element::SubObjectPropertyExpression(e),
            ),
            context(ctx) == Self::yields(
                old(self)@,
                context(parent),
                Element::SubObjectPropertyExpression(e),
            ),
    {
        self.visit_other(parent, Element::SubObjectPropertyExpression(e))
    }

    fn visit_property_expression(
        &mut self,
        parent: Option<Kind<B>>,
        e: &PropertyExpression,
    ) -> (ctx: Option<Kind<B>>)
        ensures
            final(self)@
                == Self::after(old(self)@, context(parent), Element::PropertyExpression(e)),
            context(ctx)
                == Self::yields(old(self)@, context(parent), Element::PropertyExpression(e)),
    {
        self.visit_other(parent, Element::PropertyExpression(e))
    }

    fn visit_facet_restriction(
        &mut self,
        parent: Option<Kind<B>>,
        e: &FacetRestriction,
    ) -> (ctx: Option<Kind<B>>)
        ensures
            final(self)@ == Self::after(old(self)@, context(parent), Element::FacetRestriction(e)),
            context(ctx) == Self::yields(old(self)@, context(parent), Element::FacetRestriction(e)),
    {
        self.visit_other(parent, Element::FacetRestriction(e))
    }

    fn visit_facet(&mut self, parent: Option<Kind<B>>, e: &Facet) -> (ctx: Option<Kind<B>>)
        ensures
            final(self)@ == Self::after(old(self)@, context(parent), Element::Facet(e)),
            context(ctx) == Self::yields(old(self)@, context(parent), Element::Facet(e)),
    {
        self.visit_other(parent, Element::Facet(e))
    }

    fn visit_data_range(&mut self, parent: Option<Kind<B>>, e: &DataRange) -> (ctx: Option<Kind<B>>)
        ensures
            final(self)@ == Self::after(old(self)@, context(parent), Element::DataRange(e)),
            context(ctx) == Self::yields(old(self)@, context(parent), Element::DataRange(e)),
    {
        self.visit_other(parent, Element::DataRange(e))
    }

    fn visit_class_expression(
        &mut self,
        parent: Option<Kind<B>>,
        e: &ClassExpression,
    ) -> (ctx: Option<Kind<B>>)
        ensures
            final(self)@ == Self::after(old(self)@, context(parent), Element::ClassExpression(e)),
            context(ctx) == Self::yields(old(self)@, context(parent), Element::ClassExpression(e)),
    {
        self.visit_other(parent, Element::ClassExpression(e))
    }

    fn visit_ontology_id(
        &mut self,
        parent: Option<Kind<B>>,
        e: &OntologyID,
    ) -> (ctx: Option<Kind<B>>)
        ensures
            final(self)@ == Self::after(old(self)@, context(parent), Element::OntologyID(e)),
            context(ctx) == Self::yields(old(self)@, context(parent), Element::OntologyID(e)),
    {
        self.visit_other(parent, Element::OntologyID(e))
    }

    fn visit_set_ontology(
        &mut self,
        parent: Option<Kind<B>>,
        e: &SetOntology,
    ) -> (ctx: Option<Kind<B>>)
        ensures
            final(self)@ == Self::after(old(self)@, context(parent), Element::SetOntology(e)),
            context(ctx) == Self::yields(old(self)@, context(parent), Element::SetOntology(e)),
    {
        self.visit_other(parent, Element::SetOntology(e))
    }

    fn visit_option_iri(
        &mut self,
        parent: Option<Kind<B>>,
        e: &Option<IRI>,
    ) -> (ctx: Option<Kind<B>>)
        ensures
            final(self)@ == Self::after(old(self)@, context(parent), Element::OptionIri(e)),
            context(ctx) == Self::yields(old(self)@, context(parent), Element::OptionIri(e)),
    {
        self.visit_other(parent, Element::OptionIri(e))
    }

    fn visit_annotation_set(
        &mut self,
        parent: Option<Kind<B>>,
        e: &Vec<Annotation>,
    ) -> (ctx: Option<Kind<B>>)
        ensures
            final(self)@ == Self::after(old(self)@, context(parent), Element::AnnotationSet(e)),
            context(ctx) == Self::yields(old(self)@, context(parent), Element::AnnotationSet(e)),
    {
        self.visit_other(parent, Element::AnnotationSet(e))
    }

    fn visit_class_expression_vec(
        &mut self,
        parent: Option<Kind<B>>,
        e: &Vec<ClassExpression>,
    ) -> (ctx: Option<Kind<B>>)
        ensures
            final(self)@
                == Self::after(old(self)@, context(parent), Element::ClassExpressionVec(e)),
            context(ctx)
                == Self::yields(old(self)@, context(parent), Element::ClassExpressionVec(e)),
    {
        self.visit_other(parent, Element::ClassExpressionVec(e))
    }

    fn visit_object_property_expression_vec(
        &mut self,
        parent: Option<Kind<B>>,
        e: &Vec<ObjectPropertyExpression>,
    ) -> (ctx: Option<Kind<B>>)
        ensures
            final(self)@ == Self::after(
                old(self)@,
                context(parent),
                Element::ObjectPropertyExpressionVec(e),
            ),
            context(ctx) == Self::yields(
                old(self)@,
                context(parent),
                Element::ObjectPropertyExpressionVec(e),
            ),
    {
        self.visit_other(parent, Element::ObjectPropertyExpressionVec(e))
    }

    fn visit_data_property_vec(
        &mut self,
        parent: Option<Kind<B>>,
        e: &Vec<DataProperty>,
    ) -> (ctx: Option<Kind<B>>)
        ensures
            final(self)@ == Self::after(old(self)@, context(parent), Element::DataPropertyVec(e)),
            context(ctx) == Self::yields(old(self)@, context(parent), Element::DataPropertyVec(e)),
    {
        self.visit_other(parent, Element::DataPropertyVec(e))
    }

    fn visit_data_range_vec(
        &mut self,
        parent: Option<Kind<B>>,
        e: &Vec<DataRange>,
    ) -> (ctx: Option<Kind<B>>)
        ensures
            final(self)@ == Self::after(old(self)@, context(parent), Element::DataRangeVec(e)),
            context(ctx) == Self::yields(old(self)@, context(parent), Element::DataRangeVec(e)),
    {
        self.visit_other(parent, Element::DataRangeVec(e))
    }

    fn visit_individual_vec(
        &mut self,
        parent: Option<Kind<B>>,
        e: &Vec<Individual>,
    ) -> (ctx: Option<Kind<B>>)
        ensures
            final(self)@ == Self::after(old(self)@, context(parent), Element::IndividualVec(e)),
            context(ctx) == Self::yields(old(self)@, context(parent), Element::IndividualVec(e)),
    {
        self.visit_other(parent, Element::IndividualVec(e))
    }

    fn visit_literal_vec(
        &mut self,
        parent: Option<Kind<B>>,
        e: &Vec<Literal>,
    ) -> (ctx: Option<Kind<B>>)
        ensures
            final(self)@ == Self::after(old(self)@, context(parent), Element::LiteralVec(e)),
            context(ctx) == Self::yields(old(self)@, context(parent), Element::LiteralVec(e)),
    {
        self.visit_other(parent, Element::LiteralVec(e))
    }

    fn visit_facet_restriction_vec(
        &mut self,
        parent: Option<Kind<B>>,
        e: &Vec<FacetRestriction>,
    ) -> (ctx: Option<Kind<B>>)
        ensures
            final(self)@
                == Self::after(old(self)@, context(parent), Element::FacetRestrictionVec(e)),
            context(ctx)
                == Self::yields(old(self)@, context(parent), Element::FacetRestrictionVec(e)),
    {
        self.visit_other(parent, Element::FacetRestrictionVec(e))
    }

    fn visit_atom_vec(&mut self, parent: Option<Kind<B>>, e: &Vec<Atom>) -> (ctx: Option<Kind<B>>)
        ensures
            final(self)@ == Self::after(old(self)@, context(parent), Element::AtomVec(e)),
            context(ctx) == Self::yields(old(self)@, context(parent), Element::AtomVec(e)),
    {
        self.visit_other(parent, Element::AtomVec(e))
    }

    fn visit_darg_vec(
        &mut self,
        parent: Option<Kind<B>>,
        e: &Vec<DArgument>,
    ) -> (ctx: Option<Kind<B>>)
        ensures
            final(self)@ == Self::after(old(self)@, context(parent), Element::DArgumentVec(e)),
            context(ctx) == Self::yields(old(self)@, context(parent), Element::DArgumentVec(e)),
    {
        self.visit_other(parent, Element::DArgumentVec(e))
    }
}

} // verus!
