//! The grammar of an ontology document: entities, expressions, axioms and the
//! document itself, after the component model of OWL 2 with SWRL rules.
//!
//! The types are plain data. Every identifier is held as a `String`; the order
//! of a `Vec` is the order in which its members are visited.

use vstd::prelude::*;

verus! {

/// The texts of `names`, one for one.
pub open spec fn texts(names: Seq<String>) -> Seq<Seq<char>> {
    Seq::new(names.len(), |i: int| names[i]@)
}

/// An internationalized resource identifier, the name of a named entity.
#[derive(Debug, PartialEq, Eq)]
pub struct IRI(pub String);

impl View for IRI {
    type V = Seq<char>;

    open spec fn view(&self) -> Seq<char> {
        self.0@
    }
}

impl IRI {
    /// A copy of the identifier's text.
    pub fn underlying(&self) -> (text: String)
        ensures
            text@ == self@,
    {
        self.0.clone()
    }
}

/// A group of individuals.
#[derive(Debug, PartialEq, Eq)]
pub struct Class(pub IRI);

/// A kind of data, such as an integer or a string.
#[derive(Debug, PartialEq, Eq)]
pub struct Datatype(pub IRI);

/// A relation between two individuals.
#[derive(Debug, PartialEq, Eq)]
pub struct ObjectProperty(pub IRI);

/// A relation between an individual and a piece of data.
#[derive(Debug, PartialEq, Eq)]
pub struct DataProperty(pub IRI);

/// A relation that carries a remark about an entity or an axiom.
#[derive(Debug, PartialEq, Eq)]
pub struct AnnotationProperty(pub IRI);

/// An individual with a name.
#[derive(Debug, PartialEq, Eq)]
pub struct NamedIndividual(pub IRI);

/// A variable of a rule.
#[derive(Debug, PartialEq, Eq)]
pub struct Variable(pub IRI);

/// An individual without a name, known by an identifier local to its document.
#[derive(Debug, PartialEq, Eq)]
pub struct AnonymousIndividual(pub String);

impl View for AnonymousIndividual {
    type V = Seq<char>;

    open spec fn view(&self) -> Seq<char> {
        self.0@
    }
}

impl AnonymousIndividual {
    /// A copy of the local identifier.
    pub fn underlying(&self) -> (text: String)
        ensures
            text@ == self@,
    {
        self.0.clone()
    }
}

/// An individual, anonymous or named.
#[derive(Debug, PartialEq, Eq)]
pub enum Individual {
    Anonymous(AnonymousIndividual),
    Named(NamedIndividual),
}

impl Individual {
    /// The text under which the individual is known: the IRI of a named one,
    /// the local identifier of an anonymous one.
    pub open spec fn name(&self) -> Seq<char> {
        match self {
            Individual::Anonymous(a) => a@,
            Individual::Named(n) => n.0@,
        }
    }
}

/// What an annotation assertion is about.
#[derive(Debug, PartialEq, Eq)]
pub enum AnnotationSubject {
    IRI(IRI),
    AnonymousIndividual(AnonymousIndividual),
}

/// A piece of data: plain, with a language, or of a datatype.
#[derive(Debug, PartialEq, Eq)]
pub enum Literal {
    Simple { literal: String },
    Language { literal: String, lang: String },
    Datatype { literal: String, datatype_iri: IRI },
}

/// What an annotation says of its subject.
#[derive(Debug, PartialEq, Eq)]
pub enum AnnotationValue {
    Literal(Literal),
    IRI(IRI),
    AnonymousIndividual(AnonymousIndividual),
}

/// A remark: a property and the value it takes.
#[derive(Debug, PartialEq, Eq)]
pub struct Annotation {
    pub ap: AnnotationProperty,
    pub av: AnnotationValue,
}

/// An object property, or the inverse of one.
#[derive(Debug, PartialEq, Eq)]
pub enum ObjectPropertyExpression {
    ObjectProperty(ObjectProperty),
    InverseObjectProperty(ObjectProperty),
}

impl ObjectPropertyExpression {
    /// The property itself, where the expression is not an inverse.
    pub fn as_property(&self) -> (property: Option<&ObjectProperty>)
        ensures
            property == match self {
                ObjectPropertyExpression::ObjectProperty(op) => Some(op),
                ObjectPropertyExpression::InverseObjectProperty(_) => None,
            },
    {
        match self {
            ObjectPropertyExpression::ObjectProperty(op) => Some(op),
            ObjectPropertyExpression::InverseObjectProperty(_) => None,
        }
    }
}

/// The narrower side of a sub-property axiom: a property expression, or a
/// chain of them.
#[derive(Debug, PartialEq, Eq)]
pub enum SubObjectPropertyExpression {
    ObjectPropertyChain(Vec<ObjectPropertyExpression>),
    ObjectPropertyExpression(ObjectPropertyExpression),
}

/// A property of any kind, as a key names it.
#[derive(Debug, PartialEq, Eq)]
pub enum PropertyExpression {
    ObjectPropertyExpression(ObjectPropertyExpression),
    DataProperty(DataProperty),
    AnnotationProperty(AnnotationProperty),
}

/// A constraining facet of a datatype restriction.
#[derive(Clone, Copy, Debug, PartialEq, Eq)]
pub enum Facet {
    Length,
    MinLength,
    MaxLength,
    Pattern,
    MinInclusive,
    MinExclusive,
    MaxInclusive,
    MaxExclusive,
    TotalDigits,
    FractionDigits,
    LangRange,
}

/// A facet and the value that bounds it.
#[derive(Debug, PartialEq, Eq)]
pub struct FacetRestriction {
    pub f: Facet,
    pub l: Literal,
}

/// A set of data values.
#[derive(Debug, PartialEq, Eq)]
pub enum DataRange {
    Datatype(Datatype),
    DataIntersectionOf(Vec<DataRange>),
    DataUnionOf(Vec<DataRange>),
    DataComplementOf(Box<DataRange>),
    DataOneOf(Vec<Literal>),
    DatatypeRestriction(Datatype, Vec<FacetRestriction>),
}

/// A set of individuals: a class by name, or a description built from
/// classes, properties, individuals and data ranges.
#[derive(Debug, PartialEq, Eq)]
pub enum ClassExpression {
    Class(Class),
    ObjectIntersectionOf(Vec<ClassExpression>),
    ObjectUnionOf(Vec<ClassExpression>),
    ObjectComplementOf(Box<ClassExpression>),
    ObjectOneOf(Vec<Individual>),
    ObjectSomeValuesFrom { ope: ObjectPropertyExpression, bce: Box<ClassExpression> },
    ObjectAllValuesFrom { ope: ObjectPropertyExpression, bce: Box<ClassExpression> },
    ObjectHasValue { ope: ObjectPropertyExpression, i: Individual },
    ObjectHasSelf(ObjectPropertyExpression),
    ObjectMinCardinality { n: u32, ope: ObjectPropertyExpression, bce: Box<ClassExpression> },
    ObjectMaxCardinality { n: u32, ope: ObjectPropertyExpression, bce: Box<ClassExpression> },
    ObjectExactCardinality { n: u32, ope: ObjectPropertyExpression, bce: Box<ClassExpression> },
    DataSomeValuesFrom { dp: DataProperty, dr: DataRange },
    DataAllValuesFrom { dp: DataProperty, dr: DataRange },
    DataHasValue { dp: DataProperty, l: Literal },
    DataMinCardinality { n: u32, dp: DataProperty, dr: DataRange },
    DataMaxCardinality { n: u32, dp: DataProperty, dr: DataRange },
    DataExactCardinality { n: u32, dp: DataProperty, dr: DataRange },
}

impl ClassExpression {
    /// The identifier of the class, where the expression is a plain class
    /// reference; nothing where it is composite.
    pub open spec fn plain(&self) -> Option<Seq<char>> {
        match self {
            ClassExpression::Class(c) => Some(c.0@),
            _ => None,
        }
    }
}

/// An argument of an atom that stands for an individual.
#[derive(Debug, PartialEq, Eq)]
pub enum IArgument {
    Individual(Individual),
    Variable(Variable),
}

/// An argument of an atom that stands for a piece of data.
#[derive(Debug, PartialEq, Eq)]
pub enum DArgument {
    Literal(Literal),
    Variable(Variable),
}

/// One condition of a rule.
#[allow(inconsistent_fields)]
#[derive(Debug, PartialEq, Eq)]
pub enum Atom {
    BuiltInAtom { pred: IRI, args: Vec<DArgument> },
    ClassAtom { pred: ClassExpression, arg: IArgument },
    DataPropertyAtom { pred: DataProperty, args: (DArgument, DArgument) },
    DataRangeAtom { pred: DataRange, arg: DArgument },
    DifferentIndividualsAtom(IArgument, IArgument),
    ObjectPropertyAtom { pred: ObjectPropertyExpression, args: (IArgument, IArgument) },
    SameIndividualAtom(IArgument, IArgument),
}

/// The identifier of a document and of its version.
#[derive(Debug, PartialEq, Eq)]
pub struct OntologyID {
    pub iri: Option<IRI>,
    pub viri: Option<IRI>,
}

/// The place a document was read from.
#[derive(Debug, PartialEq, Eq)]
pub struct DocIRI(pub IRI);

/// The import of another document.
#[derive(Debug, PartialEq, Eq)]
pub struct Import(pub IRI);

/// An annotation of the document itself.
#[derive(Debug, PartialEq, Eq)]
pub struct OntologyAnnotation(pub Annotation);

/// Declares that a class exists.
#[derive(Debug, PartialEq, Eq)]
pub struct DeclareClass(pub Class);

/// Declares that an object property exists.
#[derive(Debug, PartialEq, Eq)]
pub struct DeclareObjectProperty(pub ObjectProperty);

/// Declares that an annotation property exists.
#[derive(Debug, PartialEq, Eq)]
pub struct DeclareAnnotationProperty(pub AnnotationProperty);

/// Declares that a data property exists.
#[derive(Debug, PartialEq, Eq)]
pub struct DeclareDataProperty(pub DataProperty);

/// Declares that a named individual exists.
#[derive(Debug, PartialEq, Eq)]
pub struct DeclareNamedIndividual(pub NamedIndividual);

/// Declares that a datatype exists.
#[derive(Debug, PartialEq, Eq)]
pub struct DeclareDatatype(pub Datatype);

/// Every individual of `sub` is an individual of `sup`.
#[derive(Debug, PartialEq, Eq)]
pub struct SubClassOf {
    pub sup: ClassExpression,
    pub sub: ClassExpression,
}

/// The class expressions have the same individuals.
#[derive(Debug, PartialEq, Eq)]
pub struct EquivalentClasses(pub Vec<ClassExpression>);

/// No individual belongs to two of the class expressions.
#[derive(Debug, PartialEq, Eq)]
pub struct DisjointClasses(pub Vec<ClassExpression>);

/// The class is the union of the class expressions, which are disjoint.
#[derive(Debug, PartialEq, Eq)]
pub struct DisjointUnion(pub Class, pub Vec<ClassExpression>);

/// Whatever is related by `sub` is related by `sup`.
#[derive(Debug, PartialEq, Eq)]
pub struct SubObjectPropertyOf {
    pub sup: ObjectPropertyExpression,
    pub sub: SubObjectPropertyExpression,
}

/// The properties relate the same individuals.
#[derive(Debug, PartialEq, Eq)]
pub struct EquivalentObjectProperties(pub Vec<ObjectPropertyExpression>);

/// No two individuals are related by two of the properties.
#[derive(Debug, PartialEq, Eq)]
pub struct DisjointObjectProperties(pub Vec<ObjectPropertyExpression>);

/// Each property is the inverse of the other.
#[derive(Debug, PartialEq, Eq)]
pub struct InverseObjectProperties(pub ObjectProperty, pub ObjectProperty);

/// Whatever has the property belongs to the class expression.
#[derive(Debug, PartialEq, Eq)]
pub struct ObjectPropertyDomain {
    pub ope: ObjectPropertyExpression,
    pub ce: ClassExpression,
}

/// Whatever the property points to belongs to the class expression.
#[derive(Debug, PartialEq, Eq)]
pub struct ObjectPropertyRange {
    pub ope: ObjectPropertyExpression,
    pub ce: ClassExpression,
}

/// An individual has the property to one individual at most.
#[derive(Debug, PartialEq, Eq)]
pub struct FunctionalObjectProperty(pub ObjectPropertyExpression);

/// One individual at most has the property to a given individual.
#[derive(Debug, PartialEq, Eq)]
pub struct InverseFunctionalObjectProperty(pub ObjectPropertyExpression);

/// Every individual has the property to itself.
#[derive(Debug, PartialEq, Eq)]
pub struct ReflexiveObjectProperty(pub ObjectPropertyExpression);

/// No individual has the property to itself.
#[derive(Debug, PartialEq, Eq)]
pub struct IrreflexiveObjectProperty(pub ObjectPropertyExpression);

/// The property holds both ways wherever it holds one way.
#[derive(Debug, PartialEq, Eq)]
pub struct SymmetricObjectProperty(pub ObjectPropertyExpression);

/// The property holds one way only.
#[derive(Debug, PartialEq, Eq)]
pub struct AsymmetricObjectProperty(pub ObjectPropertyExpression);

/// The property holds across a chain of itself.
#[derive(Debug, PartialEq, Eq)]
pub struct TransitiveObjectProperty(pub ObjectPropertyExpression);

/// Whatever is related by `sub` is related by `sup`.
#[derive(Debug, PartialEq, Eq)]
pub struct SubDataPropertyOf {
    pub sup: DataProperty,
    pub sub: DataProperty,
}

/// The properties relate the same individuals to the same data.
#[derive(Debug, PartialEq, Eq)]
pub struct EquivalentDataProperties(pub Vec<DataProperty>);

/// No individual is related to one value by two of the properties.
#[derive(Debug, PartialEq, Eq)]
pub struct DisjointDataProperties(pub Vec<DataProperty>);

/// Whatever has the property belongs to the class expression.
#[derive(Debug, PartialEq, Eq)]
pub struct DataPropertyDomain {
    pub dp: DataProperty,
    pub ce: ClassExpression,
}

/// Whatever the property points to lies in the data range.
#[derive(Debug, PartialEq, Eq)]
pub struct DataPropertyRange {
    pub dp: DataProperty,
    pub dr: DataRange,
}

/// An individual has the property to one value at most.
#[derive(Debug, PartialEq, Eq)]
pub struct FunctionalDataProperty(pub DataProperty);

/// The datatype `kind` is the data range `range`.
#[derive(Debug, PartialEq, Eq)]
pub struct DatatypeDefinition {
    pub kind: Datatype,
    pub range: DataRange,
}

/// An individual of the class expression is told from the others by the
/// values of the properties.
#[derive(Debug, PartialEq, Eq)]
pub struct HasKey {
    pub ce: ClassExpression,
    pub vpe: Vec<PropertyExpression>,
}

/// The individuals are one and the same.
#[derive(Debug, PartialEq, Eq)]
pub struct SameIndividual(pub Vec<Individual>);

/// The individuals differ from one another.
#[derive(Debug, PartialEq, Eq)]
pub struct DifferentIndividuals(pub Vec<Individual>);

/// The individual belongs to the class expression.
#[derive(Debug, PartialEq, Eq)]
pub struct ClassAssertion {
    pub ce: ClassExpression,
    pub i: Individual,
}

/// The individual `from` has the property to the individual `to`.
#[derive(Debug, PartialEq, Eq)]
pub struct ObjectPropertyAssertion {
    pub ope: ObjectPropertyExpression,
    pub from: Individual,
    pub to: Individual,
}

/// The individual `from` does not have the property to the individual `to`.
#[derive(Debug, PartialEq, Eq)]
pub struct NegativeObjectPropertyAssertion {
    pub ope: ObjectPropertyExpression,
    pub from: Individual,
    pub to: Individual,
}

/// The individual `from` has the property to the value `to`.
#[derive(Debug, PartialEq, Eq)]
pub struct DataPropertyAssertion {
    pub dp: DataProperty,
    pub from: Individual,
    pub to: Literal,
}

/// The individual `from` does not have the property to the value `to`.
#[derive(Debug, PartialEq, Eq)]
pub struct NegativeDataPropertyAssertion {
    pub dp: DataProperty,
    pub from: Individual,
    pub to: Literal,
}

/// An annotation of the subject.
#[derive(Debug, PartialEq, Eq)]
pub struct AnnotationAssertion {
    pub subject: AnnotationSubject,
    pub ann: Annotation,
}

/// Whatever is annotated by `sub` is annotated by `sup`.
#[derive(Debug, PartialEq, Eq)]
pub struct SubAnnotationPropertyOf {
    pub sup: AnnotationProperty,
    pub sub: AnnotationProperty,
}

/// What the annotation property is meant to be said of.
#[derive(Debug, PartialEq, Eq)]
pub struct AnnotationPropertyDomain {
    pub ap: AnnotationProperty,
    pub iri: IRI,
}

/// What the annotation property is meant to take as a value.
#[derive(Debug, PartialEq, Eq)]
pub struct AnnotationPropertyRange {
    pub ap: AnnotationProperty,
    pub iri: IRI,
}

/// A rule: where every atom of the body holds, every atom of the head holds.
#[derive(Debug, PartialEq, Eq)]
pub struct Rule {
    pub head: Vec<Atom>,
    pub body: Vec<Atom>,
}

/// One assertion of a document.
#[derive(Debug, PartialEq, Eq)]
pub enum Component {
    OntologyID(OntologyID),
    DocIRI(DocIRI),
    Import(Import),
    OntologyAnnotation(OntologyAnnotation),
    DeclareClass(DeclareClass),
    DeclareObjectProperty(DeclareObjectProperty),
    DeclareAnnotationProperty(DeclareAnnotationProperty),
    DeclareDataProperty(DeclareDataProperty),
    DeclareNamedIndividual(DeclareNamedIndividual),
    DeclareDatatype(DeclareDatatype),
    SubClassOf(SubClassOf),
    EquivalentClasses(EquivalentClasses),
    DisjointClasses(DisjointClasses),
    DisjointUnion(DisjointUnion),
    SubObjectPropertyOf(SubObjectPropertyOf),
    EquivalentObjectProperties(EquivalentObjectProperties),
    DisjointObjectProperties(DisjointObjectProperties),
    InverseObjectProperties(InverseObjectProperties),
    ObjectPropertyDomain(ObjectPropertyDomain),
    ObjectPropertyRange(ObjectPropertyRange),
    FunctionalObjectProperty(FunctionalObjectProperty),
    InverseFunctionalObjectProperty(InverseFunctionalObjectProperty),
    ReflexiveObjectProperty(ReflexiveObjectProperty),
    IrreflexiveObjectProperty(IrreflexiveObjectProperty),
    SymmetricObjectProperty(SymmetricObjectProperty),
    AsymmetricObjectProperty(AsymmetricObjectProperty),
    TransitiveObjectProperty(TransitiveObjectProperty),
    SubDataPropertyOf(SubDataPropertyOf),
    EquivalentDataProperties(EquivalentDataProperties),
    DisjointDataProperties(DisjointDataProperties),
    DataPropertyDomain(DataPropertyDomain),
    DataPropertyRange(DataPropertyRange),
    FunctionalDataProperty(FunctionalDataProperty),
    DatatypeDefinition(DatatypeDefinition),
    HasKey(HasKey),
    SameIndividual(SameIndividual),
    DifferentIndividuals(DifferentIndividuals),
    ClassAssertion(ClassAssertion),
    ObjectPropertyAssertion(ObjectPropertyAssertion),
    NegativeObjectPropertyAssertion(NegativeObjectPropertyAssertion),
    DataPropertyAssertion(DataPropertyAssertion),
    NegativeDataPropertyAssertion(NegativeDataPropertyAssertion),
    AnnotationAssertion(AnnotationAssertion),
    SubAnnotationPropertyOf(SubAnnotationPropertyOf),
    AnnotationPropertyDomain(AnnotationPropertyDomain),
    AnnotationPropertyRange(AnnotationPropertyRange),
    Rule(Rule),
}

/// An assertion together with the annotations made about it.
#[derive(Debug, PartialEq, Eq)]
pub struct AnnotatedComponent {
    pub component: Component,
    pub ann: Vec<Annotation>,
}

/// A document: its identifier and its assertions, in the order in which the
/// document hands them out. Where that order is an accident of how the
/// document is stored, a walk over it meets the assertions in an order that is
/// as accidental; sort them first if two walks are to agree.
#[derive(Debug, PartialEq, Eq)]
pub struct SetOntology {
    pub id: OntologyID,
    pub components: Vec<AnnotatedComponent>,
}

} // verus!
