use horned_oxi::graph::{Edge, Kind, Node, Thing, ThingView};
use horned_oxi::model::{
    AnnotatedComponent, Annotation, AnnotationAssertion, AnnotationProperty,
    AnnotationPropertyDomain, AnnotationPropertyRange, AnnotationSubject, AnnotationValue,
    AnonymousIndividual, AsymmetricObjectProperty, Atom, Class, ClassAssertion, ClassExpression,
    Component, DArgument, DataProperty, DataPropertyAssertion, DataPropertyDomain,
    DataPropertyRange, DataRange, Datatype, DatatypeDefinition, DeclareAnnotationProperty,
    DeclareClass, DeclareDataProperty, DeclareDatatype, DeclareNamedIndividual,
    DeclareObjectProperty, DifferentIndividuals, DisjointClasses, DisjointDataProperties,
    DisjointObjectProperties, DisjointUnion, DocIRI, EquivalentClasses, EquivalentDataProperties,
    EquivalentObjectProperties, Facet, FacetRestriction, FunctionalDataProperty,
    FunctionalObjectProperty, HasKey, IArgument, Import, Individual,
    InverseFunctionalObjectProperty, InverseObjectProperties, IrreflexiveObjectProperty, Literal,
    NamedIndividual, NegativeDataPropertyAssertion, NegativeObjectPropertyAssertion,
    ObjectProperty, ObjectPropertyAssertion, ObjectPropertyDomain, ObjectPropertyExpression,
    ObjectPropertyRange, OntologyAnnotation, OntologyID, PropertyExpression,
    ReflexiveObjectProperty, Rule, SameIndividual, SetOntology, SubAnnotationPropertyOf,
    SubClassOf, SubDataPropertyOf, SubObjectPropertyExpression, SubObjectPropertyOf,
    SymmetricObjectProperty, TransitiveObjectProperty, Variable, IRI,
};
use horned_oxi::observe::{ContextFree, Identifiers};
use horned_oxi::visitor::{Element, Visit};
use horned_oxi::walk::Walk;

/// A visitor that numbers the hooks in the order in which they run, and hands
/// the number of each down to its children. Of the kinds named in `mute` it
/// takes note and hands nothing down.
struct Trace {
    steps: Vec<(&'static str, Option<usize>)>,
    mute: Vec<&'static str>,
}

fn label(node: &Element<'_>) -> &'static str {
    match node {
        Element::Str(_) => "Str",
        Element::U32(_) => "U32",
        Element::Iri(_) => "Iri",
        Element::AnonymousIndividual(_) => "AnonymousIndividual",
        Element::Individual(_) => "Individual",
        Element::AnnotationSubject(_) => "AnnotationSubject",
        Element::DocIRI(_) => "DocIRI",
        Element::Class(_) => "Class",
        Element::Datatype(_) => "Datatype",
        Element::ObjectProperty(_) => "ObjectProperty",
        Element::DataProperty(_) => "DataProperty",
        Element::AnnotationProperty(_) => "AnnotationProperty",
        Element::NamedIndividual(_) => "NamedIndividual",
        Element::AnnotatedComponent(_) => "AnnotatedComponent",
        Element::Component(_) => "Component",
        Element::Import(_) => "Import",
        Element::OntologyAnnotation(_) => "OntologyAnnotation",
        Element::DeclareClass(_) => "DeclareClass",
        Element::DeclareObjectProperty(_) => "DeclareObjectProperty",
        Element::DeclareAnnotationProperty(_) => "DeclareAnnotationProperty",
        Element::DeclareDataProperty(_) => "DeclareDataProperty",
        Element::DeclareNamedIndividual(_) => "DeclareNamedIndividual",
        Element::DeclareDatatype(_) => "DeclareDatatype",
        Element::SubClassOf(_) => "SubClassOf",
        Element::EquivalentClasses(_) => "EquivalentClasses",
        Element::DisjointClasses(_) => "DisjointClasses",
        Element::DisjointUnion(_) => "DisjointUnion",
        Element::SubObjectPropertyOf(_) => "SubObjectPropertyOf",
        Element::EquivalentObjectProperties(_) => "EquivalentObjectProperties",
        Element::DisjointObjectProperties(_) => "DisjointObjectProperties",
        Element::InverseObjectProperties(_) => "InverseObjectProperties",
        Element::ObjectPropertyDomain(_) => "ObjectPropertyDomain",
        Element::ObjectPropertyRange(_) => "ObjectPropertyRange",
        Element::FunctionalObjectProperty(_) => "FunctionalObjectProperty",
        Element::InverseFunctionalObjectProperty(_) => "InverseFunctionalObjectProperty",
        Element::ReflexiveObjectProperty(_) => "ReflexiveObjectProperty",
        Element::IrreflexiveObjectProperty(_) => "IrreflexiveObjectProperty",
        Element::SymmetricObjectProperty(_) => "SymmetricObjectProperty",
        Element::AsymmetricObjectProperty(_) => "AsymmetricObjectProperty",
        Element::TransitiveObjectProperty(_) => "TransitiveObjectProperty",
        Element::SubDataPropertyOf(_) => "SubDataPropertyOf",
        Element::EquivalentDataProperties(_) => "EquivalentDataProperties",
        Element::DisjointDataProperties(_) => "DisjointDataProperties",
        Element::DataPropertyDomain(_) => "DataPropertyDomain",
        Element::DataPropertyRange(_) => "DataPropertyRange",
        Element::FunctionalDataProperty(_) => "FunctionalDataProperty",
        Element::DatatypeDefinition(_) => "DatatypeDefinition",
        Element::HasKey(_) => "HasKey",
        Element::SameIndividual(_) => "SameIndividual",
        Element::DifferentIndividuals(_) => "DifferentIndividuals",
        Element::ClassAssertion(_) => "ClassAssertion",
        Element::ObjectPropertyAssertion(_) => "ObjectPropertyAssertion",
        Element::NegativeObjectPropertyAssertion(_) => "NegativeObjectPropertyAssertion",
        Element::DataPropertyAssertion(_) => "DataPropertyAssertion",
        Element::NegativeDataPropertyAssertion(_) => "NegativeDataPropertyAssertion",
        Element::AnnotationAssertion(_) => "AnnotationAssertion",
        Element::SubAnnotationPropertyOf(_) => "SubAnnotationPropertyOf",
        Element::AnnotationPropertyDomain(_) => "AnnotationPropertyDomain",
        Element::AnnotationPropertyRange(_) => "AnnotationPropertyRange",
        Element::Rule(_) => "Rule",
        Element::Atom(_) => "Atom",
        Element::Variable(_) => "Variable",
        Element::IArgument(_) => "IArgument",
        Element::DArgument(_) => "DArgument",
        Element::Literal(_) => "Literal",
        Element::Annotation(_) => "Annotation",
        Element::AnnotationValue(_) => "AnnotationValue",
        Element::ObjectPropertyExpression(_) => "ObjectPropertyExpression",
        Element::SubObjectPropertyExpression(_) => "SubObjectPropertyExpression",
        Element::PropertyExpression(_) => "PropertyExpression",
        Element::FacetRestriction(_) => "FacetRestriction",
        Element::Facet(_) => "Facet",
        Element::DataRange(_) => "DataRange",
        Element::ClassExpression(_) => "ClassExpression",
        Element::OntologyID(_) => "OntologyID",
        Element::SetOntology(_) => "SetOntology",
        Element::OptionIri(_) => "OptionIri",
        Element::AnnotationSet(_) => "AnnotationSet",
        Element::ClassExpressionVec(_) => "ClassExpressionVec",
        Element::ObjectPropertyExpressionVec(_) => "ObjectPropertyExpressionVec",
        Element::DataPropertyVec(_) => "DataPropertyVec",
        Element::DataRangeVec(_) => "DataRangeVec",
        Element::IndividualVec(_) => "IndividualVec",
        Element::LiteralVec(_) => "LiteralVec",
        Element::FacetRestrictionVec(_) => "FacetRestrictionVec",
        Element::AtomVec(_) => "AtomVec",
        Element::DArgumentVec(_) => "DArgumentVec",
    }
}

impl vstd::view::View for Trace {
    type V = ();

    fn view(&self) {
        unreachable!()
    }
}

impl Visit<usize> for Trace {
    fn after(_: (), _: Option<ThingView<usize>>, _: Element<'_>) {
        unreachable!()
    }

    fn yields(_: (), _: Option<ThingView<usize>>, _: Element<'_>) -> Option<ThingView<usize>> {
        unreachable!()
    }

    fn visit_other(
        &mut self,
        parent: Option<Kind<usize>>,
        node: Element<'_>,
    ) -> Option<Kind<usize>> {
        let from = match parent {
            Some(Kind(Thing::Node(Node::Class(number)))) => Some(number),
            Some(_) => panic!("a context that no hook returned"),
            None => None,
        };
        let number = self.steps.len();
        self.steps.push((label(&node), from));
        if self.mute.contains(&label(&node)) {
            None
        } else {
            Some(Kind(Thing::Node(Node::Class(number))))
        }
    }
}

fn trace() -> Walk<usize, Trace> {
    Walk::new(Trace { steps: vec![], mute: vec![] })
}

fn identifiers() -> Walk<u32, ContextFree<Identifiers>> {
    Walk::new(ContextFree(Identifiers::new()))
}

fn found(walk: Walk<u32, ContextFree<Identifiers>>) -> Vec<String> {
    walk.into_visit().0.found().iter().map(|text| text.to_string()).collect()
}

fn texts(expected: &[&str]) -> Vec<String> {
    expected.iter().map(|text| text.to_string()).collect()
}

fn iri(text: &str) -> IRI {
    IRI(text.to_string())
}

fn class(text: &str) -> ClassExpression {
    ClassExpression::Class(Class(iri(text)))
}

fn boxed(text: &str) -> Box<ClassExpression> {
    Box::new(class(text))
}

fn named(text: &str) -> Individual {
    Individual::Named(NamedIndividual(iri(text)))
}

fn anonymous(text: &str) -> Individual {
    Individual::Anonymous(AnonymousIndividual(text.to_string()))
}

fn ope(text: &str) -> ObjectPropertyExpression {
    ObjectPropertyExpression::ObjectProperty(ObjectProperty(iri(text)))
}

fn inverse(text: &str) -> ObjectPropertyExpression {
    ObjectPropertyExpression::InverseObjectProperty(ObjectProperty(iri(text)))
}

fn dp(text: &str) -> DataProperty {
    DataProperty(iri(text))
}

fn ap(text: &str) -> AnnotationProperty {
    AnnotationProperty(iri(text))
}

fn datatype(text: &str) -> DataRange {
    DataRange::Datatype(Datatype(iri(text)))
}

fn simple(text: &str) -> Literal {
    Literal::Simple { literal: text.to_string() }
}

fn typed(text: &str, datatype_iri: &str) -> Literal {
    Literal::Datatype { literal: text.to_string(), datatype_iri: iri(datatype_iri) }
}

fn annotation(property: &str, value: &str) -> Annotation {
    Annotation { ap: ap(property), av: AnnotationValue::IRI(iri(value)) }
}

fn variable(text: &str) -> Variable {
    Variable(iri(text))
}

fn visited(component: Component) -> Vec<String> {
    let mut walk = identifiers();
    walk.component(None, &component);
    found(walk)
}

#[test]
fn a_child_receives_what_its_parent_returned() {
    let mut walk = trace();
    walk.sub_class_of(
        None,
        &SubClassOf { sub: class("A"), sup: ClassExpression::ObjectComplementOf(boxed("B")) },
    );
    assert_eq!(
        walk.into_visit().steps,
        vec![
            ("SubClassOf", None),
            ("ClassExpression", Some(0)),
            ("ClassExpression", Some(1)),
            ("Class", Some(2)),
            ("Iri", Some(3)),
            ("ClassExpression", Some(0)),
            ("Class", Some(5)),
            ("Iri", Some(6)),
        ]
    );
}

#[test]
fn a_child_of_a_silent_hook_receives_nothing() {
    let mut walk = Walk::new(Trace { steps: vec![], mute: vec!["ClassExpression"] });
    walk.sub_class_of(
        None,
        &SubClassOf { sub: class("A"), sup: ClassExpression::ObjectComplementOf(boxed("B")) },
    );
    assert_eq!(
        walk.into_visit().steps,
        vec![
            ("SubClassOf", None),
            ("ClassExpression", Some(0)),
            ("ClassExpression", None),
            ("Class", None),
            ("Iri", Some(3)),
            ("ClassExpression", Some(0)),
            ("Class", None),
            ("Iri", Some(6)),
        ]
    );
}

#[test]
fn the_first_hook_receives_the_context_of_the_call() {
    let mut walk = trace();
    let given = Some(Kind(Thing::Node(Node::Class(41))));
    walk.class(given, &Class(iri("A")));
    assert_eq!(walk.into_visit().steps, vec![("Class", Some(41)), ("Iri", Some(0))]);
}

#[test]
fn the_members_of_a_list_share_the_context_of_the_list() {
    let mut walk = trace();
    walk.class_expression_vec(None, &vec![class("A"), class("B")]);
    assert_eq!(
        walk.into_visit().steps,
        vec![
            ("ClassExpressionVec", None),
            ("ClassExpression", Some(0)),
            ("Class", Some(1)),
            ("Iri", Some(2)),
            ("ClassExpression", Some(0)),
            ("Class", Some(4)),
            ("Iri", Some(5)),
        ]
    );
}

#[test]
fn a_cardinality_tells_of_its_number_first() {
    let mut walk = trace();
    walk.class_expression(
        None,
        &ClassExpression::ObjectMinCardinality { n: 2, ope: ope("p"), bce: boxed("A") },
    );
    assert_eq!(
        walk.into_visit().steps,
        vec![
            ("ClassExpression", None),
            ("U32", Some(0)),
            ("ObjectPropertyExpression", Some(0)),
            ("ObjectProperty", Some(2)),
            ("Iri", Some(3)),
            ("ClassExpression", Some(0)),
            ("Class", Some(5)),
            ("Iri", Some(6)),
        ]
    );
}

#[test]
fn a_literal_tells_of_its_strings() {
    let mut walk = trace();
    walk.literal(None, &simple("a"));
    walk.literal(None, &Literal::Language { literal: "a".to_string(), lang: "en".to_string() });
    walk.literal(None, &typed("1", "int"));
    assert_eq!(
        walk.into_visit().steps,
        vec![
            ("Literal", None),
            ("Str", Some(0)),
            ("Literal", None),
            ("Str", Some(2)),
            ("Str", Some(2)),
            ("Literal", None),
            ("Iri", Some(5)),
        ]
    );
}

#[test]
fn a_document_tells_of_its_identifier_and_then_of_its_axioms() {
    let ontology = SetOntology {
        id: OntologyID { iri: Some(iri("o")), viri: None },
        components: vec![
            AnnotatedComponent {
                component: Component::DeclareClass(DeclareClass(Class(iri("A")))),
                ann: vec![annotation("label", "x")],
            },
            AnnotatedComponent {
                component: Component::Import(Import(iri("other"))),
                ann: vec![],
            },
        ],
    };
    let mut walk = trace();
    walk.set_ontology(None, &ontology);
    assert_eq!(
        walk.into_visit().steps,
        vec![
            ("SetOntology", None),
            ("OntologyID", Some(0)),
            ("OptionIri", Some(1)),
            ("Iri", Some(2)),
            ("OptionIri", Some(1)),
            ("AnnotatedComponent", Some(0)),
            ("Component", Some(5)),
            ("DeclareClass", Some(6)),
            ("Class", Some(7)),
            ("Iri", Some(8)),
            ("AnnotationSet", Some(5)),
            ("Annotation", Some(10)),
            ("AnnotationProperty", Some(11)),
            ("Iri", Some(12)),
            ("AnnotationValue", Some(11)),
            ("Iri", Some(14)),
            ("AnnotatedComponent", Some(0)),
            ("Component", Some(16)),
            ("Import", Some(17)),
            ("Iri", Some(18)),
            ("AnnotationSet", Some(16)),
        ]
    );
    let mut names = identifiers();
    names.set_ontology(None, &ontology);
    assert_eq!(found(names), texts(&["o", "A", "label", "x", "other"]));
}

#[test]
fn an_empty_document_tells_of_itself_and_its_identifier() {
    let ontology = SetOntology { id: OntologyID { iri: None, viri: None }, components: vec![] };
    let mut walk = trace();
    walk.set_ontology(None, &ontology);
    assert_eq!(
        walk.into_visit().steps,
        vec![
            ("SetOntology", None),
            ("OntologyID", Some(0)),
            ("OptionIri", Some(1)),
            ("OptionIri", Some(1)),
        ]
    );
}

#[test]
fn every_component_is_told_by_the_hook_of_its_kind() {
    let cases: Vec<(Component, &'static str)> = vec![
        (Component::OntologyID(OntologyID { iri: None, viri: None }), "OntologyID"),
        (Component::DocIRI(DocIRI(iri("d"))), "DocIRI"),
        (Component::Import(Import(iri("i"))), "Import"),
        (
            Component::OntologyAnnotation(OntologyAnnotation(annotation("p", "v"))),
            "OntologyAnnotation",
        ),
        (Component::DeclareClass(DeclareClass(Class(iri("c")))), "DeclareClass"),
        (
            Component::DeclareObjectProperty(DeclareObjectProperty(ObjectProperty(iri("p")))),
            "DeclareObjectProperty",
        ),
        (
            Component::DeclareAnnotationProperty(DeclareAnnotationProperty(ap("p"))),
            "DeclareAnnotationProperty",
        ),
        (Component::DeclareDataProperty(DeclareDataProperty(dp("p"))), "DeclareDataProperty"),
        (
            Component::DeclareNamedIndividual(DeclareNamedIndividual(NamedIndividual(iri("i")))),
            "DeclareNamedIndividual",
        ),
        (Component::DeclareDatatype(DeclareDatatype(Datatype(iri("d")))), "DeclareDatatype"),
        (Component::SubClassOf(SubClassOf { sub: class("a"), sup: class("b") }), "SubClassOf"),
        (Component::EquivalentClasses(EquivalentClasses(vec![])), "EquivalentClasses"),
        (Component::DisjointClasses(DisjointClasses(vec![])), "DisjointClasses"),
        (Component::DisjointUnion(DisjointUnion(Class(iri("c")), vec![])), "DisjointUnion"),
        (
            Component::SubObjectPropertyOf(SubObjectPropertyOf {
                sup: ope("p"),
                sub: SubObjectPropertyExpression::ObjectPropertyExpression(ope("q")),
            }),
            "SubObjectPropertyOf",
        ),
        (
            Component::EquivalentObjectProperties(EquivalentObjectProperties(vec![])),
            "EquivalentObjectProperties",
        ),
        (
            Component::DisjointObjectProperties(DisjointObjectProperties(vec![])),
            "DisjointObjectProperties",
        ),
        (
            Component::InverseObjectProperties(InverseObjectProperties(
                ObjectProperty(iri("p")),
                ObjectProperty(iri("q")),
            )),
            "InverseObjectProperties",
        ),
        (
            Component::ObjectPropertyDomain(ObjectPropertyDomain { ope: ope("p"), ce: class("c") }),
            "ObjectPropertyDomain",
        ),
        (
            Component::ObjectPropertyRange(ObjectPropertyRange { ope: ope("p"), ce: class("c") }),
            "ObjectPropertyRange",
        ),
        (
            Component::FunctionalObjectProperty(FunctionalObjectProperty(ope("p"))),
            "FunctionalObjectProperty",
        ),
        (
            Component::InverseFunctionalObjectProperty(InverseFunctionalObjectProperty(ope("p"))),
            "InverseFunctionalObjectProperty",
        ),
        (
            Component::ReflexiveObjectProperty(ReflexiveObjectProperty(ope("p"))),
            "ReflexiveObjectProperty",
        ),
        (
            Component::IrreflexiveObjectProperty(IrreflexiveObjectProperty(ope("p"))),
            "IrreflexiveObjectProperty",
        ),
        (
            Component::SymmetricObjectProperty(SymmetricObjectProperty(ope("p"))),
            "SymmetricObjectProperty",
        ),
        (
            Component::AsymmetricObjectProperty(AsymmetricObjectProperty(ope("p"))),
            "AsymmetricObjectProperty",
        ),
        (
            Component::TransitiveObjectProperty(TransitiveObjectProperty(ope("p"))),
            "TransitiveObjectProperty",
        ),
        (
            Component::SubDataPropertyOf(SubDataPropertyOf { sup: dp("p"), sub: dp("q") }),
            "SubDataPropertyOf",
        ),
        (
            Component::EquivalentDataProperties(EquivalentDataProperties(vec![])),
            "EquivalentDataProperties",
        ),
        (
            Component::DisjointDataProperties(DisjointDataProperties(vec![])),
            "DisjointDataProperties",
        ),
        (
            Component::DataPropertyDomain(DataPropertyDomain { dp: dp("p"), ce: class("c") }),
            "DataPropertyDomain",
        ),
        (
            Component::DataPropertyRange(DataPropertyRange { dp: dp("p"), dr: datatype("d") }),
            "DataPropertyRange",
        ),
        (
            Component::FunctionalDataProperty(FunctionalDataProperty(dp("p"))),
            "FunctionalDataProperty",
        ),
        (
            Component::DatatypeDefinition(DatatypeDefinition {
                kind: Datatype(iri("d")),
                range: datatype("e"),
            }),
            "DatatypeDefinition",
        ),
        (Component::HasKey(HasKey { ce: class("c"), vpe: vec![] }), "HasKey"),
        (Component::SameIndividual(SameIndividual(vec![])), "SameIndividual"),
        (Component::DifferentIndividuals(DifferentIndividuals(vec![])), "DifferentIndividuals"),
        (
            Component::ClassAssertion(ClassAssertion { ce: class("c"), i: named("i") }),
            "ClassAssertion",
        ),
        (
            Component::ObjectPropertyAssertion(ObjectPropertyAssertion {
                ope: ope("p"),
                from: named("i"),
                to: named("j"),
            }),
            "ObjectPropertyAssertion",
        ),
        (
            Component::NegativeObjectPropertyAssertion(NegativeObjectPropertyAssertion {
                ope: ope("p"),
                from: named("i"),
                to: named("j"),
            }),
            "NegativeObjectPropertyAssertion",
        ),
        (
            Component::DataPropertyAssertion(DataPropertyAssertion {
                dp: dp("p"),
                from: named("i"),
                to: simple("l"),
            }),
            "DataPropertyAssertion",
        ),
        (
            Component::NegativeDataPropertyAssertion(NegativeDataPropertyAssertion {
                dp: dp("p"),
                from: named("i"),
                to: simple("l"),
            }),
            "NegativeDataPropertyAssertion",
        ),
        (
            Component::AnnotationAssertion(AnnotationAssertion {
                subject: AnnotationSubject::IRI(iri("s")),
                ann: annotation("p", "v"),
            }),
            "AnnotationAssertion",
        ),
        (
            Component::SubAnnotationPropertyOf(
                SubAnnotationPropertyOf { sup: ap("p"), sub: ap("q") },
            ),
            "SubAnnotationPropertyOf",
        ),
        (
            Component::AnnotationPropertyDomain(
                AnnotationPropertyDomain { ap: ap("p"), iri: iri("d") },
            ),
            "AnnotationPropertyDomain",
        ),
        (
            Component::AnnotationPropertyRange(
                AnnotationPropertyRange { ap: ap("p"), iri: iri("r") },
            ),
            "AnnotationPropertyRange",
        ),
        (Component::Rule(Rule { head: vec![], body: vec![] }), "Rule"),
    ];
    assert_eq!(cases.len(), 47);
    for (component, kind) in cases.iter() {
        let mut walk = trace();
        walk.component(None, component);
        let steps = walk.into_visit().steps;
        assert_eq!(steps[0], ("Component", None));
        assert_eq!(steps[1], (*kind, Some(0)));
        for step in steps[2..].iter() {
            assert!(step.1.is_some() && step.1 != Some(0));
        }
    }
}

#[test]
fn class_axioms_visit_their_parts_in_order() {
    assert_eq!(
        visited(Component::SubClassOf(SubClassOf { sub: class("sub"), sup: class("sup") })),
        texts(&["sup", "sub"])
    );
    assert_eq!(
        visited(Component::EquivalentClasses(EquivalentClasses(vec![class("a"), class("b")]))),
        texts(&["a", "b"])
    );
    assert_eq!(
        visited(Component::DisjointClasses(DisjointClasses(vec![class("a"), class("b")]))),
        texts(&["a", "b"])
    );
    assert_eq!(
        visited(
            Component::DisjointUnion(DisjointUnion(Class(iri("u")), vec![class("a"), class("b")])),
        ),
        texts(&["u", "a", "b"])
    );
    assert_eq!(
        visited(Component::HasKey(HasKey {
            ce: class("c"),
            vpe: vec![
                PropertyExpression::ObjectPropertyExpression(ope("o")),
                PropertyExpression::DataProperty(dp("d")),
                PropertyExpression::AnnotationProperty(ap("a")),
            ],
        })),
        texts(&["c", "o", "d", "a"])
    );
}

#[test]
fn declarations_visit_what_they_declare() {
    assert_eq!(visited(Component::DeclareClass(DeclareClass(Class(iri("c"))))), texts(&["c"]));
    assert_eq!(
        visited(Component::DeclareObjectProperty(DeclareObjectProperty(ObjectProperty(iri("o"))))),
        texts(&["o"])
    );
    assert_eq!(
        visited(Component::DeclareAnnotationProperty(DeclareAnnotationProperty(ap("a")))),
        texts(&["a"])
    );
    assert_eq!(
        visited(Component::DeclareDataProperty(DeclareDataProperty(dp("d")))),
        texts(&["d"]),
    );
    assert_eq!(
        visited(
            Component::DeclareNamedIndividual(DeclareNamedIndividual(NamedIndividual(iri("i")))),
        ),
        texts(&["i"])
    );
    assert_eq!(
        visited(Component::DeclareDatatype(DeclareDatatype(Datatype(iri("t"))))),
        texts(&["t"])
    );
    assert_eq!(visited(Component::DocIRI(DocIRI(iri("doc")))), texts(&["doc"]));
    assert_eq!(visited(Component::Import(Import(iri("imp")))), texts(&["imp"]));
    assert_eq!(
        visited(Component::OntologyID(OntologyID { iri: Some(iri("o")), viri: Some(iri("v")) })),
        texts(&["o", "v"])
    );
    assert_eq!(
        visited(Component::OntologyID(OntologyID { iri: None, viri: Some(iri("v")) })),
        texts(&["v"])
    );
    assert_eq!(
        visited(Component::OntologyAnnotation(OntologyAnnotation(annotation("p", "v")))),
        texts(&["p", "v"])
    );
}

#[test]
fn object_property_axioms_visit_their_parts_in_order() {
    assert_eq!(
        visited(Component::SubObjectPropertyOf(SubObjectPropertyOf {
            sup: ope("sup"),
            sub: SubObjectPropertyExpression::ObjectPropertyChain(vec![ope("a"), inverse("b")]),
        })),
        texts(&["sup", "a", "b"])
    );
    assert_eq!(
        visited(Component::SubObjectPropertyOf(SubObjectPropertyOf {
            sup: ope("sup"),
            sub: SubObjectPropertyExpression::ObjectPropertyExpression(ope("sub")),
        })),
        texts(&["sup", "sub"])
    );
    assert_eq!(
        visited(Component::EquivalentObjectProperties(EquivalentObjectProperties(vec![
            ope("a"),
            ope("b"),
        ]))),
        texts(&["a", "b"])
    );
    assert_eq!(
        visited(Component::DisjointObjectProperties(DisjointObjectProperties(vec![
            ope("a"),
            ope("b"),
        ]))),
        texts(&["a", "b"])
    );
    assert_eq!(
        visited(Component::InverseObjectProperties(InverseObjectProperties(
            ObjectProperty(iri("a")),
            ObjectProperty(iri("b")),
        ))),
        texts(&["a", "b"])
    );
    assert_eq!(
        visited(
            Component::ObjectPropertyDomain(ObjectPropertyDomain { ope: ope("p"), ce: class("c") }),
        ),
        texts(&["p", "c"])
    );
    assert_eq!(
        visited(
            Component::ObjectPropertyRange(ObjectPropertyRange { ope: ope("p"), ce: class("c") }),
        ),
        texts(&["p", "c"])
    );
    assert_eq!(
        visited(Component::FunctionalObjectProperty(FunctionalObjectProperty(ope("f")))),
        texts(&["f"])
    );
    assert_eq!(
        visited(
            Component::InverseFunctionalObjectProperty(InverseFunctionalObjectProperty(ope("f"))),
        ),
        texts(&["f"])
    );
    assert_eq!(
        visited(Component::ReflexiveObjectProperty(ReflexiveObjectProperty(ope("f")))),
        texts(&["f"])
    );
    assert_eq!(
        visited(Component::IrreflexiveObjectProperty(IrreflexiveObjectProperty(ope("f")))),
        texts(&["f"])
    );
    assert_eq!(
        visited(Component::SymmetricObjectProperty(SymmetricObjectProperty(ope("f")))),
        texts(&["f"])
    );
    assert_eq!(
        visited(Component::AsymmetricObjectProperty(AsymmetricObjectProperty(ope("f")))),
        texts(&["f"])
    );
    assert_eq!(
        visited(Component::TransitiveObjectProperty(TransitiveObjectProperty(inverse("f")))),
        texts(&["f"])
    );
}

#[test]
fn data_property_axioms_visit_their_parts_in_order() {
    assert_eq!(
        visited(Component::SubDataPropertyOf(SubDataPropertyOf { sup: dp("sup"), sub: dp("sub") })),
        texts(&["sup", "sub"])
    );
    assert_eq!(
        visited(
            Component::EquivalentDataProperties(EquivalentDataProperties(vec![dp("a"), dp("b")])),
        ),
        texts(&["a", "b"])
    );
    assert_eq!(
        visited(Component::DisjointDataProperties(DisjointDataProperties(vec![dp("a"), dp("b")]))),
        texts(&["a", "b"])
    );
    assert_eq!(
        visited(Component::DataPropertyDomain(DataPropertyDomain { dp: dp("p"), ce: class("c") })),
        texts(&["p", "c"])
    );
    assert_eq!(
        visited(Component::DataPropertyRange(DataPropertyRange { dp: dp("p"), dr: datatype("d") })),
        texts(&["p", "d"])
    );
    assert_eq!(
        visited(Component::FunctionalDataProperty(FunctionalDataProperty(dp("p")))),
        texts(&["p"])
    );
    assert_eq!(
        visited(Component::DatatypeDefinition(DatatypeDefinition {
            kind: Datatype(iri("k")),
            range: datatype("r"),
        })),
        texts(&["k", "r"])
    );
}

#[test]
fn assertions_visit_their_parts_in_order() {
    assert_eq!(
        visited(Component::SameIndividual(SameIndividual(vec![named("a"), anonymous("_:b")]))),
        texts(&["a", "_:b"])
    );
    assert_eq!(
        visited(Component::DifferentIndividuals(DifferentIndividuals(vec![
            anonymous("_:a"),
            named("b"),
        ]))),
        texts(&["_:a", "b"])
    );
    assert_eq!(
        visited(Component::ClassAssertion(ClassAssertion { ce: class("c"), i: named("i") })),
        texts(&["c", "i"])
    );
    assert_eq!(
        visited(Component::ObjectPropertyAssertion(ObjectPropertyAssertion {
            ope: ope("p"),
            from: named("from"),
            to: named("to"),
        })),
        texts(&["p", "from", "to"])
    );
    assert_eq!(
        visited(Component::NegativeObjectPropertyAssertion(NegativeObjectPropertyAssertion {
            ope: ope("p"),
            from: named("from"),
            to: anonymous("to"),
        })),
        texts(&["p", "from", "to"])
    );
    assert_eq!(
        visited(Component::DataPropertyAssertion(DataPropertyAssertion {
            dp: dp("p"),
            from: named("from"),
            to: typed("1", "int"),
        })),
        texts(&["p", "from", "int"])
    );
    assert_eq!(
        visited(Component::NegativeDataPropertyAssertion(NegativeDataPropertyAssertion {
            dp: dp("p"),
            from: named("from"),
            to: simple("text"),
        })),
        texts(&["p", "from"])
    );
}

#[test]
fn annotation_axioms_visit_their_parts_in_order() {
    assert_eq!(
        visited(Component::AnnotationAssertion(AnnotationAssertion {
            subject: AnnotationSubject::IRI(iri("s")),
            ann: annotation("p", "v"),
        })),
        texts(&["s", "p", "v"])
    );
    assert_eq!(
        visited(Component::AnnotationAssertion(AnnotationAssertion {
            subject: AnnotationSubject::AnonymousIndividual(AnonymousIndividual("_:s".to_string())),
            ann: Annotation {
                ap: ap("p"),
                av: AnnotationValue::AnonymousIndividual(AnonymousIndividual("_:v".to_string())),
            },
        })),
        texts(&["_:s", "p", "_:v"])
    );
    assert_eq!(
        visited(Component::AnnotationAssertion(AnnotationAssertion {
            subject: AnnotationSubject::IRI(iri("s")),
            ann: Annotation { ap: ap("p"), av: AnnotationValue::Literal(typed("1", "int")) },
        })),
        texts(&["s", "p", "int"])
    );
    assert_eq!(
        visited(Component::SubAnnotationPropertyOf(SubAnnotationPropertyOf {
            sup: ap("sup"),
            sub: ap("sub"),
        })),
        texts(&["sup", "sub"])
    );
    assert_eq!(
        visited(Component::AnnotationPropertyDomain(AnnotationPropertyDomain {
            ap: ap("p"),
            iri: iri("d"),
        })),
        texts(&["p", "d"])
    );
    assert_eq!(
        visited(Component::AnnotationPropertyRange(AnnotationPropertyRange {
            ap: ap("p"),
            iri: iri("r"),
        })),
        texts(&["p", "r"])
    );
}

#[test]
fn class_expressions_visit_their_parts_in_order() {
    let cases: Vec<(ClassExpression, Vec<&str>)> = vec![
        (class("a"), vec!["a"]),
        (ClassExpression::ObjectIntersectionOf(vec![class("a"), class("b")]), vec!["a", "b"]),
        (ClassExpression::ObjectUnionOf(vec![class("a"), class("b")]), vec!["a", "b"]),
        (ClassExpression::ObjectComplementOf(boxed("a")), vec!["a"]),
        (ClassExpression::ObjectOneOf(vec![named("i"), anonymous("_:j")]), vec!["i", "_:j"]),
        (ClassExpression::ObjectSomeValuesFrom { ope: ope("p"), bce: boxed("a") }, vec!["p", "a"]),
        (ClassExpression::ObjectAllValuesFrom { ope: ope("p"), bce: boxed("a") }, vec!["p", "a"]),
        (ClassExpression::ObjectHasValue { ope: ope("p"), i: named("i") }, vec!["p", "i"]),
        (ClassExpression::ObjectHasSelf(inverse("p")), vec!["p"]),
        (
            ClassExpression::ObjectMinCardinality { n: 1, ope: ope("p"), bce: boxed("a") },
            vec!["p", "a"],
        ),
        (
            ClassExpression::ObjectMaxCardinality { n: 1, ope: ope("p"), bce: boxed("a") },
            vec!["p", "a"],
        ),
        (
            ClassExpression::ObjectExactCardinality { n: 1, ope: ope("p"), bce: boxed("a") },
            vec!["p", "a"],
        ),
        (ClassExpression::DataSomeValuesFrom { dp: dp("p"), dr: datatype("d") }, vec!["p", "d"]),
        (ClassExpression::DataAllValuesFrom { dp: dp("p"), dr: datatype("d") }, vec!["p", "d"]),
        (ClassExpression::DataHasValue { dp: dp("p"), l: typed("1", "int") }, vec!["p", "int"]),
        (
            ClassExpression::DataMinCardinality { n: 1, dp: dp("p"), dr: datatype("d") },
            vec!["p", "d"],
        ),
        (
            ClassExpression::DataMaxCardinality { n: 1, dp: dp("p"), dr: datatype("d") },
            vec!["p", "d"],
        ),
        (
            ClassExpression::DataExactCardinality { n: 1, dp: dp("p"), dr: datatype("d") },
            vec!["p", "d"],
        ),
    ];
    for (expression, expected) in cases.iter() {
        let mut walk = identifiers();
        walk.class_expression(None, expression);
        assert_eq!(found(walk), texts(expected));
    }
}

#[test]
fn nested_class_expressions_are_walked_depth_first() {
    let expression = ClassExpression::ObjectIntersectionOf(vec![
        ClassExpression::ObjectUnionOf(vec![
            class("a"),
            ClassExpression::ObjectComplementOf(Box::new(ClassExpression::ObjectSomeValuesFrom {
                ope: ope("p"),
                bce: Box::new(ClassExpression::ObjectIntersectionOf(vec![class("b"), class("c")])),
            })),
        ]),
        class("d"),
        ClassExpression::ObjectIntersectionOf(vec![]),
        ClassExpression::DataAllValuesFrom {
            dp: dp("q"),
            dr: DataRange::DataUnionOf(vec![datatype("e"), datatype("f")]),
        },
    ]);
    let mut walk = identifiers();
    walk.class_expression(None, &expression);
    assert_eq!(found(walk), texts(&["a", "p", "b", "c", "d", "q", "e", "f"]));
}

#[test]
fn data_ranges_visit_their_parts_in_order() {
    let cases: Vec<(DataRange, Vec<&str>)> = vec![
        (datatype("d"), vec!["d"]),
        (DataRange::DataIntersectionOf(vec![datatype("a"), datatype("b")]), vec!["a", "b"]),
        (DataRange::DataUnionOf(vec![datatype("a"), datatype("b")]), vec!["a", "b"]),
        (DataRange::DataComplementOf(Box::new(datatype("a"))), vec!["a"]),
        (DataRange::DataOneOf(vec![typed("1", "int"), simple("x"), typed("2", "long")]), vec![
            "int", "long",
        ]),
        (
            DataRange::DatatypeRestriction(
                Datatype(iri("d")),
                vec![
                    FacetRestriction { f: Facet::MinInclusive, l: typed("1", "int") },
                    FacetRestriction { f: Facet::MaxExclusive, l: typed("9", "long") },
                ],
            ),
            vec!["d", "int", "long"],
        ),
        (
            DataRange::DataComplementOf(Box::new(DataRange::DataIntersectionOf(vec![
                DataRange::DataComplementOf(Box::new(datatype("a"))),
                datatype("b"),
            ]))),
            vec!["a", "b"],
        ),
    ];
    for (range, expected) in cases.iter() {
        let mut walk = identifiers();
        walk.data_range(None, range);
        assert_eq!(found(walk), texts(expected));
    }
}

#[test]
fn a_facet_restriction_tells_of_its_facet_and_then_of_its_literal() {
    let mut walk = trace();
    walk.facet_restriction_vec(
        None,
        &vec![FacetRestriction { f: Facet::Length, l: simple("3") }],
    );
    assert_eq!(
        walk.into_visit().steps,
        vec![
            ("FacetRestrictionVec", None),
            ("FacetRestriction", Some(0)),
            ("Facet", Some(1)),
            ("Literal", Some(1)),
            ("Str", Some(3)),
        ]
    );
}

#[test]
fn rules_visit_head_and_body_in_order() {
    let rule = Rule {
        head: vec![
            Atom::ClassAtom { pred: class("c"), arg: IArgument::Variable(variable("x")) },
            Atom::SameIndividualAtom(
                IArgument::Individual(named("i")),
                IArgument::Variable(variable("y")),
            ),
        ],
        body: vec![
            Atom::BuiltInAtom {
                pred: iri("builtin"),
                args: vec![DArgument::Variable(variable("z")), DArgument::Literal(
                    typed("1", "int"),
                )],
            },
            Atom::DataPropertyAtom {
                pred: dp("dp"),
                args: (DArgument::Variable(variable("a")), DArgument::Variable(variable("b"))),
            },
            Atom::DataRangeAtom { pred: datatype("dr"), arg: DArgument::Literal(
                typed("2", "long"),
            ) },
            Atom::DifferentIndividualsAtom(
                IArgument::Individual(anonymous("_:i")),
                IArgument::Individual(named("j")),
            ),
            Atom::ObjectPropertyAtom {
                pred: ope("op"),
                args: (IArgument::Variable(variable("s")), IArgument::Individual(named("o"))),
            },
        ],
    };
    assert_eq!(
        visited(Component::Rule(rule)),
        texts(&[
            "c", "i", "builtin", "int", "dp", "dr", "long", "_:i", "j", "op", "o",
        ])
    );
}

#[test]
fn a_variable_is_told_and_not_entered() {
    let mut walk = trace();
    walk.iarg(None, &IArgument::Variable(variable("x")));
    walk.darg(None, &DArgument::Variable(variable("y")));
    walk.darg(None, &DArgument::Literal(simple("l")));
    walk.iarg(None, &IArgument::Individual(anonymous("_:a")));
    assert_eq!(
        walk.into_visit().steps,
        vec![
            ("IArgument", None),
            ("Variable", Some(0)),
            ("DArgument", None),
            ("Variable", Some(2)),
            ("DArgument", None),
            ("Literal", Some(4)),
            ("Str", Some(5)),
            ("IArgument", None),
            ("Individual", Some(7)),
            ("AnonymousIndividual", Some(8)),
        ]
    );
}

#[test]
fn an_atom_hands_its_context_to_each_of_its_parts() {
    let mut walk = trace();
    walk.atom_vec(
        None,
        &vec![Atom::DataPropertyAtom {
            pred: dp("p"),
            args: (DArgument::Variable(variable("a")), DArgument::Variable(variable("b"))),
        }],
    );
    assert_eq!(
        walk.into_visit().steps,
        vec![
            ("AtomVec", None),
            ("Atom", Some(0)),
            ("DataProperty", Some(1)),
            ("Iri", Some(2)),
            ("DArgument", Some(1)),
            ("Variable", Some(4)),
            ("DArgument", Some(1)),
            ("Variable", Some(6)),
        ]
    );
}

#[test]
fn every_list_tells_of_itself_and_then_of_its_members() {
    let mut walk = trace();
    walk.object_property_expression_vec(None, &vec![ope("p")]);
    walk.data_property_vec(None, &vec![dp("d")]);
    walk.individual_vec(None, &vec![named("i")]);
    walk.literal_vec(None, &vec![typed("1", "int")]);
    walk.data_range_vec(None, &vec![datatype("t")]);
    walk.darg_vec(None, &vec![DArgument::Variable(variable("v"))]);
    walk.annotation_set(None, &vec![annotation("a", "b")]);
    let steps = walk.into_visit().steps;
    let lists: Vec<(&'static str, Option<usize>)> =
        steps.iter().filter(|step| step.1.is_none()).cloned().collect();
    assert_eq!(
        lists,
        vec![
            ("ObjectPropertyExpressionVec", None),
            ("DataPropertyVec", None),
            ("IndividualVec", None),
            ("LiteralVec", None),
            ("DataRangeVec", None),
            ("DArgumentVec", None),
            ("AnnotationSet", None),
        ]
    );
    assert_eq!(steps.len(), 27);
}

#[test]
fn an_empty_list_tells_of_itself_alone() {
    let mut walk = trace();
    walk.class_expression_vec(None, &vec![]);
    walk.atom_vec(None, &vec![]);
    walk.facet_restriction_vec(None, &vec![]);
    assert_eq!(
        walk.into_visit().steps,
        vec![("ClassExpressionVec", None), ("AtomVec", None), ("FacetRestrictionVec", None)]
    );
}

#[test]
fn entities_tell_of_themselves_and_then_of_their_identifier() {
    let mut walk = trace();
    walk.datatype(None, &Datatype(iri("a")));
    walk.object_property(None, &ObjectProperty(iri("b")));
    walk.data_property(None, &dp("c"));
    walk.annotation_property(None, &ap("d"));
    walk.named_individual(None, &NamedIndividual(iri("e")));
    walk.anonymous_individual(None, &AnonymousIndividual("_:f".to_string()));
    walk.iri(None, &iri("g"));
    walk.variable(None, &variable("h"));
    walk.facet(None, &Facet::Pattern);
    walk.option_iri(None, &None);
    assert_eq!(
        walk.into_visit().steps,
        vec![
            ("Datatype", None),
            ("Iri", Some(0)),
            ("ObjectProperty", None),
            ("Iri", Some(2)),
            ("DataProperty", None),
            ("Iri", Some(4)),
            ("AnnotationProperty", None),
            ("Iri", Some(6)),
            ("NamedIndividual", None),
            ("Iri", Some(8)),
            ("AnonymousIndividual", None),
            ("Iri", None),
            ("Variable", None),
            ("Facet", None),
            ("OptionIri", None),
        ]
    );
}

#[test]
fn the_visitor_can_be_reached_during_a_traversal() {
    let mut walk = trace();
    walk.iri(None, &iri("a"));
    walk.as_mut_visit().mute.push("Class");
    walk.class(None, &Class(iri("b")));
    assert_eq!(walk.as_mut_visit().steps.len(), 3);
    assert_eq!(walk.into_visit().steps, vec![("Iri", None), ("Class", None), ("Iri", None)]);
}

#[test]
fn identifiers_are_gathered_wherever_they_stand() {
    let mut walk = identifiers();
    walk.annotated_component(
        None,
        &AnnotatedComponent {
            component: Component::ClassAssertion(ClassAssertion {
                ce: class("A"),
                i: anonymous("_:x"),
            }),
            ann: vec![annotation("A", "A")],
        },
    );
    assert_eq!(found(walk), texts(&["A", "_:x", "A", "A"]));
}

#[test]
fn a_context_free_visitor_hands_nothing_down() {
    let mut visitor = ContextFree(Identifiers::new());
    let given: Option<Kind<u32>> = Some(Kind(Thing::Edge(Edge::NoDraw)));
    assert_eq!(visitor.visit_iri(given, &iri("a")), None);
    let nothing: Option<Kind<u32>> = None;
    assert_eq!(visitor.visit_class(nothing, &Class(iri("b"))), None);
    assert_eq!(visitor.0.found(), &vec!["a".to_string()]);
}
