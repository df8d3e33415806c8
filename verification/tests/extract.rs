use horned_oxi::extract::{ExtractError, HornedVOWLExtract};
use horned_oxi::graph::{Edge, Kind, Node, Thing};
use horned_oxi::model::{
    AnnotatedComponent, Annotation, AnnotationProperty, AnnotationValue, AnonymousIndividual,
    Class, ClassAssertion, ClassExpression, Component, DeclareClass, DeclareNamedIndividual,
    DeclareObjectProperty, DisjointClasses, EquivalentClasses, Individual, Literal,
    NamedIndividual, ObjectProperty, ObjectPropertyAssertion, ObjectPropertyExpression,
    OntologyID, SetOntology, SubClassOf, IRI,
};
use horned_oxi::visitor::Visit;
use horned_oxi::walk::Walk;

fn iri(text: &str) -> IRI {
    IRI(text.to_string())
}

fn class(text: &str) -> ClassExpression {
    ClassExpression::Class(Class(iri(text)))
}

fn named(text: &str) -> Individual {
    Individual::Named(NamedIndividual(iri(text)))
}

fn property(text: &str) -> ObjectPropertyExpression {
    ObjectPropertyExpression::ObjectProperty(ObjectProperty(iri(text)))
}

fn declare_class(text: &str) -> Component {
    Component::DeclareClass(DeclareClass(Class(iri(text))))
}

fn sub_class_of(sub: ClassExpression, sup: ClassExpression) -> Component {
    Component::SubClassOf(SubClassOf { sup, sub })
}

fn document(components: Vec<Component>) -> SetOntology {
    SetOntology {
        id: OntologyID { iri: None, viri: None },
        components: components
            .into_iter()
            .map(|component| AnnotatedComponent { component, ann: vec![] })
            .collect(),
    }
}

fn some_intersection() -> ClassExpression {
    ClassExpression::ObjectIntersectionOf(vec![class("C"), class("D")])
}

#[test]
fn default_is_empty() {
    let extract = HornedVOWLExtract::default();
    assert!(extract.nodes().is_empty());
    assert!(extract.edges().is_empty());
    assert!(extract.errors().is_empty());
    assert_eq!(extract.len(), 0);
    assert!(extract.names().is_empty());
    assert_eq!(extract.limit(), u32::MAX);
    assert_eq!(extract.index_of("A"), None);
}

#[test]
fn insert_gives_indices_in_first_seen_order() {
    let mut extract = HornedVOWLExtract::default();
    assert_eq!(extract.insert("A".to_string()), (false, 0));
    assert_eq!(extract.insert("B".to_string()), (false, 1));
    assert_eq!(extract.insert("C".to_string()), (false, 2));
    assert_eq!(extract.len(), 3);
    assert_eq!(extract.index_of("A"), Some(0));
    assert_eq!(extract.index_of("B"), Some(1));
    assert_eq!(extract.index_of("C"), Some(2));
    assert_eq!(extract.index_of("D"), None);
    assert_eq!(extract.names(), &vec!["A".to_string(), "B".to_string(), "C".to_string()]);
    assert!(extract.nodes().is_empty());
    assert!(extract.edges().is_empty());
}

#[test]
fn insert_reports_only_the_first_call_as_new() {
    let mut extract = HornedVOWLExtract::default();
    assert_eq!(extract.insert("A".to_string()), (false, 0));
    assert_eq!(extract.insert("B".to_string()), (false, 1));
    assert_eq!(extract.insert("A".to_string()), (true, 0));
    assert_eq!(extract.insert("B".to_string()), (true, 1));
    assert_eq!(extract.insert("A".to_string()), (true, 0));
    assert_eq!(extract.len(), 2);
}

#[test]
fn indices_are_dense() {
    let mut extract = HornedVOWLExtract::default();
    let names = ["e", "a", "d", "a", "b", "e", "c", "b"];
    for name in names.iter() {
        extract.insert(name.to_string());
    }
    assert_eq!(extract.len(), 5);
    let mut indices: Vec<u32> = ["a", "b", "c", "d", "e"]
        .iter()
        .map(|name| extract.index_of(name).unwrap())
        .collect();
    indices.sort();
    assert_eq!(indices, vec![0, 1, 2, 3, 4]);
    assert_eq!(extract.index_of("e"), Some(0));
    assert_eq!(extract.index_of("a"), Some(1));
    assert_eq!(extract.index_of("d"), Some(2));
    assert_eq!(extract.index_of("b"), Some(3));
    assert_eq!(extract.index_of("c"), Some(4));
    let names: Vec<&str> = extract.names().iter().map(|name| name.as_str()).collect();
    assert_eq!(names, vec!["e", "a", "d", "b", "c"]);
    for (at, name) in extract.names().iter().enumerate() {
        assert_eq!(extract.index_of(name), Some(at as u32));
    }
}

#[test]
fn the_empty_identifier_is_an_identifier() {
    let mut extract = HornedVOWLExtract::default();
    assert_eq!(extract.insert(String::new()), (false, 0));
    assert_eq!(extract.insert(String::new()), (true, 0));
    assert_eq!(extract.index_of(""), Some(0));
}

#[test]
fn try_insert_fails_when_no_index_is_left() {
    let mut extract = HornedVOWLExtract::with_limit(2);
    assert_eq!(extract.limit(), 2);
    assert_eq!(extract.try_insert("A".to_string()), Ok((false, 0)));
    assert_eq!(extract.try_insert("B".to_string()), Ok((false, 1)));
    assert_eq!(extract.try_insert("C".to_string()), Err(ExtractError::IndexSpaceExhausted));
    assert_eq!(extract.try_insert("A".to_string()), Ok((true, 0)));
    assert_eq!(extract.try_insert("B".to_string()), Ok((true, 1)));
    assert_eq!(extract.try_insert("C".to_string()), Err(ExtractError::IndexSpaceExhausted));
    assert_eq!(extract.len(), 2);
    assert_eq!(extract.names(), &vec!["A".to_string(), "B".to_string()]);
    assert_eq!(extract.index_of("C"), None);
    assert!(extract.errors().is_empty());
}

#[test]
fn a_limit_of_zero_turns_every_identifier_away() {
    let mut extract = HornedVOWLExtract::with_limit(0);
    assert_eq!(extract.try_insert("A".to_string()), Err(ExtractError::IndexSpaceExhausted));
    assert_eq!(extract.len(), 0);
}

#[test]
fn declare_class_records_a_class_once() {
    let mut extract = HornedVOWLExtract::default();
    let a = DeclareClass(Class(iri("A")));
    let ctx = extract.visit_declare_class(None, &a);
    assert_eq!(ctx, Some(Kind(Thing::Node(Node::Class(0)))));
    let again = extract.visit_declare_class(None, &a);
    assert_eq!(again, Some(Kind(Thing::Node(Node::Class(0)))));
    assert_eq!(extract.nodes(), &vec![Node::Class(0)]);
    assert!(extract.edges().is_empty());
    assert_eq!(extract.len(), 1);
}

#[test]
fn declare_named_individual_records_a_thing_once() {
    let mut extract = HornedVOWLExtract::default();
    extract.insert("A".to_string());
    let i = DeclareNamedIndividual(NamedIndividual(iri("i")));
    let ctx = extract.visit_declare_named_individual(None, &i);
    assert_eq!(ctx, Some(Kind(Thing::Node(Node::Thing(1)))));
    let again = extract.visit_declare_named_individual(None, &i);
    assert_eq!(again, Some(Kind(Thing::Node(Node::Thing(1)))));
    assert_eq!(extract.nodes(), &vec![Node::Thing(1)]);
}

#[test]
fn a_known_identifier_is_declared_without_a_vertex() {
    let mut extract = HornedVOWLExtract::default();
    extract.insert("A".to_string());
    let ctx = extract.visit_declare_class(None, &DeclareClass(Class(iri("A"))));
    assert_eq!(ctx, Some(Kind(Thing::Node(Node::Class(0)))));
    assert!(extract.nodes().is_empty());
}

#[test]
fn the_received_context_is_ignored() {
    let mut extract = HornedVOWLExtract::default();
    let parent = Some(Kind(Thing::Edge(Edge::NoDraw)));
    let ctx = extract.visit_declare_class(parent, &DeclareClass(Class(iri("A"))));
    assert_eq!(ctx, Some(Kind(Thing::Node(Node::Class(0)))));
    assert_eq!(extract.nodes(), &vec![Node::Class(0)]);
}

#[test]
fn scenario_two_classes_and_a_subclass_axiom() {
    let extract = HornedVOWLExtract::from(document(vec![
        declare_class("A"),
        declare_class("B"),
        sub_class_of(class("A"), class("B")),
    ]));
    assert_eq!(extract.len(), 2);
    assert_eq!(extract.index_of("A"), Some(0));
    assert_eq!(extract.index_of("B"), Some(1));
    assert_eq!(extract.nodes(), &vec![Node::Class(0), Node::Class(1)]);
    assert_eq!(extract.edges(), &vec![Edge::SubclassOf(0, 1)]);
    assert!(extract.errors().is_empty());
}

#[test]
fn scenario_equivalent_classes_with_a_composite_member() {
    let extract = HornedVOWLExtract::from(document(vec![Component::EquivalentClasses(
        EquivalentClasses(vec![class("A"), class("B"), some_intersection()]),
    )]));
    assert_eq!(extract.nodes(), &vec![Node::EquivalentClass(vec![0, 1])]);
    assert!(extract.edges().is_empty());
    assert_eq!(extract.len(), 2);
    assert_eq!(extract.index_of("A"), Some(0));
    assert_eq!(extract.index_of("B"), Some(1));
    assert_eq!(extract.index_of("C"), None);
    assert_eq!(extract.index_of("D"), None);
    assert!(extract.errors().is_empty());
}

#[test]
fn scenario_object_property_assertion_of_undeclared_individuals() {
    let extract = HornedVOWLExtract::from(document(vec![Component::ObjectPropertyAssertion(
        ObjectPropertyAssertion { ope: property("p"), from: named("i1"), to: named("i2") },
    )]));
    assert_eq!(extract.index_of("p"), Some(0));
    assert_eq!(extract.index_of("i1"), Some(1));
    assert_eq!(extract.index_of("i2"), Some(2));
    assert_eq!(extract.len(), 3);
    assert_eq!(extract.edges(), &vec![Edge::ObjectProperty(1, 0, 2)]);
    assert!(extract.nodes().is_empty());
    assert_eq!(extract.names(), &vec!["p".to_string(), "i1".to_string(), "i2".to_string()]);
}

#[test]
fn object_property_assertion_hook_returns_its_edge() {
    let mut extract = HornedVOWLExtract::default();
    let ctx = extract.visit_object_property_assertion(
        None,
        &ObjectPropertyAssertion { ope: property("p"), from: named("i1"), to: named("i2") },
    );
    assert_eq!(ctx, Some(Kind(Thing::Edge(Edge::ObjectProperty(1, 0, 2)))));
    assert!(extract.nodes().is_empty());
    assert_eq!(extract.edges(), &vec![Edge::ObjectProperty(1, 0, 2)]);
}

#[test]
fn anonymous_individuals_share_the_index_space() {
    let mut extract = HornedVOWLExtract::default();
    extract.insert("x".to_string());
    let ctx = extract.visit_object_property_assertion(
        None,
        &ObjectPropertyAssertion {
            ope: property("p"),
            from: Individual::Anonymous(AnonymousIndividual("x".to_string())),
            to: Individual::Anonymous(AnonymousIndividual("_:b".to_string())),
        },
    );
    assert_eq!(ctx, Some(Kind(Thing::Edge(Edge::ObjectProperty(0, 1, 2)))));
    assert_eq!(extract.index_of("_:b"), Some(2));
}

#[test]
fn an_assertion_of_an_individual_about_itself() {
    let mut extract = HornedVOWLExtract::default();
    let ctx = extract.visit_object_property_assertion(
        None,
        &ObjectPropertyAssertion { ope: property("p"), from: named("i"), to: named("i") },
    );
    assert_eq!(ctx, Some(Kind(Thing::Edge(Edge::ObjectProperty(1, 0, 1)))));
    assert_eq!(extract.len(), 2);
}

#[test]
fn an_inverse_property_assertion_is_passed_over() {
    let mut extract = HornedVOWLExtract::default();
    let ctx = extract.visit_object_property_assertion(
        None,
        &ObjectPropertyAssertion {
            ope: ObjectPropertyExpression::InverseObjectProperty(ObjectProperty(iri("p"))),
            from: named("i1"),
            to: named("i2"),
        },
    );
    assert_eq!(ctx, None);
    assert!(extract.edges().is_empty());
    assert!(extract.nodes().is_empty());
    assert_eq!(extract.len(), 0);
    assert_eq!(extract.errors(), &vec![ExtractError::InverseObjectPropertyAssertion]);
}

#[test]
fn sub_class_of_records_both_classes_and_the_edge() {
    let mut extract = HornedVOWLExtract::default();
    let ctx = extract.visit_sub_class_of(None, &SubClassOf { sub: class("A"), sup: class("B") });
    assert_eq!(ctx, Some(Kind(Thing::Edge(Edge::SubclassOf(0, 1)))));
    assert_eq!(extract.nodes(), &vec![Node::Class(0), Node::Class(1)]);
    assert_eq!(extract.edges(), &vec![Edge::SubclassOf(0, 1)]);
    assert_eq!(extract.index_of("A"), Some(0));
    assert_eq!(extract.index_of("B"), Some(1));
}

#[test]
fn sub_class_of_known_classes_records_only_the_edge() {
    let mut extract = HornedVOWLExtract::default();
    extract.visit_declare_class(None, &DeclareClass(Class(iri("B"))));
    extract.visit_declare_class(None, &DeclareClass(Class(iri("A"))));
    let ctx = extract.visit_sub_class_of(None, &SubClassOf { sub: class("A"), sup: class("B") });
    assert_eq!(ctx, Some(Kind(Thing::Edge(Edge::SubclassOf(1, 0)))));
    assert_eq!(extract.nodes(), &vec![Node::Class(0), Node::Class(1)]);
    assert_eq!(extract.edges(), &vec![Edge::SubclassOf(1, 0)]);
}

#[test]
fn sub_class_of_a_class_under_itself() {
    let mut extract = HornedVOWLExtract::default();
    let ctx = extract.visit_sub_class_of(None, &SubClassOf { sub: class("A"), sup: class("A") });
    assert_eq!(ctx, Some(Kind(Thing::Edge(Edge::SubclassOf(0, 0)))));
    assert_eq!(extract.nodes(), &vec![Node::Class(0)]);
    assert_eq!(extract.len(), 1);
}

#[test]
fn a_composite_subclass_axiom_is_passed_over() {
    let mut extract = HornedVOWLExtract::default();
    let composite_sup =
        extract.visit_sub_class_of(None, &SubClassOf { sub: class("A"), sup: some_intersection() });
    assert_eq!(composite_sup, None);
    let composite_sub =
        extract.visit_sub_class_of(None, &SubClassOf { sub: some_intersection(), sup: class("B") });
    assert_eq!(composite_sub, None);
    let both = extract.visit_sub_class_of(
        None,
        &SubClassOf { sub: some_intersection(), sup: some_intersection() },
    );
    assert_eq!(both, None);
    assert!(extract.nodes().is_empty());
    assert!(extract.edges().is_empty());
    assert_eq!(extract.len(), 0);
    assert_eq!(
        extract.errors(),
        &vec![
            ExtractError::CompositeSubClassOf,
            ExtractError::CompositeSubClassOf,
            ExtractError::CompositeSubClassOf
        ]
    );
}

#[test]
fn a_composite_subclass_axiom_does_not_stop_the_traversal() {
    let extract = HornedVOWLExtract::from(document(vec![
        sub_class_of(class("A"), some_intersection()),
        sub_class_of(class("A"), class("B")),
    ]));
    assert_eq!(extract.errors(), &vec![ExtractError::CompositeSubClassOf]);
    assert_eq!(extract.edges(), &vec![Edge::SubclassOf(0, 1)]);
    assert_eq!(extract.nodes(), &vec![Node::Class(0), Node::Class(1)]);
}

#[test]
fn equivalent_classes_group_only_the_new_members() {
    let mut extract = HornedVOWLExtract::default();
    extract.insert("B".to_string());
    let ctx = extract.visit_equivalent_classes(
        None,
        &EquivalentClasses(vec![class("A"), class("B"), class("C"), class("A")]),
    );
    assert_eq!(ctx, Some(Kind(Thing::Node(Node::EquivalentClass(vec![1, 2])))));
    assert_eq!(extract.nodes(), &vec![Node::EquivalentClass(vec![1, 2])]);
    assert_eq!(extract.index_of("A"), Some(1));
    assert_eq!(extract.index_of("C"), Some(2));
}

#[test]
fn equivalent_classes_without_a_new_member_record_nothing() {
    let mut extract = HornedVOWLExtract::default();
    extract.insert("A".to_string());
    extract.insert("B".to_string());
    let known = extract.visit_equivalent_classes(
        None,
        &EquivalentClasses(vec![class("A"), class("B")]),
    );
    assert_eq!(known, None);
    let composite = extract.visit_equivalent_classes(
        None,
        &EquivalentClasses(vec![some_intersection(), some_intersection()]),
    );
    assert_eq!(composite, None);
    let empty = extract.visit_equivalent_classes(None, &EquivalentClasses(vec![]));
    assert_eq!(empty, None);
    assert!(extract.nodes().is_empty());
    assert_eq!(extract.len(), 2);
    assert!(extract.errors().is_empty());
}

#[test]
fn exhaustion_is_noted_and_the_traversal_goes_on() {
    let mut walk = Walk::<u32, HornedVOWLExtract>::new(HornedVOWLExtract::with_limit(1));
    walk.set_ontology(
        None,
        &document(vec![
            declare_class("A"),
            declare_class("B"),
            sub_class_of(class("A"), class("B")),
            sub_class_of(class("A"), class("A")),
            Component::ObjectPropertyAssertion(ObjectPropertyAssertion {
                ope: property("p"),
                from: named("A"),
                to: named("A"),
            }),
        ]),
    );
    let extract = walk.into_visit();
    assert_eq!(extract.len(), 1);
    assert_eq!(extract.index_of("A"), Some(0));
    assert_eq!(extract.index_of("B"), None);
    assert_eq!(extract.nodes(), &vec![Node::Class(0)]);
    assert_eq!(extract.edges(), &vec![Edge::SubclassOf(0, 0)]);
    assert_eq!(
        extract.errors(),
        &vec![
            ExtractError::IndexSpaceExhausted,
            ExtractError::IndexSpaceExhausted,
            ExtractError::IndexSpaceExhausted
        ]
    );
}

#[test]
fn exhaustion_in_a_declaration_hands_down_no_context() {
    let mut extract = HornedVOWLExtract::with_limit(0);
    assert_eq!(extract.visit_declare_class(None, &DeclareClass(Class(iri("A")))), None);
    assert_eq!(
        extract.visit_declare_named_individual(
            None,
            &DeclareNamedIndividual(NamedIndividual(iri("i"))),
        ),
        None
    );
    assert!(extract.nodes().is_empty());
    assert_eq!(
        extract.errors(),
        &vec![ExtractError::IndexSpaceExhausted, ExtractError::IndexSpaceExhausted]
    );
}

#[test]
fn exhaustion_in_equivalent_classes_skips_the_member() {
    let mut extract = HornedVOWLExtract::with_limit(2);
    let ctx = extract.visit_equivalent_classes(
        None,
        &EquivalentClasses(vec![class("A"), class("B"), class("C"), class("A")]),
    );
    assert_eq!(ctx, Some(Kind(Thing::Node(Node::EquivalentClass(vec![0, 1])))));
    assert_eq!(extract.errors(), &vec![ExtractError::IndexSpaceExhausted]);
    assert_eq!(extract.len(), 2);
}

#[test]
fn exhaustion_in_an_assertion_leaves_no_edge() {
    let mut extract = HornedVOWLExtract::with_limit(2);
    let ctx = extract.visit_object_property_assertion(
        None,
        &ObjectPropertyAssertion { ope: property("p"), from: named("i1"), to: named("i2") },
    );
    assert_eq!(ctx, None);
    assert!(extract.edges().is_empty());
    assert_eq!(extract.index_of("p"), Some(0));
    assert_eq!(extract.index_of("i1"), Some(1));
    assert_eq!(extract.index_of("i2"), None);
    assert_eq!(extract.errors(), &vec![ExtractError::IndexSpaceExhausted]);
}

#[test]
fn exhaustion_in_a_subclass_axiom_leaves_no_edge() {
    let mut extract = HornedVOWLExtract::with_limit(1);
    let ctx = extract.visit_sub_class_of(None, &SubClassOf { sub: class("A"), sup: class("B") });
    assert_eq!(ctx, None);
    assert_eq!(extract.nodes(), &vec![Node::Class(0)]);
    assert!(extract.edges().is_empty());
    assert_eq!(extract.errors(), &vec![ExtractError::IndexSpaceExhausted]);
}

#[test]
fn other_axioms_leave_no_trace() {
    let extract = HornedVOWLExtract::from(document(vec![
        Component::DeclareObjectProperty(DeclareObjectProperty(ObjectProperty(iri("p")))),
        Component::DisjointClasses(DisjointClasses(vec![class("A"), some_intersection()])),
        Component::ClassAssertion(ClassAssertion { ce: class("A"), i: named("i") }),
    ]));
    assert!(extract.nodes().is_empty());
    assert!(extract.edges().is_empty());
    assert!(extract.errors().is_empty());
    assert_eq!(extract.len(), 0);
}

#[test]
fn annotations_and_the_document_identifier_leave_no_trace() {
    let ontology = SetOntology {
        id: OntologyID { iri: Some(iri("http://example.com/o")), viri: Some(iri("v1")) },
        components: vec![AnnotatedComponent {
            component: declare_class("A"),
            ann: vec![Annotation {
                ap: AnnotationProperty(iri("label")),
                av: AnnotationValue::Literal(Literal::Simple { literal: "a".to_string() }),
            }],
        }],
    };
    let extract = HornedVOWLExtract::from(ontology);
    assert_eq!(extract.nodes(), &vec![Node::Class(0)]);
    assert_eq!(extract.len(), 1);
    assert_eq!(extract.index_of("label"), None);
    assert_eq!(extract.index_of("http://example.com/o"), None);
}

#[test]
fn an_individual_met_in_an_assertion_and_declared_later_gets_no_vertex() {
    let extract = HornedVOWLExtract::from(document(vec![
        Component::ObjectPropertyAssertion(ObjectPropertyAssertion {
            ope: property("p"),
            from: named("i1"),
            to: named("i2"),
        }),
        Component::DeclareNamedIndividual(DeclareNamedIndividual(NamedIndividual(iri("i1")))),
        Component::DeclareNamedIndividual(DeclareNamedIndividual(NamedIndividual(iri("i3")))),
    ]));
    assert_eq!(extract.nodes(), &vec![Node::Thing(3)]);
    assert_eq!(extract.edges(), &vec![Edge::ObjectProperty(1, 0, 2)]);
}

#[test]
fn one_subclass_edge_for_each_plain_subclass_axiom() {
    let extract = HornedVOWLExtract::from(document(vec![
        sub_class_of(class("A"), class("B")),
        declare_class("C"),
        sub_class_of(class("B"), class("C")),
        sub_class_of(some_intersection(), class("C")),
        sub_class_of(class("A"), class("B")),
        Component::ObjectPropertyAssertion(ObjectPropertyAssertion {
            ope: property("p"),
            from: named("i"),
            to: named("j"),
        }),
        sub_class_of(class("C"), class("A")),
    ]));
    let subclass_edges: Vec<&Edge<u32>> =
        extract.edges().iter().filter(|edge| matches!(edge, Edge::SubclassOf(_, _))).collect();
    assert_eq!(
        subclass_edges,
        vec![
            &Edge::SubclassOf(0, 1),
            &Edge::SubclassOf(1, 2),
            &Edge::SubclassOf(0, 1),
            &Edge::SubclassOf(2, 0)
        ]
    );
    let len = extract.len() as u32;
    for edge in extract.edges().iter() {
        match edge {
            Edge::SubclassOf(from, to) => assert!(*from < len && *to < len),
            Edge::ObjectProperty(subject, predicate, object) => {
                assert!(*subject < len && *predicate < len && *object < len)
            }
            _ => panic!("an edge of a kind that is never recorded"),
        }
    }
    assert_eq!(extract.errors(), &vec![ExtractError::CompositeSubClassOf]);
}

#[test]
fn two_runs_over_one_document_agree() {
    let build = || {
        document(vec![
            declare_class("A"),
            Component::EquivalentClasses(
                EquivalentClasses(vec![class("B"), class("A"), class("C")]),
            ),
            sub_class_of(class("C"), class("D")),
            Component::ObjectPropertyAssertion(ObjectPropertyAssertion {
                ope: property("p"),
                from: named("i"),
                to: Individual::Anonymous(AnonymousIndividual("_:x".to_string())),
            }),
        ])
    };
    let first = HornedVOWLExtract::from(build());
    let second = HornedVOWLExtract::from(build());
    assert_eq!(first.nodes(), second.nodes());
    assert_eq!(first.edges(), second.edges());
    assert_eq!(first.names(), second.names());
    assert_eq!(first.len(), second.len());
    for name in ["A", "B", "C", "D", "p", "i", "_:x", "none"].iter() {
        assert_eq!(first.index_of(name), second.index_of(name));
    }
    assert_eq!(
        first.nodes(),
        &vec![Node::Class(0), Node::EquivalentClass(vec![1, 2]), Node::Class(3)]
    );
    assert_eq!(first.edges(), &vec![Edge::SubclassOf(2, 3), Edge::ObjectProperty(5, 4, 6)]);
}

#[test]
fn the_order_of_the_axioms_decides_the_indices() {
    let forward = HornedVOWLExtract::from(document(vec![declare_class("A"), declare_class("B")]));
    let backward = HornedVOWLExtract::from(document(vec![declare_class("B"), declare_class("A")]));
    assert_eq!(forward.index_of("A"), Some(0));
    assert_eq!(forward.index_of("B"), Some(1));
    assert_eq!(backward.index_of("A"), Some(1));
    assert_eq!(backward.index_of("B"), Some(0));
}

#[test]
fn an_empty_document_leaves_an_empty_graph() {
    let extract = HornedVOWLExtract::from(document(vec![]));
    assert!(extract.nodes().is_empty());
    assert!(extract.edges().is_empty());
    assert_eq!(extract.len(), 0);
}

#[test]
fn an_extractor_walked_twice_keeps_its_cache() {
    let mut walk = Walk::<u32, HornedVOWLExtract>::new(HornedVOWLExtract::default());
    walk.set_ontology(None, &document(vec![declare_class("A")]));
    walk.set_ontology(None, &document(vec![declare_class("B"), declare_class("A")]));
    let extract = walk.into_visit();
    assert_eq!(extract.nodes(), &vec![Node::Class(0), Node::Class(1)]);
    assert_eq!(extract.index_of("A"), Some(0));
    assert_eq!(extract.index_of("B"), Some(1));
}
