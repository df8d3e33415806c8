use horned_oxi::graph::{Edge, ForVisit, Kind, Node, Thing};
use horned_oxi::model::{
    AnonymousIndividual, Class, ClassExpression, ObjectProperty, ObjectPropertyExpression, IRI,
};

#[test]
fn node_clone_keeps_the_vertex() {
    let all: Vec<Node<u32>> = vec![
        Node::Class(1),
        Node::ExternalClass(2),
        Node::Thing(3),
        Node::EquivalentClass(vec![4, 5, 6]),
        Node::Union(7),
        Node::DisjointUnion(8),
        Node::Intersection(9),
        Node::Complement(10),
        Node::DeprecatedClass(11),
        Node::AnonymousClass(12),
        Node::Literal(13),
        Node::RdfsClass(14),
        Node::RdfsResource(15),
    ];
    for node in all.iter() {
        assert_eq!(&node.clone(), node);
    }
}

#[test]
fn node_clone_of_an_empty_group() {
    let node: Node<u32> = Node::EquivalentClass(vec![]);
    assert_eq!(node.clone(), Node::EquivalentClass(vec![]));
}

#[test]
fn node_clone_is_a_copy_of_its_own() {
    let node: Node<u32> = Node::EquivalentClass(vec![1, 2]);
    let mut copy = node.clone();
    if let Node::EquivalentClass(group) = &mut copy {
        group.push(3);
    }
    assert_eq!(node, Node::EquivalentClass(vec![1, 2]));
    assert_eq!(copy, Node::EquivalentClass(vec![1, 2, 3]));
}

#[test]
fn thing_and_kind_clone_keep_what_they_hold() {
    let vertex: Thing<u32> = Thing::Node(Node::EquivalentClass(vec![7, 8]));
    assert_eq!(vertex.clone(), Thing::Node(Node::EquivalentClass(vec![7, 8])));
    let edge: Thing<u32> = Thing::Edge(Edge::ObjectProperty(1, 2, 3));
    assert_eq!(edge.clone(), Thing::Edge(Edge::ObjectProperty(1, 2, 3)));
    let kind = Kind(Thing::Edge(Edge::<u32>::NoDraw));
    assert_eq!(kind.clone(), Kind(Thing::Edge(Edge::NoDraw)));
}

#[test]
fn thing_from_node_and_from_edge() {
    assert_eq!(Thing::from(Node::Class(4u32)), Thing::Node(Node::Class(4)));
    assert_eq!(
        Thing::from(Node::EquivalentClass(vec![1u32, 2])),
        Thing::Node(Node::EquivalentClass(vec![1, 2]))
    );
    assert_eq!(Thing::from(Edge::SubclassOf(0u32, 1)), Thing::Edge(Edge::SubclassOf(0, 1)));
    let into: Thing<u32> = Edge::ValuesFrom(5, 6).into();
    assert_eq!(into, Thing::Edge(Edge::ValuesFrom(5, 6)));
}

#[test]
fn kind_inner_hands_out_a_copy() {
    let kind = Kind(Thing::Node(Node::EquivalentClass(vec![3u32, 1])));
    assert_eq!(kind.inner(), Thing::Node(Node::EquivalentClass(vec![3, 1])));
    assert_eq!(kind, Kind(Thing::Node(Node::EquivalentClass(vec![3, 1]))));
    let edge = Kind(Thing::Edge(Edge::DisjointWith(2u32, 9)));
    assert_eq!(edge.inner(), Thing::Edge(Edge::DisjointWith(2, 9)));
}

#[test]
fn edge_is_copied_by_value() {
    let edge = Edge::InverseProperty(1u32, 2);
    let copy = edge;
    assert_eq!(edge, copy);
    assert_ne!(Edge::InverseProperty(1u32, 2), Edge::InverseProperty(2, 1));
}

#[test]
fn iri_underlying_is_its_text() {
    let iri = IRI("http://example.com/a".to_string());
    assert_eq!(iri.underlying(), "http://example.com/a".to_string());
    assert_eq!(iri, IRI("http://example.com/a".to_string()));
    assert_eq!(IRI(String::new()).underlying(), String::new());
}

#[test]
fn anonymous_individual_underlying_is_its_identifier() {
    let anonymous = AnonymousIndividual("_:b1".to_string());
    assert_eq!(anonymous.underlying(), "_:b1".to_string());
}

#[test]
fn as_property_tells_a_property_from_an_inverse() {
    let p = ObjectProperty(IRI("p".to_string()));
    let plain = ObjectPropertyExpression::ObjectProperty(ObjectProperty(IRI("p".to_string())));
    let inverse =
        ObjectPropertyExpression::InverseObjectProperty(ObjectProperty(IRI("p".to_string())));
    assert_eq!(plain.as_property(), Some(&p));
    assert_eq!(inverse.as_property(), None);
}

#[test]
fn class_expressions_compare_by_content() {
    let a = ClassExpression::ObjectComplementOf(Box::new(ClassExpression::Class(Class(IRI(
        "A".to_string(),
    )))));
    let b = ClassExpression::ObjectComplementOf(Box::new(ClassExpression::Class(Class(IRI(
        "A".to_string(),
    )))));
    let c = ClassExpression::Class(Class(IRI("A".to_string())));
    assert_eq!(a, b);
    assert_ne!(a, c);
}
