use service_crategen::resolve::{get_member_ownership, get_name_ownership, get_shape_ownership};
use service_crategen::{GenerateError, Member, Memo, Ownership, Service, Shape, ShapeType};

fn plain(shape_type: ShapeType) -> Shape {
    Shape { shape_type, documentation: None, exception: false }
}

fn member(shape: &str) -> Member {
    Member { shape: shape.to_string(), deprecated: false, streaming: false, documentation: None }
}

fn list(of: &str) -> Shape {
    plain(ShapeType::List { member: of.to_string() })
}

fn mapping(key: &str, value: &str) -> Shape {
    plain(ShapeType::Mapping { key: key.to_string(), value: value.to_string() })
}

fn structure(members: Vec<(&str, &str)>) -> Shape {
    plain(ShapeType::Structure {
        members: members.into_iter().map(|(name, shape)| (name.to_string(), member(shape))).collect(),
        required: vec![],
    })
}

fn service(shapes: Vec<(&str, Shape)>) -> Service {
    Service {
        name: "Test".to_string(),
        protocol: "json".to_string(),
        shapes: shapes.into_iter().map(|(name, shape)| (name.to_string(), shape)).collect(),
        operations: vec![],
    }
}

fn leaves() -> Vec<(&'static str, Shape)> {
    vec![
        ("Blob", plain(ShapeType::Blob)),
        ("Boolean", plain(ShapeType::Boolean)),
        ("Double", plain(ShapeType::Double)),
        ("Float", plain(ShapeType::Float)),
        ("Integer", plain(ShapeType::Integer)),
        ("Long", plain(ShapeType::Long)),
        ("String", plain(ShapeType::String)),
        ("Timestamp", plain(ShapeType::Timestamp)),
    ]
}

fn ownership(service: &Service, name: &str) -> Ownership {
    let memo = Memo::new(service).unwrap();
    let by_shape = get_shape_ownership(&memo, service, service.get_shape(name).unwrap());
    assert_eq!(get_name_ownership(&memo, service, name), by_shape);
    by_shape
}

#[test]
fn a_string_borrows_and_every_other_leaf_owns() {
    let service = service(leaves());
    assert_eq!(ownership(&service, "String"), Ownership::Borrowed);
    for name in ["Blob", "Boolean", "Double", "Float", "Integer", "Long", "Timestamp"] {
        assert_eq!(ownership(&service, name), Ownership::Owned, "{}", name);
    }
}

#[test]
fn a_structure_of_integers_and_booleans_owns() {
    let mut shapes = leaves();
    shapes.push(("Flags", structure(vec![("Count", "Integer"), ("Enabled", "Boolean")])));
    assert_eq!(ownership(&service(shapes), "Flags"), Ownership::Owned);
}

#[test]
fn a_structure_with_one_optional_string_borrows() {
    let mut shapes = leaves();
    shapes.push(("Tag", structure(vec![("Count", "Integer"), ("Label", "String")])));
    assert_eq!(ownership(&service(shapes), "Tag"), Ownership::Borrowed);
}

#[test]
fn a_list_is_as_its_element() {
    let mut shapes = leaves();
    shapes.push(("Names", list("String")));
    shapes.push(("Counts", list("Integer")));
    shapes.push(("Table", list("Names")));
    let service = service(shapes);
    assert_eq!(ownership(&service, "Names"), Ownership::Borrowed);
    assert_eq!(ownership(&service, "Counts"), Ownership::Owned);
    assert_eq!(ownership(&service, "Table"), Ownership::Borrowed);
}

#[test]
fn a_map_with_a_borrowed_key_borrows() {
    let mut shapes = leaves();
    shapes.push(("Sizes", mapping("String", "Integer")));
    assert_eq!(ownership(&service(shapes), "Sizes"), Ownership::Borrowed);
}

#[test]
fn a_map_with_an_owned_key_is_as_its_value() {
    let mut shapes = leaves();
    shapes.push(("Labels", mapping("Integer", "String")));
    shapes.push(("Counts", mapping("Integer", "Long")));
    let service = service(shapes);
    assert_eq!(ownership(&service, "Labels"), Ownership::Borrowed);
    assert_eq!(ownership(&service, "Counts"), Ownership::Owned);
}

#[test]
fn borrowing_passes_through_nested_shapes() {
    let mut shapes = leaves();
    shapes.push(("Outer", structure(vec![("Inner", "Inner")])));
    shapes.push(("Inner", structure(vec![("Items", "Items")])));
    shapes.push(("Items", list("Entry")));
    shapes.push(("Entry", mapping("Integer", "Leaf")));
    shapes.push(("Leaf", structure(vec![("Text", "String")])));
    let service = service(shapes);
    for name in ["Outer", "Inner", "Items", "Entry", "Leaf"] {
        assert_eq!(ownership(&service, name), Ownership::Borrowed, "{}", name);
    }
}

#[test]
fn a_structure_that_refers_to_itself_is_resolved() {
    let mut shapes = leaves();
    shapes.push(("Node", structure(vec![("Next", "Node"), ("Label", "String")])));
    shapes.push(("Ring", structure(vec![("Next", "Ring"), ("Count", "Integer")])));
    let service = service(shapes);
    assert_eq!(ownership(&service, "Node"), Ownership::Borrowed);
    assert_eq!(ownership(&service, "Ring"), Ownership::Owned);
}

#[test]
fn structures_that_refer_to_each_other_are_resolved() {
    let mut shapes = leaves();
    shapes.push(("Tree", structure(vec![("Children", "Forest")])));
    shapes.push(("Forest", list("Tree")));
    shapes.push(("Book", structure(vec![("Chapters", "Chapters"), ("Title", "String")])));
    shapes.push(("Chapters", list("Chapter")));
    shapes.push(("Chapter", structure(vec![("Book", "Book")])));
    let service = service(shapes);
    assert_eq!(ownership(&service, "Tree"), Ownership::Owned);
    assert_eq!(ownership(&service, "Forest"), Ownership::Owned);
    assert_eq!(ownership(&service, "Book"), Ownership::Borrowed);
    assert_eq!(ownership(&service, "Chapters"), Ownership::Borrowed);
    assert_eq!(ownership(&service, "Chapter"), Ownership::Borrowed);
}

#[test]
fn a_borrowing_shape_late_in_a_long_chain_is_found() {
    let mut shapes: Vec<(String, Shape)> = vec![];
    for i in 0..40 {
        shapes.push((format!("Link{}", i), structure(vec![("Next", &format!("Link{}", i + 1))])));
    }
    shapes.push(("Link40".to_string(), plain(ShapeType::String)));
    let service = Service {
        name: "Chain".to_string(),
        protocol: "json".to_string(),
        shapes,
        operations: vec![],
    };
    assert_eq!(ownership(&service, "Link0"), Ownership::Borrowed);
    assert_eq!(ownership(&service, "Link39"), Ownership::Borrowed);
}

#[test]
fn a_member_is_as_the_shape_it_holds() {
    let mut shapes = leaves();
    shapes.push(("Tag", structure(vec![("Label", "String")])));
    let service = service(shapes);
    let memo = Memo::new(&service).unwrap();
    assert_eq!(get_member_ownership(&memo, &service, &member("String")), Ownership::Borrowed);
    assert_eq!(get_member_ownership(&memo, &service, &member("Tag")), Ownership::Borrowed);
    assert_eq!(get_member_ownership(&memo, &service, &member("Integer")), Ownership::Owned);
    assert_eq!(get_member_ownership(&memo, &service, &member("Missing")), Ownership::Owned);
    assert_eq!(get_name_ownership(&memo, &service, "Missing"), Ownership::Owned);
}

#[test]
fn a_reference_to_a_missing_shape_is_an_error() {
    let mut shapes = leaves();
    shapes.push(("Tag", structure(vec![("Count", "Integer"), ("Label", "Text")])));
    shapes.push(("Names", list("Nothing")));
    let result = Memo::new(&service(shapes));
    assert_eq!(result.err(), Some(GenerateError::UnresolvedShape("Text".to_string())));
}

#[test]
fn a_missing_key_or_value_is_an_error() {
    let mut shapes = leaves();
    shapes.push(("ByKey", mapping("Nothing", "String")));
    assert_eq!(
        Memo::new(&service(shapes)).err(),
        Some(GenerateError::UnresolvedShape("Nothing".to_string()))
    );
    let mut shapes = leaves();
    shapes.push(("ByValue", mapping("String", "Nobody")));
    assert_eq!(
        Memo::new(&service(shapes)).err(),
        Some(GenerateError::UnresolvedShape("Nobody".to_string()))
    );
}

#[test]
fn a_list_of_itself_is_an_error() {
    let mut shapes = leaves();
    shapes.push(("Names", list("String")));
    shapes.push(("Spiral", list("Spiral")));
    let result = Memo::new(&service(shapes));
    assert_eq!(result.err(), Some(GenerateError::UnboundedType("Spiral".to_string())));
}

#[test]
fn lists_and_maps_in_a_ring_are_an_error() {
    let mut shapes = leaves();
    shapes.push(("First", list("Second")));
    shapes.push(("Second", mapping("String", "First")));
    let result = Memo::new(&service(shapes));
    assert_eq!(result.err(), Some(GenerateError::UnboundedType("First".to_string())));
}

#[test]
fn a_ring_through_a_structure_is_no_error() {
    let mut shapes = leaves();
    shapes.push(("First", list("Second")));
    shapes.push(("Second", structure(vec![("Items", "First")])));
    assert!(Memo::new(&service(shapes)).is_ok());
}

#[test]
fn error_messages_name_their_subject() {
    assert_eq!(
        GenerateError::UnknownProtocol("soap".to_string()).message(),
        "Unknown protocol soap"
    );
    assert_eq!(GenerateError::UnresolvedShape("Text".to_string()).message(), "Unknown shape Text");
    assert_eq!(
        GenerateError::UnboundedType("Spiral".to_string()).message(),
        "Unbounded type Spiral"
    );
}
