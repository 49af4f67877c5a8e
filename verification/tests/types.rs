use service_crategen::{get_rust_type, Member, Memo, Ownership, Service, Shape, ShapeType};

fn plain(shape_type: ShapeType) -> Shape {
    Shape { shape_type, documentation: None, exception: false }
}

fn member(shape: &str) -> Member {
    Member { shape: shape.to_string(), deprecated: false, streaming: false, documentation: None }
}

fn list(of: &str) -> Shape {
    plain(ShapeType::List { member: of.to_string() })
}

fn mapping(key: &str, value: &str) -> Shape {
    plain(ShapeType::Mapping { key: key.to_string(), value: value.to_string() })
}

fn structure(members: Vec<(&str, &str)>) -> Shape {
    plain(ShapeType::Structure {
        members: members.into_iter().map(|(name, shape)| (name.to_string(), member(shape))).collect(),
        required: vec![],
    })
}

fn service() -> Service {
    let shapes = vec![
        ("Blob", plain(ShapeType::Blob)),
        ("Boolean", plain(ShapeType::Boolean)),
        ("Double", plain(ShapeType::Double)),
        ("Float", plain(ShapeType::Float)),
        ("Integer", plain(ShapeType::Integer)),
        ("Long", plain(ShapeType::Long)),
        ("String", plain(ShapeType::String)),
        ("Timestamp", plain(ShapeType::Timestamp)),
        ("Names", list("String")),
        ("Counts", list("Integer")),
        ("Table", list("Counts")),
        ("Dates", mapping("String", "Timestamp")),
        ("Index", mapping("Integer", "Names")),
        ("Sizes", mapping("Integer", "Long")),
        ("Flags", structure(vec![("Count", "Integer"), ("Enabled", "Boolean")])),
        ("tag_set", structure(vec![("Label", "String")])),
        ("Error", structure(vec![("Code", "Integer")])),
        ("Nodes", list("Node")),
        ("Node", structure(vec![("Children", "Nodes")])),
        ("Tags", list("tag_set")),
    ];
    Service {
        name: "Test".to_string(),
        protocol: "json".to_string(),
        shapes: shapes.into_iter().map(|(name, shape)| (name.to_string(), shape)).collect(),
        operations: vec![],
    }
}

fn resolve(name: &str) -> (String, Ownership) {
    let service = service();
    let memo = Memo::new(&service).unwrap();
    get_rust_type(&memo, &service, name, service.get_shape(name).unwrap(), false, "f64")
}

#[test]
fn leaves_have_fixed_types() {
    assert_eq!(resolve("Blob"), ("Vec<u8>".to_string(), Ownership::Owned));
    assert_eq!(resolve("Boolean"), ("bool".to_string(), Ownership::Owned));
    assert_eq!(resolve("Double"), ("f64".to_string(), Ownership::Owned));
    assert_eq!(resolve("Float"), ("f32".to_string(), Ownership::Owned));
    assert_eq!(resolve("Integer"), ("i64".to_string(), Ownership::Owned));
    assert_eq!(resolve("Long"), ("i64".to_string(), Ownership::Owned));
}

#[test]
fn a_string_is_a_borrowed_slice() {
    assert_eq!(resolve("String"), ("&'a str".to_string(), Ownership::Borrowed));
}

#[test]
fn a_timestamp_has_the_type_of_the_protocol() {
    let service = service();
    let memo = Memo::new(&service).unwrap();
    let shape = service.get_shape("Timestamp").unwrap();
    assert_eq!(
        get_rust_type(&memo, &service, "Timestamp", shape, false, "f64"),
        ("f64".to_string(), Ownership::Owned)
    );
    assert_eq!(
        get_rust_type(&memo, &service, "Timestamp", shape, false, "String"),
        ("String".to_string(), Ownership::Owned)
    );
}

#[test]
fn a_list_wraps_the_type_of_its_element() {
    assert_eq!(resolve("Names"), ("Vec<&'a str>".to_string(), Ownership::Borrowed));
    assert_eq!(resolve("Counts"), ("Vec<i64>".to_string(), Ownership::Owned));
    assert_eq!(resolve("Table"), ("Vec<Vec<i64>>".to_string(), Ownership::Owned));
    assert_eq!(resolve("Tags"), ("Vec<Tagset<'a>>".to_string(), Ownership::Borrowed));
}

#[test]
fn a_map_associates_the_types_of_key_and_value() {
    assert_eq!(
        resolve("Dates"),
        ("::std::collections::HashMap<&'a str, f64>".to_string(), Ownership::Borrowed)
    );
    assert_eq!(
        resolve("Index"),
        ("::std::collections::HashMap<i64, Vec<&'a str>>".to_string(), Ownership::Borrowed)
    );
    assert_eq!(
        resolve("Sizes"),
        ("::std::collections::HashMap<i64, i64>".to_string(), Ownership::Owned)
    );
}

#[test]
fn a_structure_has_its_sanitized_name() {
    assert_eq!(resolve("Flags"), ("Flags".to_string(), Ownership::Owned));
    assert_eq!(resolve("tag_set"), ("Tagset<'a>".to_string(), Ownership::Borrowed));
    assert_eq!(resolve("Error"), ("S3Error".to_string(), Ownership::Owned));
}

#[test]
fn a_list_of_structures_that_hold_the_list_has_a_finite_type() {
    assert_eq!(resolve("Nodes"), ("Vec<Node>".to_string(), Ownership::Owned));
    assert_eq!(resolve("Node"), ("Node".to_string(), Ownership::Owned));
}

#[test]
fn a_structure_goes_by_the_name_it_is_resolved_under() {
    let service = service();
    let memo = Memo::new(&service).unwrap();
    let shape = service.get_shape("tag_set").unwrap();
    assert_eq!(
        get_rust_type(&memo, &service, "other_name", shape, false, "f64"),
        ("Othername<'a>".to_string(), Ownership::Borrowed)
    );
}

#[test]
fn a_stream_has_the_wrapper_type_and_owns() {
    let service = service();
    let memo = Memo::new(&service).unwrap();
    for name in ["Blob", "String", "tag_set", "Names"] {
        let shape = service.get_shape(name).unwrap();
        let (_, ownership) = get_rust_type(&memo, &service, name, shape, true, "f64");
        assert_eq!(ownership, Ownership::Owned, "{}", name);
    }
    let blob = service.get_shape("Blob").unwrap();
    assert_eq!(get_rust_type(&memo, &service, "Blob", blob, true, "f64").0, "StreamingBlob");
    let tags = service.get_shape("tag_set").unwrap();
    assert_eq!(get_rust_type(&memo, &service, "tag_set", tags, true, "f64").0, "StreamingTagset");
}
