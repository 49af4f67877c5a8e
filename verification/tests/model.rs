use service_crategen::model::{has_streaming_member, is_input_shape, is_streaming_shape};
use service_crategen::{Member, Operation, Service, Shape, ShapeType};

fn plain(shape_type: ShapeType) -> Shape {
    Shape { shape_type, documentation: None, exception: false }
}

fn member(shape: &str) -> Member {
    Member { shape: shape.to_string(), deprecated: false, streaming: false, documentation: None }
}

fn streaming_member(shape: &str) -> Member {
    Member { shape: shape.to_string(), deprecated: false, streaming: true, documentation: None }
}

fn structure(members: Vec<(&str, Member)>, required: Vec<&str>) -> Shape {
    plain(ShapeType::Structure {
        members: members.into_iter().map(|(name, m)| (name.to_string(), m)).collect(),
        required: required.into_iter().map(|name| name.to_string()).collect(),
    })
}

fn storage() -> Service {
    Service {
        name: "Amazon Simple Storage Service (S3)".to_string(),
        protocol: "rest-xml".to_string(),
        shapes: vec![
            ("Body".to_string(), plain(ShapeType::Blob)),
            ("Key".to_string(), plain(ShapeType::String)),
            (
                "GetObjectOutput".to_string(),
                structure(vec![("Body", streaming_member("Body"))], vec![]),
            ),
            (
                "PutObjectRequest".to_string(),
                structure(
                    vec![("Body", streaming_member("Body")), ("Key", member("Key"))],
                    vec!["Key"],
                ),
            ),
            ("Key".to_string(), plain(ShapeType::Integer)),
        ],
        operations: vec![
            (
                "PutObject".to_string(),
                Operation { input: Some("PutObjectRequest".to_string()), output: None },
            ),
            (
                "GetObject".to_string(),
                Operation { input: None, output: Some("GetObjectOutput".to_string()) },
            ),
        ],
    }
}

#[test]
fn a_name_stands_for_the_first_shape_that_has_it() {
    let service = storage();
    assert_eq!(service.find_shape("Body"), Some(0));
    assert_eq!(service.find_shape("Key"), Some(1));
    assert_eq!(service.find_shape("PutObjectRequest"), Some(3));
    assert_eq!(service.find_shape("Missing"), None);
    assert!(matches!(service.get_shape("Key").unwrap().shape_type, ShapeType::String));
    assert!(service.get_shape("key").is_none());
}

#[test]
fn interface_and_client_names_keep_letters_and_digits() {
    let service = storage();
    assert_eq!(service.name(), "Amazon Simple Storage Service (S3)");
    assert_eq!(service.protocol(), "rest-xml");
    assert_eq!(service.service_type_name(), "AmazonSimpleStorageServiceS3");
    assert_eq!(service.client_type_name(), "AmazonSimpleStorageServiceS3Client");
}

#[test]
fn an_empty_service_name_gives_the_bare_client_suffix() {
    let mut service = storage();
    service.name = "---".to_string();
    assert_eq!(service.service_type_name(), "");
    assert_eq!(service.client_type_name(), "Client");
}

#[test]
fn input_shapes_are_those_that_an_operation_takes() {
    let service = storage();
    assert!(is_input_shape(&service, "PutObjectRequest"));
    assert!(!is_input_shape(&service, "GetObjectOutput"));
    assert!(!is_input_shape(&service, "Body"));
}

#[test]
fn a_structure_streams_a_shape_through_a_streaming_member() {
    let service = storage();
    let output = service.get_shape("GetObjectOutput").unwrap();
    let request = service.get_shape("PutObjectRequest").unwrap();
    assert!(has_streaming_member("Body", output));
    assert!(has_streaming_member("Body", request));
    assert!(!has_streaming_member("Key", request));
    assert!(!has_streaming_member("Body", service.get_shape("Body").unwrap()));
}

#[test]
fn a_shape_is_streamed_where_another_shape_streams_it() {
    let service = storage();
    assert!(is_streaming_shape(&service, "Body"));
    assert!(!is_streaming_shape(&service, "Key"));
    assert!(!is_streaming_shape(&service, "GetObjectOutput"));
}

#[test]
fn a_shape_that_streams_itself_alone_is_not_streamed() {
    let service = Service {
        name: "Loop".to_string(),
        protocol: "json".to_string(),
        shapes: vec![("Chunk".to_string(), structure(vec![("Next", streaming_member("Chunk"))], vec![]))],
        operations: vec![],
    };
    assert!(has_streaming_member("Chunk", service.get_shape("Chunk").unwrap()));
    assert!(!is_streaming_shape(&service, "Chunk"));
}

#[test]
fn required_members_are_those_that_the_structure_lists() {
    let service = storage();
    let request = service.get_shape("PutObjectRequest").unwrap();
    assert!(request.required("Key"));
    assert!(!request.required("Body"));
    assert!(!request.required("key"));
    assert!(!service.get_shape("Body").unwrap().required("Key"));
}

#[test]
fn a_structure_has_fields_where_a_member_is_not_deprecated() {
    let mut old = member("Key");
    old.deprecated = true;
    assert!(structure(vec![("Key", member("Key"))], vec![]).has_fields());
    assert!(structure(vec![("Old", old.clone()), ("Key", member("Key"))], vec![]).has_fields());
    assert!(!structure(vec![("Old", old)], vec![]).has_fields());
    assert!(!structure(vec![], vec![]).has_fields());
    assert!(!plain(ShapeType::String).has_fields());
}
