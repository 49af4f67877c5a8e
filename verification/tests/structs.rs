use service_crategen::structs::{
    field_declaration, fields_struct, generate_struct, generate_struct_fields, struct_fields,
    unit_struct,
};
use service_crategen::{
    GenerateProtocol, Member, Memo, Operation, Ownership, Service, Shape, ShapeType,
};

struct Backend {
    attributes: &'static str,
    timestamps: &'static str,
}

impl GenerateProtocol for Backend {
    fn generate_prelude(&self, _service: &Service) -> String {
        String::new()
    }

    fn generate_method_signatures(&self, _service: &Service) -> String {
        String::new()
    }

    fn generate_method_impls(&self, _service: &Service) -> String {
        String::new()
    }

    fn generate_struct_attributes(&self, serialized: bool, deserialized: bool) -> String {
        format!("{}{}{}", self.attributes, if serialized { "S" } else { "" }, if deserialized {
            "D"
        } else {
            ""
        })
    }

    fn timestamp_type(&self) -> &'static str {
        self.timestamps
    }
}

const PLAIN: Backend = Backend { attributes: "#[derive(Debug)]", timestamps: "f64" };
const CODEC: Backend = Backend { attributes: "#[derive(Serialize)]", timestamps: "String" };

fn plain(shape_type: ShapeType) -> Shape {
    Shape { shape_type, documentation: None, exception: false }
}

fn member(shape: &str) -> Member {
    Member { shape: shape.to_string(), deprecated: false, streaming: false, documentation: None }
}

fn structure(members: Vec<(&str, Member)>, required: Vec<&str>) -> Shape {
    plain(ShapeType::Structure {
        members: members.into_iter().map(|(name, m)| (name.to_string(), m)).collect(),
        required: required.into_iter().map(|name| name.to_string()).collect(),
    })
}

fn service() -> Service {
    let documented = Member { documentation: Some("The name.".to_string()), ..member("Name") };
    let deprecated = Member { deprecated: true, ..member("Name") };
    let streaming = Member { streaming: true, ..member("Data") };
    let shapes = vec![
        ("Name", plain(ShapeType::String)),
        ("Size", plain(ShapeType::Integer)),
        ("Data", plain(ShapeType::Blob)),
        ("When", plain(ShapeType::Timestamp)),
        ("File", structure(vec![("Name", member("Name")), ("Size", member("Size"))], vec!["Name"])),
        (
            "Item",
            structure(
                vec![
                    ("Name", documented),
                    ("Size", member("Size")),
                    ("Data", member("Data")),
                    ("Old", deprecated.clone()),
                    ("Type", member("Name")),
                    ("Return", member("Size")),
                    ("CreatedAt", member("When")),
                ],
                vec!["Name", "Return"],
            ),
        ),
        ("Counter", structure(vec![("Size", member("Size")), ("When", member("When"))], vec![])),
        ("Gone", structure(vec![("Old", deprecated.clone())], vec![])),
        ("Ghost", structure(vec![("Old", deprecated), ("Size", member("Size"))], vec![])),
        ("Empty", structure(vec![], vec![])),
        ("Upload", structure(vec![("Body", streaming.clone())], vec![])),
        ("Download", structure(vec![("Body", streaming)], vec!["Body"])),
    ];
    Service {
        name: "Test".to_string(),
        protocol: "json".to_string(),
        shapes: shapes.into_iter().map(|(name, shape)| (name.to_string(), shape)).collect(),
        operations: vec![
            ("Put".to_string(), Operation { input: Some("Upload".to_string()), output: None }),
            ("Get".to_string(), Operation { input: None, output: Some("Download".to_string()) }),
        ],
    }
}

fn fields(name: &str, serde_attrs: bool, timestamps: &str) -> (String, Ownership) {
    let service = service();
    let memo = Memo::new(&service).unwrap();
    struct_fields(&memo, &service, service.get_shape(name).unwrap(), name, serde_attrs, timestamps)
}

fn definition(name: &str, backend: &Backend) -> String {
    let service = service();
    let memo = Memo::new(&service).unwrap();
    let shape = service.get_shape(name).unwrap();
    generate_struct(&memo, &service, name, name, shape, false, false, backend)
}

#[test]
fn a_required_field_is_mandatory() {
    assert_eq!(field_declaration("name", "&'a str", true), "pub name: &'a str,");
    assert_eq!(field_declaration("type", "i64", true), "pub type: i64,");
}

#[test]
fn a_field_that_is_not_required_is_optional() {
    assert_eq!(field_declaration("size", "i64", false), "pub size: Option<i64>,");
    assert_eq!(field_declaration("type_", "i64", false), "pub type_: Option<i64>,");
}

#[test]
fn an_optional_field_called_type_gets_a_prefix() {
    assert_eq!(field_declaration("type", "i64", false), "pub aws_type: Option<i64>,");
}

#[test]
fn required_and_optional_members_become_mandatory_and_optional_fields() {
    let (text, ownership) = fields("File", false, "f64");
    assert_eq!(text, "pub name: &'a str,\npub size: Option<i64>,");
    assert_eq!(ownership, Ownership::Borrowed);
}

#[test]
fn fields_stand_in_the_order_of_the_members_without_the_deprecated() {
    let (text, ownership) = fields("Item", false, "f64");
    assert_eq!(
        text,
        "/// The name.\n\
         pub name: &'a str,\n\
         pub size: Option<i64>,\n\
         pub data: Option<Vec<u8>>,\n\
         pub type_: Option<&'a str>,\n\
         pub return_: i64,\n\
         pub created_at: Option<f64>,"
    );
    assert_eq!(ownership, Ownership::Borrowed);
}

#[test]
fn fields_of_a_codec_struct_carry_their_attributes() {
    let (text, _) = fields("Item", true, "String");
    let expected = [
        "/// The name.",
        "#[serde(rename=\"Name\")]",
        "#[serde(borrow)]",
        "pub name: &'a str,",
        "#[serde(rename=\"Size\")]",
        "#[serde(skip_serializing_if=\"Option::is_none\")]",
        "pub size: Option<i64>,",
        "#[serde(rename=\"Data\")]",
        "#[serde(\n                            deserialize_with=\"::rusoto_core::serialization::SerdeBlob::deserialize_blob\",\n                            serialize_with=\"::rusoto_core::serialization::SerdeBlob::serialize_blob\",\n                            default,\n                        )]",
        "pub data: Option<Vec<u8>>,",
        "#[serde(rename=\"Type\")]",
        "#[serde(skip_serializing_if=\"Option::is_none\")]",
        "#[serde(borrow)]",
        "pub type_: Option<&'a str>,",
        "#[serde(rename=\"Return\")]",
        "pub return_: i64,",
        "#[serde(rename=\"CreatedAt\")]",
        "#[serde(skip_serializing_if=\"Option::is_none\")]",
        "pub created_at: Option<String>,",
    ];
    assert_eq!(text, expected.join("\n"));
}

#[test]
fn fields_without_a_string_own() {
    let (text, ownership) = fields("Counter", false, "f64");
    assert_eq!(text, "pub size: Option<i64>,\npub when: Option<f64>,");
    assert_eq!(ownership, Ownership::Owned);
}

#[test]
fn a_deprecated_string_member_gives_no_lifetime() {
    let (text, ownership) = fields("Ghost", false, "f64");
    assert_eq!(text, "pub size: Option<i64>,");
    assert_eq!(ownership, Ownership::Owned);
}

#[test]
fn a_shape_without_members_has_no_fields() {
    assert_eq!(fields("Empty", true, "f64"), (String::new(), Ownership::Owned));
    assert_eq!(fields("Gone", true, "f64"), (String::new(), Ownership::Owned));
    assert_eq!(fields("Name", true, "f64"), (String::new(), Ownership::Owned));
}

#[test]
fn the_backend_names_the_type_of_timestamps() {
    let service = service();
    let memo = Memo::new(&service).unwrap();
    let shape = service.get_shape("Counter").unwrap();
    let (text, ownership) = generate_struct_fields(&memo, &service, shape, "Counter", false, &CODEC);
    assert_eq!(text, "pub size: Option<i64>,\npub when: Option<String>,");
    assert_eq!(ownership, Ownership::Owned);
}

#[test]
fn a_streaming_member_of_an_input_shape_has_the_plain_type() {
    let (text, ownership) = fields("Upload", false, "f64");
    assert_eq!(text, "pub body: Option<Vec<u8>>,");
    assert_eq!(ownership, Ownership::Owned);
}

#[test]
fn a_streaming_member_of_an_output_shape_has_the_wrapper_type() {
    let (text, ownership) = fields("Download", false, "f64");
    assert_eq!(text, "pub body: StreamingData,");
    assert_eq!(ownership, Ownership::Owned);
}

#[test]
fn a_unit_struct_has_no_field_list() {
    assert_eq!(
        unit_struct("#[derive(Debug)]", "Empty"),
        "#[derive(Debug)]\n            pub struct Empty;\n            "
    );
}

#[test]
fn a_struct_frames_its_fields() {
    assert_eq!(
        fields_struct("#[derive(Debug)]", "File", Ownership::Borrowed, "pub name: &'a str,"),
        "#[derive(Debug)]\n            pub struct File<'a> {\n                pub name: &'a str,\n            }\n            "
    );
    assert_eq!(
        fields_struct("", "Size", Ownership::Owned, "pub size: i64,"),
        "\n            pub struct Size {\n                pub size: i64,\n            }\n            "
    );
}

#[test]
fn a_structure_without_members_degenerates_to_a_unit_struct() {
    assert_eq!(
        definition("Empty", &PLAIN),
        "#[derive(Debug)]\n            pub struct Empty;\n            "
    );
}

#[test]
fn a_structure_of_deprecated_members_degenerates_to_a_unit_struct() {
    assert_eq!(
        definition("Gone", &CODEC),
        "#[derive(Serialize)]\n            pub struct Gone;\n            "
    );
}

#[test]
fn a_struct_that_borrows_carries_a_lifetime() {
    assert_eq!(
        definition("File", &PLAIN),
        "#[derive(Debug)]\n            pub struct File<'a> {\n                pub name: &'a str,\npub size: Option<i64>,\n            }\n            "
    );
}

#[test]
fn a_struct_that_owns_carries_no_lifetime() {
    assert_eq!(
        definition("Counter", &PLAIN),
        "#[derive(Debug)]\n            pub struct Counter {\n                pub size: Option<i64>,\npub when: Option<f64>,\n            }\n            "
    );
}

#[test]
fn attributes_that_derive_a_codec_bring_field_attributes() {
    assert_eq!(
        definition("Counter", &CODEC),
        "#[derive(Serialize)]\n            pub struct Counter {\n                #[serde(rename=\"Size\")]\n#[serde(skip_serializing_if=\"Option::is_none\")]\npub size: Option<i64>,\n#[serde(rename=\"When\")]\n#[serde(skip_serializing_if=\"Option::is_none\")]\npub when: Option<String>,\n            }\n            "
    );
}

#[test]
fn the_backend_is_asked_for_attributes_with_the_reachability() {
    let service = service();
    let memo = Memo::new(&service).unwrap();
    let shape = service.get_shape("Empty").unwrap();
    assert_eq!(
        generate_struct(&memo, &service, "Empty", "Empty", shape, true, false, &PLAIN),
        "#[derive(Debug)]S\n            pub struct Empty;\n            "
    );
    assert_eq!(
        generate_struct(&memo, &service, "Empty", "Empty", shape, false, true, &PLAIN),
        "#[derive(Debug)]D\n            pub struct Empty;\n            "
    );
    assert_eq!(
        generate_struct(&memo, &service, "Nothing", "Empty", shape, true, true, &PLAIN),
        "#[derive(Debug)]SD\n            pub struct Nothing;\n            "
    );
}
