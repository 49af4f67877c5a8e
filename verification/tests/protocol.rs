use service_crategen::protocol::select_backends;
use service_crategen::{ErrorStyle, Protocol};

#[test]
fn json_goes_with_json_errors() {
    assert_eq!(select_backends("json"), Some((Protocol::Json, ErrorStyle::Json)));
    assert_eq!(Protocol::from_tag("json"), Some(Protocol::Json));
}

#[test]
fn query_goes_with_xml_errors() {
    assert_eq!(select_backends("query"), Some((Protocol::Query, ErrorStyle::Xml)));
}

#[test]
fn ec2_is_served_by_the_query_family() {
    assert_eq!(select_backends("ec2"), Some((Protocol::Query, ErrorStyle::Xml)));
}

#[test]
fn rest_json_goes_with_json_errors() {
    assert_eq!(select_backends("rest-json"), Some((Protocol::RestJson, ErrorStyle::Json)));
}

#[test]
fn rest_xml_goes_with_xml_errors() {
    assert_eq!(select_backends("rest-xml"), Some((Protocol::RestXml, ErrorStyle::Xml)));
}

#[test]
fn no_other_tag_selects_backends() {
    for tag in ["", "soap", "JSON", "json ", "rest_json", "restxml", "ec2 ", "querys"] {
        assert_eq!(select_backends(tag), None, "{:?}", tag);
        assert_eq!(Protocol::from_tag(tag), None, "{:?}", tag);
    }
}

#[test]
fn the_error_style_follows_the_family() {
    assert_eq!(Protocol::Json.error_style(), ErrorStyle::Json);
    assert_eq!(Protocol::Query.error_style(), ErrorStyle::Xml);
    assert_eq!(Protocol::RestJson.error_style(), ErrorStyle::Json);
    assert_eq!(Protocol::RestXml.error_style(), ErrorStyle::Xml);
}
