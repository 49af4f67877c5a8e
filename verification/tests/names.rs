use service_crategen::names::{capitalize_first, disambiguate, escape_reserved_word, strip_underscores};
use service_crategen::{
    error_type_name, generate_field_name, mutate_type_name, mutate_type_name_for_streaming,
};

#[test]
fn a_word_is_capitalized_by_its_first_character() {
    assert_eq!(capitalize_first("bucket"), "Bucket");
    assert_eq!(capitalize_first("Bucket"), "Bucket");
    assert_eq!(capitalize_first("b"), "B");
    assert_eq!(capitalize_first(""), "");
    assert_eq!(capitalize_first("_x"), "_x");
}

#[test]
fn underscores_are_taken_out() {
    assert_eq!(strip_underscores("a_b__c_"), "abc");
    assert_eq!(strip_underscores("___"), "");
    assert_eq!(strip_underscores("abc"), "abc");
}

#[test]
fn the_collision_table_moves_three_names() {
    assert_eq!(disambiguate("Error".to_string()), "S3Error");
    assert_eq!(disambiguate("CancelSpotFleetRequests".to_string()), "EC2CancelSpotFleetRequests");
    assert_eq!(disambiguate("Option".to_string()), "RDSOption");
    assert_eq!(disambiguate("Errors".to_string()), "Errors");
    assert_eq!(disambiguate("S3Error".to_string()), "S3Error");
    assert_eq!(disambiguate("error".to_string()), "error");
}

#[test]
fn reserved_words_are_escaped() {
    assert_eq!(escape_reserved_word("type".to_string()), "type_");
    assert_eq!(escape_reserved_word("return".to_string()), "return_");
    assert_eq!(escape_reserved_word("types".to_string()), "types");
    assert_eq!(escape_reserved_word("Type".to_string()), "Type");
    assert_eq!(escape_reserved_word("".to_string()), "");
}

#[test]
fn field_names_are_snake_case() {
    assert_eq!(generate_field_name("FooBar"), "foo_bar");
    assert_eq!(generate_field_name("fooBar"), "foo_bar");
    assert_eq!(generate_field_name("Name"), "name");
}

#[test]
fn reserved_words_gain_an_underscore() {
    assert_eq!(generate_field_name("type"), "type_");
    assert_eq!(generate_field_name("Type"), "type_");
    assert_eq!(generate_field_name("return"), "return_");
    assert_eq!(generate_field_name("Return"), "return_");
}

#[test]
fn type_names_are_capitalized_without_underscores() {
    assert_eq!(mutate_type_name("bucket"), "Bucket");
    assert_eq!(mutate_type_name("Origin_Access_Identity"), "OriginAccessIdentity");
    assert_eq!(mutate_type_name(""), "");
    assert_eq!(mutate_type_name("_"), "");
}

#[test]
fn colliding_type_names_are_moved() {
    assert_eq!(mutate_type_name("Error"), "S3Error");
    assert_eq!(mutate_type_name("error"), "S3Error");
    assert_eq!(mutate_type_name("Option"), "RDSOption");
    assert_eq!(mutate_type_name("CancelSpotFleetRequests"), "EC2CancelSpotFleetRequests");
    assert_eq!(mutate_type_name("Er_ror"), "S3Error");
}

#[test]
fn streaming_names_carry_the_marker() {
    assert_eq!(mutate_type_name_for_streaming("Body"), "StreamingBody");
}

#[test]
fn error_type_names_end_in_error() {
    assert_eq!(error_type_name("GetObject"), "GetObjectError");
    assert_eq!(error_type_name("Error"), "S3ErrorError");
}

#[test]
fn only_the_first_character_is_capitalized() {
    assert_eq!(mutate_type_name("tag_set"), "Tagset");
    assert_eq!(mutate_type_name("élan"), "Élan");
    assert_eq!(mutate_type_name("ßeta"), "SSeta");
    assert_eq!(mutate_type_name("9lives"), "9lives");
}

#[test]
fn no_shape_gets_a_colliding_type_name() {
    for name in ["Error", "error", "E_rror", "Option", "option", "Op_tion", "CancelSpotFleetRequests"]
    {
        let sanitized = mutate_type_name(name);
        assert_ne!(sanitized, "Error");
        assert_ne!(sanitized, "Option");
        assert_ne!(sanitized, "CancelSpotFleetRequests");
    }
}

#[test]
fn no_field_is_called_by_a_reserved_word() {
    for name in ["type", "Type", "TYPE", "return", "Return", "type_", "Return "] {
        let field = generate_field_name(name);
        assert_ne!(field, "type");
        assert_ne!(field, "return");
    }
}

#[test]
fn the_streaming_marker_goes_before_any_name() {
    assert_eq!(mutate_type_name_for_streaming(""), "Streaming");
    assert_eq!(mutate_type_name_for_streaming("tag_set"), "Streamingtag_set");
}
