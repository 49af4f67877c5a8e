//! The protocol backends: what each supplies to the emitters, and which pair
//! of them a protocol tag selects.

use crate::model::{Service, Shape};
use crate::text::same_text;
use vstd::prelude::*;
use vstd::string::*;

verus! {

/// Supplies the text that depends on the wire protocol. The emitters take
/// whatever text a backend hands them and place it; they promise nothing
/// about it.
pub trait GenerateProtocol {
    /// The imports that the module emitted for this service needs.
    fn generate_prelude(&self, service: &Service) -> String;

    /// One method signature per operation, for the capability interface.
    fn generate_method_signatures(&self, service: &Service) -> String;

    /// One method per operation that calls the operation remotely, for the
    /// client's implementation of the capability interface.
    fn generate_method_impls(&self, service: &Service) -> String;

    /// The attributes that decorate the struct of a type, given whether the
    /// type is serialized and whether it is deserialized.
    fn generate_struct_attributes(&self, serialized: bool, deserialized: bool) -> String;

    /// A serializer for the type called `name`, if the protocol needs one.
    fn generate_serializer(&self, name: &str, shape: &Shape, service: &Service) -> (r: Option<
        String,
    >)
        default_ensures
            r is None,
    {
        None
    }

    /// A deserializer for the type called `name`, if the protocol needs one.
    fn generate_deserializer(&self, name: &str, shape: &Shape, service: &Service) -> (r: Option<
        String,
    >)
        default_ensures
            r is None,
    {
        None
    }

    /// The type that this protocol uses for timestamps.
    fn timestamp_type(&self) -> &'static str;
}

/// Supplies the error types of a service: one for every shape that models a
/// service error, beside the failures of transport, credentials and
/// dispatch.
pub trait GenerateErrorTypes {
    /// The definitions of the error types of the service.
    fn generate_error_types(&self, service: &Service) -> String;
}

/// The families of wire protocols.
#[derive(Clone, Copy, Debug, PartialEq, Eq, Structural)]
pub enum Protocol {
    Json,
    Query,
    RestJson,
    RestXml,
}

/// The two ways in which a service reports its errors.
#[derive(Clone, Copy, Debug, PartialEq, Eq, Structural)]
pub enum ErrorStyle {
    Json,
    Xml,
}

/// The protocol family that a protocol tag names, if any. The tag `ec2` is
/// served by the query family.
pub open spec fn protocol_of(tag: Seq<char>) -> Option<Protocol> {
    if tag == "json"@ {
        Some(Protocol::Json)
    } else if tag == "query"@ || tag == "ec2"@ {
        Some(Protocol::Query)
    } else if tag == "rest-json"@ {
        Some(Protocol::RestJson)
    } else if tag == "rest-xml"@ {
        Some(Protocol::RestXml)
    } else {
        None
    }
}

/// The error style that goes with a protocol family.
pub open spec fn error_style_of(protocol: Protocol) -> ErrorStyle {
    match protocol {
        Protocol::Json => ErrorStyle::Json,
        Protocol::Query => ErrorStyle::Xml,
        Protocol::RestJson => ErrorStyle::Json,
        Protocol::RestXml => ErrorStyle::Xml,
    }
}

/// The pair of backends that a protocol tag selects, if it names a family.
pub open spec fn backends_of(tag: Seq<char>) -> Option<(Protocol, ErrorStyle)> {
    match protocol_of(tag) {
        Some(protocol) => Some((protocol, error_style_of(protocol))),
        None => None,
    }
}

impl Protocol {
    /// Finds the protocol family that a tag names.
    pub fn from_tag(tag: &str) -> (r: Option<Protocol>)
        ensures
            r == protocol_of(tag@),
    {
        if same_text(tag, "json") {
            Some(Protocol::Json)
        } else if same_text(tag, "query") || same_text(tag, "ec2") {
            Some(Protocol::Query)
        } else if same_text(tag, "rest-json") {
            Some(Protocol::RestJson)
        } else if same_text(tag, "rest-xml") {
            Some(Protocol::RestXml)
        } else {
            None
        }
    }

    /// The error style that goes with this family.
    pub fn error_style(self) -> (r: ErrorStyle)
        ensures
            r == error_style_of(self),
    {
        match self {
            Protocol::Json => ErrorStyle::Json,
            Protocol::Query => ErrorStyle::Xml,
            Protocol::RestJson => ErrorStyle::Json,
            Protocol::RestXml => ErrorStyle::Xml,
        }
    }
}

/// Selects the pair of backends for a protocol tag: the tag fixes the
/// protocol family, and the family fixes the error style.
pub fn select_backends(tag: &str) -> (r: Option<(Protocol, ErrorStyle)>)
    ensures
        r == backends_of(tag@),
{
    match Protocol::from_tag(tag) {
        Some(protocol) => Some((protocol, protocol.error_style())),
        None => None,
    }
}

/// The five tags, and no other, select backends; the JSON families report
/// errors in the JSON style and the query and XML families in the XML style.
pub proof fn lemma_backend_pairs(tag: Seq<char>)
    ensures
        tag == "json"@ ==> backends_of(tag) == Some((Protocol::Json, ErrorStyle::Json)),
        tag == "query"@ ==> backends_of(tag) == Some((Protocol::Query, ErrorStyle::Xml)),
        tag == "ec2"@ ==> backends_of(tag) == Some((Protocol::Query, ErrorStyle::Xml)),
        tag == "rest-json"@ ==> backends_of(tag) == Some((Protocol::RestJson, ErrorStyle::Json)),
        tag == "rest-xml"@ ==> backends_of(tag) == Some((Protocol::RestXml, ErrorStyle::Xml)),
        backends_of(tag) is None <==> !(tag == "json"@ || tag == "query"@ || tag == "ec2"@ || tag
            == "rest-json"@ || tag == "rest-xml"@),
{
    reveal_strlit("json");
    reveal_strlit("query");
    reveal_strlit("ec2");
    reveal_strlit("rest-json");
    reveal_strlit("rest-xml");
    if tag == "query"@ {
        assert(tag.len() == 5);
    }
    if tag == "ec2"@ {
        assert(tag.len() == 3);
    }
    if tag == "rest-json"@ {
        assert(tag.len() == 9);
    }
    if tag == "rest-xml"@ {
        assert(tag.len() == 8);
    }
}

} // verus!
