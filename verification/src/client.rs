//! The client emitter: the capability interface of a service, the client
//! type, and the client's implementation of the interface.

use crate::model::{Service, ServiceView};
use crate::protocol::GenerateProtocol;
use crate::templates::{
    BLOCK_CLOSE, CLIENT_CONSTRUCTOR_BODY, CLIENT_CONSTRUCTOR_OPEN, CLIENT_DOC_OPEN,
    CLIENT_IMPL_FOR, CLIENT_IMPL_OPEN, CLIENT_STRUCT_BODY, CLIENT_STRUCT_OPEN,
    INTERFACE_DOC_CLOSE, INTERFACE_DOC_MIDDLE, INTERFACE_DOC_OPEN, INTERFACE_OPEN,
};
use vstd::prelude::*;
use vstd::string::*;

verus! {

impl ServiceView {
    /// The capability interface around the method signatures of the
    /// protocol.
    pub open spec fn interface_text(self, signatures: Seq<char>) -> Seq<char> {
        INTERFACE_DOC_OPEN@ + self.name + INTERFACE_DOC_MIDDLE@ + self.name + INTERFACE_DOC_CLOSE@
            + self.interface_name() + INTERFACE_OPEN@ + "\n"@ + signatures + BLOCK_CLOSE@ + "\n"@
    }

    /// The client type, which holds a credentials provider, a region and a
    /// request dispatcher, its constructor, and its implementation of the
    /// capability interface around the methods of the protocol.
    pub open spec fn client_type_text(self, methods: Seq<char>) -> Seq<char> {
        CLIENT_DOC_OPEN@ + self.name + CLIENT_STRUCT_OPEN@ + self.client_name()
            + CLIENT_STRUCT_BODY@ + self.client_name() + CLIENT_CONSTRUCTOR_OPEN@
            + self.client_name() + CLIENT_CONSTRUCTOR_BODY@ + self.interface_name()
            + CLIENT_IMPL_FOR@ + self.client_name() + CLIENT_IMPL_OPEN@ + "\n"@ + methods
            + BLOCK_CLOSE@ + "\n"@
    }

    /// The capability interface, then the client type with its
    /// implementation.
    pub open spec fn client_text(self, signatures: Seq<char>, methods: Seq<char>) -> Seq<char> {
        self.interface_text(signatures) + self.client_type_text(methods)
    }
}

/// The capability interface of a service around the given method
/// signatures.
pub fn interface_definition(service: &Service, signatures: &str) -> (r: String)
    ensures
        r@ == service@.interface_text(signatures@),
{
    let interface_name = service.service_type_name();
    INTERFACE_DOC_OPEN.to_owned().concat(service.name()).concat(INTERFACE_DOC_MIDDLE).concat(
        service.name(),
    ).concat(INTERFACE_DOC_CLOSE).concat(interface_name.as_str()).concat(INTERFACE_OPEN).concat(
        "\n",
    ).concat(signatures).concat(BLOCK_CLOSE).concat("\n")
}

/// The client type of a service, with the given methods as its
/// implementation of the capability interface.
pub fn client_definition(service: &Service, methods: &str) -> (r: String)
    ensures
        r@ == service@.client_type_text(methods@),
{
    let interface_name = service.service_type_name();
    let client_name = service.client_type_name();
    CLIENT_DOC_OPEN.to_owned().concat(service.name()).concat(CLIENT_STRUCT_OPEN).concat(
        client_name.as_str(),
    ).concat(CLIENT_STRUCT_BODY).concat(client_name.as_str()).concat(
        CLIENT_CONSTRUCTOR_OPEN,
    ).concat(client_name.as_str()).concat(CLIENT_CONSTRUCTOR_BODY).concat(
        interface_name.as_str(),
    ).concat(CLIENT_IMPL_FOR).concat(client_name.as_str()).concat(CLIENT_IMPL_OPEN).concat(
        "\n",
    ).concat(methods).concat(BLOCK_CLOSE).concat("\n")
}

/// Whether `signatures` and `methods` are what the backend gives as the
/// method signatures and as the methods of the service.
pub open spec fn client_answered<P: GenerateProtocol>(
    protocol_generator: &P,
    service: &Service,
    signatures: String,
    methods: String,
) -> bool {
    &&& call_ensures(P::generate_method_signatures, (protocol_generator, service), signatures)
    &&& call_ensures(P::generate_method_impls, (protocol_generator, service), methods)
}

/// Emits the capability interface and the client of a service, with the
/// method signatures and the methods that the protocol backend supplies.
pub fn generate_client<P: GenerateProtocol>(service: &Service, protocol_generator: &P) -> (r:
    String)
    ensures
        exists|signatures: String, methods: String|
            #[trigger] client_answered(protocol_generator, service, signatures, methods) && r@
                == service@.client_text(signatures@, methods@),
{
    let signatures = protocol_generator.generate_method_signatures(service);
    let mut out = interface_definition(service, signatures.as_str());
    let methods = protocol_generator.generate_method_impls(service);
    out.append(client_definition(service, methods.as_str()).as_str());
    assert(client_answered(protocol_generator, service, signatures, methods));
    out
}

} // verus!
