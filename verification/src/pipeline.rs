//! The pipeline: it selects the backends by the protocol tag of the service
//! and puts the parts of the emitted module in their order.

use crate::client::{client_answered, generate_client};
use crate::emit::{generate_types, types_answered, TypeAnswers};
use crate::error::GenerateError;
use crate::filter::{TypeFilter, TypeFilterView};
use crate::model::{Service, ServiceView};
use crate::protocol::{
    protocol_of, GenerateErrorTypes, GenerateProtocol, Protocol,
};
use crate::resolve::Memo;
use crate::templates::MODULE_HEADER;
use vstd::prelude::*;
use vstd::string::*;

verus! {

/// What the backends answered during one run: the prelude, the answers for
/// each shape, the error types, the method signatures and the methods.
pub struct ModuleAnswers {
    pub prelude: String,
    pub types: Seq<TypeAnswers>,
    pub error_types: String,
    pub signatures: String,
    pub methods: String,
}

impl ServiceView {
    /// The emitted module: the header, the prelude of the protocol, the
    /// types, the error types, the capability interface and the client.
    pub open spec fn module_text(self, filter: TypeFilterView, answers: ModuleAnswers) -> Seq<
        char,
    > {
        MODULE_HEADER@ + "\n"@ + answers.prelude@ + self.types_text(
            filter,
            answers.types,
            self.shapes.len() as int,
        ) + answers.error_types@ + self.client_text(answers.signatures@, answers.methods@)
    }
}

/// Whether `answers` is what this pair of backends gave for the service:
/// the protocol backend the prelude, the answers for each shape, the method
/// signatures and the methods, and the backend for error types the error
/// types.
pub open spec fn module_answered<P: GenerateProtocol, E: GenerateErrorTypes>(
    protocol_generator: &P,
    error_type_generator: &E,
    service: &Service,
    filter: TypeFilterView,
    answers: ModuleAnswers,
) -> bool {
    &&& call_ensures(P::generate_prelude, (protocol_generator, service), answers.prelude)
    &&& types_answered(protocol_generator, service, filter, answers.types)
    &&& call_ensures(
        E::generate_error_types,
        (error_type_generator, service),
        answers.error_types,
    )
    &&& client_answered(protocol_generator, service, answers.signatures, answers.methods)
}

/// The backends of all protocol families: a protocol backend for each
/// family, and a backend for each error style.
pub struct Backends<J, Q, RJ, RX, EJ, EX> {
    pub json: J,
    pub query: Q,
    pub rest_json: RJ,
    pub rest_xml: RX,
    pub json_errors: EJ,
    pub xml_errors: EX,
}

/// Whether `answers` is what the backends for the protocol tag of the
/// service gave: those of the JSON family with the JSON error types for
/// `json`, those of the query family with the XML error types for `query`
/// and `ec2`, those of the REST and JSON family with the JSON error types for
/// `rest-json`, and those of the REST and XML family with the XML error
/// types for `rest-xml`. No backend answers for any other tag.
pub open spec fn selected_answered<
    J: GenerateProtocol,
    Q: GenerateProtocol,
    RJ: GenerateProtocol,
    RX: GenerateProtocol,
    EJ: GenerateErrorTypes,
    EX: GenerateErrorTypes,
>(
    backends: &Backends<J, Q, RJ, RX, EJ, EX>,
    service: &Service,
    filter: TypeFilterView,
    answers: ModuleAnswers,
) -> bool {
    match protocol_of(service@.protocol) {
        Some(Protocol::Json) => module_answered(
            &backends.json,
            &backends.json_errors,
            service,
            filter,
            answers,
        ),
        Some(Protocol::Query) => module_answered(
            &backends.query,
            &backends.xml_errors,
            service,
            filter,
            answers,
        ),
        Some(Protocol::RestJson) => module_answered(
            &backends.rest_json,
            &backends.json_errors,
            service,
            filter,
            answers,
        ),
        Some(Protocol::RestXml) => module_answered(
            &backends.rest_xml,
            &backends.xml_errors,
            service,
            filter,
            answers,
        ),
        None => false,
    }
}

/// Emits the module of a service with one pair of backends. The run fails,
/// before any backend is asked, exactly where the service is not
/// well-formed; the error names the first reference that stands for no shape
/// or, where all references resolve, the first shape whose type has no
/// finite depth.
pub fn generate<P: GenerateProtocol, E: GenerateErrorTypes>(
    service: &Service,
    filter: &TypeFilter,
    protocol_generator: &P,
    error_type_generator: &E,
) -> (r: Result<String, GenerateError>)
    ensures
        r is Ok == service@.well_formed(),
        r matches Ok(module) ==> exists|answers: ModuleAnswers|
            #[trigger] module_answered(
                protocol_generator,
                error_type_generator,
                service,
                filter@,
                answers,
            ) && module@ == service@.module_text(filter@, answers),
        r matches Err(e) ==> service@.explains(e),
{
    let memo = match Memo::new(service) {
        Ok(memo) => memo,
        Err(e) => {
            return Err(e);
        },
    };
    let mut out = MODULE_HEADER.to_owned();
    out.append("\n");
    let prelude = protocol_generator.generate_prelude(service);
    out.append(prelude.as_str());
    let types = generate_types(&memo, service, filter, protocol_generator);
    out.append(types.as_str());
    let error_types = error_type_generator.generate_error_types(service);
    out.append(error_types.as_str());
    let client = generate_client(service, protocol_generator);
    out.append(client.as_str());
    proof {
        let type_answers = choose|answers: Seq<TypeAnswers>|
            #[trigger] types_answered(protocol_generator, service, filter@, answers) && types@
                == service@.types_text(filter@, answers, service@.shapes.len() as int);
        let (signatures, methods) = choose|signatures: String, methods: String|
            #[trigger] client_answered(protocol_generator, service, signatures, methods)
                && client@ == service@.client_text(signatures@, methods@);
        let answers = ModuleAnswers {
            prelude,
            types: type_answers,
            error_types,
            signatures,
            methods,
        };
        assert(module_answered(
            protocol_generator,
            error_type_generator,
            service,
            filter@,
            answers,
        ));
        assert(out@ == service@.module_text(filter@, answers));
    }
    Ok(out)
}

/// Emits the module of a service. The protocol tag of the service selects
/// the protocol backend, and with it the backend for the error types: the
/// JSON style for `json` and `rest-json`, the XML style for `query`, `ec2`
/// and `rest-xml`. Any other tag ends the run with `UnknownProtocol` before
/// anything is emitted.
pub fn generate_source<
    J: GenerateProtocol,
    Q: GenerateProtocol,
    RJ: GenerateProtocol,
    RX: GenerateProtocol,
    EJ: GenerateErrorTypes,
    EX: GenerateErrorTypes,
>(service: &Service, filter: &TypeFilter, backends: &Backends<J, Q, RJ, RX, EJ, EX>) -> (r: Result<
    String,
    GenerateError,
>)
    ensures
        r is Ok == (protocol_of(service@.protocol) is Some && service@.well_formed()),
        r matches Ok(module) ==> exists|answers: ModuleAnswers|
            #[trigger] selected_answered(backends, service, filter@, answers) && module@
                == service@.module_text(filter@, answers),
        r matches Err(e) ==> match e {
            GenerateError::UnknownProtocol(name) => protocol_of(service@.protocol) is None
                && name@ == service@.protocol,
            _ => protocol_of(service@.protocol) is Some && service@.explains(e),
        },
{
    match Protocol::from_tag(service.protocol()) {
        Some(Protocol::Json) => {
            let r = generate(service, filter, &backends.json, &backends.json_errors);
            proof {
                if r is Ok {
                    let module = r->Ok_0;
                    let answers = choose|answers: ModuleAnswers|
                        #[trigger] module_answered(
                            &backends.json,
                            &backends.json_errors,
                            service,
                            filter@,
                            answers,
                        ) && module@ == service@.module_text(filter@, answers);
                    assert(selected_answered(backends, service, filter@, answers));
                }
            }
            r
        },
        Some(Protocol::Query) => {
            let r = generate(service, filter, &backends.query, &backends.xml_errors);
            proof {
                if r is Ok {
                    let module = r->Ok_0;
                    let answers = choose|answers: ModuleAnswers|
                        #[trigger] module_answered(
                            &backends.query,
                            &backends.xml_errors,
                            service,
                            filter@,
                            answers,
                        ) && module@ == service@.module_text(filter@, answers);
                    assert(selected_answered(backends, service, filter@, answers));
                }
            }
            r
        },
        Some(Protocol::RestJson) => {
            let r = generate(service, filter, &backends.rest_json, &backends.json_errors);
            proof {
                if r is Ok {
                    let module = r->Ok_0;
                    let answers = choose|answers: ModuleAnswers|
                        #[trigger] module_answered(
                            &backends.rest_json,
                            &backends.json_errors,
                            service,
                            filter@,
                            answers,
                        ) && module@ == service@.module_text(filter@, answers);
                    assert(selected_answered(backends, service, filter@, answers));
                }
            }
            r
        },
        Some(Protocol::RestXml) => {
            let r = generate(service, filter, &backends.rest_xml, &backends.xml_errors);
            proof {
                if r is Ok {
                    let module = r->Ok_0;
                    let answers = choose|answers: ModuleAnswers|
                        #[trigger] module_answered(
                            &backends.rest_xml,
                            &backends.xml_errors,
                            service,
                            filter@,
                            answers,
                        ) && module@ == service@.module_text(filter@, answers);
                    assert(selected_answered(backends, service, filter@, answers));
                }
            }
            r
        },
        None => Err(GenerateError::UnknownProtocol(service.protocol().to_owned())),
    }
}

} // verus!
