//! The type emitter: for each shape of a service, the struct, the streaming
//! wrapper and the codecs that stand for it in the emitted module.

use crate::filter::{TypeFilter, TypeFilterView};
use crate::model::{is_streaming_shape, Service, ServiceView, Shape, ShapeType, ShapeView};
use crate::names::{
    mutate_type_name, mutate_type_name_for_streaming, sanitized_name, streaming_name,
};
use crate::protocol::GenerateProtocol;
use crate::resolve::Memo;
use crate::structs::{generate_struct, struct_answered};
use crate::templates::{
    DOC_OPEN, STREAM_DEBUG_CLOSE, STREAM_DEBUG_OPEN, STREAM_DEREF_BODY, STREAM_DEREF_MUT_BODY,
    STREAM_READ_BODY, STREAM_STRUCT_BODY, STREAM_STRUCT_OPEN,
};
use crate::text::{optional_text, same_text};
use vstd::prelude::*;
use vstd::string::*;

verus! {

/// What a protocol backend answered for one shape: the attributes of its
/// struct, the type for timestamps, and the codecs, if it gave any.
pub struct TypeAnswers {
    pub attributes: String,
    pub for_timestamps: &'static str,
    pub deserializer: Option<String>,
    pub serializer: Option<String>,
}

/// Whether `answer` is what the backend gives when asked for a serializer
/// for the type called `name`.
pub open spec fn gives_serializer<P: GenerateProtocol>(
    protocol_generator: &P,
    name: Seq<char>,
    shape: &Shape,
    service: &Service,
    answer: Option<String>,
) -> bool {
    exists|text: &str|
        text@ == name && call_ensures(
            P::generate_serializer,
            (protocol_generator, text, shape, service),
            answer,
        )
}

/// Whether `answer` is what the backend gives when asked for a deserializer
/// for the type called `name`.
pub open spec fn gives_deserializer<P: GenerateProtocol>(
    protocol_generator: &P,
    name: Seq<char>,
    shape: &Shape,
    service: &Service,
    answer: Option<String>,
) -> bool {
    exists|text: &str|
        text@ == name && call_ensures(
            P::generate_deserializer,
            (protocol_generator, text, shape, service),
            answer,
        )
}

/// Whether `answers` is what the backend gave for the shape at `at`: the
/// attributes for the reachability of the type and the type of timestamps,
/// where a struct is emitted, and each codec where the type is reachable for
/// it. Where a codec is not called for, the answer is none.
pub open spec fn type_answered<P: GenerateProtocol>(
    protocol_generator: &P,
    service: &Service,
    filter: TypeFilterView,
    at: int,
    answers: TypeAnswers,
) -> bool {
    let name = service@.shapes[at].0;
    let shape = service@.shapes[at].1;
    let serialized = filter.serialized.contains(sanitized_name(name));
    let deserialized = filter.deserialized.contains(sanitized_name(name));
    &&& !shape.exception && service@.emits_struct(name, shape) ==> struct_answered(
        protocol_generator,
        shape,
        serialized,
        deserialized,
        answers.attributes,
        answers.for_timestamps,
    )
    &&& if !shape.exception && deserialized {
        gives_deserializer(
            protocol_generator,
            sanitized_name(name),
            &service.shapes@[at].1,
            service,
            answers.deserializer,
        )
    } else {
        answers.deserializer is None
    }
    &&& if !shape.exception && serialized {
        gives_serializer(
            protocol_generator,
            sanitized_name(name),
            &service.shapes@[at].1,
            service,
            answers.serializer,
        )
    } else {
        answers.serializer is None
    }
}

/// The wrapper type that carries the type called `name` as a stream. It owns
/// a boxed reader, gives access to it, reads through it, and prints as a
/// fixed placeholder that holds the type name and none of the content.
pub open spec fn streaming_wrapper_text(name: Seq<char>) -> Seq<char> {
    STREAM_STRUCT_OPEN@ + streaming_name(name) + STREAM_STRUCT_BODY@ + streaming_name(name)
        + STREAM_DEBUG_OPEN@ + name + STREAM_DEBUG_CLOSE@ + streaming_name(name)
        + STREAM_DEREF_BODY@ + streaming_name(name) + STREAM_DEREF_MUT_BODY@ + streaming_name(
        name,
    ) + STREAM_READ_BODY@
}

/// The line of documentation above a struct, if the shape has any.
pub open spec fn documentation_text(documentation: Option<Seq<char>>) -> Seq<char> {
    match documentation {
        Some(docs) => DOC_OPEN@ + docs + "\n"@,
        None => Seq::empty(),
    }
}

/// A codec as it is emitted: its body and a line break where the type is
/// reachable and the backend gave a body, else nothing.
pub open spec fn codec_text(reachable: bool, body: Option<Seq<char>>) -> Seq<char> {
    match body {
        Some(text) => if reachable {
            text + "\n"@
        } else {
            Seq::empty()
        },
        None => Seq::empty(),
    }
}

impl ServiceView {
    /// Whether a struct is emitted for the shape: it is a structure, and its
    /// type name is not the name of the string type.
    pub open spec fn emits_struct(self, name: Seq<char>, shape: ShapeView) -> bool {
        shape.shape_type is Structure && sanitized_name(name) != "String"@
    }

    /// The struct of a shape with its documentation, where one is emitted.
    pub open spec fn struct_part(
        self,
        name: Seq<char>,
        shape: ShapeView,
        answers: TypeAnswers,
    ) -> Seq<char> {
        if self.emits_struct(name, shape) {
            documentation_text(shape.documentation) + self.struct_text(
                sanitized_name(name),
                name,
                shape,
                answers.attributes@,
                answers.for_timestamps@,
            ) + "\n"@
        } else {
            Seq::empty()
        }
    }

    /// The streaming wrapper of a shape, where another shape holds it as a
    /// stream.
    pub open spec fn streaming_part(self, name: Seq<char>) -> Seq<char> {
        if self.is_streamed(name) {
            streaming_wrapper_text(sanitized_name(name)) + "\n"@
        } else {
            Seq::empty()
        }
    }

    /// All that is emitted for one shape: nothing for a shape that models a
    /// service error; else its struct, its streaming wrapper, its
    /// deserializer and its serializer, each where it is called for.
    pub open spec fn shape_text(
        self,
        filter: TypeFilterView,
        name: Seq<char>,
        shape: ShapeView,
        answers: TypeAnswers,
    ) -> Seq<char> {
        if shape.exception {
            Seq::empty()
        } else {
            self.struct_part(name, shape, answers) + self.streaming_part(name) + codec_text(
                filter.deserialized.contains(sanitized_name(name)),
                optional_text(answers.deserializer),
            ) + codec_text(
                filter.serialized.contains(sanitized_name(name)),
                optional_text(answers.serializer),
            )
        }
    }

    /// All that is emitted for the first `upto` shapes, in their order.
    pub open spec fn types_text(
        self,
        filter: TypeFilterView,
        answers: Seq<TypeAnswers>,
        upto: int,
    ) -> Seq<char>
        decreases upto,
    {
        if upto <= 0 {
            Seq::empty()
        } else {
            self.types_text(filter, answers, upto - 1) + self.shape_text(
                filter,
                self.shapes[upto - 1].0,
                self.shapes[upto - 1].1,
                answers[upto - 1],
            )
        }
    }
}

/// What is emitted for the first shapes depends on the answers for those
/// shapes alone.
pub proof fn lemma_types_text_prefix(
    service: ServiceView,
    filter: TypeFilterView,
    answers: Seq<TypeAnswers>,
    more: Seq<TypeAnswers>,
    upto: int,
)
    requires
        upto <= answers.len() <= more.len(),
        forall|i: int| 0 <= i < upto ==> answers[i] == more[i],
    ensures
        service.types_text(filter, answers, upto) == service.types_text(filter, more, upto),
    decreases upto,
{
    if upto > 0 {
        lemma_types_text_prefix(service, filter, answers, more, upto - 1);
    }
}

/// Defines the streaming wrapper for the type called `name`.
pub fn streaming_wrapper(name: &str) -> (r: String)
    ensures
        r@ == streaming_wrapper_text(name@),
{
    let streaming = mutate_type_name_for_streaming(name);
    STREAM_STRUCT_OPEN.to_owned().concat(streaming.as_str()).concat(STREAM_STRUCT_BODY).concat(
        streaming.as_str(),
    ).concat(STREAM_DEBUG_OPEN).concat(name).concat(STREAM_DEBUG_CLOSE).concat(
        streaming.as_str(),
    ).concat(STREAM_DEREF_BODY).concat(streaming.as_str()).concat(STREAM_DEREF_MUT_BODY).concat(
        streaming.as_str(),
    ).concat(STREAM_READ_BODY)
}

/// A codec as it is emitted, from the body that a backend gave.
pub fn codec(reachable: bool, body: &Option<String>) -> (r: String)
    ensures
        r@ == codec_text(reachable, optional_text(*body)),
{
    match body {
        Some(text) => if reachable {
            text.clone().concat("\n")
        } else {
            String::new()
        },
        None => String::new(),
    }
}

/// Emits all that stands for the shape at `at`, with what the protocol
/// backend supplies for it.
pub fn generate_type<P: GenerateProtocol>(
    memo: &Memo,
    service: &Service,
    filter: &TypeFilter,
    at: usize,
    protocol_generator: &P,
) -> (r: String)
    requires
        memo.describes(service@),
        at < service@.shapes.len(),
    ensures
        exists|answers: TypeAnswers|
            #[trigger] type_answered(protocol_generator, service, filter@, at as int, answers)
                && r@ == service@.shape_text(
                filter@,
                service@.shapes[at as int].0,
                service@.shapes[at as int].1,
                answers,
            ),
{
    let name = &service.shapes[at].0;
    let shape = &service.shapes[at].1;
    assert(service@.shapes[at as int] == (name@, shape@));
    let ghost mut attributes: String = arbitrary();
    let ghost mut for_timestamps: &'static str = arbitrary();
    let mut out = String::new();
    // Shapes that model a service error become part of the error types.
    if shape.exception {
        proof {
            let answers = TypeAnswers {
                attributes,
                for_timestamps,
                deserializer: None,
                serializer: None,
            };
            assert(type_answered(protocol_generator, service, filter@, at as int, answers));
        }
        return out;
    }
    let emitted_name = mutate_type_name(name.as_str());
    let deserialized = filter.is_deserialized(emitted_name.as_str());
    let serialized = filter.is_serialized(emitted_name.as_str());
    let is_structure = match &shape.shape_type {
        ShapeType::Structure { members, required } => true,
        _ => false,
    };
    if is_structure && !same_text(emitted_name.as_str(), "String") {
        match &shape.documentation {
            Some(docs) => {
                out.append(DOC_OPEN);
                out.append(docs.as_str());
                out.append("\n");
            },
            None => {},
        }
        assert(out@ =~= documentation_text(shape@.documentation));
        assert(service@.holds(shape@));
        let generated = generate_struct(
            memo,
            service,
            emitted_name.as_str(),
            name.as_str(),
            shape,
            serialized,
            deserialized,
            protocol_generator,
        );
        proof {
            let (given_attributes, given_timestamps) = choose|
                given_attributes: String,
                given_timestamps: &'static str,
            |
                #[trigger] struct_answered(
                    protocol_generator,
                    shape@,
                    serialized,
                    deserialized,
                    given_attributes,
                    given_timestamps,
                ) && generated@ == service@.struct_text(
                    emitted_name@,
                    name@,
                    shape@,
                    given_attributes@,
                    given_timestamps@,
                );
            attributes = given_attributes;
            for_timestamps = given_timestamps;
        }
        out.append(generated.as_str());
        out.append("\n");
    }
    let ghost struct_part = out@;
    if is_streaming_shape(service, name.as_str()) {
        let wrapper = streaming_wrapper(emitted_name.as_str());
        out.append(wrapper.as_str());
        out.append("\n");
    }
    let ghost streaming_part = service@.streaming_part(name@);
    assert(out@ =~= struct_part + streaming_part);
    let asked_name = emitted_name.as_str();
    let deserializer = if deserialized {
        protocol_generator.generate_deserializer(asked_name, shape, service)
    } else {
        None
    };
    out.append(codec(deserialized, &deserializer).as_str());
    let serializer = if serialized {
        protocol_generator.generate_serializer(asked_name, shape, service)
    } else {
        None
    };
    out.append(codec(serialized, &serializer).as_str());
    proof {
        let answers = TypeAnswers { attributes, for_timestamps, deserializer, serializer };
        assert(struct_part =~= service@.struct_part(name@, shape@, answers));
        if deserialized {
            assert(gives_deserializer(
                protocol_generator,
                sanitized_name(name@),
                &service.shapes@[at as int].1,
                service,
                answers.deserializer,
            ));
        }
        if serialized {
            assert(gives_serializer(
                protocol_generator,
                sanitized_name(name@),
                &service.shapes@[at as int].1,
                service,
                answers.serializer,
            ));
        }
        assert(type_answered(protocol_generator, service, filter@, at as int, answers));
        assert(out@ == service@.shape_text(
            filter@,
            service@.shapes[at as int].0,
            service@.shapes[at as int].1,
            answers,
        ));
    }
    out
}

/// Whether `answers` holds, shape by shape, what the backend gave for the
/// shapes of the service.
pub open spec fn types_answered<P: GenerateProtocol>(
    protocol_generator: &P,
    service: &Service,
    filter: TypeFilterView,
    answers: Seq<TypeAnswers>,
) -> bool {
    &&& answers.len() == service@.shapes.len()
    &&& forall|at: int|
        0 <= at < answers.len() ==> type_answered(
            protocol_generator,
            service,
            filter,
            at,
            #[trigger] answers[at],
        )
}

/// Emits the types of a service, shape by shape in the order of the
/// service, with what the protocol backend supplies for each.
pub fn generate_types<P: GenerateProtocol>(
    memo: &Memo,
    service: &Service,
    filter: &TypeFilter,
    protocol_generator: &P,
) -> (r: String)
    requires
        memo.describes(service@),
    ensures
        exists|answers: Seq<TypeAnswers>|
            #[trigger] types_answered(protocol_generator, service, filter@, answers) && r@
                == service@.types_text(filter@, answers, service@.shapes.len() as int),
{
    let mut out = String::new();
    let ghost mut answers: Seq<TypeAnswers> = Seq::empty();
    let mut at: usize = 0;
    while at < service.shapes.len()
        invariant
            at <= service@.shapes.len(),
            memo.describes(service@),
            answers.len() == at,
            forall|j: int|
                0 <= j < at ==> type_answered(
                    protocol_generator,
                    service,
                    filter@,
                    j,
                    #[trigger] answers[j],
                ),
            out@ == service@.types_text(filter@, answers, at as int),
        decreases service@.shapes.len() - at,
    {
        let part = generate_type(memo, service, filter, at, protocol_generator);
        proof {
            let answer = choose|answer: TypeAnswers|
                #[trigger] type_answered(protocol_generator, service, filter@, at as int, answer)
                    && part@ == service@.shape_text(
                    filter@,
                    service@.shapes[at as int].0,
                    service@.shapes[at as int].1,
                    answer,
                );
            lemma_types_text_prefix(service@, filter@, answers, answers.push(answer), at as int);
            answers = answers.push(answer);
        }
        out.append(part.as_str());
        at = at + 1;
    }
    assert(types_answered(protocol_generator, service, filter@, answers));
    out
}

} // verus!
