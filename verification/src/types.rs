//! The type resolver: the type expression that stands for a shape in the
//! emitted module, and whether that type borrows.

use crate::model::{Service, ServiceView, Shape, ShapeType, ShapeTypeView, ShapeView};
use crate::names::{
    mutate_type_name, mutate_type_name_for_streaming, sanitized_name, streaming_name,
};
use crate::ownership::{lemma_name_borrows, Ownership};
use crate::resolve::{get_shape_ownership, Memo};
use vstd::prelude::*;
use vstd::string::*;

verus! {

impl ServiceView {
    /// The type expression for an occurrence of `shape` that is no stream,
    /// followed through at most `depth` nested lists and maps.
    pub open spec fn type_text(
        self,
        shape_name: Seq<char>,
        shape: ShapeView,
        for_timestamps: Seq<char>,
        depth: nat,
    ) -> Seq<char>
        decreases depth,
    {
        match shape.shape_type {
            ShapeTypeView::Blob => "Vec<u8>"@,
            ShapeTypeView::Boolean => "bool"@,
            ShapeTypeView::Double => "f64"@,
            ShapeTypeView::Float => "f32"@,
            ShapeTypeView::Integer => "i64"@,
            ShapeTypeView::Long => "i64"@,
            ShapeTypeView::String => "&'a str"@,
            ShapeTypeView::Timestamp => for_timestamps,
            ShapeTypeView::List { member } => if depth == 0 {
                Seq::empty()
            } else {
                "Vec<"@ + self.type_text(
                    member,
                    self.shape_named(member),
                    for_timestamps,
                    (depth - 1) as nat,
                ) + ">"@
            },
            ShapeTypeView::Mapping { key, value } => if depth == 0 {
                Seq::empty()
            } else {
                "::std::collections::HashMap<"@ + self.type_text(
                    key,
                    self.shape_named(key),
                    for_timestamps,
                    (depth - 1) as nat,
                ) + ", "@ + self.type_text(
                    value,
                    self.shape_named(value),
                    for_timestamps,
                    (depth - 1) as nat,
                ) + ">"@
            },
            ShapeTypeView::Structure { members, required } => sanitized_name(shape_name)
                + if self.borrows(shape) {
                "<'a>"@
            } else {
                ""@
            },
        }
    }

    /// The type expression for an occurrence of `shape` under the name
    /// `shape_name`: the name of the streaming wrapper where the occurrence
    /// is a stream, else the expression that the shape kind calls for.
    pub open spec fn rust_type(
        self,
        shape_name: Seq<char>,
        shape: ShapeView,
        streaming: bool,
        for_timestamps: Seq<char>,
    ) -> Seq<char> {
        if streaming {
            streaming_name(sanitized_name(shape_name))
        } else {
            self.type_text(shape_name, shape, for_timestamps, self.shapes.len())
        }
    }

    /// The ownership of the type for an occurrence of `shape`: a stream
    /// owns, whatever its shape.
    pub open spec fn rust_ownership(self, shape: ShapeView, streaming: bool) -> Ownership {
        if streaming {
            Ownership::Owned
        } else {
            self.ownership(shape)
        }
    }
}

/// Once the depth covers the nesting of a shape, more depth changes nothing.
pub proof fn lemma_type_text_stable(
    service: ServiceView,
    shape_name: Seq<char>,
    shape: ShapeView,
    for_timestamps: Seq<char>,
    depth: nat,
    more: nat,
)
    requires
        service.nests_within(shape, depth),
        depth <= more,
    ensures
        service.type_text(shape_name, shape, for_timestamps, depth) == service.type_text(
            shape_name,
            shape,
            for_timestamps,
            more,
        ),
    decreases depth,
{
    match shape.shape_type {
        ShapeTypeView::List { member } => {
            lemma_type_text_stable(
                service,
                member,
                service.shape_named(member),
                for_timestamps,
                (depth - 1) as nat,
                (more - 1) as nat,
            );
        },
        ShapeTypeView::Mapping { key, value } => {
            lemma_type_text_stable(
                service,
                key,
                service.shape_named(key),
                for_timestamps,
                (depth - 1) as nat,
                (more - 1) as nat,
            );
            lemma_type_text_stable(
                service,
                value,
                service.shape_named(value),
                for_timestamps,
                (depth - 1) as nat,
                (more - 1) as nat,
            );
        },
        _ => {},
    }
}

/// The type of a list wraps the type of its element, and the type of a map
/// associates the type of its key with the type of its value.
pub proof fn lemma_container_types(
    service: ServiceView,
    shape_name: Seq<char>,
    shape: ShapeView,
    for_timestamps: Seq<char>,
)
    requires
        service.well_formed(),
        service.holds(shape),
    ensures
        match shape.shape_type {
            ShapeTypeView::List { member } => service.rust_type(
                shape_name,
                shape,
                false,
                for_timestamps,
            ) == "Vec<"@ + service.rust_type(
                member,
                service.shape_named(member),
                false,
                for_timestamps,
            ) + ">"@,
            ShapeTypeView::Mapping { key, value } => service.rust_type(
                shape_name,
                shape,
                false,
                for_timestamps,
            ) == "::std::collections::HashMap<"@ + service.rust_type(
                key,
                service.shape_named(key),
                false,
                for_timestamps,
            ) + ", "@ + service.rust_type(
                value,
                service.shape_named(value),
                false,
                for_timestamps,
            ) + ">"@,
            _ => true,
        },
{
    let n = service.shapes.len();
    let at = choose|at: int|
        0 <= at < service.shapes.len() && (#[trigger] service.shapes[at]).1 == shape;
    assert(service.nests_within(service.shapes[at].1, n));
    match shape.shape_type {
        ShapeTypeView::List { member } => {
            lemma_type_text_stable(
                service,
                member,
                service.shape_named(member),
                for_timestamps,
                (n - 1) as nat,
                n,
            );
        },
        ShapeTypeView::Mapping { key, value } => {
            lemma_type_text_stable(
                service,
                key,
                service.shape_named(key),
                for_timestamps,
                (n - 1) as nat,
                n,
            );
            lemma_type_text_stable(
                service,
                value,
                service.shape_named(value),
                for_timestamps,
                (n - 1) as nat,
                n,
            );
        },
        _ => {},
    }
}

/// A shape of a service with resolving references is built from shapes of
/// the service.
proof fn lemma_reference_held(service: ServiceView, shape: ShapeView, k: int)
    requires
        service.references_resolve(),
        service.holds(shape),
        0 <= k < shape.references().len(),
    ensures
        service.resolves(shape.references()[k]),
{
    let at = choose|at: int|
        0 <= at < service.shapes.len() && (#[trigger] service.shapes[at]).1 == shape;
    assert(service.resolves_all(service.shapes[at].1.references()));
}

/// The type expression and the ownership for an occurrence of `shape` that
/// is no stream, where the shape nests within `depth`.
fn plain_type(
    memo: &Memo,
    service: &Service,
    shape_name: &str,
    shape: &Shape,
    for_timestamps: &str,
    Ghost(depth): Ghost<nat>,
) -> (r: (String, Ownership))
    requires
        memo.describes(service@),
        service@.holds(shape@),
        service@.nests_within(shape@, depth),
    ensures
        r.0@ == service@.type_text(shape_name@, shape@, for_timestamps@, depth),
        r.1 == service@.ownership(shape@),
    decreases depth,
{
    proof {
        memo.lemma_well_formed(service@);
    }
    match &shape.shape_type {
        ShapeType::Blob => ("Vec<u8>".to_owned(), Ownership::Owned),
        ShapeType::Boolean => ("bool".to_owned(), Ownership::Owned),
        ShapeType::Double => ("f64".to_owned(), Ownership::Owned),
        ShapeType::Float => ("f32".to_owned(), Ownership::Owned),
        ShapeType::Integer => ("i64".to_owned(), Ownership::Owned),
        ShapeType::Long => ("i64".to_owned(), Ownership::Owned),
        ShapeType::String => ("&'a str".to_owned(), Ownership::Borrowed),
        ShapeType::Timestamp => (for_timestamps.to_owned(), Ownership::Owned),
        ShapeType::List { member } => {
            proof {
                assert(shape@.references()[0] == member@);
                lemma_reference_held(service@, shape@, 0);
                lemma_name_borrows(service@, member@);
            }
            let element = service.get_shape(member.as_str()).unwrap();
            let (element_type, ownership) = plain_type(
                memo,
                service,
                member.as_str(),
                element,
                for_timestamps,
                Ghost((depth - 1) as nat),
            );
            let text = "Vec<".to_owned().concat(element_type.as_str()).concat(">");
            (text, ownership)
        },
        ShapeType::Mapping { key, value } => {
            proof {
                assert(shape@.references()[0] == key@);
                assert(shape@.references()[1] == value@);
                lemma_reference_held(service@, shape@, 0);
                lemma_reference_held(service@, shape@, 1);
                lemma_name_borrows(service@, key@);
                lemma_name_borrows(service@, value@);
            }
            let key_shape = service.get_shape(key.as_str()).unwrap();
            let value_shape = service.get_shape(value.as_str()).unwrap();
            let (key_type, key_ownership) = plain_type(
                memo,
                service,
                key.as_str(),
                key_shape,
                for_timestamps,
                Ghost((depth - 1) as nat),
            );
            let (value_type, value_ownership) = plain_type(
                memo,
                service,
                value.as_str(),
                value_shape,
                for_timestamps,
                Ghost((depth - 1) as nat),
            );
            let ownership = match key_ownership {
                Ownership::Borrowed => Ownership::Borrowed,
                Ownership::Owned => value_ownership,
            };
            let text = "::std::collections::HashMap<".to_owned().concat(key_type.as_str()).concat(
                ", ",
            ).concat(value_type.as_str()).concat(">");
            (text, ownership)
        },
        ShapeType::Structure { members, required } => {
            let ownership = get_shape_ownership(memo, service, shape);
            let lifetime = match ownership {
                Ownership::Borrowed => "<'a>",
                Ownership::Owned => "",
            };
            (mutate_type_name(shape_name).concat(lifetime), ownership)
        },
    }
}

/// Resolves an occurrence of a shape to its type expression and its
/// ownership. A stream occurrence gets the streaming wrapper of the name and
/// owns; any other gets what its shape kind calls for: a fixed type for a
/// blob, a boolean and a number, `for_timestamps` for a timestamp, a
/// borrowed slice for a string, the element's type in a `Vec` for a list,
/// the key's and the value's types in a `HashMap` for a map, and the
/// sanitized name for a structure, with a lifetime where it borrows.
pub fn get_rust_type(
    memo: &Memo,
    service: &Service,
    shape_name: &str,
    shape: &Shape,
    streaming: bool,
    for_timestamps: &str,
) -> (r: (String, Ownership))
    requires
        memo.describes(service@),
        service@.holds(shape@),
    ensures
        r.0@ == service@.rust_type(shape_name@, shape@, streaming, for_timestamps@),
        r.1 == service@.rust_ownership(shape@, streaming),
{
    if !streaming {
        proof {
            memo.lemma_well_formed(service@);
            let at = choose|at: int|
                0 <= at < service@.shapes.len() && (#[trigger] service@.shapes[at]).1 == shape@;
            assert(service@.nests_within(service@.shapes[at].1, service@.shapes.len()));
        }
        plain_type(
            memo,
            service,
            shape_name,
            shape,
            for_timestamps,
            Ghost(service@.shapes.len()),
        )
    } else {
        let wrapped = mutate_type_name(shape_name);
        (mutate_type_name_for_streaming(wrapped.as_str()), Ownership::Owned)
    }
}

} // verus!
