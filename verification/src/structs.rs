//! The struct that stands for a structure shape: its fields, one block of
//! lines for each member that is not deprecated, and its definition.

use crate::model::{
    is_input_shape, members_view, MemberView, Service, ServiceView, Shape, ShapeType, ShapeView,
};
use crate::names::{field_name, generate_field_name, lemma_escaped_is_not_reserved, snake_case};
use crate::ownership::{lemma_name_borrows, ownership_of, Ownership};
use crate::protocol::GenerateProtocol;
use crate::resolve::Memo;
use crate::templates::{
    DOC_OPEN, SERDE_BLOB, SERDE_BORROW, SERDE_RENAME_CLOSE, SERDE_RENAME_OPEN, SERDE_SKIP_NONE,
    STRUCT_FIELDS_CLOSE, STRUCT_FIELDS_OPEN, STRUCT_OPEN, UNIT_STRUCT_CLOSE,
};
use crate::text::{contains_text, has_infix, join_lines, joined, same_text, texts};
use crate::types::get_rust_type;
use vstd::prelude::*;
use vstd::string::*;

verus! {

/// The line that declares a field: mandatory where the member is required,
/// optional where it is not. An optional field whose name is the bare word
/// `type` gets a prefix that moves it out of the way.
pub open spec fn field_line(name: Seq<char>, rust_type: Seq<char>, required: bool) -> Seq<char> {
    if required {
        "pub "@ + name + ": "@ + rust_type + ","@
    } else if name == "type"@ {
        "pub aws_"@ + name + ": Option<"@ + rust_type + ">,"@
    } else {
        "pub "@ + name + ": Option<"@ + rust_type + ">,"@
    }
}

/// The lifetime that follows the name of a type that borrows.
pub open spec fn lifetime_of(ownership: Ownership) -> Seq<char> {
    match ownership {
        Ownership::Owned => ""@,
        Ownership::Borrowed => "<'a>"@,
    }
}

/// A struct without fields.
pub open spec fn unit_struct_text(attributes: Seq<char>, name: Seq<char>) -> Seq<char> {
    attributes + STRUCT_OPEN@ + name + UNIT_STRUCT_CLOSE@
}

/// A struct around the text of its fields.
pub open spec fn fields_struct_text(
    attributes: Seq<char>,
    name: Seq<char>,
    ownership: Ownership,
    fields: Seq<char>,
) -> Seq<char> {
    attributes + STRUCT_OPEN@ + name + lifetime_of(ownership) + STRUCT_FIELDS_OPEN@ + fields
        + STRUCT_FIELDS_CLOSE@
}

impl ServiceView {
    /// Whether a member of the structure called `shape_name` is emitted as a
    /// stream: it is marked as streaming, and no operation takes the
    /// structure as its input.
    pub open spec fn streams_member(self, shape_name: Seq<char>, member: MemberView) -> bool {
        member.streaming && !self.is_input(shape_name)
    }

    /// The type expression of a member's field.
    pub open spec fn member_type(
        self,
        shape_name: Seq<char>,
        member: MemberView,
        for_timestamps: Seq<char>,
    ) -> Seq<char> {
        self.rust_type(
            member.shape,
            self.shape_named(member.shape),
            self.streams_member(shape_name, member),
            for_timestamps,
        )
    }

    /// The ownership of a member's field.
    pub open spec fn member_ownership(
        self,
        shape_name: Seq<char>,
        member: MemberView,
    ) -> Ownership {
        self.rust_ownership(
            self.shape_named(member.shape),
            self.streams_member(shape_name, member),
        )
    }

    /// The attribute lines of a field of a struct that is serialized or
    /// deserialized: the schema name of the member; the blob codec for a
    /// blob, or else the omission of an absent value for a member that is
    /// not required; and the leave to borrow for a string.
    pub open spec fn serde_lines(
        self,
        shape: ShapeView,
        member_name: Seq<char>,
        member: MemberView,
    ) -> Seq<Seq<char>> {
        let kind = self.shape_named(member.shape).shape_type;
        seq![SERDE_RENAME_OPEN@ + member_name + SERDE_RENAME_CLOSE@] + (if kind is Blob {
            seq![SERDE_BLOB@]
        } else if !shape.requires_member(member_name) {
            seq![SERDE_SKIP_NONE@]
        } else {
            Seq::empty()
        }) + (if kind is String {
            seq![SERDE_BORROW@]
        } else {
            Seq::empty()
        })
    }

    /// The lines of the member at `k`: its documentation, its attributes,
    /// and the declaration of its field.
    pub open spec fn member_lines(
        self,
        shape_name: Seq<char>,
        shape: ShapeView,
        k: int,
        serde_attrs: bool,
        for_timestamps: Seq<char>,
    ) -> Seq<Seq<char>> {
        let member_name = shape.members()[k].0;
        let member = shape.members()[k].1;
        (match member.documentation {
            Some(docs) => seq![DOC_OPEN@ + docs],
            None => Seq::empty(),
        }) + (if serde_attrs {
            self.serde_lines(shape, member_name, member)
        } else {
            Seq::empty()
        }) + seq![
            field_line(
                field_name(member_name),
                self.member_type(shape_name, member, for_timestamps),
                shape.requires_member(member_name),
            ),
        ]
    }

    /// The blocks of the first `upto` members: one for each member that is
    /// not deprecated, in order.
    pub open spec fn field_blocks(
        self,
        shape_name: Seq<char>,
        shape: ShapeView,
        serde_attrs: bool,
        for_timestamps: Seq<char>,
        upto: int,
    ) -> Seq<Seq<char>>
        decreases upto,
    {
        if upto <= 0 {
            Seq::empty()
        } else {
            let before = self.field_blocks(
                shape_name,
                shape,
                serde_attrs,
                for_timestamps,
                upto - 1,
            );
            if shape.members()[upto - 1].1.deprecated {
                before
            } else {
                before.push(
                    joined(
                        self.member_lines(shape_name, shape, upto - 1, serde_attrs, for_timestamps),
                    ),
                )
            }
        }
    }

    /// The text of the fields of a structure.
    pub open spec fn fields_text(
        self,
        shape_name: Seq<char>,
        shape: ShapeView,
        serde_attrs: bool,
        for_timestamps: Seq<char>,
    ) -> Seq<char> {
        joined(
            self.field_blocks(
                shape_name,
                shape,
                serde_attrs,
                for_timestamps,
                shape.members().len() as int,
            ),
        )
    }

    /// Whether one of the first `upto` members has a field that borrows.
    pub open spec fn fields_borrow_upto(
        self,
        shape_name: Seq<char>,
        shape: ShapeView,
        upto: int,
    ) -> bool {
        exists|k: int|
            0 <= k < upto && !(#[trigger] shape.members()[k]).1.deprecated
                && self.member_ownership(shape_name, shape.members()[k].1) == Ownership::Borrowed
    }

    /// Whether the struct of a structure has a field that borrows, and so
    /// carries a lifetime.
    pub open spec fn fields_borrow(self, shape_name: Seq<char>, shape: ShapeView) -> bool {
        self.fields_borrow_upto(shape_name, shape, shape.members().len() as int)
    }

    /// The definition of the struct called `name` for the structure `shape`
    /// that the schema calls `shape_name`: a unit struct where no member is
    /// left to emit, else a struct with its fields, and with a lifetime where
    /// a field borrows. The fields carry their attributes where the struct's
    /// own attributes derive a codec.
    pub open spec fn struct_text(
        self,
        name: Seq<char>,
        shape_name: Seq<char>,
        shape: ShapeView,
        attributes: Seq<char>,
        for_timestamps: Seq<char>,
    ) -> Seq<char> {
        if !shape.emits_fields() {
            unit_struct_text(attributes, name)
        } else {
            fields_struct_text(
                attributes,
                name,
                ownership_of(self.fields_borrow(shape_name, shape)),
                self.fields_text(
                    shape_name,
                    shape,
                    has_infix(attributes, "erialize"@),
                    for_timestamps,
                ),
            )
        }
    }
}

/// The field of a member never takes the prefix: its name has the reserved
/// word escaped already, so a member that is not required is declared under
/// its own field name.
pub proof fn lemma_member_field_line(member_name: Seq<char>, rust_type: Seq<char>)
    ensures
        field_line(field_name(member_name), rust_type, false) == "pub "@ + field_name(member_name)
            + ": Option<"@ + rust_type + ">,"@,
{
    lemma_escaped_is_not_reserved(snake_case(member_name));
}

/// A structure with no member left to emit gets a unit struct, whatever the
/// backend answers for its fields.
pub proof fn lemma_empty_structure_is_unit(
    service: ServiceView,
    name: Seq<char>,
    shape_name: Seq<char>,
    shape: ShapeView,
    attributes: Seq<char>,
    for_timestamps: Seq<char>,
)
    requires
        forall|k: int|
            0 <= k < shape.members().len() ==> (#[trigger] shape.members()[k]).1.deprecated,
    ensures
        service.struct_text(name, shape_name, shape, attributes, for_timestamps)
            == unit_struct_text(attributes, name),
{
}

/// A struct carries a lifetime only where its shape borrows. Where every
/// member whose shape borrows is emitted, and not as a stream, it carries one
/// exactly where its shape borrows.
pub proof fn lemma_struct_lifetime(service: ServiceView, shape_name: Seq<char>, shape: ShapeView)
    requires
        service.references_resolve(),
        service.holds(shape),
        shape.shape_type is Structure,
    ensures
        service.fields_borrow(shape_name, shape) ==> service.borrows(shape),
        (forall|k: int|
            0 <= k < shape.members().len() && service.name_borrows(
                (#[trigger] shape.members()[k]).1.shape,
            ) ==> !shape.members()[k].1.deprecated && !service.streams_member(
                shape_name,
                shape.members()[k].1,
            )) ==> service.fields_borrow(shape_name, shape) == service.borrows(shape),
{
    let members = shape.members();
    let refs = shape.references();
    let at = choose|at: int|
        0 <= at < service.shapes.len() && (#[trigger] service.shapes[at]).1 == shape;
    assert(service.resolves_all(service.shapes[at].1.references()));
    assert forall|k: int| 0 <= k < members.len() implies service.name_borrows(
        (#[trigger] members[k]).1.shape,
    ) == service.borrows(service.shape_named(members[k].1.shape)) by {
        assert(refs[k] == members[k].1.shape);
        assert(service.resolves(refs[k]));
        lemma_name_borrows(service, members[k].1.shape);
    }
    if service.fields_borrow(shape_name, shape) {
        let k = choose|k: int|
            0 <= k < members.len() && !(#[trigger] members[k]).1.deprecated
                && service.member_ownership(shape_name, members[k].1) == Ownership::Borrowed;
        assert(refs[k] == members[k].1.shape);
        assert(service.name_borrows(refs[k]));
    }
    if service.borrows(shape) && (forall|k: int|
        0 <= k < members.len() && service.name_borrows((#[trigger] members[k]).1.shape)
            ==> !members[k].1.deprecated && !service.streams_member(shape_name, members[k].1)) {
        let k = choose|k: int| 0 <= k < refs.len() && service.name_borrows(#[trigger] refs[k]);
        assert(refs[k] == members[k].1.shape);
        assert(service.name_borrows(members[k].1.shape));
        assert(!members[k].1.deprecated);
        assert(service.member_ownership(shape_name, members[k].1) == Ownership::Borrowed);
    }
}

/// Declares a field.
pub fn field_declaration(name: &str, rust_type: &str, required: bool) -> (r: String)
    ensures
        r@ == field_line(name@, rust_type@, required),
{
    if required {
        "pub ".to_owned().concat(name).concat(": ").concat(rust_type).concat(",")
    } else if same_text(name, "type") {
        "pub aws_".to_owned().concat(name).concat(": Option<").concat(rust_type).concat(">,")
    } else {
        "pub ".to_owned().concat(name).concat(": Option<").concat(rust_type).concat(">,")
    }
}

/// Defines a struct without fields.
pub fn unit_struct(attributes: &str, name: &str) -> (r: String)
    ensures
        r@ == unit_struct_text(attributes@, name@),
{
    attributes.to_owned().concat(STRUCT_OPEN).concat(name).concat(UNIT_STRUCT_CLOSE)
}

/// Defines a struct around the text of its fields.
pub fn fields_struct(attributes: &str, name: &str, ownership: Ownership, fields: &str) -> (r:
    String)
    ensures
        r@ == fields_struct_text(attributes@, name@, ownership, fields@),
{
    let lifetime = match ownership {
        Ownership::Owned => "",
        Ownership::Borrowed => "<'a>",
    };
    attributes.to_owned().concat(STRUCT_OPEN).concat(name).concat(lifetime).concat(
        STRUCT_FIELDS_OPEN,
    ).concat(fields).concat(STRUCT_FIELDS_CLOSE)
}

/// The block of lines for the member at `k` of a structure, and the
/// ownership of its field.
fn member_block(
    memo: &Memo,
    service: &Service,
    shape: &Shape,
    shape_name: &str,
    k: usize,
    is_input: bool,
    serde_attrs: bool,
    for_timestamps: &str,
) -> (r: (String, Ownership))
    requires
        memo.describes(service@),
        service@.holds(shape@),
        k < shape@.members().len(),
        is_input == service@.is_input(shape_name@),
    ensures
        r.0@ == joined(
            service@.member_lines(shape_name@, shape@, k as int, serde_attrs, for_timestamps@),
        ),
        r.1 == service@.member_ownership(shape_name@, shape@.members()[k as int].1),
{
    match &shape.shape_type {
        ShapeType::Structure { members, required } => {
            let member_name = &members[k].0;
            let member = &members[k].1;
            proof {
                memo.lemma_well_formed(service@);
                let at = choose|at: int|
                    0 <= at < service@.shapes.len() && (#[trigger] service@.shapes[at]).1
                        == shape@;
                assert(service@.resolves_all(service@.shapes[at].1.references()));
                assert(shape@.references()[k as int] == member@.shape);
                assert(service@.resolves(member@.shape));
                assert(shape@.members()[k as int] == (member_name@, member@));
            }
            let member_shape = service.get_shape(member.shape.as_str()).unwrap();
            let is_required = shape.required(member_name.as_str());
            let mut lines: Vec<String> = Vec::new();
            match &member.documentation {
                Some(docs) => {
                    lines.push(DOC_OPEN.to_owned().concat(docs.as_str()));
                },
                None => {},
            }
            if serde_attrs {
                lines.push(
                    SERDE_RENAME_OPEN.to_owned().concat(member_name.as_str()).concat(
                        SERDE_RENAME_CLOSE,
                    ),
                );
                match &member_shape.shape_type {
                    ShapeType::Blob => {
                        lines.push(SERDE_BLOB.to_owned());
                    },
                    _ => {
                        if !is_required {
                            lines.push(SERDE_SKIP_NONE.to_owned());
                        }
                    },
                }
                match &member_shape.shape_type {
                    ShapeType::String => {
                        lines.push(SERDE_BORROW.to_owned());
                    },
                    _ => {},
                }
            }
            let (rust_type, ownership) = get_rust_type(
                memo,
                service,
                member.shape.as_str(),
                member_shape,
                member.streaming && !is_input,
                for_timestamps,
            );
            let name = generate_field_name(member_name.as_str());
            lines.push(field_declaration(name.as_str(), rust_type.as_str(), is_required));
            proof {
                assert(texts(lines@) =~= service@.member_lines(
                    shape_name@,
                    shape@,
                    k as int,
                    serde_attrs,
                    for_timestamps@,
                ));
            }
            (join_lines(&lines), ownership)
        },
        _ => (String::new(), Ownership::Owned),
    }
}

/// The text of the fields of a structure and the ownership of its struct:
/// `Borrowed` where a field borrows. Deprecated members are passed over.
pub fn struct_fields(
    memo: &Memo,
    service: &Service,
    shape: &Shape,
    shape_name: &str,
    serde_attrs: bool,
    for_timestamps: &str,
) -> (r: (String, Ownership))
    requires
        memo.describes(service@),
        service@.holds(shape@),
    ensures
        r.0@ == service@.fields_text(shape_name@, shape@, serde_attrs, for_timestamps@),
        r.1 == ownership_of(service@.fields_borrow(shape_name@, shape@)),
{
    let is_input = is_input_shape(service, shape_name);
    let mut ownership = Ownership::Owned;
    let mut blocks: Vec<String> = Vec::new();
    match &shape.shape_type {
        ShapeType::Structure { members, required } => {
            let mut k: usize = 0;
            while k < members.len()
                invariant
                    k <= members@.len(),
                    memo.describes(service@),
                    service@.holds(shape@),
                    shape@.members() == members_view(members@),
                    is_input == service@.is_input(shape_name@),
                    texts(blocks@) == service@.field_blocks(
                        shape_name@,
                        shape@,
                        serde_attrs,
                        for_timestamps@,
                        k as int,
                    ),
                    ownership == ownership_of(
                        service@.fields_borrow_upto(shape_name@, shape@, k as int),
                    ),
                decreases members@.len() - k,
            {
                let ghost before = texts(blocks@);
                if !members[k].1.deprecated {
                    let (block, field_ownership) = member_block(
                        memo,
                        service,
                        shape,
                        shape_name,
                        k,
                        is_input,
                        serde_attrs,
                        for_timestamps,
                    );
                    blocks.push(block);
                    proof {
                        assert(texts(blocks@) =~= before.push(block@));
                    }
                    match field_ownership {
                        Ownership::Borrowed => {
                            ownership = Ownership::Borrowed;
                        },
                        Ownership::Owned => {},
                    }
                }
                proof {
                    assert(shape@.members()[k as int].1.deprecated
                        == members@[k as int].1.deprecated);
                    if service@.fields_borrow_upto(shape_name@, shape@, k + 1) {
                        let j = choose|j: int|
                            0 <= j < k + 1 && !(#[trigger] shape@.members()[j]).1.deprecated
                                && service@.member_ownership(shape_name@, shape@.members()[j].1)
                                == Ownership::Borrowed;
                        if j < k {
                            assert(service@.fields_borrow_upto(shape_name@, shape@, k as int));
                        }
                    }
                    if service@.fields_borrow_upto(shape_name@, shape@, k as int) {
                        let j = choose|j: int|
                            0 <= j < k && !(#[trigger] shape@.members()[j]).1.deprecated
                                && service@.member_ownership(shape_name@, shape@.members()[j].1)
                                == Ownership::Borrowed;
                        assert(service@.fields_borrow_upto(shape_name@, shape@, k + 1));
                    }
                }
                k = k + 1;
            }
        },
        _ => {},
    }
    (join_lines(&blocks), ownership)
}

/// The text of the fields of a structure, with the timestamp type that the
/// protocol backend names, and the ownership of its struct.
pub fn generate_struct_fields<P: GenerateProtocol>(
    memo: &Memo,
    service: &Service,
    shape: &Shape,
    shape_name: &str,
    serde_attrs: bool,
    protocol_generator: &P,
) -> (r: (String, Ownership))
    requires
        memo.describes(service@),
        service@.holds(shape@),
    ensures
        exists|for_timestamps: &'static str|
            call_ensures(P::timestamp_type, (protocol_generator,), for_timestamps) && r.0@
                == #[trigger] service@.fields_text(
                shape_name@,
                shape@,
                serde_attrs,
                for_timestamps@,
            ),
        r.1 == ownership_of(service@.fields_borrow(shape_name@, shape@)),
{
    let for_timestamps = protocol_generator.timestamp_type();
    let r = struct_fields(memo, service, shape, shape_name, serde_attrs, for_timestamps);
    assert(r.0@ == service@.fields_text(shape_name@, shape@, serde_attrs, for_timestamps@));
    r
}

/// Whether `attributes` is what the backend gives as the attributes of a
/// struct with this reachability, and `for_timestamps`, where the struct of
/// `shape` has fields, what it names as the type for timestamps.
pub open spec fn struct_answered<P: GenerateProtocol>(
    protocol_generator: &P,
    shape: ShapeView,
    serialized: bool,
    deserialized: bool,
    attributes: String,
    for_timestamps: &'static str,
) -> bool {
    &&& call_ensures(
        P::generate_struct_attributes,
        (protocol_generator, serialized, deserialized),
        attributes,
    )
    &&& shape.emits_fields() ==> call_ensures(
        P::timestamp_type,
        (protocol_generator,),
        for_timestamps,
    )
}

/// The definition of the struct called `name` for a structure. The backend
/// is asked for the attributes of a struct with the given reachability and,
/// where the struct has fields, for the type of timestamps.
pub fn generate_struct<P: GenerateProtocol>(
    memo: &Memo,
    service: &Service,
    name: &str,
    shape_name: &str,
    shape: &Shape,
    serialized: bool,
    deserialized: bool,
    protocol_generator: &P,
) -> (r: String)
    requires
        memo.describes(service@),
        service@.holds(shape@),
    ensures
        exists|attributes: String, for_timestamps: &'static str|
            #[trigger] struct_answered(
                protocol_generator,
                shape@,
                serialized,
                deserialized,
                attributes,
                for_timestamps,
            ) && r@ == service@.struct_text(
                name@,
                shape_name@,
                shape@,
                attributes@,
                for_timestamps@,
            ),
{
    let attributes = protocol_generator.generate_struct_attributes(serialized, deserialized);
    if !shape.has_fields() {
        let r = unit_struct(attributes.as_str(), name);
        assert(struct_answered(
            protocol_generator,
            shape@,
            serialized,
            deserialized,
            attributes,
            "",
        ));
        r
    } else {
        // The attributes of the fields are needed only where the struct
        // derives a codec.
        let need_serde_attrs = contains_text(attributes.as_str(), "erialize");
        let (fields, ownership) = generate_struct_fields(
            memo,
            service,
            shape,
            shape_name,
            need_serde_attrs,
            protocol_generator,
        );
        let r = fields_struct(attributes.as_str(), name, ownership, fields.as_str());
        proof {
            let for_timestamps = choose|for_timestamps: &'static str|
                call_ensures(P::timestamp_type, (protocol_generator,), for_timestamps) && fields@
                    == #[trigger] service@.fields_text(
                    shape_name@,
                    shape@,
                    need_serde_attrs,
                    for_timestamps@,
                );
            assert(struct_answered(
                protocol_generator,
                shape@,
                serialized,
                deserialized,
                attributes,
                for_timestamps,
            ));
        }
        r
    }
}

} // verus!
