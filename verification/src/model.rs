//! The shape graph: a service, its shapes, their members and its operations,
//! each with the mathematical value that the contracts speak of.

use crate::text::{has_text, optional_text, slice_of, texts};
use vstd::prelude::*;
use vstd::string::*;

verus! {

/// A named occurrence of a shape inside a structure.
#[derive(Clone, Debug)]
pub struct Member {
    /// The name of the shape that the member holds.
    pub shape: String,
    /// Deprecated members are left out of the emitted type.
    pub deprecated: bool,
    /// Marks a field that carries the payload as a stream.
    pub streaming: bool,
    pub documentation: Option<String>,
}

/// What a `Member` stands for.
pub struct MemberView {
    pub shape: Seq<char>,
    pub deprecated: bool,
    pub streaming: bool,
    pub documentation: Option<Seq<char>>,
}

impl View for Member {
    type V = MemberView;

    open spec fn view(&self) -> MemberView {
        MemberView {
            shape: self.shape@,
            deprecated: self.deprecated,
            streaming: self.streaming,
            documentation: optional_text(self.documentation),
        }
    }
}

/// The members of a structure, by name and in order.
pub open spec fn members_view(members: Seq<(String, Member)>) -> Seq<(Seq<char>, MemberView)> {
    members.map_values(|m: (String, Member)| (m.0@, m.1@))
}

/// The kind of a shape, with the shapes it is built from.
#[derive(Clone, Debug)]
pub enum ShapeType {
    Blob,
    Boolean,
    Double,
    Float,
    Integer,
    Long,
    String,
    Timestamp,
    /// A list of the shape named `member`.
    List { member: String },
    /// An association from the shape named `key` to the shape named `value`.
    Mapping { key: String, value: String },
    /// Named members in order, and the names of those that are required.
    Structure { members: Vec<(String, Member)>, required: Vec<String> },
}

/// What a `ShapeType` stands for.
pub enum ShapeTypeView {
    Blob,
    Boolean,
    Double,
    Float,
    Integer,
    Long,
    String,
    Timestamp,
    List { member: Seq<char> },
    Mapping { key: Seq<char>, value: Seq<char> },
    Structure { members: Seq<(Seq<char>, MemberView)>, required: Seq<Seq<char>> },
}

impl View for ShapeType {
    type V = ShapeTypeView;

    open spec fn view(&self) -> ShapeTypeView {
        match *self {
            ShapeType::Blob => ShapeTypeView::Blob,
            ShapeType::Boolean => ShapeTypeView::Boolean,
            ShapeType::Double => ShapeTypeView::Double,
            ShapeType::Float => ShapeTypeView::Float,
            ShapeType::Integer => ShapeTypeView::Integer,
            ShapeType::Long => ShapeTypeView::Long,
            ShapeType::String => ShapeTypeView::String,
            ShapeType::Timestamp => ShapeTypeView::Timestamp,
            ShapeType::List { member } => ShapeTypeView::List { member: member@ },
            ShapeType::Mapping { key, value } => ShapeTypeView::Mapping {
                key: key@,
                value: value@,
            },
            ShapeType::Structure { members, required } => ShapeTypeView::Structure {
                members: members_view(members@),
                required: texts(required@),
            },
        }
    }
}

/// One type definition of the schema.
#[derive(Clone, Debug)]
pub struct Shape {
    pub shape_type: ShapeType,
    pub documentation: Option<String>,
    /// Shapes that model a service error are not emitted as ordinary types.
    pub exception: bool,
}

/// What a `Shape` stands for.
pub struct ShapeView {
    pub shape_type: ShapeTypeView,
    pub documentation: Option<Seq<char>>,
    pub exception: bool,
}

impl View for Shape {
    type V = ShapeView;

    open spec fn view(&self) -> ShapeView {
        ShapeView {
            shape_type: self.shape_type@,
            documentation: optional_text(self.documentation),
            exception: self.exception,
        }
    }
}

impl ShapeView {
    /// The names of the shapes that this shape is built from, in order: the
    /// element of a list, the key and the value of a map, the shape of each
    /// member of a structure.
    pub open spec fn references(self) -> Seq<Seq<char>> {
        match self.shape_type {
            ShapeTypeView::List { member } => seq![member],
            ShapeTypeView::Mapping { key, value } => seq![key, value],
            ShapeTypeView::Structure { members, required } => members.map_values(
                |m: (Seq<char>, MemberView)| m.1.shape,
            ),
            _ => Seq::empty(),
        }
    }

    /// The members of a structure; no members for any other shape.
    pub open spec fn members(self) -> Seq<(Seq<char>, MemberView)> {
        match self.shape_type {
            ShapeTypeView::Structure { members, required } => members,
            _ => Seq::empty(),
        }
    }

    /// Whether a structure lists the member name as required.
    pub open spec fn requires_member(self, member_name: Seq<char>) -> bool {
        match self.shape_type {
            ShapeTypeView::Structure { members, required } => required.contains(member_name),
            _ => false,
        }
    }

    /// Whether a structure has a member that is not deprecated, and so has
    /// fields to emit.
    pub open spec fn emits_fields(self) -> bool {
        exists|k: int| 0 <= k < self.members().len() && !(#[trigger] self.members()[k]).1.deprecated
    }

    /// Whether this is a structure with a streaming member that holds the
    /// shape called `name`.
    pub open spec fn streams(self, name: Seq<char>) -> bool {
        exists|k: int|
            0 <= k < self.members().len() && (#[trigger] self.members()[k]).1.shape == name
                && self.members()[k].1.streaming
    }
}

/// One remote procedure, by the names of the shapes it takes and gives.
#[derive(Clone, Debug)]
pub struct Operation {
    pub input: Option<String>,
    pub output: Option<String>,
}

/// What an `Operation` stands for.
pub struct OperationView {
    pub input: Option<Seq<char>>,
    pub output: Option<Seq<char>>,
}

impl View for Operation {
    type V = OperationView;

    open spec fn view(&self) -> OperationView {
        OperationView { input: optional_text(self.input), output: optional_text(self.output) }
    }
}

/// The root of one schema: named shapes and named operations, in the order
/// in which they are emitted. A name stands for the first entry that has it.
#[derive(Clone, Debug)]
pub struct Service {
    pub name: String,
    pub protocol: String,
    pub shapes: Vec<(String, Shape)>,
    pub operations: Vec<(String, Operation)>,
}

/// What a `Service` stands for.
pub struct ServiceView {
    pub name: Seq<char>,
    pub protocol: Seq<char>,
    pub shapes: Seq<(Seq<char>, ShapeView)>,
    pub operations: Seq<(Seq<char>, OperationView)>,
}

impl View for Service {
    type V = ServiceView;

    open spec fn view(&self) -> ServiceView {
        ServiceView {
            name: self.name@,
            protocol: self.protocol@,
            shapes: self.shapes@.map_values(|s: (String, Shape)| (s.0@, s.1@)),
            operations: self.operations@.map_values(|o: (String, Operation)| (o.0@, o.1@)),
        }
    }
}

/// Whether a character can stand in the name of a type: a letter or a digit
/// of ASCII.
pub open spec fn is_name_char(c: char) -> bool {
    ('a' <= c && c <= 'z') || ('A' <= c && c <= 'Z') || ('0' <= c && c <= '9')
}

impl ServiceView {
    /// The name of the capability interface: the letters and digits of the
    /// service's declared name.
    pub open spec fn interface_name(self) -> Seq<char> {
        self.name.filter(|c: char| is_name_char(c))
    }

    /// The name of the client type: the interface name and `Client`.
    pub open spec fn client_name(self) -> Seq<char> {
        self.interface_name() + "Client"@
    }

    /// Whether the entry at `at` is the first one called `name`.
    pub open spec fn first_at(self, name: Seq<char>, at: int) -> bool {
        &&& 0 <= at < self.shapes.len()
        &&& self.shapes[at].0 == name
        &&& forall|j: int| 0 <= j < at ==> (#[trigger] self.shapes[j]).0 != name
    }

    /// Whether some shape is called `name`.
    pub open spec fn resolves(self, name: Seq<char>) -> bool {
        exists|at: int| self.first_at(name, at)
    }

    /// The place of the shape that `name` stands for.
    pub open spec fn index_of(self, name: Seq<char>) -> int {
        choose|at: int| self.first_at(name, at)
    }

    /// The shape that `name` stands for.
    pub open spec fn shape_named(self, name: Seq<char>) -> ShapeView {
        self.shapes[self.index_of(name)].1
    }

    /// Whether the shape is one of the service's own.
    pub open spec fn holds(self, shape: ShapeView) -> bool {
        exists|at: int| 0 <= at < self.shapes.len() && (#[trigger] self.shapes[at]).1 == shape
    }

    /// Whether every name in `names` stands for a shape.
    pub open spec fn resolves_all(self, names: Seq<Seq<char>>) -> bool {
        forall|k: int| 0 <= k < names.len() ==> self.resolves(#[trigger] names[k])
    }

    /// Every shape that a list, a map or a member refers to is present.
    pub open spec fn references_resolve(self) -> bool {
        forall|at: int|
            0 <= at < self.shapes.len() ==> self.resolves_all(
                (#[trigger] self.shapes[at]).1.references(),
            )
    }

    /// Whether some operation takes the shape called `name` as its input.
    pub open spec fn is_input(self, name: Seq<char>) -> bool {
        exists|k: int|
            0 <= k < self.operations.len() && (#[trigger] self.operations[k]).1.input == Some(
                name,
            )
    }

    /// Whether some other shape has a streaming member that holds the shape
    /// called `name`.
    pub open spec fn is_streamed(self, name: Seq<char>) -> bool {
        exists|at: int|
            0 <= at < self.shapes.len() && (#[trigger] self.shapes[at]).0 != name
                && self.shapes[at].1.streams(name)
    }
}

/// At most one place is the first with a given name.
pub proof fn lemma_first_at_unique(service: ServiceView, name: Seq<char>, a: int, b: int)
    requires
        service.first_at(name, a),
        service.first_at(name, b),
    ensures
        a == b,
{
    if a < b {
        assert(service.shapes[a].0 != name);
    } else if b < a {
        assert(service.shapes[b].0 != name);
    }
}

/// The first place with a name is the place that the name stands for.
pub proof fn lemma_index_of(service: ServiceView, name: Seq<char>, at: int)
    requires
        service.first_at(name, at),
    ensures
        service.resolves(name),
        service.index_of(name) == at,
{
    lemma_first_at_unique(service, name, at, service.index_of(name));
}

/// A name that resolves stands for a place inside the service.
pub proof fn lemma_resolved_in_range(service: ServiceView, name: Seq<char>)
    requires
        service.resolves(name),
    ensures
        service.first_at(name, service.index_of(name)),
        0 <= service.index_of(name) < service.shapes.len(),
        service.holds(service.shape_named(name)),
{
}

impl Shape {
    /// Whether a structure lists the member name as required.
    pub fn required(&self, member_name: &str) -> (r: bool)
        ensures
            r == self@.requires_member(member_name@),
    {
        match &self.shape_type {
            ShapeType::Structure { members, required } => has_text(required, member_name),
            _ => false,
        }
    }

    /// Whether a structure has a member that is not deprecated.
    pub fn has_fields(&self) -> (r: bool)
        ensures
            r == self@.emits_fields(),
    {
        match &self.shape_type {
            ShapeType::Structure { members, required } => {
                let mut k: usize = 0;
                while k < members.len()
                    invariant
                        k <= members@.len(),
                        self@.members() == members_view(members@),
                        forall|j: int| 0 <= j < k ==> (#[trigger] self@.members()[j]).1.deprecated,
                    decreases members@.len() - k,
                {
                    if !members[k].1.deprecated {
                        assert(!self@.members()[k as int].1.deprecated);
                        return true;
                    }
                    k = k + 1;
                }
                false
            },
            _ => false,
        }
    }
}

impl Service {
    /// The declared name of the service.
    pub fn name(&self) -> (r: &str)
        ensures
            r@ == self@.name,
    {
        self.name.as_str()
    }

    /// The protocol tag of the service.
    pub fn protocol(&self) -> (r: &str)
        ensures
            r@ == self@.protocol,
    {
        self.protocol.as_str()
    }

    /// The name of the capability interface of the service.
    pub fn service_type_name(&self) -> (r: String)
        ensures
            r@ == self@.interface_name(),
    {
        let name = self.name.as_str();
        let n = name.unicode_len();
        let mut out = String::new();
        let mut i: usize = 0;
        while i < n
            invariant
                n == name@.len(),
                i <= n,
                out@ == name@.take(i as int).filter(|c: char| is_name_char(c)),
            decreases n - i,
        {
            let c = name.get_char(i);
            proof {
                let before = name@.take(i as int);
                assert(name@.take(i + 1) == before.push(name@[i as int]));
                Seq::lemma_filter_push(before, name@[i as int], |c: char| is_name_char(c));
            }
            if (c >= 'a' && c <= 'z') || (c >= 'A' && c <= 'Z') || (c >= '0' && c <= '9') {
                let piece = slice_of(name, i, i + 1);
                proof {
                    assert(name@.subrange(i as int, i + 1) == seq![name@[i as int]]);
                    assert(out@ + seq![name@[i as int]] == out@.push(name@[i as int]));
                }
                out.append(piece.as_str());
            }
            i = i + 1;
        }
        proof {
            assert(name@.take(n as int) == name@);
            assert(Seq::<char>::empty().filter(|c: char| is_name_char(c)) == Seq::<char>::empty())
                by {
                reveal(Seq::filter);
            }
        }
        out
    }

    /// The name of the client type of the service.
    pub fn client_type_name(&self) -> (r: String)
        ensures
            r@ == self@.client_name(),
    {
        self.service_type_name().concat("Client")
    }

    /// Finds the place of the first shape called `name`.
    pub fn find_shape(&self, name: &str) -> (found: Option<usize>)
        ensures
            match found {
                Some(at) => self@.first_at(name@, at as int),
                None => !self@.resolves(name@),
            },
    {
        let key = name.to_owned();
        let mut i: usize = 0;
        while i < self.shapes.len()
            invariant
                i <= self.shapes@.len(),
                key@ == name@,
                forall|j: int| 0 <= j < i ==> (#[trigger] self@.shapes[j]).0 != name@,
            decreases self.shapes@.len() - i,
        {
            if self.shapes[i].0 == key {
                return Some(i);
            }
            i = i + 1;
        }
        None
    }

    /// Looks a shape up by name.
    pub fn get_shape(&self, name: &str) -> (found: Option<&Shape>)
        ensures
            found is Some == self@.resolves(name@),
            found matches Some(shape) ==> shape@ == self@.shape_named(name@) && self@.holds(
                shape@,
            ),
    {
        match self.find_shape(name) {
            Some(at) => {
                proof {
                    lemma_index_of(self@, name@, at as int);
                }
                Some(&self.shapes[at].1)
            },
            None => None,
        }
    }
}

/// Whether `shape` is a structure with a streaming member that holds the
/// shape called `name`.
pub fn has_streaming_member(name: &str, shape: &Shape) -> (r: bool)
    ensures
        r == shape@.streams(name@),
{
    match &shape.shape_type {
        ShapeType::Structure { members, required } => {
            let key = name.to_owned();
            let mut k: usize = 0;
            while k < members.len()
                invariant
                    k <= members@.len(),
                    key@ == name@,
                    shape@.members() == members_view(members@),
                    forall|j: int|
                        0 <= j < k ==> !((#[trigger] shape@.members()[j]).1.shape == name@
                            && shape@.members()[j].1.streaming),
                decreases members@.len() - k,
            {
                if members[k].1.shape == key && members[k].1.streaming {
                    assert(shape@.members()[k as int].1.shape == name@);
                    return true;
                }
                k = k + 1;
            }
            false
        },
        _ => false,
    }
}

/// Whether some other shape of the service has a streaming member that holds
/// the shape called `name`.
pub fn is_streaming_shape(service: &Service, name: &str) -> (r: bool)
    ensures
        r == service@.is_streamed(name@),
{
    let key = name.to_owned();
    let mut i: usize = 0;
    while i < service.shapes.len()
        invariant
            i <= service.shapes@.len(),
            key@ == name@,
            forall|j: int|
                0 <= j < i ==> !((#[trigger] service@.shapes[j]).0 != name@
                    && service@.shapes[j].1.streams(name@)),
        decreases service.shapes@.len() - i,
    {
        if !(service.shapes[i].0 == key) && has_streaming_member(name, &service.shapes[i].1) {
            assert(service@.shapes[i as int].0 != name@);
            return true;
        }
        i = i + 1;
    }
    false
}

/// Whether some operation of the service takes the shape called `name` as
/// its input.
pub fn is_input_shape(service: &Service, name: &str) -> (r: bool)
    ensures
        r == service@.is_input(name@),
{
    let key = name.to_owned();
    let mut k: usize = 0;
    while k < service.operations.len()
        invariant
            k <= service.operations@.len(),
            key@ == name@,
            forall|j: int|
                0 <= j < k ==> (#[trigger] service@.operations[j]).1.input != Some(name@),
        decreases service.operations@.len() - k,
    {
        let matches = match &service.operations[k].1.input {
            Some(input) => *input == key,
            None => false,
        };
        if matches {
            assert(service@.operations[k as int].1.input == Some(name@));
            return true;
        }
        k = k + 1;
    }
    false
}

} // verus!
