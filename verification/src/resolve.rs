//! One resolution pass over the shape graph. It finds the shape behind every
//! reference, checks that lists and maps nest to a finite depth, and settles
//! which shapes borrow. What it settles is kept in a memo, so that a shape
//! graph with cycles is walked once and no more.

use crate::error::GenerateError;
use crate::links::resolve_references;
use crate::marking::mark_borrowed;
use crate::model::{
    lemma_index_of, Member, Service, ServiceView, Shape, ShapeType, ShapeTypeView, ShapeView,
};
use crate::nesting::check_nesting;
use crate::ownership::{lemma_name_borrows, ownership_of, Ownership};
use vstd::prelude::*;
use vstd::string::*;

verus! {

impl ShapeView {
    /// Whether the shape is a list or a map.
    pub open spec fn is_container(self) -> bool {
        self.shape_type is List || self.shape_type is Mapping
    }
}

impl ServiceView {
    /// Whether `name` is the `k`-th reference of the shape at `at`, stands
    /// for no shape, and is the first reference of the service to do so.
    pub open spec fn unresolved_at(self, name: Seq<char>, at: int, k: int) -> bool {
        &&& 0 <= at < self.shapes.len()
        &&& 0 <= k < self.shapes[at].1.references().len()
        &&& self.shapes[at].1.references()[k] == name
        &&& !self.resolves(name)
        &&& forall|j: int|
            0 <= j < at ==> self.resolves_all((#[trigger] self.shapes[j]).1.references())
        &&& forall|j: int|
            0 <= j < k ==> self.resolves(#[trigger] self.shapes[at].1.references()[j])
    }

    /// Whether `name` is the first reference of the service, in the order of
    /// its shapes and of their references, that stands for no shape.
    pub open spec fn first_unresolved(self, name: Seq<char>) -> bool {
        exists|at: int, k: int| self.unresolved_at(name, at, k)
    }

    /// Whether the type expression of `shape` runs through at most `depth`
    /// nested lists and maps.
    pub open spec fn nests_within(self, shape: ShapeView, depth: nat) -> bool
        decreases depth,
    {
        match shape.shape_type {
            ShapeTypeView::List { member } => depth > 0 && self.nests_within(
                self.shape_named(member),
                (depth - 1) as nat,
            ),
            ShapeTypeView::Mapping { key, value } => depth > 0 && self.nests_within(
                self.shape_named(key),
                (depth - 1) as nat,
            ) && self.nests_within(self.shape_named(value), (depth - 1) as nat),
            _ => true,
        }
    }

    /// Whether the lists and maps of the service nest to a finite depth, one
    /// that the number of shapes bounds: no list or map contains itself
    /// through lists and maps alone.
    pub open spec fn finitely_typed(self) -> bool {
        forall|at: int|
            0 <= at < self.shapes.len() ==> self.nests_within(
                (#[trigger] self.shapes[at]).1,
                self.shapes.len(),
            )
    }

    /// Whether the shape at `at` is called `name` and is the first shape of
    /// the service whose type expression has no finite depth.
    pub open spec fn unbounded_at(self, name: Seq<char>, at: int) -> bool {
        &&& 0 <= at < self.shapes.len()
        &&& self.shapes[at].0 == name
        &&& !self.nests_within(self.shapes[at].1, self.shapes.len())
        &&& forall|j: int|
            0 <= j < at ==> self.nests_within((#[trigger] self.shapes[j]).1, self.shapes.len())
    }

    /// Whether `name` is the name of the first shape of the service whose
    /// type expression has no finite depth.
    pub open spec fn first_unbounded(self, name: Seq<char>) -> bool {
        exists|at: int| self.unbounded_at(name, at)
    }

    /// What generation asks of a service: every reference resolves, and
    /// lists and maps nest to a finite depth.
    pub open spec fn well_formed(self) -> bool {
        self.references_resolve() && self.finitely_typed()
    }

    /// Whether `error` is what is wrong with the service: the first
    /// reference that stands for no shape or, where every reference
    /// resolves, the first shape whose type has no finite depth.
    pub open spec fn explains(self, error: GenerateError) -> bool {
        match error {
            GenerateError::UnresolvedShape(name) => self.first_unresolved(name@),
            GenerateError::UnboundedType(name) => self.references_resolve()
                && self.first_unbounded(name@),
            GenerateError::UnknownProtocol(name) => false,
        }
    }
}

/// A shape that nests within a depth nests within any greater depth.
pub proof fn lemma_nests_deeper(service: ServiceView, shape: ShapeView, depth: nat, more: nat)
    requires
        service.nests_within(shape, depth),
        depth <= more,
    ensures
        service.nests_within(shape, more),
    decreases depth,
{
    match shape.shape_type {
        ShapeTypeView::List { member } => {
            lemma_nests_deeper(
                service,
                service.shape_named(member),
                (depth - 1) as nat,
                (more - 1) as nat,
            );
        },
        ShapeTypeView::Mapping { key, value } => {
            lemma_nests_deeper(
                service,
                service.shape_named(key),
                (depth - 1) as nat,
                (more - 1) as nat,
            );
            lemma_nests_deeper(
                service,
                service.shape_named(value),
                (depth - 1) as nat,
                (more - 1) as nat,
            );
        },
        _ => {},
    }
}

/// A reference that stands for no shape leaves the service with references
/// that do not all resolve.
pub proof fn lemma_unresolved(service: ServiceView, name: Seq<char>)
    requires
        service.first_unresolved(name),
    ensures
        !service.resolves(name),
        !service.references_resolve(),
{
    let (at, k) = choose|at: int, k: int| service.unresolved_at(name, at, k);
    let refs = service.shapes[at].1.references();
    assert(!service.resolves(refs[k]));
    assert(!service.resolves_all(refs));
}

/// A shape whose type has no finite depth is a list or a map, and leaves the
/// service not finitely typed.
pub proof fn lemma_unbounded(service: ServiceView, name: Seq<char>)
    requires
        service.first_unbounded(name),
    ensures
        !service.finitely_typed(),
        exists|at: int|
            0 <= at < service.shapes.len() && (#[trigger] service.shapes[at]).0 == name
                && service.shapes[at].1.is_container(),
{
    let at = choose|at: int| service.unbounded_at(name, at);
    assert(!service.nests_within(service.shapes[at].1, service.shapes.len()));
    assert(service.shapes[at].0 == name && service.shapes[at].1.is_container());
}

/// What one resolution pass has settled about a service: which of its shapes
/// borrow. It stands only for a service in which every reference resolves
/// and lists and maps nest to a finite depth.
pub struct Memo {
    borrowed: Vec<bool>,
}

impl Memo {
    /// Whether the memo was made for this service.
    pub closed spec fn describes(&self, service: ServiceView) -> bool {
        &&& service.well_formed()
        &&& self.borrowed@.len() == service.shapes.len()
        &&& forall|at: int|
            0 <= at < service.shapes.len() ==> self.borrowed@[at] == service.borrows(
                (#[trigger] service.shapes[at]).1,
            )
    }

    /// A memo stands only for a well-formed service.
    pub proof fn lemma_well_formed(&self, service: ServiceView)
        requires
            self.describes(service),
        ensures
            service.well_formed(),
    {
    }

    /// Runs the resolution pass. It succeeds exactly on a well-formed
    /// service. Otherwise it names the first reference that stands for no
    /// shape or, where all references resolve, the first shape whose type
    /// has no finite depth.
    pub fn new(service: &Service) -> (r: Result<Memo, GenerateError>)
        ensures
            r is Ok == service@.well_formed(),
            r matches Ok(memo) ==> memo.describes(service@),
            r matches Err(e) ==> service@.explains(e),
    {
        let links = match resolve_references(service) {
            Ok(links) => links,
            Err(e) => {
                proof {
                    lemma_unresolved(service@, e.subject());
                }
                return Err(e);
            },
        };
        match check_nesting(service, &links) {
            Ok(_) => {},
            Err(e) => {
                proof {
                    lemma_unbounded(service@, e.subject());
                }
                return Err(e);
            },
        }
        let borrowed = mark_borrowed(service, &links);
        Ok(Memo { borrowed })
    }
}

/// The ownership of a type emitted for the shape called `name`; `Owned`
/// where the name stands for no shape.
pub fn get_name_ownership(memo: &Memo, service: &Service, name: &str) -> (r: Ownership)
    requires
        memo.describes(service@),
    ensures
        r == ownership_of(service@.name_borrows(name@)),
{
    proof {
        lemma_name_borrows(service@, name@);
    }
    match service.find_shape(name) {
        Some(at) => {
            proof {
                lemma_index_of(service@, name@, at as int);
            }
            if memo.borrowed[at] {
                Ownership::Borrowed
            } else {
                Ownership::Owned
            }
        },
        None => Ownership::Owned,
    }
}

/// The ownership of a type emitted for the shape that a member holds.
pub fn get_member_ownership(memo: &Memo, service: &Service, member: &Member) -> (r: Ownership)
    requires
        memo.describes(service@),
    ensures
        r == ownership_of(service@.name_borrows(member@.shape)),
{
    get_name_ownership(memo, service, member.shape.as_str())
}

/// The ownership of a type emitted for a shape: `Borrowed` for a string and
/// for a shape built from a shape that borrows, `Owned` for any other.
pub fn get_shape_ownership(memo: &Memo, service: &Service, shape: &Shape) -> (r: Ownership)
    requires
        memo.describes(service@),
    ensures
        r == service@.ownership(shape@),
{
    match &shape.shape_type {
        ShapeType::String => Ownership::Borrowed,
        ShapeType::List { member } => {
            assert(shape@.references()[0] == member@);
            get_name_ownership(memo, service, member.as_str())
        },
        ShapeType::Mapping { key, value } => {
            assert(shape@.references()[0] == key@);
            assert(shape@.references()[1] == value@);
            match get_name_ownership(memo, service, key.as_str()) {
                Ownership::Borrowed => Ownership::Borrowed,
                Ownership::Owned => get_name_ownership(memo, service, value.as_str()),
            }
        },
        ShapeType::Structure { members, required } => {
            let mut k: usize = 0;
            while k < members.len()
                invariant
                    k <= members@.len(),
                    memo.describes(service@),
                    shape@.references().len() == members@.len(),
                    forall|j: int|
                        0 <= j < members@.len() ==> shape@.references()[j]
                            == (#[trigger] members@[j])@.1.shape,
                    forall|j: int|
                        0 <= j < k ==> !service@.name_borrows(#[trigger] shape@.references()[j]),
                decreases members@.len() - k,
            {
                match get_member_ownership(memo, service, &members[k].1) {
                    Ownership::Borrowed => {
                        assert(service@.name_borrows(shape@.references()[k as int]));
                        return Ownership::Borrowed;
                    },
                    Ownership::Owned => {},
                }
                k = k + 1;
            }
            Ownership::Owned
        },
        _ => Ownership::Owned,
    }
}

} // verus!
