//! Ownership of the emitted types: a type borrows from the payload exactly
//! when a string shape can be reached from its shape.

use crate::model::{ServiceView, ShapeTypeView, ShapeView};
use vstd::prelude::*;

verus! {

/// Whether an emitted type owns its data or borrows from the payload.
#[derive(Clone, Copy, Debug, PartialEq, Eq, Structural)]
pub enum Ownership {
    Owned,
    Borrowed,
}

/// `Borrowed` for `true`, `Owned` for `false`.
pub open spec fn ownership_of(borrows: bool) -> Ownership {
    if borrows {
        Ownership::Borrowed
    } else {
        Ownership::Owned
    }
}

impl ServiceView {
    /// A chain of shape names that ends at a string shape, each shape built
    /// from the one that follows it.
    pub open spec fn is_borrow_path(self, path: Seq<Seq<char>>) -> bool {
        &&& path.len() > 0
        &&& forall|i: int| 0 <= i < path.len() ==> self.resolves(#[trigger] path[i])
        &&& forall|i: int|
            0 <= i < path.len() - 1 ==> self.shape_named(#[trigger] path[i]).references().contains(
                path[i + 1],
            )
        &&& self.shape_named(path.last()).shape_type is String
    }

    /// Whether a string shape can be reached from the shape called `name`.
    pub open spec fn name_borrows(self, name: Seq<char>) -> bool {
        exists|path: Seq<Seq<char>>| #[trigger] self.is_borrow_path(path) && path[0] == name
    }

    /// Whether a type emitted for `shape` borrows: the shape is a string, or
    /// it is built from a shape that borrows.
    pub open spec fn borrows(self, shape: ShapeView) -> bool {
        shape.shape_type is String || exists|k: int|
            0 <= k < shape.references().len() && self.name_borrows(
                #[trigger] shape.references()[k],
            )
    }

    /// The ownership of a type emitted for `shape`.
    pub open spec fn ownership(self, shape: ShapeView) -> Ownership {
        ownership_of(self.borrows(shape))
    }
}

/// A shape that borrows makes every name that stands for it borrow.
pub proof fn lemma_name_borrows_from_shape(service: ServiceView, name: Seq<char>)
    requires
        service.resolves(name),
        service.borrows(service.shape_named(name)),
    ensures
        service.name_borrows(name),
{
    let shape = service.shape_named(name);
    if shape.shape_type is String {
        let path = seq![name];
        assert(service.is_borrow_path(path));
        assert(path[0] == name);
    } else {
        let k = choose|k: int|
            0 <= k < shape.references().len() && service.name_borrows(
                #[trigger] shape.references()[k],
            );
        let child = shape.references()[k];
        let rest = choose|path: Seq<Seq<char>>|
            #[trigger] service.is_borrow_path(path) && path[0] == child;
        let path = seq![name] + rest;
        assert forall|i: int| 0 <= i < path.len() implies service.resolves(
            #[trigger] path[i],
        ) by {
            if i > 0 {
                assert(path[i] == rest[i - 1]);
            }
        }
        assert forall|i: int| 0 <= i < path.len() - 1 implies service.shape_named(
            #[trigger] path[i],
        ).references().contains(path[i + 1]) by {
            if i == 0 {
                assert(path[1] == rest[0]);
            } else {
                assert(path[i] == rest[i - 1]);
                assert(path[i + 1] == rest[i]);
            }
        }
        assert(path.last() == rest.last());
        assert(service.is_borrow_path(path));
        assert(path[0] == name);
    }
}

/// A name that borrows stands for a shape that borrows.
pub proof fn lemma_shape_borrows_from_name(service: ServiceView, name: Seq<char>)
    requires
        service.name_borrows(name),
    ensures
        service.resolves(name),
        service.borrows(service.shape_named(name)),
{
    let path = choose|path: Seq<Seq<char>>|
        #[trigger] service.is_borrow_path(path) && path[0] == name;
    let shape = service.shape_named(name);
    assert(service.resolves(path[0]));
    if path.len() == 1 {
        assert(path.last() == path[0]);
    } else {
        let rest = path.subrange(1, path.len() as int);
        assert forall|i: int| 0 <= i < rest.len() implies service.resolves(
            #[trigger] rest[i],
        ) by {
            assert(rest[i] == path[i + 1]);
        }
        assert forall|i: int| 0 <= i < rest.len() - 1 implies service.shape_named(
            #[trigger] rest[i],
        ).references().contains(rest[i + 1]) by {
            assert(rest[i] == path[i + 1]);
            assert(rest[i + 1] == path[i + 2]);
        }
        assert(rest.last() == path.last());
        assert(service.is_borrow_path(rest));
        assert(rest[0] == path[1]);
        assert(service.name_borrows(path[1]));
        assert(shape.references().contains(path[1]));
        let k = choose|k: int|
            0 <= k < shape.references().len() && shape.references()[k] == path[1];
        assert(service.name_borrows(shape.references()[k]));
    }
}

/// A name borrows exactly when it stands for a shape that borrows: the rule
/// for a shape applies again to each shape it is built from.
pub proof fn lemma_name_borrows(service: ServiceView, name: Seq<char>)
    ensures
        service.name_borrows(name) <==> service.resolves(name) && service.borrows(
            service.shape_named(name),
        ),
{
    if service.name_borrows(name) {
        lemma_shape_borrows_from_name(service, name);
    }
    if service.resolves(name) && service.borrows(service.shape_named(name)) {
        lemma_name_borrows_from_shape(service, name);
    }
}

/// A type borrows exactly where its shape is a string or a string shape can
/// be reached from it: through the element of a list, the key or the value
/// of a map and the members of a structure, over and over. A blob, a
/// boolean, a number and a timestamp lead no further.
pub proof fn lemma_borrowed_where_string_reached(service: ServiceView, shape: ShapeView)
    ensures
        service.ownership(shape) == Ownership::Borrowed <==> shape.shape_type is String
            || exists|path: Seq<Seq<char>>| #[trigger]
            service.is_borrow_path(path) && shape.references().contains(path[0]),
{
    let refs = shape.references();
    if service.borrows(shape) && !(shape.shape_type is String) {
        let k = choose|k: int| 0 <= k < refs.len() && service.name_borrows(#[trigger] refs[k]);
        let path = choose|path: Seq<Seq<char>>|
            #[trigger] service.is_borrow_path(path) && path[0] == refs[k];
        assert(refs.contains(path[0]));
    }
    if exists|path: Seq<Seq<char>>| #[trigger]
        service.is_borrow_path(path) && refs.contains(path[0]) {
        let path = choose|path: Seq<Seq<char>>| #[trigger]
            service.is_borrow_path(path) && refs.contains(path[0]);
        let k = choose|k: int| 0 <= k < refs.len() && refs[k] == path[0];
        assert(service.name_borrows(refs[k]));
    }
}

/// The ownership rules, shape kind by shape kind, for a shape whose
/// references resolve: a string borrows; a blob, a boolean, a number and a
/// timestamp own; a list is as its element; a map borrows if its key borrows
/// and is as its value otherwise; a structure borrows if the shape of any of
/// its members does. Each rule applies again to the shapes it names.
pub proof fn lemma_ownership_rules(service: ServiceView, shape: ShapeView)
    requires
        service.resolves_all(shape.references()),
    ensures
        match shape.shape_type {
            ShapeTypeView::String => service.ownership(shape) == Ownership::Borrowed,
            ShapeTypeView::List { member } => service.ownership(shape) == service.ownership(
                service.shape_named(member),
            ),
            ShapeTypeView::Mapping { key, value } => service.ownership(shape)
                == if service.ownership(service.shape_named(key)) == Ownership::Borrowed {
                Ownership::Borrowed
            } else {
                service.ownership(service.shape_named(value))
            },
            ShapeTypeView::Structure { members, required } => service.ownership(shape)
                == ownership_of(
                exists|k: int|
                    0 <= k < members.len() && service.ownership(
                        service.shape_named((#[trigger] members[k]).1.shape),
                    ) == Ownership::Borrowed,
            ),
            _ => service.ownership(shape) == Ownership::Owned,
        },
{
    let refs = shape.references();
    assert forall|k: int| 0 <= k < refs.len() implies service.name_borrows(#[trigger] refs[k])
        == service.borrows(service.shape_named(refs[k])) by {
        assert(service.resolves(refs[k]));
        lemma_name_borrows(service, refs[k]);
    }
    match shape.shape_type {
        ShapeTypeView::String => {},
        ShapeTypeView::List { member } => {
            assert(refs[0] == member);
        },
        ShapeTypeView::Mapping { key, value } => {
            assert(refs[0] == key);
            assert(refs[1] == value);
        },
        ShapeTypeView::Structure { members, required } => {
            if service.borrows(shape) {
                let k = choose|k: int|
                    0 <= k < refs.len() && service.name_borrows(#[trigger] refs[k]);
                assert(refs[k] == members[k].1.shape);
            }
            if exists|k: int|
                0 <= k < members.len() && service.ownership(
                    service.shape_named((#[trigger] members[k]).1.shape),
                ) == Ownership::Borrowed {
                let k = choose|k: int|
                    0 <= k < members.len() && service.ownership(
                        service.shape_named((#[trigger] members[k]).1.shape),
                    ) == Ownership::Borrowed;
                assert(refs[k] == members[k].1.shape);
                assert(service.name_borrows(refs[k]));
            }
        },
        _ => {},
    }
}

} // verus!
