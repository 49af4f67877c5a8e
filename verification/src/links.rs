//! The references of a service, resolved once: for each shape, the places
//! of the shapes it is built from.

use crate::error::GenerateError;
use crate::model::{lemma_index_of, Service, ServiceView, Shape, ShapeType, ShapeView};
use vstd::prelude::*;
use vstd::string::*;

verus! {

/// Whether `targets` holds the places of the shapes that `shape` is built
/// from.
pub open spec fn links_shape(service: ServiceView, shape: ShapeView, targets: Seq<usize>) -> bool {
    &&& targets.len() == shape.references().len()
    &&& forall|k: int|
        0 <= k < targets.len() ==> service.first_at(
            shape.references()[k],
            #[trigger] targets[k] as int,
        )
}

/// Whether `links` holds, for each shape of the service, the places of the
/// shapes it is built from.
pub open spec fn linked_by(service: ServiceView, links: Seq<Vec<usize>>) -> bool {
    &&& links.len() == service.shapes.len()
    &&& forall|at: int|
        0 <= at < service.shapes.len() ==> links_shape(
            service,
            (#[trigger] service.shapes[at]).1,
            links[at]@,
        )
}

/// Links exist only where every reference resolves, and every link is the
/// place that its reference stands for.
pub proof fn lemma_links(service: ServiceView, links: Seq<Vec<usize>>)
    requires
        linked_by(service, links),
    ensures
        service.references_resolve(),
        forall|at: int, k: int|
            0 <= at < service.shapes.len() && 0 <= k < links[at]@.len() ==> (
            #[trigger] links[at]@[k]) < service.shapes.len() && links[at]@[k] as int
                == service.index_of(service.shapes[at].1.references()[k]),
{
    assert forall|at: int| 0 <= at < service.shapes.len() implies service.resolves_all(
        (#[trigger] service.shapes[at]).1.references(),
    ) by {
        let refs = service.shapes[at].1.references();
        assert(links_shape(service, service.shapes[at].1, links[at]@));
        assert forall|k: int| 0 <= k < refs.len() implies service.resolves(
            #[trigger] refs[k],
        ) by {
            assert(service.first_at(refs[k], links[at]@[k] as int));
        }
    }
    assert forall|at: int, k: int|
        0 <= at < service.shapes.len() && 0 <= k < links[at]@.len() implies (
    #[trigger] links[at]@[k]) < service.shapes.len() && links[at]@[k] as int == service.index_of(
        service.shapes[at].1.references()[k],
    ) by {
        assert(links_shape(service, service.shapes[at].1, links[at]@));
        lemma_index_of(service, service.shapes[at].1.references()[k], links[at]@[k] as int);
    }
}

/// Finds the place of each shape that `shape` is built from, or the first
/// of its references that stands for no shape.
fn links_of(service: &Service, shape: &Shape) -> (r: Result<Vec<usize>, GenerateError>)
    ensures
        match r {
            Ok(targets) => links_shape(service@, shape@, targets@),
            Err(e) => e is UnresolvedShape && exists|k: int|
                0 <= k < shape@.references().len() && #[trigger] shape@.references()[k]
                    == e.subject() && !service@.resolves(e.subject()) && forall|j: int|
                    0 <= j < k ==> service@.resolves(#[trigger] shape@.references()[j]),
        },
{
    let mut targets: Vec<usize> = Vec::new();
    match &shape.shape_type {
        ShapeType::List { member } => {
            assert(shape@.references()[0] == member@);
            match service.find_shape(member.as_str()) {
                Some(at) => {
                    targets.push(at);
                },
                None => {
                    return Err(GenerateError::UnresolvedShape(member.clone()));
                },
            }
        },
        ShapeType::Mapping { key, value } => {
            assert(shape@.references()[0] == key@);
            assert(shape@.references()[1] == value@);
            match service.find_shape(key.as_str()) {
                Some(at) => {
                    targets.push(at);
                },
                None => {
                    return Err(GenerateError::UnresolvedShape(key.clone()));
                },
            }
            match service.find_shape(value.as_str()) {
                Some(at) => {
                    targets.push(at);
                },
                None => {
                    return Err(GenerateError::UnresolvedShape(value.clone()));
                },
            }
        },
        ShapeType::Structure { members, required } => {
            let mut k: usize = 0;
            while k < members.len()
                invariant
                    k <= members@.len(),
                    shape@.references().len() == members@.len(),
                    forall|j: int|
                        0 <= j < members@.len() ==> shape@.references()[j]
                            == (#[trigger] members@[j]).1.shape@,
                    targets@.len() == k,
                    forall|j: int|
                        0 <= j < k ==> service@.first_at(
                            shape@.references()[j],
                            #[trigger] targets@[j] as int,
                        ),
                decreases members@.len() - k,
            {
                match service.find_shape(members[k].1.shape.as_str()) {
                    Some(at) => {
                        targets.push(at);
                    },
                    None => {
                        proof {
                            assert(shape@.references()[k as int] == members@[k as int].1.shape@);
                            assert forall|j: int| 0 <= j < k implies service@.resolves(
                                #[trigger] shape@.references()[j],
                            ) by {
                                assert(service@.first_at(
                                    shape@.references()[j],
                                    targets@[j] as int,
                                ));
                            }
                        }
                        return Err(GenerateError::UnresolvedShape(members[k].1.shape.clone()));
                    },
                }
                k = k + 1;
            }
        },
        _ => {},
    }
    Ok(targets)
}

/// Finds the shape behind every reference of the service, or the first
/// reference that stands for no shape.
pub fn resolve_references(service: &Service) -> (r: Result<Vec<Vec<usize>>, GenerateError>)
    ensures
        match r {
            Ok(links) => linked_by(service@, links@) && service@.references_resolve(),
            Err(e) => e is UnresolvedShape && service@.first_unresolved(e.subject()),
        },
{
    let mut links: Vec<Vec<usize>> = Vec::new();
    let mut i: usize = 0;
    while i < service.shapes.len()
        invariant
            i <= service.shapes@.len(),
            links@.len() == i,
            forall|at: int|
                0 <= at < i ==> links_shape(
                    service@,
                    (#[trigger] service@.shapes[at]).1,
                    links@[at]@,
                ),
        decreases service.shapes@.len() - i,
    {
        match links_of(service, &service.shapes[i].1) {
            Ok(targets) => {
                links.push(targets);
            },
            Err(e) => {
                proof {
                    let refs = service@.shapes[i as int].1.references();
                    let k = choose|k: int|
                        0 <= k < refs.len() && #[trigger] refs[k] == e.subject()
                            && !service@.resolves(e.subject()) && forall|j: int|
                            0 <= j < k ==> service@.resolves(#[trigger] refs[j]);
                    assert forall|at: int| 0 <= at < i implies service@.resolves_all(
                        (#[trigger] service@.shapes[at]).1.references(),
                    ) by {
                        let earlier = service@.shapes[at].1.references();
                        assert(links_shape(service@, service@.shapes[at].1, links@[at]@));
                        assert forall|j: int| 0 <= j < earlier.len() implies service@.resolves(
                            #[trigger] earlier[j],
                        ) by {
                            assert(service@.first_at(earlier[j], links@[at]@[j] as int));
                        }
                    }
                    assert(service@.unresolved_at(e.subject(), i as int, k));
                }
                return Err(e);
            },
        }
        i = i + 1;
    }
    proof {
        lemma_links(service@, links@);
    }
    Ok(links)
}

} // verus!
