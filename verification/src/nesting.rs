//! How deep lists and maps nest: each shape gets a level, 0 for what is no
//! list or map, and for a list or map one more than the highest level among
//! the shapes it is built from. A list or map that never gets a level has no
//! finite type.

use crate::error::GenerateError;
use crate::flags::{count_false, lemma_count_false_push, lemma_count_false_set};
use crate::links::{lemma_links, linked_by};
use crate::model::{
    lemma_resolved_in_range, Service, ServiceView, ShapeType, ShapeTypeView, ShapeView,
};
use crate::resolve::lemma_nests_deeper;
use vstd::prelude::*;
use vstd::string::*;

verus! {

/// Whether every shape that `shape` is built from has its level.
pub open spec fn children_done(service: ServiceView, done: Seq<bool>, shape: ShapeView) -> bool {
    forall|k: int|
        0 <= k < shape.references().len() ==> done[service.index_of(
            #[trigger] shape.references()[k],
        )]
}

/// The levels given so far are in order: a list or map that has its level
/// stands above each shape it is built from, and each of those has its level
/// too.
pub open spec fn levels_sound(service: ServiceView, done: Seq<bool>, nesting: Seq<usize>) -> bool {
    forall|at: int, k: int|
        0 <= at < service.shapes.len() && done[at] && service.shapes[at].1.is_container() && 0
            <= k < service.shapes[at].1.references().len() ==> {
            let child = service.index_of(#[trigger] service.shapes[at].1.references()[k]);
            done[child] && nesting[child] < nesting[at]
        }
}

/// A shape without its level is a list or map built from a shape that has no
/// level either.
pub open spec fn stuck_at(service: ServiceView, done: Seq<bool>, at: int) -> bool {
    done[at] || (service.shapes[at].1.is_container() && !children_done(
        service,
        done,
        service.shapes[at].1,
    ))
}

/// The highest level among the places in `targets`, if each has its level.
fn highest_level(done: &Vec<bool>, nesting: &Vec<usize>, targets: &Vec<usize>) -> (r: Option<
    usize,
>)
    requires
        done@.len() == nesting@.len(),
        forall|k: int| 0 <= k < targets@.len() ==> (#[trigger] targets@[k]) < done@.len(),
    ensures
        r is Some == forall|k: int|
            0 <= k < targets@.len() ==> done@[(#[trigger] targets@[k]) as int],
        r matches Some(top) ==> {
            &&& forall|k: int|
                0 <= k < targets@.len() ==> nesting@[(#[trigger] targets@[k]) as int] <= top
            &&& top == 0 || exists|k: int|
                0 <= k < targets@.len() && nesting@[(#[trigger] targets@[k]) as int] == top
        },
{
    let mut top: usize = 0;
    let mut k: usize = 0;
    while k < targets.len()
        invariant
            k <= targets@.len(),
            done@.len() == nesting@.len(),
            forall|j: int| 0 <= j < targets@.len() ==> (#[trigger] targets@[j]) < done@.len(),
            forall|j: int| 0 <= j < k ==> done@[(#[trigger] targets@[j]) as int],
            forall|j: int| 0 <= j < k ==> nesting@[(#[trigger] targets@[j]) as int] <= top,
            top == 0 || exists|j: int|
                0 <= j < k && nesting@[(#[trigger] targets@[j]) as int] == top,
        decreases targets@.len() - k,
    {
        if !done[targets[k]] {
            return None;
        }
        if nesting[targets[k]] > top {
            top = nesting[targets[k]];
        }
        k = k + 1;
    }
    Some(top)
}

/// What `highest_level` reads in the links of a shape is what
/// `children_done` says of the shape.
proof fn lemma_children_done(
    service: ServiceView,
    links: Seq<Vec<usize>>,
    done: Seq<bool>,
    at: int,
)
    requires
        linked_by(service, links),
        0 <= at < service.shapes.len(),
    ensures
        children_done(service, done, service.shapes[at].1) == forall|k: int|
            0 <= k < links[at]@.len() ==> done[(#[trigger] links[at]@[k]) as int],
{
    let refs = service.shapes[at].1.references();
    let targets = links[at]@;
    lemma_links(service, links);
    if children_done(service, done, service.shapes[at].1) {
        assert forall|k: int| 0 <= k < targets.len() implies done[(
        #[trigger] targets[k]) as int] by {
            assert(done[service.index_of(refs[k])]);
        }
    }
    if forall|k: int| 0 <= k < targets.len() ==> done[(#[trigger] targets[k]) as int] {
        assert forall|k: int| 0 <= k < refs.len() implies done[service.index_of(
            #[trigger] refs[k],
        )] by {
            assert(done[targets[k] as int]);
        }
    }
}

/// A shape that has its level nests within that level.
proof fn lemma_done_nests(service: ServiceView, done: Seq<bool>, nesting: Seq<usize>, at: int)
    requires
        done.len() == service.shapes.len(),
        nesting.len() == service.shapes.len(),
        service.references_resolve(),
        levels_sound(service, done, nesting),
        0 <= at < service.shapes.len(),
        done[at],
    ensures
        service.nests_within(service.shapes[at].1, nesting[at] as nat),
    decreases nesting[at],
{
    let shape = service.shapes[at].1;
    let refs = shape.references();
    assert(service.resolves_all(refs));
    match shape.shape_type {
        ShapeTypeView::List { member } => {
            assert(refs[0] == member);
            lemma_child_nests(service, done, nesting, at, 0);
        },
        ShapeTypeView::Mapping { key, value } => {
            assert(refs[0] == key);
            assert(refs[1] == value);
            lemma_child_nests(service, done, nesting, at, 0);
            lemma_child_nests(service, done, nesting, at, 1);
        },
        _ => {},
    }
}

/// A shape from which a list or map with its level is built nests within
/// the level below.
proof fn lemma_child_nests(
    service: ServiceView,
    done: Seq<bool>,
    nesting: Seq<usize>,
    at: int,
    k: int,
)
    requires
        done.len() == service.shapes.len(),
        nesting.len() == service.shapes.len(),
        service.references_resolve(),
        levels_sound(service, done, nesting),
        0 <= at < service.shapes.len(),
        done[at],
        service.shapes[at].1.is_container(),
        0 <= k < service.shapes[at].1.references().len(),
    ensures
        nesting[at] > 0,
        service.nests_within(
            service.shape_named(service.shapes[at].1.references()[k]),
            (nesting[at] - 1) as nat,
        ),
    decreases nesting[at], 0int,
{
    let name = service.shapes[at].1.references()[k];
    assert(service.resolves_all(service.shapes[at].1.references()));
    assert(service.resolves(name));
    lemma_resolved_in_range(service, name);
    let child = service.index_of(name);
    assert(done[child] && nesting[child] < nesting[at]);
    lemma_done_nests(service, done, nesting, child);
    lemma_nests_deeper(
        service,
        service.shapes[child].1,
        nesting[child] as nat,
        (nesting[at] - 1) as nat,
    );
}

/// A shape that is left without a level nests within no depth.
proof fn lemma_stuck_never_nests(service: ServiceView, done: Seq<bool>, at: int, depth: nat)
    requires
        done.len() == service.shapes.len(),
        service.references_resolve(),
        forall|j: int| 0 <= j < service.shapes.len() ==> stuck_at(service, done, j),
        0 <= at < service.shapes.len(),
        !done[at],
    ensures
        !service.nests_within(service.shapes[at].1, depth),
    decreases depth,
{
    let shape = service.shapes[at].1;
    let refs = shape.references();
    assert(stuck_at(service, done, at));
    if depth > 0 {
        let k = choose|k: int| 0 <= k < refs.len() && !done[service.index_of(#[trigger] refs[k])];
        assert(service.resolves_all(refs));
        assert(service.resolves(refs[k]));
        lemma_resolved_in_range(service, refs[k]);
        lemma_stuck_never_nests(service, done, service.index_of(refs[k]), (depth - 1) as nat);
        match shape.shape_type {
            ShapeTypeView::List { member } => {
                assert(refs[k] == member);
            },
            ShapeTypeView::Mapping { key, value } => {
                assert(refs[k] == key || refs[k] == value);
            },
            _ => {},
        }
    }
}

/// Checks that the lists and maps of the service nest to a finite depth, or
/// finds the first shape whose type has none.
pub fn check_nesting(service: &Service, links: &Vec<Vec<usize>>) -> (r: Result<(), GenerateError>)
    requires
        linked_by(service@, links@),
    ensures
        match r {
            Ok(_) => service@.finitely_typed(),
            Err(e) => e is UnboundedType && service@.first_unbounded(e.subject()),
        },
{
    let n = service.shapes.len();
    let mut done: Vec<bool> = Vec::new();
    let mut nesting: Vec<usize> = Vec::new();
    let mut pending: usize = 0;
    let mut i: usize = 0;
    while i < n
        invariant
            n == service.shapes@.len(),
            i <= n,
            done@.len() == i,
            nesting@.len() == i,
            pending == count_false(done@),
            pending <= i,
            forall|at: int|
                0 <= at < i ==> done@[at] == !(#[trigger] service@.shapes[at]).1.is_container(),
            forall|at: int| 0 <= at < i ==> #[trigger] nesting@[at] == 0,
        decreases n - i,
    {
        let is_container = match &service.shapes[i].1.shape_type {
            ShapeType::List { member } => true,
            ShapeType::Mapping { key, value } => true,
            _ => false,
        };
        proof {
            lemma_count_false_push(done@, !is_container);
        }
        done.push(!is_container);
        nesting.push(0);
        if is_container {
            pending = pending + 1;
        }
        i = i + 1;
    }
    proof {
        lemma_links(service@, links@);
    }
    let ghost total = pending;
    let mut changed = true;
    while changed
        invariant
            n == service.shapes@.len(),
            done@.len() == n,
            nesting@.len() == n,
            linked_by(service@, links@),
            service@.references_resolve(),
            pending == count_false(done@),
            total <= n,
            forall|at: int| 0 <= at < n ==> (#[trigger] nesting@[at]) + pending <= total,
            forall|at: int|
                0 <= at < n && !(#[trigger] service@.shapes[at]).1.is_container() ==> done@[at],
            levels_sound(service@, done@, nesting@),
            !changed ==> forall|at: int| 0 <= at < n ==> stuck_at(service@, done@, at),
        decreases
            2 * pending + if changed {
                1int
            } else {
                0int
            },
    {
        changed = false;
        let ghost pending_before = pending;
        let mut i: usize = 0;
        while i < n
            invariant
                n == service.shapes@.len(),
                i <= n,
                done@.len() == n,
                nesting@.len() == n,
                linked_by(service@, links@),
                service@.references_resolve(),
                pending == count_false(done@),
                total <= n,
                forall|at: int| 0 <= at < n ==> (#[trigger] nesting@[at]) + pending <= total,
                forall|at: int|
                    0 <= at < n && !(#[trigger] service@.shapes[at]).1.is_container()
                        ==> done@[at],
                levels_sound(service@, done@, nesting@),
                !changed ==> pending == pending_before,
                changed ==> pending < pending_before,
                !changed ==> forall|at: int| 0 <= at < i ==> stuck_at(service@, done@, at),
            decreases n - i,
        {
            if !done[i] {
                proof {
                    lemma_links(service@, links@);
                    lemma_children_done(service@, links@, done@, i as int);
                }
                match highest_level(&done, &nesting, &links[i]) {
                    Some(top) => {
                        let ghost done_before = done@;
                        let ghost nesting_before = nesting@;
                        proof {
                            lemma_count_false_set(done@, i as int);
                            assert(nesting@[i as int] + pending <= total);
                            assert(top + pending <= total);
                        }
                        done.set(i, true);
                        nesting.set(i, top + 1);
                        pending = pending - 1;
                        changed = true;
                        proof {
                            assert forall|at: int, k: int|
                                0 <= at < service@.shapes.len() && done@[at]
                                    && service@.shapes[at].1.is_container() && 0 <= k
                                    < service@.shapes[at].1.references().len() implies {
                                let child = service@.index_of(
                                    #[trigger] service@.shapes[at].1.references()[k],
                                );
                                done@[child] && nesting@[child] < nesting@[at]
                            } by {
                                let child = service@.index_of(
                                    service@.shapes[at].1.references()[k],
                                );
                                if at == i {
                                    assert(child == links@[i as int]@[k] as int);
                                    assert(done_before[child]);
                                    assert(nesting_before[child] <= top);
                                } else {
                                    assert(done_before[at]);
                                    assert(done_before[child] && nesting_before[child]
                                        < nesting_before[at]);
                                }
                            }
                        }
                    },
                    None => {
                        // A shape that is no list or map had its level from
                        // the start.
                        assert(!children_done(service@, done@, service@.shapes[i as int].1));
                        assert(service@.shapes[i as int].1.is_container());
                    },
                }
            }
            i = i + 1;
        }
    }
    let mut i: usize = 0;
    while i < n
        invariant
            n == service.shapes@.len(),
            i <= n,
            done@.len() == n,
            nesting@.len() == n,
            service@.references_resolve(),
            levels_sound(service@, done@, nesting@),
            forall|at: int| 0 <= at < n ==> (#[trigger] nesting@[at]) <= n,
            forall|at: int| 0 <= at < n ==> stuck_at(service@, done@, at),
            forall|at: int|
                0 <= at < i ==> service@.nests_within((#[trigger] service@.shapes[at]).1, n as nat),
        decreases n - i,
    {
        if !done[i] {
            proof {
                lemma_stuck_never_nests(service@, done@, i as int, n as nat);
                assert(service@.unbounded_at(service@.shapes[i as int].0, i as int));
            }
            return Err(GenerateError::UnboundedType(service.shapes[i].0.clone()));
        }
        proof {
            lemma_done_nests(service@, done@, nesting@, i as int);
            lemma_nests_deeper(
                service@,
                service@.shapes[i as int].1,
                nesting@[i as int] as nat,
                n as nat,
            );
        }
        i = i + 1;
    }
    Ok(())
}

} // verus!
