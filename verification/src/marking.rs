//! Which shapes borrow: string shapes are marked first, then every shape
//! that is built from a marked shape, until a whole pass marks nothing new.

use crate::flags::{count_false, lemma_count_false_push, lemma_count_false_set};
use crate::links::{lemma_links, linked_by};
use crate::model::{lemma_resolved_in_range, Service, ServiceView, ShapeType, ShapeView};
use crate::ownership::lemma_name_borrows_from_shape;
use vstd::prelude::*;

verus! {

/// Whether a shape is built from a shape that `marks` has marked.
pub open spec fn child_marked(service: ServiceView, marks: Seq<bool>, shape: ShapeView) -> bool {
    exists|k: int|
        0 <= k < shape.references().len() && marks[service.index_of(
            #[trigger] shape.references()[k],
        )]
}

/// Every mark is earned: a marked shape borrows.
pub open spec fn marks_sound(service: ServiceView, marks: Seq<bool>) -> bool {
    forall|at: int|
        0 <= at < service.shapes.len() && #[trigger] marks[at] ==> service.borrows(
            service.shapes[at].1,
        )
}

/// Every string shape is marked.
pub open spec fn marks_strings(service: ServiceView, marks: Seq<bool>) -> bool {
    forall|at: int|
        0 <= at < service.shapes.len() && (#[trigger] service.shapes[at]).1.shape_type is String
            ==> marks[at]
}

/// Nothing is left to mark at `at`: the shape is marked, or it is built from
/// no marked shape.
pub open spec fn settled_at(service: ServiceView, marks: Seq<bool>, at: int) -> bool {
    marks[at] || !child_marked(service, marks, service.shapes[at].1)
}

/// Whether one of the places in `targets` is marked.
fn any_marked(marks: &Vec<bool>, targets: &Vec<usize>) -> (r: bool)
    requires
        forall|k: int| 0 <= k < targets@.len() ==> (#[trigger] targets@[k]) < marks@.len(),
    ensures
        r == exists|k: int| 0 <= k < targets@.len() && marks@[(#[trigger] targets@[k]) as int],
{
    let mut k: usize = 0;
    while k < targets.len()
        invariant
            k <= targets@.len(),
            forall|j: int| 0 <= j < targets@.len() ==> (#[trigger] targets@[j]) < marks@.len(),
            forall|j: int| 0 <= j < k ==> !marks@[(#[trigger] targets@[j]) as int],
        decreases targets@.len() - k,
    {
        if marks[targets[k]] {
            return true;
        }
        k = k + 1;
    }
    false
}

/// What `any_marked` finds in the links of a shape is what `child_marked`
/// says of the shape.
proof fn lemma_child_marked(
    service: ServiceView,
    links: Seq<Vec<usize>>,
    marks: Seq<bool>,
    at: int,
)
    requires
        linked_by(service, links),
        0 <= at < service.shapes.len(),
    ensures
        child_marked(service, marks, service.shapes[at].1) == exists|k: int|
            0 <= k < links[at]@.len() && marks[(#[trigger] links[at]@[k]) as int],
{
    let refs = service.shapes[at].1.references();
    let targets = links[at]@;
    lemma_links(service, links);
    if child_marked(service, marks, service.shapes[at].1) {
        let k = choose|k: int| 0 <= k < refs.len() && marks[service.index_of(#[trigger] refs[k])];
        assert(marks[targets[k] as int]);
    }
    if exists|k: int| 0 <= k < targets.len() && marks[(#[trigger] targets[k]) as int] {
        let k = choose|k: int| 0 <= k < targets.len() && marks[(#[trigger] targets[k]) as int];
        assert(marks[service.index_of(refs[k])]);
    }
}

/// A shape built from a marked shape borrows, where every mark is earned.
proof fn lemma_marked_child_borrows(service: ServiceView, marks: Seq<bool>, at: int)
    requires
        0 <= at < service.shapes.len(),
        marks.len() == service.shapes.len(),
        service.references_resolve(),
        marks_sound(service, marks),
        child_marked(service, marks, service.shapes[at].1),
    ensures
        service.borrows(service.shapes[at].1),
{
    let refs = service.shapes[at].1.references();
    let k = choose|k: int| 0 <= k < refs.len() && marks[service.index_of(#[trigger] refs[k])];
    assert(service.resolves_all(refs));
    assert(service.resolves(refs[k]));
    lemma_resolved_in_range(service, refs[k]);
    let child = service.index_of(refs[k]);
    assert(marks[child]);
    assert(service.borrows(service.shapes[child].1));
    lemma_name_borrows_from_shape(service, refs[k]);
}

/// Along a borrow path every shape is marked, once the marks are settled.
proof fn lemma_path_marked(service: ServiceView, marks: Seq<bool>, path: Seq<Seq<char>>, j: int)
    requires
        marks.len() == service.shapes.len(),
        marks_strings(service, marks),
        forall|at: int| 0 <= at < service.shapes.len() ==> settled_at(service, marks, at),
        service.is_borrow_path(path),
        0 <= j < path.len(),
    ensures
        marks[service.index_of(path[j])],
    decreases path.len() - j,
{
    assert(service.resolves(path[j]));
    lemma_resolved_in_range(service, path[j]);
    let at = service.index_of(path[j]);
    if j == path.len() - 1 {
        assert(service.shapes[at].1.shape_type is String);
    } else {
        lemma_path_marked(service, marks, path, j + 1);
        let refs = service.shapes[at].1.references();
        assert(refs.contains(path[j + 1]));
        let k = choose|k: int| 0 <= k < refs.len() && refs[k] == path[j + 1];
        assert(marks[service.index_of(refs[k])]);
        assert(child_marked(service, marks, service.shapes[at].1));
        assert(settled_at(service, marks, at));
    }
}

/// Settled marks miss no shape that borrows.
proof fn lemma_marks_complete(service: ServiceView, marks: Seq<bool>, at: int)
    requires
        marks.len() == service.shapes.len(),
        marks_strings(service, marks),
        forall|j: int| 0 <= j < service.shapes.len() ==> settled_at(service, marks, j),
        0 <= at < service.shapes.len(),
        service.borrows(service.shapes[at].1),
    ensures
        marks[at],
{
    let shape = service.shapes[at].1;
    if !(shape.shape_type is String) {
        let refs = shape.references();
        let k = choose|k: int| 0 <= k < refs.len() && service.name_borrows(#[trigger] refs[k]);
        let path = choose|path: Seq<Seq<char>>|
            #[trigger] service.is_borrow_path(path) && path[0] == refs[k];
        lemma_path_marked(service, marks, path, 0);
        assert(child_marked(service, marks, shape));
        assert(settled_at(service, marks, at));
    }
}

/// Settles, for each shape of the service, whether it borrows.
pub fn mark_borrowed(service: &Service, links: &Vec<Vec<usize>>) -> (marks: Vec<bool>)
    requires
        linked_by(service@, links@),
    ensures
        marks@.len() == service@.shapes.len(),
        forall|at: int|
            0 <= at < service@.shapes.len() ==> marks@[at] == service@.borrows(
                (#[trigger] service@.shapes[at]).1,
            ),
{
    let n = service.shapes.len();
    let mut marks: Vec<bool> = Vec::new();
    let mut pending: usize = 0;
    let mut i: usize = 0;
    while i < n
        invariant
            n == service.shapes@.len(),
            i <= n,
            marks@.len() == i,
            pending == count_false(marks@),
            pending <= i,
            forall|at: int|
                0 <= at < i ==> marks@[at] == (service@.shapes[at].1.shape_type is String),
        decreases n - i,
    {
        let is_string = match &service.shapes[i].1.shape_type {
            ShapeType::String => true,
            _ => false,
        };
        proof {
            lemma_count_false_push(marks@, is_string);
        }
        marks.push(is_string);
        if !is_string {
            pending = pending + 1;
        }
        i = i + 1;
    }
    proof {
        lemma_links(service@, links@);
    }
    let mut changed = true;
    while changed
        invariant
            n == service.shapes@.len(),
            marks@.len() == n,
            linked_by(service@, links@),
            service@.references_resolve(),
            pending == count_false(marks@),
            marks_sound(service@, marks@),
            marks_strings(service@, marks@),
            !changed ==> forall|at: int| 0 <= at < n ==> settled_at(service@, marks@, at),
        decreases
            2 * pending + if changed {
                1int
            } else {
                0int
            },
    {
        changed = false;
        let ghost pending_before = pending;
        let mut i: usize = 0;
        while i < n
            invariant
                n == service.shapes@.len(),
                i <= n,
                marks@.len() == n,
                linked_by(service@, links@),
                service@.references_resolve(),
                pending == count_false(marks@),
                marks_sound(service@, marks@),
                marks_strings(service@, marks@),
                !changed ==> pending == pending_before,
                changed ==> pending < pending_before,
                !changed ==> forall|at: int| 0 <= at < i ==> settled_at(service@, marks@, at),
            decreases n - i,
        {
            proof {
                lemma_links(service@, links@);
                lemma_child_marked(service@, links@, marks@, i as int);
            }
            if !marks[i] && any_marked(&marks, &links[i]) {
                proof {
                    lemma_marked_child_borrows(service@, marks@, i as int);
                    lemma_count_false_set(marks@, i as int);
                }
                marks.set(i, true);
                pending = pending - 1;
                changed = true;
            }
            i = i + 1;
        }
    }
    proof {
        assert forall|at: int| 0 <= at < service@.shapes.len() implies marks@[at]
            == service@.borrows((#[trigger] service@.shapes[at]).1) by {
            if service@.borrows(service@.shapes[at].1) {
                lemma_marks_complete(service@, marks@, at);
            }
        }
    }
    marks
}

} // verus!
