//! The order in which a scene's objects are loaded, and how children find their parents.
use vstd::prelude::*;

verus! {

/// Errors in building a scene.
#[derive(Debug, PartialEq, Eq, Clone, Copy)]
pub enum SceneError {
    /// A child names a parent that is not a loaded top-level object.
    IncorrectParentIndex,
}

/// The positions, in order, of the objects that have a parent (`children == true`) or that
/// have none (`children == false`).
pub open spec fn positions_with_parent(parents: Seq<Option<usize>>, children: bool) -> Seq<usize>
    decreases parents.len(),
{
    if parents.len() == 0 {
        seq![]
    } else {
        let prev = positions_with_parent(parents.drop_last(), children);
        if parents.last() is Some == children {
            prev.push((parents.len() - 1) as usize)
        } else {
            prev
        }
    }
}

/// The positions of the objects that have a parent (`children`) or that have none, in order.
pub fn scene_positions(parents: &Vec<Option<usize>>, children: bool) -> (r: Vec<usize>)
    ensures
        r@ == positions_with_parent(parents@, children),
{
    let mut r: Vec<usize> = Vec::new();
    let mut i: usize = 0;
    while i < parents.len()
        invariant
            i <= parents@.len(),
            r@ == positions_with_parent(parents@.take(i as int), children),
        decreases parents@.len() - i,
    {
        proof {
            assert(parents@.take(i + 1).drop_last() =~= parents@.take(i as int));
        }
        if parents[i].is_some() == children {
            r.push(i);
        }
        i = i + 1;
    }
    proof {
        assert(parents@.take(parents@.len() as int) =~= parents@);
    }
    r
}

/// The entity of the first loaded object at position `parent`, among the (position, entity)
/// pairs recorded while loading the top-level objects.
pub fn parent_entity<E: Copy>(index_entity: &Vec<(usize, E)>, parent: usize) -> (r: Result<E, SceneError>)
    ensures
        match r {
            Ok(e) => exists|k: int| 0 <= k < index_entity@.len() && index_entity@[k] == (parent, e)
                && forall|j: int| 0 <= j < k ==> (#[trigger] index_entity@[j]).0 != parent,
            Err(err) => err == SceneError::IncorrectParentIndex
                && forall|j: int| 0 <= j < index_entity@.len() ==> (#[trigger] index_entity@[j]).0 != parent,
        },
{
    let mut k: usize = 0;
    while k < index_entity.len()
        invariant
            k <= index_entity@.len(),
            forall|j: int| 0 <= j < k ==> (#[trigger] index_entity@[j]).0 != parent,
        decreases index_entity@.len() - k,
    {
        let (i, e) = index_entity[k];
        if i == parent {
            return Ok(e);
        }
        k = k + 1;
    }
    Err(SceneError::IncorrectParentIndex)
}

/// Every object is loaded exactly once: each position is a root or a child, never both.
pub proof fn lemma_roots_and_children_partition(parents: Seq<Option<usize>>)
    requires
        parents.len() <= usize::MAX,
    ensures
        positions_with_parent(parents, false).len() + positions_with_parent(parents, true).len() == parents.len(),
        forall|i: int| 0 <= i < positions_with_parent(parents, false).len() ==>
            (#[trigger] parents[positions_with_parent(parents, false)[i] as int]) is None,
        forall|i: int| 0 <= i < positions_with_parent(parents, true).len() ==>
            (#[trigger] parents[positions_with_parent(parents, true)[i] as int]) is Some,
    decreases parents.len(),
{
    if parents.len() > 0 {
        let prev = parents.drop_last();
        lemma_roots_and_children_partition(prev);
        assert(forall|i: int| 0 <= i < prev.len() ==> parents[i] == prev[i]);
        lemma_positions_below(prev, false);
        lemma_positions_below(prev, true);
        assert forall|c: bool, i: int| 0 <= i < positions_with_parent(parents, c).len() implies
            (#[trigger] parents[positions_with_parent(parents, c)[i] as int]) is Some == c by {
            let pp = positions_with_parent(prev, c);
            lemma_positions_below(prev, c);
            if i < pp.len() {
                assert(positions_with_parent(parents, c)[i] == pp[i]);
                assert(pp[i] < prev.len());
                assert(prev[pp[i] as int] is Some == c);
            } else {
                assert(parents.last() is Some == c);
                assert(positions_with_parent(parents, c)[i] == parents.len() - 1);
            }
        }
        assert forall|i: int| 0 <= i < positions_with_parent(parents, false).len() implies
            (#[trigger] parents[positions_with_parent(parents, false)[i] as int]) is None by {
            assert(parents[positions_with_parent(parents, false)[i] as int] is Some == false);
        }
        assert forall|i: int| 0 <= i < positions_with_parent(parents, true).len() implies
            (#[trigger] parents[positions_with_parent(parents, true)[i] as int]) is Some by {
            assert(parents[positions_with_parent(parents, true)[i] as int] is Some == true);
        }
    }
}

/// Every recorded position lies inside the list.
pub proof fn lemma_positions_below(parents: Seq<Option<usize>>, children: bool)
    requires
        parents.len() <= usize::MAX,
    ensures
        forall|i: int| 0 <= i < positions_with_parent(parents, children).len() ==>
            (#[trigger] positions_with_parent(parents, children)[i]) < parents.len(),
    decreases parents.len(),
{
    if parents.len() > 0 {
        let prev = parents.drop_last();
        lemma_positions_below(prev, children);
        let pp = positions_with_parent(prev, children);
        assert forall|i: int| 0 <= i < positions_with_parent(parents, children).len() implies
            (#[trigger] positions_with_parent(parents, children)[i]) < parents.len() by {
            if i < pp.len() {
                assert(positions_with_parent(parents, children)[i] == pp[i]);
            }
        }
    }
}

} // verus!
