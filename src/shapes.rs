//! Ray/surface intersection: which root of a sphere's quadratic is taken,
//! and which of the hits along a ray is nearest.
//!
//! Distances along a ray are order keys (see `order`).

use vstd::prelude::*;

verus! {

/// A distance lies strictly inside the open window `(t_min, t_max)`.
pub open spec fn in_window(t: u32, t_min: u32, t_max: u32) -> bool {
    t_min < t && t < t_max
}

/// One of the two roots of a ray/sphere quadratic.
#[derive(Clone, Copy, Debug, PartialEq, Eq, Structural)]
pub enum Root {
    First,
    Second,
}

/// The root that an intersection takes: the smaller of the roots inside the
/// window, the first one on a tie, none when neither is inside.
pub open spec fn root_choice(first: u32, second: u32, t_min: u32, t_max: u32) -> Option<Root> {
    if in_window(first, t_min, t_max) && (!in_window(second, t_min, t_max) || first <= second) {
        Some(Root::First)
    } else if in_window(second, t_min, t_max) {
        Some(Root::Second)
    } else {
        None
    }
}

/// Picks the root of a quadratic at which a ray meets a surface, given the
/// keys of both roots and of the window's bounds.
pub fn select_root(first: u32, second: u32, t_min: u32, t_max: u32) -> (r: Option<Root>)
    ensures
        r == root_choice(first, second, t_min, t_max),
        r is None <==> !in_window(first, t_min, t_max) && !in_window(second, t_min, t_max),
        r == Some(Root::First) ==> in_window(first, t_min, t_max),
        r == Some(Root::Second) ==> in_window(second, t_min, t_max) && (in_window(first, t_min, t_max) ==> second < first),
{
    let first_in = t_min < first && first < t_max;
    let second_in = t_min < second && second < t_max;
    if first_in && (!second_in || first <= second) {
        Some(Root::First)
    } else if second_in {
        Some(Root::Second)
    } else {
        None
    }
}

/// Index `i` holds the nearest hit among `hits`: it is a hit, no hit is
/// closer, and every earlier hit is farther (ties keep the first found).
pub open spec fn nearest_at(hits: Seq<Option<u32>>, i: int) -> bool {
    &&& 0 <= i < hits.len()
    &&& hits[i] is Some
    &&& forall|j: int| 0 <= j < hits.len() && hits[j] is Some ==> hits[i]->0 <= hits[j]->0
    &&& forall|j: int| 0 <= j < i && hits[j] is Some ==> hits[i]->0 < hits[j]->0
}

/// Some member of the scan reported a hit.
pub open spec fn any_hit(hits: Seq<Option<u32>>) -> bool {
    exists|j: int| 0 <= j < hits.len() && hits[j] is Some
}

/// Resolves the nearest hit of a linear scan: `hits[i]` is the distance key
/// at which member `i` was hit, or `None` where it was missed.
pub fn nearest_hit(hits: &Vec<Option<u32>>) -> (r: Option<usize>)
    ensures
        r is None <==> !any_hit(hits@),
        r matches Some(i) ==> nearest_at(hits@, i as int),
{
    let mut best: Option<usize> = None;
    let mut i: usize = 0;
    while i < hits.len()
        invariant
            0 <= i <= hits@.len(),
            best is None <==> !any_hit(hits@.subrange(0, i as int)),
            best matches Some(b) ==> nearest_at(hits@.subrange(0, i as int), b as int),
        decreases hits@.len() - i,
    {
        let ghost prefix = hits@.subrange(0, i as int);
        let ghost next = hits@.subrange(0, i + 1);
        assert(next == prefix.push(hits@[i as int]));
        match hits[i] {
            Some(d) => {
                match best {
                    Some(b) => {
                        if d < hits[b].unwrap() {
                            best = Some(i);
                        }
                    },
                    None => {
                        best = Some(i);
                    },
                }
            },
            None => {},
        }
        proof {
            if best is None {
                assert forall|j: int| 0 <= j < next.len() implies next[j] is None by {
                    if j < prefix.len() {
                        assert(prefix[j] == next[j]);
                    }
                }
            } else {
                assert(next[i as int] == hits@[i as int]);
                if hits@[i as int] is Some {
                    assert(any_hit(next));
                }
            }
        }
        i = i + 1;
    }
    assert(hits@.subrange(0, hits@.len() as int) == hits@);
    best
}

/// The surfaces of a scene, in the order in which they are scanned. The
/// collection grows by appending before a render and is only read during one.
pub struct Intersectables<T> {
    objects: Vec<T>,
}

impl<T> View for Intersectables<T> {
    type V = Seq<T>;

    closed spec fn view(&self) -> Seq<T> {
        self.objects@
    }
}

impl<T> Intersectables<T> {
    pub fn new(objects: Vec<T>) -> (r: Self)
        ensures
            r@ == objects@,
    {
        Intersectables { objects }
    }

    /// Appends a surface after the ones already held.
    pub fn push(&mut self, object: T)
        ensures
            final(self)@ == old(self)@.push(object),
    {
        self.objects.push(object);
    }

    pub fn len(&self) -> (r: usize)
        ensures
            r == self@.len(),
    {
        self.objects.len()
    }

    pub fn get(&self, i: usize) -> (r: &T)
        requires
            i < self@.len(),
        ensures
            *r == self@[i as int],
    {
        &self.objects[i]
    }
}

} // verus!
