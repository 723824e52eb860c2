use vstd::prelude::*;

verus! {

/// The two roots of a sphere's quadratic along a ray, as parameter keys
/// (integers ordered as the ray parameters they stand for), nearer first.
#[derive(Clone, Copy, Debug, PartialEq, Eq, Structural)]
pub struct Roots {
    pub near: i64,
    pub far: i64,
}

/// `t` lies strictly inside the open interval `(lo, hi)`.
pub open spec fn inside(t: int, lo: int, hi: int) -> bool {
    lo < t && t < hi
}

/// The root a sphere reports within `(lo, hi)`: the nearer one if it lies
/// inside, else the farther one if it does, else none.
pub open spec fn root_within(r: Roots, lo: int, hi: int) -> Option<i64> {
    if inside(r.near as int, lo, hi) {
        Some(r.near)
    } else if inside(r.far as int, lo, hi) {
        Some(r.far)
    } else {
        None
    }
}

/// What a primitive reports within `(lo, hi)`: nothing where the ray misses
/// it (`None`: no real root, or a tangent ray), else its root within.
pub open spec fn report(c: Option<Roots>, lo: int, hi: int) -> Option<i64> {
    match c {
        Some(r) => root_within(r, lo, hi),
        None => None,
    }
}

/// Each candidate lists its roots nearer first.
pub open spec fn ordered(cs: Seq<Option<Roots>>) -> bool {
    forall|i: int| 0 <= i < cs.len() ==> (#[trigger] cs[i] matches Some(r) ==> r.near <= r.far)
}

/// The root of a sphere that a ray hits within `(t_min, t_max)`: the nearer
/// root is tried first, then the farther one; the bounds themselves are
/// outside.
pub fn pick_root(roots: Roots, t_min: i64, t_max: i64) -> (r: Option<i64>)
    ensures
        r == root_within(roots, t_min as int, t_max as int),
{
    if t_min < roots.near && roots.near < t_max {
        Some(roots.near)
    } else if t_min < roots.far && roots.far < t_max {
        Some(roots.far)
    } else {
        None
    }
}

/// The closest hit among the primitives of a world, scanned in order with an
/// upper bound that shrinks to each hit found, so that only strictly closer
/// hits replace it. Returns the index of the primitive hit and the parameter
/// of the hit: the least parameter any primitive reports within
/// `(t_min, t_max)`, from the first primitive that reports it; none where no
/// primitive reports a hit.
pub fn closest_hit(candidates: &Vec<Option<Roots>>, t_min: i64, t_max: i64) -> (r: Option<(
    usize,
    i64,
)>)
    requires
        ordered(candidates@),
    ensures
        r is None <==> (forall|j: int|
            0 <= j < candidates@.len() ==> #[trigger] report(
                candidates@[j],
                t_min as int,
                t_max as int,
            ) is None),
        r matches Some((k, t)) ==> {
            &&& k < candidates@.len()
            &&& report(candidates@[k as int], t_min as int, t_max as int) == Some(t)
            &&& forall|j: int|
                0 <= j < candidates@.len() ==> (#[trigger] report(
                    candidates@[j],
                    t_min as int,
                    t_max as int,
                ) matches Some(u) ==> t <= u && (j < k ==> t < u))
        },
{
    let mut best: Option<(usize, i64)> = None;
    let mut closest: i64 = t_max;
    let mut i: usize = 0;
    while i < candidates.len()
        invariant
            ordered(candidates@),
            0 <= i <= candidates@.len(),
            closest <= t_max,
            best is None ==> closest == t_max && forall|j: int|
                0 <= j < i ==> #[trigger] report(candidates@[j], t_min as int, t_max as int) is None,
            best matches Some((k, t)) ==> {
                &&& k < i
                &&& closest == t
                &&& report(candidates@[k as int], t_min as int, t_max as int) == Some(t)
                &&& forall|j: int|
                    0 <= j < i ==> (#[trigger] report(
                        candidates@[j],
                        t_min as int,
                        t_max as int,
                    ) matches Some(u) ==> t <= u && (j < k ==> t < u))
            },
        decreases candidates@.len() - i,
    {
        if let Some(roots) = candidates[i] {
            assert(roots.near <= roots.far) by {
                assert(candidates@[i as int] matches Some(r) ==> r.near <= r.far);
            }
            if let Some(t) = pick_root(roots, t_min, closest) {
                best = Some((i, t));
                closest = t;
            }
        }
        i = i + 1;
    }
    best
}

} // verus!
