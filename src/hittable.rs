//! Which primitive a ray meets first, and at which parameter.
//!
//! For each sphere the caller solves `|O + tD - C|^2 = r^2` and hands over the
//! discriminant and both roots; the choices made from those numbers are here.
use vstd::prelude::*;
use crate::scalar::{zero_spec, Scalar};

verus! {

/// The solution of one sphere's intersection quadratic along a ray.
#[derive(Clone, Copy, Debug, PartialEq, Eq, Structural)]
pub struct SphereRoots {
    /// `half_b^2 - a*c`; the ray misses when it is negative.
    pub discriminant: Scalar,
    /// `(-half_b - sqrt(discriminant)) / a`.
    pub near: Scalar,
    /// `(-half_b + sqrt(discriminant)) / a`.
    pub far: Scalar,
}

impl SphereRoots {
    /// The roots come in ascending order: the far one is never below the near one.
    pub open spec fn wf(self) -> bool {
        !self.far.lt_spec(self.near)
    }
}

/// `t_min < t < t_max`.
pub open spec fn inside(t: Scalar, t_min: Scalar, t_max: Scalar) -> bool {
    t_min.lt_spec(t) && t.lt_spec(t_max)
}

/// The first root, in ascending order, that lies strictly inside the interval.
pub open spec fn root_in(s: SphereRoots, t_min: Scalar, t_max: Scalar) -> Option<Scalar> {
    if s.discriminant.lt_spec(zero_spec()) {
        None
    } else if inside(s.near, t_min, t_max) {
        Some(s.near)
    } else if inside(s.far, t_min, t_max) {
        Some(s.far)
    } else {
        None
    }
}

/// The scene scan: each primitive in turn is asked for a root below the closest
/// parameter found so far, and an answer replaces the previous one.
pub open spec fn scan(s: Seq<SphereRoots>, t_min: Scalar, t_max: Scalar) -> Option<(int, Scalar)>
    decreases s.len(),
{
    if s.len() == 0 {
        None
    } else {
        let prev = scan(s.drop_last(), t_min, t_max);
        let bound = match prev {
            Some(p) => p.1,
            None => t_max,
        };
        match root_in(s.last(), t_min, bound) {
            Some(t) => Some(((s.len() - 1) as int, t)),
            None => prev,
        }
    }
}

/// `r` is a nearest qualifying hit of the scene: it is the root that primitive
/// `r.0` has in the interval, and no primitive has one strictly closer. `None`
/// exactly when no primitive has a root in the interval.
pub open spec fn is_nearest(
    s: Seq<SphereRoots>,
    t_min: Scalar,
    t_max: Scalar,
    r: Option<(int, Scalar)>,
) -> bool {
    match r {
        None => forall|j: int| 0 <= j < s.len() ==> root_in(#[trigger] s[j], t_min, t_max).is_none(),
        Some(p) => {
            &&& 0 <= p.0 < s.len()
            &&& root_in(s[p.0], t_min, t_max) == Some(p.1)
            &&& forall|j: int|
                0 <= j < s.len() ==> match #[trigger] root_in(s[j], t_min, t_max) {
                    Some(u) => !u.lt_spec(p.1),
                    None => true,
                }
        },
    }
}

pub open spec fn all_wf(s: Seq<SphereRoots>) -> bool {
    forall|j: int| 0 <= j < s.len() ==> (#[trigger] s[j]).wf()
}

/// Narrowing the interval from above to a bound `b` keeps a root that lies
/// below `b` and adds none.
proof fn lemma_root_in_narrowed(s: SphereRoots, t_min: Scalar, t_max: Scalar, b: Scalar)
    requires
        s.wf(),
        b.lt_spec(t_max) || b == t_max,
    ensures
        root_in(s, t_min, b) is Some ==> root_in(s, t_min, t_max) == root_in(s, t_min, b),
        root_in(s, t_min, t_max) is Some && root_in(s, t_min, t_max).unwrap().lt_spec(b)
            ==> root_in(s, t_min, b) == root_in(s, t_min, t_max),
        root_in(s, t_min, t_max) is Some && !root_in(s, t_min, t_max).unwrap().lt_spec(b)
            ==> root_in(s, t_min, b) is None,
{
}

/// The scan finds a nearest qualifying hit.
pub proof fn lemma_scan_is_nearest(s: Seq<SphereRoots>, t_min: Scalar, t_max: Scalar)
    requires
        all_wf(s),
    ensures
        is_nearest(s, t_min, t_max, scan(s, t_min, t_max)),
    decreases s.len(),
{
    if s.len() > 0 {
        let pre = s.drop_last();
        lemma_scan_is_nearest(pre, t_min, t_max);
        let last = s.last();
        let n = s.len() - 1;
        assert(forall|j: int| 0 <= j < n ==> s[j] == pre[j]);
        let prev = scan(pre, t_min, t_max);
        match prev {
            None => {
                lemma_root_in_narrowed(last, t_min, t_max, t_max);
            },
            Some(p) => {
                lemma_root_in_narrowed(last, t_min, t_max, p.1);
            },
        }
    }
}

/// Whatever order the primitives are listed in, the nearest hit lies at the
/// same place on the ray: exchanging two of them leaves the found parameter
/// unchanged, and a miss stays a miss.
pub proof fn lemma_nearest_order_independent(
    s: Seq<SphereRoots>,
    i: int,
    j: int,
    t_min: Scalar,
    t_max: Scalar,
)
    requires
        all_wf(s),
        0 <= i < s.len(),
        0 <= j < s.len(),
    ensures
        ({
            let swapped = s.update(i, s[j]).update(j, s[i]);
            let a = scan(s, t_min, t_max);
            let b = scan(swapped, t_min, t_max);
            &&& a is None <==> b is None
            &&& a is Some ==> a.unwrap().1.key() == b.unwrap().1.key()
        }),
{
    let swapped = s.update(i, s[j]).update(j, s[i]);
    assert(all_wf(swapped));
    lemma_scan_is_nearest(s, t_min, t_max);
    lemma_scan_is_nearest(swapped, t_min, t_max);
    let a = scan(s, t_min, t_max);
    let b = scan(swapped, t_min, t_max);
    // an entry at position k of one list stands in the other at i, j or k
    if a is Some {
        let pa = a.unwrap();
        let m = if pa.0 == i { j } else if pa.0 == j { i } else { pa.0 };
        assert(swapped[m] == s[pa.0]);
        assert(root_in(swapped[m], t_min, t_max) == Some(pa.1));
    }
    if b is Some {
        let pb = b.unwrap();
        let m = if pb.0 == i { j } else if pb.0 == j { i } else { pb.0 };
        assert(s[m] == swapped[pb.0]);
        assert(root_in(s[m], t_min, t_max) == Some(pb.1));
    }
}

/// The root of one sphere that a ray meets inside `(t_min, t_max)`: `None` when
/// the discriminant is negative, else the first of the two roots in ascending
/// order that lies strictly inside.
pub fn select_root(s: &SphereRoots, t_min: Scalar, t_max: Scalar) -> (r: Option<Scalar>)
    ensures
        r == root_in(*s, t_min, t_max),
        s.discriminant.lt_spec(zero_spec()) ==> r is None,
        r matches Some(t) ==> inside(t, t_min, t_max),
{
    if s.discriminant.lt(&Scalar::zero()) {
        None
    } else if t_min.lt(&s.near) && s.near.lt(&t_max) {
        Some(s.near)
    } else if t_min.lt(&s.far) && s.far.lt(&t_max) {
        Some(s.far)
    } else {
        None
    }
}

/// The nearest hit of a ray on a scene, as the index of the primitive and the
/// parameter along the ray. Each primitive in turn is tried against the
/// interval closed from above by the closest hit so far.
pub fn nearest_hit(spheres: &Vec<SphereRoots>, t_min: Scalar, t_max: Scalar) -> (r: Option<(usize, Scalar)>)
    ensures
        r matches Some(p) ==> scan(spheres@, t_min, t_max) == Some((p.0 as int, p.1)),
        r matches Some(p) ==> p.0 < spheres@.len() && inside(p.1, t_min, t_max),
        r is None <==> scan(spheres@, t_min, t_max) is None,
        all_wf(spheres@) ==> is_nearest(spheres@, t_min, t_max, scan(spheres@, t_min, t_max)),
{
    let mut best: Option<(usize, Scalar)> = None;
    let mut bound = t_max;
    let mut i: usize = 0;
    while i < spheres.len()
        invariant
            0 <= i <= spheres.len(),
            best matches Some(p) ==> p.0 < i && inside(p.1, t_min, t_max),
            best matches Some(p) ==> scan(spheres@.take(i as int), t_min, t_max) == Some(
                (p.0 as int, p.1),
            ),
            best is None <==> scan(spheres@.take(i as int), t_min, t_max) is None,
            bound == (match best {
                Some(p) => p.1,
                None => t_max,
            }),
        decreases spheres.len() - i,
    {
        let ghost pre = spheres@.take(i as int);
        let ghost next = spheres@.take(i + 1);
        assert(next.drop_last() == pre);
        assert(next.last() == spheres@[i as int]);
        match select_root(&spheres[i], t_min, bound) {
            Some(t) => {
                best = Some((i, t));
                bound = t;
            },
            None => {},
        }
        i = i + 1;
    }
    assert(spheres@.take(spheres@.len() as int) == spheres@);
    proof {
        if all_wf(spheres@) {
            lemma_scan_is_nearest(spheres@, t_min, t_max);
        }
    }
    best
}

/// Whether the geometric outward normal already opposes the ray, that is
/// whether `direction . outward_normal < 0`.
pub fn faces_front(direction_dot_normal: Scalar) -> (r: bool)
    ensures
        r == direction_dot_normal.lt_spec(zero_spec()),
{
    direction_dot_normal.lt(&Scalar::zero())
}

} // verus!
