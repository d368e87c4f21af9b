//! The scene: a list of spheres, and the nearest one along a ray.

use vstd::prelude::*;
use crate::scalar::Scalar;
use crate::hitable::{Crossing, Sphere};
use crate::path::{Ending, Outcome, Path, Trace, MAX_DEPTH};

verus! {

/// The pattern of 0.001: a ray hits nothing nearer to its origin, so that a
/// scattered ray does not hit the surface that it leaves.
pub const T_MIN_BITS: u32 = 0x3a83_126f;

/// The sphere that a ray hits first, and the ray's parameter there.
#[derive(Clone, Copy, Debug, PartialEq, Eq, Structural)]
pub struct Hit {
    /// The place of the sphere in the scene.
    pub object: usize,
    /// The sphere itself.
    pub sphere: Sphere,
    /// The parameter of the ray at the hit.
    pub t: Scalar,
}

/// The spheres of a scene, in the order in which they were added.
pub struct Scene {
    objects: Vec<Sphere>,
}

impl View for Scene {
    type V = Seq<Sphere>;

    closed spec fn view(&self) -> Seq<Sphere> {
        self.objects@
    }
}

impl Scene {
    /// What sphere `j` alone would report within the whole interval.
    pub open spec fn own_hit(crossings: Seq<Crossing>, j: int, t_min: Scalar, t_max: Scalar) -> Option<
        Scalar,
    > {
        crossings[j].first_between(t_min, t_max)
    }

    /// The nearest hit among spheres crossed as `crossings` says: the place
    /// of the sphere and the parameter of the ray.
    ///
    /// The spheres are taken in order, each within the interval from `t_min`
    /// to the nearest hit found before it, so that a later sphere takes over
    /// only with a hit that is strictly nearer.
    pub open spec fn nearest(crossings: Seq<Crossing>, t_min: Scalar, t_max: Scalar) -> Option<
        (int, Scalar),
    >
        decreases crossings.len(),
    {
        if crossings.len() == 0 {
            None
        } else {
            let before = Scene::nearest(crossings.drop_last(), t_min, t_max);
            let closest_so_far = match before {
                Some(found) => found.1,
                None => t_max,
            };
            match crossings.last().first_between(t_min, closest_so_far) {
                Some(t) => Some((crossings.len() - 1, t)),
                None => before,
            }
        }
    }

    /// What `hit` returns.
    pub open spec fn hit_spec(self, crossings: Seq<Crossing>, t_min: Scalar, t_max: Scalar) -> Option<
        Hit,
    > {
        match Scene::nearest(crossings, t_min, t_max) {
            Some(found) => Some(
                Hit { object: found.0 as usize, sphere: self@[found.0], t: found.1 },
            ),
            None => None,
        }
    }

    /// The nearest hit is a true one, not farther than any sphere's own, and
    /// the first of its kind.
    ///
    /// Where `nearest` finds nothing, no sphere reports a hit within the
    /// interval. Where it finds sphere `i` at `t`, that sphere reports a hit;
    /// `t` is a root of that sphere's crossing and lies strictly between
    /// `t_min` and `t_max`; no sphere's own hit is below `t`; the own hit of
    /// every sphere before `i` is strictly above `t`; and `t` is sphere `i`'s
    /// own hit if its roots are ordered.
    pub proof fn nearest_is_least(crossings: Seq<Crossing>, t_min: Scalar, t_max: Scalar)
        ensures
            Scene::nearest(crossings, t_min, t_max) is None ==> forall|j: int|
                0 <= j < crossings.len() ==> #[trigger] Scene::own_hit(crossings, j, t_min, t_max)
                    is None,
            Scene::nearest(crossings, t_min, t_max) matches Some(found) ==> {
                &&& 0 <= found.0 < crossings.len()
                &&& crossings[found.0].pierces()
                &&& found.1 == crossings[found.0].near || found.1 == crossings[found.0].far
                &&& Crossing::between(found.1, t_min, t_max)
                &&& Scene::own_hit(crossings, found.0, t_min, t_max) is Some
                &&& crossings[found.0].ordered() ==> Scene::own_hit(
                    crossings,
                    found.0,
                    t_min,
                    t_max,
                ) == Some(found.1)
                &&& forall|j: int|
                    0 <= j < crossings.len() ==> (#[trigger] Scene::own_hit(
                        crossings,
                        j,
                        t_min,
                        t_max,
                    ) matches Some(r) ==> found.1.spec_le(r))
                &&& forall|j: int|
                    0 <= j < found.0 ==> (#[trigger] Scene::own_hit(crossings, j, t_min, t_max) matches Some(
                        r,
                    ) ==> found.1.spec_lt(r))
            },
        decreases crossings.len(),
    {
        if crossings.len() > 0 {
            let front = crossings.drop_last();
            Scene::nearest_is_least(front, t_min, t_max);
            assert forall|j: int| 0 <= j < front.len() implies Scene::own_hit(front, j, t_min, t_max)
                == Scene::own_hit(crossings, j, t_min, t_max) by {
                assert(front[j] == crossings[j]);
            }
            let last = crossings.len() - 1;
            assert(Scene::own_hit(crossings, last, t_min, t_max) == crossings.last().first_between(
                t_min,
                t_max,
            ));
        }
    }

    /// Every crossing of `a` stands somewhere in `b`, where the two hold the
    /// same crossings.
    proof fn stands_in(a: Seq<Crossing>, b: Seq<Crossing>, i: int) -> (k: int)
        requires
            a.to_multiset() == b.to_multiset(),
            0 <= i < a.len(),
        ensures
            0 <= k < b.len(),
            b[k] == a[i],
    {
        a.to_multiset_ensures();
        b.to_multiset_ensures();
        assert(a.contains(a[i]));
        assert(a.to_multiset().count(a[i]) > 0);
        assert(b.to_multiset().count(a[i]) > 0);
        assert(b.contains(a[i]));
        choose|k: int| 0 <= k < b.len() && b[k] == a[i]
    }

    /// The nearest hit of `a` is not beyond that of `b`, where `b` holds no
    /// crossings but those of `a`.
    proof fn not_beyond(a: Seq<Crossing>, b: Seq<Crossing>, t_min: Scalar, t_max: Scalar)
        requires
            a.to_multiset() == b.to_multiset(),
            forall|j: int| 0 <= j < b.len() ==> (#[trigger] b[j]).ordered(),
        ensures
            Scene::nearest(a, t_min, t_max) is None ==> Scene::nearest(b, t_min, t_max) is None,
            Scene::nearest(a, t_min, t_max) matches Some(x) ==> (Scene::nearest(
                b,
                t_min,
                t_max,
            ) matches Some(y) ==> x.1.spec_le(y.1)),
    {
        Scene::nearest_is_least(a, t_min, t_max);
        Scene::nearest_is_least(b, t_min, t_max);
        if let Some(y) = Scene::nearest(b, t_min, t_max) {
            let k = Scene::stands_in(b, a, y.0);
            assert(Scene::own_hit(a, k, t_min, t_max) == Scene::own_hit(b, y.0, t_min, t_max));
        }
    }

    /// The order of the spheres does not decide how far the nearest hit is.
    ///
    /// Two lists of the same crossings, each with its roots in order, give a
    /// hit or none together, and where they give one, at parameters that are
    /// equal as numbers.
    pub proof fn order_does_not_matter(
        a: Seq<Crossing>,
        b: Seq<Crossing>,
        t_min: Scalar,
        t_max: Scalar,
    )
        requires
            a.to_multiset() == b.to_multiset(),
            forall|j: int| 0 <= j < a.len() ==> (#[trigger] a[j]).ordered(),
        ensures
            Scene::nearest(a, t_min, t_max) is None <==> Scene::nearest(b, t_min, t_max) is None,
            Scene::nearest(a, t_min, t_max) matches Some(x) ==> (Scene::nearest(
                b,
                t_min,
                t_max,
            ) matches Some(y) ==> x.1.spec_le(y.1) && y.1.spec_le(x.1)),
    {
        assert forall|j: int| 0 <= j < b.len() implies (#[trigger] b[j]).ordered() by {
            let k = Scene::stands_in(b, a, j);
        }
        Scene::not_beyond(a, b, t_min, t_max);
        Scene::not_beyond(b, a, t_min, t_max);
    }

    /// A ray that misses every sphere sees the sky: nothing is hit, and a path
    /// that starts below the depth limit ends there, in the sky, with one ray
    /// traced and no attenuation gathered. So it is in a scene without
    /// spheres, whatever the ray.
    pub proof fn miss_shows_sky(crossings: Seq<Crossing>, t_min: Scalar, t_max: Scalar, depth: int)
        requires
            forall|j: int|
                0 <= j < crossings.len() ==> #[trigger] Scene::own_hit(crossings, j, t_min, t_max)
                    is None,
            depth < MAX_DEPTH,
        ensures
            Scene::nearest(crossings, t_min, t_max) is None,
            Trace::start(depth).step(Outcome::Missed) == (Trace {
                depth,
                rays: 1,
                filters: Seq::empty(),
                ending: Some(Ending::Sky),
            }),
    {
        Scene::nearest_is_least(crossings, t_min, t_max);
    }

    /// A scene without spheres.
    pub fn new() -> (scene: Scene)
        ensures
            scene@ == Seq::<Sphere>::empty(),
    {
        Scene { objects: Vec::new() }
    }

    /// Adds a sphere behind those that are there.
    pub fn push(&mut self, sphere: Sphere)
        ensures
            final(self)@ == old(self)@.push(sphere),
    {
        self.objects.push(sphere);
    }

    /// The number of spheres.
    pub fn len(&self) -> (n: usize)
        ensures
            n == self@.len(),
    {
        self.objects.len()
    }

    /// The sphere at place `i`.
    pub fn get(&self, i: usize) -> (sphere: Sphere)
        requires
            i < self@.len(),
        ensures
            sphere == self@[i as int],
    {
        self.objects[i]
    }

    /// The nearest sphere that a ray hits strictly between `t_min` and
    /// `t_max`, where `crossings[i]` says how the ray's line crosses the
    /// sphere at place `i`.
    ///
    /// Of two spheres hit at the same parameter the one that stands first in
    /// the scene is reported.
    pub fn hit(&self, crossings: &Vec<Crossing>, t_min: Scalar, t_max: Scalar) -> (r: Option<Hit>)
        requires
            crossings@.len() == self@.len(),
        ensures
            r == self.hit_spec(crossings@, t_min, t_max),
            r matches Some(hit) ==> {
                &&& Scene::nearest(crossings@, t_min, t_max) == Some((hit.object as int, hit.t))
                &&& hit.object < self@.len()
                &&& crossings@[hit.object as int].pierces()
                &&& hit.t == crossings@[hit.object as int].near || hit.t == crossings@[hit.object as int].far
                &&& Crossing::between(hit.t, t_min, t_max)
                &&& crossings@[hit.object as int].ordered() ==> Scene::own_hit(
                    crossings@,
                    hit.object as int,
                    t_min,
                    t_max,
                ) == Some(hit.t)
                &&& forall|j: int|
                    0 <= j < crossings@.len() ==> (#[trigger] Scene::own_hit(
                        crossings@,
                        j,
                        t_min,
                        t_max,
                    ) matches Some(other) ==> hit.t.spec_le(other))
                &&& forall|j: int|
                    0 <= j < hit.object ==> (#[trigger] Scene::own_hit(crossings@, j, t_min, t_max) matches Some(
                        other,
                    ) ==> hit.t.spec_lt(other))
            },
            r is None ==> forall|j: int|
                0 <= j < crossings@.len() ==> #[trigger] Scene::own_hit(crossings@, j, t_min, t_max)
                    is None,
    {
        let mut closest_so_far = t_max;
        let mut hit_object: Option<Hit> = None;
        let mut i: usize = 0;
        while i < crossings.len()
            invariant
                i <= crossings@.len(),
                crossings@.len() == self@.len(),
                hit_object is None <==> Scene::nearest(crossings@.take(i as int), t_min, t_max) is None,
                hit_object is None ==> closest_so_far == t_max,
                hit_object matches Some(hit) ==> {
                    &&& Scene::nearest(crossings@.take(i as int), t_min, t_max) == Some(
                        (hit.object as int, hit.t),
                    )
                    &&& hit.object < i
                    &&& hit.sphere == self@[hit.object as int]
                    &&& closest_so_far == hit.t
                },
            decreases crossings@.len() - i,
        {
            proof {
                assert(crossings@.take(i + 1).drop_last() == crossings@.take(i as int));
            }
            if let Some(ray_param) = Sphere::hit(&crossings[i], t_min, closest_so_far) {
                closest_so_far = ray_param;
                hit_object = Some(Hit { object: i, sphere: self.objects[i], t: ray_param });
            }
            i += 1;
        }
        proof {
            assert(crossings@.take(i as int) == crossings@);
            Scene::nearest_is_least(crossings@, t_min, t_max);
        }
        hit_object
    }

    /// Traces the current ray of `path` through the scene, where
    /// `crossings[i]` says how the ray's line crosses the sphere at place
    /// `i`: reports the nearest sphere that the ray hits beyond 0.001, or
    /// ends the path in the sky where it hits none.
    ///
    /// A path that is over is left alone, and nothing is reported for it.
    /// After a hit the path waits for the material's answer.
    pub fn ray_trace(&self, path: &mut Path, crossings: &Vec<Crossing>) -> (r: Option<Hit>)
        requires
            crossings@.len() == self@.len(),
        ensures
            old(path)@.ending is Some ==> r is None && final(path)@ == old(path)@,
            old(path)@.ending is None ==> r == self.hit_spec(
                crossings@,
                Scalar { bits: T_MIN_BITS },
                Scalar::max(),
            ),
            old(path)@.ending is None && r is None ==> final(path)@ == old(path)@.step(Outcome::Missed),
            r is Some ==> final(path)@ == old(path)@,
            self@.len() == 0 ==> r is None,
    {
        if path.is_over() {
            return None;
        }
        let found = self.hit(crossings, Scalar::from_bits(T_MIN_BITS), Scalar::max());
        if found.is_none() {
            path.advance(Outcome::Missed);
        }
        found
    }
}

} // verus!
