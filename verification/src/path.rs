//! The life of one camera ray: bounce after bounce, until it leaves the scene,
//! is absorbed, or has bounced too often.

use vstd::prelude::*;
use crate::math::{Ray, Vec3f};
use crate::material::ScatterRay;

verus! {

/// The depth at which a ray is no longer traced: it then counts as black.
pub const MAX_DEPTH: i32 = 50;

/// How a path ended.
#[derive(Clone, Copy, Debug, PartialEq, Eq, Structural)]
pub enum Ending {
    /// The last ray hit nothing: the path gathers the sky along that ray,
    /// multiplied by every attenuation on the way.
    Sky,
    /// A surface absorbed the ray: the path is black.
    Absorbed,
    /// The ray reached the depth limit: the path is black.
    Exhausted,
}

/// What the scene made of one ray.
#[derive(Clone, Copy, Debug, PartialEq, Eq, Structural)]
pub enum Outcome {
    /// No sphere was hit.
    Missed,
    /// A sphere was hit and its material gave no ray.
    Absorbed,
    /// A sphere was hit and its material scattered the ray.
    Scattered(ScatterRay),
}

/// A path as a mathematical value.
pub struct Trace {
    /// The depth of the ray that is traced now.
    pub depth: int,
    /// How many rays were traced, the first one included.
    pub rays: nat,
    /// The attenuations gathered, the first bounce first.
    pub filters: Seq<Vec3f>,
    /// How the path ended, if it has.
    pub ending: Option<Ending>,
}

/// A path in the making.
#[derive(Debug)]
pub struct Path {
    depth: i32,
    filters: Vec<Vec3f>,
    ending: Option<Ending>,
}

impl View for Path {
    type V = Trace;

    closed spec fn view(&self) -> Trace {
        Trace {
            depth: self.depth as int,
            rays: self.filters@.len() + 1,
            filters: self.filters@,
            ending: self.ending,
        }
    }
}

impl Outcome {
    /// The outcome that a material's answer stands for.
    pub open spec fn of_scatter_spec(scattered: Option<ScatterRay>) -> Outcome {
        match scattered {
            Some(s) => Outcome::Scattered(s),
            None => Outcome::Absorbed,
        }
    }

    /// The outcome that a material's answer stands for: a ray that was not
    /// scattered was absorbed.
    pub fn of_scatter(scattered: Option<ScatterRay>) -> (outcome: Outcome)
        ensures
            outcome == Outcome::of_scatter_spec(scattered),
    {
        match scattered {
            Some(s) => Outcome::Scattered(s),
            None => Outcome::Absorbed,
        }
    }
}

impl Trace {
    /// The path of a ray that enters at `depth`. At the depth limit or beyond
    /// it is over at once.
    pub open spec fn start(depth: int) -> Trace {
        Trace {
            depth,
            rays: 1,
            filters: Seq::empty(),
            ending: if depth >= MAX_DEPTH {
                Some(Ending::Exhausted)
            } else {
                None
            },
        }
    }

    /// The path after the scene has answered its current ray. A path that is
    /// over stays as it is.
    pub open spec fn step(self, outcome: Outcome) -> Trace {
        if self.ending is Some {
            self
        } else {
            match outcome {
                Outcome::Missed => Trace { ending: Some(Ending::Sky), ..self },
                Outcome::Absorbed => Trace { ending: Some(Ending::Absorbed), ..self },
                Outcome::Scattered(s) => Trace {
                    depth: self.depth + 1,
                    rays: self.rays + 1,
                    filters: self.filters.push(s.attenuation),
                    ending: if self.depth + 1 >= MAX_DEPTH {
                        Some(Ending::Exhausted)
                    } else {
                        None
                    },
                },
            }
        }
    }

    /// The ray to trace next: the scattered one, unless the path is over
    /// before or after the step.
    pub open spec fn next_ray(self, outcome: Outcome) -> Option<Ray> {
        match outcome {
            Outcome::Scattered(s) => if self.step(outcome).ending is None {
                Some(s.ray)
            } else {
                None
            },
            _ => None,
        }
    }

    /// The path after the scene has answered ray after ray as `outcomes` says.
    pub open spec fn run(self, outcomes: Seq<Outcome>) -> Trace
        decreases outcomes.len(),
    {
        if outcomes.len() == 0 {
            self
        } else {
            self.step(outcomes.first()).run(outcomes.drop_first())
        }
    }

    /// How many of the outcomes, from the first on, are scatterings.
    pub open spec fn bounces(outcomes: Seq<Outcome>) -> nat
        decreases outcomes.len(),
    {
        if outcomes.len() == 0 || !(outcomes.first() is Scattered) {
            0
        } else {
            1 + Trace::bounces(outcomes.drop_first())
        }
    }

    /// How many more bounces a path at `depth` may make.
    pub open spec fn room(depth: int) -> nat {
        if depth >= MAX_DEPTH {
            0
        } else {
            (MAX_DEPTH - depth) as nat
        }
    }

    /// The smaller of two numbers.
    pub open spec fn least(a: nat, b: nat) -> nat {
        if a <= b {
            a
        } else {
            b
        }
    }

    /// No more outcomes begin a run than the run holds.
    pub proof fn bounces_within(outcomes: Seq<Outcome>)
        ensures
            Trace::bounces(outcomes) <= outcomes.len(),
        decreases outcomes.len(),
    {
        if outcomes.len() > 0 {
            Trace::bounces_within(outcomes.drop_first());
        }
    }

    /// A path that is over is not changed by what follows.
    pub proof fn over_is_final(self, outcomes: Seq<Outcome>)
        requires
            self.ending is Some,
        ensures
            self.run(outcomes) == self,
        decreases outcomes.len(),
    {
        if outcomes.len() > 0 {
            self.over_is_final(outcomes.drop_first());
        }
    }

    /// Where a run of outcomes leaves a live path.
    ///
    /// The path takes as many bounces as the outcomes begin with scatterings,
    /// but no more than its depth leaves room for. It traces one ray more for
    /// each, and gathers their attenuations in order. It is exhausted if it
    /// used up its room; else it ends with the first outcome that is no
    /// scattering, in the sky on a miss and absorbed otherwise; else it is
    /// still live.
    pub proof fn run_in_closed_form(self, outcomes: Seq<Outcome>)
        requires
            self.ending is None,
            self.depth < MAX_DEPTH,
        ensures
            ({
                let n = Trace::bounces(outcomes);
                let taken = Trace::least(n, Trace::room(self.depth));
                let end = self.run(outcomes);
                &&& n <= outcomes.len()
                &&& end.depth == self.depth + taken
                &&& end.rays == self.rays + taken
                &&& end.filters.len() == self.filters.len() + taken
                &&& forall|i: int| 0 <= i < self.filters.len() ==> end.filters[i] == self.filters[i]
                &&& forall|i: int|
                    0 <= i < taken ==> (#[trigger] outcomes[i] matches Outcome::Scattered(s)
                        && end.filters[self.filters.len() + i] == s.attenuation)
                &&& end.ending == if n >= Trace::room(self.depth) {
                    Some(Ending::Exhausted)
                } else if n == outcomes.len() {
                    None
                } else if outcomes[n as int] is Missed {
                    Some(Ending::Sky)
                } else {
                    Some(Ending::Absorbed)
                }
            }),
        decreases outcomes.len(),
    {
        Trace::bounces_within(outcomes);
        if outcomes.len() > 0 {
            let next = self.step(outcomes.first());
            let rest = outcomes.drop_first();
            if next.ending is Some {
                next.over_is_final(rest);
            } else {
                next.run_in_closed_form(rest);
                let n = Trace::bounces(outcomes);
                let taken = Trace::least(n, Trace::room(self.depth));
                let end = self.run(outcomes);
                assert forall|i: int| 0 <= i < taken implies (#[trigger] outcomes[i] matches Outcome::Scattered(
                    s,
                ) && end.filters[self.filters.len() + i] == s.attenuation) by {
                    if i > 0 {
                        assert(outcomes[i] == rest[i - 1]);
                    }
                }
                if n < outcomes.len() {
                    assert(outcomes[n as int] == rest[n - 1]);
                }
            }
        }
    }

    /// A path gathers no attenuation but those of the scatterings that it is
    /// given: where each of them is a fraction, from 0 to 1 in every
    /// component, so is every attenuation that the path holds.
    pub proof fn filters_are_fractions(depth: int, outcomes: Seq<Outcome>)
        requires
            forall|i: int|
                0 <= i < outcomes.len() ==> (#[trigger] outcomes[i] matches Outcome::Scattered(s)
                    ==> s.attenuation.is_fraction()),
        ensures
            forall|k: int|
                0 <= k < Trace::start(depth).run(outcomes).filters.len() ==> (
                #[trigger] Trace::start(depth).run(outcomes).filters[k]).is_fraction(),
    {
        let start = Trace::start(depth);
        if start.ending is Some {
            start.over_is_final(outcomes);
        } else {
            start.run_in_closed_form(outcomes);
            let end = start.run(outcomes);
            assert forall|k: int| 0 <= k < end.filters.len() implies (#[trigger] end.filters[k]).is_fraction() by {
                assert(outcomes[k] is Scattered);
            }
        }
    }

    /// A path traces one ray, and then one more for each bounce, of which it
    /// makes as many as the scene scatters in a row, and never more than its
    /// depth leaves room for: from depth 0, at most `MAX_DEPTH`.
    pub proof fn rays_are_bounded(depth: int, outcomes: Seq<Outcome>)
        ensures
            Trace::start(depth).run(outcomes).rays == 1 + Trace::least(
                Trace::bounces(outcomes),
                Trace::room(depth),
            ),
            Trace::start(depth).run(outcomes).rays <= 1 + Trace::room(depth),
            depth == 0 ==> Trace::start(depth).run(outcomes).rays <= 1 + MAX_DEPTH,
    {
        let start = Trace::start(depth);
        if start.ending is Some {
            start.over_is_final(outcomes);
        } else {
            start.run_in_closed_form(outcomes);
        }
    }

    /// Every path ends: once the scene has answered as many rays as the depth
    /// leaves room for, or has answered one with anything but a scattering,
    /// the path is over.
    pub proof fn path_ends(depth: int, outcomes: Seq<Outcome>)
        requires
            outcomes.len() >= Trace::room(depth) || Trace::bounces(outcomes) < outcomes.len(),
        ensures
            Trace::start(depth).run(outcomes).ending is Some,
    {
        let start = Trace::start(depth);
        if start.ending is Some {
            start.over_is_final(outcomes);
        } else {
            start.run_in_closed_form(outcomes);
        }
    }
}

impl Path {
    #[verifier::type_invariant]
    spec fn well_formed(self) -> bool {
        &&& self.ending is None ==> self.depth < MAX_DEPTH
        &&& self.filters@.len() <= self.depth + 0x8000_0000
    }

    /// The path of a ray that enters at `depth`: one ray traced, nothing
    /// gathered, and over at once at the depth limit or beyond.
    pub fn start(depth: i32) -> (path: Path)
        ensures
            path@ == Trace::start(depth as int),
    {
        Path {
            depth,
            filters: Vec::new(),
            ending: if depth >= MAX_DEPTH {
                Some(Ending::Exhausted)
            } else {
                None
            },
        }
    }

    /// Whether the path has ended.
    pub fn is_over(&self) -> (r: bool)
        ensures
            r == self@.ending is Some,
    {
        self.ending.is_some()
    }

    /// How the path ended, if it has.
    pub fn ending(&self) -> (r: Option<Ending>)
        ensures
            r == self@.ending,
    {
        self.ending
    }

    /// The depth of the ray that is traced now.
    pub fn depth(&self) -> (r: i32)
        ensures
            r == self@.depth,
    {
        self.depth
    }

    /// How many rays were traced, the first one included.
    pub fn rays(&self) -> (r: u64)
        ensures
            r == self@.rays,
    {
        proof {
            use_type_invariant(self);
        }
        self.filters.len() as u64 + 1
    }

    /// The attenuations gathered, the first bounce first. What the path
    /// gathers is the light at its end multiplied by the last of them, the
    /// product by the one before, and so on to the first.
    pub fn filters(&self) -> (r: &Vec<Vec3f>)
        ensures
            r@ == self@.filters,
    {
        &self.filters
    }

    /// Takes the scene's answer to the current ray, and returns the ray to
    /// trace next, if the path goes on.
    ///
    /// A miss ends the path in the sky and an absorption ends it black. A
    /// scattering adds the attenuation and a ray, one level deeper; at the
    /// depth limit that ray is no longer traced and the path ends black.
    /// A path that is over takes nothing.
    pub fn advance(&mut self, outcome: Outcome) -> (next: Option<Ray>)
        ensures
            final(self)@ == old(self)@.step(outcome),
            next == old(self)@.next_ray(outcome),
    {
        proof {
            use_type_invariant(&*self);
        }
        if self.ending.is_some() {
            return None;
        }
        match outcome {
            Outcome::Missed => {
                self.ending = Some(Ending::Sky);
                None
            },
            Outcome::Absorbed => {
                self.ending = Some(Ending::Absorbed);
                None
            },
            Outcome::Scattered(s) => {
                let over = self.depth + 1 >= MAX_DEPTH;
                let mut filters: Vec<Vec3f> = Vec::new();
                core::mem::swap(&mut filters, &mut self.filters);
                filters.push(s.attenuation);
                if over {
                    self.ending = Some(Ending::Exhausted);
                }
                self.depth = self.depth + 1;
                core::mem::swap(&mut filters, &mut self.filters);
                if over {
                    None
                } else {
                    Some(s.ray)
                }
            },
        }
    }
}

} // verus!
