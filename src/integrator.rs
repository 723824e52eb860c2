use vstd::prelude::*;

verus! {

/// The deepest a light path may go: a hit at this depth is black.
pub const MAX_DEPTH: u32 = 50;

/// What the tracer does with a ray once the world has been asked about it.
#[derive(Clone, Copy, Debug, PartialEq, Eq, Structural)]
pub enum Step {
    /// Nothing was hit: the ray takes the background gradient.
    Sky,
    /// Something was hit but the path may go no deeper: the ray is black.
    Black,
    /// Something was hit: the hit material is asked to scatter the ray.
    Scatter,
}

/// What became of a ray at one level of a light path.
#[derive(Clone, Copy, Debug, PartialEq, Eq, Structural)]
pub enum Outcome {
    /// The ray hit nothing.
    Miss,
    /// The ray hit a surface whose material absorbed it.
    Absorbed,
    /// The ray hit a surface whose material sent out a new ray.
    Scattered,
}

/// The step taken at `depth` when the world reports a hit (`hit`) or none.
pub open spec fn step_at(depth: nat, hit: bool) -> Step {
    if !hit {
        Step::Sky
    } else if depth < MAX_DEPTH {
        Step::Scatter
    } else {
        Step::Black
    }
}

/// The number of bounces of a path that starts at `depth` and meets
/// `outcomes`, one per level, until it ends (on a miss, an absorption, the
/// depth bound, or the end of `outcomes`).
pub open spec fn bounces(depth: nat, outcomes: Seq<Outcome>) -> nat
    decreases outcomes.len(),
{
    if outcomes.len() == 0 {
        0
    } else {
        match outcomes[0] {
            Outcome::Miss => 0,
            Outcome::Absorbed => 0,
            Outcome::Scattered => if step_at(depth, true) == Step::Scatter {
                1 + bounces(depth + 1, outcomes.drop_first())
            } else {
                0
            },
        }
    }
}

/// A light path being traced: how many times it has bounced so far.
#[derive(Clone, Copy, Debug)]
pub struct Path {
    depth: u32,
}

impl Path {
    /// The depth bound holds.
    pub open spec fn wf(self) -> bool {
        self.spec_depth() <= MAX_DEPTH
    }

    pub closed spec fn spec_depth(self) -> nat {
        self.depth as nat
    }

    /// A path leaving the camera: no bounce yet.
    pub fn new() -> (r: Path)
        ensures
            r.wf(),
            r.spec_depth() == 0,
    {
        Path { depth: 0 }
    }

    /// The number of bounces so far.
    pub fn depth(&self) -> (r: u32)
        ensures
            r == self.spec_depth(),
    {
        self.depth
    }

    /// What to do once the world has said whether the current ray hits
    /// anything: the sky on a miss, a scatter while the depth bound allows
    /// it, black otherwise.
    pub fn on_world(&self, hit: bool) -> (r: Step)
        ensures
            r == step_at(self.spec_depth(), hit),
    {
        if !hit {
            Step::Sky
        } else if self.depth < MAX_DEPTH {
            Step::Scatter
        } else {
            Step::Black
        }
    }

    /// Follows the scattered ray one level deeper. Only a hit on which
    /// `on_world` asked for a scatter may bounce.
    pub fn bounce(&mut self)
        requires
            old(self).wf(),
            step_at(old(self).spec_depth(), true) == Step::Scatter,
        ensures
            final(self).wf(),
            final(self).spec_depth() == old(self).spec_depth() + 1,
    {
        self.depth = self.depth + 1;
    }
}

/// A path that starts at a depth within the bound bounces at most as many
/// times as the bound leaves it, whatever the world and the materials do.
pub proof fn lemma_bounces_bounded(depth: nat, outcomes: Seq<Outcome>)
    requires
        depth <= MAX_DEPTH,
    ensures
        depth + bounces(depth, outcomes) <= MAX_DEPTH,
    decreases outcomes.len(),
{
    if outcomes.len() > 0 && outcomes[0] == Outcome::Scattered && depth < MAX_DEPTH {
        lemma_bounces_bounded(depth + 1, outcomes.drop_first());
    }
}

/// No light path traced from the camera performs more than `MAX_DEPTH`
/// bounces, whatever the world and the materials do.
pub proof fn lemma_path_bounces_at_most_max_depth(outcomes: Seq<Outcome>)
    ensures
        bounces(0, outcomes) <= MAX_DEPTH,
{
    lemma_bounces_bounded(0, outcomes);
}

} // verus!
