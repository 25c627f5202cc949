use vstd::prelude::*;

verus! {

/// What a ray met in the scene on one step of a path.
#[derive(Clone, Copy, Debug, PartialEq, Eq, Structural)]
pub enum Interaction {
    /// The ray left the scene without touching any surface.
    Miss,
    /// The ray hit a surface whose material absorbed it.
    Absorbed,
    /// The ray hit a surface whose material sent out a new ray.
    Scattered,
}

/// What the estimator does next.
#[derive(Clone, Copy, Debug, PartialEq, Eq, Structural)]
pub enum Step {
    /// The path ends and contributes no light.
    Black,
    /// The path ends in the background gradient.
    Background,
    /// Multiply in the attenuation and follow the scattered ray with this
    /// depth left, which is never zero.
    Bounce { depth: u32 },
}

/// The decision of the estimator at one step, with `depth` bounces left.
pub open spec fn step_spec(depth: u32, event: Interaction) -> Step {
    if depth == 0 {
        Step::Black
    } else {
        match event {
            Interaction::Miss => Step::Background,
            Interaction::Absorbed => Step::Black,
            Interaction::Scattered => if depth == 1 {
                Step::Black
            } else {
                Step::Bounce { depth: (depth - 1) as u32 }
            },
        }
    }
}

/// Whether a ray followed with `depth` bounces left is traced at all: with
/// none left the scene is not consulted and the ray carries no light.
pub fn traced(depth: u32) -> (r: bool)
    ensures
        r == (depth > 0),
{
    depth > 0
}

/// Decides what follows once the ray of the current step has met `event`,
/// with `depth` bounces left: with none left the path is dark, whatever it
/// met, and a ray scattered on the last bounce allowed carries no light.
pub fn step(depth: u32, event: Interaction) -> (r: Step)
    ensures
        depth == 0 ==> r == Step::Black,
        depth > 0 && event == Interaction::Miss ==> r == Step::Background,
        depth > 0 && event == Interaction::Absorbed ==> r == Step::Black,
        depth == 1 && event == Interaction::Scattered ==> r == Step::Black,
        depth > 1 && event == Interaction::Scattered ==> r == (Step::Bounce { depth: (depth - 1) as u32 }),
        r matches Step::Bounce { depth: d } ==> d > 0,
        r == step_spec(depth, event),
{
    if depth == 0 {
        Step::Black
    } else {
        match event {
            Interaction::Miss => Step::Background,
            Interaction::Absorbed => Step::Black,
            Interaction::Scattered => if depth == 1 {
                Step::Black
            } else {
                Step::Bounce { depth: depth - 1 }
            },
        }
    }
}

/// How a path ends when the rays along it meet `events` in turn, starting
/// with `depth` bounces allowed: the number of attenuations multiplied in, and
/// whether the path ends in the background (else it carries no light). A path
/// whose events run out before it ends is taken as dark.
pub open spec fn path_end(depth: u32, events: Seq<Interaction>) -> (nat, bool)
    decreases events.len(),
{
    if events.len() == 0 {
        (0, false)
    } else {
        match step_spec(depth, events[0]) {
            Step::Black => (0, false),
            Step::Background => (0, true),
            Step::Bounce { depth: d } => {
                let rest = path_end(d, events.drop_first());
                (rest.0 + 1, rest.1)
            },
        }
    }
}

/// A path started with no depth left is dark and multiplies in nothing,
/// whatever the rays would have met.
pub proof fn lemma_zero_depth_is_black(events: Seq<Interaction>)
    ensures
        path_end(0, events) == (0nat, false),
{
}

/// A path never bounces more often than the depth it started with.
pub proof fn lemma_bounces_bounded(depth: u32, events: Seq<Interaction>)
    ensures
        path_end(depth, events).0 <= depth,
    decreases events.len(),
{
    if events.len() > 0 {
        if let Step::Bounce { depth: d } = step_spec(depth, events[0]) {
            lemma_bounces_bounded(d, events.drop_first());
        }
    }
}

} // verus!
