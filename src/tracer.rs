use vstd::prelude::*;

use crate::materials::MaterialKind;

verus! {

/// Recursion cutoff of the path tracer: a path scatters at most this many times.
pub const MAX_DEPTH: usize = 50;

/// How a scene is lit.
#[derive(Clone, Copy, Debug, PartialEq, Eq, Structural)]
pub enum Lighting {
    /// Light comes from emissive surfaces only: an escaping ray sees black, and
    /// a scattering surface adds its own emission to what its bounce brings back.
    Emissive,
    /// Light comes from a sky gradient seen by escaping rays; emission is
    /// counted only where a path ends on a surface.
    Sky,
}

impl Lighting {
    /// Whether a ray that leaves the scene sees the sky gradient (else black).
    pub fn sky_visible(&self) -> (r: bool)
        ensures
            r == (*self is Sky),
    {
        match self {
            Lighting::Sky => true,
            Lighting::Emissive => false,
        }
    }

    /// Whether a surface that scatters also adds its own emission.
    pub fn adds_emission_on_bounce(&self) -> (r: bool)
        ensures
            r == (*self is Emissive),
    {
        match self {
            Lighting::Emissive => true,
            Lighting::Sky => false,
        }
    }
}

/// What the path tracer does after one closest-hit query.
#[derive(Clone, Copy, Debug, PartialEq, Eq, Structural)]
pub enum PathStep {
    /// Nothing was hit: the background ends the path.
    Escape,
    /// A surface was hit and the path ends there with what it emits.
    Stop,
    /// A surface was hit and scattered: continue one level deeper with the
    /// scattered ray, weighting what it brings back by the attenuation.
    Bounce,
}

/// Whether the hit material is asked to scatter: only below the depth cutoff,
/// and only if its kind can scatter at all.
pub open spec fn scatter_asked(kind: MaterialKind, depth: int, max_depth: int) -> bool {
    depth < max_depth && kind.spec_may_scatter()
}

/// The step taken after a query at `depth` that hit `hit` (if anything), where
/// `scattered` is the material's answer when it was asked.
pub open spec fn step_of(hit: Option<MaterialKind>, depth: int, max_depth: int, scattered: bool) -> PathStep {
    match hit {
        None => PathStep::Escape,
        Some(kind) => if scatter_asked(kind, depth, max_depth) && scattered {
            PathStep::Bounce
        } else {
            PathStep::Stop
        },
    }
}

/// Whether the material of a hit at `depth` is to be asked to scatter.
pub fn should_scatter(kind: MaterialKind, depth: usize, max_depth: usize) -> (r: bool)
    ensures
        r == scatter_asked(kind, depth as int, max_depth as int),
{
    depth < max_depth && kind.may_scatter()
}

/// The decision of the path tracer after one closest-hit query.
pub fn path_step(hit: Option<MaterialKind>, depth: usize, max_depth: usize, scattered: bool) -> (r: PathStep)
    ensures
        r == step_of(hit, depth as int, max_depth as int, scattered),
{
    match hit {
        None => PathStep::Escape,
        Some(kind) => if should_scatter(kind, depth, max_depth) && scattered {
            PathStep::Bounce
        } else {
            PathStep::Stop
        },
    }
}

/// The outcome of one closest-hit query along a path: the kind of the material
/// hit, if any, and whether that material scattered when asked.
pub struct PathEvent {
    pub hit: Option<MaterialKind>,
    pub scattered: bool,
}

/// The number of bounces a path takes when its queries, from `depth` on, meet
/// `events` in turn (a path that runs out of recorded events stops counting).
pub open spec fn bounces(events: Seq<PathEvent>, depth: int, max_depth: int) -> nat
    decreases events.len(),
{
    if events.len() == 0 {
        0
    } else if step_of(events[0].hit, depth, max_depth, events[0].scattered) is Bounce {
        1 + bounces(events.drop_first(), depth + 1, max_depth)
    } else {
        0
    }
}

/// A path that hits an emitter ends there, whatever the depth, the cutoff or the
/// rest of the scene: what it returns is that emitter's emission alone.
pub proof fn lemma_emitter_ends_path(events: Seq<PathEvent>, depth: int, max_depth: int)
    requires
        events.len() > 0,
        events[0].hit == Some(MaterialKind::DiffuseLight),
    ensures
        step_of(events[0].hit, depth, max_depth, events[0].scattered) == PathStep::Stop,
        bounces(events, depth, max_depth) == 0,
{
}

/// Starting at `depth`, a path scatters at most `max_depth - depth` times: the
/// recursion always ends by the cutoff.
pub proof fn lemma_bounces_bounded(events: Seq<PathEvent>, depth: int, max_depth: int)
    requires
        0 <= depth <= max_depth,
    ensures
        bounces(events, depth, max_depth) <= max_depth - depth,
    decreases events.len(),
{
    if events.len() > 0 && step_of(events[0].hit, depth, max_depth, events[0].scattered) is Bounce {
        lemma_bounces_bounded(events.drop_first(), depth + 1, max_depth);
    }
}

} // verus!
