//! Decision structure of the recursive radiance estimator.
//!
//! Estimating the radiance along a ray alternates floating-point work
//! (intersecting the scene, scattering at the material, sampling the
//! mixture density) with a small set of decisions: stop at the depth bound,
//! return the background on a miss, keep only the emission when the
//! material absorbs or when the sampled density is degenerate, and
//! otherwise recurse with one unit of depth spent. The numeric work happens
//! outside this crate; the decisions are taken here, where each one is
//! pinned exactly and the depth bound and the degenerate-sample policy are
//! proved.

use vstd::prelude::*;

verus! {

/// What one cast ray met, as far as the estimator's control flow is
/// concerned. The numeric payload of each outcome (emission, attenuation,
/// the outgoing ray) stays with the caller.
#[derive(Clone, Copy, Debug, PartialEq, Eq, Structural)]
pub enum SurfaceEvent {
    /// The ray left the scene without hitting anything.
    Miss,
    /// A primitive was hit and its material scattered no ray; pure emitters
    /// answer this way.
    Absorbed,
    /// The material scattered specularly: the outgoing ray is a
    /// deterministic function of the incoming one, so its contribution is
    /// not divided by a sampling density.
    SpecularBounce,
    /// The material scattered diffusely: an outgoing direction was drawn
    /// from the 50/50 mixture of the light-directed and the cosine
    /// distribution. `degenerate_pdf` is set when the mixture density at
    /// the drawn direction is zero or not finite, so that dividing by it
    /// would not yield a usable sample.
    DiffuseBounce { degenerate_pdf: bool },
}

/// What the estimator contributes for one ray, decided from the depth
/// budget and the surface event alone.
#[derive(Clone, Copy, Debug, PartialEq, Eq, Structural)]
pub enum RadianceStep {
    /// Exactly black: the depth bound was reached.
    Black,
    /// The uniform background color: the ray left the scene.
    Background,
    /// The material's emission term alone.
    EmissionOnly,
    /// Emission plus attenuation times the estimate of the scattered ray at
    /// `next_depth`; no density division, the bounce was deterministic.
    SpecularRecurse { next_depth: usize },
    /// Emission plus attenuation times the scattering density times the
    /// estimate of the sampled ray at `next_depth`, divided by the mixture
    /// density at the sampled direction.
    DiffuseRecurse { next_depth: usize },
}

/// The estimator's decision for one ray: what `radiance_step` returns.
pub open spec fn spec_radiance_step(depth: int, event: SurfaceEvent) -> RadianceStep {
    if depth <= 0 {
        RadianceStep::Black
    } else {
        match event {
            SurfaceEvent::Miss => RadianceStep::Background,
            SurfaceEvent::Absorbed => RadianceStep::EmissionOnly,
            SurfaceEvent::SpecularBounce => RadianceStep::SpecularRecurse {
                next_depth: (depth - 1) as usize,
            },
            SurfaceEvent::DiffuseBounce { degenerate_pdf } => if degenerate_pdf {
                RadianceStep::EmissionOnly
            } else {
                RadianceStep::DiffuseRecurse { next_depth: (depth - 1) as usize }
            },
        }
    }
}

/// Decides what the estimator contributes for one ray, given the remaining
/// recursion depth and what the ray met.
pub fn radiance_step(depth: usize, event: SurfaceEvent) -> (step: RadianceStep)
    ensures
        step == spec_radiance_step(depth as int, event),
{
    if depth == 0 {
        RadianceStep::Black
    } else {
        match event {
            SurfaceEvent::Miss => RadianceStep::Background,
            SurfaceEvent::Absorbed => RadianceStep::EmissionOnly,
            SurfaceEvent::SpecularBounce => RadianceStep::SpecularRecurse {
                next_depth: depth - 1,
            },
            SurfaceEvent::DiffuseBounce { degenerate_pdf } => if degenerate_pdf {
                RadianceStep::EmissionOnly
            } else {
                RadianceStep::DiffuseRecurse { next_depth: depth - 1 }
            },
        }
    }
}

/// Depth cutoff: with no recursion budget left the estimator contributes
/// exactly black, whatever the ray met.
pub proof fn lemma_depth_cutoff(event: SurfaceEvent)
    ensures
        spec_radiance_step(0, event) == RadianceStep::Black,
{
}

/// Every recursing step spends one unit of depth, so the estimator's
/// recursion terminates.
pub proof fn lemma_step_spends_depth(depth: int, event: SurfaceEvent)
    requires
        0 <= depth,
    ensures
        spec_radiance_step(depth, event) matches RadianceStep::SpecularRecurse { next_depth }
            ==> next_depth < depth,
        spec_radiance_step(depth, event) matches RadianceStep::DiffuseRecurse { next_depth }
            ==> next_depth < depth,
{
}

/// Degenerate-sample policy: a diffuse bounce whose mixture density cannot
/// be divided by never recurses, so no non-finite value reaches the image;
/// the sample keeps its emission term and contributes nothing else.
pub proof fn lemma_degenerate_sample_recovered(depth: int)
    requires
        0 < depth,
    ensures
        spec_radiance_step(depth, SurfaceEvent::DiffuseBounce { degenerate_pdf: true })
            == RadianceStep::EmissionOnly,
{
}

} // verus!
