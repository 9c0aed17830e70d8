//! Synchronization of the presentation surface, the depth texture and the
//! projection's aspect ratio.
//!
//! The renderer must never record a frame while the depth texture or the
//! aspect ratio disagree with the surface configuration, so the three sizes
//! are kept in one place and move together. A resize request with a zero
//! side is ignored outright: the surface cannot be configured to it and
//! nothing may be rebuilt on its account.

use vstd::prelude::*;
use crate::extent::Extent;

verus! {

/// One step the unverified GPU layer must perform to carry out a resize.
/// The steps come out in the order they must run.
#[derive(Clone, Copy, Debug, PartialEq, Eq, Structural)]
pub enum ResizeAction {
    /// Reconfigure the surface to the new extent.
    ConfigureSurface,
    /// Recreate the depth texture at the new extent.
    RebuildDepthTexture,
    /// Recompute the projection's aspect ratio from the new extent.
    UpdateProjectionAspect,
}

/// The sizes that must agree before a frame may be recorded: the surface
/// configuration, the depth texture, and the dimensions the projection's
/// aspect ratio was computed from.
#[derive(Clone, Copy, Debug, PartialEq, Eq, Structural)]
pub struct SurfaceSync {
    /// Extent the surface is currently configured to.
    pub config: Extent,
    /// Extent of the depth texture.
    pub depth: Extent,
    /// Extent the projection's aspect ratio was last computed from.
    pub aspect_source: Extent,
}

impl SurfaceSync {
    /// All three sizes agree and the surface is drawable; a frame may only
    /// be recorded in this state.
    pub open spec fn wf(self) -> bool {
        &&& self.depth == self.config
        &&& self.aspect_source == self.config
        &&& self.config.is_drawable()
    }

    /// What a resize request leaves behind: a drawable extent replaces all
    /// three sizes, any other request changes nothing.
    pub open spec fn resize_spec(self, size: Extent) -> SurfaceSync {
        if size.is_drawable() {
            SurfaceSync { config: size, depth: size, aspect_source: size }
        } else {
            self
        }
    }

    pub fn new(initial: Extent) -> (s: SurfaceSync)
        requires
            initial.is_drawable(),
        ensures
            s == (SurfaceSync { config: initial, depth: initial, aspect_source: initial }),
            s.wf(),
    {
        SurfaceSync { config: initial, depth: initial, aspect_source: initial }
    }

    /// Apply a resize request. Returns the steps the GPU layer must run, in
    /// order; a request with a zero side returns no steps and leaves every
    /// size untouched.
    pub fn resize(&mut self, size: Extent) -> (actions: Vec<ResizeAction>)
        ensures
            *final(self) == old(self).resize_spec(size),
            size.is_drawable() ==> actions@ == seq![
                ResizeAction::ConfigureSurface,
                ResizeAction::RebuildDepthTexture,
                ResizeAction::UpdateProjectionAspect,
            ],
            !size.is_drawable() ==> *final(self) == *old(self) && actions@ == Seq::<ResizeAction>::empty(),
            old(self).wf() ==> final(self).wf(),
    {
        let mut actions: Vec<ResizeAction> = Vec::new();
        if size.drawable() {
            self.config = size;
            self.depth = size;
            self.aspect_source = size;
            actions.push(ResizeAction::ConfigureSurface);
            actions.push(ResizeAction::RebuildDepthTexture);
            actions.push(ResizeAction::UpdateProjectionAspect);
            assert(actions@ =~= seq![
                ResizeAction::ConfigureSurface,
                ResizeAction::RebuildDepthTexture,
                ResizeAction::UpdateProjectionAspect,
            ]);
        } else {
            assert(actions@ =~= Seq::<ResizeAction>::empty());
        }
        actions
    }
}

/// The state left by a whole sequence of resize requests, applied in order.
pub open spec fn apply_resizes(s: SurfaceSync, sizes: Seq<Extent>) -> SurfaceSync
    decreases sizes.len(),
{
    if sizes.len() == 0 {
        s
    } else {
        apply_resizes(s.resize_spec(sizes[0]), sizes.skip(1))
    }
}

/// After any sequence of resize requests, a renderer that started with its
/// sizes in agreement still has the depth texture, the surface configuration
/// and the aspect ratio's source dimensions equal.
pub proof fn lemma_resize_sequence_preserves_wf(s: SurfaceSync, sizes: Seq<Extent>)
    requires
        s.wf(),
    ensures
        apply_resizes(s, sizes).wf(),
    decreases sizes.len(),
{
    if sizes.len() > 0 {
        lemma_resize_sequence_preserves_wf(s.resize_spec(sizes[0]), sizes.skip(1));
    }
}

} // verus!
