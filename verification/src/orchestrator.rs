//! The renderer's long-lived decision state, gathered in one owner: the
//! surface synchronization sizes, the shape of the loaded scene, and the
//! instance grid. The unverified layer holds the GPU handles beside one
//! value of this type and asks it for every decision: what a resize must
//! rebuild, and how to answer each surface acquire.

use vstd::prelude::*;
use crate::extent::Extent;
use crate::frame::{respond_to_acquire, frame_steps_spec, FrameOutcome, SceneShape, SurfaceAcquire};
use crate::grid::{grid_spec, instance_count, instance_grid, GridSlot};
use crate::surface::{ResizeAction, SurfaceSync};

verus! {

/// The verified core of the renderer: every size, count and sequence the
/// frame loop acts on.
#[derive(Debug)]
pub struct Orchestrator {
    /// The sizes that must agree before a frame may be recorded.
    pub surface: SurfaceSync,
    /// Mesh-to-material map, material count and instance count.
    pub scene: SceneShape,
    /// Instances per grid row.
    pub grid_rows: u32,
    /// The instance grid, in the order the instance buffer holds it.
    pub slots: Vec<GridSlot>,
}

impl Orchestrator {
    /// The sizes agree, every mesh's material exists, and the instance
    /// count is exactly the grid's.
    pub open spec fn wf(self) -> bool {
        &&& self.surface.wf()
        &&& self.scene.wf()
        &&& self.slots@ == grid_spec(self.grid_rows)
        &&& self.scene.instance_count == grid_spec(self.grid_rows).len()
    }

    /// Set up the renderer's decision state. Refused only when a mesh
    /// points at a material that does not exist.
    pub fn new(
        initial: Extent,
        mesh_materials: Vec<usize>,
        material_count: usize,
        grid_rows: u32,
    ) -> (r: Option<Orchestrator>)
        requires
            initial.is_drawable(),
            grid_rows <= 0xFFFF,
        ensures
            match r {
                Some(o) => {
                    &&& o.wf()
                    &&& o.surface == (SurfaceSync {
                        config: initial,
                        depth: initial,
                        aspect_source: initial,
                    })
                    &&& o.scene.mesh_materials@ == mesh_materials@
                    &&& o.scene.material_count == material_count
                    &&& o.grid_rows == grid_rows
                },
                None => exists|i: int|
                    0 <= i < mesh_materials@.len()
                        && #[trigger] mesh_materials@[i] >= material_count,
            },
    {
        let count = instance_count(grid_rows);
        match SceneShape::try_new(mesh_materials, material_count, count) {
            Some(scene) => {
                let slots = instance_grid(grid_rows);
                Some(
                    Orchestrator {
                        surface: SurfaceSync::new(initial),
                        scene,
                        grid_rows,
                        slots,
                    },
                )
            },
            None => None,
        }
    }

    /// Apply a resize request: the surface sizes move together or not at
    /// all, the scene and the grid are untouched, and the returned steps
    /// tell the GPU layer what to rebuild.
    pub fn resize(&mut self, size: Extent) -> (actions: Vec<ResizeAction>)
        ensures
            final(self).surface == old(self).surface.resize_spec(size),
            final(self).scene == old(self).scene,
            final(self).grid_rows == old(self).grid_rows,
            final(self).slots == old(self).slots,
            size.is_drawable() ==> actions@ == seq![
                ResizeAction::ConfigureSurface,
                ResizeAction::RebuildDepthTexture,
                ResizeAction::UpdateProjectionAspect,
            ],
            !size.is_drawable() ==> *final(self) == *old(self) && actions@
                == Seq::<ResizeAction>::empty(),
            old(self).wf() ==> final(self).wf(),
    {
        self.surface.resize(size)
    }

    /// A planned frame instances across the whole grid: every main-pass
    /// draw of a well-formed orchestrator covers exactly the instances
    /// the grid placed.
    pub proof fn lemma_frame_covers_grid(self)
        requires
            self.wf(),
        ensures
            ({
                let s = frame_steps_spec(self.scene);
                let mc = self.scene.mesh_materials@.len() as int;
                forall|i: int|
                    5 + 3 * mc < i < s.len() && (#[trigger] s[i]) is DrawMesh ==> s[i]->instances
                        == grid_spec(self.grid_rows).len()
            }),
    {
        crate::frame::lemma_pass_order(self.scene);
    }

    /// Answer one acquire result for the current scene and sizes.
    pub fn respond(&self, acquire: SurfaceAcquire) -> (out: FrameOutcome)
        ensures
            acquire is Acquired ==> (out matches FrameOutcome::Render { steps } && steps@
                == frame_steps_spec(self.scene)),
            acquire is Lost ==> (out matches FrameOutcome::Reconfigure { size } && size
                == self.surface.config),
            acquire is Outdated || acquire is Timeout ==> out is SkipFrame,
            acquire is OutOfMemory ==> out is Fatal,
    {
        respond_to_acquire(&self.scene, &self.surface, acquire)
    }
}

} // verus!
