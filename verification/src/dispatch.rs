//! One dispatch of the kernel over the grid of a scene.

use vstd::prelude::*;
use crate::checked::{Action, Pass, Phase, Progress, ProgressView, Step};
use crate::error::{text_of, Error};
use crate::scene::{grid_bytes, valid_grid, ComputeScene, SCENE_BYTES, TILE};

verus! {

/// What a buffer may be used for.
#[derive(Debug, Clone, Copy, PartialEq, Eq, Structural)]
pub struct BufferUsage {
    /// The host may map the buffer and read it.
    pub map_read: bool,
    /// A copy may read from the buffer.
    pub copy_src: bool,
    /// A copy may write to the buffer.
    pub copy_dst: bool,
    /// A shader may read the buffer as a uniform block.
    pub uniform: bool,
    /// A shader may read and write the buffer as storage.
    pub storage: bool,
}

/// A buffer to create.
#[derive(Debug, Clone, Copy, PartialEq, Eq, Structural)]
pub struct BufferPlan {
    pub size: u64,
    pub usage: BufferUsage,
}

/// The usage of the uniform buffer.
pub open spec fn uniform_usage() -> BufferUsage {
    BufferUsage { map_read: false, copy_src: false, copy_dst: false, uniform: true, storage: false }
}

/// The usage of the output buffer: the kernel writes it, a copy reads it.
pub open spec fn output_usage() -> BufferUsage {
    BufferUsage { map_read: false, copy_src: true, copy_dst: false, uniform: false, storage: true }
}

/// The workgroups that cover a grid: one for each tile of each row.
pub open spec fn workgroups_of(width: int, height: int) -> (int, int, int) {
    (width / 256, height, 1)
}

/// The output buffer of a dispatch that has completed.
///
/// Only a finished dispatch gives one out, and it cannot be copied: the
/// read-back that takes it is the only one.
#[derive(Debug)]
pub struct OutputBuffer {
    width: u32,
    height: u32,
    size: u64,
}

impl OutputBuffer {
    #[verifier::type_invariant]
    spec fn holds_the_grid(self) -> bool {
        &&& valid_grid(self.width as int, self.height as int)
        &&& self.size == grid_bytes(self.width as int, self.height as int)
    }

    /// Cells along x.
    pub closed spec fn spec_width(&self) -> u32 {
        self.width
    }

    /// Cells along y.
    pub closed spec fn spec_height(&self) -> u32 {
        self.height
    }

    /// Bytes of the buffer.
    pub closed spec fn spec_size(&self) -> u64 {
        self.size
    }

    /// Cells along x.
    #[verifier::when_used_as_spec(spec_width)]
    pub fn width(&self) -> (width: u32)
        ensures
            width == self.spec_width(),
    {
        self.width
    }

    /// Cells along y.
    #[verifier::when_used_as_spec(spec_height)]
    pub fn height(&self) -> (height: u32)
        ensures
            height == self.spec_height(),
    {
        self.height
    }

    /// Bytes of the buffer: four for each cell, exactly.
    #[verifier::when_used_as_spec(spec_size)]
    pub fn size(&self) -> (size: u64)
        ensures
            size == self.spec_size(),
            size == grid_bytes(self.spec_width() as int, self.spec_height() as int),
            valid_grid(self.spec_width() as int, self.spec_height() as int),
    {
        proof {
            use_type_invariant(self);
        }
        self.size
    }
}

/// A dispatch under way: the scene and how far its steps have come.
#[derive(Debug)]
pub struct Dispatch {
    scene: ComputeScene,
    progress: Progress,
}

impl Dispatch {
    #[verifier::type_invariant]
    spec fn stays_in_its_pass(self) -> bool {
        self.progress@ matches ProgressView::At(step, _) ==> step.spec_pass() == Pass::Dispatch
    }

    /// The scene of the dispatch.
    pub closed spec fn spec_scene(&self) -> ComputeScene {
        self.scene
    }

    /// How far the steps have come.
    pub closed spec fn view(&self) -> ProgressView {
        self.progress@
    }

    /// Starts the dispatch of a scene.
    pub fn new(scene: ComputeScene) -> (dispatch: Dispatch)
        ensures
            dispatch.spec_scene() == scene,
            dispatch@ == ProgressView::At(Step::CreateShader, Phase::Open),
    {
        Dispatch { scene, progress: Progress::begin(Pass::Dispatch) }
    }

    /// The scene of the dispatch.
    #[verifier::when_used_as_spec(spec_scene)]
    pub fn scene(&self) -> (scene: ComputeScene)
        ensures
            scene == self.spec_scene(),
    {
        self.scene
    }

    /// The action that is due. Only steps of the dispatch are issued.
    pub fn action(&self) -> (action: Action)
        ensures
            action == self@.action(),
            action matches Action::Issue(step) ==> step.spec_pass() == Pass::Dispatch,
    {
        proof {
            use_type_invariant(self);
        }
        self.progress.action()
    }

    /// Takes what came back from the device after the due action was done.
    pub fn advance(self, captured: Option<String>) -> (next: Dispatch)
        ensures
            next.spec_scene() == self.spec_scene(),
            next@ == self@.advance(text_of(captured)),
    {
        proof {
            use_type_invariant(&self);
        }
        Dispatch { scene: self.scene, progress: self.progress.advance(captured) }
    }

    /// Takes the notice that the device was lost.
    pub fn device_lost(self) -> (next: Dispatch)
        ensures
            next.spec_scene() == self.spec_scene(),
            next@ == self@.lose(),
    {
        proof {
            use_type_invariant(&self);
        }
        Dispatch { scene: self.scene, progress: self.progress.device_lost() }
    }

    /// The bytes to create the uniform buffer with.
    pub fn uniform_contents(&self) -> (bytes: Vec<u8>)
        ensures
            bytes@ == self.spec_scene().bytes(),
            bytes@.len() == SCENE_BYTES,
    {
        self.scene.to_bytes()
    }

    /// The uniform buffer to create.
    pub fn uniform_plan(&self) -> (plan: BufferPlan)
        ensures
            plan.size == SCENE_BYTES,
            plan.usage == uniform_usage(),
    {
        BufferPlan {
            size: SCENE_BYTES as u64,
            usage: BufferUsage {
                map_read: false,
                copy_src: false,
                copy_dst: false,
                uniform: true,
                storage: false,
            },
        }
    }

    /// The output buffer to create: four bytes for each cell of the grid,
    /// exactly, for the kernel to write and a copy to read.
    pub fn output_plan(&self) -> (plan: BufferPlan)
        ensures
            plan.size == grid_bytes(
                self.spec_scene().spec_width() as int,
                self.spec_scene().spec_height() as int,
            ),
            plan.usage == output_usage(),
            plan.usage.storage && plan.usage.copy_src,
    {
        BufferPlan {
            size: self.scene.output_size(),
            usage: BufferUsage {
                map_read: false,
                copy_src: true,
                copy_dst: false,
                uniform: false,
                storage: true,
            },
        }
    }

    /// The workgroups to dispatch along x, y and z. Along x they cover the
    /// width exactly.
    pub fn workgroups(&self) -> (groups: (u32, u32, u32))
        ensures
            (groups.0 as int, groups.1 as int, groups.2 as int) == workgroups_of(
                self.spec_scene().spec_width() as int,
                self.spec_scene().spec_height() as int,
            ),
            groups.0 * 256 == self.spec_scene().spec_width(),
    {
        let width: u32 = self.scene.width();
        let height: u32 = self.scene.height();
        (width / TILE, height, 1)
    }

    /// Ends the dispatch. While steps are due there is no outcome. A
    /// finished dispatch gives its output buffer, a failed one its error,
    /// and nothing else gives an output buffer.
    pub fn finish(self) -> (outcome: Option<Result<OutputBuffer, Error>>)
        ensures
            match self@ {
                ProgressView::At(_, _) => outcome is None,
                ProgressView::Finished => outcome matches Some(Ok(buffer)) && buffer.spec_width()
                    == self.spec_scene().spec_width() && buffer.spec_height()
                    == self.spec_scene().spec_height() && buffer.spec_size() == grid_bytes(
                    self.spec_scene().spec_width() as int,
                    self.spec_scene().spec_height() as int,
                ),
                ProgressView::Failed(error) => outcome matches Some(Err(e)) && e@ == error,
            },
    {
        match self.progress {
            Progress::At(_, _) => None,
            Progress::Finished => {
                let size: u64 = self.scene.output_size();
                Some(
                    Ok(OutputBuffer { width: self.scene.width(), height: self.scene.height(), size }),
                )
            },
            Progress::Failed(error) => Some(Err(error)),
        }
    }
}

/// On a valid grid the output buffer has four bytes for each cell and the
/// workgroups cover each row exactly once.
pub proof fn lemma_grid_is_covered(width: int, height: int)
    requires
        0 <= width,
        0 <= height,
        valid_grid(width, height),
    ensures
        grid_bytes(width, height) == width * height * 4,
        workgroups_of(width, height).0 * 256 == width,
        workgroups_of(width, height).1 == height,
        workgroups_of(width, height).2 == 1,
{
}

} // verus!
