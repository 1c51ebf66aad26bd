//! Bringing the output of a dispatch back: to the host as an image, or to
//! a texture that can be presented.

use vstd::prelude::*;
use crate::checked::{Action, Pass, Phase, Progress, ProgressView, Step};
use crate::dispatch::{BufferPlan, BufferUsage, OutputBuffer};
use crate::error::{text_of, Error, ErrorView};
use crate::gray::{decode_image, samples_of, GrayGrid};
use crate::scene::grid_bytes;

verus! {

/// The usage of the staging buffer: a copy writes it, the host maps it and
/// reads it.
pub open spec fn staging_usage() -> BufferUsage {
    BufferUsage { map_read: true, copy_src: false, copy_dst: true, uniform: false, storage: false }
}

/// What came through the one-shot channel on which the device answers the
/// request to map the staging buffer.
#[derive(Debug)]
pub enum MapAnswer {
    /// The buffer is mapped.
    Mapped,
    /// The device declined, with this reason.
    Declined(String),
    /// The channel was dropped before an answer arrived.
    Dropped,
}

/// How far a read-back to the host has come.
#[derive(Debug)]
pub enum ReadState {
    /// The copy to the staging buffer is under way.
    Copying(Progress),
    /// The copy has completed; the mapping has been asked for.
    AwaitMap,
    /// The staging buffer is mapped; its bytes are to be copied out and
    /// the buffer unmapped.
    Mapped,
    /// The read-back failed.
    Failed(Error),
}

/// A `ReadState` as a value of the specification.
pub enum ReadView {
    Copying(ProgressView),
    AwaitMap,
    Mapped,
    Failed(ErrorView),
}

impl View for ReadState {
    type V = ReadView;

    open spec fn view(&self) -> ReadView {
        match self {
            ReadState::Copying(progress) => ReadView::Copying(progress@),
            ReadState::AwaitMap => ReadView::AwaitMap,
            ReadState::Mapped => ReadView::Mapped,
            ReadState::Failed(error) => ReadView::Failed(error@),
        }
    }
}

/// What the driver of a read-back has to do next.
#[derive(Debug, Clone, Copy, PartialEq, Eq, Structural)]
pub enum ReadAction {
    /// Do this action of the copy and hand in what the scope captured.
    Checked(Action),
    /// Ask the device to map the staging buffer for reading, let it work,
    /// and await the answer on the channel without blocking the thread.
    MapStage,
    /// Copy the mapped bytes into a buffer of the host, unmap the staging
    /// buffer, and hand the bytes in.
    CopyOutAndUnmap,
    /// Nothing: the read-back is over.
    Stop,
}

/// The state that a copy in this progress puts the read-back in: the copy
/// has to complete before the buffer is mapped.
pub open spec fn settled(progress: ProgressView) -> ReadView {
    match progress {
        ProgressView::At(step, phase) => ReadView::Copying(ProgressView::At(step, phase)),
        ProgressView::Finished => ReadView::AwaitMap,
        ProgressView::Failed(error) => ReadView::Failed(error),
    }
}

impl ReadView {
    /// The action that is due.
    pub open spec fn action(self) -> ReadAction {
        match self {
            ReadView::Copying(progress) => ReadAction::Checked(progress.action()),
            ReadView::AwaitMap => ReadAction::MapStage,
            ReadView::Mapped => ReadAction::CopyOutAndUnmap,
            ReadView::Failed(_) => ReadAction::Stop,
        }
    }

    /// The state after a checked action of the copy was done.
    pub open spec fn advance(self, captured: Option<Seq<char>>) -> ReadView {
        match self {
            ReadView::Copying(progress) => settled(progress.advance(captured)),
            other => other,
        }
    }

    /// The state after the answer to the map request came in.
    pub open spec fn answer(self, answer: MapAnswer) -> ReadView {
        match self {
            ReadView::AwaitMap => match answer {
                MapAnswer::Mapped => ReadView::Mapped,
                MapAnswer::Declined(reason) => ReadView::Failed(
                    ErrorView::MapError { message: reason@ },
                ),
                MapAnswer::Dropped => ReadView::Failed(ErrorView::ReadbackAborted),
            },
            other => other,
        }
    }

    /// The state after the device was lost.
    pub open spec fn lose(self) -> ReadView {
        match self {
            ReadView::Failed(error) => ReadView::Failed(error),
            _ => ReadView::Failed(ErrorView::DeviceLost),
        }
    }
}

/// A read-back of an output buffer to the host.
#[derive(Debug)]
pub struct Readback {
    output: OutputBuffer,
    state: ReadState,
}

impl Readback {
    #[verifier::type_invariant]
    spec fn stays_in_its_pass(self) -> bool {
        self.state@ matches ReadView::Copying(progress) ==> (progress matches ProgressView::At(
            step,
            _,
        ) && step.spec_pass() == Pass::ToImage)
    }

    /// Cells along x of the grid that is read back.
    pub closed spec fn spec_width(&self) -> u32 {
        self.output.spec_width()
    }

    /// Cells along y of the grid that is read back.
    pub closed spec fn spec_height(&self) -> u32 {
        self.output.spec_height()
    }

    /// Bytes of the output buffer.
    pub closed spec fn spec_size(&self) -> u64 {
        self.output.spec_size()
    }

    /// How far the read-back has come.
    pub closed spec fn view(&self) -> ReadView {
        self.state@
    }

    /// Starts the read-back of an output buffer, which it takes over.
    pub fn new(output: OutputBuffer) -> (readback: Readback)
        ensures
            readback.spec_width() == output.spec_width(),
            readback.spec_height() == output.spec_height(),
            readback.spec_size() == output.spec_size(),
            readback@ == ReadView::Copying(
                ProgressView::At(Step::CreateCopyEncoder, Phase::Open),
            ),
    {
        Readback { output, state: ReadState::Copying(Progress::begin(Pass::ToImage)) }
    }

    /// The staging buffer to create: as large as the output buffer, for a
    /// copy to write and the host to map.
    pub fn staging_plan(&self) -> (plan: BufferPlan)
        ensures
            plan.size == self.spec_size(),
            plan.size == grid_bytes(self.spec_width() as int, self.spec_height() as int),
            plan.usage == staging_usage(),
            plan.usage.map_read && plan.usage.copy_dst,
    {
        BufferPlan {
            size: self.output.size(),
            usage: BufferUsage {
                map_read: true,
                copy_src: false,
                copy_dst: true,
                uniform: false,
                storage: false,
            },
        }
    }

    /// The action that is due. The buffer is mapped only after the copy
    /// has completed, and only steps of the copy are issued.
    pub fn action(&self) -> (action: ReadAction)
        ensures
            action == self@.action(),
            action matches ReadAction::Checked(Action::Issue(step)) ==> step.spec_pass()
                == Pass::ToImage,
    {
        proof {
            use_type_invariant(self);
        }
        match &self.state {
            ReadState::Copying(progress) => ReadAction::Checked(progress.action()),
            ReadState::AwaitMap => ReadAction::MapStage,
            ReadState::Mapped => ReadAction::CopyOutAndUnmap,
            ReadState::Failed(_) => ReadAction::Stop,
        }
    }

    /// Takes what came back from the device after a checked action of the
    /// copy was done. In any other state than `Copying` nothing changes.
    pub fn advance(self, captured: Option<String>) -> (next: Readback)
        ensures
            next.spec_width() == self.spec_width(),
            next.spec_height() == self.spec_height(),
            next.spec_size() == self.spec_size(),
            next@ == self@.advance(text_of(captured)),
    {
        proof {
            use_type_invariant(&self);
        }
        let state = match self.state {
            ReadState::Copying(progress) => match progress.advance(captured) {
                Progress::At(step, phase) => ReadState::Copying(Progress::At(step, phase)),
                Progress::Finished => ReadState::AwaitMap,
                Progress::Failed(error) => ReadState::Failed(error),
            },
            other => other,
        };
        Readback { output: self.output, state }
    }

    /// Takes the answer to the map request: a buffer that the device
    /// declined to map fails the read-back with `MapError`, a dropped
    /// channel with `ReadbackAborted`. In any other state than `AwaitMap`
    /// nothing changes.
    pub fn mapped(self, answer: MapAnswer) -> (next: Readback)
        ensures
            next.spec_width() == self.spec_width(),
            next.spec_height() == self.spec_height(),
            next.spec_size() == self.spec_size(),
            next@ == self@.answer(answer),
    {
        proof {
            use_type_invariant(&self);
        }
        let state = match self.state {
            ReadState::AwaitMap => match answer {
                MapAnswer::Mapped => ReadState::Mapped,
                MapAnswer::Declined(reason) => ReadState::Failed(Error::MapError { message: reason }),
                MapAnswer::Dropped => ReadState::Failed(Error::ReadbackAborted),
            },
            other => other,
        };
        Readback { output: self.output, state }
    }

    /// Takes the notice that the device was lost.
    pub fn device_lost(self) -> (next: Readback)
        ensures
            next.spec_width() == self.spec_width(),
            next.spec_height() == self.spec_height(),
            next.spec_size() == self.spec_size(),
            next@ == self@.lose(),
    {
        proof {
            use_type_invariant(&self);
        }
        let state = match self.state {
            ReadState::Failed(error) => ReadState::Failed(error),
            _ => ReadState::Failed(Error::DeviceLost),
        };
        Readback { output: self.output, state }
    }

    /// Ends the read-back with the bytes that were copied out of the
    /// mapped buffer. Before the buffer is mapped there is no outcome. A
    /// failed read-back gives its error. A mapped one gives the image of
    /// the grid: one sample for each group of four bytes.
    pub fn finish(self, bytes: &[u8]) -> (outcome: Option<Result<GrayGrid, Error>>)
        ensures
            match self@ {
                ReadView::Copying(_) => outcome is None,
                ReadView::AwaitMap => outcome is None,
                ReadView::Failed(error) => outcome matches Some(Err(e)) && e@ == error,
                ReadView::Mapped => if self.spec_width() * self.spec_height() <= bytes@.len() / 4 {
                    outcome matches Some(Ok(image)) && image.spec_width() == self.spec_width()
                        && image.spec_height() == self.spec_height() && image@ == samples_of(
                        bytes@,
                    )
                } else {
                    outcome matches Some(Err(e)) && e == Error::ImageTooSmall
                },
            },
    {
        match self.state {
            ReadState::Copying(_) => None,
            ReadState::AwaitMap => None,
            ReadState::Failed(error) => Some(Err(error)),
            ReadState::Mapped => Some(decode_image(bytes, self.output.width(), self.output.height())),
        }
    }
}

/// A read-back asks for the mapping exactly when every step of the copy
/// has been issued and none captured an error, and it reads no buffer that
/// it has not asked to be mapped.
pub proof fn lemma_map_follows_copy(progress: ProgressView)
    ensures
        settled(progress).action() == ReadAction::MapStage <==> progress is Finished,
        settled(progress).action() != ReadAction::CopyOutAndUnmap,
{
}

/// A buffer of exactly the bytes of a grid holds a group of four for every
/// cell and none beyond: the read-back of a whole output buffer decodes to
/// an image with one sample for each cell.
pub proof fn lemma_grid_bytes_hold_every_cell(width: int, height: int)
    requires
        0 <= width,
        0 <= height,
    ensures
        grid_bytes(width, height) / 4 == width * height,
        forall|bytes: Seq<u8>|
            bytes.len() == grid_bytes(width, height) ==> (#[trigger] samples_of(bytes)).len()
                == width * height,
{
    assert(width * height >= 0) by (nonlinear_arith)
        requires
            0 <= width,
            0 <= height,
    ;
}

/// Bytes of one texel of the texture that a grid is copied to.
pub const BYTES_PER_TEXEL: u32 = 4;

/// The least multiple of `alignment` that is not below `bytes`.
pub open spec fn aligned_up(bytes: int, alignment: int) -> int {
    if bytes % alignment == 0 {
        bytes
    } else {
        bytes + alignment - bytes % alignment
    }
}

/// The bytes from one row to the next in a copy between a buffer and a
/// texture on a device that wants rows aligned to `alignment` bytes: the
/// bytes of a row, padded up to the alignment. `None` if there is no
/// alignment or the stride does not fit in 32 bits.
pub fn row_stride(width: u32, alignment: u32) -> (stride: Option<u32>)
    ensures
        stride matches Some(bytes) ==> bytes == aligned_up(4 * width, alignment as int),
        stride is None <==> alignment == 0 || aligned_up(4 * width, alignment as int) > u32::MAX,
{
    if alignment == 0 {
        return None;
    }
    let texel: u64 = BYTES_PER_TEXEL as u64;
    assert(texel == 4);
    let row: u64 = width as u64 * texel;
    let over: u64 = row % alignment as u64;
    let padded: u64 = if over == 0 {
        row
    } else {
        row + (alignment as u64 - over)
    };
    if padded > u32::MAX as u64 {
        None
    } else {
        Some(padded as u32)
    }
}

/// The padded stride is a multiple of the alignment, covers the row, and
/// is the least such number.
pub proof fn lemma_aligned_up_is_least(bytes: int, alignment: int, other: int)
    requires
        0 <= bytes,
        0 < alignment,
    ensures
        aligned_up(bytes, alignment) % alignment == 0,
        bytes <= aligned_up(bytes, alignment) < bytes + alignment,
        (other % alignment == 0 && bytes <= other) ==> aligned_up(bytes, alignment) <= other,
{
    let up = aligned_up(bytes, alignment);
    let q = bytes / alignment;
    let r = bytes % alignment;
    assert(bytes == alignment * q + r) by {
        vstd::arithmetic::div_mod::lemma_fundamental_div_mod(bytes, alignment);
    }
    if r == 0 {
        assert(up == bytes);
    } else {
        assert(up == alignment * (q + 1)) by (nonlinear_arith)
            requires
                up == bytes + alignment - r,
                bytes == alignment * q + r,
        ;
        assert(up % alignment == 0) by {
            vstd::arithmetic::div_mod::lemma_mod_multiples_basic(q + 1, alignment);
            assert(alignment * (q + 1) == (q + 1) * alignment) by (nonlinear_arith);
        }
    }
    if other % alignment == 0 && bytes <= other {
        let k = other / alignment;
        assert(other == alignment * k) by {
            vstd::arithmetic::div_mod::lemma_fundamental_div_mod(other, alignment);
        }
        if r != 0 {
            assert(k > q) by (nonlinear_arith)
                requires
                    alignment * k >= alignment * q + r,
                    r > 0,
                    alignment > 0,
            ;
            assert(alignment * k >= alignment * (q + 1)) by (nonlinear_arith)
                requires
                    k >= q + 1,
                    alignment > 0,
            ;
        }
    }
}

/// Rows of a grid of whole tiles need no padding on a device that wants
/// rows aligned to 256 bytes: the texture can be filled from the output
/// buffer as it is.
pub proof fn lemma_tiled_rows_need_no_padding(width: int)
    requires
        0 <= width,
        crate::scene::tile_aligned(width),
    ensures
        aligned_up(4 * width, 256) == 4 * width,
{
}

/// The usage of the texture: a copy may write it and a copy may read it.
#[derive(Debug, Clone, Copy, PartialEq, Eq, Structural)]
pub struct TextureUsage {
    pub copy_src: bool,
    pub copy_dst: bool,
}

/// A texture to create and the copy that fills it from an output buffer.
#[derive(Debug, Clone, Copy, PartialEq, Eq, Structural)]
pub struct TexturePlan {
    /// Texels along x.
    pub width: u32,
    /// Texels along y.
    pub height: u32,
    pub usage: TextureUsage,
    /// Bytes from one row to the next in the buffer.
    pub bytes_per_row: u32,
    /// Rows of the image in the buffer.
    pub rows_per_image: u32,
}

/// Plans the texture for the grid of an output buffer and the copy that
/// fills it, on a device that wants rows aligned to `alignment` bytes.
/// There is a plan exactly when the rows of the buffer, which lie one
/// after another without padding, are aligned as they are.
pub fn texture_plan(output: &OutputBuffer, alignment: u32) -> (plan: Option<TexturePlan>)
    ensures
        plan is Some <==> alignment > 0 && aligned_up(4 * output.spec_width(), alignment as int)
            == 4 * output.spec_width() <= u32::MAX,
        plan matches Some(plan) ==> {
            &&& plan.width == output.spec_width()
            &&& plan.height == output.spec_height()
            &&& plan.usage == TextureUsage { copy_src: true, copy_dst: true }
            &&& plan.bytes_per_row == 4 * output.spec_width()
            &&& plan.rows_per_image == output.spec_height()
        },
{
    let width: u32 = output.width();
    let height: u32 = output.height();
    match row_stride(width, alignment) {
        Some(stride) => {
            let texel: u64 = BYTES_PER_TEXEL as u64;
            assert(texel == 4);
            if stride as u64 == width as u64 * texel {
                Some(
                    TexturePlan {
                        width,
                        height,
                        usage: TextureUsage { copy_src: true, copy_dst: true },
                        bytes_per_row: stride,
                        rows_per_image: height,
                    },
                )
            } else {
                None
            }
        },
        None => None,
    }
}

/// Starts the copy of an output buffer to a texture.
pub fn begin_surface_copy() -> (progress: Progress)
    ensures
        progress@ == ProgressView::At(Step::CreateTexture, Phase::Open),
{
    Progress::begin(Pass::ToSurface)
}

} // verus!
