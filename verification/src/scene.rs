//! The parameters that one dispatch hands to the kernel.

use vstd::prelude::*;
use crate::layout::{words_bytes, words_to_bytes};

verus! {

/// Invocations along x in one workgroup of the kernel. Grids are laid out
/// in whole tiles of this width.
pub const TILE: u32 = 256;

/// Bytes that the kernel writes for one cell of the grid.
pub const BYTES_PER_CELL: u64 = 4;

/// Bytes of the uniform block: five words, no padding.
pub const SCENE_BYTES: usize = 20;

/// Width of the standard grid.
pub const WIDTH: u32 = 1024;

/// Height of the standard grid.
pub const HEIGHT: u32 = 1024;

/// Sample count of the standard scene.
pub const POINT: u32 = 8;

/// Frequency of the standard scene.
pub const FREQUENCY: u32 = 43000;

/// Single-precision bit pattern of `FREQUENCY`.
pub const FREQUENCY_BITS: u32 = 0x4727_f800;

/// Single-precision bit pattern of the time at which the standard scene
/// starts, 0.0.
pub const START_BITS: u32 = 0;

/// `n` is a whole number of tiles.
pub open spec fn tile_aligned(n: int) -> bool {
    n % 256 == 0
}

/// A grid that the kernel can fill: both extents are whole numbers of
/// tiles, and its bytes can be counted in 64 bits.
pub open spec fn valid_grid(width: int, height: int) -> bool {
    &&& tile_aligned(width)
    &&& tile_aligned(height)
    &&& width * height * 4 <= u64::MAX
}

/// Bytes of the grid's cells.
pub open spec fn grid_bytes(width: int, height: int) -> int {
    width * height * 4
}

/// Tests whether an extent is a whole number of tiles.
pub fn is_tile_aligned(n: u32) -> (aligned: bool)
    ensures
        aligned == tile_aligned(n as int),
{
    n % TILE == 0
}

/// Tests whether the kernel can fill a grid of this size.
pub fn is_valid_grid(width: u32, height: u32) -> (valid: bool)
    ensures
        valid == valid_grid(width as int, height as int),
{
    if width % TILE != 0 || height % TILE != 0 {
        return false;
    }
    proof {
        assert(width as int * height as int <= 0xffff_ffff * 0xffff_ffff) by (nonlinear_arith)
            requires
                0 <= width <= 0xffff_ffff,
                0 <= height <= 0xffff_ffff,
        ;
    }
    let cells: u64 = width as u64 * height as u64;
    cells <= u64::MAX / BYTES_PER_CELL
}

/// The uniform block of one dispatch.
///
/// `time` and `freq` are single-precision values, held as their bit
/// patterns. The grid is valid for as long as the value lives.
#[derive(Debug, Clone, Copy, PartialEq, Eq)]
pub struct ComputeScene {
    time: u32,
    freq: u32,
    count: u32,
    width: u32,
    height: u32,
}

impl ComputeScene {
    #[verifier::type_invariant]
    spec fn grid_is_valid(self) -> bool {
        valid_grid(self.width as int, self.height as int)
    }

    /// Bit pattern of the time.
    pub closed spec fn spec_time(&self) -> u32 {
        self.time
    }

    /// Bit pattern of the frequency.
    pub closed spec fn spec_freq(&self) -> u32 {
        self.freq
    }

    /// Samples per cell.
    pub closed spec fn spec_count(&self) -> u32 {
        self.count
    }

    /// Cells along x.
    pub closed spec fn spec_width(&self) -> u32 {
        self.width
    }

    /// Cells along y.
    pub closed spec fn spec_height(&self) -> u32 {
        self.height
    }

    /// The five words of the block in the order in which the kernel
    /// declares them.
    pub open spec fn words(&self) -> Seq<u32> {
        seq![
            self.spec_time(),
            self.spec_freq(),
            self.spec_count(),
            self.spec_width(),
            self.spec_height(),
        ]
    }

    /// The bytes of the block as the device reads them.
    pub open spec fn bytes(&self) -> Seq<u8> {
        words_bytes(self.words())
    }

    /// A scene over a grid of `width` by `height` cells, if that grid is
    /// valid.
    pub fn new(time: u32, freq: u32, count: u32, width: u32, height: u32) -> (made: Option<Self>)
        ensures
            made.is_some() <==> valid_grid(width as int, height as int),
            made matches Some(scene) ==> {
                &&& scene.spec_time() == time
                &&& scene.spec_freq() == freq
                &&& scene.spec_count() == count
                &&& scene.spec_width() == width
                &&& scene.spec_height() == height
            },
    {
        if is_valid_grid(width, height) {
            Some(ComputeScene { time, freq, count, width, height })
        } else {
            None
        }
    }

    /// The scene of the standard run: time 0.0, frequency 43000, 8 samples
    /// per cell, 1024 by 1024 cells.
    pub fn standard() -> (scene: Self)
        ensures
            scene.spec_time() == START_BITS,
            scene.spec_freq() == FREQUENCY_BITS,
            scene.spec_count() == POINT,
            scene.spec_width() == WIDTH,
            scene.spec_height() == HEIGHT,
    {
        ComputeScene {
            time: START_BITS,
            freq: FREQUENCY_BITS,
            count: POINT,
            width: WIDTH,
            height: HEIGHT,
        }
    }

    /// Bit pattern of the time.
    #[verifier::when_used_as_spec(spec_time)]
    pub fn time(&self) -> (bits: u32)
        ensures
            bits == self.spec_time(),
    {
        self.time
    }

    /// Bit pattern of the frequency.
    #[verifier::when_used_as_spec(spec_freq)]
    pub fn freq(&self) -> (bits: u32)
        ensures
            bits == self.spec_freq(),
    {
        self.freq
    }

    /// Samples per cell.
    #[verifier::when_used_as_spec(spec_count)]
    pub fn count(&self) -> (count: u32)
        ensures
            count == self.spec_count(),
    {
        self.count
    }

    /// Cells along x.
    #[verifier::when_used_as_spec(spec_width)]
    pub fn width(&self) -> (width: u32)
        ensures
            width == self.spec_width(),
            tile_aligned(width as int),
    {
        proof {
            use_type_invariant(self);
        }
        self.width
    }

    /// Cells along y.
    #[verifier::when_used_as_spec(spec_height)]
    pub fn height(&self) -> (height: u32)
        ensures
            height == self.spec_height(),
            tile_aligned(height as int),
    {
        proof {
            use_type_invariant(self);
        }
        self.height
    }

    /// Bytes of the output buffer that a dispatch of this scene fills: four
    /// for each cell, exactly.
    pub fn output_size(&self) -> (size: u64)
        ensures
            size == grid_bytes(self.spec_width() as int, self.spec_height() as int),
            valid_grid(self.spec_width() as int, self.spec_height() as int),
    {
        proof {
            use_type_invariant(self);
            assert(self.width as int * self.height as int <= self.width as int * self.height as int
                * 4) by (nonlinear_arith)
                requires
                    0 <= self.width,
                    0 <= self.height,
            ;
        }
        self.width as u64 * self.height as u64 * BYTES_PER_CELL
    }

    /// The bytes to upload as the uniform block.
    pub fn to_bytes(&self) -> (bytes: Vec<u8>)
        ensures
            bytes@ == self.bytes(),
            bytes@.len() == SCENE_BYTES,
    {
        let words: [u32; 5] = [self.time, self.freq, self.count, self.width, self.height];
        assert(words@ =~= self.words());
        words_to_bytes(words.as_slice())
    }
}

} // verus!
