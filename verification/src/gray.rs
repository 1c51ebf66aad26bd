//! The gray image that a read-back decodes to.

use vstd::prelude::*;
use crate::error::Error;
use crate::layout::{read_word, word_at, words_bytes, lemma_words_round_trip};
use crate::sample::{sample, sample_of_bits, lemma_sample_of_one_and_zero, lemma_sample_range, ONE_BITS, ZERO_BITS};

verus! {

/// The samples that a run of bytes decodes to: one for each word.
pub open spec fn samples_of(bytes: Seq<u8>) -> Seq<u8> {
    Seq::new(bytes.len() / 4, |j: int| sample(word_at(bytes, 4 * j)) as u8)
}

/// Cells encoded as words and decoded again give, cell by cell, the sample
/// of the value that was encoded.
pub proof fn lemma_encoded_cells_decode(cells: Seq<u32>)
    ensures
        samples_of(words_bytes(cells)).len() == cells.len(),
        forall|j: int|
            0 <= j < cells.len() ==> #[trigger] samples_of(words_bytes(cells))[j] == sample(
                cells[j],
            ),
{
    lemma_words_round_trip(cells);
    let bytes = words_bytes(cells);
    assert forall|j: int| 0 <= j < cells.len() implies #[trigger] samples_of(bytes)[j] == sample(
        cells[j],
    ) by {
        assert(crate::layout::bytes_words(bytes)[j] == cells[j]);
        lemma_sample_range(cells[j]);
    }
}

/// A buffer in which every cell holds 1.0 decodes to samples that are all
/// 255, and one in which every cell holds 0.0 to samples that are all 0.
pub proof fn lemma_uniform_cells_decode(cells: Seq<u32>)
    ensures
        (forall|j: int| 0 <= j < cells.len() ==> cells[j] == ONE_BITS) ==> (forall|j: int|
            0 <= j < cells.len() ==> #[trigger] samples_of(words_bytes(cells))[j] == 255),
        (forall|j: int| 0 <= j < cells.len() ==> cells[j] == ZERO_BITS) ==> (forall|j: int|
            0 <= j < cells.len() ==> #[trigger] samples_of(words_bytes(cells))[j] == 0),
{
    lemma_encoded_cells_decode(cells);
    lemma_sample_of_one_and_zero();
}

/// Decodes the bytes of a read-back into samples, one for each group of
/// four bytes. Bytes after the last whole group are left out.
pub fn decode_samples(bytes: &[u8]) -> (samples: Vec<u8>)
    ensures
        samples@ == samples_of(bytes@),
{
    let count: usize = bytes.len() / 4;
    let mut samples: Vec<u8> = Vec::new();
    let mut j: usize = 0;
    while j < count
        invariant
            count == bytes@.len() / 4,
            4 * count <= bytes@.len() <= usize::MAX,
            j <= count,
            samples@.len() == j,
            forall|k: int| 0 <= k < j ==> samples@[k] == sample(word_at(bytes@, 4 * k)) as u8,
        decreases count - j,
    {
        let word: u32 = read_word(bytes, 4 * j);
        samples.push(sample_of_bits(word));
        j += 1;
    }
    assert(samples@ =~= samples_of(bytes@));
    samples
}

/// Hands the samples to `image::GrayImage::from_vec` and takes the buffer
/// of the image it makes back with `into_raw`.
///
/// Trusted: `from_vec` makes an image exactly when the buffer holds at
/// least `width * height` samples, and the image keeps the buffer as it
/// was given.
#[verifier::external_body]
fn gray_image_buffer(width: u32, height: u32, samples: Vec<u8>) -> (kept: Option<Vec<u8>>)
    ensures
        kept.is_some() <==> width * height <= samples@.len(),
        kept matches Some(buffer) ==> buffer@ == samples@,
{
    match image::GrayImage::from_vec(width, height, samples) {
        Some(made) => Some(made.into_raw()),
        None => None,
    }
}

/// A gray image: `width * height` samples, row by row from the top.
#[derive(Debug)]
pub struct GrayGrid {
    width: u32,
    height: u32,
    samples: Vec<u8>,
}

impl GrayGrid {
    #[verifier::type_invariant]
    spec fn holds_every_cell(self) -> bool {
        self.width * self.height <= self.samples@.len()
    }

    /// Cells along x.
    pub closed spec fn spec_width(&self) -> u32 {
        self.width
    }

    /// Cells along y.
    pub closed spec fn spec_height(&self) -> u32 {
        self.height
    }

    /// The buffer of samples.
    pub closed spec fn view(&self) -> Seq<u8> {
        self.samples@
    }

    /// An image over a buffer of samples, if the buffer holds a sample for
    /// every cell.
    pub fn from_samples(width: u32, height: u32, samples: Vec<u8>) -> (made: Result<Self, Error>)
        ensures
            made is Ok <==> width * height <= samples@.len(),
            made matches Ok(image) ==> image.spec_width() == width && image.spec_height() == height
                && image@ == samples@,
            made matches Err(error) ==> error == Error::ImageTooSmall,
    {
        match gray_image_buffer(width, height, samples) {
            Some(buffer) => Ok(GrayGrid { width, height, samples: buffer }),
            None => Err(Error::ImageTooSmall),
        }
    }

    /// Cells along x.
    #[verifier::when_used_as_spec(spec_width)]
    pub fn width(&self) -> (width: u32)
        ensures
            width == self.spec_width(),
    {
        self.width
    }

    /// Cells along y.
    #[verifier::when_used_as_spec(spec_height)]
    pub fn height(&self) -> (height: u32)
        ensures
            height == self.spec_height(),
    {
        self.height
    }

    /// The buffer of samples.
    pub fn samples(&self) -> (samples: &Vec<u8>)
        ensures
            samples@ == self@,
            self.spec_width() * self.spec_height() <= samples@.len(),
    {
        proof {
            use_type_invariant(self);
        }
        &self.samples
    }

    /// Gives the buffer of samples up.
    pub fn into_samples(self) -> (samples: Vec<u8>)
        ensures
            samples@ == self@,
            self.spec_width() * self.spec_height() <= samples@.len(),
    {
        proof {
            use_type_invariant(&self);
        }
        self.samples
    }

    /// The sample of the cell in column `x` of row `y`, if the image has
    /// such a cell.
    pub fn sample_at(&self, x: u32, y: u32) -> (value: Option<u8>)
        ensures
            value is Some <==> x < self.spec_width() && y < self.spec_height(),
            value matches Some(sample) ==> sample == self@[y * self.spec_width() + x],
    {
        if x >= self.width || y >= self.height {
            return None;
        }
        let held: usize = self.samples.len();
        proof {
            use_type_invariant(self);
            assert(0 <= y * self.width && y * self.width + x < self.width * self.height)
                by (nonlinear_arith)
                requires
                    0 <= x < self.width,
                    0 <= y < self.height,
            ;
            assert(self.width * self.height <= held);
        }
        let row: usize = y as usize * self.width as usize;
        Some(self.samples[row + x as usize])
    }
}

/// Decodes the bytes of a read-back into an image of `width` by `height`
/// cells. The bytes have to hold a group of four for every cell.
pub fn decode_image(bytes: &[u8], width: u32, height: u32) -> (made: Result<GrayGrid, Error>)
    ensures
        made is Ok <==> width * height <= bytes@.len() / 4,
        made matches Ok(image) ==> image.spec_width() == width && image.spec_height() == height
            && image@ == samples_of(bytes@),
        made matches Err(error) ==> error == Error::ImageTooSmall,
{
    let samples = decode_samples(bytes);
    GrayGrid::from_samples(width, height, samples)
}

} // verus!
