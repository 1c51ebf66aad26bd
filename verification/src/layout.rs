//! Words in buffers that the host shares with the device.
//!
//! A 32-bit word at byte offset `k` of such a buffer has its bits 0 to 7
//! in byte `k`, bits 8 to 15 in byte `k + 1`, bits 16 to 23 in byte `k + 2`
//! and bits 24 to 31 in byte `k + 3`. Words follow one another without
//! padding.

use vstd::prelude::*;

verus! {

/// The four bytes of a word, lowest first.
pub open spec fn word_bytes(word: u32) -> Seq<u8> {
    seq![
        (word as int % 0x100) as u8,
        (word as int / 0x100 % 0x100) as u8,
        (word as int / 0x1_0000 % 0x100) as u8,
        (word as int / 0x100_0000) as u8,
    ]
}

/// The word that starts at byte `at` of `bytes`.
pub open spec fn word_at(bytes: Seq<u8>, at: int) -> u32 {
    (bytes[at] as int + 0x100 * (bytes[at + 1] as int) + 0x1_0000 * (bytes[at + 2] as int)
        + 0x100_0000 * (bytes[at + 3] as int)) as u32
}

/// The bytes of a run of words.
pub open spec fn words_bytes(words: Seq<u32>) -> Seq<u8> {
    Seq::new(4 * words.len(), |i: int| word_bytes(words[i / 4])[i % 4])
}

/// The words that a run of bytes holds; bytes after the last whole word are
/// left out.
pub open spec fn bytes_words(bytes: Seq<u8>) -> Seq<u32> {
    Seq::new(bytes.len() / 4, |j: int| word_at(bytes, 4 * j))
}

/// A word read back from its own bytes is the word.
pub proof fn lemma_word_round_trip(word: u32)
    ensures
        word_bytes(word).len() == 4,
        word_at(word_bytes(word), 0) == word,
{
}

/// Words written to bytes and read back are the same words.
pub proof fn lemma_words_round_trip(words: Seq<u32>)
    ensures
        words_bytes(words).len() == 4 * words.len(),
        bytes_words(words_bytes(words)) == words,
{
    let bytes = words_bytes(words);
    assert forall|j: int| 0 <= j < words.len() implies word_at(bytes, 4 * j) == words[j] by {
        lemma_word_round_trip(words[j]);
        assert((4 * j) / 4 == j && (4 * j + 1) / 4 == j && (4 * j + 2) / 4 == j && (4 * j + 3) / 4
            == j);
        assert((4 * j) % 4 == 0 && (4 * j + 1) % 4 == 1 && (4 * j + 2) % 4 == 2 && (4 * j + 3) % 4
            == 3);
    }
    assert(bytes_words(bytes) =~= words);
}

/// Reads the word that starts at byte `at`.
pub(crate) fn read_word(bytes: &[u8], at: usize) -> (word: u32)
    requires
        at + 4 <= bytes@.len(),
    ensures
        word == word_at(bytes@, at as int),
{
    let b0: u32 = bytes[at] as u32;
    let b1: u32 = bytes[at + 1] as u32;
    let b2: u32 = bytes[at + 2] as u32;
    let b3: u32 = bytes[at + 3] as u32;
    b0 + 0x100 * b1 + 0x1_0000 * b2 + 0x100_0000 * b3
}

/// Appends the four bytes of a word.
pub fn push_word(bytes: &mut Vec<u8>, word: u32)
    ensures
        final(bytes)@ == old(bytes)@ + word_bytes(word),
{
    bytes.push((word % 0x100) as u8);
    bytes.push((word / 0x100 % 0x100) as u8);
    bytes.push((word / 0x1_0000 % 0x100) as u8);
    bytes.push((word / 0x100_0000) as u8);
    assert(bytes@ =~= old(bytes)@ + word_bytes(word));
}

/// Lays a run of words out as bytes.
pub fn words_to_bytes(words: &[u32]) -> (bytes: Vec<u8>)
    ensures
        bytes@ == words_bytes(words@),
{
    let mut bytes: Vec<u8> = Vec::new();
    let mut i: usize = 0;
    while i < words.len()
        invariant
            i <= words@.len(),
            bytes@ == words_bytes(words@.subrange(0, i as int)),
        decreases words@.len() - i,
    {
        let ghost before = bytes@;
        push_word(&mut bytes, words[i]);
        proof {
            let head = words@.subrange(0, i as int);
            let more = words@.subrange(0, i + 1);
            assert forall|k: int| 0 <= k < 4 * (i + 1) implies bytes@[k] == words_bytes(more)[k] by {
                if k < 4 * i {
                    assert(bytes@[k] == before[k]);
                    assert(head[k / 4] == more[k / 4]);
                } else {
                    assert(k / 4 == i as int);
                    assert(k % 4 == k - 4 * i);
                    assert(bytes@[k] == word_bytes(words@[i as int])[k - 4 * i]);
                }
            }
            assert(bytes@ =~= words_bytes(more));
        }
        i += 1;
    }
    assert(words@.subrange(0, i as int) =~= words@);
    bytes
}

/// Reads the words that a run of bytes holds.
pub fn bytes_to_words(bytes: &[u8]) -> (words: Vec<u32>)
    ensures
        words@ == bytes_words(bytes@),
{
    let count: usize = bytes.len() / 4;
    let mut words: Vec<u32> = Vec::new();
    let mut j: usize = 0;
    while j < count
        invariant
            count == bytes@.len() / 4,
            4 * count <= bytes@.len() <= usize::MAX,
            j <= count,
            words@.len() == j,
            forall|k: int| 0 <= k < j ==> words@[k] == word_at(bytes@, 4 * k),
        decreases count - j,
    {
        let word: u32 = read_word(bytes, 4 * j);
        words.push(word);
        j += 1;
    }
    assert(words@ =~= bytes_words(bytes@));
    words
}

} // verus!
