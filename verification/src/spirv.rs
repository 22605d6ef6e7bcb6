//! SPIR-V framing: how a module's 32-bit words are laid out as bytes in a
//! bytecode file, and how such a file is read back.

use vstd::prelude::*;

verus! {

/// The first word of every SPIR-V module.
pub const SPIRV_MAGIC: u32 = 0x0723_0203u32;

/// Byte `k` (0 = least significant) of the word `w`.
pub open spec fn word_byte(w: u32, k: int) -> u8 {
    if k == 0 {
        (w as int % 0x100) as u8
    } else if k == 1 {
        (w as int / 0x100 % 0x100) as u8
    } else if k == 2 {
        (w as int / 0x1_0000 % 0x100) as u8
    } else {
        (w as int / 0x100_0000 % 0x100) as u8
    }
}

/// The `i`-th group of four bytes, read with the least significant byte first.
pub open spec fn le_word(bytes: Seq<u8>, i: int) -> u32 {
    (bytes[4 * i] as int + bytes[4 * i + 1] as int * 0x100 + bytes[4 * i + 2] as int * 0x1_0000
        + bytes[4 * i + 3] as int * 0x100_0000) as u32
}

/// The `i`-th group of four bytes, read with the most significant byte first.
pub open spec fn be_word(bytes: Seq<u8>, i: int) -> u32 {
    (bytes[4 * i + 3] as int + bytes[4 * i + 2] as int * 0x100 + bytes[4 * i + 1] as int * 0x1_0000
        + bytes[4 * i] as int * 0x100_0000) as u32
}

/// A module's words always begin with the magic number.
pub open spec fn starts_with_magic(words: Seq<u32>) -> bool {
    words.len() > 0 && words[0] == SPIRV_MAGIC
}

/// The bytes of a bytecode file holding `words`: four bytes per word, least
/// significant byte first.
pub open spec fn encoded(words: Seq<u32>) -> Seq<u8> {
    Seq::new(4 * words.len(), |j: int| word_byte(words[j / 4], j % 4))
}

/// Whether `bytes` is a whole number of words, at least one.
pub open spec fn word_aligned(bytes: Seq<u8>) -> bool {
    bytes.len() > 0 && bytes.len() % 4 == 0
}

/// The words that a bytecode file's bytes stand for, if they are SPIR-V at all.
///
/// The byte order is detected from the magic number, so a file written on a
/// machine of either byte order reads back as the same words. Input that is
/// empty, not a whole number of words, or that opens with neither form of the
/// magic number stands for nothing.
pub open spec fn decoded(bytes: Seq<u8>) -> Option<Seq<u32>> {
    if !word_aligned(bytes) {
        None
    } else if le_word(bytes, 0) == SPIRV_MAGIC {
        Some(Seq::new(bytes.len() / 4, |i: int| le_word(bytes, i)))
    } else if be_word(bytes, 0) == SPIRV_MAGIC {
        Some(Seq::new(bytes.len() / 4, |i: int| be_word(bytes, i)))
    } else {
        None
    }
}

/// Why a byte string was not accepted as SPIR-V.
#[derive(Clone, Copy, Debug, PartialEq, Eq, Structural)]
pub enum SpirvError {
    /// The length is not a multiple of four bytes.
    Misaligned,
    /// The input is empty or does not open with the magic number.
    MissingMagic,
}

/// What [`decode_words`] returns for `bytes`.
pub open spec fn decode_result(bytes: Seq<u8>) -> Result<Seq<u32>, SpirvError> {
    match decoded(bytes) {
        Some(words) => Ok(words),
        None => if bytes.len() % 4 != 0 {
            Err(SpirvError::Misaligned)
        } else {
            Err(SpirvError::MissingMagic)
        },
    }
}

/// Calls `gfx_auxil::read_spirv` on an in-memory cursor over `bytes`.
///
/// Trusted: the contract restates that function's source. It rejects input
/// whose length is not divisible by four, loads the bytes as native words,
/// swaps every word if the first one is the byte-swapped magic number, and
/// rejects the input unless the first word is then the magic number. Either
/// byte order of the machine leads to the words that [`decoded`] gives. Every
/// failure is reported as `None`.
#[verifier::external_body]
fn read_spirv(bytes: &[u8]) -> (words: Option<Vec<u32>>)
    ensures
        match words {
            Some(w) => decoded(bytes@) == Some(w@),
            None => decoded(bytes@).is_none(),
        },
{
    gfx_auxil::read_spirv(std::io::Cursor::new(bytes)).ok()
}

/// Reads the contents of a bytecode file as SPIR-V words.
pub fn decode_words(bytes: &[u8]) -> (res: Result<Vec<u32>, SpirvError>)
    ensures
        match res {
            Ok(w) => decode_result(bytes@) == Ok::<Seq<u32>, SpirvError>(w@),
            Err(e) => decode_result(bytes@) == Err::<Seq<u32>, SpirvError>(e),
        },
{
    match read_spirv(bytes) {
        Some(words) => Ok(words),
        None => {
            if bytes.len() % 4 != 0 {
                Err(SpirvError::Misaligned)
            } else {
                Err(SpirvError::MissingMagic)
            }
        },
    }
}

/// Lays `words` out as the bytes of a bytecode file.
pub fn encode_words(words: &[u32]) -> (bytes: Vec<u8>)
    ensures
        bytes@ == encoded(words@),
{
    let mut bytes: Vec<u8> = Vec::new();
    let mut i: usize = 0;
    while i < words.len()
        invariant
            i <= words.len(),
            bytes.len() == 4 * i,
            forall|j: int| 0 <= j < bytes.len() ==> bytes[j] == word_byte(words[j / 4], j % 4),
        decreases words.len() - i,
    {
        let w: u32 = words[i];
        bytes.push((w % 0x100) as u8);
        bytes.push((w / 0x100 % 0x100) as u8);
        bytes.push((w / 0x1_0000 % 0x100) as u8);
        bytes.push((w / 0x100_0000 % 0x100) as u8);
        i += 1;
    }
    bytes
}

/// Reading the four bytes of an encoded word back, least significant first,
/// gives the word.
pub proof fn lemma_le_word_of_encoded(words: Seq<u32>, i: int)
    requires
        0 <= i < words.len(),
    ensures
        le_word(encoded(words), i) == words[i],
{
    let b = encoded(words);
    let w = words[i];
    assert(b[4 * i] == word_byte(w, 0));
    assert(b[4 * i + 1] == word_byte(w, 1));
    assert(b[4 * i + 2] == word_byte(w, 2));
    assert(b[4 * i + 3] == word_byte(w, 3));
}

/// A module that is written out and read back is unchanged: for words that
/// begin with the magic number, decoding their encoding gives the same words.
pub proof fn lemma_decode_encode(words: Seq<u32>)
    requires
        starts_with_magic(words),
    ensures
        decoded(encoded(words)) == Some(words),
        decode_result(encoded(words)) == Ok::<Seq<u32>, SpirvError>(words),
{
    let b = encoded(words);
    lemma_le_word_of_encoded(words, 0);
    assert forall|i: int| 0 <= i < words.len() implies le_word(b, i) == words[i] by {
        lemma_le_word_of_encoded(words, i);
    }
    assert(Seq::new(b.len() / 4, |i: int| le_word(b, i)) =~= words);
}

/// Whatever decodes holds at least the magic number: decoded words are never
/// empty and always begin with it.
pub proof fn lemma_decoded_starts_with_magic(bytes: Seq<u8>)
    requires
        decoded(bytes).is_some(),
    ensures
        starts_with_magic(decoded(bytes).unwrap()),
{
}

} // verus!
