//! Framing of a SPIR-V binary into the 32-bit words a shader module is made of.

use vstd::prelude::*;

verus! {

/// The first word of every SPIR-V module.
pub const SPIRV_MAGIC: u32 = 0x0723_0203;

/// Why a byte stream cannot be framed as a SPIR-V module.
#[derive(Clone, Copy, Debug, PartialEq, Eq, Structural)]
pub enum ShaderError {
    /// The stream holds no bytes.
    Empty,
    /// The length of the stream is not a multiple of four.
    Misaligned,
    /// Neither byte order makes the first word the SPIR-V magic number.
    BadMagic,
}

/// A shader module: the words of a SPIR-V binary, in the byte order of the
/// module's own magic number.
#[derive(Clone, Debug, PartialEq, Eq)]
pub struct ShaderModule {
    pub words: Vec<u32>,
}

impl View for ShaderModule {
    type V = Seq<u32>;

    open spec fn view(&self) -> Seq<u32> {
        self.words@
    }
}

/// The `i`-th word of `data`, least significant byte first.
pub open spec fn word_le(data: Seq<u8>, i: int) -> int {
    data[4 * i] + 0x100 * data[4 * i + 1] + 0x1_0000 * data[4 * i + 2] + 0x100_0000 * data[4 * i
        + 3]
}

/// The `i`-th word of `data`, most significant byte first.
pub open spec fn word_be(data: Seq<u8>, i: int) -> int {
    0x100_0000 * data[4 * i] + 0x1_0000 * data[4 * i + 1] + 0x100 * data[4 * i + 2] + data[4 * i
        + 3]
}

/// The reason `data` is rejected, if it is.
pub open spec fn framing_error(data: Seq<u8>) -> Option<ShaderError> {
    if data.len() == 0 {
        Some(ShaderError::Empty)
    } else if data.len() % 4 != 0 {
        Some(ShaderError::Misaligned)
    } else if word_le(data, 0) != SPIRV_MAGIC && word_be(data, 0) != SPIRV_MAGIC {
        Some(ShaderError::BadMagic)
    } else {
        None
    }
}

/// The words of a well-framed stream: every word is read in the byte order
/// in which the first one is the magic number.
pub open spec fn spirv_words(data: Seq<u8>) -> Seq<u32> {
    Seq::new(
        data.len() / 4,
        |i: int|
            if word_le(data, 0) == SPIRV_MAGIC {
                word_le(data, i) as u32
            } else {
                word_be(data, i) as u32
            },
    )
}

/// Calls `wgpu::util::make_spirv_raw` and takes ownership of the words.
///
/// That function panics on an empty stream, on a length that is not a multiple
/// of four and on a stream whose first word is the magic number in neither byte
/// order; the precondition leaves these out. Otherwise it reads the stream as
/// native-endian words and swaps the bytes of every word when the first one is
/// the byte-swapped magic number, so on any machine the words come out in the
/// byte order that makes the first one the magic number.
#[verifier::external_body]
fn make_spirv_raw(data: &[u8]) -> (words: Vec<u32>)
    requires
        framing_error(data@) is None,
    ensures
        words@ == spirv_words(data@),
{
    wgpu::util::make_spirv_raw(data).into_owned()
}

/// Frames `data` as a shader module, or says why it cannot be one.
pub fn parse_shader(data: &[u8]) -> (result: Result<ShaderModule, ShaderError>)
    ensures
        match result {
            Ok(module) => framing_error(data@) is None && module@ == spirv_words(data@),
            Err(e) => framing_error(data@) == Some(e),
        },
{
    if data.len() == 0 {
        return Err(ShaderError::Empty);
    }
    if data.len() % 4 != 0 {
        return Err(ShaderError::Misaligned);
    }
    let b0: u32 = data[0] as u32;
    let b1: u32 = data[1] as u32;
    let b2: u32 = data[2] as u32;
    let b3: u32 = data[3] as u32;
    let le: u32 = b0 + 0x100 * b1 + 0x1_0000 * b2 + 0x100_0000 * b3;
    let be: u32 = 0x100_0000 * b0 + 0x1_0000 * b1 + 0x100 * b2 + b3;
    if le != SPIRV_MAGIC && be != SPIRV_MAGIC {
        return Err(ShaderError::BadMagic);
    }
    Ok(ShaderModule { words: make_spirv_raw(data) })
}

} // verus!
