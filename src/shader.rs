use vstd::prelude::*;

verus! {

/// First word of every SPIR-V module.
pub const SPIRV_MAGIC: u32 = 0x0723_0203;

/// Word `i` of a byte blob, read little-endian.
pub open spec fn le_word(b: Seq<u8>, i: int) -> int {
    b[4 * i] + 256 * b[4 * i + 1] + 65536 * b[4 * i + 2] + 16777216 * b[4 * i + 3]
}

/// A compiled shader blob that can be handed to the backend: whole words,
/// at least one, starting with the SPIR-V magic number.
pub open spec fn well_framed(b: Seq<u8>) -> bool {
    &&& b.len() > 0
    &&& b.len() % 4 == 0
    &&& le_word(b, 0) == SPIRV_MAGIC
}

pub open spec fn words_of(b: Seq<u8>) -> Seq<u32> {
    Seq::new(b.len() / 4, |i: int| le_word(b, i) as u32)
}

fn word_at(code: &Vec<u8>, k: usize) -> (r: u32)
    requires
        4 * k + 3 < code@.len(),
    ensures
        r == le_word(code@, k as int),
{
    let len = code.len();
    assert(4 * k + 3 < len);
    let b0 = code[4 * k] as u32;
    let b1 = code[4 * k + 1] as u32;
    let b2 = code[4 * k + 2] as u32;
    let b3 = code[4 * k + 3] as u32;
    assert(b1 * 256 <= 65280 && b2 * 65536 <= 16711680 && b3 * 16777216 <= 4278190080)
        by (nonlinear_arith)
        requires
            b1 <= 255,
            b2 <= 255,
            b3 <= 255,
    ;
    b0 + b1 * 256 + b2 * 65536 + b3 * 16777216
}

/// The words of a compiled shader blob, or `None` where the blob is not a
/// whole number of words, is empty, or lacks the SPIR-V magic number.
pub fn shader_words(code: &Vec<u8>) -> (r: Option<Vec<u32>>)
    ensures
        r is Some <==> well_framed(code@),
        r matches Some(w) ==> w@ == words_of(code@),
{
    let len = code.len();
    if len == 0 || len % 4 != 0 {
        return None;
    }
    if word_at(code, 0) != SPIRV_MAGIC {
        return None;
    }
    let n = len / 4;
    let mut words: Vec<u32> = Vec::with_capacity(n);
    let mut k: usize = 0;
    while k < n
        invariant
            n == code@.len() / 4,
            code@.len() % 4 == 0,
            k <= n,
            words@ == words_of(code@).subrange(0, k as int),
        decreases n - k,
    {
        let w = word_at(code, k);
        words.push(w);
        k = k + 1;
        assert(words@ =~= words_of(code@).subrange(0, k as int));
    }
    assert(words@ =~= words_of(code@));
    Some(words)
}

} // verus!
