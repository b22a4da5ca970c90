use vstd::prelude::*;

verus! {

/// The four bytes of `w`, least significant first.
pub open spec fn word_le(w: u32) -> Seq<u8> {
    seq![
        (w % 0x100) as u8,
        ((w / 0x100) % 0x100) as u8,
        ((w / 0x1_0000) % 0x100) as u8,
        (w / 0x100_0000) as u8,
    ]
}

/// The four bytes of `w`, most significant first.
pub open spec fn word_be(w: u32) -> Seq<u8> {
    seq![
        (w / 0x100_0000) as u8,
        ((w / 0x1_0000) % 0x100) as u8,
        ((w / 0x100) % 0x100) as u8,
        (w % 0x100) as u8,
    ]
}

/// The words of `ws` one after another, each least significant byte first.
pub open spec fn words_le(ws: Seq<u32>) -> Seq<u8>
    decreases ws.len(),
{
    if ws.len() == 0 {
        seq![]
    } else {
        words_le(ws.drop_last()) + word_le(ws.last())
    }
}

/// The words of `ws` one after another, each most significant byte first.
pub open spec fn words_be(ws: Seq<u32>) -> Seq<u8>
    decreases ws.len(),
{
    if ws.len() == 0 {
        seq![]
    } else {
        words_be(ws.drop_last()) + word_be(ws.last())
    }
}

/// Relies on bytemuck::cast_slice from `u32` to `u8`: the same memory seen as
/// bytes, four per word, in the byte order of the machine (little or big
/// endian). The cast cannot fail, as `u8` has alignment 1 and every length
/// is a multiple of its size.
#[verifier::external_body]
pub(crate) fn words_to_bytes(ws: &[u32]) -> (r: Vec<u8>)
    ensures
        r@.len() == 4 * ws@.len(),
        r@ == words_le(ws@) || r@ == words_be(ws@),
{
    bytemuck::cast_slice::<u32, u8>(ws).to_vec()
}

} // verus!
