//! Pixel-buffer serialization: from the engine's premultiplied BGRA bytes
//! to the straight-alpha RGBA order an image stream carries.
//!
//! The engine keeps pixels premultiplied, four bytes per pixel in BGRA
//! order on little-endian machines; its own file writer divides each color
//! channel by the alpha before emitting RGBA.  The same conversion is done
//! here, exactly, so the host's encode path carries no arithmetic of its
//! own.

use vstd::prelude::*;

verus! {

/// A color channel divided by its alpha, as the engine's writer computes
/// it: `c * 255 / a` in integer arithmetic, truncated to a byte, and zero
/// where the alpha is zero.  (For premultiplied input `c <= a` the result
/// fits a byte; the truncation only matters for malformed input.)
pub open spec fn unpremult_channel(c: u8, a: u8) -> u8 {
    if a == 0 {
        0u8
    } else {
        (((c * 255) / (a as int)) % 256) as u8
    }
}

/// What one output pixel group owes the input group at the same index:
/// color channels reordered from BGRA to RGBA and each divided by the
/// group's alpha, the alpha itself carried through.
pub open spec fn rgba_group_ok(src: Seq<u8>, dst: Seq<u8>, i: int) -> bool {
    &&& dst[4 * i] == unpremult_channel(src[4 * i + 2], src[4 * i + 3])
    &&& dst[4 * i + 1] == unpremult_channel(src[4 * i + 1], src[4 * i + 3])
    &&& dst[4 * i + 2] == unpremult_channel(src[4 * i], src[4 * i + 3])
    &&& dst[4 * i + 3] == src[4 * i + 3]
}

fn unpremult(c: u8, a: u8) -> (r: u8)
    ensures
        r == unpremult_channel(c, a),
{
    if a == 0 {
        0
    } else {
        let q: u32 = ((c as u32) * 255) / (a as u32);
        (q % 256) as u8
    }
}

/// Serializes a premultiplied BGRA byte buffer to straight-alpha RGBA,
/// pixel by pixel, exactly as [`rgba_group_ok`] states; the length is
/// kept.
pub fn bgra_to_rgba(bgra: &Vec<u8>) -> (r: Vec<u8>)
    requires
        bgra@.len() % 4 == 0,
    ensures
        r@.len() == bgra@.len(),
        forall|i: int|
            0 <= i < bgra@.len() / 4 ==> #[trigger] rgba_group_ok(bgra@, r@, i),
{
    let n: usize = bgra.len() / 4;
    proof {
        assert(bgra@.len() == 4 * (n as int));
    }
    let mut out: Vec<u8> = Vec::new();
    let mut i: usize = 0;
    while i < n
        invariant
            bgra@.len() == 4 * (n as int),
            bgra@.len() <= usize::MAX,
            i <= n,
            out@.len() == 4 * i,
            forall|j: int| 0 <= j < i ==> #[trigger] rgba_group_ok(bgra@, out@, j),
        decreases n - i,
    {
        let ghost prev = out@;
        let a = bgra[4 * i + 3];
        out.push(unpremult(bgra[4 * i + 2], a));
        out.push(unpremult(bgra[4 * i + 1], a));
        out.push(unpremult(bgra[4 * i], a));
        out.push(a);
        proof {
            assert forall|j: int| 0 <= j < i + 1 implies #[trigger] rgba_group_ok(
                bgra@,
                out@,
                j,
            ) by {
                if j < i as int {
                    assert(rgba_group_ok(bgra@, prev, j));
                    assert(out@[4 * j] == prev[4 * j]);
                    assert(out@[4 * j + 1] == prev[4 * j + 1]);
                    assert(out@[4 * j + 2] == prev[4 * j + 2]);
                    assert(out@[4 * j + 3] == prev[4 * j + 3]);
                } else {
                    assert(out@[4 * j] == unpremult_channel(
                        bgra@[4 * j + 2],
                        bgra@[4 * j + 3],
                    ));
                    assert(out@[4 * j + 1] == unpremult_channel(
                        bgra@[4 * j + 1],
                        bgra@[4 * j + 3],
                    ));
                    assert(out@[4 * j + 2] == unpremult_channel(
                        bgra@[4 * j],
                        bgra@[4 * j + 3],
                    ));
                    assert(out@[4 * j + 3] == bgra@[4 * j + 3]);
                }
            }
        }
        i = i + 1;
    }
    out
}

} // verus!
