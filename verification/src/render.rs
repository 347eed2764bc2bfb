//! Layout of the render driver's output buffer.
//!
//! The driver walks pixels in row-major order, shades each one, and packs the
//! shaded colors into a flat byte buffer of 3 bytes (R, G, B) per pixel. The
//! shading itself is floating-point radiance math and stays in the
//! application layer; what is verified here is the index arithmetic and the
//! packing, so that every shaded pixel lands at exactly its row-major slot.

use vstd::prelude::*;

verus! {

/// The flat pixel index `i` of a `w`-wide image names the pixel at column
/// `i % w` of row `i / w`.
pub fn pixel_coords(i: u32, w: u32, h: u32) -> (xy: (u32, u32))
    requires
        0 < w,
        i < w as int * h as int,
    ensures
        xy.0 == i as int % w as int,
        xy.1 == i as int / w as int,
        xy.0 < w,
        xy.1 < h,
        i == xy.1 * w + xy.0,
{
    let x = i % w;
    let y = i / w;
    proof {
        assert((i as int / w as int) < h as int) by (nonlinear_arith)
            requires
                0 < w,
                i < w as int * h as int,
        {}
        assert(i == (i as int / w as int) * w + i as int % w as int) by (nonlinear_arith)
            requires
                0 < w,
        {}
    }
    (x, y)
}

/// Pixel `i` of `pixels` sits at bytes `3*i .. 3*i+3` of `buf`, in R, G, B
/// order.
pub open spec fn packed_at(buf: Seq<u8>, pixels: Seq<(u8, u8, u8)>, i: int) -> bool {
    &&& buf[3 * i] == pixels[i].0
    &&& buf[3 * i + 1] == pixels[i].1
    &&& buf[3 * i + 2] == pixels[i].2
}

/// `buf` is exactly `pixels` packed row-major at 3 bytes per pixel.
pub open spec fn packed(buf: Seq<u8>, pixels: Seq<(u8, u8, u8)>) -> bool {
    &&& buf.len() == 3 * pixels.len()
    &&& forall|i: int| 0 <= i < pixels.len() ==> packed_at(buf, pixels, i)
}

/// Pack shaded pixels, already in row-major order, into the flat byte buffer
/// the renderer hands back: 3 bytes (R, G, B) per pixel.
pub fn pack_rgb8(pixels: &Vec<(u8, u8, u8)>) -> (buf: Vec<u8>)
    requires
        3 * pixels@.len() <= usize::MAX,
    ensures
        packed(buf@, pixels@),
{
    let mut buf: Vec<u8> = Vec::new();
    let mut i: usize = 0;
    while i < pixels.len()
        invariant
            i <= pixels@.len(),
            3 * pixels@.len() <= usize::MAX,
            buf@.len() == 3 * i,
            forall|j: int| 0 <= j < i ==> packed_at(buf@, pixels@, j),
        decreases pixels@.len() - i,
    {
        let (r, g, b) = pixels[i];
        let ghost prev = buf@;
        buf.push(r);
        buf.push(g);
        buf.push(b);
        proof {
            assert(forall|k: int| 0 <= k < prev.len() ==> buf@[k] == prev[k]);
            assert forall|j: int| 0 <= j < i + 1 implies packed_at(buf@, pixels@, j) by {
                if j < i {
                    assert(packed_at(prev, pixels@, j));
                    assert(buf@[3 * j] == prev[3 * j]);
                    assert(buf@[3 * j + 1] == prev[3 * j + 1]);
                    assert(buf@[3 * j + 2] == prev[3 * j + 2]);
                } else {
                    assert(packed_at(buf@, pixels@, i as int));
                }
            }
        }
        i = i + 1;
    }
    buf
}

/// Channel `k` of a color: 0 is red, 1 is green, anything else blue.
pub open spec fn channel(c: (u8, u8, u8), k: int) -> u8 {
    if k == 0 {
        c.0
    } else if k == 1 {
        c.1
    } else {
        c.2
    }
}

/// A degenerate render in which every pixel was shaded the same color packs
/// to a buffer that cycles through that color's three bytes: all pixels of
/// the image are identical. This is the buffer-layout half of the
/// no-variance case; that the shading itself is constant is a property of
/// the floating-point integrator, which lives outside the verified core.
pub proof fn lemma_packed_uniform(buf: Seq<u8>, pixels: Seq<(u8, u8, u8)>, c: (u8, u8, u8))
    requires
        packed(buf, pixels),
        forall|i: int| 0 <= i < pixels.len() ==> pixels[i] == c,
    ensures
        forall|j: int| 0 <= j < buf.len() ==> buf[j] == channel(c, j % 3),
{
    assert forall|j: int| 0 <= j < buf.len() implies buf[j] == channel(c, j % 3) by {
        let i = j / 3;
        assert(j == 3 * i + j % 3);
        assert(0 <= i < pixels.len());
        assert(packed_at(buf, pixels, i));
    }
}

/// Byte length of the output buffer for a `w` by `h` image, or nothing where
/// `3 * w * h` does not fit the address space.
pub fn buffer_len(w: u32, h: u32) -> (n: Option<usize>)
    ensures
        match n {
            Some(k) => k == 3 * (w as int) * (h as int),
            None => 3 * (w as int) * (h as int) > usize::MAX,
        },
{
    proof {
        assert((w as int) * (h as int) <= 0xffff_ffff * 0xffff_ffff) by (nonlinear_arith)
            requires
                w <= 0xffff_ffffu32,
                h <= 0xffff_ffffu32,
        {}
    }
    let wh: u64 = (w as u64) * (h as u64);
    let total: u128 = 3u128 * (wh as u128);
    proof {
        assert(3 * (w as int) * (h as int) == 3 * ((w as int) * (h as int)))
            by (nonlinear_arith)
        {}
    }
    if total <= usize::MAX as u128 {
        Some(total as usize)
    } else {
        None
    }
}

} // verus!
