//! The grayscale transform: the per-pixel luma computation and the
//! whole-buffer transform on raw RGBA pixel data.

use vstd::prelude::*;

verus! {

/// The grayscale (luma) value of a pixel with channels `r`, `g`, `b`:
/// `floor(0.299 r + 0.587 g + 0.114 b)`, written over integers as
/// `(299 r + 587 g + 114 b) / 1000`.
pub open spec fn gray_value(r: u8, g: u8, b: u8) -> int {
    (299 * r + 587 * g + 114 * b) / 1000
}

/// The luma value is a pure function of the three channels (a spec
/// function is deterministic by construction) and always lies in `0..=255`,
/// so it fits back into a channel byte.
pub proof fn lemma_gray_value_bounds(r: u8, g: u8, b: u8)
    ensures
        0 <= gray_value(r, g, b) <= 255,
{
    let sum = 299 * (r as int) + 587 * (g as int) + 114 * (b as int);
    assert(0 <= sum <= 255000);
    assert(0 <= sum / 1000 <= 255) by (nonlinear_arith)
        requires
            0 <= sum <= 255000,
    ;
}

/// Computes the luma value of one pixel.
pub fn to_gray(r: u8, g: u8, b: u8) -> (gray: u8)
    ensures
        gray == gray_value(r, g, b),
{
    proof {
        lemma_gray_value_bounds(r, g, b);
    }
    let sum: u32 = 299 * (r as u32) + 587 * (g as u32) + 114 * (b as u32);
    (sum / 1000) as u8
}

/// The grayscale byte at position `i` of an RGBA buffer `s`: the luma value
/// of the pixel that starts at the enclosing multiple of 4.
pub open spec fn gray_at(s: Seq<u8>, i: int) -> u8
    recommends
        0 <= i < s.len(),
        s.len() % 4 == 0,
{
    let p = 4 * (i / 4);
    gray_value(s[p], s[p + 1], s[p + 2]) as u8
}

/// The grayscale form of an RGBA buffer: in every pixel the three color
/// channels are replaced by the pixel's luma value and the alpha channel is
/// kept as it was.
pub open spec fn grayed(s: Seq<u8>) -> Seq<u8>
    recommends
        s.len() % 4 == 0,
{
    Seq::new(s.len(), |i: int| if i % 4 == 3 { s[i] } else { gray_at(s, i) })
}

/// Relates a byte position to the start of its pixel.
proof fn lemma_pixel_layout(i: int)
    requires
        0 <= i,
        i % 4 == 0,
    ensures
        4 * (i / 4) == i,
        (i + 1) / 4 == i / 4 && (i + 1) % 4 == 1,
        (i + 2) / 4 == i / 4 && (i + 2) % 4 == 2,
        (i + 3) / 4 == i / 4 && (i + 3) % 4 == 3,
{
}

/// Replaces, in place, the color channels of every pixel of an RGBA buffer
/// by the pixel's luma value, leaving each alpha byte unchanged.
pub fn apply_in_place(data: &mut Vec<u8>)
    requires
        old(data)@.len() % 4 == 0,
    ensures
        final(data)@ == grayed(old(data)@),
{
    let ghost orig: Seq<u8> = data@;
    let len: usize = data.len();
    let mut i: usize = 0;
    while i < len
        invariant
            data@.len() == len,
            orig.len() == len,
            len % 4 == 0,
            i % 4 == 0,
            i <= len,
            forall|j: int| 0 <= j < i ==> data@[j] == grayed(orig)[j],
            forall|j: int| i <= j < len ==> data@[j] == orig[j],
        decreases len - i,
    {
        proof {
            lemma_pixel_layout(i as int);
            assert(i + 4 <= len) by (nonlinear_arith)
                requires
                    i % 4 == 0,
                    len % 4 == 0,
                    i < len,
            ;
        }
        let r = data[i];
        let g = data[i + 1];
        let b = data[i + 2];
        let gray = to_gray(r, g, b);
        proof {
            lemma_gray_value_bounds(r, g, b);
        }
        data[i] = gray;
        data[i + 1] = gray;
        data[i + 2] = gray;
        i = i + 4;
    }
    proof {
        assert(data@ =~= grayed(orig));
    }
}

/// Buffer-mode entry point. When `data` has exactly `4 * width * height`
/// bytes it returns the grayscale form of the buffer; on any other length
/// it returns the zero-length buffer as the invalid-input sentinel, so a
/// mismatched length is never indexed.
pub fn process_image(data: &[u8], width: u32, height: u32) -> (out: Vec<u8>)
    ensures
        data@.len() == 4 * width * height ==> out@ == grayed(data@),
        data@.len() != 4 * width * height ==> out@.len() == 0,
{
    proof {
        assert((width as int) * (height as int) < 0x1_0000_0000_0000_0000) by (nonlinear_arith)
            requires
                width <= 0xffff_ffffu32,
                height <= 0xffff_ffffu32,
        ;
        assert(4 * ((width as int) * (height as int)) == 4 * width * height)
            by (nonlinear_arith);
    }
    let wh: u64 = (width as u64) * (height as u64);
    let expected: u128 = 4 * (wh as u128);
    if data.len() as u128 != expected {
        return Vec::new();
    }
    proof {
        assert(data@.len() % 4 == 0) by (nonlinear_arith)
            requires
                data@.len() == 4 * ((width as int) * (height as int)),
        ;
    }
    let mut out = vstd::slice::slice_to_vec(data);
    apply_in_place(&mut out);
    out
}

/// The luma plane of an RGBA buffer: one byte per pixel, the pixel's luma
/// value, alpha dropped.
pub open spec fn luma_plane(rgba: Seq<u8>) -> Seq<u8>
    recommends
        rgba.len() % 4 == 0,
{
    Seq::new(
        rgba.len() / 4,
        |p: int| (gray_value(rgba[4 * p], rgba[4 * p + 1], rgba[4 * p + 2]) as u8),
    )
}

/// Computes the luma plane of an RGBA buffer.
pub fn luma_of_rgba(rgba: &Vec<u8>) -> (luma: Vec<u8>)
    requires
        rgba@.len() % 4 == 0,
    ensures
        luma@ == luma_plane(rgba@),
{
    let len: usize = rgba.len();
    let count: usize = len / 4;
    let mut luma: Vec<u8> = Vec::new();
    let mut p: usize = 0;
    proof {
        assert(4 * (rgba@.len() / 4) == rgba@.len()) by (nonlinear_arith)
            requires
                rgba@.len() % 4 == 0,
        ;
    }
    while p < count
        invariant
            len == rgba@.len(),
            count == rgba@.len() / 4,
            4 * count == len,
            p <= count,
            luma@ == luma_plane(rgba@).take(p as int),
        decreases count - p,
    {
        proof {
            assert(4 * p + 4 <= 4 * count) by (nonlinear_arith)
                requires
                    p < count,
            ;
        }
        let base: usize = 4 * p;
        let gray = to_gray(rgba[base], rgba[base + 1], rgba[base + 2]);
        luma.push(gray);
        p = p + 1;
        proof {
            assert(luma@ =~= luma_plane(rgba@).take(p as int));
        }
    }
    proof {
        assert(luma@ =~= luma_plane(rgba@));
    }
    luma
}

/// Law: on a whole RGBA buffer the transform preserves the buffer length
/// and leaves every fourth byte (the alpha channel) unchanged.
pub proof fn lemma_grayed_preserves_len_and_alpha(s: Seq<u8>)
    ensures
        grayed(s).len() == s.len(),
        forall|j: int| 0 <= j < s.len() && j % 4 == 3 ==> grayed(s)[j] == s[j],
{
}

/// Law: the transform is idempotent. After one pass every pixel has
/// `R == G == B`, and the luma of such a pixel is that shared value again,
/// since the three weights sum to 1000; so a second pass changes nothing.
pub proof fn lemma_grayed_idempotent(s: Seq<u8>)
    requires
        s.len() % 4 == 0,
    ensures
        grayed(grayed(s)) == grayed(s),
{
    let t = grayed(s);
    assert forall|i: int| 0 <= i < t.len() implies grayed(t)[i] == t[i] by {
        if i % 4 != 3 {
            let p = 4 * (i / 4);
            assert(0 <= p <= i && i < p + 4) by (nonlinear_arith)
                requires
                    0 <= i,
                    p == 4 * (i / 4),
            ;
            lemma_pixel_layout(p);
            assert(p + 3 <= s.len()) by (nonlinear_arith)
                requires
                    s.len() % 4 == 0,
                    p % 4 == 0,
                    0 <= p < s.len(),
            ;
            let v = gray_value(s[p], s[p + 1], s[p + 2]) as u8;
            lemma_gray_value_bounds(s[p], s[p + 1], s[p + 2]);
            assert(t[p] == v && t[p + 1] == v && t[p + 2] == v);
            assert(gray_value(v, v, v) == v) by (nonlinear_arith);
            assert(grayed(t)[i] == gray_value(t[p], t[p + 1], t[p + 2]) as u8);
        }
    }
    assert(grayed(grayed(s)) =~= grayed(s));
}

} // verus!
