//! Pixel-level primitives: channel packing, channel-order conversion, and
//! the dimming transform used for the overlay backdrop.
//!
//! All frame buffers are little-endian BGRA packed into `u32` (byte 0 is
//! blue, byte 3 is alpha); raw captures are RGBA byte streams, 4 bytes per
//! pixel in row-major top-down order.

use vstd::prelude::*;

verus! {

/// Little-endian BGRA packing of one pixel: `u32::from_le_bytes([b, g, r, a])`.
pub open spec fn spec_pack_bgra(r: u8, g: u8, b: u8, a: u8) -> u32 {
    (b as u32) | ((g as u32) << 8) | ((r as u32) << 16) | ((a as u32) << 24)
}

/// Packs one RGBA pixel into the BGRA `u32` layout used by frame buffers.
pub fn pack_bgra(r: u8, g: u8, b: u8, a: u8) -> (p: u32)
    ensures
        p == spec_pack_bgra(r, g, b, a),
{
    (b as u32) | ((g as u32) << 8) | ((r as u32) << 16) | ((a as u32) << 24)
}

/// The dimming transform on one 8-bit channel: 60% brightness, rounded down.
pub open spec fn spec_dim_channel(c: u32) -> u32 {
    ((c & 0xFF) * 3 / 5) as u32
}

/// Dims one packed BGRA pixel: each color channel drops to 60% brightness,
/// the alpha channel is kept.
pub open spec fn spec_dim_pixel(p: u32) -> u32 {
    (spec_dim_channel(p) | (spec_dim_channel(p >> 8) << 8) | (spec_dim_channel(p >> 16) << 16)
        | (((p >> 24) & 0xFF) << 24)) as u32
}

/// Dims one packed BGRA pixel to 60% brightness, keeping alpha.
pub fn dim_pixel(p: u32) -> (d: u32)
    ensures
        d == spec_dim_pixel(p),
{
    proof {
        assert((p & 0xFF) <= 0xFF && ((p >> 8) & 0xFF) <= 0xFF && ((p >> 16) & 0xFF) <= 0xFF && (
        (p >> 24) & 0xFF) <= 0xFF) by (bit_vector);
    }
    let b = (p & 0xFF) * 3 / 5;
    let g = ((p >> 8) & 0xFF) * 3 / 5;
    let r = ((p >> 16) & 0xFF) * 3 / 5;
    let a = (p >> 24) & 0xFF;
    proof {
        assert(b == spec_dim_channel(p) && g == spec_dim_channel(p >> 8) && r == spec_dim_channel(
        p >> 16)) by {
            assert((p & 0xFF) & 0xFF == p & 0xFF && ((p >> 8) & 0xFF) & 0xFF == (p >> 8) & 0xFF && (
            (p >> 16) & 0xFF) & 0xFF == (p >> 16) & 0xFF) by (bit_vector);
        }
    }
    b | (g << 8) | (r << 16) | (a << 24)
}

/// The dimmed backdrop cache derived from an RGBA byte stream: one packed
/// BGRA `u32` per full 4-byte pixel, each at 60% brightness.
pub open spec fn spec_dim_cache(p: Seq<u8>) -> Seq<u32> {
    Seq::new(
        (p.len() / 4) as nat,
        |i: int| spec_dim_pixel(spec_pack_bgra(p[4 * i], p[4 * i + 1], p[4 * i + 2], p[4 * i + 3])),
    )
}

/// Builds the dimmed backdrop cache from an RGBA byte stream.
///
/// The result is a pure function of the input bytes, so re-deriving the
/// cache from an unchanged capture always yields the same words.
pub fn build_dim_cache(pixels: &Vec<u8>) -> (cache: Vec<u32>)
    ensures
        cache@ == spec_dim_cache(pixels@),
{
    let n = pixels.len() / 4;
    proof {
        vstd::arithmetic::div_mod::lemma_fundamental_div_mod(pixels@.len() as int, 4);
        vstd::arithmetic::div_mod::lemma_mod_bound(pixels@.len() as int, 4);
    }
    let mut cache: Vec<u32> = Vec::new();
    let mut i: usize = 0;
    while i < n
        invariant
            n == pixels@.len() / 4,
            4 * n <= pixels@.len(),
            pixels@.len() <= usize::MAX,
            i <= n,
            cache@.len() == i,
            forall|j: int| 0 <= j < i ==> cache@[j] == spec_dim_cache(pixels@)[j],
        decreases n - i,
    {
        let r = pixels[4 * i];
        let g = pixels[4 * i + 1];
        let b = pixels[4 * i + 2];
        let a = pixels[4 * i + 3];
        cache.push(dim_pixel(pack_bgra(r, g, b, a)));
        i = i + 1;
    }
    proof {
        assert(cache@ =~= spec_dim_cache(pixels@));
    }
    cache
}

/// The dimming transform is deterministic: equal capture bytes yield
/// byte-for-byte equal dimmed caches.
pub proof fn lemma_dim_cache_deterministic(a: Seq<u8>, b: Seq<u8>)
    requires
        a == b,
    ensures
        spec_dim_cache(a) == spec_dim_cache(b),
{
}

/// The dimming transform is lossy: two distinct source pixels can dim to the
/// same word, so the bright frame cannot be recovered from the dimmed cache.
pub proof fn lemma_dim_not_invertible()
    ensures
        spec_dim_pixel(spec_pack_bgra(0, 0, 0, 255)) == spec_dim_pixel(
            spec_pack_bgra(1, 1, 1, 255),
        ),
        spec_pack_bgra(0, 0, 0, 255) != spec_pack_bgra(1, 1, 1, 255),
{
    assert(0u8 as u32 == 0u32 && 1u8 as u32 == 1u32 && 255u8 as u32 == 255u32);
    assert((0u32 | (0u32 << 8) | (0u32 << 16) | (255u32 << 24)) == 0xFF000000u32) by (bit_vector);
    assert((1u32 | (1u32 << 8) | (1u32 << 16) | (255u32 << 24)) == 0xFF010101u32) by (bit_vector);
    assert(spec_pack_bgra(0, 0, 0, 255) == 0xFF000000u32);
    assert(spec_pack_bgra(1, 1, 1, 255) == 0xFF010101u32);
    assert((0xFF000000u32 & 0xFF) == 0 && ((0xFF000000u32 >> 8) & 0xFF) == 0 && ((0xFF000000u32
        >> 16) & 0xFF) == 0 && ((0xFF000000u32 >> 24) & 0xFF) == 255) by (bit_vector);
    assert((0xFF010101u32 & 0xFF) == 1 && ((0xFF010101u32 >> 8) & 0xFF) == 1 && ((0xFF010101u32
        >> 16) & 0xFF) == 1 && ((0xFF010101u32 >> 24) & 0xFF) == 255) by (bit_vector);
    assert(spec_dim_channel(0xFF000000u32) == 0 && spec_dim_channel(0xFF000000u32 >> 8) == 0
        && spec_dim_channel(0xFF000000u32 >> 16) == 0) by {
        assert((0xFF000000u32 & 0xFF) == 0 && ((0xFF000000u32 >> 8) & 0xFF) == 0 && ((0xFF000000u32
            >> 16) & 0xFF) == 0) by (bit_vector);
    }
    assert(spec_dim_channel(0xFF010101u32) == 0 && spec_dim_channel(0xFF010101u32 >> 8) == 0
        && spec_dim_channel(0xFF010101u32 >> 16) == 0) by {
        assert((0xFF010101u32 & 0xFF) == 1 && ((0xFF010101u32 >> 8) & 0xFF) == 1 && ((0xFF010101u32
            >> 16) & 0xFF) == 1) by (bit_vector);
    }
    assert(((0xFF000000u32 >> 24) & 0xFF) << 24 == 0xFF000000u32 && ((0xFF010101u32 >> 24) & 0xFF)
        << 24 == 0xFF000000u32) by (bit_vector);
    assert(spec_dim_pixel(0xFF000000u32) == spec_dim_pixel(0xFF010101u32));
}

/// Reorders full 4-byte BGRA chunks into RGBA; a trailing partial chunk is
/// dropped.
pub open spec fn spec_swizzle_bgra(b: Seq<u8>) -> Seq<u8> {
    Seq::new(
        (4 * (b.len() / 4)) as nat,
        |i: int|
            {
                let base = 4 * (i / 4);
                let off = i % 4;
                if off == 0 {
                    b[base + 2]
                } else if off == 2 {
                    b[base]
                } else {
                    b[i]
                }
            },
    )
}

/// Truncates or zero-pads a byte sequence to exactly `n` bytes.
pub open spec fn spec_fit(s: Seq<u8>, n: nat) -> Seq<u8> {
    Seq::new(n, |i: int| if i < s.len() { s[i] } else { 0u8 })
}

/// Converts a BGRA byte stream to RGBA by swapping the blue and red channel
/// of every full 4-byte pixel, then truncates or zero-pads the result to
/// exactly `w * h * 4` bytes.
pub fn bgra_to_rgba(bgra: &Vec<u8>, w: u32, h: u32) -> (out: Vec<u8>)
    requires
        w * h * 4 <= usize::MAX,
    ensures
        out@ == spec_fit(spec_swizzle_bgra(bgra@), (w * h * 4) as nat),
        out@.len() == w * h * 4,
{
    let n = bgra.len() / 4;
    proof {
        vstd::arithmetic::div_mod::lemma_fundamental_div_mod(bgra@.len() as int, 4);
        vstd::arithmetic::div_mod::lemma_mod_bound(bgra@.len() as int, 4);
    }
    let mut out: Vec<u8> = Vec::new();
    let mut i: usize = 0;
    while i < n
        invariant
            n == bgra@.len() / 4,
            4 * n <= bgra@.len(),
            bgra@.len() <= usize::MAX,
            i <= n,
            out@.len() == 4 * i,
            forall|j: int| 0 <= j < 4 * i ==> out@[j] == spec_swizzle_bgra(bgra@)[j],
        decreases n - i,
    {
        let base = 4 * i;
        out.push(bgra[base + 2]);
        out.push(bgra[base + 1]);
        out.push(bgra[base]);
        out.push(bgra[base + 3]);
        proof {
            assert forall|j: int| 4 * i <= j < 4 * (i + 1) implies out@[j] == spec_swizzle_bgra(
                bgra@,
            )[j] by {
                vstd::arithmetic::div_mod::lemma_fundamental_div_mod_converse(
                    j,
                    4,
                    i as int,
                    j - 4 * i,
                );
            }
        }
        i = i + 1;
    }
    let target = (w as usize) * (h as usize) * 4;
    let swizzled_len = out.len();
    if swizzled_len > target {
        out.truncate(target);
    } else {
        let mut k = swizzled_len;
        while k < target
            invariant
                k <= target,
                out@.len() == k,
                forall|j: int|
                    0 <= j < k ==> out@[j] == spec_fit(
                        spec_swizzle_bgra(bgra@),
                        (w * h * 4) as nat,
                    )[j],
                target == w * h * 4,
                swizzled_len == spec_swizzle_bgra(bgra@).len(),
                swizzled_len <= k,
            decreases target - k,
        {
            out.push(0u8);
            k = k + 1;
        }
    }
    proof {
        assert(out@ =~= spec_fit(spec_swizzle_bgra(bgra@), (w * h * 4) as nat));
    }
    out
}

/// The `w * h` RGBA crop of a `img_w`-wide RGBA byte buffer, taken at
/// `(x, y)`: row `r` of the crop is the bytes of row `y + r` of the source
/// from column `x` to `x + w`.
pub open spec fn spec_crop(p: Seq<u8>, img_w: int, x: int, y: int, w: int, h: int) -> Seq<u8> {
    Seq::new((4 * w * h) as nat, |i: int| p[4 * ((y + i / (4 * w)) * img_w + x) + i % (4 * w)])
}

/// Copies the `w * h` sub-rectangle at `(x, y)` out of a `img_w * img_h`
/// RGBA byte buffer. The crop has exactly `4 * w * h` bytes: its dimensions
/// are exactly `(w, h)`.
pub fn crop_rgba(pixels: &Vec<u8>, img_w: u32, img_h: u32, x: u32, y: u32, w: u32, h: u32) -> (out:
    Vec<u8>)
    requires
        pixels@.len() == 4 * img_w * img_h,
        x + w <= img_w,
        y + h <= img_h,
    ensures
        out@ == spec_crop(pixels@, img_w as int, x as int, y as int, w as int, h as int),
        out@.len() == 4 * w * h,
{
    let _pixels_len = pixels.len();
    let mut out: Vec<u8> = Vec::new();
    if w == 0 || h == 0 {
        proof {
            assert(4 * (w as int) * (h as int) == 0) by (nonlinear_arith)
                requires
                    w == 0 || h == 0,
            ;
            assert(out@ =~= spec_crop(
                pixels@,
                img_w as int,
                x as int,
                y as int,
                w as int,
                h as int,
            ));
        }
        return out;
    }
    proof {
        assert(4 * w <= 4 * img_w * img_h && img_w <= img_w * img_h) by (nonlinear_arith)
            requires
                1 <= w <= img_w,
                1 <= img_h,
        ;
    }
    let row_bytes = 4 * (w as usize);
    let mut r: usize = 0;
    while r < h as usize
        invariant
            pixels@.len() == 4 * img_w * img_h,
            pixels@.len() <= usize::MAX,
            x + w <= img_w,
            y + h <= img_h,
            row_bytes == 4 * w,
            1 <= w,
            1 <= h,
            4 * w <= usize::MAX,
            r <= h,
            out@.len() == 4 * w * r,
            forall|k: int|
                0 <= k < out@.len() ==> out@[k] == spec_crop(
                    pixels@,
                    img_w as int,
                    x as int,
                    y as int,
                    w as int,
                    h as int,
                )[k],
        decreases h - r,
    {
        proof {
            assert((y + r) * img_w + x + w <= img_w * img_h && img_h <= img_w * img_h && 4 * (
            img_w * img_h) == 4 * img_w * img_h) by (nonlinear_arith)
                requires
                    y + r < img_h,
                    1 <= x + w <= img_w,
                    r < h,
                    y + h <= img_h,
            ;
        }
        let row_start = 4 * ((y as usize + r) * (img_w as usize) + x as usize);
        let mut j: usize = 0;
        while j < row_bytes
            invariant
                pixels@.len() == 4 * img_w * img_h,
                pixels@.len() <= usize::MAX,
                x + w <= img_w,
                y + h <= img_h,
                row_bytes == 4 * w,
                1 <= w,
                1 <= h,
                4 * w <= usize::MAX,
                r < h,
                j <= row_bytes,
                row_start == 4 * ((y + r) * img_w + x),
                (y + r) * img_w + x + w <= img_w * img_h,
                4 * (img_w * img_h) == 4 * img_w * img_h,
                x + w <= img_w,
                out@.len() == 4 * w * r + j,
                forall|k: int|
                    0 <= k < out@.len() ==> out@[k] == spec_crop(
                        pixels@,
                        img_w as int,
                        x as int,
                        y as int,
                        w as int,
                        h as int,
                    )[k],
            decreases row_bytes - j,
        {
            out.push(pixels[row_start + j]);
            proof {
                let k = 4 * (w as int) * r + j;
                assert(k == out@.len() - 1);
                assert(k < 4 * w * h) by (nonlinear_arith)
                    requires
                        k == 4 * (w as int) * r + j,
                        r < h,
                        0 <= j < 4 * w,
                        w >= 1,
                ;
                vstd::arithmetic::div_mod::lemma_fundamental_div_mod_converse(
                    k,
                    4 * (w as int),
                    r as int,
                    j as int,
                );
                assert(out@[k] == spec_crop(
                    pixels@,
                    img_w as int,
                    x as int,
                    y as int,
                    w as int,
                    h as int,
                )[k]);
            }
            j = j + 1;
        }
        proof {
            assert(4 * w * r + 4 * w == 4 * w * (r + 1)) by (nonlinear_arith);
        }
        r = r + 1;
    }
    proof {
        assert(4 * w * h == 4 * w * (h as int)) by (nonlinear_arith);
        assert(out@ =~= spec_crop(pixels@, img_w as int, x as int, y as int, w as int, h as int));
    }
    out
}

/// The packed BGRA words of the first `n` pixels of an RGBA byte stream.
pub open spec fn spec_bgra_words(p: Seq<u8>, n: nat) -> Seq<u32> {
    Seq::new(n, |i: int| spec_pack_bgra(p[4 * i], p[4 * i + 1], p[4 * i + 2], p[4 * i + 3]))
}

/// Packs the first `n` pixels of an RGBA byte stream into BGRA words.
pub fn rgba_to_bgra_words(p: &Vec<u8>, n: usize) -> (out: Vec<u32>)
    requires
        4 * n <= p@.len(),
    ensures
        out@ == spec_bgra_words(p@, n as nat),
{
    let _p_len = p.len();
    let mut out: Vec<u32> = Vec::new();
    let mut i: usize = 0;
    while i < n
        invariant
            4 * n <= p@.len(),
            p@.len() <= usize::MAX,
            i <= n,
            out@.len() == i,
            forall|j: int| 0 <= j < i ==> out@[j] == spec_bgra_words(p@, n as nat)[j],
        decreases n - i,
    {
        let r = p[4 * i];
        let g = p[4 * i + 1];
        let b = p[4 * i + 2];
        let a = p[4 * i + 3];
        out.push(pack_bgra(r, g, b, a));
        i = i + 1;
    }
    proof {
        assert(out@ =~= spec_bgra_words(p@, n as nat));
    }
    out
}

} // verus!
