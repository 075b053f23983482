//! Pixel format conversions of the frame pipeline.
//!
//! A yuv420p frame is three planes one after another: `w * h` bytes of luma (Y), then a quarter
//! of that for each of the two chroma planes (U, V). NV12 has the same luma plane, followed by
//! one plane in which U and V alternate. RGB24 has three bytes per pixel.
use vstd::prelude::*;

verus! {

/// Width of the preview shown in the window.
pub const PREVIEW_W: u32 = 640;

/// Height of the preview shown in the window.
pub const PREVIEW_H: u32 = 360;

/// Bytes of one RGB24 preview frame.
pub const PREVIEW_FRAME_BYTES: usize = 691200;

/// How the luma of a frame is coded.
#[derive(Clone, Copy, PartialEq, Eq, Structural, Debug)]
pub enum LumaRange {
    /// 0 is black, 255 is white.
    Full,
    /// 16 is black, 235 is white.
    Limited,
}

// ── NV12 ─────────────────────────────────────────────────────────────────────
/// The NV12 frame that holds the picture of the `w` x `h` yuv420p frame `yuv`.
pub open spec fn nv12_of(yuv: Seq<u8>, w: nat, h: nat) -> Seq<u8> {
    let luma = w * h;
    let chroma = luma / 2 / 2;
    Seq::new(
        luma + luma / 2,
        |i: int|
            if i < luma {
                yuv[i]
            } else if (i - luma) / 2 >= chroma {
                0
            } else if (i - luma) % 2 == 0 {
                yuv[luma + (i - luma) / 2]
            } else {
                yuv[luma + chroma + (i - luma) / 2]
            },
    )
}

/// Converts a yuv420p frame (planes Y, U, V) to NV12 (plane Y, then U and V interleaved).
pub fn yuv420p_to_nv12(yuv: &[u8], w: u32, h: u32) -> (r: Vec<u8>)
    requires
        w * h <= u32::MAX,
        w * h + w * h / 2 <= usize::MAX,
        yuv@.len() >= w * h + 2 * (w * h / 2 / 2),
    ensures
        r@ == nv12_of(yuv@, w as nat, h as nat),
{
    let y_size: usize = (w * h) as usize;
    let uv_size: usize = y_size / 2;
    let half: usize = uv_size / 2;
    let ghost want = nv12_of(yuv@, w as nat, h as nat);
    let mut nv12: Vec<u8> = Vec::new();

    let mut i: usize = 0;
    while i < y_size
        invariant
            i <= y_size,
            y_size == w * h,
            yuv@.len() >= y_size,
            want == nv12_of(yuv@, w as nat, h as nat),
            nv12@ =~= want.take(i as int),
        decreases y_size - i,
    {
        nv12.push(yuv[i]);
        i += 1;
    }

    let mut k: usize = 0;
    while k < half
        invariant
            k <= half,
            half == uv_size / 2,
            uv_size == y_size / 2,
            y_size == w * h,
            y_size + uv_size <= usize::MAX,
            yuv@.len() >= y_size + 2 * half,
            want == nv12_of(yuv@, w as nat, h as nat),
            nv12@ =~= want.take(y_size + 2 * k),
        decreases half - k,
    {
        nv12.push(yuv[y_size + k]);
        nv12.push(yuv[y_size + half + k]);
        k += 1;
    }

    if uv_size % 2 == 1 {
        nv12.push(0);
    }
    assert(nv12@ =~= want);
    nv12
}

/// The luma plane is the same in both formats, and byte `2 * k` of the NV12 chroma plane is byte
/// `k` of U, byte `2 * k + 1` is byte `k` of V.
pub proof fn nv12_keeps_every_plane(yuv: Seq<u8>, w: nat, h: nat)
    requires
        yuv.len() >= w * h + 2 * (w * h / 2 / 2),
    ensures
        nv12_of(yuv, w, h).take((w * h) as int) == yuv.take((w * h) as int),
        forall|k: int|
            0 <= k < w * h / 2 / 2 ==> #[trigger] nv12_of(yuv, w, h)[w * h + 2 * k] == yuv[w * h
                + k],
        forall|k: int|
            0 <= k < w * h / 2 / 2 ==> #[trigger] nv12_of(yuv, w, h)[w * h + 2 * k + 1] == yuv[w * h
                + w * h / 2 / 2 + k],
{
    assert(nv12_of(yuv, w, h).take((w * h) as int) =~= yuv.take((w * h) as int));
}

// ── RGB preview ──────────────────────────────────────────────────────────────
/// Division that rounds toward zero.
pub open spec fn quot(a: int, b: int) -> int {
    if a >= 0 {
        a / b
    } else {
        -((-a) / b)
    }
}

/// `x` brought into the range of a byte.
pub open spec fn to_byte(x: int) -> u8 {
    if x < 0 {
        0
    } else if x > 255 {
        255
    } else {
        x as u8
    }
}

/// The brightness, from 0 (black) to 255 (white), that a luma byte stands for.
pub open spec fn brightness(luma: u8, range: LumaRange) -> int {
    match range {
        LumaRange::Full => luma as int,
        LumaRange::Limited => to_byte(quot((luma - 16) * 255, 219)) as int,
    }
}

/// Red, green and blue (`channel` 0, 1, 2) of a pixel with brightness `y` and chroma bytes `cb`
/// and `cr`, by the BT.601 matrix in thousandths.
pub open spec fn rgb_channel(y: int, cb: u8, cr: u8, channel: int) -> u8 {
    if channel == 0 {
        to_byte(y + quot(1402 * (cr - 128), 1000))
    } else if channel == 1 {
        to_byte(y - quot(344 * (cb - 128), 1000) - quot(714 * (cr - 128), 1000))
    } else {
        to_byte(y + quot(1772 * (cb - 128), 1000))
    }
}

/// How many source pixels lie between neighbouring preview pixels.
pub open spec fn stride(src: nat, shown: nat) -> nat {
    if src / shown < 1 {
        1
    } else {
        src / shown
    }
}

/// Index in the luma plane of the source pixel shown at `(px, py)`.
pub open spec fn luma_index(src_w: nat, src_h: nat, pw: nat, ph: nat, px: nat, py: nat) -> nat {
    py * stride(src_h, ph) * src_w + px * stride(src_w, pw)
}

/// Index in each chroma plane of the source pixel shown at `(px, py)`.
pub open spec fn chroma_index(src_w: nat, src_h: nat, pw: nat, ph: nat, px: nat, py: nat) -> nat {
    (py * stride(src_h, ph) / 2) * (src_w / 2) + px * stride(src_w, pw) / 2
}

/// One byte of a preview: `channel` of the pixel at `(px, py)`.
pub open spec fn preview_byte(
    yuv: Seq<u8>,
    src_w: nat,
    src_h: nat,
    pw: nat,
    ph: nat,
    range: LumaRange,
    px: nat,
    py: nat,
    channel: int,
) -> u8 {
    let c = chroma_index(src_w, src_h, pw, ph, px, py);
    rgb_channel(
        brightness(yuv[luma_index(src_w, src_h, pw, ph, px, py) as int], range),
        yuv[(src_w * src_h + c) as int],
        yuv[(src_w * src_h * 5 / 4 + c) as int],
        channel,
    )
}

/// The `pw` x `ph` RGB24 preview of a `src_w` x `src_h` yuv420p frame: nearest-neighbour samples
/// from the top left corner on, row by row.
pub open spec fn preview_of(
    yuv: Seq<u8>,
    src_w: nat,
    src_h: nat,
    pw: nat,
    ph: nat,
    range: LumaRange,
) -> Seq<u8> {
    Seq::new(
        pw * ph * 3,
        |i: int|
            preview_byte(
                yuv,
                src_w,
                src_h,
                pw,
                ph,
                range,
                ((i / 3) % (pw as int)) as nat,
                ((i / 3) / (pw as int)) as nat,
                i % 3,
            ),
    )
}

/// Whether every source pixel that a `pw` x `ph` preview shows lies inside its plane. The last
/// preview pixel reads farthest into each plane, so it decides.
pub open spec fn preview_fits(len: nat, src_w: nat, src_h: nat, pw: nat, ph: nat) -> bool {
    let luma = luma_index(src_w, src_h, pw, ph, (pw - 1) as nat, (ph - 1) as nat);
    let chroma = chroma_index(src_w, src_h, pw, ph, (pw - 1) as nat, (ph - 1) as nat);
    &&& src_w * src_h * 5 <= u32::MAX
    &&& src_w * src_h * 5 / 4 <= len
    &&& luma < src_w * src_h
    &&& src_w * src_h + chroma < src_w * src_h * 5 / 4
    &&& src_w * src_h * 5 / 4 + chroma < len
}

proof fn lemma_indices_grow(src_w: nat, src_h: nat, pw: nat, ph: nat, px: nat, py: nat)
    requires
        px < pw,
        py < ph,
    ensures
        luma_index(src_w, src_h, pw, ph, px, py) <= luma_index(
            src_w,
            src_h,
            pw,
            ph,
            (pw - 1) as nat,
            (ph - 1) as nat,
        ),
        chroma_index(src_w, src_h, pw, ph, px, py) <= chroma_index(
            src_w,
            src_h,
            pw,
            ph,
            (pw - 1) as nat,
            (ph - 1) as nat,
        ),
        py * stride(src_h, ph) <= (ph - 1) * stride(src_h, ph),
        px * stride(src_w, pw) <= (pw - 1) * stride(src_w, pw),
{
    let sx = stride(src_w, pw);
    let sy = stride(src_h, ph);
    let last_x = (pw - 1) as nat;
    let last_y = (ph - 1) as nat;
    assert(py * sy <= last_y * sy) by (nonlinear_arith)
        requires
            py <= last_y,
    ;
    assert(px * sx <= last_x * sx) by (nonlinear_arith)
        requires
            px <= last_x,
    ;
    let (a, b) = (py * sy, last_y * sy);
    assert(a * src_w <= b * src_w) by (nonlinear_arith)
        requires
            a <= b,
    ;
    let (c, d, half) = (a / 2, b / 2, src_w / 2);
    assert(c * half <= d * half) by (nonlinear_arith)
        requires
            c <= d,
    ;
}

proof fn lemma_row_end(py: nat, pw: nat, ph: nat)
    requires
        py < ph,
    ensures
        (py + 1) * pw * 3 <= pw * ph * 3,
        (py + 1) * pw * 3 == (py * pw + pw) * 3,
{
    assert((py + 1) * pw <= ph * pw) by (nonlinear_arith)
        requires
            py < ph,
    ;
    assert(ph * pw == pw * ph) by (nonlinear_arith);
    assert((py + 1) * pw == py * pw + pw) by (nonlinear_arith);
}

proof fn lemma_pixel_bytes(py: nat, px: nat, pw: nat)
    requires
        px < pw,
    ensures
        forall|i: int|
            (py * pw + px) * 3 <= i < (py * pw + px) * 3 + 3 ==> {
                &&& #[trigger] (i / 3) == py * pw + px
                &&& (i / 3) % (pw as int) == px
                &&& (i / 3) / (pw as int) == py
            },
{
    let row = pw as int;
    vstd::arithmetic::div_mod::lemma_fundamental_div_mod_converse(
        py * row + px,
        row,
        py as int,
        px as int,
    );
}

fn clamp_byte(x: i32) -> (r: u8)
    ensures
        r == to_byte(x as int),
{
    if x < 0 {
        0
    } else if x > 255 {
        255
    } else {
        x as u8
    }
}

fn pixel_brightness(luma: u8, range: LumaRange) -> (r: i32)
    ensures
        r == brightness(luma, range),
        0 <= r <= 255,
{
    match range {
        LumaRange::Full => luma as i32,
        LumaRange::Limited => clamp_byte((luma as i32 - 16) * 255 / 219) as i32,
    }
}

fn push_rgb(rgb: &mut Vec<u8>, y: i32, cb: u8, cr: u8)
    requires
        0 <= y <= 255,
    ensures
        final(rgb)@ == old(rgb)@ + seq![
            rgb_channel(y as int, cb, cr, 0),
            rgb_channel(y as int, cb, cr, 1),
            rgb_channel(y as int, cb, cr, 2),
        ],
{
    let u: i32 = cb as i32 - 128;
    let v: i32 = cr as i32 - 128;
    rgb.push(clamp_byte(y + 1402 * v / 1000));
    rgb.push(clamp_byte(y - 344 * u / 1000 - 714 * v / 1000));
    rgb.push(clamp_byte(y + 1772 * u / 1000));
}

proof fn lemma_next_pixel(
    yuv: Seq<u8>,
    src_w: nat,
    src_h: nat,
    pw: nat,
    ph: nat,
    range: LumaRange,
    px: nat,
    py: nat,
)
    requires
        px < pw,
        py < ph,
    ensures
        ({
            let want = preview_of(yuv, src_w, src_h, pw, ph, range);
            let at = ((py * pw + px) * 3) as int;
            &&& at + 3 <= want.len()
            &&& want.take(at + 3) == want.take(at) + seq![
                preview_byte(yuv, src_w, src_h, pw, ph, range, px, py, 0),
                preview_byte(yuv, src_w, src_h, pw, ph, range, px, py, 1),
                preview_byte(yuv, src_w, src_h, pw, ph, range, px, py, 2),
            ]
        }),
{
    let want = preview_of(yuv, src_w, src_h, pw, ph, range);
    let at = ((py * pw + px) * 3) as int;
    lemma_row_end(py, pw, ph);
    lemma_pixel_bytes(py, px, pw);
    assert(at / 3 == py * pw + px);
    assert((at + 1) / 3 == py * pw + px);
    assert((at + 2) / 3 == py * pw + px);
    assert(want.take(at + 3) =~= want.take(at) + seq![want[at], want[at + 1], want[at + 2]]);
}

/// Whether a frame of `len` bytes has a `pw` x `ph` preview.
pub fn has_preview(len: usize, src_w: u32, src_h: u32, pw: u32, ph: u32) -> (r: bool)
    requires
        pw > 0,
        ph > 0,
    ensures
        r == preview_fits(len as nat, src_w as nat, src_h as nat, pw as nat, ph as nat),
{
    let (w, h): (u128, u128) = (src_w as u128, src_h as u128);
    let scale_x: u128 = if src_w / pw < 1 {
        1
    } else {
        (src_w / pw) as u128
    };
    let scale_y: u128 = if src_h / ph < 1 {
        1
    } else {
        (src_h / ph) as u128
    };
    let (last_x, last_y): (u128, u128) = ((pw - 1) as u128, (ph - 1) as u128);
    proof {
        lemma_small_product(w as int, h as int, 0x1_0000_0000, 0x1_0000_0000);
        lemma_small_product(last_x as int, scale_x as int, 0x1_0000_0000, 0x1_0000_0000);
        lemma_small_product(last_y as int, scale_y as int, 0x1_0000_0000, 0x1_0000_0000);
        lemma_small_product(
            last_y * scale_y,
            w as int,
            0x1_0000_0000_0000_0000,
            0x1_0000_0000,
        );
        lemma_small_product(
            last_y * scale_y / 2,
            w as int / 2,
            0x1_0000_0000_0000_0000,
            0x1_0000_0000,
        );
    }
    let size: u128 = w * h;
    let (x, y): (u128, u128) = (last_x * scale_x, last_y * scale_y);
    let luma: u128 = y * w + x;
    let chroma: u128 = (y / 2) * (w / 2) + x / 2;
    size * 5 <= u32::MAX as u128 && size * 5 / 4 <= len as u128 && luma < size && size + chroma
        < size * 5 / 4 && size * 5 / 4 + chroma < len as u128
}

proof fn lemma_small_product(a: int, b: int, a_end: int, b_end: int)
    requires
        0 <= a < a_end,
        0 <= b < b_end,
    ensures
        0 <= a * b < a_end * b_end,
{
    assert(0 <= a * b < a_end * b_end) by (nonlinear_arith)
        requires
            0 <= a < a_end,
            0 <= b < b_end,
    ;
}

/// Samples a yuv420p frame down to `pw` x `ph` pixels and converts them to RGB24.
pub fn preview_rgb(yuv: &[u8], src_w: u32, src_h: u32, pw: u32, ph: u32, range: LumaRange) -> (r:
    Vec<u8>)
    requires
        pw > 0,
        ph > 0,
        preview_fits(yuv@.len(), src_w as nat, src_h as nat, pw as nat, ph as nat),
    ensures
        r@ == preview_of(yuv@, src_w as nat, src_h as nat, pw as nat, ph as nat, range),
{
    let ghost want = preview_of(yuv@, src_w as nat, src_h as nat, pw as nat, ph as nat, range);
    let u_start: usize = (src_w * src_h) as usize;
    let v_start: usize = (src_w * src_h * 5 / 4) as usize;
    let scale_x: u32 = if src_w / pw < 1 {
        1
    } else {
        src_w / pw
    };
    let scale_y: u32 = if src_h / ph < 1 {
        1
    } else {
        src_h / ph
    };
    let mut rgb: Vec<u8> = Vec::new();

    let mut py: u32 = 0;
    while py < ph
        invariant
            py <= ph,
            pw > 0,
            preview_fits(yuv@.len(), src_w as nat, src_h as nat, pw as nat, ph as nat),
            scale_x == stride(src_w as nat, pw as nat),
            scale_y == stride(src_h as nat, ph as nat),
            u_start == src_w * src_h,
            v_start == src_w * src_h * 5 / 4,
            want == preview_of(yuv@, src_w as nat, src_h as nat, pw as nat, ph as nat, range),
            rgb@.len() == py * pw * 3,
            rgb@ =~= want.take(py * pw * 3),
        decreases ph - py,
    {
        proof {
            lemma_indices_grow(src_w as nat, src_h as nat, pw as nat, ph as nat, 0, py as nat);
            lemma_row_end(py as nat, pw as nat, ph as nat);
            let last_row = (ph - 1) * scale_y;
            assert(last_row <= last_row * src_w) by (nonlinear_arith)
                requires
                    last_row * src_w < src_w * src_h,
                    last_row >= 0,
            ;
        }
        let sy: u32 = py * scale_y;
        let mut px: u32 = 0;
        while px < pw
            invariant
                px <= pw,
                py < ph,
                pw > 0,
                preview_fits(yuv@.len(), src_w as nat, src_h as nat, pw as nat, ph as nat),
                scale_x == stride(src_w as nat, pw as nat),
                scale_y == stride(src_h as nat, ph as nat),
                sy == py * scale_y,
                u_start == src_w * src_h,
                v_start == src_w * src_h * 5 / 4,
                want == preview_of(yuv@, src_w as nat, src_h as nat, pw as nat, ph as nat, range),
                rgb@.len() == (py * pw + px) * 3,
                rgb@ =~= want.take((py * pw + px) * 3),
            decreases pw - px,
        {
            proof {
                lemma_indices_grow(
                    src_w as nat,
                    src_h as nat,
                    pw as nat,
                    ph as nat,
                    px as nat,
                    py as nat,
                );
                lemma_next_pixel(
                    yuv@,
                    src_w as nat,
                    src_h as nat,
                    pw as nat,
                    ph as nat,
                    range,
                    px as nat,
                    py as nat,
                );
            }
            let sx: u32 = px * scale_x;
            let luma: usize = (sy * src_w + sx) as usize;
            let chroma: usize = ((sy / 2) * (src_w / 2) + (sx / 2)) as usize;
            let y: i32 = pixel_brightness(yuv[luma], range);
            push_rgb(&mut rgb, y, yuv[u_start + chroma], yuv[v_start + chroma]);
            px += 1;
        }
        py += 1;
    }
    assert(want.take(ph * pw * 3) =~= want) by {
        assert(ph * pw == pw * ph) by (nonlinear_arith);
    }
    rgb
}

/// The window's preview of a limited-range yuv420p frame: `PREVIEW_W` x `PREVIEW_H` RGB24 pixels.
///
/// Cheap rather than pretty: nearest-neighbour samples and integer BT.601 arithmetic.
pub fn yuv420p_to_preview_rgb(yuv: &[u8], src_w: u32, src_h: u32) -> (r: Vec<u8>)
    requires
        preview_fits(
            yuv@.len(),
            src_w as nat,
            src_h as nat,
            PREVIEW_W as nat,
            PREVIEW_H as nat,
        ),
    ensures
        r@ == preview_of(
            yuv@,
            src_w as nat,
            src_h as nat,
            PREVIEW_W as nat,
            PREVIEW_H as nat,
            LumaRange::Limited,
        ),
        r@.len() == PREVIEW_FRAME_BYTES,
{
    preview_rgb(yuv, src_w, src_h, PREVIEW_W, PREVIEW_H, LumaRange::Limited)
}

/// Byte `channel` of the pixel at `(px, py)` stands at the RGB24 offset of that pixel.
pub proof fn preview_pixel_position(
    yuv: Seq<u8>,
    src_w: nat,
    src_h: nat,
    pw: nat,
    ph: nat,
    range: LumaRange,
    px: nat,
    py: nat,
    channel: int,
)
    requires
        px < pw,
        py < ph,
        0 <= channel < 3,
    ensures
        (py * pw + px) * 3 + channel < preview_of(yuv, src_w, src_h, pw, ph, range).len(),
        preview_of(yuv, src_w, src_h, pw, ph, range)[(py * pw + px) * 3 + channel] == preview_byte(
            yuv,
            src_w,
            src_h,
            pw,
            ph,
            range,
            px,
            py,
            channel,
        ),
{
    lemma_row_end(py, pw, ph);
    lemma_pixel_bytes(py, px, pw);
    let i = (py * pw + px) * 3 + channel;
    assert(i / 3 == py * pw + px);
    assert(i % 3 == channel);
}

/// A complete frame whose sides are not shorter than the preview's has a preview, as long as along
/// each side the frame's or the preview's length is even.
pub proof fn whole_frames_have_a_preview(len: nat, src_w: nat, src_h: nat, pw: nat, ph: nat)
    requires
        0 < pw <= src_w,
        0 < ph <= src_h,
        src_w % 2 == 0 || pw % 2 == 0,
        src_h % 2 == 0 || ph % 2 == 0,
        src_w * src_h * 5 <= u32::MAX,
        len >= src_w * src_h * 3 / 2,
    ensures
        preview_fits(len, src_w, src_h, pw, ph),
{
    let x = (pw - 1) * stride(src_w, pw);
    let y = (ph - 1) * stride(src_h, ph);
    lemma_last_sample_inside(src_w, pw);
    lemma_last_sample_inside(src_h, ph);
    let (half_w, half_h) = (src_w / 2, src_h / 2);
    assert(y * src_w <= (src_h - 1) * src_w) by (nonlinear_arith)
        requires
            y <= src_h - 1,
    ;
    assert((src_h - 1) * src_w == src_w * src_h - src_w) by (nonlinear_arith);
    assert((y / 2) * half_w <= (half_h - 1) * half_w) by (nonlinear_arith)
        requires
            y / 2 <= half_h - 1,
    ;
    assert((half_h - 1) * half_w == half_w * half_h - half_w) by (nonlinear_arith);
    assert(src_w * src_h >= 4 * (half_w * half_h)) by (nonlinear_arith)
        requires
            src_w >= 2 * half_w,
            src_h >= 2 * half_h,
    ;
}

proof fn lemma_last_sample_inside(src: nat, shown: nat)
    requires
        0 < shown <= src,
    ensures
        0 <= (shown - 1) * stride(src, shown) <= src - 1,
        src % 2 == 0 || shown % 2 == 0 ==> (shown - 1) * stride(src, shown) / 2 <= src / 2 - 1,
{
    let step = stride(src, shown);
    vstd::arithmetic::div_mod::lemma_fundamental_div_mod(src as int, shown as int);
    vstd::arithmetic::div_mod::lemma_div_non_zero(src as int, shown as int);
    assert((shown - 1) * step == shown * step - step) by (nonlinear_arith);
    assert(0 <= (shown - 1) * step) by (nonlinear_arith)
        requires
            shown >= 1,
            step >= 0,
    ;
    if shown % 2 == 0 {
        let half = shown / 2;
        assert(shown * step == 2 * (half * step)) by (nonlinear_arith)
            requires
                shown == 2 * half,
        ;
    }
}

/// A pixel without colour (both chroma bytes 128) is a grey of exactly its brightness.
pub proof fn neutral_chroma_is_grey(y: int, channel: int)
    requires
        0 <= y <= 255,
    ensures
        rgb_channel(y, 128, 128, channel) == y,
{
}

/// More luma never looks darker; limited-range black is 0 and limited-range white is 255.
pub proof fn brightness_follows_luma(a: u8, b: u8, range: LumaRange)
    requires
        a <= b,
    ensures
        0 <= brightness(a, range) <= brightness(b, range) <= 255,
        range == LumaRange::Limited && b <= 16 ==> brightness(b, range) == 0,
        range == LumaRange::Limited && a >= 235 ==> brightness(a, range) == 255,
{
}

/// Whether `q` is `a` divided by `b` and rounded toward zero.
pub open spec fn is_quotient(q: int, a: int, b: int) -> bool {
    &&& a >= 0 ==> q >= 0 && q * b <= a < q * b + b
    &&& a < 0 ==> q <= 0 && q * b - b < a <= q * b
}

/// Whether `x`, brought into the range of a byte, is `byte`.
pub open spec fn is_clamped(byte: int, x: int) -> bool {
    &&& x < 0 ==> byte == 0
    &&& 0 <= x <= 255 ==> byte == x
    &&& x > 255 ==> byte == 255
}

proof fn lemma_quotient(q: int, a: int, b: int)
    requires
        is_quotient(q, a, b),
        b == 1000 || b == 219,
    ensures
        q == quot(a, b),
{
}

/// The preview pixel at `(px, py)` shows the source pixel at `(sx, sy)`, which lies as many whole
/// strides from the corner. Its brightness is that of the luma byte at row `sy`, column `sx`, its
/// colour comes from the bytes at row `sy / 2`, column `sx / 2` of the two chroma planes, which are
/// half as wide and stand one behind the other after the luma plane. Nothing else has a part in it.
pub proof fn a_preview_pixel_shows_its_source(
    yuv: Seq<u8>,
    src_w: nat,
    src_h: nat,
    pw: nat,
    ph: nat,
    range: LumaRange,
    px: nat,
    py: nat,
    sx: int,
    sy: int,
    level: int,
    stretched: int,
    red: int,
    green_u: int,
    green_v: int,
    blue: int,
)
    requires
        px < pw,
        py < ph,
        sx == px * (if src_w >= pw {
            src_w / pw
        } else {
            1
        }),
        sy == py * (if src_h >= ph {
            src_h / ph
        } else {
            1
        }),
        ({
            let luma = yuv[sy * src_w + sx];
            let u = yuv[src_w * src_h + (sy / 2) * (src_w as int / 2) + sx / 2] - 128;
            let v = yuv[src_w * src_h * 5 / 4 + (sy / 2) * (src_w as int / 2) + sx / 2] - 128;
            &&& range == LumaRange::Full ==> level == luma
            &&& range == LumaRange::Limited ==> is_quotient(stretched, (luma - 16) * 255, 219)
                && is_clamped(level, stretched)
            &&& is_quotient(red, 1402 * v, 1000)
            &&& is_quotient(green_u, 344 * u, 1000)
            &&& is_quotient(green_v, 714 * v, 1000)
            &&& is_quotient(blue, 1772 * u, 1000)
        }),
    ensures
        ({
            let rgb = preview_of(yuv, src_w, src_h, pw, ph, range);
            let at = ((py * pw + px) * 3) as int;
            &&& rgb.len() == pw * ph * 3
            &&& at + 2 < rgb.len()
            &&& is_clamped(rgb[at] as int, level + red)
            &&& is_clamped(rgb[at + 1] as int, level - green_u - green_v)
            &&& is_clamped(rgb[at + 2] as int, level + blue)
        }),
{
    preview_pixel_position(yuv, src_w, src_h, pw, ph, range, px, py, 0);
    preview_pixel_position(yuv, src_w, src_h, pw, ph, range, px, py, 1);
    preview_pixel_position(yuv, src_w, src_h, pw, ph, range, px, py, 2);
    lemma_stride(src_w, pw);
    lemma_stride(src_h, ph);
    assert(luma_index(src_w, src_h, pw, ph, px, py) == sy * src_w + sx);
    assert(chroma_index(src_w, src_h, pw, ph, px, py) == (sy / 2) * (src_w as int / 2) + sx / 2);
    let luma = yuv[sy * src_w + sx];
    let u = yuv[src_w * src_h + (sy / 2) * (src_w as int / 2) + sx / 2] - 128;
    let v = yuv[src_w * src_h * 5 / 4 + (sy / 2) * (src_w as int / 2) + sx / 2] - 128;
    if range == LumaRange::Limited {
        lemma_quotient(stretched, (luma - 16) * 255, 219);
    }
    lemma_quotient(red, 1402 * v, 1000);
    lemma_quotient(green_u, 344 * u, 1000);
    lemma_quotient(green_v, 714 * v, 1000);
    lemma_quotient(blue, 1772 * u, 1000);
    assert(brightness(luma, range) == level);
}

proof fn lemma_stride(src: nat, shown: nat)
    requires
        shown > 0,
    ensures
        stride(src, shown) == if src >= shown {
            src / shown
        } else {
            1
        },
{
    if src >= shown {
        vstd::arithmetic::div_mod::lemma_div_non_zero(src as int, shown as int);
    } else {
        vstd::arithmetic::div_mod::lemma_basic_div(src as int, shown as int);
    }
}

/// A frame has a preview exactly if every pixel that the preview shows lies inside its planes: the
/// luma byte inside the luma plane, and the chroma bytes inside theirs, the last of which ends with
/// the frame.
pub proof fn a_preview_needs_every_pixel_it_shows(
    len: nat,
    src_w: nat,
    src_h: nat,
    pw: nat,
    ph: nat,
)
    requires
        pw > 0,
        ph > 0,
    ensures
        preview_fits(len, src_w, src_h, pw, ph) <==> {
            &&& src_w * src_h * 5 <= u32::MAX
            &&& src_w * src_h * 5 / 4 <= len
            &&& forall|px: nat, py: nat|
                px < pw && py < ph ==> #[trigger] shows_inside(len, src_w, src_h, pw, ph, px, py)
        },
{
    let (lx, ly) = ((pw - 1) as nat, (ph - 1) as nat);
    lemma_stride(src_w, pw);
    lemma_stride(src_h, ph);
    if preview_fits(len, src_w, src_h, pw, ph) {
        assert forall|px: nat, py: nat| px < pw && py < ph implies #[trigger] shows_inside(
            len,
            src_w,
            src_h,
            pw,
            ph,
            px,
            py,
        ) by {
            lemma_indices_grow(src_w, src_h, pw, ph, px, py);
        }
    }
    if forall|px: nat, py: nat|
        px < pw && py < ph ==> #[trigger] shows_inside(len, src_w, src_h, pw, ph, px, py) {
        assert(shows_inside(len, src_w, src_h, pw, ph, lx, ly));
    }
}

/// Whether the source pixel that a preview shows at `(px, py)` has its three bytes inside the planes
/// of a frame of `len` bytes.
pub open spec fn shows_inside(
    len: nat,
    src_w: nat,
    src_h: nat,
    pw: nat,
    ph: nat,
    px: nat,
    py: nat,
) -> bool {
    let sx = px * (if src_w >= pw {
        src_w / pw
    } else {
        1
    });
    let sy = py * (if src_h >= ph {
        src_h / ph
    } else {
        1
    });
    let chroma = (sy / 2) * (src_w / 2) + sx / 2;
    &&& sy * src_w + sx < src_w * src_h
    &&& src_w * src_h + chroma < src_w * src_h * 5 / 4
    &&& src_w * src_h * 5 / 4 + chroma < len
}

/// An NV12 frame is half as long again as its luma plane; where the chroma bytes do not come out
/// even, the rest is zero.
pub proof fn nv12_has_its_length(yuv: Seq<u8>, w: nat, h: nat)
    ensures
        nv12_of(yuv, w, h).len() == w * h + w * h / 2,
        forall|i: int|
            w * h + 2 * (w * h / 2 / 2) <= i < w * h + w * h / 2 ==> #[trigger] nv12_of(
                yuv,
                w,
                h,
            )[i] == 0,
{
}

} // verus!
