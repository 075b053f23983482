//! Media types and samples of the virtual camera.
use vstd::prelude::*;

use crate::windows::setup::Route;
use crate::windows::stream::{OUTPUT_FPS_D, OUTPUT_FPS_N, SAMPLE_DURATION};

verus! {

/// The code `NV12` of the pixel format of the samples.
pub const NV12_FOURCC: u32 = 0x3231_564e;

/// Two numbers side by side in one attribute.
pub open spec fn packed(high: u32, low: u32) -> int {
    high * 0x1_0000_0000 + low
}

/// Two numbers side by side in one attribute.
pub fn pack(high: u32, low: u32) -> (r: u64)
    ensures
        r == packed(high, low),
{
    proof {
        assert(((high as u64) << 32) | (low as u64) == high * 0x1_0000_0000 + low) by (bit_vector);
    }
    ((high as u64) << 32) | (low as u64)
}

/// The attributes of the camera's media type, apart from major type and subtype. One that is not
/// set is `None`.
#[derive(Clone, Copy, PartialEq, Eq, Structural, Debug)]
pub struct MediaType {
    pub frame_size: u64,
    pub frame_rate: u64,
    pub frame_rate_max: Option<u64>,
    pub frame_rate_min: Option<u64>,
    pub pixel_aspect_ratio: u64,
    pub all_samples_independent: u32,
}

/// The media type of `width` x `height` frames at the camera's frame rate, with square pixels. Where
/// the camera is asked for its layout, the rate is declared as a range too.
pub fn build_nv12_media_type(width: u32, height: u32, route: Route) -> (r: MediaType)
    ensures
        r.frame_size == packed(width, height),
        r.frame_rate == packed(OUTPUT_FPS_N, OUTPUT_FPS_D),
        r.frame_rate_max == match route {
            Route::Direct => None,
            Route::Negotiated => Some(r.frame_rate),
        },
        r.frame_rate_min == r.frame_rate_max,
        r.pixel_aspect_ratio == packed(1, 1),
        r.all_samples_independent == 1,
{
    let rate: u64 = pack(OUTPUT_FPS_N, OUTPUT_FPS_D);
    let bound: Option<u64> = match route {
        Route::Direct => None,
        Route::Negotiated => Some(rate),
    };
    MediaType {
        frame_size: pack(width, height),
        frame_rate: rate,
        frame_rate_max: bound,
        frame_rate_min: bound,
        pixel_aspect_ratio: pack(1, 1),
        all_samples_independent: 1,
    }
}

/// `dst` with `src` written over it from `at` on.
pub open spec fn overlaid(dst: Seq<u8>, at: int, src: Seq<u8>) -> Seq<u8> {
    dst.take(at) + src + dst.skip(at + src.len())
}

/// `dst` with the first `n` rows of `width` bytes of `src` written over it, `pitch` bytes apart,
/// from `at` on, the first row first.
pub open spec fn with_rows(
    dst: Seq<u8>,
    at: int,
    src: Seq<u8>,
    width: nat,
    pitch: nat,
    n: nat,
) -> Seq<u8>
    decreases n,
{
    if n == 0 {
        dst
    } else {
        let row = (n - 1) as nat;
        overlaid(
            with_rows(dst, at, src, width, pitch, row),
            at + row * pitch,
            src.subrange((row * width) as int, (row * width + width) as int),
        )
    }
}

/// Whether `n` rows of `width` bytes, `pitch` bytes apart from `at` on, end before `len`.
pub open spec fn rows_fit(len: nat, at: nat, width: nat, pitch: nat, n: nat) -> bool {
    n > 0 ==> at + (n - 1) * pitch + width <= len
}

proof fn lemma_with_rows_len(
    dst: Seq<u8>,
    at: nat,
    src: Seq<u8>,
    width: nat,
    pitch: nat,
    n: nat,
)
    requires
        rows_fit(dst.len(), at, width, pitch, n),
        n * width <= src.len(),
    ensures
        with_rows(dst, at as int, src, width, pitch, n).len() == dst.len(),
    decreases n,
{
    if n > 0 {
        let row = (n - 1) as nat;
        lemma_earlier_rows(at, width, pitch, row, n, src.len());
        lemma_with_rows_len(dst, at, src, width, pitch, row);
    }
}

proof fn lemma_earlier_rows(at: nat, width: nat, pitch: nat, row: nat, n: nat, src_len: nat)
    requires
        row < n,
        n * width <= src_len,
    ensures
        row * width + width <= src_len,
        row * width <= src_len,
        0 <= row * pitch <= (n - 1) * pitch,
        row > 0 ==> (row - 1) * pitch <= (n - 1) * pitch,
{
    assert((row + 1) * width <= n * width) by (nonlinear_arith)
        requires
            row < n,
    ;
    assert((row + 1) * width == row * width + width) by (nonlinear_arith);
    assert(row * pitch <= (n - 1) * pitch) by (nonlinear_arith)
        requires
            row <= n - 1,
    ;
    assert(0 <= row * pitch) by (nonlinear_arith);
    if row > 0 {
        assert((row - 1) * pitch <= (n - 1) * pitch) by (nonlinear_arith)
            requires
                row - 1 <= n - 1,
        ;
    }
}

fn copy_row(dst: &mut [u8], at: usize, src: &[u8], from: usize, width: usize)
    requires
        at + width <= old(dst).len(),
        from + width <= src.len(),
    ensures
        final(dst)@ == overlaid(
            old(dst)@,
            at as int,
            src@.subrange(from as int, from + width),
        ),
{
    let ghost before = dst@;
    let mut i: usize = 0;
    while i < width
        invariant
            i <= width,
            dst@.len() == before.len(),
            at + width <= dst.len(),
            from + width <= src.len(),
            forall|k: int|
                0 <= k < before.len() ==> dst@[k] == if at <= k < at + i {
                    src@[from + (k - at)]
                } else {
                    before[k]
                },
        decreases width - i,
    {
        dst[at + i] = src[from + i];
        i += 1;
    }
    assert(dst@ =~= overlaid(before, at as int, src@.subrange(from as int, from + width)));
}

fn copy_rows(
    dst: &mut [u8],
    at: usize,
    src: &[u8],
    from: usize,
    width: usize,
    pitch: usize,
    rows: usize,
)
    requires
        rows_fit(old(dst)@.len(), at as nat, width as nat, pitch as nat, rows as nat),
        from + rows * width <= src@.len(),
    ensures
        final(dst)@ == with_rows(
            old(dst)@,
            at as int,
            src@.skip(from as int),
            width as nat,
            pitch as nat,
            rows as nat,
        ),
        final(dst)@.len() == old(dst)@.len(),
{
    let ghost before = dst@;
    let ghost rest = src@.skip(from as int);
    let mut row: usize = 0;
    while row < rows
        invariant
            row <= rows,
            rest == src@.skip(from as int),
            from + rows * width <= src@.len(),
            from <= src@.len(),
            rows_fit(before.len(), at as nat, width as nat, pitch as nat, rows as nat),
            dst@.len() == before.len(),
            dst@ == with_rows(
                before,
                at as int,
                rest,
                width as nat,
                pitch as nat,
                row as nat,
            ),
        decreases rows - row,
    {
        proof {
            lemma_earlier_rows(
                at as nat,
                width as nat,
                pitch as nat,
                row as nat,
                rows as nat,
                rest.len(),
            );
            assert(dst.len() == before.len());
            assert(src.len() == src@.len());
            assert(row * width + width <= rest.len());
        }
        copy_row(dst, at + row * pitch, src, from + row * width, width);
        assert(src@.subrange(from + row * width, from + row * width + width) =~= rest.subrange(
            row * width,
            row * width + width,
        ));
        row += 1;
    }
}

/// The buffer of a sample: the luma rows of the NV12 frame `data`, then its chroma rows, each
/// `pitch` bytes after the one before.
pub open spec fn pitched(dst: Seq<u8>, data: Seq<u8>, width: nat, height: nat, pitch: nat) -> Seq<
    u8,
> {
    let luma = with_rows(dst, 0, data, width, pitch, height);
    with_rows(
        luma,
        (height * pitch) as int,
        data.skip((width * height) as int),
        width,
        pitch,
        height / 2,
    )
}

/// Whether a buffer of `len` bytes takes a `width` x `height` NV12 frame with rows `pitch` apart.
pub open spec fn buffer_fits(len: nat, width: nat, height: nat, pitch: nat) -> bool {
    &&& rows_fit(len, 0, width, pitch, height)
    &&& rows_fit(len, height * pitch, width, pitch, height / 2)
}

/// Copies an NV12 frame to the buffer of a sample, whose rows are `pitch` bytes apart. Returns how
/// many bytes of the buffer count.
pub fn fill_buffer(dst: &mut [u8], data: &[u8], width: u32, height: u32, pitch: usize) -> (r: u32)
    requires
        width * height + width * height / 2 <= u32::MAX,
        width * height + width * height / 2 <= data@.len(),
        height * pitch <= usize::MAX,
        buffer_fits(old(dst)@.len(), width as nat, height as nat, pitch as nat),
    ensures
        final(dst)@ == pitched(old(dst)@, data@, width as nat, height as nat, pitch as nat),
        final(dst)@.len() == old(dst)@.len(),
        r == width * height + width * height / 2,
{
    let y_size: usize = (width * height) as usize;
    let uv_size: usize = y_size / 2;
    proof {
        let (w, h) = (width as int, height as int);
        assert(h * w == w * h) by (nonlinear_arith);
        assert(2 * ((h / 2) * w) <= h * w) by (nonlinear_arith)
            requires
                2 * (h / 2) <= h,
                w >= 0,
        ;
        assert(data@.skip(0) =~= data@);
    }
    copy_rows(dst, 0, data, 0, width as usize, pitch, height as usize);
    copy_rows(
        dst,
        height as usize * pitch,
        data,
        y_size,
        width as usize,
        pitch,
        height as usize / 2,
    );
    (y_size + uv_size) as u32
}

/// How long a sample lasts on Media Foundation's clock.
pub fn sample_duration() -> (r: i64)
    ensures
        r == SAMPLE_DURATION,
{
    SAMPLE_DURATION
}

proof fn lemma_beyond_rows(
    dst: Seq<u8>,
    at: nat,
    src: Seq<u8>,
    width: nat,
    pitch: nat,
    n: nat,
    i: int,
)
    requires
        width <= pitch,
        rows_fit(dst.len(), at, width, pitch, n),
        n * width <= src.len(),
        0 <= i < dst.len(),
        i < at || i >= at + n * pitch,
    ensures
        with_rows(dst, at as int, src, width, pitch, n)[i] == dst[i],
    decreases n,
{
    if n > 0 {
        let last = (n - 1) as nat;
        lemma_earlier_rows(at, width, pitch, last, n, src.len());
        lemma_with_rows_len(dst, at, src, width, pitch, last);
        assert(n * pitch == last * pitch + pitch) by (nonlinear_arith)
            requires
                n == last + 1,
        ;
        lemma_beyond_rows(dst, at, src, width, pitch, last, i);
    }
}

/// Where rows do not overlap, row `row` of the `n` that are written stands `row * pitch` bytes after
/// the first, and what lies between it and the next row is left alone.
pub proof fn rows_stand_apart(
    dst: Seq<u8>,
    at: nat,
    src: Seq<u8>,
    width: nat,
    pitch: nat,
    n: nat,
    row: nat,
    col: nat,
)
    requires
        width <= pitch,
        rows_fit(dst.len(), at, width, pitch, n),
        n * width <= src.len(),
        row < n,
        col < pitch,
        at + row * pitch + col < dst.len(),
    ensures
        with_rows(dst, at as int, src, width, pitch, n)[(at + row * pitch + col) as int] == if col
            < width {
            src[(row * width + col) as int]
        } else {
            dst[(at + row * pitch + col) as int]
        },
    decreases n,
{
    let last = (n - 1) as nat;
    let i = (at + row * pitch + col) as int;
    lemma_earlier_rows(at, width, pitch, last, n, src.len());
    lemma_with_rows_len(dst, at, src, width, pitch, last);
    if row < last {
        assert(row * pitch + pitch <= last * pitch) by (nonlinear_arith)
            requires
                row < last,
        ;
        rows_stand_apart(dst, at, src, width, pitch, last, row, col);
    } else {
        lemma_beyond_rows(dst, at, src, width, pitch, last, i);
    }
}

/// A sample's buffer holds the frame row by row, each row `pitch` bytes after the one before: first
/// the rows of the luma plane, then, right after the last of them, half as many rows of the chroma
/// plane. What lies between two rows and behind the last is left alone. A buffer that has room for
/// all these rows takes the frame.
pub proof fn a_sample_holds_the_frame(
    dst: Seq<u8>,
    data: Seq<u8>,
    width: nat,
    height: nat,
    pitch: nat,
    row: nat,
    col: nat,
    beyond: int,
)
    requires
        width <= pitch,
        (height + height / 2) * pitch <= dst.len(),
        width * height + width * height / 2 <= data.len(),
        row < height + height / 2,
        col < pitch,
        (height + height / 2) * pitch <= beyond < dst.len() || beyond == dst.len(),
    ensures
        buffer_fits(dst.len(), width, height, pitch),
        pitched(dst, data, width, height, pitch).len() == dst.len(),
        row * pitch + col < dst.len(),
        pitched(dst, data, width, height, pitch)[(row * pitch + col) as int] == if col >= width {
            dst[(row * pitch + col) as int]
        } else if row < height {
            data[(row * width + col) as int]
        } else {
            data[(width * height + (row - height) * width + col) as int]
        },
        beyond < dst.len() ==> pitched(dst, data, width, height, pitch)[beyond] == dst[beyond],
{
    let half = height / 2;
    let all = height + half;
    let i = (row * pitch + col) as int;
    let rest = data.skip((width * height) as int);
    assert(all * pitch == height * pitch + half * pitch) by (nonlinear_arith)
        requires
            all == height + half,
    ;
    assert(row * pitch + pitch <= all * pitch) by (nonlinear_arith)
        requires
            row < all,
    ;
    assert(height * width == width * height) by (nonlinear_arith);
    assert(half * width <= width * height / 2) by (nonlinear_arith)
        requires
            2 * half <= height,
    ;
    if height > 0 {
        assert((height - 1) * pitch + pitch == height * pitch) by (nonlinear_arith);
    }
    if half > 0 {
        assert((half - 1) * pitch + pitch == half * pitch) by (nonlinear_arith);
    }
    assert(half * pitch >= 0) by (nonlinear_arith);
    assert(height * pitch >= 0) by (nonlinear_arith);
    let at = height * pitch;
    let luma = with_rows(dst, 0, data, width, pitch, height);
    lemma_with_rows_len(dst, 0, data, width, pitch, height);
    lemma_with_rows_len(luma, at, rest, width, pitch, half);
    if row < height {
        assert(row * pitch + pitch <= height * pitch) by (nonlinear_arith)
            requires
                row < height,
        ;
        rows_stand_apart(dst, 0, data, width, pitch, height, row, col);
        lemma_beyond_rows(luma, at, rest, width, pitch, half, i);
    } else {
        let below = (row - height) as nat;
        assert(row * pitch == at + below * pitch) by (nonlinear_arith)
            requires
                row == height + below,
                at == height * pitch,
        ;
        assert(below * pitch >= 0) by (nonlinear_arith);
        lemma_beyond_rows(dst, 0, data, width, pitch, height, i);
        rows_stand_apart(luma, at, rest, width, pitch, half, below, col);
        if col < width {
            assert((below + 1) * width <= half * width) by (nonlinear_arith)
                requires
                    below < half,
            ;
            assert((below + 1) * width == below * width + width) by (nonlinear_arith);
            assert(0 <= below * width) by (nonlinear_arith);
            assert(rest[(below * width + col) as int] == data[(width * height + below * width + col)
                as int]);
        }
    }
    if beyond < dst.len() {
        lemma_beyond_rows(dst, 0, data, width, pitch, height, beyond);
        lemma_beyond_rows(luma, at, rest, width, pitch, half, beyond);
    }
}

/// Two numbers that share an attribute can both be read from it.
pub proof fn packed_numbers_read_back(high: u32, low: u32)
    ensures
        packed(high, low) / 0x1_0000_0000 == high,
        packed(high, low) % 0x1_0000_0000 == low,
{
}

} // verus!
