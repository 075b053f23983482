//! Setting the format of a V4L2 loopback device.
use vstd::prelude::*;

verus! {

/// The device is written to: what v4l2loopback 0.13 and later expect of a producer.
pub const V4L2_BUF_TYPE_VIDEO_OUTPUT: u32 = 2;

/// The device is read from: what earlier versions of v4l2loopback expect.
pub const V4L2_BUF_TYPE_VIDEO_CAPTURE: u32 = 1;

/// Frames are not interlaced.
pub const V4L2_FIELD_NONE: u32 = 1;

/// Planar YUV 4:2:0, the code `YU12`: the same as FFmpeg's yuv420p.
pub const V4L2_PIX_FMT_YUV420: u32 = 0x3231_5559;

/// Bytes of the `fmt` member of the kernel's `v4l2_format`.
pub const FMT_BYTES: usize = 200;

/// Bytes of the kernel's `v4l2_format`: type, padding and the `fmt` member.
pub const FORMAT_BYTES: u32 = 208;

/// The code of four characters, the first in the lowest byte.
pub fn fourcc(a: u8, b: u8, c: u8, d: u8) -> (r: u32)
    ensures
        r == a + b * 0x100 + c * 0x1_0000 + d * 0x100_0000,
{
    proof {
        assert((a as u32) | ((b as u32) << 8) | ((c as u32) << 16) | ((d as u32) << 24) == a + b
            * 0x100 + c * 0x1_0000 + d * 0x100_0000) by (bit_vector);
    }
    (a as u32) | ((b as u32) << 8) | ((c as u32) << 16) | ((d as u32) << 24)
}

/// The number of an ioctl that reads and writes `size` bytes: direction, size, type and number
/// side by side.
pub fn iowr(nr_type: u32, nr: u32, size: u32) -> (r: u64)
    ensures
        r == ((3u32 << 30) | (size << 16) | (nr_type << 8) | nr),
        nr_type < 0x100 && nr < 0x100 && size < 0x4000 ==> r == 0xc000_0000 + size * 0x1_0000
            + nr_type * 0x100 + nr,
{
    proof {
        assert(nr_type < 0x100 && nr < 0x100 && size < 0x4000 ==> ((3u32 << 30) | (size << 16) | (
        nr_type << 8) | nr) == 0xc000_0000 + size * 0x1_0000 + nr_type * 0x100 + nr)
            by (bit_vector);
    }
    ((3u32 << 30) | (size << 16) | (nr_type << 8) | nr) as u64
}

/// The number of `VIDIOC_S_FMT`, which sets a device's format.
pub fn vidioc_s_fmt() -> (r: u64)
    ensures
        r == 0xc0d0_5605,
{
    iowr(0x56, 5, FORMAT_BYTES)
}

/// The four bytes of `v`, lowest first.
pub open spec fn bytes_up(v: u32) -> Seq<u8> {
    seq![
        (v % 0x100) as u8,
        (v / 0x100 % 0x100) as u8,
        (v / 0x1_0000 % 0x100) as u8,
        (v / 0x100_0000) as u8,
    ]
}

/// The four bytes of `v`, lowest first on a machine that is `little`-endian, else highest first.
pub open spec fn in_order(v: u32, little: bool) -> Seq<u8> {
    if little {
        bytes_up(v)
    } else {
        bytes_up(v).reverse()
    }
}

/// The number that these four bytes are on a machine that is `little`-endian, or is not.
pub open spec fn number_in(bytes: Seq<u8>, little: bool) -> int {
    if little {
        bytes[0] + bytes[1] * 0x100 + bytes[2] * 0x1_0000 + bytes[3] * 0x100_0000
    } else {
        bytes[3] + bytes[2] * 0x100 + bytes[1] * 0x1_0000 + bytes[0] * 0x100_0000
    }
}

/// Calls `u32::to_ne_bytes`, which gives the bytes of a number in the machine's own order: lowest
/// first or highest first. Which of the two is left unsaid.
#[verifier::external_body]
fn native_bytes(v: u32) -> (r: [u8; 4])
    ensures
        r@ == in_order(v, true) || r@ == in_order(v, false),
{
    v.to_ne_bytes()
}

/// The byte order of a machine on which the number one is kept as `one`: whether its lowest byte
/// stands first.
pub fn order_of(one: [u8; 4]) -> (little: bool)
    requires
        one@ == in_order(1, true) || one@ == in_order(1, false),
    ensures
        one@ == in_order(1, little),
{
    one[0] == 1
}

/// `buf` with `bytes` in place of those from `offset` on.
pub open spec fn patched(buf: Seq<u8>, offset: int, bytes: Seq<u8>) -> Seq<u8> {
    buf.take(offset) + bytes + buf.skip(offset + bytes.len())
}

/// Writes `val` to the four bytes from `offset` on, in the given byte order.
pub fn write_u32_in(buf: &mut [u8], offset: usize, val: u32, little: bool)
    requires
        offset + 4 <= old(buf).len(),
    ensures
        final(buf)@ == patched(old(buf)@, offset as int, in_order(val, little)),
        final(buf)@.len() == old(buf)@.len(),
{
    let b0: u8 = (val % 0x100) as u8;
    let b1: u8 = (val / 0x100 % 0x100) as u8;
    let b2: u8 = (val / 0x1_0000 % 0x100) as u8;
    let b3: u8 = (val / 0x100_0000) as u8;
    if little {
        buf[offset] = b0;
        buf[offset + 1] = b1;
        buf[offset + 2] = b2;
        buf[offset + 3] = b3;
    } else {
        buf[offset] = b3;
        buf[offset + 1] = b2;
        buf[offset + 2] = b1;
        buf[offset + 3] = b0;
    }
    assert(buf@ =~= patched(old(buf)@, offset as int, in_order(val, little)));
}

/// Writes `val` to the four bytes from `offset` on, in the machine's byte order. Which of the two it
/// is, the machine says and nothing here.
pub fn write_u32(buf: &mut [u8], offset: usize, val: u32)
    requires
        offset + 4 <= old(buf).len(),
    ensures
        exists|little: bool|
            final(buf)@ == patched(old(buf)@, offset as int, #[trigger] in_order(val, little)),
        final(buf)@.len() == old(buf)@.len(),
{
    let little: bool = order_of(native_bytes(1));
    write_u32_in(buf, offset, val, little);
}

/// The `fmt` member of `v4l2_format` for `width` x `height` yuv420p frames, in the given byte
/// order: width, height, pixel format, field order, bytes per line and bytes per frame, one after
/// another, then zeros.
pub open spec fn format_in(width: u32, height: u32, little: bool) -> Seq<u8> {
    in_order(width, little) + in_order(height, little) + in_order(V4L2_PIX_FMT_YUV420, little)
        + in_order(V4L2_FIELD_NONE, little) + in_order(width, little) + in_order(
        (width * height * 3 / 2) as u32,
        little,
    ) + Seq::new((FMT_BYTES - 24) as nat, |i: int| 0u8)
}

/// The `fmt` member of `v4l2_format` for `width` x `height` yuv420p frames, in the given byte
/// order.
pub fn format_payload_in(width: u32, height: u32, little: bool) -> (r: Vec<u8>)
    requires
        width * height * 3 <= u32::MAX,
    ensures
        r@ == format_in(width, height, little),
        r@.len() == FMT_BYTES,
{
    let bytesperline: u32 = width;
    let sizeimage: u32 = width * height * 3 / 2;
    let mut fmt: Vec<u8> = Vec::new();
    let mut i: usize = 0;
    while i < FMT_BYTES
        invariant
            i <= FMT_BYTES,
            fmt@.len() == i,
            forall|k: int| 0 <= k < i ==> fmt@[k] == 0,
        decreases FMT_BYTES - i,
    {
        fmt.push(0);
        i += 1;
    }
    write_u32_in(fmt.as_mut_slice(), 0, width, little);
    write_u32_in(fmt.as_mut_slice(), 4, height, little);
    write_u32_in(fmt.as_mut_slice(), 8, fourcc(89, 85, 49, 50), little);
    write_u32_in(fmt.as_mut_slice(), 12, V4L2_FIELD_NONE, little);
    write_u32_in(fmt.as_mut_slice(), 16, bytesperline, little);
    write_u32_in(fmt.as_mut_slice(), 20, sizeimage, little);
    assert(fmt@ =~= format_in(width, height, little));
    fmt
}

/// The `fmt` member of `v4l2_format` for `width` x `height` yuv420p frames, all of it in the
/// machine's byte order. Which of the two it is, the machine says and nothing here.
pub fn format_payload(width: u32, height: u32) -> (r: Vec<u8>)
    requires
        width * height * 3 <= u32::MAX,
    ensures
        exists|little: bool| r@ == #[trigger] format_in(width, height, little),
        r@.len() == FMT_BYTES,
{
    let little: bool = order_of(native_bytes(1));
    format_payload_in(width, height, little)
}

/// A number that was written in one byte order is read back in the same.
pub proof fn a_number_in_memory_can_be_read_back(v: u32, little: bool)
    ensures
        number_in(in_order(v, little), little) == v,
{
}

/// How the attempts to set a device's format go on.
#[derive(Clone, Copy, PartialEq, Eq, Structural, Debug)]
pub enum FormatStep {
    /// Try `VIDIOC_S_FMT` with this buffer type.
    Try(u32),
    /// The device took this buffer type.
    Configured(u32),
    /// The device takes none.
    Failed,
}

impl FormatStep {
    /// The first attempt.
    pub fn first() -> (r: FormatStep)
        ensures
            r == FormatStep::Try(V4L2_BUF_TYPE_VIDEO_OUTPUT),
    {
        FormatStep::Try(V4L2_BUF_TYPE_VIDEO_OUTPUT)
    }

    pub open spec fn following(buf_type: u32, ret: i32) -> FormatStep {
        if ret == 0 {
            FormatStep::Configured(buf_type)
        } else if buf_type == V4L2_BUF_TYPE_VIDEO_OUTPUT {
            FormatStep::Try(V4L2_BUF_TYPE_VIDEO_CAPTURE)
        } else {
            FormatStep::Failed
        }
    }

    /// After the attempt with `buf_type` returned `ret`: zero means that it went well. A device
    /// that does not take the output type is tried with the capture type.
    pub fn after(buf_type: u32, ret: i32) -> (r: FormatStep)
        ensures
            r == FormatStep::following(buf_type, ret),
    {
        if ret == 0 {
            FormatStep::Configured(buf_type)
        } else if buf_type == V4L2_BUF_TYPE_VIDEO_OUTPUT {
            FormatStep::Try(V4L2_BUF_TYPE_VIDEO_CAPTURE)
        } else {
            FormatStep::Failed
        }
    }
}

/// The output type goes first, and the capture type is only tried where the output type failed. The
/// device counts as unusable only if both did.
pub proof fn the_output_type_goes_first(output_ret: i32, capture_ret: i32)
    ensures
        ({
            let first = FormatStep::following(V4L2_BUF_TYPE_VIDEO_OUTPUT, output_ret);
            let second = FormatStep::following(V4L2_BUF_TYPE_VIDEO_CAPTURE, capture_ret);
            &&& output_ret == 0 ==> first == FormatStep::Configured(V4L2_BUF_TYPE_VIDEO_OUTPUT)
            &&& output_ret != 0 ==> first == FormatStep::Try(V4L2_BUF_TYPE_VIDEO_CAPTURE)
            &&& second == FormatStep::Failed <==> capture_ret != 0
            &&& capture_ret == 0 ==> second == FormatStep::Configured(V4L2_BUF_TYPE_VIDEO_CAPTURE)
        }),
{
}

/// The six numbers of a format stand one after another and read back, in the byte order that they
/// were written in, as width, height, the code of yuv420p, no interlacing, the bytes of a luma row
/// and the bytes of a frame. Zeros fill the rest.
pub proof fn a_format_reads_back(width: u32, height: u32, little: bool)
    requires
        width * height * 3 <= u32::MAX,
    ensures
        ({
            let fmt = format_in(width, height, little);
            &&& fmt.len() == 200
            &&& number_in(fmt.subrange(0, 4), little) == width
            &&& number_in(fmt.subrange(4, 8), little) == height
            &&& number_in(fmt.subrange(8, 12), little) == 0x3231_5559
            &&& number_in(fmt.subrange(12, 16), little) == 1
            &&& number_in(fmt.subrange(16, 20), little) == width
            &&& number_in(fmt.subrange(20, 24), little) == width * height * 3 / 2
            &&& forall|i: int| 24 <= i < 200 ==> #[trigger] fmt[i] == 0
        }),
{
    let fmt = format_in(width, height, little);
    let size = (width * height * 3 / 2) as u32;
    a_number_in_memory_can_be_read_back(width, little);
    a_number_in_memory_can_be_read_back(height, little);
    a_number_in_memory_can_be_read_back(V4L2_PIX_FMT_YUV420, little);
    a_number_in_memory_can_be_read_back(V4L2_FIELD_NONE, little);
    a_number_in_memory_can_be_read_back(size, little);
    assert(fmt.subrange(0, 4) =~= in_order(width, little));
    assert(fmt.subrange(4, 8) =~= in_order(height, little));
    assert(fmt.subrange(8, 12) =~= in_order(V4L2_PIX_FMT_YUV420, little));
    assert(fmt.subrange(12, 16) =~= in_order(V4L2_FIELD_NONE, little));
    assert(fmt.subrange(16, 20) =~= in_order(width, little));
    assert(fmt.subrange(20, 24) =~= in_order(size, little));
}

/// A number that is written into a buffer can be read from where it was written, and every other
/// byte of the buffer stays.
pub proof fn a_written_number_disturbs_nothing_else(
    buf: Seq<u8>,
    offset: int,
    v: u32,
    little: bool,
)
    requires
        0 <= offset,
        offset + 4 <= buf.len(),
    ensures
        ({
            let after = patched(buf, offset, in_order(v, little));
            &&& after.len() == buf.len()
            &&& number_in(after.subrange(offset, offset + 4), little) == v
            &&& forall|i: int|
                0 <= i < buf.len() && !(offset <= i < offset + 4) ==> #[trigger] after[i] == buf[i]
        }),
{
    let after = patched(buf, offset, in_order(v, little));
    assert(after.subrange(offset, offset + 4) =~= in_order(v, little));
    a_number_in_memory_can_be_read_back(v, little);
}

/// The two byte orders are each other's reverse.
pub proof fn byte_orders_are_opposite(v: u32)
    ensures
        in_order(v, true).len() == 4,
        forall|i: int| 0 <= i < 4 ==> #[trigger] in_order(v, false)[i] == in_order(v, true)[3 - i],
        in_order(v, true)[0] as int == v as int % 0x100,
{
}

} // verus!
