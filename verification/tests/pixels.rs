//! Pixel formats.
use campc::pixel_fmt::{
    has_preview, preview_rgb, yuv420p_to_nv12, yuv420p_to_preview_rgb, LumaRange, PREVIEW_FRAME_BYTES,
    PREVIEW_H, PREVIEW_W,
};

/// A `w` x `h` frame of one colour.
fn plain_frame(w: usize, h: usize, y: u8, u: u8, v: u8) -> Vec<u8> {
    let mut frame = vec![y; w * h];
    frame.extend(vec![u; w * h / 4]);
    frame.extend(vec![v; w * h / 4]);
    frame
}

#[test]
fn nv12_interleaves_the_chroma_planes() {
    let yuv: Vec<u8> = vec![
        1, 2, 3, 4, 5, 6, 7, 8, // luma, 4 x 2
        20, 21, // U
        30, 31, // V
    ];
    assert_eq!(
        yuv420p_to_nv12(&yuv, 4, 2),
        vec![1, 2, 3, 4, 5, 6, 7, 8, 20, 30, 21, 31]
    );
}

#[test]
fn a_frame_of_no_pixels_has_no_bytes() {
    assert_eq!(yuv420p_to_nv12(&[], 0, 0), Vec::<u8>::new());
}

#[test]
fn odd_sizes_leave_the_last_chroma_byte_black() {
    // Three by two: six bytes of luma, three of chroma, of which one pair can be filled.
    let yuv: Vec<u8> = vec![1, 2, 3, 4, 5, 6, 20, 30];
    assert_eq!(yuv420p_to_nv12(&yuv, 3, 2), vec![1, 2, 3, 4, 5, 6, 20, 30, 0]);
}

#[test]
fn black_grey_and_white_in_both_ranges() {
    let pixel = |y: u8, range: LumaRange| preview_rgb(&plain_frame(2, 2, y, 128, 128), 2, 2, 1, 1, range);
    assert_eq!(pixel(0, LumaRange::Full), vec![0, 0, 0]);
    assert_eq!(pixel(100, LumaRange::Full), vec![100, 100, 100]);
    assert_eq!(pixel(255, LumaRange::Full), vec![255, 255, 255]);
    assert_eq!(pixel(0, LumaRange::Limited), vec![0, 0, 0]);
    assert_eq!(pixel(16, LumaRange::Limited), vec![0, 0, 0]);
    // (126 - 16) * 255 / 219
    assert_eq!(pixel(126, LumaRange::Limited), vec![128, 128, 128]);
    assert_eq!(pixel(235, LumaRange::Limited), vec![255, 255, 255]);
    assert_eq!(pixel(255, LumaRange::Limited), vec![255, 255, 255]);
}

#[test]
fn colours_follow_the_matrix() {
    let pixel = |y: u8, u: u8, v: u8| {
        preview_rgb(&plain_frame(2, 2, y, u, v), 2, 2, 1, 1, LumaRange::Full)
    };
    // Red chroma: 1402 * 72 / 1000 = 100, 714 * 72 / 1000 = 51.
    assert_eq!(pixel(100, 128, 200), vec![200, 49, 100]);
    // Blue chroma: 344 * 72 / 1000 = 24, 1772 * 72 / 1000 = 127.
    assert_eq!(pixel(100, 200, 128), vec![100, 76, 227]);
    // Quotients round toward zero: 1402 * -1 / 1000 = -1, 714 * -1 / 1000 = 0.
    assert_eq!(pixel(100, 128, 127), vec![99, 100, 100]);
    assert_eq!(pixel(100, 127, 128), vec![100, 100, 99]);
    // Beyond the range of a byte.
    assert_eq!(pixel(250, 255, 255), vec![255, 117, 255]);
    assert_eq!(pixel(5, 0, 0), vec![0, 140, 0]);
}

#[test]
fn the_preview_samples_from_the_top_left() {
    // Four by four, shown as two by two: every second pixel of every second row.
    let mut yuv: Vec<u8> = (0..16).collect();
    yuv.extend([128u8; 8]);
    let rgb = preview_rgb(&yuv, 4, 4, 2, 2, LumaRange::Full);
    let greys: Vec<u8> = rgb.chunks(3).map(|p| p[0]).collect();
    assert_eq!(greys, vec![0, 2, 8, 10]);
}

#[test]
fn a_stride_is_at_least_one() {
    // Two by two, shown as one by two: strides of two and one.
    let mut yuv: Vec<u8> = vec![10, 20, 30, 40];
    yuv.extend([128u8; 2]);
    let rgb = preview_rgb(&yuv, 2, 2, 1, 2, LumaRange::Full);
    let greys: Vec<u8> = rgb.chunks(3).map(|p| p[0]).collect();
    assert_eq!(greys, vec![10, 30]);
}

#[test]
fn whole_frames_give_a_window_preview() {
    let mut frame = plain_frame(1920, 1080, 126, 128, 128);
    // The pixel shown at (2, 1) lies at (6, 3) of the source.
    frame[3 * 1920 + 6] = 235;
    let rgb = yuv420p_to_preview_rgb(&frame, 1920, 1080);
    assert_eq!(rgb.len(), PREVIEW_FRAME_BYTES);
    assert_eq!((PREVIEW_W * PREVIEW_H * 3) as usize, PREVIEW_FRAME_BYTES);
    let at = ((PREVIEW_W + 2) * 3) as usize;
    assert_eq!(&rgb[at..at + 3], &[255, 255, 255]);
    assert_eq!(&rgb[at + 3..at + 6], &[128, 128, 128]);
}

#[test]
fn which_frames_have_a_preview() {
    let whole = |w: u32, h: u32| (w * h * 3 / 2) as usize;
    assert!(has_preview(whole(1920, 1080), 1920, 1080, PREVIEW_W, PREVIEW_H));
    // Odd sides do no harm.
    assert!(has_preview(whole(641, 361), 641, 361, PREVIEW_W, PREVIEW_H));
    assert_eq!(
        yuv420p_to_preview_rgb(&vec![128u8; whole(641, 361)], 641, 361).len(),
        PREVIEW_FRAME_BYTES
    );
    assert!(!has_preview(whole(638, 360), 638, 360, PREVIEW_W, PREVIEW_H));
    assert!(!has_preview(whole(640, 360) - 1, 640, 360, PREVIEW_W, PREVIEW_H));
    assert!(!has_preview(0, 0, 0, PREVIEW_W, PREVIEW_H));
    assert!(!has_preview(usize::MAX, u32::MAX, u32::MAX, 1, 1));
}
