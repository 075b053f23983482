//! How FFmpeg is run by the tethered program, and its preview.
use vstd::prelude::*;
use vstd::string::*;

use crate::ffmpeg as common;
use crate::pixel_fmt;
use crate::pixel_fmt::LumaRange;
use crate::tether::config::{Config, ConfigView};
use crate::text;
use crate::text::{dec_string, join, push_dec, strings};

verus! {

/// Width of the preview shown in the window.
pub const PREVIEW_W: u32 = 320;

/// Height of the preview shown in the window.
pub const PREVIEW_H: u32 = 180;

/// Bytes of one RGB24 preview frame.
pub const PREVIEW_FRAME_BYTES: usize = 172800;

/// Crops to the middle of the picture, each side shorter by the factor `z`.
pub open spec fn zoom_step(z: Seq<char>) -> Seq<char> {
    "crop=iw/"@ + z + ":ih/"@ + z + ":(iw-iw/"@ + z + ")/2:(ih-ih/"@ + z + ")/2"@
}

/// Scales to `w` x `h`.
pub open spec fn scale_step(w: u32, h: u32) -> Seq<char> {
    "scale="@ + text::dec(w as nat) + ":"@ + text::dec(h as nat)
}

/// The steps of the filter chain: zoom, turn, scale.
pub open spec fn chain_steps(cfg: ConfigView) -> Seq<Seq<char>> {
    (if cfg.zoom.zooms() {
        seq![zoom_step(cfg.zoom.text)]
    } else {
        seq![]
    }) + common::rotation_steps(cfg.rotation) + seq![scale_step(cfg.dims().0, cfg.dims().1)]
}

fn zoom_crop(z: &str) -> (r: String)
    ensures
        r@ == zoom_step(z@),
{
    let mut out: String = "crop=iw/".to_string();
    out.append(z);
    out.append(":ih/");
    out.append(z);
    out.append(":(iw-iw/");
    out.append(z);
    out.append(")/2:(ih-ih/");
    out.append(z);
    out.append(")/2");
    out
}

/// The filter chain for a configuration: zoom to the middle, turn, scale to the chosen size.
pub fn build_vf_filter(cfg: &Config) -> (r: String)
    ensures
        r@ == common::chain(chain_steps(cfg@)),
{
    let (out_w, out_h): (u32, u32) = cfg.resolution_dims();
    let mut steps: Vec<String> = Vec::new();
    if cfg.zoom.zooms() {
        steps.push(zoom_crop(cfg.zoom.text.as_str()));
    }
    let ghost first = steps.deep_view();
    assert(first =~= if cfg@.zoom.zooms() {
        seq![zoom_step(cfg@.zoom.text)]
    } else {
        seq![]
    });
    common::push_rotation(&mut steps, cfg.rotation);
    let mut scale: String = "scale=".to_string();
    push_dec(&mut scale, out_w as u64);
    scale.append(":");
    push_dec(&mut scale, out_h as u64);
    steps.push(scale);
    assert(steps.deep_view() =~= chain_steps(cfg@));
    join(&steps, ",")
}

/// FFmpeg's arguments: read multipart JPEG from the forwarded port with little delay, filter it by
/// `vf`, and write raw yuv420p frames at `fps` to the standard output.
pub open spec fn arguments(port: u16, vf: Seq<char>, fps: u32) -> Seq<Seq<char>> {
    seq![
        "-hide_banner"@,
        "-fflags"@,
        "nobuffer"@,
        "-flags"@,
        "low_delay"@,
        "-f"@,
        "mpjpeg"@,
        "-i"@,
        common::stream_url("localhost"@, port),
        "-vf"@,
        vf,
        "-f"@,
        "rawvideo"@,
        "-pix_fmt"@,
        "yuv420p"@,
        "-r"@,
        text::dec(fps as nat),
        "pipe:1"@,
    ]
}

/// How FFmpeg is run. Every frame is previewed.
pub open spec fn plan_for(cfg: ConfigView) -> common::FfmpegPlanView {
    common::FfmpegPlanView {
        args: arguments(cfg.adb_port, common::chain(chain_steps(cfg)), cfg.fps),
        device: cfg.v4l2_device,
        out_w: cfg.dims().0,
        out_h: cfg.dims().1,
        fps: cfg.fps,
        preview_fps: cfg.fps,
    }
}

/// How FFmpeg is run.
pub fn plan_ffmpeg(cfg: &Config) -> (r: common::FfmpegPlan)
    ensures
        r@ == plan_for(cfg@),
{
    let vf = build_vf_filter(cfg);
    let url = common::tcp_url("localhost", cfg.adb_port);
    let rate = dec_string(cfg.fps as u64);
    let (out_w, out_h): (u32, u32) = cfg.resolution_dims();
    let parts = [
        "-hide_banner",
        "-fflags",
        "nobuffer",
        "-flags",
        "low_delay",
        "-f",
        "mpjpeg",
        "-i",
        url.as_str(),
        "-vf",
        vf.as_str(),
        "-f",
        "rawvideo",
        "-pix_fmt",
        "yuv420p",
        "-r",
        rate.as_str(),
        "pipe:1",
    ];
    let args = strings(&parts);
    assert(args.deep_view() =~= arguments(cfg.adb_port, vf@, cfg.fps));
    common::FfmpegPlan {
        args,
        device: cfg.v4l2_device.clone(),
        out_w,
        out_h,
        fps: cfg.fps,
        preview_fps: cfg.fps,
    }
}

/// The window's preview of a full-range yuv420p frame: `PREVIEW_W` x `PREVIEW_H` RGB24 pixels.
pub fn yuv420p_to_preview_rgb(yuv: &[u8], src_w: u32, src_h: u32) -> (r: Vec<u8>)
    requires
        pixel_fmt::preview_fits(
            yuv@.len(),
            src_w as nat,
            src_h as nat,
            PREVIEW_W as nat,
            PREVIEW_H as nat,
        ),
    ensures
        r@ == pixel_fmt::preview_of(
            yuv@,
            src_w as nat,
            src_h as nat,
            PREVIEW_W as nat,
            PREVIEW_H as nat,
            LumaRange::Full,
        ),
        r@.len() == PREVIEW_FRAME_BYTES,
{
    pixel_fmt::preview_rgb(yuv, src_w, src_h, PREVIEW_W, PREVIEW_H, LumaRange::Full)
}

/// Whatever size is chosen, a complete frame of it has a preview.
pub proof fn every_size_has_a_preview(cfg: ConfigView, len: nat)
    requires
        len >= cfg.dims().0 as nat * cfg.dims().1 as nat * 3 / 2,
    ensures
        pixel_fmt::preview_fits(
            len,
            cfg.dims().0 as nat,
            cfg.dims().1 as nat,
            PREVIEW_W as nat,
            PREVIEW_H as nat,
        ),
{
    pixel_fmt::whole_frames_have_a_preview(
        len,
        cfg.dims().0 as nat,
        cfg.dims().1 as nat,
        PREVIEW_W as nat,
        PREVIEW_H as nat,
    );
}

/// The size of the picture in a filter chain.
pub open spec fn size_text(resolution: Seq<char>) -> Seq<char> {
    if resolution == "1080p"@ {
        "1920:1080"@
    } else if resolution == "480p"@ {
        "854:480"@
    } else {
        "1280:720"@
    }
}

proof fn lemma_sizes(cfg: ConfigView)
    ensures
        scale_step(cfg.dims().0, cfg.dims().1) == "scale="@ + size_text(cfg.resolution),
{
    reveal_with_fuel(text::dec, 5);
    reveal_strlit("1080p");
    reveal_strlit("480p");
    reveal_strlit("scale=");
    reveal_strlit(":");
    reveal_strlit("1920:1080");
    reveal_strlit("854:480");
    reveal_strlit("1280:720");
    assert(text::dec(1920) =~= seq!['1', '9', '2', '0']);
    assert(text::dec(1080) =~= seq!['1', '0', '8', '0']);
    assert(text::dec(854) =~= seq!['8', '5', '4']);
    assert(text::dec(480) =~= seq!['4', '8', '0']);
    assert(text::dec(1280) =~= seq!['1', '2', '8', '0']);
    assert(text::dec(720) =~= seq!['7', '2', '0']);
    assert(scale_step(cfg.dims().0, cfg.dims().1) =~= "scale="@ + size_text(cfg.resolution));
}

/// For every configuration the picture is cropped to its middle by the zoom, if there is one, turned
/// by the angle, and scaled to the chosen size, in this order.
pub proof fn the_picture_is_zoomed_turned_and_scaled(cfg: ConfigView)
    ensures
        common::chain(chain_steps(cfg)) == (if 0x3f80_20c5 < cfg.zoom.bits <= 0x7f80_0000 {
            "crop=iw/"@ + cfg.zoom.text + ":ih/"@ + cfg.zoom.text + ":(iw-iw/"@ + cfg.zoom.text
                + ")/2:(ih-ih/"@ + cfg.zoom.text + ")/2"@ + ","@
        } else {
            Seq::empty()
        }) + common::turn_text(cfg.rotation) + "scale="@ + size_text(cfg.resolution),
{
    lemma_sizes(cfg);
    let zoom = if cfg.zoom.zooms() {
        seq![zoom_step(cfg.zoom.text)]
    } else {
        seq![]
    };
    let turn = common::rotation_steps(cfg.rotation);
    let last = scale_step(cfg.dims().0, cfg.dims().1);
    let before = zoom + turn;
    assert(chain_steps(cfg) =~= before.push(last));
    let empty = Seq::<Seq<char>>::empty();
    text::joining_adds_one_part_after_another(before, last, ","@);
    text::joining_adds_one_part_after_another(empty, last, ","@);
    if zoom.len() > 0 {
        text::joining_adds_one_part_after_another(empty, zoom[0], ","@);
        assert(seq![zoom[0]] =~= zoom);
        if turn.len() > 0 {
            text::joining_adds_one_part_after_another(zoom, turn[0], ","@);
            assert(zoom.push(turn[0]) =~= before);
        } else {
            assert(before =~= zoom);
        }
    } else if turn.len() > 0 {
        text::joining_adds_one_part_after_another(empty, turn[0], ","@);
        assert(seq![turn[0]] =~= before);
    } else {
        assert(seq![last] =~= before.push(last));
    }
    assert(common::chain(chain_steps(cfg)) =~= (if cfg.zoom.zooms() {
        zoom_step(cfg.zoom.text) + ","@
    } else {
        Seq::empty()
    }) + common::turn_text(cfg.rotation) + "scale="@ + size_text(cfg.resolution));
}

/// For every configuration FFmpeg is told to read the forwarded port, which filters to apply and how
/// many frames per second to write, each behind its own option; the frames go to the chosen device
/// in the chosen size, and all of them are previewed. The numbers read back as they were given.
pub proof fn ffmpeg_is_told_what_was_chosen(cfg: ConfigView)
    ensures
        ({
            let plan = plan_for(cfg);
            let args = plan.args;
            &&& args.len() == 18
            &&& args[0] == "-hide_banner"@
            &&& args[1] == "-fflags"@ && args[2] == "nobuffer"@
            &&& args[3] == "-flags"@ && args[4] == "low_delay"@
            &&& args[5] == "-f"@ && args[6] == "mpjpeg"@
            &&& args[7] == "-i"@ && args[8] == "tcp://"@ + "localhost"@ + ":"@ + text::dec(
                cfg.adb_port as nat,
            )
            &&& text::numeral_value(text::dec(cfg.adb_port as nat)) == cfg.adb_port
            &&& args[9] == "-vf"@ && args[10] == common::chain(chain_steps(cfg))
            &&& args[11] == "-f"@ && args[12] == "rawvideo"@
            &&& args[13] == "-pix_fmt"@ && args[14] == "yuv420p"@
            &&& args[15] == "-r"@ && text::numeral_value(args[16]) == cfg.fps && args[16]
                == text::dec(cfg.fps as nat)
            &&& args[17] == "pipe:1"@
            &&& plan.device == cfg.v4l2_device
            &&& (plan.out_w, plan.out_h) == if cfg.resolution == "1080p"@ {
                (1920u32, 1080u32)
            } else if cfg.resolution == "480p"@ {
                (854u32, 480u32)
            } else {
                (1280u32, 720u32)
            }
            &&& plan.fps == cfg.fps
            &&& plan.preview_fps >= plan.fps
        }),
{
    text::a_numeral_reads_back(cfg.adb_port as nat);
    text::a_numeral_reads_back(cfg.fps as nat);
}

} // verus!
