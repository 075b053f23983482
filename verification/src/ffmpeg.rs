//! How FFmpeg is run: its filter chain and its arguments.
use vstd::prelude::*;
use vstd::string::*;

use crate::config::{Config, ConfigView};
use crate::text;
use crate::text::{dec_string, join, push_dec, strings};

verus! {

/// Width of the picture that other programs see.
pub const OUTPUT_W: u32 = 1920;

/// Height of the picture that other programs see.
pub const OUTPUT_H: u32 = 1080;

// ── Filter chain ─────────────────────────────────────────────────────────────
/// The filters that turn the picture by so many degrees. Other angles leave it as it is.
pub open spec fn rotation_steps(rotation: u32) -> Seq<Seq<char>> {
    if rotation == 90 {
        seq!["transpose=1"@]
    } else if rotation == 180 {
        seq!["hflip,vflip"@]
    } else if rotation == 270 {
        seq!["transpose=2"@]
    } else {
        seq![]
    }
}

/// Crops to the aspect ratio of `w` to `h`: full width, the middle of the height.
pub open spec fn crop_step(w: u32, h: u32) -> Seq<char> {
    "crop=iw:iw*"@ + text::dec(h as nat) + "/"@ + text::dec(w as nat) + ":0:(ih-iw*"@ + text::dec(
        h as nat,
    ) + "/"@ + text::dec(w as nat) + ")/2"@
}

/// Scales to `w` x `h`, from full-range input to limited-range output.
pub open spec fn scale_step(w: u32, h: u32) -> Seq<char> {
    "scale="@ + text::dec(w as nat) + ":"@ + text::dec(h as nat)
        + ":in_range=full:out_range=limited"@
}

/// The steps of a filter chain: `lead`, then turn, crop, scale, and declare square pixels.
pub open spec fn chain_steps(lead: Seq<Seq<char>>, rotation: u32, w: u32, h: u32) -> Seq<Seq<char>> {
    lead + rotation_steps(rotation) + seq![crop_step(w, h), scale_step(w, h), "setsar=1"@]
}

/// The text of a filter chain.
pub open spec fn chain(steps: Seq<Seq<char>>) -> Seq<char> {
    text::joined(steps, ","@)
}

/// Appends the filters that turn the picture.
pub fn push_rotation(steps: &mut Vec<String>, rotation: u32)
    ensures
        final(steps).deep_view() == old(steps).deep_view() + rotation_steps(rotation),
{
    let ghost before = steps.deep_view();
    if rotation == 90 {
        steps.push("transpose=1".to_string());
    } else if rotation == 180 {
        steps.push("hflip,vflip".to_string());
    } else if rotation == 270 {
        steps.push("transpose=2".to_string());
    }
    assert(steps.deep_view() =~= before + rotation_steps(rotation));
}

fn crop(w: u32, h: u32) -> (r: String)
    ensures
        r@ == crop_step(w, h),
{
    let mut out: String = "crop=iw:iw*".to_string();
    push_dec(&mut out, h as u64);
    out.append("/");
    push_dec(&mut out, w as u64);
    out.append(":0:(ih-iw*");
    push_dec(&mut out, h as u64);
    out.append("/");
    push_dec(&mut out, w as u64);
    out.append(")/2");
    out
}

fn scale(w: u32, h: u32) -> (r: String)
    ensures
        r@ == scale_step(w, h),
{
    let mut out: String = "scale=".to_string();
    push_dec(&mut out, w as u64);
    out.append(":");
    push_dec(&mut out, h as u64);
    out.append(":in_range=full:out_range=limited");
    out
}

/// The text of a filter chain that begins with `lead`.
pub fn filter_chain(lead: Vec<String>, rotation: u32, w: u32, h: u32) -> (r: String)
    ensures
        r@ == chain(chain_steps(lead.deep_view(), rotation, w, h)),
{
    let ghost first = lead.deep_view();
    let mut steps = lead;
    push_rotation(&mut steps, rotation);
    steps.push(crop(w, h));
    steps.push(scale(w, h));
    steps.push("setsar=1".to_string());
    assert(steps.deep_view() =~= chain_steps(first, rotation, w, h));
    join(&steps, ",")
}

/// The filter chain for a configuration: turn, crop to 16:9, scale to `OUTPUT_W` x `OUTPUT_H`,
/// declare square pixels.
pub fn build_vf_filter(cfg: &Config) -> (r: String)
    ensures
        r@ == chain(chain_steps(seq![], cfg.rotation, OUTPUT_W, OUTPUT_H)),
{
    let lead: Vec<String> = Vec::new();
    assert(lead.deep_view() =~= seq![]);
    filter_chain(lead, cfg.rotation, OUTPUT_W, OUTPUT_H)
}

// ── Arguments ────────────────────────────────────────────────────────────────
/// Where the phone's stream is.
pub open spec fn stream_url(host: Seq<char>, port: u16) -> Seq<char> {
    "tcp://"@ + host + ":"@ + text::dec(port as nat)
}

/// The address of the phone's stream.
pub fn tcp_url(host: &str, port: u16) -> (r: String)
    ensures
        r@ == stream_url(host@, port),
{
    let mut out: String = "tcp://".to_string();
    out.append(host);
    out.append(":");
    push_dec(&mut out, port as u64);
    out
}

/// FFmpeg's arguments: read multipart JPEG from `url` with little delay and a queue of so many
/// packets, filter it by `vf`, and write raw yuv420p frames at `fps` to the standard output.
pub open spec fn arguments(queue: Seq<char>, url: Seq<char>, vf: Seq<char>, fps: u32) -> Seq<
    Seq<char>,
> {
    seq![
        "-hide_banner"@,
        "-fflags"@,
        "nobuffer"@,
        "-flags"@,
        "low_delay"@,
        "-probesize"@,
        "32"@,
        "-analyzeduration"@,
        "0"@,
        "-thread_queue_size"@,
        queue,
        "-f"@,
        "mpjpeg"@,
        "-i"@,
        url,
        "-vf"@,
        vf,
        "-f"@,
        "rawvideo"@,
        "-pix_fmt"@,
        "yuv420p"@,
        "-r"@,
        text::dec(fps as nat),
        "pipe:1"@,
    ]
}

/// FFmpeg's arguments, with a queue of so many packets.
pub fn ffmpeg_args(queue: &str, url: &str, vf: &str, fps: u32) -> (r: Vec<String>)
    ensures
        r.deep_view() == arguments(queue@, url@, vf@, fps),
{
    let rate = dec_string(fps as u64);
    let parts = [
        "-hide_banner",
        "-fflags",
        "nobuffer",
        "-flags",
        "low_delay",
        "-probesize",
        "32",
        "-analyzeduration",
        "0",
        "-thread_queue_size",
        queue,
        "-f",
        "mpjpeg",
        "-i",
        url,
        "-vf",
        vf,
        "-f",
        "rawvideo",
        "-pix_fmt",
        "yuv420p",
        "-r",
        rate.as_str(),
        "pipe:1",
    ];
    let r = strings(&parts);
    assert(r.deep_view() =~= arguments(queue@, url@, vf@, fps));
    r
}

/// An FFmpeg to be run, and what becomes of the frames that it writes.
#[derive(PartialEq, Debug)]
pub struct FfmpegPlan {
    pub args: Vec<String>,
    /// The device that the frames go to.
    pub device: String,
    /// Size of the frames.
    pub out_w: u32,
    pub out_h: u32,
    /// Frames per second that FFmpeg writes.
    pub fps: u32,
    /// Frames per second that the preview is to show.
    pub preview_fps: u32,
}

pub struct FfmpegPlanView {
    pub args: Seq<Seq<char>>,
    pub device: Seq<char>,
    pub out_w: u32,
    pub out_h: u32,
    pub fps: u32,
    pub preview_fps: u32,
}

impl View for FfmpegPlan {
    type V = FfmpegPlanView;

    open spec fn view(&self) -> FfmpegPlanView {
        FfmpegPlanView {
            args: self.args.deep_view(),
            device: self.device@,
            out_w: self.out_w,
            out_h: self.out_h,
            fps: self.fps,
            preview_fps: self.preview_fps,
        }
    }
}

/// How FFmpeg is run on the stream at `host` and `port`.
pub open spec fn plan_for(cfg: ConfigView, host: Seq<char>, port: u16) -> FfmpegPlanView {
    FfmpegPlanView {
        args: arguments(
            "512"@,
            stream_url(host, port),
            chain(chain_steps(seq![], cfg.rotation, OUTPUT_W, OUTPUT_H)),
            cfg.fps,
        ),
        device: cfg.v4l2_device,
        out_w: OUTPUT_W,
        out_h: OUTPUT_H,
        fps: cfg.fps,
        preview_fps: cfg.preview_fps,
    }
}

/// How FFmpeg is run on the stream at `tcp_host` and `tcp_port`: `localhost` and the forwarded port
/// over USB, the phone's address over WiFi.
pub fn plan_ffmpeg(cfg: &Config, tcp_host: &str, tcp_port: u16) -> (r: FfmpegPlan)
    ensures
        r@ == plan_for(cfg@, tcp_host@, tcp_port),
{
    let vf = build_vf_filter(cfg);
    let url = tcp_url(tcp_host, tcp_port);
    FfmpegPlan {
        args: ffmpeg_args("512", url.as_str(), vf.as_str(), cfg.fps),
        device: cfg.v4l2_device.clone(),
        out_w: OUTPUT_W,
        out_h: OUTPUT_H,
        fps: cfg.fps,
        preview_fps: cfg.preview_fps,
    }
}

/// Arguments that make `kill` end the process `pid`.
pub fn kill_pid(pid: u32) -> (r: Vec<String>)
    ensures
        r.deep_view() == seq![text::dec(pid as nat)],
{
    let mut args: Vec<String> = Vec::new();
    args.push(dec_string(pid as u64));
    assert(args.deep_view() =~= seq![text::dec(pid as nat)]);
    args
}

/// Zoom concerns the window alone: FFmpeg is run the same way whatever it is.
pub proof fn zoom_never_reaches_the_stream(
    cfg: ConfigView,
    zoom_bits: u32,
    host: Seq<char>,
    port: u16,
)
    ensures
        plan_for(ConfigView { zoom_bits, ..cfg }, host, port) == plan_for(cfg, host, port),
{
}

proof fn lemma_full_hd()
    ensures
        text::dec(1920) == "1920"@,
        text::dec(1080) == "1080"@,
{
    reveal_with_fuel(text::dec, 5);
    reveal_strlit("1920");
    reveal_strlit("1080");
    assert(text::dec(1920) =~= "1920"@);
    assert(text::dec(1080) =~= "1080"@);
}

proof fn lemma_full_hd_crop()
    ensures
        crop_step(OUTPUT_W, OUTPUT_H) == "crop=iw:iw*1080/1920:0:(ih-iw*1080/1920)/2"@,
{
    lemma_full_hd();
    reveal_strlit("crop=iw:iw*");
    reveal_strlit("1920");
    reveal_strlit("1080");
    reveal_strlit("/");
    reveal_strlit(":0:(ih-iw*");
    reveal_strlit(")/2");
    reveal_strlit("crop=iw:iw*1080/1920:0:(ih-iw*1080/1920)/2");
    assert(crop_step(OUTPUT_W, OUTPUT_H) =~= "crop=iw:iw*1080/1920:0:(ih-iw*1080/1920)/2"@);
}

proof fn lemma_full_hd_scale()
    ensures
        scale_step(OUTPUT_W, OUTPUT_H) == "scale=1920:1080:in_range=full:out_range=limited"@,
{
    lemma_full_hd();
    reveal_strlit("scale=");
    reveal_strlit("1920");
    reveal_strlit("1080");
    reveal_strlit(":");
    reveal_strlit(":in_range=full:out_range=limited");
    reveal_strlit("scale=1920:1080:in_range=full:out_range=limited");
    assert(scale_step(OUTPUT_W, OUTPUT_H)
        =~= "scale=1920:1080:in_range=full:out_range=limited"@);
}

/// What turns the picture, at the head of a filter chain: a quarter clockwise, a half, a quarter
/// counterclockwise, or nothing for any other angle.
pub open spec fn turn_text(rotation: u32) -> Seq<char> {
    if rotation == 90 {
        "transpose=1"@ + ","@
    } else if rotation == 180 {
        "hflip,vflip"@ + ","@
    } else if rotation == 270 {
        "transpose=2"@ + ","@
    } else {
        Seq::empty()
    }
}

/// A filter chain holds the steps that lead it, then the turn, then crop, scale and the square
/// pixels, with a comma between neighbours.
pub proof fn a_chain_leads_turns_crops_and_scales(
    lead: Seq<Seq<char>>,
    rotation: u32,
    w: u32,
    h: u32,
)
    requires
        lead.len() <= 2,
    ensures
        chain(chain_steps(lead, rotation, w, h)) == (if lead.len() == 0 {
            Seq::empty()
        } else if lead.len() == 1 {
            lead[0] + ","@
        } else {
            lead[0] + ","@ + lead[1] + ","@
        }) + turn_text(rotation) + crop_step(w, h) + ","@ + scale_step(w, h) + ","@ + "setsar=1"@,
{
    reveal_with_fuel(text::joined, 7);
    let steps = chain_steps(lead, rotation, w, h);
    let n = steps.len() as int;
    let s1 = steps.drop_last();
    let s2 = s1.drop_last();
    let s3 = s2.drop_last();
    assert(s3 =~= lead + rotation_steps(rotation));
    assert(steps.last() == "setsar=1"@);
    assert(s1.last() == scale_step(w, h));
    assert(s2.last() == crop_step(w, h));
    let turned = text::joined(s3, ","@) + if s3.len() > 0 {
        ","@
    } else {
        Seq::empty()
    };
    assert(turned =~= (if lead.len() == 0 {
        Seq::empty()
    } else if lead.len() == 1 {
        lead[0] + ","@
    } else {
        lead[0] + ","@ + lead[1] + ","@
    }) + turn_text(rotation)) by {
        lemma_short_join(lead, rotation_steps(rotation));
    }
    assert(chain(steps) =~= turned + crop_step(w, h) + ","@ + scale_step(w, h) + ","@
        + "setsar=1"@);
}

proof fn lemma_short_join(lead: Seq<Seq<char>>, turn: Seq<Seq<char>>)
    requires
        lead.len() <= 2,
        turn.len() <= 1,
    ensures
        ({
            let all = lead + turn;
            text::joined(all, ","@) + (if all.len() > 0 {
                ","@
            } else {
                Seq::empty()
            }) == (if lead.len() == 0 {
                Seq::empty()
            } else if lead.len() == 1 {
                lead[0] + ","@
            } else {
                lead[0] + ","@ + lead[1] + ","@
            }) + (if turn.len() == 1 {
                turn[0] + ","@
            } else {
                Seq::empty()
            })
        }),
{
    let all = lead + turn;
    let empty = Seq::<Seq<char>>::empty();
    text::joining_adds_one_part_after_another(empty, Seq::empty(), ","@);
    if lead.len() > 0 {
        text::joining_adds_one_part_after_another(empty, lead[0], ","@);
        if lead.len() == 2 {
            text::joining_adds_one_part_after_another(seq![lead[0]], lead[1], ","@);
            assert(seq![lead[0]].push(lead[1]) =~= lead);
        } else {
            assert(seq![lead[0]] =~= lead);
        }
    }
    if turn.len() == 1 {
        text::joining_adds_one_part_after_another(lead, turn[0], ","@);
        assert(lead.push(turn[0]) =~= all);
        assert(lead.len() == 0 ==> seq![turn[0]] =~= all);
    } else {
        assert(all =~= lead);
    }
    assert(text::joined(all, ","@) + (if all.len() > 0 {
        ","@
    } else {
        Seq::empty()
    }) =~= (if lead.len() == 0 {
        Seq::empty()
    } else if lead.len() == 1 {
        lead[0] + ","@
    } else {
        lead[0] + ","@ + lead[1] + ","@
    }) + (if turn.len() == 1 {
        turn[0] + ","@
    } else {
        Seq::empty()
    }));
}

/// Whatever the angle, the picture is turned by it, cropped to 16:9 around its middle, scaled to
/// full HD from full to limited range, and declared to have square pixels, in this order.
pub proof fn the_stream_is_full_hd(rotation: u32)
    ensures
        chain(chain_steps(seq![], rotation, OUTPUT_W, OUTPUT_H)) == turn_text(rotation)
            + "crop=iw:iw*1080/1920:0:(ih-iw*1080/1920)/2"@ + ","@
            + "scale=1920:1080:in_range=full:out_range=limited"@ + ","@ + "setsar=1"@,
{
    lemma_full_hd_crop();
    lemma_full_hd_scale();
    a_chain_leads_turns_crops_and_scales(seq![], rotation, OUTPUT_W, OUTPUT_H);
    assert(Seq::<char>::empty() + turn_text(rotation) =~= turn_text(rotation));
}

/// For every configuration FFmpeg is told where the stream is, which filters to apply and how many
/// frames per second to write, each behind its own option, and the frames go where, in the size and
/// at the rates that were chosen. The numbers read back as they were given.
pub proof fn ffmpeg_is_told_what_was_chosen(cfg: ConfigView, host: Seq<char>, port: u16)
    ensures
        ({
            let plan = plan_for(cfg, host, port);
            let args = plan.args;
            &&& args.len() == 24
            &&& args[0] == "-hide_banner"@
            &&& args[1] == "-fflags"@ && args[2] == "nobuffer"@
            &&& args[3] == "-flags"@ && args[4] == "low_delay"@
            &&& args[5] == "-probesize"@ && args[6] == "32"@
            &&& args[7] == "-analyzeduration"@ && args[8] == "0"@
            &&& args[9] == "-thread_queue_size"@ && args[10] == "512"@
            &&& args[11] == "-f"@ && args[12] == "mpjpeg"@
            &&& args[13] == "-i"@ && args[14] == "tcp://"@ + host + ":"@ + text::dec(port as nat)
            &&& text::numeral_value(text::dec(port as nat)) == port
            &&& args[15] == "-vf"@ && args[16] == turn_text(cfg.rotation)
                + "crop=iw:iw*1080/1920:0:(ih-iw*1080/1920)/2"@ + ","@
                + "scale=1920:1080:in_range=full:out_range=limited"@ + ","@ + "setsar=1"@
            &&& args[17] == "-f"@ && args[18] == "rawvideo"@
            &&& args[19] == "-pix_fmt"@ && args[20] == "yuv420p"@
            &&& args[21] == "-r"@ && text::numeral_value(args[22]) == cfg.fps && args[22]
                == text::dec(cfg.fps as nat)
            &&& args[23] == "pipe:1"@
            &&& plan.device == cfg.v4l2_device
            &&& plan.out_w == 1920 && plan.out_h == 1080
            &&& plan.fps == cfg.fps && plan.preview_fps == cfg.preview_fps
        }),
{
    the_stream_is_full_hd(cfg.rotation);
    text::a_numeral_reads_back(port as nat);
    text::a_numeral_reads_back(cfg.fps as nat);
}

/// Configurations with different frame rates make FFmpeg write at different rates.
pub proof fn frame_rates_are_told_apart(a: ConfigView, b: ConfigView, host: Seq<char>, port: u16)
    requires
        a.fps != b.fps,
    ensures
        plan_for(a, host, port).args != plan_for(b, host, port).args,
{
    ffmpeg_is_told_what_was_chosen(a, host, port);
    ffmpeg_is_told_what_was_chosen(b, host, port);
}

/// The view of a plan holds everything in it as it is.
pub proof fn a_view_keeps_the_plan(plan: FfmpegPlan)
    ensures
        plan@.args.len() == plan.args@.len(),
        forall|i: int|
            0 <= i < plan.args@.len() ==> #[trigger] plan@.args[i] == plan.args@[i]@,
        plan@.device == plan.device@,
        plan@.out_w == plan.out_w,
        plan@.out_h == plan.out_h,
        plan@.fps == plan.fps,
        plan@.preview_fps == plan.preview_fps,
{
}

} // verus!
