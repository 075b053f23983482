//! How FFmpeg is run on Windows.
use vstd::prelude::*;
use vstd::string::*;

use crate::config::{Config, ConfigView};
use crate::ffmpeg as common;
use crate::text;
use crate::text::dec_string;

verus! {

/// Width of the picture that other programs see. Less than full HD, for low delay.
pub const OUTPUT_W: u32 = 1280;

/// Height of the picture that other programs see.
pub const OUTPUT_H: u32 = 720;

/// The filter chain for a configuration: declare full range, turn, crop to 16:9, scale to
/// `OUTPUT_W` x `OUTPUT_H`, declare square pixels.
pub fn build_vf_filter(cfg: &Config) -> (r: String)
    ensures
        r@ == common::chain(
            common::chain_steps(seq!["setrange=full"@], cfg.rotation, OUTPUT_W, OUTPUT_H),
        ),
{
    let mut lead: Vec<String> = Vec::new();
    lead.push("setrange=full".to_string());
    assert(lead.deep_view() =~= seq!["setrange=full"@]);
    common::filter_chain(lead, cfg.rotation, OUTPUT_W, OUTPUT_H)
}

/// FFmpeg's arguments. A short queue is enough to absorb the jitter of the network.
pub fn build_ffmpeg_args(cfg: &Config, tcp_url: &str, vf: &str) -> (r: Vec<String>)
    ensures
        r.deep_view() == common::arguments("64"@, tcp_url@, vf@, cfg.fps),
{
    common::ffmpeg_args("64", tcp_url, vf, cfg.fps)
}

/// An FFmpeg to be run, and the frames that it writes.
#[derive(PartialEq, Debug)]
pub struct FfmpegPlan {
    pub args: Vec<String>,
    /// Size of the frames.
    pub out_w: u32,
    pub out_h: u32,
    /// Frames per second that FFmpeg writes.
    pub fps: u32,
    /// Frames per second that the preview is to show.
    pub preview_fps: u32,
}

pub struct FfmpegPlanView {
    pub args: Seq<Seq<char>>,
    pub out_w: u32,
    pub out_h: u32,
    pub fps: u32,
    pub preview_fps: u32,
}

impl View for FfmpegPlan {
    type V = FfmpegPlanView;

    open spec fn view(&self) -> FfmpegPlanView {
        FfmpegPlanView {
            args: self.args.deep_view(),
            out_w: self.out_w,
            out_h: self.out_h,
            fps: self.fps,
            preview_fps: self.preview_fps,
        }
    }
}

/// How FFmpeg is run with the filter chain `vf` on the stream at `host` and `port`.
pub open spec fn plan_for(
    cfg: ConfigView,
    host: Seq<char>,
    port: u16,
    vf: Seq<char>,
) -> FfmpegPlanView {
    FfmpegPlanView {
        args: common::arguments("64"@, common::stream_url(host, port), vf, cfg.fps),
        out_w: OUTPUT_W,
        out_h: OUTPUT_H,
        fps: cfg.fps,
        preview_fps: cfg.preview_fps,
    }
}

/// How FFmpeg is run with the filter chain `vf` on the stream at `tcp_host` and `tcp_port`.
pub fn plan_with_filter(cfg: &Config, tcp_host: &str, tcp_port: u16, vf: &str) -> (r: FfmpegPlan)
    ensures
        r@ == plan_for(cfg@, tcp_host@, tcp_port, vf@),
{
    let url = common::tcp_url(tcp_host, tcp_port);
    FfmpegPlan {
        args: build_ffmpeg_args(cfg, url.as_str(), vf),
        out_w: OUTPUT_W,
        out_h: OUTPUT_H,
        fps: cfg.fps,
        preview_fps: cfg.preview_fps,
    }
}

/// How FFmpeg is run on the stream at `tcp_host` and `tcp_port`: `localhost` and the forwarded port
/// over USB, the phone's address over WiFi.
pub fn plan_ffmpeg(cfg: &Config, tcp_host: &str, tcp_port: u16) -> (r: FfmpegPlan)
    ensures
        r@ == plan_for(
            cfg@,
            tcp_host@,
            tcp_port,
            common::chain(
                common::chain_steps(seq!["setrange=full"@], cfg.rotation, OUTPUT_W, OUTPUT_H),
            ),
        ),
{
    let vf = build_vf_filter(cfg);
    plan_with_filter(cfg, tcp_host, tcp_port, vf.as_str())
}

/// Arguments that make `taskkill` end the process `pid`.
pub fn kill_pid(pid: u32) -> (r: Vec<String>)
    ensures
        r.deep_view() == seq!["/F"@, "/PID"@, text::dec(pid as nat)],
{
    let mut args: Vec<String> = Vec::new();
    args.push("/F".to_string());
    args.push("/PID".to_string());
    args.push(dec_string(pid as u64));
    assert(args.deep_view() =~= seq!["/F"@, "/PID"@, text::dec(pid as nat)]);
    args
}

proof fn lemma_hd()
    ensures
        text::dec(1280) == "1280"@,
        text::dec(720) == "720"@,
{
    reveal_with_fuel(text::dec, 5);
    reveal_strlit("1280");
    reveal_strlit("720");
    assert(text::dec(1280) =~= "1280"@);
    assert(text::dec(720) =~= "720"@);
}

proof fn lemma_hd_crop()
    ensures
        common::crop_step(OUTPUT_W, OUTPUT_H) == "crop=iw:iw*720/1280:0:(ih-iw*720/1280)/2"@,
{
    lemma_hd();
    reveal_strlit("crop=iw:iw*");
    reveal_strlit("1280");
    reveal_strlit("720");
    reveal_strlit("/");
    reveal_strlit(":0:(ih-iw*");
    reveal_strlit(")/2");
    reveal_strlit("crop=iw:iw*720/1280:0:(ih-iw*720/1280)/2");
    assert(common::crop_step(OUTPUT_W, OUTPUT_H)
        =~= "crop=iw:iw*720/1280:0:(ih-iw*720/1280)/2"@);
}

proof fn lemma_hd_scale()
    ensures
        common::scale_step(OUTPUT_W, OUTPUT_H) == "scale=1280:720:in_range=full:out_range=limited"@,
{
    lemma_hd();
    reveal_strlit("scale=");
    reveal_strlit("1280");
    reveal_strlit("720");
    reveal_strlit(":");
    reveal_strlit(":in_range=full:out_range=limited");
    reveal_strlit("scale=1280:720:in_range=full:out_range=limited");
    assert(common::scale_step(OUTPUT_W, OUTPUT_H)
        =~= "scale=1280:720:in_range=full:out_range=limited"@);
}

/// Whatever the angle, the picture is turned by it, cropped to 16:9 around its middle, scaled to
/// 720p from full to limited range, and declared to have square pixels, in this order. What leads
/// the chain stands in front.
pub proof fn the_stream_is_hd(lead: Seq<Seq<char>>, rotation: u32)
    requires
        1 <= lead.len() <= 2,
    ensures
        common::chain(common::chain_steps(lead, rotation, OUTPUT_W, OUTPUT_H)) == (if lead.len()
            == 1 {
            lead[0] + ","@
        } else {
            lead[0] + ","@ + lead[1] + ","@
        }) + common::turn_text(rotation) + "crop=iw:iw*720/1280:0:(ih-iw*720/1280)/2"@ + ","@
            + "scale=1280:720:in_range=full:out_range=limited"@ + ","@ + "setsar=1"@,
{
    lemma_hd_crop();
    lemma_hd_scale();
    common::a_chain_leads_turns_crops_and_scales(lead, rotation, OUTPUT_W, OUTPUT_H);
}

/// For every configuration and filter chain FFmpeg is told where the stream is, which filters to
/// apply and how many frames per second to write, each behind its own option, and the frames have
/// the size and the rates that were chosen. The numbers read back as they were given.
pub proof fn ffmpeg_is_told_what_was_chosen(
    cfg: ConfigView,
    host: Seq<char>,
    port: u16,
    vf: Seq<char>,
)
    ensures
        ({
            let plan = plan_for(cfg, host, port, vf);
            let args = plan.args;
            &&& args.len() == 24
            &&& args[0] == "-hide_banner"@
            &&& args[1] == "-fflags"@ && args[2] == "nobuffer"@
            &&& args[3] == "-flags"@ && args[4] == "low_delay"@
            &&& args[5] == "-probesize"@ && args[6] == "32"@
            &&& args[7] == "-analyzeduration"@ && args[8] == "0"@
            &&& args[9] == "-thread_queue_size"@ && args[10] == "64"@
            &&& args[11] == "-f"@ && args[12] == "mpjpeg"@
            &&& args[13] == "-i"@ && args[14] == "tcp://"@ + host + ":"@ + text::dec(port as nat)
            &&& text::numeral_value(text::dec(port as nat)) == port
            &&& args[15] == "-vf"@ && args[16] == vf
            &&& args[17] == "-f"@ && args[18] == "rawvideo"@
            &&& args[19] == "-pix_fmt"@ && args[20] == "yuv420p"@
            &&& args[21] == "-r"@ && text::numeral_value(args[22]) == cfg.fps && args[22]
                == text::dec(cfg.fps as nat)
            &&& args[23] == "pipe:1"@
            &&& plan.out_w == 1280 && plan.out_h == 720
            &&& plan.fps == cfg.fps && plan.preview_fps == cfg.preview_fps
        }),
{
    text::a_numeral_reads_back(port as nat);
    text::a_numeral_reads_back(cfg.fps as nat);
}

/// The view of a plan holds everything in it as it is.
pub proof fn a_view_keeps_the_plan(plan: FfmpegPlan)
    ensures
        plan@.args.len() == plan.args@.len(),
        forall|i: int|
            0 <= i < plan.args@.len() ==> #[trigger] plan@.args[i] == plan.args@[i]@,
        plan@.out_w == plan.out_w,
        plan@.out_h == plan.out_h,
        plan@.fps == plan.fps,
        plan@.preview_fps == plan.preview_fps,
{
}

} // verus!
