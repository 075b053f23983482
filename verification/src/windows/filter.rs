//! A filter chain for builds of FFmpeg whose scaler does not cope with the deprecated yuvj420p:
//! the frames are tagged anew before anything else looks at them.
use vstd::prelude::*;
use vstd::string::*;

use crate::config::Config;
use crate::ffmpeg as common;
use crate::windows::ffmpeg;
use crate::windows::ffmpeg::{FfmpegPlan, OUTPUT_H, OUTPUT_W};

verus! {

/// The steps that come before the turn: declare full range, then tag as yuv420p.
pub open spec fn lead_steps() -> Seq<Seq<char>> {
    seq!["setrange=full"@, "format=yuv420p"@]
}

/// The filter chain for a configuration: tag, turn, crop to 16:9, scale to `OUTPUT_W` x `OUTPUT_H`,
/// declare square pixels.
pub fn build_vf_filter(cfg: &Config) -> (r: String)
    ensures
        r@ == common::chain(common::chain_steps(lead_steps(), cfg.rotation, OUTPUT_W, OUTPUT_H)),
{
    let mut lead: Vec<String> = Vec::new();
    lead.push("setrange=full".to_string());
    lead.push("format=yuv420p".to_string());
    assert(lead.deep_view() =~= lead_steps());
    common::filter_chain(lead, cfg.rotation, OUTPUT_W, OUTPUT_H)
}

/// How FFmpeg is run with this chain on the stream at `tcp_host` and `tcp_port`.
pub fn plan_ffmpeg(cfg: &Config, tcp_host: &str, tcp_port: u16) -> (r: FfmpegPlan)
    ensures
        r@ == ffmpeg::plan_for(
            cfg@,
            tcp_host@,
            tcp_port,
            common::chain(common::chain_steps(lead_steps(), cfg.rotation, OUTPUT_W, OUTPUT_H)),
        ),
{
    let vf = build_vf_filter(cfg);
    ffmpeg::plan_with_filter(cfg, tcp_host, tcp_port, vf.as_str())
}

/// Whatever the angle, the frames are declared full range and tagged anew before anything else is
/// done to them.
pub proof fn the_frames_are_tagged_first(rotation: u32)
    ensures
        common::chain(common::chain_steps(lead_steps(), rotation, OUTPUT_W, OUTPUT_H))
            == "setrange=full"@ + ","@ + "format=yuv420p"@ + ","@ + common::turn_text(rotation)
            + "crop=iw:iw*720/1280:0:(ih-iw*720/1280)/2"@ + ","@
            + "scale=1280:720:in_range=full:out_range=limited"@ + ","@ + "setsar=1"@,
{
    ffmpeg::the_stream_is_hd(lead_steps(), rotation);
}

} // verus!
