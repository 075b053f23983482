//! What the user of the tethered program has chosen.
use vstd::prelude::*;
use vstd::string::*;

use crate::config::ZOOM_ONE_BITS;

verus! {

/// Bit pattern of the single-precision number next to 1.001: zooms up to it count as none.
pub const NO_ZOOM_BITS: u32 = 0x3f80_20c5;

/// Bit pattern of the single-precision infinity. Larger patterns are negative or no numbers.
pub const INFINITY_BITS: u32 = 0x7f80_0000;

/// A zoom factor.
#[derive(PartialEq, Debug)]
pub struct Zoom {
    /// The factor, as the bit pattern of a single-precision number.
    pub bits: u32,
    /// The factor, written out.
    pub text: String,
}

pub struct ZoomView {
    pub bits: u32,
    pub text: Seq<char>,
}

impl View for Zoom {
    type V = ZoomView;

    open spec fn view(&self) -> ZoomView {
        ZoomView { bits: self.bits, text: self.text@ }
    }
}

impl ZoomView {
    /// Whether the picture is zoomed. Positive single-precision numbers are ordered as their bit
    /// patterns are.
    pub open spec fn zooms(self) -> bool {
        NO_ZOOM_BITS < self.bits <= INFINITY_BITS
    }
}

impl Zoom {
    /// Whether the picture is zoomed.
    pub fn zooms(&self) -> (r: bool)
        ensures
            r == self@.zooms(),
    {
        NO_ZOOM_BITS < self.bits && self.bits <= INFINITY_BITS
    }
}

#[derive(PartialEq, Debug)]
pub struct Config {
    pub zoom: Zoom,
    /// Frames per second that FFmpeg is asked for.
    pub fps: u32,
    /// Degrees by which the picture is turned: 0, 90, 180 or 270.
    pub rotation: u32,
    /// Size of the picture: `720p`, `1080p` or `480p`.
    pub resolution: String,
    /// The loopback device that shows the picture to other programs.
    pub v4l2_device: String,
    /// Port of the phone's stream, on the phone and on this side of the cable.
    pub adb_port: u16,
    pub preview_fps: u32,
}

pub struct ConfigView {
    pub zoom: ZoomView,
    pub fps: u32,
    pub rotation: u32,
    pub resolution: Seq<char>,
    pub v4l2_device: Seq<char>,
    pub adb_port: u16,
    pub preview_fps: u32,
}

impl View for Config {
    type V = ConfigView;

    open spec fn view(&self) -> ConfigView {
        ConfigView {
            zoom: self.zoom@,
            fps: self.fps,
            rotation: self.rotation,
            resolution: self.resolution@,
            v4l2_device: self.v4l2_device@,
            adb_port: self.adb_port,
            preview_fps: self.preview_fps,
        }
    }
}

impl Clone for Config {
    fn clone(&self) -> (r: Self)
        ensures
            r@ == self@,
    {
        Config {
            zoom: Zoom { bits: self.zoom.bits, text: self.zoom.text.clone() },
            fps: self.fps,
            rotation: self.rotation,
            resolution: self.resolution.clone(),
            v4l2_device: self.v4l2_device.clone(),
            adb_port: self.adb_port,
            preview_fps: self.preview_fps,
        }
    }
}

impl ConfigView {
    /// What holds until the user chooses otherwise.
    pub open spec fn initial() -> ConfigView {
        ConfigView {
            zoom: ZoomView { bits: ZOOM_ONE_BITS, text: "1"@ },
            fps: 30,
            rotation: 0,
            resolution: "720p"@,
            v4l2_device: "/dev/video10"@,
            adb_port: 5000,
            preview_fps: 15,
        }
    }

    /// Width and height of the picture. Any other name means 720p.
    pub open spec fn dims(self) -> (u32, u32) {
        if self.resolution == "1080p"@ {
            (1920, 1080)
        } else if self.resolution == "480p"@ {
            (854, 480)
        } else {
            (1280, 720)
        }
    }
}

impl Default for Config {
    fn default() -> (r: Self)
        ensures
            r@ == ConfigView::initial(),
    {
        Config {
            zoom: Zoom { bits: ZOOM_ONE_BITS, text: "1".to_string() },
            fps: 30,
            rotation: 0,
            resolution: "720p".to_string(),
            v4l2_device: "/dev/video10".to_string(),
            adb_port: 5000,
            preview_fps: 15,
        }
    }
}

impl Config {
    /// The configuration to start with: what the file held, or the initial one where there was no
    /// file or it could not be read.
    pub fn load(stored: Option<Config>) -> (r: Config)
        ensures
            r@ == match stored {
                Some(config) => config@,
                None => ConfigView::initial(),
            },
    {
        match stored {
            Some(config) => config,
            None => Config::default(),
        }
    }

    /// Width and height of the picture.
    pub fn resolution_dims(&self) -> (r: (u32, u32))
        ensures
            r == self@.dims(),
    {
        if self.resolution == "1080p".to_string() {
            (1920, 1080)
        } else if self.resolution == "480p".to_string() {
            (854, 480)
        } else {
            (1280, 720)
        }
    }
}

/// The picture has the size that its name says, and any name but the two others means 720p.
pub proof fn sizes_go_by_their_names(cfg: ConfigView)
    ensures
        cfg.resolution == "1080p"@ ==> cfg.dims() == (1920u32, 1080u32),
        cfg.resolution == "480p"@ ==> cfg.dims() == (854u32, 480u32),
        cfg.resolution != "1080p"@ && cfg.resolution != "480p"@ ==> cfg.dims() == (
            1280u32,
            720u32,
        ),
{
    reveal_strlit("1080p");
    reveal_strlit("480p");
    assert("1080p"@.len() == 5 && "480p"@.len() == 4);
}

/// A picture is zoomed exactly if the factor is a number greater than 1.001. A stronger zoom is
/// still one.
pub proof fn a_zoom_is_more_than_a_thousandth(a: ZoomView, b: ZoomView)
    ensures
        a.zooms() <==> 0x3f80_20c5 < a.bits <= 0x7f80_0000,
        a.zooms() && a.bits <= b.bits <= 0x7f80_0000 ==> b.zooms(),
{
}

/// The view of a configuration holds every setting as it is.
pub proof fn a_view_keeps_every_setting(config: Config)
    ensures
        config@.zoom.bits == config.zoom.bits,
        config@.zoom.text == config.zoom.text@,
        config@.fps == config.fps,
        config@.rotation == config.rotation,
        config@.resolution == config.resolution@,
        config@.v4l2_device == config.v4l2_device@,
        config@.adb_port == config.adb_port,
        config@.preview_fps == config.preview_fps,
{
}

} // verus!
