//! What the user has chosen, and where it is kept.
use vstd::prelude::*;
use vstd::string::*;

verus! {

/// How the phone is reached.
#[derive(Clone, Copy, PartialEq, Eq, Structural, Debug)]
pub enum ConnectionMode {
    /// Directly, over the network.
    Wifi,
    /// Through a port forwarded over the USB cable.
    Usb,
}

impl Default for ConnectionMode {
    fn default() -> (r: Self)
        ensures
            r == ConnectionMode::Wifi,
    {
        ConnectionMode::Wifi
    }
}

/// Bit pattern of the single-precision number 1.0.
pub const ZOOM_ONE_BITS: u32 = 0x3f80_0000;

#[derive(PartialEq, Debug)]
pub struct Config {
    /// Frames per second that FFmpeg is asked for.
    pub fps: u32,
    /// Degrees by which the picture is turned: 0, 90, 180 or 270.
    pub rotation: u32,
    /// The loopback device that shows the picture to other programs.
    pub v4l2_device: String,
    /// Port of the phone's stream, on the phone and on this side of the cable.
    pub adb_port: u16,
    /// Frames per second that the window's preview is to show.
    pub preview_fps: u32,
    pub connection_mode: ConnectionMode,
    /// Address of the phone. Empty: take the one that its beacon announces.
    pub wifi_ip: String,
    /// Zoom of the preview, as the bit pattern of a single-precision number. It concerns the
    /// window alone: the stream is never zoomed.
    pub zoom_bits: u32,
}

pub struct ConfigView {
    pub fps: u32,
    pub rotation: u32,
    pub v4l2_device: Seq<char>,
    pub adb_port: u16,
    pub preview_fps: u32,
    pub connection_mode: ConnectionMode,
    pub wifi_ip: Seq<char>,
    pub zoom_bits: u32,
}

impl View for Config {
    type V = ConfigView;

    open spec fn view(&self) -> ConfigView {
        ConfigView {
            fps: self.fps,
            rotation: self.rotation,
            v4l2_device: self.v4l2_device@,
            adb_port: self.adb_port,
            preview_fps: self.preview_fps,
            connection_mode: self.connection_mode,
            wifi_ip: self.wifi_ip@,
            zoom_bits: self.zoom_bits,
        }
    }
}

impl Clone for Config {
    fn clone(&self) -> (r: Self)
        ensures
            r@ == self@,
    {
        Config {
            fps: self.fps,
            rotation: self.rotation,
            v4l2_device: self.v4l2_device.clone(),
            adb_port: self.adb_port,
            preview_fps: self.preview_fps,
            connection_mode: self.connection_mode,
            wifi_ip: self.wifi_ip.clone(),
            zoom_bits: self.zoom_bits,
        }
    }
}

impl ConfigView {
    /// What holds until the user chooses otherwise.
    pub open spec fn initial() -> ConfigView {
        ConfigView {
            fps: 30,
            rotation: 0,
            v4l2_device: "/dev/video10"@,
            adb_port: 5000,
            preview_fps: 15,
            connection_mode: ConnectionMode::Wifi,
            wifi_ip: Seq::empty(),
            zoom_bits: ZOOM_ONE_BITS,
        }
    }
}

impl Default for Config {
    fn default() -> (r: Self)
        ensures
            r@ == ConfigView::initial(),
    {
        Config {
            fps: 30,
            rotation: 0,
            v4l2_device: "/dev/video10".to_string(),
            adb_port: 5000,
            preview_fps: 15,
            connection_mode: ConnectionMode::Wifi,
            wifi_ip: String::new(),
            zoom_bits: ZOOM_ONE_BITS,
        }
    }
}

/// The path `part` below the directory `base`.
pub open spec fn below(base: Seq<char>, part: Seq<char>) -> Seq<char> {
    if base.len() == 0 || base.last() == '/' {
        base + part
    } else {
        base.push('/') + part
    }
}

/// The file that keeps the configuration of a user with this home directory.
pub open spec fn config_file(home: Option<Seq<char>>) -> Seq<char> {
    let base = match home {
        Some(dir) => dir,
        None => "."@,
    };
    below(base, ".config/campc/config.toml"@)
}

impl Config {
    /// Path of the configuration file, given the value of `HOME`.
    pub fn config_path(home: Option<String>) -> (r: String)
        ensures
            r@ == config_file(
                match home {
                    Some(dir) => Some(dir@),
                    None => None,
                },
            ),
    {
        let mut path: String = match home {
            Some(dir) => dir,
            None => ".".to_string(),
        };
        let n: usize = path.as_str().unicode_len();
        if n > 0 && path.as_str().get_char(n - 1) != '/' {
            proof {
                reveal_strlit("/");
            }
            let ghost base = path@;
            path.append("/");
            assert(path@ =~= base.push('/'));
        }
        path.append(".config/campc/config.toml");
        path
    }

    /// The configuration to start with: what the file held, or the initial one where there was no
    /// file or it could not be read.
    pub fn load(stored: Option<Config>) -> (r: Config)
        ensures
            r@ == match stored {
                Some(config) => config@,
                None => ConfigView::initial(),
            },
    {
        match stored {
            Some(config) => config,
            None => Config::default(),
        }
    }
}

/// The file lies in `.config/campc` below the home directory, whichever that is and whether or not
/// its name ends in a slash, and below the current directory where there is none.
pub proof fn the_file_lies_below_the_home_directory(home: Seq<char>)
    ensures
        home.len() > 0 && home.last() != '/' ==> config_file(Some(home)) == home + "/"@
            + ".config/campc/config.toml"@,
        home.len() > 0 && home.last() == '/' ==> config_file(Some(home)) == home
            + ".config/campc/config.toml"@,
        home.len() == 0 ==> config_file(Some(home)) == ".config/campc/config.toml"@,
        config_file(None) == "./.config/campc/config.toml"@,
{
    reveal_strlit("/");
    reveal_strlit(".");
    reveal_strlit(".config/campc/config.toml");
    reveal_strlit("./.config/campc/config.toml");
    assert(home.push('/') =~= home + "/"@);
    assert(home.len() == 0 ==> config_file(Some(home)) =~= ".config/campc/config.toml"@);
    assert(config_file(None) =~= "./.config/campc/config.toml"@);
}

/// The view of a configuration holds every setting as it is.
pub proof fn a_view_keeps_every_setting(config: Config)
    ensures
        config@.fps == config.fps,
        config@.rotation == config.rotation,
        config@.v4l2_device == config.v4l2_device@,
        config@.adb_port == config.adb_port,
        config@.preview_fps == config.preview_fps,
        config@.connection_mode == config.connection_mode,
        config@.wifi_ip == config.wifi_ip@,
        config@.zoom_bits == config.zoom_bits,
{
}

} // verus!
