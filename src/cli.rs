use vstd::prelude::*;
use crate::mode::Protocol;
use crate::resize::{AutoResizeOption, ClapResizeMode, CustomResizeOption, ResizeMode};

verus! {

/// Where the command line reads an image from.
pub enum Commands {
    File(FileArgs),
    Bytes,
    Base64(Base64Args),
    Directory(DirectoryArgs),
    Url(UrlArgs),
    Gif(GifArgs),
    Video(VideoArgs),
}

pub struct FileArgs {
    pub hide_filename: bool,
    pub path: String,
}

pub struct DirectoryArgs {
    pub read_all: bool,
    pub path: String,
}

pub struct GifArgs {
    pub fps: Option<u64>,
    pub loop_play: bool,
    pub audio: Option<String>,
    pub path: String,
}

pub struct Base64Args {
    pub base64: String,
}

pub struct UrlArgs {
    pub url: String,
}

pub struct VideoArgs {
    pub audio: Option<String>,
    pub path: String,
}

impl Commands {
    pub fn is_directory(&self) -> (r: bool)
        ensures
            r == (*self is Directory),
    {
        matches!(self, Commands::Directory(_))
    }
}

/// The settings that the command line gathers.
pub struct Cli {
    pub center: bool,
    pub clear: bool,
    pub pause: bool,
    pub show_time: bool,
    pub output: Option<String>,
    pub half_resolution: bool,
    pub disable_print: bool,
    pub disable_info: bool,
    pub no_color: bool,
    pub black_background: bool,
    pub no_resize: bool,
    pub protocol: Protocol,
    pub resize_mode: ClapResizeMode,
    pub width: Option<u32>,
    pub height: Option<u32>,
    pub without_resize_width: bool,
    pub without_resize_height: bool,
    pub max_colors: u16,
    pub enable_compression: bool,
    pub disable_dither: bool,
    pub command: Commands,
}

impl Default for Cli {
    fn default() -> (r: Cli)
        ensures
            r.resize_mode == ClapResizeMode::Auto,
            r.protocol == Protocol::Normal,
            r.width is None && r.height is None,
            !r.no_resize && !r.without_resize_width && !r.without_resize_height,
            !r.center && !r.enable_compression && r.max_colors == 256,
    {
        Cli {
            center: false,
            clear: false,
            pause: false,
            show_time: false,
            output: Option::None,
            half_resolution: false,
            disable_print: false,
            disable_info: false,
            no_color: false,
            black_background: false,
            no_resize: false,
            protocol: Protocol::Normal,
            resize_mode: ClapResizeMode::Auto,
            width: Option::None,
            height: Option::None,
            without_resize_width: false,
            without_resize_height: false,
            max_colors: 256,
            enable_compression: false,
            disable_dither: false,
            command: Commands::File(FileArgs { hide_filename: false, path: String::new() }),
        }
    }
}

impl ResizeMode {
    /// The resize mode that the command line's settings ask for.
    pub fn from_cli(cli: &Cli) -> (r: ResizeMode)
        ensures
            r == match cli.resize_mode {
                ClapResizeMode::Auto => ResizeMode::Auto(AutoResizeOption {
                    width: !(cli.without_resize_width || cli.no_resize),
                    height: !(cli.without_resize_height || cli.no_resize),
                }),
                ClapResizeMode::Custom => ResizeMode::Custom(CustomResizeOption { width: cli.width, height: cli.height }),
                ClapResizeMode::Keep => ResizeMode::Keep,
            },
    {
        match cli.resize_mode {
            ClapResizeMode::Auto => ResizeMode::Auto(AutoResizeOption {
                width: !(cli.without_resize_width || cli.no_resize),
                height: !(cli.without_resize_height || cli.no_resize),
            }),
            ClapResizeMode::Custom => ResizeMode::Custom(CustomResizeOption { width: cli.width, height: cli.height }),
            ClapResizeMode::Keep => ResizeMode::Keep,
        }
    }
}

/// The audio track to play beside an animation.
pub enum AudioPath {
    /// A file extracted for this run, removed afterwards.
    Temp(String),
    /// A file that the user named.
    Custom(String),
    /// No audio.
    Silent,
}

impl Default for AudioPath {
    fn default() -> (r: AudioPath)
        ensures
            r is Silent,
    {
        AudioPath::Silent
    }
}

impl AudioPath {
    pub fn get_path(&self) -> (r: Option<String>)
        ensures
            match self {
                AudioPath::Temp(p) => r == Some(*p),
                AudioPath::Custom(p) => r == Some(*p),
                AudioPath::Silent => r is None,
            },
    {
        match self {
            AudioPath::Temp(p) => Some(p.clone()),
            AudioPath::Custom(p) => Some(p.clone()),
            AudioPath::Silent => Option::None,
        }
    }

    pub fn is_none(&self) -> (r: bool)
        ensures
            r == (*self is Silent),
    {
        matches!(self, AudioPath::Silent)
    }
}

/// One rendered animation frame with its position and delay.
pub struct Frame {
    pub index: usize,
    pub frame: String,
    pub delay: u64,
}

impl Frame {
    pub fn unpacking(&self) -> (r: (&str, usize, u64))
        ensures
            r.0@ == self.frame@,
            r.1 == self.index,
            r.2 == self.delay,
    {
        (self.frame.as_str(), self.index, self.delay)
    }
}

/// Why a video frame could not be had.
pub enum FrameError {
    EOF,
    DecodeError,
    Other(String),
}

impl FrameError {
    pub fn message(&self) -> (r: String)
        ensures
            self is EOF ==> r@ == "end of frames"@,
            self is DecodeError ==> r@ == "decode error"@,
            self is Other ==> r@ == "Other error: "@ + self->Other_0@,
    {
        match self {
            FrameError::EOF => String::from_str("end of frames"),
            FrameError::DecodeError => String::from_str("decode error"),
            FrameError::Other(s) => {
                let mut m = String::from_str("Other error: ");
                m.append(s.as_str());
                m
            },
        }
    }
}

} // verus!
