use vstd::prelude::*;
use crate::mode::{DisplayMode, ImageKind};
use crate::text::{bg_seq, fg_seq, push_bg, push_fg};

verus! {

/// One RGBA sample.
#[derive(Debug, Clone, Copy, PartialEq, Eq, Structural)]
pub struct PixelColor {
    pub r: u8,
    pub g: u8,
    pub b: u8,
    pub a: u8,
}

/// One RGB sample.
#[derive(Debug, Clone, Copy, PartialEq, Eq, Structural)]
pub struct RgbColor {
    pub red: u8,
    pub green: u8,
    pub blue: u8,
}

/// Luminance of an RGB triple with the sRGB weights 0.2126, 0.7152 and 0.0722,
/// rounded down; it ignores alpha.
pub open spec fn luma_of(p: PixelColor) -> u8 {
    ((2126 * p.r as int + 7152 * p.g as int + 722 * p.b as int) / 10000) as u8
}

/// Position of pixel `(x, y)` in a row-major grid `w` wide.
pub open spec fn pixel_index(x: int, y: int, w: int) -> int {
    y * w + x
}

pub proof fn lemma_index_in_grid(x: int, y: int, w: int, h: int)
    requires
        0 <= x < w,
        0 <= y < h,
    ensures
        0 <= pixel_index(x, y, w) < w * h,
{
    assert(y * w + x < w * h) by (nonlinear_arith)
        requires
            0 <= x < w,
            0 <= y < h,
    ;
    assert(0 <= y * w) by (nonlinear_arith)
        requires
            0 <= y,
            0 <= w,
    ;
}

impl PixelColor {
    /// A sample from its four channels, in the order r, g, b, a.
    pub fn from_channels(channels: [u8; 4]) -> (r: PixelColor)
        ensures
            r == (PixelColor {
                r: channels@[0],
                g: channels@[1],
                b: channels@[2],
                a: channels@[3],
            }),
    {
        PixelColor { r: channels[0], g: channels[1], b: channels[2], a: channels[3] }
    }

    /// The truecolor background escape of this sample.
    pub fn bg(&self) -> (s: String)
        ensures
            s@ == bg_seq(self.r, self.g, self.b),
    {
        let mut s = String::new();
        push_bg(&mut s, self.r, self.g, self.b);
        proof {
            assert(s@ =~= bg_seq(self.r, self.g, self.b));
        }
        s
    }

    /// The truecolor foreground escape of this sample.
    pub fn fg(&self) -> (s: String)
        ensures
            s@ == fg_seq(self.r, self.g, self.b),
    {
        let mut s = String::new();
        push_fg(&mut s, self.r, self.g, self.b);
        proof {
            assert(s@ =~= fg_seq(self.r, self.g, self.b));
        }
        s
    }

    /// Luminance of the sample.
    pub fn luma(&self) -> (l: u8)
        ensures
            l == luma_of(*self),
    {
        let v: u32 = 2126 * (self.r as u32) + 7152 * (self.g as u32) + 722 * (self.b as u32);
        (v / 10000) as u8
    }
}

/// An RGBA raster in row-major order.
pub struct RgbaImage {
    pub width: u32,
    pub height: u32,
    pub pixels: Vec<PixelColor>,
}

/// A luminance raster in row-major order.
pub struct GrayImage {
    pub width: u32,
    pub height: u32,
    pub pixels: Vec<u8>,
}

/// An RGB raster in row-major order.
pub struct RgbImage {
    pub width: u32,
    pub height: u32,
    pub pixels: Vec<RgbColor>,
}

impl RgbaImage {
    pub open spec fn wf(&self) -> bool {
        self.pixels@.len() == self.width as int * self.height as int
    }

    pub open spec fn spec_pixel(&self, x: int, y: int) -> PixelColor {
        self.pixels@[pixel_index(x, y, self.width as int)]
    }

    /// A raster of the given size whose samples are all `fill`.
    pub fn filled(width: u32, height: u32, fill: PixelColor) -> (r: RgbaImage)
        requires
            width as int * height as int <= usize::MAX,
        ensures
            r.wf(),
            r.width == width,
            r.height == height,
            forall|i: int| 0 <= i < r.pixels@.len() ==> r.pixels@[i] == fill,
    {
        let n: usize = (width as usize) * (height as usize);
        let mut pixels: Vec<PixelColor> = Vec::new();
        let mut i: usize = 0;
        while i < n
            invariant
                i <= n,
                pixels@.len() == i,
                forall|j: int| 0 <= j < i ==> pixels@[j] == fill,
            decreases n - i,
        {
            pixels.push(fill);
            i = i + 1;
        }
        RgbaImage { width, height, pixels }
    }

    /// The sample at `(x, y)`.
    pub fn get_pixel(&self, x: u32, y: u32) -> (p: PixelColor)
        requires
            self.wf(),
            x < self.width,
            y < self.height,
        ensures
            p == self.spec_pixel(x as int, y as int),
    {
        let n = self.pixels.len();
        proof {
            lemma_index_in_grid(x as int, y as int, self.width as int, self.height as int);
            assert(0 <= (y as int) * (self.width as int) <= (y as int) * (self.width as int) + x as int) by (nonlinear_arith)
                requires
                    0 <= y,
                    0 <= self.width,
                    0 <= x,
            ;
        }
        self.pixels[(y as usize) * (self.width as usize) + (x as usize)]
    }

    /// A copy of the raster.
    pub fn duplicate(&self) -> (r: RgbaImage)
        ensures
            r.width == self.width,
            r.height == self.height,
            r.pixels@ == self.pixels@,
    {
        let mut pixels: Vec<PixelColor> = Vec::new();
        let mut i: usize = 0;
        while i < self.pixels.len()
            invariant
                i <= self.pixels@.len(),
                pixels@ == self.pixels@.subrange(0, i as int),
            decreases self.pixels@.len() - i,
        {
            pixels.push(self.pixels[i]);
            i = i + 1;
            proof {
                assert(pixels@ =~= self.pixels@.subrange(0, i as int));
            }
        }
        proof {
            assert(pixels@ =~= self.pixels@);
        }
        RgbaImage { width: self.width, height: self.height, pixels }
    }

    /// The luminance raster of the same size: each sample is `luma_of` the RGBA sample.
    pub fn to_luma(&self) -> (r: GrayImage)
        requires
            self.wf(),
        ensures
            r.wf(),
            r.width == self.width,
            r.height == self.height,
            forall|i: int| 0 <= i < r.pixels@.len() ==> r.pixels@[i] == luma_of(
                #[trigger] self.pixels@[i],
            ),
    {
        let mut pixels: Vec<u8> = Vec::new();
        let mut i: usize = 0;
        while i < self.pixels.len()
            invariant
                i <= self.pixels@.len(),
                pixels@.len() == i,
                forall|j: int| 0 <= j < i ==> pixels@[j] == luma_of(#[trigger] self.pixels@[j]),
            decreases self.pixels@.len() - i,
        {
            pixels.push(self.pixels[i].luma());
            i = i + 1;
        }
        GrayImage { width: self.width, height: self.height, pixels }
    }

    /// The RGB raster of the same size: each sample loses its alpha channel.
    pub fn to_rgb(&self) -> (r: RgbImage)
        requires
            self.wf(),
        ensures
            r.wf(),
            r.width == self.width,
            r.height == self.height,
            forall|i: int| 0 <= i < r.pixels@.len() ==> r.pixels@[i] == (RgbColor {
                red: self.pixels@[i].r,
                green: self.pixels@[i].g,
                blue: self.pixels@[i].b,
            }),
    {
        let mut pixels: Vec<RgbColor> = Vec::new();
        let mut i: usize = 0;
        while i < self.pixels.len()
            invariant
                i <= self.pixels@.len(),
                pixels@.len() == i,
                forall|j: int| 0 <= j < i ==> pixels@[j] == (RgbColor {
                    red: self.pixels@[j].r,
                    green: self.pixels@[j].g,
                    blue: self.pixels@[j].b,
                }),
            decreases self.pixels@.len() - i,
        {
            let p = self.pixels[i];
            pixels.push(RgbColor { red: p.r, green: p.g, blue: p.b });
            i = i + 1;
        }
        RgbImage { width: self.width, height: self.height, pixels }
    }
}

impl GrayImage {
    pub open spec fn wf(&self) -> bool {
        self.pixels@.len() == self.width as int * self.height as int
    }

    pub open spec fn spec_pixel(&self, x: int, y: int) -> u8 {
        self.pixels@[pixel_index(x, y, self.width as int)]
    }

    /// The luminance at `(x, y)`.
    pub fn get_pixel(&self, x: u32, y: u32) -> (p: u8)
        requires
            self.wf(),
            x < self.width,
            y < self.height,
        ensures
            p == self.spec_pixel(x as int, y as int),
    {
        let n = self.pixels.len();
        proof {
            lemma_index_in_grid(x as int, y as int, self.width as int, self.height as int);
            assert(0 <= (y as int) * (self.width as int) <= (y as int) * (self.width as int) + x as int) by (nonlinear_arith)
                requires
                    0 <= y,
                    0 <= self.width,
                    0 <= x,
            ;
        }
        self.pixels[(y as usize) * (self.width as usize) + (x as usize)]
    }
}

impl RgbImage {
    pub open spec fn wf(&self) -> bool {
        self.pixels@.len() == self.width as int * self.height as int
    }
}

/// The raster representation that a display mode's encoder reads.
pub enum ProcessedImage {
    /// RGBA samples.
    Color(RgbaImage),
    /// RGB samples, for Sixel.
    Color2(RgbImage),
    /// Luminance samples.
    NoColor(GrayImage),
    /// RGBA and luminance samples of the same image.
    Both(RgbaImage, GrayImage),
}

/// `r` is the representation that `mode` reads of the `w` by `h` raster `px`:
/// its shape is the mode's, its size is the raster's, and its samples are the
/// RGBA samples, their luminance, or their RGB part.
pub open spec fn is_extraction(mode: DisplayMode, w: u32, h: u32, px: Seq<PixelColor>, r: ProcessedImage) -> bool {
    &&& r.kind() == mode.spec_expected_kind()
    &&& r.wf()
    &&& r.spec_width() == w
    &&& r.spec_height() == h
    &&& match r {
        ProcessedImage::Color(c) => c.pixels@ == px,
        ProcessedImage::Both(c, l) => c.pixels@ == px && (forall|i: int|
            0 <= i < l.pixels@.len() ==> l.pixels@[i] == luma_of(#[trigger] px[i])),
        ProcessedImage::NoColor(l) => forall|i: int|
            0 <= i < l.pixels@.len() ==> l.pixels@[i] == luma_of(#[trigger] px[i]),
        ProcessedImage::Color2(c) => forall|i: int|
            0 <= i < c.pixels@.len() ==> c.pixels@[i] == (RgbColor {
                red: px[i].r,
                green: px[i].g,
                blue: px[i].b,
            }),
    }
}

impl ProcessedImage {
    pub open spec fn kind(&self) -> ImageKind {
        match self {
            ProcessedImage::Color(_) => ImageKind::Color,
            ProcessedImage::Color2(_) => ImageKind::Color2,
            ProcessedImage::NoColor(_) => ImageKind::NoColor,
            ProcessedImage::Both(_, _) => ImageKind::Both,
        }
    }

    /// Every raster held is well formed, and the two of `Both` have one size.
    pub open spec fn wf(&self) -> bool {
        match self {
            ProcessedImage::Color(c) => c.wf(),
            ProcessedImage::Color2(c) => c.wf(),
            ProcessedImage::NoColor(l) => l.wf(),
            ProcessedImage::Both(c, l) => c.wf() && l.wf() && c.width == l.width
                && c.height == l.height,
        }
    }

    pub open spec fn spec_width(&self) -> u32 {
        match self {
            ProcessedImage::Color(c) => c.width,
            ProcessedImage::Color2(c) => c.width,
            ProcessedImage::NoColor(l) => l.width,
            ProcessedImage::Both(c, _) => c.width,
        }
    }

    pub open spec fn spec_height(&self) -> u32 {
        match self {
            ProcessedImage::Color(c) => c.height,
            ProcessedImage::Color2(c) => c.height,
            ProcessedImage::NoColor(l) => l.height,
            ProcessedImage::Both(c, _) => c.height,
        }
    }

    /// Extracts from `img` the representation that `mode` reads.
    pub fn new(mode: DisplayMode, img: &RgbaImage) -> (r: ProcessedImage)
        requires
            img.wf(),
        ensures
            r.kind() == mode.spec_expected_kind(),
            is_extraction(mode, img.width, img.height, img.pixels@, r),
    {
        match mode {
            DisplayMode::FullColor => ProcessedImage::Both(img.duplicate(), img.to_luma()),
            DisplayMode::SixelHalf | DisplayMode::SixelFull => ProcessedImage::Color2(img.to_rgb()),
            DisplayMode::HalfColor | DisplayMode::Kitty | DisplayMode::Iterm2
            | DisplayMode::WezTerm => ProcessedImage::Color(img.duplicate()),
            _ => ProcessedImage::NoColor(img.to_luma()),
        }
    }

    /// The RGBA raster, for `Color` and `Both`.
    pub fn rgba(&self) -> (r: Option<&RgbaImage>)
        ensures
            match self {
                ProcessedImage::Color(c) => r == Some(c),
                ProcessedImage::Both(c, _) => r == Some(c),
                _ => r is None,
            },
    {
        match self {
            ProcessedImage::Color(c) => Some(c),
            ProcessedImage::Both(c, _) => Some(c),
            _ => None,
        }
    }

    /// The RGB raster, for `Color2`.
    pub fn rgb(&self) -> (r: Option<&RgbImage>)
        ensures
            match self {
                ProcessedImage::Color2(c) => r == Some(c),
                _ => r is None,
            },
    {
        match self {
            ProcessedImage::Color2(c) => Some(c),
            _ => None,
        }
    }

    /// The luminance raster, for `NoColor` and `Both`.
    pub fn luma(&self) -> (r: Option<&GrayImage>)
        ensures
            match self {
                ProcessedImage::NoColor(l) => r == Some(l),
                ProcessedImage::Both(_, l) => r == Some(l),
                _ => r is None,
            },
    {
        match self {
            ProcessedImage::NoColor(l) => Some(l),
            ProcessedImage::Both(_, l) => Some(l),
            _ => None,
        }
    }

    /// Both rasters, for `Both`.
    pub fn both(&self) -> (r: Option<(&RgbaImage, &GrayImage)>)
        ensures
            match self {
                ProcessedImage::Both(c, l) => r == Some((c, l)),
                _ => r is None,
            },
    {
        match self {
            ProcessedImage::Both(c, l) => Some((c, l)),
            _ => None,
        }
    }

    pub fn is_color(&self) -> (r: bool)
        ensures
            r == (self.kind() == ImageKind::Color),
    {
        matches!(self, ProcessedImage::Color(_))
    }

    pub fn is_color2(&self) -> (r: bool)
        ensures
            r == (self.kind() == ImageKind::Color2),
    {
        matches!(self, ProcessedImage::Color2(_))
    }

    pub fn is_no_color(&self) -> (r: bool)
        ensures
            r == (self.kind() == ImageKind::NoColor),
    {
        matches!(self, ProcessedImage::NoColor(_))
    }

    pub fn is_both(&self) -> (r: bool)
        ensures
            r == (self.kind() == ImageKind::Both),
    {
        matches!(self, ProcessedImage::Both(_, _))
    }

    /// The shape of this representation.
    pub fn variant(&self) -> (r: ImageKind)
        ensures
            r == self.kind(),
    {
        match self {
            ProcessedImage::Color(_) => ImageKind::Color,
            ProcessedImage::Color2(_) => ImageKind::Color2,
            ProcessedImage::NoColor(_) => ImageKind::NoColor,
            ProcessedImage::Both(_, _) => ImageKind::Both,
        }
    }

    /// The name of this representation's shape.
    pub fn mode(&self) -> (r: &'static str)
        ensures
            r@ == crate::mode::kind_name(self.kind()),
    {
        self.variant().name()
    }

    /// The width of the raster held.
    pub fn width(&self) -> (r: u32)
        ensures
            r == self.spec_width(),
    {
        match self {
            ProcessedImage::Color(c) => c.width,
            ProcessedImage::Color2(c) => c.width,
            ProcessedImage::NoColor(l) => l.width,
            ProcessedImage::Both(c, _) => c.width,
        }
    }

    /// The height of the raster held.
    pub fn height(&self) -> (r: u32)
        ensures
            r == self.spec_height(),
    {
        match self {
            ProcessedImage::Color(c) => c.height,
            ProcessedImage::Color2(c) => c.height,
            ProcessedImage::NoColor(l) => l.height,
            ProcessedImage::Both(c, _) => c.height,
        }
    }
}

impl DisplayMode {
    /// Whether `img` has the shape that this mode's encoder reads.
    pub fn check_image_type(&self, img: &ProcessedImage) -> (r: bool)
        ensures
            r == (img.kind() == self.spec_expected_kind()),
    {
        match self {
            DisplayMode::FullColor => img.is_both(),
            DisplayMode::SixelHalf | DisplayMode::SixelFull => img.is_color2(),
            DisplayMode::HalfColor | DisplayMode::Kitty | DisplayMode::Iterm2
            | DisplayMode::WezTerm => img.is_color(),
            _ => img.is_no_color(),
        }
    }
}

} // verus!
