use vstd::prelude::*;
use crate::converter::{cell_line, cell_lines, encodes, odd_line, ImageConverter, ImageConverterOption};
use crate::error::ConvertError;
use crate::geometry::{auto_caps, fits_automatically, height_cap, place, placement, width_cap, width_target, TerminalSize};
use crate::mode::DisplayMode;
use crate::raster::{is_extraction, PixelColor, ProcessedImage, RgbaImage};
use crate::resize::{AutoResizeOption, ResizeMode};
use crate::text::repeat;

verus! {

/// The raster that the image codec's aspect-preserving `resize` gives: (width,
/// height, samples).
pub uninterp spec fn resize_of(width: u32, height: u32, pixels: Seq<PixelColor>, nwidth: u32, nheight: u32) -> (u32, u32, Seq<PixelColor>);

/// The samples that the image codec's `resize_exact` gives.
pub uninterp spec fn resize_exact_of(width: u32, height: u32, pixels: Seq<PixelColor>, nwidth: u32, nheight: u32) -> Seq<PixelColor>;

/// Relies on `image::DynamicImage::resize` with the Lanczos3 filter: the largest
/// size within the bounds that keeps the aspect ratio, at least one pixel a side.
#[verifier::external_body]
fn resize(img: &RgbaImage, nwidth: u32, nheight: u32) -> (r: RgbaImage)
    requires
        img.wf(),
        img.width > 0,
        img.height > 0,
        nwidth > 0,
        nheight > 0,
    ensures
        r.wf(),
        (r.width, r.height, r.pixels@) == resize_of(img.width, img.height, img.pixels@, nwidth, nheight),
        r.width > 0,
        r.height > 0,
{
    let raw: Vec<u8> = img.pixels.iter().flat_map(|p| [p.r, p.g, p.b, p.a]).collect();
    let buf = image::RgbaImage::from_raw(img.width, img.height, raw).unwrap();
    let out = image::DynamicImage::ImageRgba8(buf).resize(nwidth, nheight, image::imageops::FilterType::Lanczos3).to_rgba8();
    let pixels = out.pixels().map(|p| PixelColor::from_channels(p.0)).collect();
    RgbaImage { width: out.width(), height: out.height(), pixels }
}

/// Relies on `image::DynamicImage::resize_exact` with the Lanczos3 filter: a
/// raster of exactly the size asked for.
#[verifier::external_body]
fn resize_exact(img: &RgbaImage, nwidth: u32, nheight: u32) -> (r: RgbaImage)
    requires
        img.wf(),
        img.width > 0,
        img.height > 0,
        nwidth > 0,
        nheight > 0,
    ensures
        r.wf(),
        r.width == nwidth,
        r.height == nheight,
        r.pixels@ == resize_exact_of(img.width, img.height, img.pixels@, nwidth, nheight),
{
    let raw: Vec<u8> = img.pixels.iter().flat_map(|p| [p.r, p.g, p.b, p.a]).collect();
    let buf = image::RgbaImage::from_raw(img.width, img.height, raw).unwrap();
    let out = image::DynamicImage::ImageRgba8(buf).resize_exact(nwidth, nheight, image::imageops::FilterType::Lanczos3).to_rgba8();
    let pixels = out.pixels().map(|p| PixelColor::from_channels(p.0)).collect();
    RgbaImage { width: out.width(), height: out.height(), pixels }
}

/// Options of a render.
#[derive(Debug, Clone, Copy)]
pub struct ImageProcessorOptions {
    /// Whether one cell stands for two stacked samples.
    pub full: bool,
    /// Whether to centre the image in the terminal.
    pub center: bool,
    /// Whether Sixel quantization dithers.
    pub dither: bool,
    pub mode: DisplayMode,
    /// Whether character-cell lines force a black background.
    pub black_background: bool,
    pub resize_mode: ResizeMode,
    /// Whether character-cell lines leave out repeated colour escapes.
    pub enable_compression: bool,
    /// Palette size bound for Sixel.
    pub max_colors: u16,
}

impl Default for ImageProcessorOptions {
    fn default() -> (r: ImageProcessorOptions)
        ensures
            r.full && !r.center && r.dither && r.mode == DisplayMode::FullColor && !r.black_background
                && r.resize_mode == ResizeMode::Auto(AutoResizeOption { width: true, height: true })
                && r.enable_compression && r.max_colors == 256,
    {
        ImageProcessorOptions {
            full: true,
            center: false,
            dither: true,
            mode: DisplayMode::FullColor,
            black_background: false,
            resize_mode: ResizeMode::Auto(AutoResizeOption { width: true, height: true }),
            enable_compression: true,
            max_colors: 256,
        }
    }
}

impl ImageProcessorOptions {
    /// Options for `mode`, `resize` and `center`, with the other defaults.
    pub fn new(mode: DisplayMode, resize: ResizeMode, center: bool) -> (r: ImageProcessorOptions)
        ensures
            r.mode == mode && r.resize_mode == resize && r.center == center,
            r.full == mode.spec_is_full(),
            r.dither && !r.black_background && r.enable_compression && r.max_colors == 256,
    {
        ImageProcessorOptions {
            full: mode.is_full(),
            center,
            dither: true,
            mode,
            black_background: false,
            resize_mode: resize,
            enable_compression: true,
            max_colors: 256,
        }
    }

    pub fn option_display_mode(&mut self, mode: DisplayMode) -> (r: &mut ImageProcessorOptions)
        ensures
            *r == (ImageProcessorOptions { mode, full: mode.spec_is_full(), ..*old(self) }),
            *final(self) == *final(r),
    {
        self.mode = mode;
        self.full = mode.is_full();
        self
    }

    pub fn option_resize(&mut self, resize: ResizeMode) -> (r: &mut ImageProcessorOptions)
        ensures
            *r == (ImageProcessorOptions { resize_mode: resize, ..*old(self) }),
            *final(self) == *final(r),
    {
        self.resize_mode = resize;
        self
    }

    pub fn option_center(&mut self, center: bool) -> (r: &mut ImageProcessorOptions)
        ensures
            *r == (ImageProcessorOptions { center, ..*old(self) }),
            *final(self) == *final(r),
    {
        self.center = center;
        self
    }

    pub fn option_black_background(&mut self, enabled: bool) -> (r: &mut ImageProcessorOptions)
        ensures
            *r == (ImageProcessorOptions { black_background: enabled, ..*old(self) }),
            *final(self) == *final(r),
    {
        self.black_background = enabled;
        self
    }

    pub fn option_compression(&mut self, enabled: bool) -> (r: &mut ImageProcessorOptions)
        ensures
            *r == (ImageProcessorOptions { enable_compression: enabled, ..*old(self) }),
            *final(self) == *final(r),
    {
        self.enable_compression = enabled;
        self
    }

    pub fn option_max_colors(&mut self, max_colors: u16) -> (r: &mut ImageProcessorOptions)
        ensures
            *r == (ImageProcessorOptions { max_colors, ..*old(self) }),
            *final(self) == *final(r),
    {
        self.max_colors = max_colors;
        self
    }

    pub fn option_dither(&mut self, enabled: bool) -> (r: &mut ImageProcessorOptions)
        ensures
            *r == (ImageProcessorOptions { dither: enabled, ..*old(self) }),
            *final(self) == *final(r),
    {
        self.dither = enabled;
        self
    }

    pub fn get_options(&self) -> (r: ImageProcessorOptions)
        ensures
            r == *self,
    {
        *self
    }
}

/// The size that an image has after the resize step: (width, height, samples).
pub open spec fn fitted(opt: ImageProcessorOptions, term: TerminalSize, w: u32, h: u32, px: Seq<PixelColor>) -> (u32, u32, Seq<PixelColor>) {
    match opt.resize_mode {
        ResizeMode::Auto(o) => if fits_automatically(opt.mode) {
            let wc = width_cap(opt.mode, opt.full, term.cols as int);
            let wt = width_target(opt.mode, opt.full, term.cols as int);
            let hc = height_cap(opt.mode, opt.full, term.rows as int);
            let first = if o.width && w > wc {
                resize_of(w, h, px, wt as u32, h)
            } else {
                (w, h, px)
            };
            if o.height && first.1 > hc {
                resize_of(first.0, first.1, first.2, first.0, hc as u32)
            } else {
                first
            }
        } else {
            (w, h, px)
        },
        ResizeMode::Custom(c) => if c.width is Some || c.height is Some {
            let nw = match c.width { Some(v) => v, Option::None => w };
            let nh = match c.height { Some(v) => v, Option::None => h };
            (nw, nh, resize_exact_of(w, h, px, nw, nh))
        } else {
            (w, h, px)
        },
        ResizeMode::Keep => (w, h, px),
    }
}

/// `c` is the converter that a render with `opt` on a terminal of size `term`
/// sets up for the fitted raster `fit`, placed with line prefix `prefix`.
pub open spec fn prepared(
    c: ImageConverter,
    opt: ImageProcessorOptions,
    term: TerminalSize,
    fit: (u32, u32, Seq<PixelColor>),
    prefix: Seq<char>,
) -> bool {
    &&& c.wf()
    &&& is_extraction(opt.mode, fit.0, fit.1, fit.2, c.img)
    &&& c.option.center == opt.center
    &&& c.option.width == fit.0
    &&& c.option.height == fit.1
    &&& c.option.dither == opt.dither
    &&& c.option.line_init@ == prefix
    &&& c.option.mode == opt.mode
    &&& c.option.black_background == opt.black_background
    &&& c.option.enable_compression == opt.enable_compression
    &&& c.option.max_colors == opt.max_colors
    &&& c.option.terminal == term
}

/// The outcome of a render.
pub struct ImageProcessorResult {
    /// Width of the rendered raster in pixels.
    pub width: u32,
    /// Height of the rendered raster in pixels.
    pub height: u32,
    /// Blank lines to print before the image.
    pub air_lines: usize,
    /// The encoded lines.
    pub lines: Vec<String>,
    /// The options used.
    pub option: ImageProcessorOptions,
}

/// Printable form of a result: the blank lines, then the lines joined by newlines.
pub struct ImageProcessorResultDisplay {
    pub air_lines: usize,
    pub lines: Vec<String>,
}

/// `lines` joined with newlines.
pub open spec fn joined(lines: Seq<Seq<char>>) -> Seq<char>
    decreases lines.len(),
{
    if lines.len() == 0 {
        Seq::empty()
    } else if lines.len() == 1 {
        lines[0]
    } else {
        joined(lines.drop_last()) + "\n"@ + lines.last()
    }
}

impl ImageProcessorResultDisplay {
    pub fn new(air_lines: usize, lines: Vec<String>) -> (r: ImageProcessorResultDisplay)
        ensures
            r.air_lines == air_lines,
            r.lines == lines,
    {
        ImageProcessorResultDisplay { air_lines, lines }
    }

    /// The text to print.
    pub fn to_string(&self) -> (s: String)
        ensures
            s@ == repeat("\n"@, self.air_lines as nat) + joined(self.lines@.map_values(|l: String| l@)),
    {
        let mut s = String::new();
        crate::text::push_repeat(&mut s, "\n", self.air_lines);
        let ghost head = s@;
        let mut i: usize = 0;
        while i < self.lines.len()
            invariant
                i <= self.lines@.len(),
                s@ == head + joined(self.lines@.subrange(0, i as int).map_values(|l: String| l@)),
            decreases self.lines@.len() - i,
        {
            let ghost before = s@;
            if i > 0 {
                s.append("\n");
            }
            s.append(self.lines[i].as_str());
            i = i + 1;
            proof {
                let prev = self.lines@.subrange(0, i - 1).map_values(|l: String| l@);
                let cur = self.lines@.subrange(0, i as int).map_values(|l: String| l@);
                assert(cur.drop_last() =~= prev);
                assert(cur.last() == self.lines@[i - 1]@);
                if i == 1 {
                    assert(prev =~= Seq::<Seq<char>>::empty());
                }
                assert(s@ =~= head + joined(cur));
            }
        }
        proof {
            assert(self.lines@.subrange(0, self.lines@.len() as int) =~= self.lines@);
        }
        s
    }
}

impl ImageProcessorResult {
    /// The printable form of the result.
    pub fn display(&self) -> (r: ImageProcessorResultDisplay)
        ensures
            r.air_lines == self.air_lines,
            r.lines@.len() == self.lines@.len(),
            forall|i: int| 0 <= i < r.lines@.len() ==> #[trigger] r.lines@[i]@ == self.lines@[i]@,
    {
        let mut lines: Vec<String> = Vec::new();
        let mut i: usize = 0;
        while i < self.lines.len()
            invariant
                i <= self.lines@.len(),
                lines@.len() == i,
                forall|j: int| 0 <= j < i ==> #[trigger] lines@[j]@ == self.lines@[j]@,
            decreases self.lines@.len() - i,
        {
            lines.push(self.lines[i].clone());
            i = i + 1;
        }
        ImageProcessorResultDisplay::new(self.air_lines, lines)
    }
}

/// Renders one image with its options.
pub struct ImageProcessor {
    pub image: RgbaImage,
    pub option: ImageProcessorOptions,
}

impl ImageProcessor {
    pub fn new(image: RgbaImage, option: ImageProcessorOptions) -> (r: ImageProcessor)
        ensures
            r.image == image,
            r.option == option,
    {
        ImageProcessor { image, option }
    }

    /// Resizes the image as the resize mode asks for a terminal of size `term`;
    /// false, with the image left alone, when an exact size with a zero side is
    /// asked for.
    fn fit(&mut self, term: TerminalSize) -> (ok: bool)
        requires
            old(self).image.wf(),
            old(self).image.width > 0,
            old(self).image.height > 0,
            term.cols > 0,
            term.rows > 0,
        ensures
            final(self).option == old(self).option,
            final(self).image.wf(),
            ({
                let fit = fitted(old(self).option, term, old(self).image.width, old(self).image.height, old(self).image.pixels@);
                &&& ok == (fit.0 > 0 && fit.1 > 0)
                &&& ok ==> final(self).image.width == fit.0 && final(self).image.height == fit.1
                    && final(self).image.pixels@ == fit.2
            }),
    {
        let opt = self.option;
        match opt.resize_mode {
            ResizeMode::Auto(o) => {
                if opt.mode.is_normal() || opt.mode.is_sixel() {
                    let (wc, wt, hc) = auto_caps(opt.mode, opt.full, term);
                    if o.width && self.image.width > wc {
                        self.image = resize(&self.image, wt, self.image.height);
                    }
                    if o.height && self.image.height > hc {
                        self.image = resize(&self.image, self.image.width, hc);
                    }
                }
                true
            },
            ResizeMode::Custom(c) => {
                if c.width.is_some() || c.height.is_some() {
                    let nw = match c.width { Some(v) => v, Option::None => self.image.width };
                    let nh = match c.height { Some(v) => v, Option::None => self.image.height };
                    if nw == 0 || nh == 0 {
                        return false;
                    }
                    self.image = resize_exact(&self.image, nw, nh);
                }
                true
            },
            ResizeMode::Keep => true,
        }
    }

    /// Resizes the image as the options say for a terminal of size `term`, places
    /// it, and encodes it.
    ///
    /// Fails with `GetTerminalSizeError` when the terminal has no cell, with
    /// `EmptyData` when the image, or the size asked for, has no pixel, and
    /// otherwise as `ImageConverter::convert` does.
    pub fn process(&mut self, term: TerminalSize) -> (r: Result<ImageProcessorResult, ConvertError>)
        requires
            old(self).image.wf(),
        ensures
            final(self).option == old(self).option,
            final(self).image.wf(),
            (term.cols == 0 || term.rows == 0) ==> r is Err && r->Err_0 is GetTerminalSizeError,
            (term.cols > 0 && term.rows > 0 && (old(self).image.width == 0 || old(self).image.height == 0))
                ==> r is Err && r->Err_0 is EmptyData,
            ({
                let fit = fitted(old(self).option, term, old(self).image.width, old(self).image.height, old(self).image.pixels@);
                term.cols > 0 && term.rows > 0 && (fit.0 == 0 || fit.1 == 0)
            }) ==> r is Err && r->Err_0 is EmptyData,
            ({
                let fit = fitted(old(self).option, term, old(self).image.width, old(self).image.height, old(self).image.pixels@);
                r is Err && term.cols > 0 && term.rows > 0 && old(self).image.width > 0 && old(self).image.height > 0
                    && fit.0 > 0 && fit.1 > 0
            }) ==> {
                let fit = fitted(old(self).option, term, old(self).image.width, old(self).image.height, old(self).image.pixels@);
                let place = placement(old(self).option.center, old(self).option.mode, old(self).option.full, term, fit.0, fit.1);
                exists|c: ImageConverter| #[trigger] prepared(c, old(self).option, term, fit, place.1) && encodes(c, Err(r->Err_0))
            },
            r is Ok ==> {
                let fit = fitted(old(self).option, term, old(self).image.width, old(self).image.height, old(self).image.pixels@);
                let place = placement(old(self).option.center, old(self).option.mode, old(self).option.full, term, fit.0, fit.1);
                &&& r->Ok_0.width == fit.0
                &&& r->Ok_0.height == fit.1
                &&& final(self).image.pixels@ == fit.2
                &&& r->Ok_0.air_lines == place.0
                &&& r->Ok_0.option == old(self).option
                &&& exists|c: ImageConverter| #[trigger] prepared(c, old(self).option, term, fit, place.1)
                    && encodes(c, Ok(r->Ok_0.lines))
                &&& old(self).option.mode.spec_is_normal() ==> {
                    &&& r->Ok_0.lines@.len() == if old(self).option.mode.spec_is_full() {
                        fit.1 / 2 + fit.1 % 2
                    } else {
                        fit.1 as int
                    }
                    &&& forall|i: int| 0 <= i < r->Ok_0.lines@.len() ==> (#[trigger] r->Ok_0.lines@[i])@.len() >= place.1.len()
                        && r->Ok_0.lines@[i]@.subrange(0, place.1.len() as int) == place.1
                }
            },
    {
        if term.cols == 0 || term.rows == 0 {
            return Err(ConvertError::GetTerminalSizeError);
        }
        if self.image.width == 0 || self.image.height == 0 {
            return Err(ConvertError::EmptyData);
        }
        let opt = self.option;
        let ghost w0 = self.image.width;
        let ghost h0 = self.image.height;
        let ghost p0 = self.image.pixels@;
        if !self.fit(term) {
            return Err(ConvertError::EmptyData);
        }
        let w = self.image.width;
        let h = self.image.height;
        let (air_lines, line_init) = place(opt.center, opt.mode, opt.full, term, w, h);
        let converter = ImageConverter::new(
            ProcessedImage::new(opt.mode, &self.image),
            ImageConverterOption {
                center: opt.center,
                width: w,
                height: h,
                dither: opt.dither,
                line_init,
                mode: opt.mode,
                black_background: opt.black_background,
                enable_compression: opt.enable_compression,
                max_colors: opt.max_colors,
                terminal: term,
            },
        );
        let converted = converter.convert();
        let lines = match converted {
            Ok(lines) => lines,
            Err(e) => {
                proof {
                    assert(prepared(
                        converter,
                        opt,
                        term,
                        fitted(opt, term, w0, h0, p0),
                        placement(opt.center, opt.mode, opt.full, term, w, h).1,
                    ));
                }
                return Err(e);
            },
        };
        proof {
            assert(prepared(
                converter,
                opt,
                term,
                fitted(opt, term, w0, h0, p0),
                placement(opt.center, opt.mode, opt.full, term, w, h).1,
            ));
            assert(encodes(converter, Ok(lines)));
            if opt.mode.spec_is_normal() {
                let o = converter.option;
                let cl = cell_lines(o, converter.img);
                assert forall|i: int| 0 <= i < lines@.len() implies (#[trigger] lines@[i])@.len() >= o.line_init@.len()
                    && lines@[i]@.subrange(0, o.line_init@.len() as int) == o.line_init@ by {
                    assert(lines@[i]@ == cl[i]);
                    let n = if opt.mode.spec_is_full() { h / 2 } else { h };
                    if i < n {
                        assert(cl[i] == cell_line(o, converter.img, i));
                    } else {
                        assert(cl[i] == odd_line(o, converter.img));
                    }
                    assert(cl[i].subrange(0, o.line_init@.len() as int) =~= o.line_init@);
                }
            }
        }
        Ok(ImageProcessorResult { width: w, height: h, air_lines, lines, option: opt })
    }
}

/// Automatic fitting leaves an image that is already within the caps of its
/// display mode unchanged: same size, same samples.
pub proof fn auto_fit_within_caps_is_identity(
    opt: ImageProcessorOptions,
    term: TerminalSize,
    w: u32,
    h: u32,
    px: Seq<PixelColor>,
)
    requires
        opt.resize_mode is Auto,
        !opt.resize_mode->Auto_0.width || w <= width_cap(opt.mode, opt.full, term.cols as int),
        !opt.resize_mode->Auto_0.height || h <= height_cap(opt.mode, opt.full, term.rows as int),
    ensures
        fitted(opt, term, w, h, px) == (w, h, px),
{
}

} // verus!
