use vstd::prelude::*;
use crate::cells::{
    ascii_row_seq, full_row_seq, half_row_seq, odd_color_row_seq, odd_luma_row_seq, push_ascii_row,
    push_full_row, push_half_row, push_odd_color_row, push_odd_luma_row,
};
use crate::codec::{
    base64_encode, base64_of, describe_image_error, encode_png_luma, encode_png_rgba, png_luma_of,
    png_rgba_of,
};
use crate::error::{ConvertError, ConvertErrorContext, ConvertErrorContextSource};
use crate::geometry::TerminalSize;
use crate::mode::{kind_name, DisplayMode};
use crate::indexed::IndexedImage;
use crate::raster::ProcessedImage;
use crate::sixel::{is_sixel_of, sixel_encode};
use crate::text::{black_bg_seq, dec, push_dec, reset_seq};

verus! {

/// Raw bytes per Kitty chunk: their Base64 text is at most 4096 bytes.
pub const KITTY_CHUNK: usize = 3072;

/// Options of a conversion.
pub struct ImageConverterOption {
    /// Whether the caller centres the image itself.
    pub center: bool,
    /// Width of the raster in pixels.
    pub width: u32,
    /// Height of the raster in pixels.
    pub height: u32,
    /// Whether Sixel quantization dithers.
    pub dither: bool,
    /// Text that starts every line: centring spaces or a cursor escape.
    pub line_init: String,
    pub mode: DisplayMode,
    /// Whether character-cell lines force a black background.
    pub black_background: bool,
    /// Whether character-cell lines leave out repeated colour escapes.
    pub enable_compression: bool,
    /// Palette size bound for Sixel.
    pub max_colors: u16,
    /// The terminal's size, or zero when unknown; it sizes iTerm2 and WezTerm images.
    pub terminal: TerminalSize,
}

/// Whether the strings of `v` have the texts of `s`, in order.
pub open spec fn lines_are(v: Seq<String>, s: Seq<Seq<char>>) -> bool {
    v.len() == s.len() && forall|i: int| 0 <= i < v.len() ==> #[trigger] v[i]@ == s[i]
}

/// The cells of character-cell output row `y`.
pub open spec fn row_body(mode: DisplayMode, img: ProcessedImage, y: int, compress: bool) -> Seq<char> {
    match mode {
        DisplayMode::FullColor => match img {
            ProcessedImage::Both(c, l) => full_row_seq(c, l, y, compress, c.width as nat),
            _ => Seq::empty(),
        },
        DisplayMode::HalfColor => match img {
            ProcessedImage::Color(c) => half_row_seq(c, y, compress, c.width as nat),
            _ => Seq::empty(),
        },
        DisplayMode::FullNoColor => match img {
            ProcessedImage::NoColor(l) => ascii_row_seq(l, y, l.width as nat),
            _ => Seq::empty(),
        },
        _ => Seq::empty(),
    }
}

pub open spec fn color_tail(mode: DisplayMode) -> Seq<char> {
    if mode.spec_is_color() {
        reset_seq()
    } else {
        Seq::empty()
    }
}

/// Output row `y`: the line prefix, the black background escape if asked for,
/// the cells, and a reset in colour modes.
pub open spec fn cell_line(opt: ImageConverterOption, img: ProcessedImage, y: int) -> Seq<char> {
    opt.line_init@ + (if opt.black_background {
        black_bg_seq()
    } else {
        Seq::empty()
    }) + row_body(opt.mode, img, y, opt.enable_compression) + color_tail(opt.mode)
}

/// The last line of an odd-height raster in a full mode: one sample per cell.
pub open spec fn odd_line(opt: ImageConverterOption, img: ProcessedImage) -> Seq<char> {
    opt.line_init@ + (if opt.black_background {
        black_bg_seq()
    } else {
        Seq::empty()
    }) + match img {
        ProcessedImage::Both(c, _) => odd_color_row_seq(c, c.height - 1, c.width as nat),
        ProcessedImage::NoColor(l) => odd_luma_row_seq(l, l.height - 1, l.width as nat),
        _ => Seq::empty(),
    } + color_tail(opt.mode)
}

/// All lines of a character-cell conversion.
pub open spec fn cell_lines(opt: ImageConverterOption, img: ProcessedImage) -> Seq<Seq<char>> {
    let full = opt.mode.spec_is_full();
    let h = opt.height as int;
    let n = if full { h / 2 } else { h };
    let main = Seq::new(n as nat, |y: int| cell_line(opt, img, y));
    if full && h % 2 == 1 {
        main.push(odd_line(opt, img))
    } else {
        main
    }
}

/// The PNG file of the raster that a binary protocol sends.
pub open spec fn png_of(img: ProcessedImage) -> Seq<u8> {
    match img {
        ProcessedImage::Color(c) => png_rgba_of(c.width, c.height, c.pixels@),
        ProcessedImage::NoColor(l) => png_luma_of(l.width, l.height, l.pixels@),
        _ => Seq::empty(),
    }
}

/// Number of Kitty chunks for a payload of `s` bytes.
pub open spec fn kitty_chunk_count(s: nat) -> nat {
    if s == 0 {
        1
    } else {
        ((s + 3071) / 3072) as nat
    }
}

/// Raw bytes of Kitty chunk `i`.
pub open spec fn kitty_chunk(data: Seq<u8>, i: int) -> Seq<u8> {
    let end = if 3072 * (i + 1) < data.len() {
        3072 * (i + 1)
    } else {
        data.len() as int
    };
    data.subrange(3072 * i, end)
}

/// The `m=` flag of chunk `i` of `k`: 1 while more chunks follow, 0 on the last.
pub open spec fn kitty_flag(k: nat, i: int) -> Seq<char> {
    if i + 1 < k {
        "1"@
    } else {
        "0"@
    }
}

/// The APC escape of Kitty chunk `i`; the first carries the control data.
pub open spec fn kitty_piece(line_init: Seq<char>, w: u32, h: u32, data: Seq<u8>, i: int) -> Seq<char> {
    let k = kitty_chunk_count(data.len());
    if i == 0 {
        line_init + "\x1b_Gm="@ + kitty_flag(k, 0) + ",a=T,f=100,s="@ + dec(w as nat) + ",v="@
            + dec(h as nat) + ",S="@ + dec(data.len()) + ";"@ + base64_of(kitty_chunk(data, 0))
            + "\x1b\\"@
    } else {
        "\x1b_Gm="@ + kitty_flag(k, i) + ";"@ + base64_of(kitty_chunk(data, i)) + "\x1b\\"@
    }
}

/// The first `n` Kitty chunk escapes.
pub open spec fn kitty_text(line_init: Seq<char>, w: u32, h: u32, data: Seq<u8>, n: nat) -> Seq<char>
    decreases n,
{
    if n == 0 {
        Seq::empty()
    } else {
        kitty_text(line_init, w, h, data, (n - 1) as nat) + kitty_piece(line_init, w, h, data, n - 1)
    }
}

/// The `width=` or `height=` hint that fits the image to the terminal: height when
/// the image's aspect ratio is below the terminal's (half its columns over its rows).
pub open spec fn size_hint(w: u32, h: u32, term: TerminalSize) -> Seq<char> {
    let tw = (term.cols / 2) as int;
    let th = term.rows as int;
    if (w as int) * th < tw * (h as int) {
        "height="@ + dec(th as nat)
    } else {
        "width="@ + dec(tw as nat)
    }
}

/// The OSC 1337 inline-image escape, ended by `end`.
pub open spec fn osc_line(opt: ImageConverterOption, data: Seq<u8>, end: Seq<char>) -> Seq<char> {
    if opt.center {
        "\x1b]1337;File=size="@ + dec(data.len()) + ";inline=1:"@ + base64_of(data) + end
    } else {
        opt.line_init@ + "\x1b]1337;File=size="@ + dec(data.len()) + ";"@ + size_hint(
            opt.width,
            opt.height,
            opt.terminal,
        ) + ";inline=1:"@ + base64_of(data) + end
    }
}

/// What `convert` returns for converter `c`: `WrongImageType` exactly when the
/// raster's shape is not the one the mode reads, `EmptyData` when it holds no
/// pixel, the character-cell lines of `cell_lines` for the plain modes, and the
/// protocol payload lines over the PNG file of the raster, or the codec's or the
/// quantizer's failure, for the others.
pub open spec fn encodes(c: ImageConverter, r: Result<Vec<String>, ConvertError>) -> bool {
    &&& (c.img.kind() != c.option.mode.spec_expected_kind() ==> r is Err
        && r->Err_0 is WrongImageType
        && r->Err_0->expect_type@ == kind_name(c.option.mode.spec_expected_kind())
        && r->Err_0->actual_type@ == kind_name(c.img.kind()))
    &&& (c.img.kind() == c.option.mode.spec_expected_kind() && (c.option.width == 0
        || c.option.height == 0) ==> r is Err && r->Err_0 is EmptyData)
    &&& (c.img.kind() == c.option.mode.spec_expected_kind() && c.option.width > 0
        && c.option.height > 0 ==> {
        let mode = c.option.mode;
        let data = png_of(c.img);
        &&& mode.spec_is_normal() ==> r is Ok && lines_are(r->Ok_0@, cell_lines(c.option, c.img))
        &&& (mode is Kitty || mode is KittyNoColor) ==> (r is Ok ==> lines_are(
            r->Ok_0@,
            seq![kitty_text(c.option.line_init@, c.option.width, c.option.height, data, kitty_chunk_count(data.len()))],
        )) && (r is Err ==> r->Err_0 is ImageError) && (r is Ok <==> data.len() < usize::MAX / 8)
        &&& (mode is Iterm2 || mode is Iterm2NoColor) ==> (r is Ok ==> lines_are(
            r->Ok_0@,
            seq![" "@, osc_line(c.option, data, "\x07"@)],
        )) && (r is Err ==> r->Err_0 is ImageError) && (r is Ok <==> data.len() < usize::MAX / 8)
        &&& (mode is WezTerm || mode is WezTermNoColor) ==> (r is Ok ==> lines_are(
            r->Ok_0@,
            seq![" "@, osc_line(c.option, data, "\x1b\\"@)],
        )) && (r is Err ==> r->Err_0 is ImageError) && (r is Ok <==> data.len() < usize::MAX / 8)
        &&& mode.spec_is_sixel() ==> (r is Ok ==> sixel_lines(c.option, r->Ok_0@))
            && (r is Err ==> r->Err_0 is AboveMaxLength || r->Err_0 is ImageError)
            && sixel_outcome(c.option, r)
    })
}

/// The Sixel lines: the DECSIXEL encoding of an indexed image of the raster's
/// size (the quantizer's output), then a line of one space.
pub open spec fn sixel_lines(opt: ImageConverterOption, lines: Seq<String>) -> bool {
    &&& lines.len() == 2
    &&& lines[1]@ == " "@
    &&& exists|q: IndexedImage| q.wf() && q.width == opt.width && q.height == opt.height
        && #[trigger] is_sixel_of(q, opt.mode is SixelFull, lines[0]@)
}

/// When Sixel encoding succeeds: it fails with `AboveMaxLength` for a raster wider
/// than a quarter of `u32::MAX` or with more than `u32::MAX` pixels (the
/// quantizer's limit), with `ImageError` for a palette bound of zero, and
/// succeeds otherwise.
pub open spec fn sixel_outcome(opt: ImageConverterOption, r: Result<Vec<String>, ConvertError>) -> bool {
    let pixels = opt.width as int * opt.height as int;
    &&& opt.width > u32::MAX / 4 ==> r is Err && r->Err_0 is AboveMaxLength
    &&& opt.width <= u32::MAX / 4 && pixels > u32::MAX ==> r is Err && r->Err_0 is AboveMaxLength
    &&& opt.width <= u32::MAX / 4 && pixels <= u32::MAX && opt.max_colors == 0 && pixels > 0 ==> r is Err
        && r->Err_0 is ImageError
    &&& opt.width <= u32::MAX / 4 && pixels <= u32::MAX && opt.max_colors > 0 ==> r is Ok
}

/// Converts a processed raster into terminal output.
pub struct ImageConverter {
    /// Whether one cell stands for two stacked samples.
    pub full: bool,
    /// The raster to convert.
    pub img: ProcessedImage,
    pub option: ImageConverterOption,
}

/// A product of a 32-bit and a 16-bit quantity fits in 64 bits.
pub proof fn lemma_mul_small(a: int, b: int)
    requires
        0 <= a <= u32::MAX,
        0 <= b <= u16::MAX,
    ensures
        0 <= a * b <= u32::MAX * u16::MAX,
        0 <= b * a <= u32::MAX * u16::MAX,
{
    assert(0 <= a * b <= u32::MAX * u16::MAX) by (nonlinear_arith)
        requires
            0 <= a <= u32::MAX,
            0 <= b <= u16::MAX,
    ;
}

fn copy_range(data: &Vec<u8>, start: usize, end: usize) -> (r: Vec<u8>)
    requires
        start <= end <= data@.len(),
    ensures
        r@ == data@.subrange(start as int, end as int),
{
    let mut r: Vec<u8> = Vec::new();
    let mut i = start;
    while i < end
        invariant
            start <= i <= end <= data@.len(),
            r@ == data@.subrange(start as int, i as int),
        decreases end - i,
    {
        r.push(data[i]);
        i = i + 1;
        proof {
            assert(r@ =~= data@.subrange(start as int, i as int));
        }
    }
    r
}

impl ImageConverter {
    pub open spec fn wf(&self) -> bool {
        &&& self.img.wf()
        &&& self.option.width == self.img.spec_width()
        &&& self.option.height == self.img.spec_height()
        &&& self.full == self.option.mode.spec_is_full()
    }

    pub open spec fn spec_img(&self) -> ProcessedImage {
        self.img
    }

    /// A converter of `img` with `option`, whose size must be the raster's.
    pub fn new(img: ProcessedImage, option: ImageConverterOption) -> (r: ImageConverter)
        requires
            img.wf(),
            option.width == img.spec_width(),
            option.height == img.spec_height(),
        ensures
            r.wf(),
            r.spec_img() == img,
            r.option == option,
    {
        let full = option.mode.is_full();
        ImageConverter { full, img, option }
    }

    fn push_row(&self, line: &mut String, y: u32)
        requires
            self.wf(),
            self.img.kind() == self.option.mode.spec_expected_kind(),
            (if self.full { 2 * y + 1 } else { y as int }) < self.option.height,
        ensures
            final(line)@ == old(line)@ + row_body(self.option.mode, self.img, y as int, self.option.enable_compression),
    {
        let compress = self.option.enable_compression;
        match self.option.mode {
            DisplayMode::FullColor => match &self.img {
                ProcessedImage::Both(c, l) => push_full_row(line, c, l, y, compress),
                _ => {},
            },
            DisplayMode::HalfColor => match &self.img {
                ProcessedImage::Color(c) => push_half_row(line, c, y, compress),
                _ => {},
            },
            DisplayMode::FullNoColor => match &self.img {
                ProcessedImage::NoColor(l) => push_ascii_row(line, l, y),
                _ => {},
            },
            _ => {},
        }
        proof {
            assert(final(line)@ =~= old(line)@ + row_body(self.option.mode, self.img, y as int, compress));
        }
    }

    /// Character-cell encoding of every row.
    fn cell_convert(&self) -> (r: Vec<String>)
        requires
            self.wf(),
            self.img.kind() == self.option.mode.spec_expected_kind(),
            self.option.mode.spec_is_normal(),
        ensures
            lines_are(r@, cell_lines(self.option, self.img)),
    {
        let h = self.option.height;
        let n: u32 = if self.full { h / 2 } else { h };
        let mut lines: Vec<String> = Vec::new();
        let mut y: u32 = 0;
        while y < n
            invariant
                self.wf(),
                self.img.kind() == self.option.mode.spec_expected_kind(),
                n == (if self.full { h / 2 } else { h }),
                h == self.option.height,
                y <= n,
                lines@.len() == y,
                forall|i: int| 0 <= i < y ==> #[trigger] lines@[i]@ == cell_line(self.option, self.img, i),
            decreases n - y,
        {
            let mut line = self.option.line_init.clone();
            if self.option.black_background {
                line.append("\x1b[40m");
            }
            self.push_row(&mut line, y);
            if self.option.mode.is_color() {
                line.append("\x1b[0m");
            }
            proof {
                assert(line@ =~= cell_line(self.option, self.img, y as int));
            }
            lines.push(line);
            y = y + 1;
        }
        if self.full && h % 2 == 1 {
            let mut line = self.option.line_init.clone();
            if self.option.black_background {
                line.append("\x1b[40m");
            }
            match &self.img {
                ProcessedImage::Both(c, _) => push_odd_color_row(&mut line, c, h - 1),
                ProcessedImage::NoColor(l) => push_odd_luma_row(&mut line, l, h - 1),
                _ => {},
            }
            if self.option.mode.is_color() {
                line.append("\x1b[0m");
            }
            proof {
                assert(line@ =~= odd_line(self.option, self.img));
            }
            lines.push(line);
        }
        proof {
            let s = cell_lines(self.option, self.img);
            assert(lines@.len() == s.len());
            assert forall|i: int| 0 <= i < lines@.len() implies #[trigger] lines@[i]@ == s[i] by {
                if i < n {
                } else {
                }
            }
        }
        lines
    }

    /// The PNG file of the raster, for the binary protocols.
    fn get_image_data(&self) -> (r: Result<Vec<u8>, ConvertError>)
        requires
            self.wf(),
            self.img is Color || self.img is NoColor,
        ensures
            r is Ok ==> r->Ok_0@ == png_of(self.img),
            r is Err ==> r->Err_0 is ImageError,
            self.option.width > 0 && self.option.height > 0 ==> r is Ok,
    {
        let res = match &self.img {
            ProcessedImage::Color(c) => encode_png_rgba(c),
            ProcessedImage::NoColor(l) => encode_png_luma(l),
            _ => {
                proof {
                    assert(false);
                }
                return Err(ConvertError::EmptyData);
            },
        };
        match res {
            Ok(data) => Ok(data),
            Err(e) => {
                let ctx = ConvertErrorContext::new(
                    ConvertErrorContextSource::Function(String::from_str("get_image_data")),
                    String::from_str("failed to encode the image as PNG"),
                );
                Err(ConvertError::ImageError(ctx.with_inner(describe_image_error(&e))))
            },
        }
    }

    /// The Kitty escapes for `data`.
    fn kitty_text(&self, data: &Vec<u8>) -> (r: String)
        requires
            data@.len() < usize::MAX / 8,
        ensures
            r@ == kitty_text(
                self.option.line_init@,
                self.option.width,
                self.option.height,
                data@,
                kitty_chunk_count(data@.len()),
            ),
    {
        let len = data.len();
        let k: usize = if len == 0 { 1 } else { (len + 3071) / 3072 };
        let mut out = String::new();
        let mut i: usize = 0;
        while i < k
            invariant
                len == data@.len(),
                len < usize::MAX / 8,
                k == kitty_chunk_count(len as nat),
                i <= k,
                out@ == kitty_text(self.option.line_init@, self.option.width, self.option.height, data@, i as nat),
            decreases k - i,
        {
            proof {
                if len > 0 {
                    assert(3072 * i <= len) by (nonlinear_arith)
                        requires
                            i < k,
                            k == (len + 3071) / 3072,
                    ;
                }
            }
            let start: usize = KITTY_CHUNK * i;
            let end: usize = if KITTY_CHUNK * (i + 1) < len { KITTY_CHUNK * (i + 1) } else { len };
            let chunk = copy_range(data, start, end);
            let encoded = base64_encode(&chunk);
            let flag = if i + 1 < k { "1" } else { "0" };
            let ghost before = out@;
            if i == 0 {
                out.append(self.option.line_init.as_str());
                out.append("\x1b_Gm=");
                out.append(flag);
                out.append(",a=T,f=100,s=");
                push_dec(&mut out, self.option.width as u64);
                out.append(",v=");
                push_dec(&mut out, self.option.height as u64);
                out.append(",S=");
                push_dec(&mut out, len as u64);
                out.append(";");
            } else {
                out.append("\x1b_Gm=");
                out.append(flag);
                out.append(";");
            }
            out.append(encoded.as_str());
            out.append("\x1b\\");
            proof {
                assert(chunk@ == kitty_chunk(data@, i as int));
                assert(out@ =~= before + kitty_piece(
                    self.option.line_init@,
                    self.option.width,
                    self.option.height,
                    data@,
                    i as int,
                ));
            }
            i = i + 1;
        }
        out
    }

    /// The OSC 1337 inline-image line for `data`, ended by `end`.
    fn osc_text(&self, data: &Vec<u8>, end: &str) -> (r: String)
        requires
            data@.len() < usize::MAX / 8,
        ensures
            r@ == osc_line(self.option, data@, end@),
    {
        let encoded = base64_encode(data);
        let mut out = String::new();
        if self.option.center {
            out.append("\x1b]1337;File=size=");
            push_dec(&mut out, data.len() as u64);
            out.append(";inline=1:");
        } else {
            out.append(self.option.line_init.as_str());
            out.append("\x1b]1337;File=size=");
            push_dec(&mut out, data.len() as u64);
            out.append(";");
            let tw: u64 = (self.option.terminal.cols / 2) as u64;
            let th: u64 = self.option.terminal.rows as u64;
            proof {
                lemma_mul_small(self.option.width as int, th as int);
                lemma_mul_small(self.option.height as int, tw as int);
            }
            if (self.option.width as u64) * th < tw * (self.option.height as u64) {
                out.append("height=");
                push_dec(&mut out, th);
            } else {
                out.append("width=");
                push_dec(&mut out, tw);
            }
            out.append(";inline=1:");
        }
        out.append(encoded.as_str());
        out.append(end);
        proof {
            assert(out@ =~= osc_line(self.option, data@, end@));
        }
        out
    }

    fn too_long() -> (e: ConvertError)
        ensures
            e is ImageError,
    {
        ConvertError::ImageError(ConvertErrorContext::new(
            ConvertErrorContextSource::Function(String::from_str("get_image_data")),
            String::from_str("the encoded image is too large"),
        ))
    }

    /// Kitty: the PNG file in chunks of 3072 raw bytes, each Base64-encoded in its
    /// own APC escape; the first carries the control data, the last has `m=0`.
    fn kitty_convert(&self) -> (r: Result<Vec<String>, ConvertError>)
        requires
            self.wf(),
            self.img is Color || self.img is NoColor,
            self.option.width > 0,
            self.option.height > 0,
        ensures
            r is Ok ==> lines_are(r->Ok_0@, seq![kitty_text(
                self.option.line_init@,
                self.option.width,
                self.option.height,
                png_of(self.img),
                kitty_chunk_count(png_of(self.img).len()),
            )]),
            r is Err ==> r->Err_0 is ImageError,
            r is Ok <==> png_of(self.img).len() < usize::MAX / 8,
    {
        let data = self.get_image_data()?;
        if data.len() >= usize::MAX / 8 {
            return Err(Self::too_long());
        }
        let line = self.kitty_text(&data);
        let mut lines: Vec<String> = Vec::new();
        lines.push(line);
        Ok(lines)
    }

    /// iTerm2 and WezTerm: a line of one space, then the OSC 1337 inline image
    /// ended by `end`.
    fn osc_convert(&self, end: &str) -> (r: Result<Vec<String>, ConvertError>)
        requires
            self.wf(),
            self.img is Color || self.img is NoColor,
            self.option.width > 0,
            self.option.height > 0,
        ensures
            r is Ok ==> lines_are(r->Ok_0@, seq![" "@, osc_line(self.option, png_of(self.img), end@)]),
            r is Err ==> r->Err_0 is ImageError,
            r is Ok <==> png_of(self.img).len() < usize::MAX / 8,
    {
        let data = self.get_image_data()?;
        if data.len() >= usize::MAX / 8 {
            return Err(Self::too_long());
        }
        let line = self.osc_text(&data, end);
        let mut lines: Vec<String> = Vec::new();
        lines.push(String::from_str(" "));
        lines.push(line);
        Ok(lines)
    }

    /// Sixel: quantize, encode, then a line of one space.
    fn sixel_convert(&self) -> (r: Result<Vec<String>, ConvertError>)
        requires
            self.wf(),
            self.img is Color2,
            self.option.mode.spec_is_sixel(),
            self.option.width > 0,
            self.option.height > 0,
        ensures
            r is Ok ==> sixel_lines(self.option, r->Ok_0@),
            r is Err ==> r->Err_0 is AboveMaxLength || r->Err_0 is ImageError,
            sixel_outcome(self.option, r),
    {
        let rgb = match &self.img {
            ProcessedImage::Color2(c) => c,
            _ => {
                proof {
                    assert(false);
                }
                return Err(ConvertError::EmptyData);
            },
        };
        if rgb.width > u32::MAX / 4 {
            return Err(ConvertError::AboveMaxLength(
                u32::MAX / 4,
                ConvertErrorContext::new(
                    ConvertErrorContextSource::SixelConvert,
                    String::from_str("the image is too wide for Sixel"),
                ),
            ));
        }
        let indexed = IndexedImage::from_image(rgb, self.option.max_colors, self.option.dither)?;
        let text = sixel_encode(&indexed, self.full);
        let mut lines: Vec<String> = Vec::new();
        lines.push(text);
        lines.push(String::from_str(" "));
        proof {
            assert(self.full == (self.option.mode is SixelFull));
            assert(is_sixel_of(indexed, self.option.mode is SixelFull, lines@[0]@));
            assert(indexed.wf());
            assert(indexed.width == self.option.width && indexed.height == self.option.height);
            assert(sixel_lines(self.option, lines@));
        }
        Ok(lines)
    }

    /// Encodes the raster for the display mode.
    ///
    /// Fails with `WrongImageType` when the raster's shape is not the one the mode
    /// reads, with `EmptyData` when it holds no pixel, and otherwise only where the
    /// image codec or the quantizer fails.
    pub fn convert(&self) -> (r: Result<Vec<String>, ConvertError>)
        requires
            self.wf(),
        ensures
            encodes(*self, r),
    {
        let mode = self.option.mode;
        if !mode.check_image_type(&self.img) {
            return Err(ConvertError::WrongImageType {
                expect_type: String::from_str(mode.expect_image_type()),
                actual_type: String::from_str(self.img.mode()),
            });
        }
        if self.option.width == 0 || self.option.height == 0 {
            return Err(ConvertError::EmptyData);
        }
        match mode {
            DisplayMode::Kitty | DisplayMode::KittyNoColor => self.kitty_convert(),
            DisplayMode::Iterm2 | DisplayMode::Iterm2NoColor => self.osc_convert("\x07"),
            DisplayMode::WezTerm | DisplayMode::WezTermNoColor => self.osc_convert("\x1b\\"),
            DisplayMode::SixelHalf | DisplayMode::SixelFull => self.sixel_convert(),
            _ => Ok(self.cell_convert()),
        }
    }
}



/// The first `n` Kitty chunks joined.
pub open spec fn kitty_joined(data: Seq<u8>, n: nat) -> Seq<u8>
    decreases n,
{
    if n == 0 {
        Seq::empty()
    } else {
        kitty_joined(data, (n - 1) as nat) + kitty_chunk(data, n - 1)
    }
}

proof fn lemma_kitty_joined(data: Seq<u8>, n: nat)
    requires
        3072 * (n as int) <= data.len() + 3071,
        n >= 1 ==> 3072 * (n as int - 1) < data.len() || data.len() == 0,
    ensures
        kitty_joined(data, n) == data.subrange(
            0,
            if 3072 * (n as int) < data.len() { 3072 * (n as int) } else { data.len() as int },
        ),
    decreases n,
{
    if n == 0 {
        assert(kitty_joined(data, 0) =~= data.subrange(0, 0));
    } else {
        if n >= 2 {
            lemma_kitty_joined(data, (n - 1) as nat);
        } else {
            assert(kitty_joined(data, 0) =~= data.subrange(0, 0));
        }
        assert(kitty_joined(data, n) =~= data.subrange(
            0,
            if 3072 * (n as int) < data.len() { 3072 * (n as int) } else { data.len() as int },
        ));
    }
}

/// Kitty chunking: a payload of `s > 0` bytes makes `ceil(s / 3072)` chunks of at
/// most 3072 bytes each, which joined give the payload back; the first escape's
/// header carries `S=<s>`; exactly one chunk, the last, has `m=0`.
pub proof fn kitty_chunking(line_init: Seq<char>, w: u32, h: u32, data: Seq<u8>)
    requires
        data.len() > 0,
    ensures
        kitty_chunk_count(data.len()) == (data.len() + 3071) / 3072,
        kitty_joined(data, kitty_chunk_count(data.len())) == data,
        forall|i: int| 0 <= i < kitty_chunk_count(data.len()) ==> 0 < (#[trigger] kitty_chunk(data, i)).len() <= 3072,
        forall|i: int| 0 <= i < kitty_chunk_count(data.len()) ==> (#[trigger] kitty_flag(kitty_chunk_count(data.len()), i)
            == "0"@ <==> i == kitty_chunk_count(data.len()) - 1),
        kitty_piece(line_init, w, h, data, 0) == line_init + "\x1b_Gm="@ + kitty_flag(kitty_chunk_count(data.len()), 0)
            + ",a=T,f=100,s="@ + dec(w as nat) + ",v="@ + dec(h as nat) + ",S="@ + dec(data.len()) + ";"@
            + base64_of(kitty_chunk(data, 0)) + "\x1b\\"@,
{
    let k = kitty_chunk_count(data.len());
    let s = data.len() as int;
    assert(3072 * (k as int) <= s + 3071 && 3072 * (k as int - 1) < s) by (nonlinear_arith)
        requires
            k as int == (s + 3071) / 3072,
            s > 0,
    ;
    lemma_kitty_joined(data, k);
    assert(data.subrange(0, s) =~= data);
    assert forall|i: int| 0 <= i < k implies 0 < (#[trigger] kitty_chunk(data, i)).len() <= 3072 by {
        assert(3072 * i < s) by (nonlinear_arith)
            requires
                3072 * (k as int - 1) < s,
                0 <= i < k,
        ;
    }
    reveal_strlit("0");
    reveal_strlit("1");
    assert forall|i: int| 0 <= i < k implies (#[trigger] kitty_flag(k, i) == "0"@ <==> i == k - 1) by {
        if i + 1 < k {
            assert("1"@ != "0"@) by {
                assert("1"@[0] != "0"@[0]);
            }
        }
    }
}

/// Shape invariant: the raster that `ProcessedImage::new` extracts for a mode has
/// the shape that the mode's encoder reads, so a converter built from it does not
/// answer `WrongImageType`; a converter holding any other shape answers exactly
/// that error, naming both shapes.
pub proof fn shape_decides_wrong_image_type(
    mode: DisplayMode,
    w: u32,
    h: u32,
    px: Seq<crate::raster::PixelColor>,
    c: ImageConverter,
    r: Result<Vec<String>, ConvertError>,
)
    requires
        c.wf(),
        c.option.mode == mode,
        encodes(c, r),
    ensures
        crate::raster::is_extraction(mode, w, h, px, c.img) ==> c.img.kind() == mode.spec_expected_kind()
            && !(r is Err && r->Err_0 is WrongImageType),
        c.img.kind() != mode.spec_expected_kind() ==> r is Err && r->Err_0 is WrongImageType
            && r->Err_0->expect_type@ == kind_name(mode.spec_expected_kind())
            && r->Err_0->actual_type@ == kind_name(c.img.kind()),
{
}

} // verus!
