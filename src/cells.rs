use vstd::prelude::*;
use crate::raster::{GrayImage, PixelColor, RgbaImage};
use crate::text::{bg_seq, fg_seq, reset_seq, push_bg, push_fg};

verus! {

/// Whether `needle` occurs in `hay` as a contiguous run.
pub open spec fn seq_contains(hay: Seq<char>, needle: Seq<char>) -> bool {
    exists|i: int| 0 <= i && i + needle.len() <= hay.len()
        && #[trigger] hay.subrange(i, i + needle.len()) == needle
}

/// Whether `needle` occurs in `hay`.
pub fn str_contains(hay: &String, needle: &String) -> (r: bool)
    ensures
        r == seq_contains(hay@, needle@),
{
    let h = hay.as_str();
    let n = needle.as_str();
    let hl = h.unicode_len();
    let nl = n.unicode_len();
    if nl > hl {
        return false;
    }
    let mut i: usize = 0;
    while i <= hl - nl
        invariant
            nl <= hl,
            hl == hay@.len(),
            nl == needle@.len(),
            h@ == hay@,
            n@ == needle@,
            i <= hl - nl + 1,
            forall|k: int| 0 <= k < i ==> #[trigger] hay@.subrange(k, k + nl) != needle@,
        decreases hl - nl + 1 - i,
    {
        let mut j: usize = 0;
        let mut same = true;
        while j < nl
            invariant
                0 <= j <= nl,
                i + nl <= hl,
                hl == hay@.len(),
                nl == needle@.len(),
                h@ == hay@,
                n@ == needle@,
                same == (forall|t: int| 0 <= t < j ==> hay@[i + t] == needle@[t]),
            decreases nl - j,
        {
            if h.get_char(i + j) != n.get_char(j) {
                same = false;
            }
            j = j + 1;
        }
        if same {
            proof {
                assert(hay@.subrange(i as int, i + nl) =~= needle@);
            }
            return true;
        }
        proof {
            let k = choose|t: int| 0 <= t < nl && hay@[i + t] != needle@[t];
            assert(hay@.subrange(i as int, i + nl)[k] != needle@[k]);
        }
        i = i + 1;
    }
    proof {
        assert forall|k: int| 0 <= k && k + needle@.len() <= hay@.len() implies #[trigger] hay@.subrange(
            k,
            k + needle@.len(),
        ) != needle@ by {
            assert(k < i);
        }
    }
    false
}

// ---- half-block cells: one sample per cell, drawn as its background ----

/// The colour escape of a half-block cell.
pub open spec fn half_color_seq(p: PixelColor) -> Seq<char> {
    if p.a >= 128 {
        bg_seq(p.r, p.g, p.b)
    } else {
        reset_seq()
    }
}

/// The text of the half-block cell at `(x, y)`.
pub open spec fn half_cell_seq(img: RgbaImage, x: int, y: int, compress: bool) -> Seq<char> {
    let cur = half_color_seq(img.spec_pixel(x, y));
    if compress && x > 0 && half_color_seq(img.spec_pixel(x - 1, y)) == cur {
        "  "@
    } else {
        cur + "  "@
    }
}

/// The first `n` half-block cells of row `y`.
pub open spec fn half_row_seq(img: RgbaImage, y: int, compress: bool, n: nat) -> Seq<char>
    decreases n,
{
    if n == 0 {
        Seq::empty()
    } else {
        half_row_seq(img, y, compress, (n - 1) as nat) + half_cell_seq(img, n - 1, y, compress)
    }
}

fn half_color(p: PixelColor) -> (s: String)
    ensures
        s@ == half_color_seq(p),
{
    let mut s = String::new();
    if p.a >= 128 {
        push_bg(&mut s, p.r, p.g, p.b);
    } else {
        s.append("\x1b[0m");
    }
    proof {
        assert(s@ =~= half_color_seq(p));
    }
    s
}

/// The half-block cell at `(x, y)`: the sample's background escape, or a reset
/// when it is transparent, then two spaces; under compression the escape is left
/// out when the cell to the left has the same one.
pub fn half_cell(img: &RgbaImage, x: u32, y: u32, compress: bool) -> (s: String)
    requires
        img.wf(),
        x < img.width,
        y < img.height,
    ensures
        s@ == half_cell_seq(*img, x as int, y as int, compress),
{
    let cur = half_color(img.get_pixel(x, y));
    if compress && x > 0 {
        let last = half_color(img.get_pixel(x - 1, y));
        if last == cur {
            return String::from_str("  ");
        }
    }
    let mut s = cur;
    s.append("  ");
    s
}

/// Appends the half-block cells of row `y`.
pub fn push_half_row(out: &mut String, img: &RgbaImage, y: u32, compress: bool)
    requires
        img.wf(),
        y < img.height,
    ensures
        final(out)@ == old(out)@ + half_row_seq(*img, y as int, compress, img.width as nat),
{
    let mut x: u32 = 0;
    while x < img.width
        invariant
            img.wf(),
            y < img.height,
            x <= img.width,
            out@ == old(out)@ + half_row_seq(*img, y as int, compress, x as nat),
        decreases img.width - x,
    {
        let c = half_cell(img, x, y, compress);
        out.append(c.as_str());
        x = x + 1;
        proof {
            assert(out@ =~= old(out)@ + half_row_seq(*img, y as int, compress, x as nat));
        }
    }
}

// ---- full-block cells: two stacked samples per cell ----

/// The colour escapes of a full-block cell whose upper sample is `p1` and lower
/// sample is `p2`, with luminances `l1` and `l2`.
pub open spec fn full_color_seq(p1: PixelColor, p2: PixelColor, l1: u8, l2: u8, compress: bool) -> Seq<char> {
    if p1.a < 128 && p2.a < 128 {
        reset_seq()
    } else if p1.a < 128 {
        reset_seq() + fg_seq(p2.r, p2.g, p2.b)
    } else if p2.a < 128 {
        reset_seq() + fg_seq(p1.r, p1.g, p1.b)
    } else if l1 > l2 {
        fg_seq(p1.r, p1.g, p1.b) + bg_seq(p2.r, p2.g, p2.b)
    } else if l2 > l1 {
        bg_seq(p1.r, p1.g, p1.b) + fg_seq(p2.r, p2.g, p2.b)
    } else if compress {
        bg_seq(p1.r, p1.g, p1.b)
    } else {
        fg_seq(p1.r, p1.g, p1.b)
    }
}

/// Which glyph a full-block cell draws: 0 a space, 1 the lower half block,
/// 2 the upper half block, 3 the full block.
pub open spec fn full_glyph_code(p1: PixelColor, p2: PixelColor, l1: u8, l2: u8, compress: bool) -> int {
    if p1.a < 128 && p2.a < 128 {
        0
    } else if p1.a < 128 {
        1
    } else if p2.a < 128 {
        2
    } else if l1 > l2 {
        2
    } else if l2 > l1 {
        1
    } else if compress {
        0
    } else {
        3
    }
}

pub open spec fn glyph_seq(code: int) -> Seq<char> {
    if code == 0 {
        " "@
    } else if code == 1 {
        "▄"@
    } else if code == 2 {
        "▀"@
    } else {
        "█"@
    }
}

pub open spec fn full_color_at(rgba: RgbaImage, luma: GrayImage, x: int, y: int, compress: bool) -> Seq<char> {
    full_color_seq(
        rgba.spec_pixel(x, 2 * y),
        rgba.spec_pixel(x, 2 * y + 1),
        luma.spec_pixel(x, 2 * y),
        luma.spec_pixel(x, 2 * y + 1),
        compress,
    )
}

pub open spec fn full_glyph_at(rgba: RgbaImage, luma: GrayImage, x: int, y: int, compress: bool) -> int {
    full_glyph_code(
        rgba.spec_pixel(x, 2 * y),
        rgba.spec_pixel(x, 2 * y + 1),
        luma.spec_pixel(x, 2 * y),
        luma.spec_pixel(x, 2 * y + 1),
        compress,
    )
}

/// The text of full-block cell `(x, y)`, which reads source rows `2y` and `2y + 1`.
pub open spec fn full_cell_seq(rgba: RgbaImage, luma: GrayImage, x: int, y: int, compress: bool) -> Seq<char> {
    let cur = full_color_at(rgba, luma, x, y, compress);
    let code = full_glyph_at(rgba, luma, x, y, compress);
    let last = if compress && x > 0 {
        full_color_at(rgba, luma, x - 1, y, compress)
    } else {
        Seq::empty()
    };
    if cur == last {
        glyph_seq(code)
    } else if code == 0 && compress && seq_contains(last, cur) {
        glyph_seq(code)
    } else {
        cur + glyph_seq(code)
    }
}

/// The first `n` full-block cells of output row `y`.
pub open spec fn full_row_seq(rgba: RgbaImage, luma: GrayImage, y: int, compress: bool, n: nat) -> Seq<char>
    decreases n,
{
    if n == 0 {
        Seq::empty()
    } else {
        full_row_seq(rgba, luma, y, compress, (n - 1) as nat) + full_cell_seq(rgba, luma, n - 1, y, compress)
    }
}

/// Both rasters are well formed and of one size.
pub open spec fn pair_wf(rgba: RgbaImage, luma: GrayImage) -> bool {
    rgba.wf() && luma.wf() && rgba.width == luma.width && rgba.height == luma.height
}

fn glyph(code: u8) -> (s: &'static str)
    requires
        code <= 3,
    ensures
        s@ == glyph_seq(code as int),
{
    if code == 0 {
        " "
    } else if code == 1 {
        "▄"
    } else if code == 2 {
        "▀"
    } else {
        "█"
    }
}

fn full_color(rgba: &RgbaImage, luma: &GrayImage, x: u32, y: u32, compress: bool) -> (r: (String, u8))
    requires
        pair_wf(*rgba, *luma),
        x < rgba.width,
        2 * y + 1 < rgba.height,
    ensures
        r.0@ == full_color_at(*rgba, *luma, x as int, y as int, compress),
        r.1 as int == full_glyph_at(*rgba, *luma, x as int, y as int, compress),
{
    let p1 = rgba.get_pixel(x, 2 * y);
    let p2 = rgba.get_pixel(x, 2 * y + 1);
    let l1 = luma.get_pixel(x, 2 * y);
    let l2 = luma.get_pixel(x, 2 * y + 1);
    let mut s = String::new();
    let code: u8;
    if p1.a < 128 && p2.a < 128 {
        s.append("\x1b[0m");
        code = 0;
    } else if p1.a < 128 {
        s.append("\x1b[0m");
        push_fg(&mut s, p2.r, p2.g, p2.b);
        code = 1;
    } else if p2.a < 128 {
        s.append("\x1b[0m");
        push_fg(&mut s, p1.r, p1.g, p1.b);
        code = 2;
    } else if l1 > l2 {
        push_fg(&mut s, p1.r, p1.g, p1.b);
        push_bg(&mut s, p2.r, p2.g, p2.b);
        code = 2;
    } else if l2 > l1 {
        push_bg(&mut s, p1.r, p1.g, p1.b);
        push_fg(&mut s, p2.r, p2.g, p2.b);
        code = 1;
    } else if compress {
        push_bg(&mut s, p1.r, p1.g, p1.b);
        code = 0;
    } else {
        push_fg(&mut s, p1.r, p1.g, p1.b);
        code = 3;
    }
    proof {
        assert(s@ =~= full_color_at(*rgba, *luma, x as int, y as int, compress));
    }
    (s, code)
}

/// The full-block cell `(x, y)`. The brighter sample becomes the foreground of a
/// half-block glyph and the other the background; equal luminance gives a full
/// block in the foreground, or under compression a space on the background; a
/// transparent sample leaves only the other one in the foreground after a reset.
/// Under compression the escape is left out when it equals the left cell's, or
/// when the glyph is a space and the left cell's escape contains it.
pub fn full_cell(rgba: &RgbaImage, luma: &GrayImage, x: u32, y: u32, compress: bool) -> (s: String)
    requires
        pair_wf(*rgba, *luma),
        x < rgba.width,
        2 * y + 1 < rgba.height,
    ensures
        s@ == full_cell_seq(*rgba, *luma, x as int, y as int, compress),
{
    let (cur, code) = full_color(rgba, luma, x, y, compress);
    let last = if compress && x > 0 {
        full_color(rgba, luma, x - 1, y, compress).0
    } else {
        String::new()
    };
    let g = glyph(code);
    if cur == last {
        String::from_str(g)
    } else if code == 0 && compress && str_contains(&last, &cur) {
        String::from_str(g)
    } else {
        let mut s = cur;
        s.append(g);
        s
    }
}

/// Appends the full-block cells of output row `y`.
pub fn push_full_row(out: &mut String, rgba: &RgbaImage, luma: &GrayImage, y: u32, compress: bool)
    requires
        pair_wf(*rgba, *luma),
        2 * y + 1 < rgba.height,
    ensures
        final(out)@ == old(out)@ + full_row_seq(*rgba, *luma, y as int, compress, rgba.width as nat),
{
    let mut x: u32 = 0;
    while x < rgba.width
        invariant
            pair_wf(*rgba, *luma),
            2 * y + 1 < rgba.height,
            x <= rgba.width,
            out@ == old(out)@ + full_row_seq(*rgba, *luma, y as int, compress, x as nat),
        decreases rgba.width - x,
    {
        let c = full_cell(rgba, luma, x, y, compress);
        out.append(c.as_str());
        x = x + 1;
        proof {
            assert(out@ =~= old(out)@ + full_row_seq(*rgba, *luma, y as int, compress, x as nat));
        }
    }
}

// ---- the last, unpaired row of an odd-height image in a full mode ----

/// One coloured sample in the upper half of the cell.
pub open spec fn odd_color_cell_seq(p: PixelColor) -> Seq<char> {
    fg_seq(p.r, p.g, p.b) + "▀"@
}

/// One luminance sample: the upper half block when brighter than 128.
pub open spec fn odd_luma_cell_seq(l: u8) -> Seq<char> {
    if l > 128 {
        "▀"@
    } else {
        " "@
    }
}

pub open spec fn odd_color_row_seq(img: RgbaImage, y: int, n: nat) -> Seq<char>
    decreases n,
{
    if n == 0 {
        Seq::empty()
    } else {
        odd_color_row_seq(img, y, (n - 1) as nat) + odd_color_cell_seq(img.spec_pixel(n - 1, y))
    }
}

pub open spec fn odd_luma_row_seq(img: GrayImage, y: int, n: nat) -> Seq<char>
    decreases n,
{
    if n == 0 {
        Seq::empty()
    } else {
        odd_luma_row_seq(img, y, (n - 1) as nat) + odd_luma_cell_seq(img.spec_pixel(n - 1, y))
    }
}

/// Appends the single-sample cells of colour row `y`.
pub fn push_odd_color_row(out: &mut String, img: &RgbaImage, y: u32)
    requires
        img.wf(),
        y < img.height,
    ensures
        final(out)@ == old(out)@ + odd_color_row_seq(*img, y as int, img.width as nat),
{
    let mut x: u32 = 0;
    while x < img.width
        invariant
            img.wf(),
            y < img.height,
            x <= img.width,
            out@ == old(out)@ + odd_color_row_seq(*img, y as int, x as nat),
        decreases img.width - x,
    {
        let p = img.get_pixel(x, y);
        push_fg(out, p.r, p.g, p.b);
        out.append("▀");
        x = x + 1;
        proof {
            assert(out@ =~= old(out)@ + odd_color_row_seq(*img, y as int, x as nat));
        }
    }
}

/// Appends the single-sample cells of luminance row `y`.
pub fn push_odd_luma_row(out: &mut String, img: &GrayImage, y: u32)
    requires
        img.wf(),
        y < img.height,
    ensures
        final(out)@ == old(out)@ + odd_luma_row_seq(*img, y as int, img.width as nat),
{
    let mut x: u32 = 0;
    while x < img.width
        invariant
            img.wf(),
            y < img.height,
            x <= img.width,
            out@ == old(out)@ + odd_luma_row_seq(*img, y as int, x as nat),
        decreases img.width - x,
    {
        let l = img.get_pixel(x, y);
        if l > 128 {
            out.append("▀");
        } else {
            out.append(" ");
        }
        x = x + 1;
        proof {
            assert(out@ =~= old(out)@ + odd_luma_row_seq(*img, y as int, x as nat));
        }
    }
}

// ---- luminance glyph cells: two stacked luminance samples, no colour ----

pub open spec fn in_band(p: int, lo: int, hi: int) -> bool {
    lo < p && p < hi
}

/// A luminance glyph rule: a band of luminance, open at both ends, and either one
/// glyph for the cell (`sep` false) or a glyph for each half and one for both.
pub struct NoColorPixel {
    /// Glyph when only the upper sample is in the band.
    pub top: &'static str,
    /// Glyph when the rule applies to the whole cell.
    pub full: &'static str,
    /// Glyph when only the lower sample is in the band.
    pub bottom: &'static str,
    /// Whether the halves are told apart.
    pub sep: bool,
    /// Lower bound of the band.
    pub from: usize,
    /// Upper bound of the band.
    pub to: usize,
}

/// The five rules, in the order they are tried: (top, full, bottom, sep, from, to).
pub open spec fn rule(i: int) -> (Seq<char>, Seq<char>, Seq<char>, bool, int, int) {
    if i == 0 {
        ("▘"@, "▮"@, "▖"@, true, 153, 204)
    } else if i == 1 {
        (""@, "▪"@, ""@, false, 122, 204)
    } else if i == 2 {
        (""@, "▫"@, ""@, false, 100, 204)
    } else if i == 3 {
        (""@, ","@, ""@, false, 75, 204)
    } else {
        (""@, "."@, ""@, false, 51, 204)
    }
}

/// Rule `i` of the luminance glyph table.
pub fn no_color_pixel(i: usize) -> (r: NoColorPixel)
    requires
        i < 5,
    ensures
        (r.top@, r.full@, r.bottom@, r.sep, r.from as int, r.to as int) == rule(i as int),
{
    if i == 0 {
        NoColorPixel { top: "▘", full: "▮", bottom: "▖", sep: true, from: 153, to: 204 }
    } else if i == 1 {
        NoColorPixel { top: "", full: "▪", bottom: "", sep: false, from: 122, to: 204 }
    } else if i == 2 {
        NoColorPixel { top: "", full: "▫", bottom: "", sep: false, from: 100, to: 204 }
    } else if i == 3 {
        NoColorPixel { top: "", full: ",", bottom: "", sep: false, from: 75, to: 204 }
    } else {
        NoColorPixel { top: "", full: ".", bottom: "", sep: false, from: 51, to: 204 }
    }
}

/// Block glyph when no rule matches: each sample brighter than 128 fills its half.
pub open spec fn threshold_glyph(a: int, b: int) -> Seq<char> {
    if a > 128 && b > 128 {
        "█"@
    } else if a > 128 {
        "▀"@
    } else if b > 128 {
        "▄"@
    } else {
        " "@
    }
}

/// The glyph that rules `i` onwards give for upper luminance `a` and lower `b`:
/// the first that matches, else the threshold block.
pub open spec fn glyph_from(a: int, b: int, i: int) -> Seq<char>
    decreases 5 - i,
{
    if i >= 5 {
        threshold_glyph(a, b)
    } else {
        let r = rule(i);
        if r.3 {
            if in_band(a, r.4, r.5) && in_band(b, r.4, r.5) {
                r.1
            } else if in_band(a, r.4, r.5) {
                r.0
            } else if in_band(b, r.4, r.5) {
                r.2
            } else {
                glyph_from(a, b, i + 1)
            }
        } else if (r.4 < a || r.4 < b) && a < r.5 && b < r.5 {
            r.1
        } else {
            glyph_from(a, b, i + 1)
        }
    }
}

/// The glyph for upper luminance `p1` and lower luminance `p2`.
pub open spec fn ascii_cell_seq(p1: u8, p2: u8) -> Seq<char> {
    glyph_from(p1 as int, p2 as int, 0)
}

/// The luminance glyph for two stacked samples: the rules of the table tried in
/// order, the first that matches deciding.
pub fn ascii_cell(p1: u8, p2: u8) -> (s: &'static str)
    ensures
        s@ == ascii_cell_seq(p1, p2),
{
    let a = p1 as usize;
    let b = p2 as usize;
    let mut i: usize = 0;
    while i < 5
        invariant
            i <= 5,
            glyph_from(a as int, b as int, i as int) == ascii_cell_seq(p1, p2),
        decreases 5 - i,
    {
        let r = no_color_pixel(i);
        if r.sep {
            if r.from < a && a < r.to && r.from < b && b < r.to {
                return r.full;
            } else if r.from < a && a < r.to {
                return r.top;
            } else if r.from < b && b < r.to {
                return r.bottom;
            }
        } else if (r.from < a || r.from < b) && a < r.to && b < r.to {
            return r.full;
        }
        i = i + 1;
    }
    if a > 128 && b > 128 {
        "█"
    } else if a > 128 {
        "▀"
    } else if b > 128 {
        "▄"
    } else {
        " "
    }
}

pub open spec fn ascii_row_seq(img: GrayImage, y: int, n: nat) -> Seq<char>
    decreases n,
{
    if n == 0 {
        Seq::empty()
    } else {
        ascii_row_seq(img, y, (n - 1) as nat) + ascii_cell_seq(
            img.spec_pixel(n - 1, 2 * y),
            img.spec_pixel(n - 1, 2 * y + 1),
        )
    }
}

/// Appends the luminance glyph cells of output row `y`.
pub fn push_ascii_row(out: &mut String, img: &GrayImage, y: u32)
    requires
        img.wf(),
        2 * y + 1 < img.height,
    ensures
        final(out)@ == old(out)@ + ascii_row_seq(*img, y as int, img.width as nat),
{
    let mut x: u32 = 0;
    while x < img.width
        invariant
            img.wf(),
            2 * y + 1 < img.height,
            x <= img.width,
            out@ == old(out)@ + ascii_row_seq(*img, y as int, x as nat),
        decreases img.width - x,
    {
        let p1 = img.get_pixel(x, 2 * y);
        let p2 = img.get_pixel(x, 2 * y + 1);
        out.append(ascii_cell(p1, p2));
        x = x + 1;
        proof {
            assert(out@ =~= old(out)@ + ascii_row_seq(*img, y as int, x as nat));
        }
    }
}

/// Under compression, a half-block row whose samples all have one colour is that
/// colour's escape once, followed by two spaces per cell.
pub proof fn uniform_half_row_has_one_escape(img: RgbaImage, y: int, c: PixelColor, n: nat)
    requires
        img.wf(),
        0 <= y < img.height,
        1 <= n <= img.width,
        forall|x: int| 0 <= x < img.width ==> #[trigger] img.spec_pixel(x, y) == c,
    ensures
        half_row_seq(img, y, true, n) == half_color_seq(c) + crate::text::repeat("  "@, n),
    decreases n,
{
    if n == 1 {
        assert(half_row_seq(img, y, true, 0) == Seq::<char>::empty());
        assert(crate::text::repeat("  "@, 1) =~= crate::text::repeat("  "@, 0) + "  "@);
        assert(crate::text::repeat("  "@, 0) == Seq::<char>::empty());
        assert(half_row_seq(img, y, true, 1) =~= half_color_seq(c) + crate::text::repeat("  "@, 1));
    } else {
        uniform_half_row_has_one_escape(img, y, c, (n - 1) as nat);
        assert(img.spec_pixel(n - 1, y) == c);
        assert(img.spec_pixel(n - 2, y) == c);
        assert(half_cell_seq(img, n - 1, y, true) == "  "@);
        assert(half_row_seq(img, y, true, n) =~= half_color_seq(c) + crate::text::repeat("  "@, n));
    }
}

} // verus!
