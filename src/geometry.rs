use vstd::prelude::*;
use crate::mode::DisplayMode;
use crate::text::{dec, push_dec, push_repeat, repeat};

verus! {

/// The terminal's size in character cells.
#[derive(Debug, Clone, Copy, PartialEq, Eq, Structural)]
pub struct TerminalSize {
    pub cols: u16,
    pub rows: u16,
}

/// Widest image that automatic fitting leaves alone: the columns in the
/// character-cell modes, 12 or 6 pixels per column for Sixel.
pub open spec fn width_cap(mode: DisplayMode, full: bool, cols: int) -> int {
    if mode.spec_is_sixel() {
        cols * (if full { 12int } else { 6int })
    } else {
        cols
    }
}

/// Width that automatic fitting resizes a wider image to: the cap.
pub open spec fn width_target(mode: DisplayMode, full: bool, cols: int) -> int {
    width_cap(mode, full, cols)
}

/// Tallest image that automatic fitting leaves alone; it is also the target.
pub open spec fn height_cap(mode: DisplayMode, full: bool, rows: int) -> int {
    if mode.spec_is_sixel() {
        rows * (if full { 21int } else { 10int })
    } else {
        rows * (if full { 2int } else { 1int })
    }
}

/// Whether automatic fitting applies to the mode at all.
pub open spec fn fits_automatically(mode: DisplayMode) -> bool {
    mode.spec_is_normal() || mode.spec_is_sixel()
}

/// Automatic-fitting caps and targets: (width cap, width target, height cap).
pub fn auto_caps(mode: DisplayMode, full: bool, term: TerminalSize) -> (r: (u32, u32, u32))
    ensures
        r.0 as int == width_cap(mode, full, term.cols as int),
        r.1 as int == width_target(mode, full, term.cols as int),
        r.2 as int == height_cap(mode, full, term.rows as int),
{
    let cols = term.cols as u32;
    let rows = term.rows as u32;
    if mode.is_sixel() {
        let wc = cols * if full { 12 } else { 6 };
        (wc, wc, rows * if full { 21 } else { 10 })
    } else {
        (cols, cols, rows * if full { 2 } else { 1 })
    }
}

/// Leading blank lines that centre a character-cell image vertically.
pub open spec fn air_lines_spec(full: bool, rows: int, h: int) -> int {
    if (!full && h < rows) || (full && h < rows / 2) {
        rows / 2 - h / (if full { 4int } else { 2int })
    } else {
        0
    }
}

/// Leading spaces that centre a character-cell image horizontally: half the
/// free columns, rounded half up.
pub open spec fn pad_spec(full: bool, cols: int, w: int) -> int {
    if w < cols / (if full { 1int } else { 2int }) {
        (cols - w * (if full { 1int } else { 2int }) + 1) / 2
    } else {
        0
    }
}

/// The cursor escape that centres an inline image: the image's aspect ratio
/// `w / h` is compared with the terminal's, half its columns over its rows.
pub open spec fn cursor_seq(cols: int, rows: int, w: int, h: int) -> Seq<char> {
    if 2 * rows * w < cols * h {
        let wp = rows * w / h;
        let off = cols / 2 - wp;
        let col = if w > h { off - off / 2 } else { off };
        "\x1b[1;"@ + dec(col as nat) + "H"@
    } else if 2 * rows * w == cols * h {
        if cols > rows {
            let off = (cols - rows) / 2;
            "\x1b[1;"@ + dec((off - off / 2) as nat) + "H"@
        } else if cols < rows {
            let off = (2 * rows - cols / 2) / 2;
            "\x1b["@ + dec((off - off / 2) as nat) + ";1H"@
        } else {
            Seq::empty()
        }
    } else {
        let hp = cols * h / (2 * w);
        let off = 2 * rows - hp;
        "\x1b["@ + dec((off - off / 2) as nat) + ";1H"@
    }
}

/// Where the image goes on the screen: (leading blank lines, line prefix).
pub open spec fn placement(center: bool, mode: DisplayMode, full: bool, term: TerminalSize, w: u32, h: u32) -> (int, Seq<char>) {
    let cols = term.cols as int;
    let rows = term.rows as int;
    if !center {
        (0, Seq::empty())
    } else if mode.spec_is_normal() {
        (air_lines_spec(full, rows, h as int), repeat(" "@, pad_spec(full, cols, w as int) as nat))
    } else if mode.spec_is_sixel() {
        (0, Seq::empty())
    } else {
        (rows, cursor_seq(cols, rows, w as int, h as int))
    }
}

/// The cursor escape of `cursor_seq`.
pub fn cursor_escape(term: TerminalSize, w: u32, h: u32) -> (s: String)
    requires
        w > 0,
        h > 0,
    ensures
        s@ == cursor_seq(term.cols as int, term.rows as int, w as int, h as int),
{
    let cols = term.cols as u64;
    let rows = term.rows as u64;
    let wl = w as u64;
    let hl = h as u64;
    proof {
        assert(0 <= 2 * rows * wl <= 2 * 65535 * 4294967295) by (nonlinear_arith)
            requires
                rows <= 65535,
                wl <= 4294967295,
        ;
        assert(0 <= cols * hl <= 65535 * 4294967295) by (nonlinear_arith)
            requires
                cols <= 65535,
                hl <= 4294967295,
        ;
        assert(0 <= rows * wl <= 65535 * 4294967295) by (nonlinear_arith)
            requires
                rows <= 65535,
                wl <= 4294967295,
        ;
    }
    let mut s = String::new();
    if 2 * rows * wl < cols * hl {
        let wp = rows * wl / hl;
        proof {
            let (r_, w_, h_, c_) = (rows as int, wl as int, hl as int, cols as int);
            assert(r_ * w_ / h_ <= c_ / 2) by (nonlinear_arith)
                requires
                    2 * r_ * w_ < c_ * h_,
                    h_ > 0,
                    r_ >= 0,
                    w_ >= 0,
            ;
        }
        let off = cols / 2 - wp;
        let col = if wl > hl { off - off / 2 } else { off };
        s.append("\x1b[1;");
        push_dec(&mut s, col);
        s.append("H");
    } else if 2 * rows * wl == cols * hl {
        if cols > rows {
            let off = (cols - rows) / 2;
            s.append("\x1b[1;");
            push_dec(&mut s, off - off / 2);
            s.append("H");
        } else if cols < rows {
            let off = (2 * rows - cols / 2) / 2;
            s.append("\x1b[");
            push_dec(&mut s, off - off / 2);
            s.append(";1H");
        }
    } else {
        proof {
            let (w_, h_, c_) = (wl as int, hl as int, cols as int);
            assert(0 <= c_ * h_ / (2 * w_) <= c_ * h_) by (nonlinear_arith)
                requires
                    w_ > 0,
                    c_ >= 0,
                    h_ >= 0,
            ;
        }
        let hp = cols * hl / (2 * wl);
        proof {
            let (r_, w_, h_, c_) = (rows as int, wl as int, hl as int, cols as int);
            assert(c_ * h_ / (2 * w_) <= 2 * r_) by (nonlinear_arith)
                requires
                    2 * r_ * w_ > c_ * h_,
                    w_ > 0,
                    h_ >= 0,
                    c_ >= 0,
            ;
        }
        let off = 2 * rows - hp;
        s.append("\x1b[");
        push_dec(&mut s, off - off / 2);
        s.append(";1H");
    }
    proof {
        assert(s@ =~= cursor_seq(term.cols as int, term.rows as int, w as int, h as int));
    }
    s
}

/// Leading blank lines and line prefix of `placement`.
pub fn place(center: bool, mode: DisplayMode, full: bool, term: TerminalSize, w: u32, h: u32) -> (r: (usize, String))
    requires
        w > 0,
        h > 0,
    ensures
        r.0 as int == placement(center, mode, full, term, w, h).0,
        r.1@ == placement(center, mode, full, term, w, h).1,
{
    let cols = term.cols as u32;
    let rows = term.rows as u32;
    let mut line_init = String::new();
    if !center {
        proof {
            assert(line_init@ =~= Seq::<char>::empty());
        }
        return (0, line_init);
    }
    if mode.is_normal() {
        let mut air: usize = 0;
        if (!full && h < rows) || (full && h < rows / 2) {
            air = (rows / 2 - h / if full { 4 } else { 2 }) as usize;
        }
        let div: u32 = if full { 1 } else { 2 };
        if w < cols / div {
            let len = (cols - w * div + 1) / 2;
            push_repeat(&mut line_init, " ", len as usize);
        } else {
            push_repeat(&mut line_init, " ", 0);
        }
        proof {
            assert(line_init@ =~= placement(center, mode, full, term, w, h).1);
        }
        (air, line_init)
    } else if mode.is_sixel() {
        proof {
            assert(line_init@ =~= Seq::<char>::empty());
        }
        (0, line_init)
    } else {
        (rows as usize, cursor_escape(term, w, h))
    }
}

} // verus!
