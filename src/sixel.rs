use vstd::prelude::*;
use crate::indexed::IndexedImage;
use crate::raster::RgbColor;
use crate::text::{dec, push_dec};

verus! {

/// Relies on `String::push`, which appends one character.
#[verifier::external_body]
fn push_char(s: &mut String, c: char)
    ensures
        final(s)@ == old(s)@.push(c),
{
    s.push(c)
}

/// The Sixel character for a 6-bit vertical mask: bit `i` set draws row `i`.
pub open spec fn sixel_char(mask: u8) -> char {
    ((mask as int) + 63) as char
}

/// A run of `t` equal Sixel characters: the characters themselves when fewer than
/// three, else `!<t><char>`.
pub open spec fn run_seq(t: nat, c: char) -> Seq<char> {
    if t == 0 {
        Seq::empty()
    } else if t == 1 {
        seq![c]
    } else if t == 2 {
        seq![c, c]
    } else {
        "!"@ + dec(t) + seq![c]
    }
}

/// `2^k` for `k < 7`.
pub open spec fn bit(k: int) -> int {
    if k <= 0 { 1 }
    else if k == 1 { 2 }
    else if k == 2 { 4 }
    else if k == 3 { 8 }
    else if k == 4 { 16 }
    else if k == 5 { 32 }
    else { 64 }
}

fn bit_exec(k: u8) -> (r: u8)
    requires
        k < 6,
    ensures
        r as int == bit(k as int),
{
    if k == 0 { 1 } else if k == 1 { 2 } else if k == 2 { 4 } else if k == 3 { 8 } else if k == 4 { 16 } else { 32 }
}

/// One piece of Sixel data: a run, a `$` or a `-`, with the palette index that a
/// run selects first when it changes the colour.
pub struct SixelToken {
    pub color: Option<u8>,
    pub text: String,
}

/// Percentage of a channel out of 255, rounded to the nearest integer.
pub open spec fn percent(c: u8) -> nat {
    ((200 * (c as int) + 255) / 510) as nat
}

/// The colour of a run in progress: `Fresh` after a colour change, `Continued`
/// when the colour was already selected, `Blank` before the first run.
#[derive(Clone, Copy, PartialEq, Eq, Structural)]
pub enum RunColor {
    Fresh(u8),
    Continued(u8),
    Blank,
}

impl RunColor {
    pub open spec fn spec_is(self, index: u8) -> bool {
        match self {
            RunColor::Fresh(i) => i == index,
            RunColor::Continued(i) => i == index,
            RunColor::Blank => false,
        }
    }

    pub open spec fn spec_selects(self) -> Option<u8> {
        match self {
            RunColor::Fresh(i) => Some(i),
            _ => None,
        }
    }

    pub open spec fn spec_update(self, index: u8) -> RunColor {
        if self.spec_is(index) {
            RunColor::Continued(index)
        } else {
            RunColor::Fresh(index)
        }
    }

    pub open spec fn below(self, n: int) -> bool {
        match self {
            RunColor::Fresh(i) => (i as int) < n,
            RunColor::Continued(i) => (i as int) < n,
            RunColor::Blank => true,
        }
    }

    /// Whether the run's colour is `index`.
    pub fn is(&self, index: u8) -> (r: bool)
        ensures
            r == self.spec_is(index),
    {
        match self {
            RunColor::Fresh(i) => *i == index,
            RunColor::Continued(i) => *i == index,
            RunColor::Blank => false,
        }
    }

    /// The colour state after a run of `index` starts.
    pub fn update(&self, index: u8) -> (r: RunColor)
        ensures
            r == self.spec_update(index),
    {
        if self.is(index) {
            RunColor::Continued(index)
        } else {
            RunColor::Fresh(index)
        }
    }

    /// The palette index that the run must select, if any.
    pub fn selects(&self) -> (r: Option<u8>)
        ensures
            r == self.spec_selects(),
    {
        match self {
            RunColor::Fresh(i) => Some(*i),
            _ => None,
        }
    }
}

pub open spec fn tokens_below(tokens: Seq<SixelToken>, n: int) -> bool {
    forall|k: int| 0 <= k < tokens.len() ==> (#[trigger] tokens[k].color is Some ==> (
        tokens[k].color->0 as int) < n)
}

/// Cells drawn by a run of `times` columns: each column is two cells wide when
/// not `full`.
pub open spec fn run_len(times: usize, full: bool) -> nat {
    if full {
        times as nat
    } else {
        2 * times as nat
    }
}

/// `a + b`, or the largest `u64` when the sum is larger.
pub open spec fn sat_sum(a: u64, b: nat) -> u64 {
    if a as int + b <= u64::MAX {
        (a as int + b) as u64
    } else {
        u64::MAX
    }
}

/// Adds without wrapping past the largest value.
fn add_sat(a: u64, b: u64) -> (r: u64)
    ensures
        r == sat_sum(a, b as nat),
{
    if a <= u64::MAX - b { a + b } else { u64::MAX }
}

/// A run token of `times` cells of `mask`, doubled in width when not `full`; a run
/// that selects a colour adds its length to that colour's usage count.
pub fn render_run(color: Option<u8>, times: usize, mask: u8, full: bool, counter: &mut Vec<u64>) -> (t: SixelToken)
    requires
        mask < 64,
        times <= usize::MAX / 2,
        color is Some ==> (color->0 as int) < old(counter)@.len(),
    ensures
        t.color == color,
        t.text@ == run_seq(run_len(times, full), sixel_char(mask)),
        final(counter)@.len() == old(counter)@.len(),
        color is None ==> final(counter)@ == old(counter)@,
        color is Some ==> final(counter)@ == old(counter)@.update(
            color->0 as int,
            sat_sum(old(counter)@[color->0 as int], run_len(times, full)),
        ),
{
    let t: usize = if full { times } else { 2 * times };
    let c: char = (mask + 63) as char;
    if let Some(i) = color {
        let old_count = counter[i as usize];
        counter.set(i as usize, add_sat(old_count, t as u64));
    }
    let mut text = String::new();
    if t == 1 {
        push_char(&mut text, c);
    } else if t == 2 {
        push_char(&mut text, c);
        push_char(&mut text, c);
    } else if t >= 3 {
        text.append("!");
        push_dec(&mut text, t as u64);
        push_char(&mut text, c);
    }
    proof {
        assert(text@ =~= run_seq(t as nat, sixel_char(mask)));
    }
    SixelToken { color, text }
}

fn marker(s: &str) -> (t: SixelToken)
    ensures
        t.color is None,
        t.text@ == s@,
{
    SixelToken { color: None, text: String::from_str(s) }
}

/// Each token as the palette index it selects, if any, and its text.
pub open spec fn tok_views(tokens: Seq<SixelToken>) -> Seq<(Option<u8>, Seq<char>)> {
    tokens.map_values(|t: SixelToken| (t.color, t.text@))
}

/// The state of a band's encoding between two column steps: per column whether
/// it is open, the rows drawn, the head row and the palette indices drawn; the run
/// in progress; the blank run in progress; the tokens and usage counts so far.
#[verifier::ext_equal]
pub struct BandView {
    pub active: Seq<bool>,
    pub sum: Seq<u8>,
    pub head: Seq<u8>,
    pub used: Seq<i16>,
    pub same: RunColor,
    pub same_count: nat,
    pub same_style: u8,
    pub skip: nat,
    pub tokens: Seq<(Option<u8>, Seq<char>)>,
    pub counter: Seq<u64>,
}

/// Emits a run of `times` columns of `mask` in `color`.
pub open spec fn emit(s: BandView, color: Option<u8>, times: nat, mask: u8, full: bool) -> BandView {
    let t = if full { times } else { 2 * times };
    BandView {
        tokens: s.tokens.push((color, run_seq(t, sixel_char(mask)))),
        counter: match color {
            Some(i) => s.counter.update(i as int, sat_sum(s.counter[i as int], t)),
            Option::None => s.counter,
        },
        ..s
    }
}

/// Whether column slot `base .. base + 6` of `used` holds `index`.
pub open spec fn used_has(used: Seq<i16>, base: int, index: u8) -> bool {
    exists|k: int| 0 <= k < 6 && #[trigger] used[base + k] == index as i16
}

/// Scans column `x` of the band at row `top` from row `dy` down for colour `cur`:
/// counts and marks the rows that have it, and moves the head to the first row
/// with a colour not drawn yet. Returns (rows drawn, head, mask).
pub open spec fn scan(
    img: IndexedImage,
    x: int,
    top: int,
    cur: u8,
    used: Seq<i16>,
    base: int,
    dy: int,
    sum: int,
    head: int,
    style: int,
    is_head: bool,
) -> (int, int, int)
    decreases 6 - dy,
{
    if dy >= 6 || top + dy >= img.height {
        (sum, head, style)
    } else {
        let index = img.spec_pixel(x, top + dy);
        if index == cur {
            scan(img, x, top, cur, used, base, dy + 1, sum + 1, head, style + bit(dy), is_head)
        } else if is_head && !used_has(used, base, index) {
            scan(img, x, top, cur, used, base, dy + 1, sum, dy, style, false)
        } else {
            scan(img, x, top, cur, used, base, dy + 1, sum, head, style, is_head)
        }
    }
}

/// One column step of a pass over the band at row `top`.
pub open spec fn column_step(img: IndexedImage, top: int, full: bool, s: BandView, x: int) -> BandView {
    if !s.active[x] {
        let s1 = if s.same_count > 0 {
            BandView { same_count: 0, ..emit(s, s.same.spec_selects(), s.same_count, s.same_style, full) }
        } else {
            s
        };
        BandView { skip: s1.skip + 1, ..s1 }
    } else {
        let s1 = if s.skip > 0 {
            BandView { skip: 0, ..emit(s, Option::None, s.skip, 0, full) }
        } else {
            s
        };
        let h0 = s1.head[x] as int;
        let cur = img.spec_pixel(x, top + h0);
        let used1 = s1.used.update(6 * x + h0, cur as i16);
        let r = scan(img, x, top, cur, used1, 6 * x, h0, s1.sum[x] as int, h0, 0, true);
        let s2 = if r.0 >= 6 {
            BandView { active: s1.active.update(x, false), used: used1, ..s1 }
        } else {
            BandView { sum: s1.sum.update(x, r.0 as u8), head: s1.head.update(x, r.1 as u8), used: used1, ..s1 }
        };
        if s2.same_count > 0 && s2.same.spec_is(cur) && s2.same_style == r.2 as u8 {
            BandView { same_count: s2.same_count + 1, ..s2 }
        } else {
            let s3 = if s2.same_count > 0 {
                emit(s2, s2.same.spec_selects(), s2.same_count, s2.same_style, full)
            } else {
                s2
            };
            BandView { same_count: 1, same: s3.same.spec_update(cur), same_style: r.2 as u8, ..s3 }
        }
    }
}

/// The first `n` column steps of a pass.
pub open spec fn pass_prefix(img: IndexedImage, top: int, full: bool, s: BandView, n: nat) -> BandView
    decreases n,
{
    if n == 0 {
        s
    } else {
        column_step(img, top, full, pass_prefix(img, top, full, s, (n - 1) as nat), n - 1)
    }
}

/// A pass starts with a carriage return and no run in progress.
pub open spec fn pass_start(s: BandView) -> BandView {
    BandView { tokens: s.tokens.push((Option::None, "$"@)), same_count: 0, same_style: 0, skip: 0, ..s }
}

/// A pass ends by emitting the runs still in progress.
pub open spec fn pass_end(s: BandView, full: bool) -> BandView {
    let s1 = if s.same_count > 0 {
        emit(s, s.same.spec_selects(), s.same_count, s.same_style, full)
    } else {
        s
    };
    if s1.skip > 0 {
        emit(s1, Option::None, s1.skip, 0, full)
    } else {
        s1
    }
}

pub open spec fn one_pass(img: IndexedImage, top: int, full: bool, s: BandView) -> BandView {
    pass_end(pass_prefix(img, top, full, pass_start(s), img.width as nat), full)
}

pub open spec fn any_open(s: BandView) -> bool {
    exists|x: int| 0 <= x < s.active.len() && #[trigger] s.active[x]
}

/// Up to `k` passes, stopping once every column is closed.
pub open spec fn run_passes(img: IndexedImage, top: int, full: bool, s: BandView, k: nat) -> BandView
    decreases k,
{
    if k == 0 {
        s
    } else {
        let p = run_passes(img, top, full, s, (k - 1) as nat);
        if any_open(p) {
            one_pass(img, top, full, p)
        } else {
            p
        }
    }
}

pub open spec fn band_start(width: nat, tokens: Seq<(Option<u8>, Seq<char>)>, counter: Seq<u64>) -> BandView {
    BandView {
        active: Seq::new(width, |x: int| true),
        sum: Seq::new(width, |x: int| 0u8),
        head: Seq::new(width, |x: int| 0u8),
        used: Seq::new(6 * width, |i: int| -1i16),
        same: RunColor::Blank,
        same_count: 0,
        same_style: 0,
        skip: 0,
        tokens,
        counter,
    }
}

/// The band `band` encoded after `tokens` with usage `counter`: passes until
/// every column is closed (at most six), then a line feed.
pub open spec fn band_end(img: IndexedImage, band: int, full: bool, tokens: Seq<(Option<u8>, Seq<char>)>, counter: Seq<u64>) -> BandView {
    let s = run_passes(img, 6 * band, full, band_start(img.width as nat, tokens, counter), 6);
    BandView { tokens: s.tokens.push((Option::None, "-"@)), ..s }
}

proof fn lemma_run_passes_stable(img: IndexedImage, top: int, full: bool, s: BandView, k: nat, m: nat)
    requires
        k <= m,
        !any_open(run_passes(img, top, full, s, k)),
    ensures
        run_passes(img, top, full, s, m) == run_passes(img, top, full, s, k),
    decreases m,
{
    if m > k {
        lemma_run_passes_stable(img, top, full, s, k, (m - 1) as nat);
    }
}

struct BandState {
    active: Vec<bool>,
    sum: Vec<u8>,
    head: Vec<u8>,
    used: Vec<i16>,
    same: RunColor,
    same_count: usize,
    same_style: u8,
    skip: usize,
}

spec fn band_view(st: &BandState, tokens: Seq<SixelToken>, counter: Seq<u64>) -> BandView {
    BandView {
        active: st.active@,
        sum: st.sum@,
        head: st.head@,
        used: st.used@,
        same: st.same,
        same_count: st.same_count as nat,
        same_style: st.same_style,
        skip: st.skip as nat,
        tokens: tok_views(tokens),
        counter,
    }
}

/// Lengths and bounds that the column steps keep.
spec fn band_ok(st: &BandState, img: IndexedImage, top: int, counter: Seq<u64>) -> bool {
    let w = img.width as int;
    &&& st.active@.len() == w
    &&& st.sum@.len() == w
    &&& st.head@.len() == w
    &&& st.used@.len() == 6 * w
    &&& st.same_style < 64
    &&& st.same.below(img.palette@.len() as int)
    &&& counter.len() == img.palette@.len()
    &&& forall|x: int| 0 <= x < w && #[trigger] st.active@[x] ==> st.sum@[x] < 6 && st.head@[x] < 6 && top
        + st.head@[x] < img.height
}

fn emit_run(
    tokens: &mut Vec<SixelToken>,
    counter: &mut Vec<u64>,
    color: Option<u8>,
    times: usize,
    mask: u8,
    full: bool,
    Ghost(n_pal): Ghost<int>,
)
    requires
        mask < 64,
        times <= usize::MAX / 2,
        color is Some ==> (color->0 as int) < old(counter)@.len(),
        old(counter)@.len() == n_pal,
        tokens_below(old(tokens)@, n_pal),
    ensures
        tokens_below(final(tokens)@, n_pal),
        final(counter)@.len() == n_pal,
        tok_views(final(tokens)@) == tok_views(old(tokens)@).push((color, run_seq(run_len(times, full), sixel_char(mask)))),
        final(counter)@ == match color {
            Some(i) => old(counter)@.update(i as int, sat_sum(old(counter)@[i as int], run_len(times, full))),
            Option::None => old(counter)@,
        },
{
    let t = render_run(color, times, mask, full, counter);
    tokens.push(t);
    proof {
        assert(tok_views(tokens@) =~= tok_views(old(tokens)@).push((color, run_seq(run_len(times, full), sixel_char(mask)))));
    }
}

fn index_used(used: &Vec<i16>, base: usize, index: u8) -> (r: bool)
    requires
        base + 6 <= used@.len(),
    ensures
        r == used_has(used@, base as int, index),
{
    let n = used.len();
    let mut k: usize = 0;
    while k < 6
        invariant
            k <= 6,
            n == used@.len(),
            base + 6 <= used@.len(),
            forall|j: int| 0 <= j < k ==> #[trigger] used@[base + j] != index as i16,
        decreases 6 - k,
    {
        if used[base + k] == index as i16 {
            return true;
        }
        k = k + 1;
    }
    false
}

fn any_active(active: &Vec<bool>) -> (r: bool)
    ensures
        r == exists|x: int| 0 <= x < active@.len() && #[trigger] active@[x],
{
    let mut x: usize = 0;
    while x < active.len()
        invariant
            x <= active@.len(),
            forall|j: int| 0 <= j < x ==> !#[trigger] active@[j],
        decreases active@.len() - x,
    {
        if active[x] {
            return true;
        }
        x = x + 1;
    }
    false
}

/// The scan of `scan` from the column's head row.
fn scan_column(img: &IndexedImage, x: u32, top: u32, cur: u8, used: &Vec<i16>, base: usize, head0: u8, sum0: u8) -> (r: (u8, u8, u8))
    requires
        img.wf(),
        x < img.width,
        head0 < 6,
        top + head0 < img.height,
        sum0 < 6,
        cur == img.spec_pixel(x as int, top + head0),
        base + 6 <= used@.len(),
    ensures
        (r.0 as int, r.1 as int, r.2 as int) == scan(*img, x as int, top as int, cur, used@, base as int, head0 as int, sum0 as int, head0 as int, 0, true),
        sum0 + 1 <= r.0 <= sum0 + 6,
        r.1 < 6,
        top + r.1 < img.height,
        r.2 < 64,
{
    let ghost target = scan(*img, x as int, top as int, cur, used@, base as int, head0 as int, sum0 as int, head0 as int, 0, true);
    let h = img.height;
    let mut cur_sum: u8 = sum0;
    let mut cur_head: u8 = head0;
    let mut style: u8 = 0;
    let mut is_head = true;
    let mut dy: u8 = head0;
    while dy < 6
        invariant
            img.wf(),
            h == img.height,
            x < img.width,
            base + 6 <= used@.len(),
            head0 <= dy <= 6,
            head0 < 6,
            top + head0 < h,
            cur == img.spec_pixel(x as int, top + head0),
            sum0 < 6,
            sum0 <= cur_sum <= sum0 + (dy - head0),
            dy > head0 ==> cur_sum >= sum0 + 1,
            cur_head < 6,
            top + cur_head < h,
            style < bit(dy as int),
            scan(*img, x as int, top as int, cur, used@, base as int, dy as int, cur_sum as int, cur_head as int, style as int, is_head) == target,
        ensures
            cur_sum >= sum0 + 1,
            cur_sum <= sum0 + 6,
            style < 64,
            cur_head < 6,
            top + cur_head < h,
            (cur_sum as int, cur_head as int, style as int) == target,
        decreases 6 - dy,
    {
        if (top as u64) + (dy as u64) >= h as u64 {
            break;
        }
        let index = img.get_pixel(x, top + dy as u32);
        proof {
            if dy == head0 {
                assert(index == cur);
            }
        }
        if index == cur {
            cur_sum = cur_sum + 1;
            style = style + bit_exec(dy);
        } else if is_head && !index_used(used, base, index) {
            is_head = false;
            cur_head = dy;
        }
        dy = dy + 1;
    }
    (cur_sum, cur_head, style)
}

/// One column step; see `column_step`.
fn step_column(
    img: &IndexedImage,
    top: u32,
    full: bool,
    st: &mut BandState,
    tokens: &mut Vec<SixelToken>,
    counter: &mut Vec<u64>,
    x: usize,
)
    requires
        img.wf(),
        img.width <= u32::MAX / 4,
        (top as int) < img.height,
        x < img.width,
        band_ok(old(st), *img, top as int, old(counter)@),
        old(st).same_count + old(st).skip <= x,
        tokens_below(old(tokens)@, img.palette@.len() as int),
    ensures
        band_ok(final(st), *img, top as int, final(counter)@),
        final(st).same_count + final(st).skip <= x + 1,
        tokens_below(final(tokens)@, img.palette@.len() as int),
        band_view(final(st), final(tokens)@, final(counter)@) == column_step(*img, top as int, full, band_view(old(st), old(tokens)@, old(counter)@), x as int),
        forall|j: int| 0 <= j < img.width && j != x ==> final(st).active@[j] == old(st).active@[j]
            && final(st).sum@[j] == old(st).sum@[j],
        old(st).active@[x as int] && final(st).active@[x as int] ==> final(st).sum@[x as int] > old(st).sum@[x as int],
        !old(st).active@[x as int] ==> !final(st).active@[x as int],
{
    let ghost n_pal = img.palette@.len() as int;
    let ghost v0 = band_view(st, tokens@, counter@);
    if !st.active[x] {
        if st.same_count > 0 {
            emit_run(tokens, counter, st.same.selects(), st.same_count, st.same_style, full, Ghost(n_pal));
            st.same_count = 0;
        }
        st.skip = st.skip + 1;
        proof {
            assert(band_view(st, tokens@, counter@) =~= column_step(*img, top as int, full, v0, x as int));
        }
        return;
    }
    if st.skip > 0 {
        emit_run(tokens, counter, None, st.skip, 0, full, Ghost(n_pal));
        st.skip = 0;
    }
    let ghost v1 = band_view(st, tokens@, counter@);
    let h0 = st.head[x];
    let s0 = st.sum[x];
    let cur = img.get_pixel(x as u32, top + h0 as u32);
    let ulen = st.used.len();
    st.used.set(6 * x + h0 as usize, cur as i16);
    let (s2, hd2, style) = scan_column(img, x as u32, top, cur, &st.used, 6 * x, h0, s0);
    if s2 >= 6 {
        st.active.set(x, false);
    } else {
        st.sum.set(x, s2);
        st.head.set(x, hd2);
    }
    let ghost v2 = band_view(st, tokens@, counter@);
    proof {
        let used1 = v1.used.update(6 * x + h0, cur as i16);
        assert(st.used@ == used1);
        let r = scan(*img, x as int, top as int, cur, used1, 6 * x, h0 as int, v1.sum[x as int] as int, h0 as int, 0, true);
        assert(r == (s2 as int, hd2 as int, style as int));
        if s2 >= 6 {
            assert(v2 =~= BandView { active: v1.active.update(x as int, false), used: used1, ..v1 });
        } else {
            assert(v2 =~= BandView { sum: v1.sum.update(x as int, s2), head: v1.head.update(x as int, hd2), used: used1, ..v1 });
        }
    }
    if st.same_count > 0 && st.same.is(cur) && st.same_style == style {
        st.same_count = st.same_count + 1;
    } else {
        if st.same_count > 0 {
            emit_run(tokens, counter, st.same.selects(), st.same_count, st.same_style, full, Ghost(n_pal));
        }
        st.same_count = 1;
        st.same = st.same.update(cur);
        st.same_style = style;
    }
    proof {
        assert(band_view(st, tokens@, counter@) =~= column_step(*img, top as int, full, v0, x as int));
    }
}

/// Appends the tokens of band `band` (source rows `6 * band` to `6 * band + 5`):
/// `band_end` exactly.
///
/// Each pass over the columns draws, in every column still open, the colour at
/// the column's head row in all band rows that have it, and moves the head to the
/// first row below whose colour the column has not drawn yet; a column closes once
/// six rows were drawn. Neighbouring columns with the same colour and mask form one
/// run; closed columns form blank runs. Passes are separated by `$`, and the band
/// ends with `-`.
pub fn encode_band(img: &IndexedImage, band: u32, full: bool, tokens: &mut Vec<SixelToken>, counter: &mut Vec<u64>)
    requires
        img.wf(),
        6 * (band as int) < img.height,
        old(counter)@.len() == img.palette@.len(),
        tokens_below(old(tokens)@, img.palette@.len() as int),
        img.width <= u32::MAX / 4,
    ensures
        final(counter)@.len() == img.palette@.len(),
        tokens_below(final(tokens)@, img.palette@.len() as int),
        tok_views(final(tokens)@) == band_end(*img, band as int, full, tok_views(old(tokens)@), old(counter)@).tokens,
        final(counter)@ == band_end(*img, band as int, full, tok_views(old(tokens)@), old(counter)@).counter,
{
    let ghost n_pal = img.palette@.len() as int;
    let w = img.width;
    let top: u32 = 6 * band;
    let wu = w as usize;
    let mut active: Vec<bool> = Vec::new();
    let mut sum: Vec<u8> = Vec::new();
    let mut head: Vec<u8> = Vec::new();
    let mut used: Vec<i16> = Vec::new();
    let mut i: usize = 0;
    while i < wu
        invariant
            i <= wu,
            active@.len() == i,
            sum@.len() == i,
            head@.len() == i,
            used@.len() == 6 * i,
            forall|x: int| 0 <= x < i ==> #[trigger] active@[x],
            forall|x: int| 0 <= x < i ==> #[trigger] sum@[x] == 0,
            forall|x: int| 0 <= x < i ==> #[trigger] head@[x] == 0,
            forall|k: int| 0 <= k < 6 * i ==> #[trigger] used@[k] == -1,
        decreases wu - i,
    {
        active.push(true);
        sum.push(0);
        head.push(0);
        let mut k: usize = 0;
        while k < 6
            invariant
                k <= 6,
                used@.len() == 6 * i + k,
                forall|j: int| 0 <= j < 6 * i + k ==> #[trigger] used@[j] == -1,
            decreases 6 - k,
        {
            used.push(-1);
            k = k + 1;
        }
        i = i + 1;
    }
    let mut st = BandState { active, sum, head, used, same: RunColor::Blank, same_count: 0, same_style: 0, skip: 0 };
    let ghost s0 = band_start(w as nat, tok_views(tokens@), counter@);
    proof {
        assert(band_view(&st, tokens@, counter@) =~= s0);
    }
    let mut passes: u8 = 0;
    let mut any = wu > 0;
    proof {
        let v = band_view(&st, tokens@, counter@);
        assert(v.active == st.active@);
        if wu > 0 {
            assert(v.active[0]);
            assert(any_open(v));
        } else {
            assert(v.active.len() == 0);
            assert(!any_open(v));
        }
    }
    while any
        invariant
            img.wf(),
            w == img.width,
            wu == w as usize,
            w <= u32::MAX / 4,
            top == 6 * band,
            (top as int) < img.height,
            n_pal == img.palette@.len(),
            band_ok(&st, *img, top as int, counter@),
            passes <= 6,
            any == any_open(band_view(&st, tokens@, counter@)),
            forall|x: int| 0 <= x < wu && #[trigger] st.active@[x] ==> passes <= st.sum@[x],
            tokens_below(tokens@, n_pal),
            band_view(&st, tokens@, counter@) == run_passes(*img, top as int, full, s0, passes as nat),
        decreases 6 - passes,
    {
        proof {
            let x = choose|x: int| 0 <= x < st.active@.len() && #[trigger] st.active@[x];
            assert(passes <= st.sum@[x] < 6);
        }
        let ghost before = band_view(&st, tokens@, counter@);
        tokens.push(marker("$"));
        st.same_count = 0;
        st.same_style = 0;
        st.skip = 0;
        proof {
            assert(band_view(&st, tokens@, counter@) =~= pass_start(before));
        }
        let mut x: usize = 0;
        while x < wu
            invariant
                img.wf(),
                w == img.width,
                wu == w as usize,
                w <= u32::MAX / 4,
                top == 6 * band,
                (top as int) < img.height,
                n_pal == img.palette@.len(),
                x <= wu,
                band_ok(&st, *img, top as int, counter@),
                passes < 6,
                st.same_count + st.skip <= x,
                forall|j: int| 0 <= j < x && #[trigger] st.active@[j] ==> passes + 1 <= st.sum@[j],
                forall|j: int| x <= j < wu && #[trigger] st.active@[j] ==> passes <= st.sum@[j],
                tokens_below(tokens@, n_pal),
                band_view(&st, tokens@, counter@) == pass_prefix(*img, top as int, full, pass_start(before), x as nat),
            decreases wu - x,
        {
            let ghost old_active = st.active@;
            let ghost old_sum = st.sum@;
            step_column(img, top, full, &mut st, tokens, counter, x);
            x = x + 1;
            proof {
                assert forall|j: int| 0 <= j < x && #[trigger] st.active@[j] implies passes + 1 <= st.sum@[j] by {
                    if j == x - 1 {
                        assert(old_active[j]);
                    }
                }
            }
        }
        if st.same_count > 0 {
            emit_run(tokens, counter, st.same.selects(), st.same_count, st.same_style, full, Ghost(n_pal));
        }
        if st.skip > 0 {
            emit_run(tokens, counter, None, st.skip, 0, full, Ghost(n_pal));
        }
        proof {
            assert(band_view(&st, tokens@, counter@) =~= one_pass(*img, top as int, full, before));
        }
        passes = passes + 1;
        any = any_active(&st.active);
        proof {
            let v = band_view(&st, tokens@, counter@);
            assert(v.active == st.active@);
            if any {
                let x = choose|x: int| 0 <= x < st.active@.len() && #[trigger] st.active@[x];
                assert(v.active[x]);
            } else {
                assert forall|x: int| 0 <= x < v.active.len() implies !#[trigger] v.active[x] by {
                    assert(!st.active@[x]);
                }
            }
        }
    }
    proof {
        lemma_run_passes_stable(*img, top as int, full, s0, passes as nat, 6);
    }
    let ghost last = band_view(&st, tokens@, counter@);
    tokens.push(marker("-"));
    proof {
        assert(tok_views(tokens@) =~= last.tokens.push((Option::None, "-"@)));
    }
}

/// Whether palette index `a` comes before `b` in the hot-colour order: used more,
/// or used as much and lower.
pub open spec fn ranks_before(counts: Seq<u64>, a: int, b: int) -> bool {
    counts[a] > counts[b] || (counts[a] == counts[b] && a < b)
}

/// `order` lists every palette index once, most used first, ties by index.
pub open spec fn is_hot_order(counts: Seq<u64>, order: Seq<usize>) -> bool {
    &&& order.len() == counts.len()
    &&& forall|k: int| 0 <= k < order.len() ==> (#[trigger] order[k] as int) < counts.len()
    &&& forall|i: int, j: int| 0 <= i < j < order.len() ==> order[i] != order[j]
    &&& forall|k: int| 0 <= k < order.len() - 1 ==> #[trigger] ranks_before(counts, order[k] as int, order[k + 1] as int)
}

/// The palette indices in hot-colour order.
pub fn rank_colors(counts: &Vec<u64>) -> (order: Vec<usize>)
    ensures
        is_hot_order(counts@, order@),
{
    let n = counts.len();
    let mut order: Vec<usize> = Vec::new();
    let mut i: usize = 0;
    while i < n
        invariant
            n == counts@.len(),
            i <= n,
            order@.len() == i,
            forall|k: int| 0 <= k < order@.len() ==> (#[trigger] order@[k] as int) < i,
            forall|a: int, b: int| 0 <= a < b < order@.len() ==> order@[a] != order@[b],
            forall|k: int| 0 <= k < order@.len() - 1 ==> #[trigger] ranks_before(counts@, order@[k] as int, order@[k + 1] as int),
        decreases n - i,
    {
        let mut p: usize = 0;
        while p < order.len() && !(counts[i] > counts[order[p]])
            invariant
                n == counts@.len(),
                i < n,
                p <= order@.len(),
                forall|k: int| 0 <= k < order@.len() ==> (#[trigger] order@[k] as int) < i,
                forall|q: int| 0 <= q < p ==> !(counts@[i as int] > counts@[#[trigger] order@[q] as int]),
                forall|a: int, b: int| 0 <= a < b < order@.len() ==> order@[a] != order@[b],
                forall|k: int| 0 <= k < order@.len() - 1 ==> #[trigger] ranks_before(counts@, order@[k] as int, order@[k + 1] as int),
            decreases order@.len() - p,
        {
            p = p + 1;
        }
        let ghost old_order = order@;
        order.insert(p, i);
        proof {
            assert(order@ == old_order.insert(p as int, i));
            assert forall|k: int| 0 <= k < order@.len() - 1 implies #[trigger] ranks_before(counts@, order@[k] as int, order@[k + 1] as int) by {
                if k + 1 < p {
                    assert(order@[k] == old_order[k]);
                    assert(order@[k + 1] == old_order[k + 1]);
                    assert(ranks_before(counts@, old_order[k] as int, old_order[k + 1] as int));
                } else if k + 1 == p {
                    assert(order@[k] == old_order[k]);
                    assert(order@[k + 1] == i);
                    assert(!(counts@[i as int] > counts@[old_order[k] as int]));
                    assert((old_order[k] as int) < i);
                } else if k == p {
                    assert(order@[k] == i);
                    assert(order@[k + 1] == old_order[k]);
                    assert((old_order[k] as int) < i);
                    assert(counts@[i as int] > counts@[old_order[k] as int]);
                } else {
                    assert(order@[k] == old_order[k - 1]);
                    assert(order@[k + 1] == old_order[k]);
                    let j = k - 1;
                    assert(ranks_before(counts@, old_order[j] as int, old_order[j + 1] as int));
                }
            }
            assert forall|k: int| 0 <= k < order@.len() implies (#[trigger] order@[k] as int) < i + 1 by {
                if k < p {
                    assert(order@[k] == old_order[k]);
                } else if k > p {
                    assert(order@[k] == old_order[k - 1]);
                }
            }
            assert forall|a: int, b: int| 0 <= a < b < order@.len() implies order@[a] != order@[b] by {
                if a < p {
                    assert(order@[a] == old_order[a]);
                } else if a > p {
                    assert(order@[a] == old_order[a - 1]);
                }
                if b < p {
                    assert(order@[b] == old_order[b]);
                } else if b > p {
                    assert(order@[b] == old_order[b - 1]);
                }
            }
        }
        i = i + 1;
    }
    order
}

/// The position of each palette index in `order`.
pub fn invert_order(order: &Vec<usize>) -> (rank: Vec<usize>)
    requires
        forall|k: int| 0 <= k < order@.len() ==> (#[trigger] order@[k] as int) < order@.len(),
        forall|i: int, j: int| 0 <= i < j < order@.len() ==> order@[i] != order@[j],
    ensures
        rank@.len() == order@.len(),
        forall|k: int| 0 <= k < order@.len() ==> rank@[#[trigger] order@[k] as int] == k,
{
    let n = order.len();
    let mut rank: Vec<usize> = Vec::new();
    let mut i: usize = 0;
    while i < n
        invariant
            i <= n,
            rank@.len() == i,
        decreases n - i,
    {
        rank.push(0);
        i = i + 1;
    }
    let mut k: usize = 0;
    while k < n
        invariant
            n == order@.len(),
            rank@.len() == n,
            k <= n,
            forall|j: int| 0 <= j < order@.len() ==> (#[trigger] order@[j] as int) < order@.len(),
            forall|a: int, b: int| 0 <= a < b < order@.len() ==> order@[a] != order@[b],
            forall|j: int| 0 <= j < k ==> rank@[#[trigger] order@[j] as int] == j,
        decreases n - k,
    {
        rank.set(order[k], k);
        k = k + 1;
    }
    rank
}

/// The colour register definition of palette colour `c` as register `r`.
pub open spec fn palette_def(r: nat, c: RgbColor) -> Seq<char> {
    "#"@ + dec(r) + ";2;"@ + dec(percent(c.red)) + ";"@ + dec(percent(c.green)) + ";"@ + dec(
        percent(c.blue),
    )
}

/// The definitions of the first `n` registers: register `k` holds `order[k]`.
pub open spec fn palette_defs(palette: Seq<RgbColor>, order: Seq<usize>, n: nat) -> Seq<char>
    decreases n,
{
    if n == 0 {
        Seq::empty()
    } else {
        palette_defs(palette, order, (n - 1) as nat) + palette_def((n - 1) as nat, palette[order[n - 1] as int])
    }
}

/// A token's text, after the register selection `#<rank>` when it selects a colour.
pub open spec fn token_text(t: (Option<u8>, Seq<char>), rank: Seq<usize>) -> Seq<char> {
    match t.0 {
        Some(i) => "#"@ + dec(rank[i as int] as nat) + t.1,
        None => t.1,
    }
}

pub open spec fn tokens_text(tokens: Seq<(Option<u8>, Seq<char>)>, rank: Seq<usize>, n: nat) -> Seq<char>
    decreases n,
{
    if n == 0 {
        Seq::empty()
    } else {
        tokens_text(tokens, rank, (n - 1) as nat) + token_text(tokens[n - 1], rank)
    }
}

pub open spec fn sixel_header(full: bool) -> Seq<char> {
    if full {
        "\x1bP9;1q"@
    } else {
        "\x1bPq"@
    }
}

/// The whole DECSIXEL sequence.
pub open spec fn sixel_text(
    palette: Seq<RgbColor>,
    order: Seq<usize>,
    rank: Seq<usize>,
    tokens: Seq<(Option<u8>, Seq<char>)>,
    full: bool,
) -> Seq<char> {
    sixel_header(full) + palette_defs(palette, order, order.len()) + tokens_text(tokens, rank, tokens.len())
        + "\x1b\\"@
}

fn palette_def_string(r: usize, c: RgbColor) -> (s: String)
    ensures
        s@ == palette_def(r as nat, c),
{
    let mut s = String::new();
    s.append("#");
    push_dec(&mut s, r as u64);
    s.append(";2;");
    push_percent(&mut s, c.red);
    s.append(";");
    push_percent(&mut s, c.green);
    s.append(";");
    push_percent(&mut s, c.blue);
    proof {
        assert(s@ =~= palette_def(r as nat, c));
    }
    s
}

fn push_percent(out: &mut String, c: u8)
    ensures
        final(out)@ == old(out)@ + dec(percent(c)),
{
    let v: u64 = (200 * (c as u64) + 255) / 510;
    push_dec(out, v);
}

/// Wraps the palette, in hot-colour order, and the tokens into one DECSIXEL
/// sequence; `order` lists the palette indices and `rank` is its inverse.
pub fn sixel_assemble(
    palette: &Vec<RgbColor>,
    order: &Vec<usize>,
    rank: &Vec<usize>,
    tokens: &Vec<SixelToken>,
    full: bool,
) -> (r: String)
    requires
        order@.len() == palette@.len(),
        rank@.len() == palette@.len(),
        forall|k: int| 0 <= k < order@.len() ==> (#[trigger] order@[k] as int) < palette@.len(),
        tokens_below(tokens@, palette@.len() as int),
    ensures
        r@ == sixel_text(palette@, order@, rank@, tok_views(tokens@), full),
{
    let mut out = String::new();
    if full {
        out.append("\x1bP9;1q");
    } else {
        out.append("\x1bPq");
    }
    let ghost head = out@;
    let mut k: usize = 0;
    while k < order.len()
        invariant
            k <= order@.len(),
            order@.len() == palette@.len(),
            forall|j: int| 0 <= j < order@.len() ==> (#[trigger] order@[j] as int) < palette@.len(),
            out@ == head + palette_defs(palette@, order@, k as nat),
        decreases order@.len() - k,
    {
        let c = palette[order[k]];
        let def = palette_def_string(k, c);
        let ghost before = out@;
        out.append(def.as_str());
        k = k + 1;
        proof {
            assert(palette_defs(palette@, order@, k as nat) == palette_defs(palette@, order@, (k - 1) as nat)
                + palette_def((k - 1) as nat, palette@[order@[k - 1] as int]));
            assert(out@ =~= head + palette_defs(palette@, order@, k as nat));
        }
    }
    let ghost mid = out@;
    let mut t: usize = 0;
    while t < tokens.len()
        invariant
            t <= tokens@.len(),
            rank@.len() == palette@.len(),
            tokens_below(tokens@, palette@.len() as int),
            out@ == mid + tokens_text(tok_views(tokens@), rank@, t as nat),
        decreases tokens@.len() - t,
    {
        let tok = &tokens[t];
        match tok.color {
            Some(i) => {
                out.append("#");
                push_dec(&mut out, rank[i as usize] as u64);
            },
            None => {},
        }
        out.append(tok.text.as_str());
        t = t + 1;
        proof {
            assert(out@ =~= mid + tokens_text(tok_views(tokens@), rank@, t as nat));
        }
    }
    out.append("\x1b\\");
    proof {
        assert(out@ =~= sixel_text(palette@, order@, rank@, tok_views(tokens@), full));
    }
    out
}

/// The tokens and palette usage after the first `n` bands.
pub open spec fn bands_upto(img: IndexedImage, full: bool, n: nat) -> (Seq<(Option<u8>, Seq<char>)>, Seq<u64>)
    decreases n,
{
    if n == 0 {
        (Seq::empty(), Seq::new(img.palette@.len(), |i: int| 0u64))
    } else {
        let prev = bands_upto(img, full, (n - 1) as nat);
        let b = band_end(img, n - 1, full, prev.0, prev.1);
        (b.tokens, b.counter)
    }
}

pub open spec fn band_count(height: u32) -> nat {
    (height / 6 + if height % 6 == 0 { 0int } else { 1int }) as nat
}

/// `text` is the DECSIXEL encoding of `img`: the palette in hot-colour order of
/// the usage that the bands counted, then the bands' tokens.
pub open spec fn is_sixel_of(img: IndexedImage, full: bool, text: Seq<char>) -> bool {
    let b = bands_upto(img, full, band_count(img.height));
    exists|order: Seq<usize>, rank: Seq<usize>|
        is_hot_order(b.1, order) && (forall|k: int| 0 <= k < order.len() ==> #[trigger] rank[order[k] as int] == k)
            && text == #[trigger] sixel_text(img.palette@, order, rank, b.0, full)
}

/// Encodes an indexed image as DECSIXEL: bands of six rows, then the palette in
/// hot-colour order of the usage that the bands counted.
pub fn sixel_encode(img: &IndexedImage, full: bool) -> (r: String)
    requires
        img.wf(),
        img.width <= u32::MAX / 4,
    ensures
        is_sixel_of(*img, full, r@),
{
    let n = img.palette.len();
    let mut counter: Vec<u64> = Vec::new();
    let mut i: usize = 0;
    while i < n
        invariant
            i <= n,
            counter@.len() == i,
            forall|j: int| 0 <= j < i ==> #[trigger] counter@[j] == 0,
        decreases n - i,
    {
        counter.push(0);
        i = i + 1;
    }
    let mut tokens: Vec<SixelToken> = Vec::new();
    proof {
        assert(counter@ =~= bands_upto(*img, full, 0).1);
        assert(tok_views(tokens@) =~= bands_upto(*img, full, 0).0);
    }
    let bands: u32 = img.height / 6 + if img.height % 6 == 0 { 0 } else { 1 };
    let mut band: u32 = 0;
    while band < bands
        invariant
            img.wf(),
            img.width <= u32::MAX / 4,
            n == img.palette@.len(),
            bands as int == img.height as int / 6 + (if img.height as int % 6 == 0 { 0int } else { 1int }),
            band <= bands,
            counter@.len() == n,
            tokens_below(tokens@, n as int),
            tok_views(tokens@) == bands_upto(*img, full, band as nat).0,
            counter@ == bands_upto(*img, full, band as nat).1,
        decreases bands - band,
    {
        encode_band(img, band, full, &mut tokens, &mut counter);
        band = band + 1;
    }
    let order = rank_colors(&counter);
    let rank = invert_order(&order);
    let r = sixel_assemble(&img.palette, &order, &rank, &tokens, full);
    proof {
        assert(band as nat == band_count(img.height));
        assert(is_hot_order(counter@, order@));
        assert(r@ == sixel_text(img.palette@, order@, rank@, bands_upto(*img, full, band_count(img.height)).0, full));
    }
    r
}

} // verus!
