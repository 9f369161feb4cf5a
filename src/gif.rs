use vstd::prelude::*;
use crate::raster::{pixel_index, PixelColor, RgbaImage, lemma_index_in_grid};

verus! {

/// What a GIF frame asks to be done with its area before the next frame.
#[derive(Debug, Clone, Copy, PartialEq, Eq, Structural)]
pub enum DisposalMethod {
    Any,
    Keep,
    Background,
    Previous,
}

/// One GIF sub-frame: its rectangle on the canvas, disposal, optional local
/// palette of RGB triples, transparent index and palette indices in row order.
pub struct GifFrame {
    pub left: u16,
    pub top: u16,
    pub width: u16,
    pub height: u16,
    pub dispose: DisposalMethod,
    pub palette: Option<Vec<u8>>,
    pub transparent: Option<u8>,
    pub buffer: Vec<u8>,
}

pub open spec fn transparent_pixel() -> PixelColor {
    PixelColor { r: 0, g: 0, b: 0, a: 0 }
}

/// Whether `(x, y)` lies in the rectangle `(left, top, width, height)`.
pub open spec fn in_rect(x: int, y: int, area: (u32, u32, u32, u32)) -> bool {
    area.0 <= x < area.0 + area.2 && area.1 <= y < area.1 + area.3
}

pub open spec fn frame_area(frame: &GifFrame) -> (u32, u32, u32, u32) {
    (frame.left as u32, frame.top as u32, frame.width as u32, frame.height as u32)
}

/// Folds GIF frames into full-canvas images, applying each frame's disposal
/// before the next frame is drawn.
pub struct GifFrameProcessor {
    pub global_palette: Option<Vec<u8>>,
    pub last_disposal: DisposalMethod,
    pub last_frame_area: (u32, u32, u32, u32),
    pub canvas: RgbaImage,
    pub previous_canvas: Option<RgbaImage>,
}

impl GifFrame {
    /// The palette the frame draws with: its own, else the stream's.
    pub open spec fn palette_with(&self, global: Option<Vec<u8>>) -> Seq<u8> {
        match self.palette {
            Some(p) => p@,
            Option::None => match global {
                Some(g) => g@,
                Option::None => Seq::empty(),
            },
        }
    }

    /// The colour that the frame puts at canvas pixel `(x, y)`, if it puts one.
    pub open spec fn color_at(&self, global: Option<Vec<u8>>, x: int, y: int) -> Option<PixelColor> {
        let fx = x - self.left;
        let fy = y - self.top;
        if 0 <= fx < self.width && 0 <= fy < self.height {
            let idx = self.buffer@[fy * self.width + fx];
            if self.transparent == Some(idx) {
                Option::None
            } else {
                let pal = self.palette_with(global);
                Some(PixelColor { r: pal[3 * idx], g: pal[3 * idx + 1], b: pal[3 * idx + 2], a: 255 })
            }
        } else {
            Option::None
        }
    }

    /// One index per pixel, a palette to draw with, and every drawn index in it.
    pub open spec fn drawable(&self, global: Option<Vec<u8>>) -> bool {
        &&& self.buffer@.len() == self.width as int * self.height as int
        &&& (self.palette is Some || global is Some)
        &&& forall|i: int| 0 <= i < self.buffer@.len() && self.transparent != Some(#[trigger] self.buffer@[i])
            ==> 3 * (self.buffer@[i] as int) + 2 < self.palette_with(global).len()
    }
}

impl GifFrameProcessor {
    pub open spec fn wf(&self) -> bool {
        &&& self.canvas.wf()
        &&& self.last_frame_area.0 <= 65535 && self.last_frame_area.1 <= 65535
        &&& self.last_frame_area.2 <= 65535 && self.last_frame_area.3 <= 65535
        &&& self.previous_canvas is Some ==> (self.previous_canvas->0.wf()
            && self.previous_canvas->0.width == self.canvas.width
            && self.previous_canvas->0.height == self.canvas.height)
    }

    /// Canvas pixel `(x, y)` once the last frame's disposal is applied.
    pub open spec fn cleaned_at(&self, x: int, y: int) -> PixelColor {
        match self.last_disposal {
            DisposalMethod::Background => if in_rect(x, y, self.last_frame_area) {
                transparent_pixel()
            } else {
                self.canvas.spec_pixel(x, y)
            },
            DisposalMethod::Previous => match self.previous_canvas {
                Some(p) => p.spec_pixel(x, y),
                Option::None => self.canvas.spec_pixel(x, y),
            },
            _ => self.canvas.spec_pixel(x, y),
        }
    }

    /// Canvas pixel `(x, y)` once `frame` is drawn after the disposal.
    pub open spec fn drawn_at(&self, frame: &GifFrame, x: int, y: int) -> PixelColor {
        match frame.color_at(self.global_palette, x, y) {
            Some(c) => c,
            Option::None => self.cleaned_at(x, y),
        }
    }

    /// `next` is the state after `process_frame(frame)` on `self`.
    pub open spec fn steps_to(&self, frame: &GifFrame, next: &GifFrameProcessor) -> bool {
        &&& next.wf()
        &&& next.canvas.width == self.canvas.width
        &&& next.canvas.height == self.canvas.height
        &&& next.global_palette == self.global_palette
        &&& next.last_disposal == frame.dispose
        &&& next.last_frame_area == frame_area(frame)
        &&& forall|x: int, y: int| 0 <= x < self.canvas.width && 0 <= y < self.canvas.height
            ==> #[trigger] next.canvas.spec_pixel(x, y) == self.drawn_at(frame, x, y)
        &&& frame.dispose == DisposalMethod::Previous ==> (next.previous_canvas is Some && forall|
            x: int,
            y: int,
        | 0 <= x < self.canvas.width && 0 <= y < self.canvas.height ==> #[trigger] next.previous_canvas->0.spec_pixel(x, y)
            == self.cleaned_at(x, y))
        &&& frame.dispose != DisposalMethod::Previous ==> next.previous_canvas == self.previous_canvas
    }

    /// A compositor for a `width` by `height` canvas, fully transparent.
    pub fn new(width: u32, height: u32, global_palette: Option<Vec<u8>>) -> (r: GifFrameProcessor)
        requires
            width as int * height as int <= usize::MAX,
        ensures
            r.wf(),
            r.canvas.width == width,
            r.canvas.height == height,
            forall|x: int, y: int| 0 <= x < width && 0 <= y < height ==> #[trigger] r.canvas.spec_pixel(x, y)
                == transparent_pixel(),
            r.global_palette == global_palette,
            r.last_disposal == DisposalMethod::Any,
            r.previous_canvas is None,
    {
        let canvas = RgbaImage::filled(width, height, PixelColor { r: 0, g: 0, b: 0, a: 0 });
        proof {
            assert forall|x: int, y: int| 0 <= x < width && 0 <= y < height implies #[trigger] canvas.spec_pixel(x, y)
                == transparent_pixel() by {
                lemma_index_in_grid(x, y, width as int, height as int);
            }
        }
        GifFrameProcessor {
            global_palette,
            last_disposal: DisposalMethod::Any,
            last_frame_area: (0, 0, 0, 0),
            canvas,
            previous_canvas: Option::None,
        }
    }

    /// Whether `frame` meets what `process_frame` asks of it.
    pub fn frame_is_drawable(&self, frame: &GifFrame) -> (r: bool)
        ensures
            r == frame.drawable(self.global_palette),
    {
        let pal: &Vec<u8> = match &frame.palette {
            Some(p) => p,
            Option::None => match &self.global_palette {
                Some(g) => g,
                Option::None => {
                    return false;
                },
            },
        };
        let n = frame.buffer.len();
        proof {
            let (a, b) = (frame.width as int, frame.height as int);
            assert(0 <= a * b <= 65535 * 65535) by (nonlinear_arith)
                requires
                    0 <= a <= 65535,
                    0 <= b <= 65535,
            ;
        }
        if n as u64 != (frame.width as u64) * (frame.height as u64) {
            return false;
        }
        let mut i: usize = 0;
        while i < n
            invariant
                n == frame.buffer@.len(),
                i <= n,
                pal@ == frame.palette_with(self.global_palette),
                forall|j: int| 0 <= j < i && frame.transparent != Some(#[trigger] frame.buffer@[j])
                    ==> 3 * (frame.buffer@[j] as int) + 2 < pal@.len(),
            decreases n - i,
        {
            let idx = frame.buffer[i];
            let skip = match frame.transparent {
                Some(t) => t == idx,
                Option::None => false,
            };
            if !skip && 3 * (idx as usize) + 2 >= pal.len() {
                return false;
            }
            i = i + 1;
        }
        true
    }
}

/// Distinct grid positions have distinct row-major indices.
pub proof fn lemma_index_injective(x1: int, y1: int, x2: int, y2: int, w: int)
    requires
        0 <= x1 < w,
        0 <= x2 < w,
        0 <= y1,
        0 <= y2,
        pixel_index(x1, y1, w) == pixel_index(x2, y2, w),
    ensures
        x1 == x2 && y1 == y2,
{
    if y1 < y2 {
        assert(y1 * w + w <= y2 * w) by (nonlinear_arith)
            requires
                y1 < y2,
                w > 0,
        ;
    } else if y2 < y1 {
        assert(y2 * w + w <= y1 * w) by (nonlinear_arith)
            requires
                y2 < y1,
                w > 0,
        ;
    }
}

/// Sets pixel `(x, y)` of `canvas` to `c`.
fn put_pixel(canvas: &mut RgbaImage, x: u32, y: u32, c: PixelColor)
    requires
        old(canvas).wf(),
        x < old(canvas).width,
        y < old(canvas).height,
    ensures
        final(canvas).wf(),
        final(canvas).width == old(canvas).width,
        final(canvas).height == old(canvas).height,
        forall|px: int, py: int| 0 <= px < old(canvas).width && 0 <= py < old(canvas).height
            ==> #[trigger] final(canvas).spec_pixel(px, py) == if px == x && py == y {
                c
            } else {
                old(canvas).spec_pixel(px, py)
            },
{
    let n = canvas.pixels.len();
    proof {
        lemma_index_in_grid(x as int, y as int, canvas.width as int, canvas.height as int);
        assert(0 <= (y as int) * (canvas.width as int) <= (y as int) * (canvas.width as int) + x as int) by (nonlinear_arith)
            requires
                0 <= y,
                0 <= canvas.width,
                0 <= x,
        ;
    }
    let i = (y as usize) * (canvas.width as usize) + (x as usize);
    let ghost before = *canvas;
    canvas.pixels.set(i, c);
    proof {
        assert forall|px: int, py: int| 0 <= px < before.width && 0 <= py < before.height implies #[trigger] canvas.spec_pixel(px, py)
            == if px == x && py == y { c } else { before.spec_pixel(px, py) } by {
            lemma_index_in_grid(px, py, before.width as int, before.height as int);
            if pixel_index(px, py, before.width as int) == i {
                lemma_index_injective(px, py, x as int, y as int, before.width as int);
            }
        }
    }
}

/// Canvas pixel `(x, y)` while `frame` is drawn row by row: drawn up to frame
/// position `(fx, fy)` (exclusive), disposed-of canvas elsewhere.
pub open spec fn drawn_until(s0: GifFrameProcessor, frame: &GifFrame, fy: int, fx: int, x: int, y: int) -> PixelColor {
    let dx = x - frame.left;
    let dy = y - frame.top;
    if 0 <= dx < frame.width && 0 <= dy < frame.height && (dy < fy || (dy == fy && dx < fx)) {
        s0.drawn_at(frame, x, y)
    } else {
        s0.cleaned_at(x, y)
    }
}

impl GifFrameProcessor {
    /// Applies the last frame's disposal to the canvas.
    fn clean_canvas(&mut self)
        requires
            old(self).wf(),
        ensures
            final(self).wf(),
            final(self).canvas.width == old(self).canvas.width,
            final(self).canvas.height == old(self).canvas.height,
            final(self).global_palette == old(self).global_palette,
            final(self).last_disposal == old(self).last_disposal,
            final(self).last_frame_area == old(self).last_frame_area,
            final(self).previous_canvas == old(self).previous_canvas,
            forall|x: int, y: int| 0 <= x < old(self).canvas.width && 0 <= y < old(self).canvas.height
                ==> #[trigger] final(self).canvas.spec_pixel(x, y) == old(self).cleaned_at(x, y),
    {
        let ghost s0 = *self;
        match self.last_disposal {
            DisposalMethod::Background => {
                let (left, top, w, h) = self.last_frame_area;
                let mut y: u32 = top;
                while y < top + h
                    invariant
                        self.wf(),
                        self.canvas.width == s0.canvas.width,
                        self.canvas.height == s0.canvas.height,
                        self.global_palette == s0.global_palette,
                        self.last_disposal == s0.last_disposal,
                        self.last_frame_area == s0.last_frame_area,
                        self.previous_canvas == s0.previous_canvas,
                        s0.last_disposal == DisposalMethod::Background,
                        (left, top, w, h) == s0.last_frame_area,
                        left <= 65535 && top <= 65535 && w <= 65535 && h <= 65535,
                        top <= y <= top + h,
                        forall|px: int, py: int| 0 <= px < s0.canvas.width && 0 <= py < s0.canvas.height
                            ==> #[trigger] self.canvas.spec_pixel(px, py) == if in_rect(px, py, s0.last_frame_area) && py < y {
                                transparent_pixel()
                            } else {
                                s0.canvas.spec_pixel(px, py)
                            },
                    decreases top + h - y,
                {
                    let mut x: u32 = left;
                    while x < left + w
                        invariant
                            self.wf(),
                            self.canvas.width == s0.canvas.width,
                            self.canvas.height == s0.canvas.height,
                            self.global_palette == s0.global_palette,
                            self.last_disposal == s0.last_disposal,
                            self.last_frame_area == s0.last_frame_area,
                            self.previous_canvas == s0.previous_canvas,
                            (left, top, w, h) == s0.last_frame_area,
                            left <= 65535 && top <= 65535 && w <= 65535 && h <= 65535,
                            top <= y < top + h,
                            left <= x <= left + w,
                            forall|px: int, py: int| 0 <= px < s0.canvas.width && 0 <= py < s0.canvas.height
                                ==> #[trigger] self.canvas.spec_pixel(px, py) == if in_rect(px, py, s0.last_frame_area)
                                    && (py < y || (py == y && px < x)) {
                                    transparent_pixel()
                                } else {
                                    s0.canvas.spec_pixel(px, py)
                                },
                        decreases left + w - x,
                    {
                        if x < self.canvas.width && y < self.canvas.height {
                            put_pixel(&mut self.canvas, x, y, PixelColor { r: 0, g: 0, b: 0, a: 0 });
                        }
                        x = x + 1;
                    }
                    y = y + 1;
                }
            },
            DisposalMethod::Previous => {
                match &self.previous_canvas {
                    Some(prev) => {
                        self.canvas = prev.duplicate();
                    },
                    Option::None => {},
                }
            },
            _ => {},
        }
    }

    /// Draws `frame` onto the canvas and returns a copy of the whole canvas.
    ///
    /// First the previous frame's disposal: `Background` clears its rectangle to
    /// transparent, `Previous` restores the saved canvas. A frame that itself
    /// disposes to `Previous` saves the canvas at this point. Then every pixel of
    /// the frame that is not the transparent index and falls on the canvas takes
    /// its palette colour, opaque.
    pub fn process_frame(&mut self, frame: &GifFrame) -> (r: RgbaImage)
        requires
            old(self).wf(),
            frame.drawable(old(self).global_palette),
        ensures
            old(self).steps_to(frame, final(self)),
            r.wf(),
            r.width == final(self).canvas.width,
            r.height == final(self).canvas.height,
            r.pixels@ == final(self).canvas.pixels@,
    {
        let ghost s0 = *self;
        self.clean_canvas();
        if frame.dispose == DisposalMethod::Previous {
            self.previous_canvas = Some(self.canvas.duplicate());
        }
        let ghost s1 = *self;
        proof {
            if frame.dispose == DisposalMethod::Previous {
                assert forall|x: int, y: int| 0 <= x < s0.canvas.width && 0 <= y < s0.canvas.height
                    implies #[trigger] s1.previous_canvas->0.spec_pixel(x, y) == s0.cleaned_at(x, y) by {
                    assert(s1.previous_canvas->0.spec_pixel(x, y) == s1.canvas.spec_pixel(x, y));
                }
            }
        }
        let blen = frame.buffer.len();
        let pal: &Vec<u8> = match &frame.palette {
            Some(p) => p,
            Option::None => match &self.global_palette {
                Some(g) => g,
                Option::None => {
                    proof {
                        assert(false);
                    }
                    return self.canvas.duplicate();
                },
            },
        };
        let fw = frame.width as u32;
        let fh = frame.height as u32;
        let left = frame.left as u32;
        let top = frame.top as u32;
        let mut fy: u32 = 0;
        while fy < fh
            invariant
                self.wf(),
                frame.drawable(s0.global_palette),
                pal@ == frame.palette_with(s0.global_palette),
                fw == frame.width,
                fh == frame.height,
                left == frame.left,
                top == frame.top,
                fy <= fh,
                blen == frame.buffer@.len(),
                self.canvas.width == s0.canvas.width,
                self.canvas.height == s0.canvas.height,
                self.global_palette == s0.global_palette,
                self.last_disposal == s0.last_disposal,
                self.last_frame_area == s0.last_frame_area,
                self.previous_canvas == s1.previous_canvas,
                forall|x: int, y: int| 0 <= x < s0.canvas.width && 0 <= y < s0.canvas.height
                    ==> #[trigger] self.canvas.spec_pixel(x, y) == drawn_until(s0, frame, fy as int, 0, x, y),
            decreases fh - fy,
        {
            let mut fx: u32 = 0;
            while fx < fw
                invariant
                    self.wf(),
                    frame.drawable(s0.global_palette),
                    pal@ == frame.palette_with(s0.global_palette),
                    fw == frame.width,
                    fh == frame.height,
                    left == frame.left,
                    top == frame.top,
                    fy < fh,
                    fx <= fw,
                    blen == frame.buffer@.len(),
                    self.canvas.width == s0.canvas.width,
                    self.canvas.height == s0.canvas.height,
                    self.global_palette == s0.global_palette,
                    self.last_disposal == s0.last_disposal,
                    self.last_frame_area == s0.last_frame_area,
                    self.previous_canvas == s1.previous_canvas,
                    forall|x: int, y: int| 0 <= x < s0.canvas.width && 0 <= y < s0.canvas.height
                        ==> #[trigger] self.canvas.spec_pixel(x, y) == drawn_until(s0, frame, fy as int, fx as int, x, y),
                decreases fw - fx,
            {
                proof {
                    lemma_index_in_grid(fx as int, fy as int, fw as int, fh as int);
                    assert(0 <= (fy as int) * (fw as int) <= (fy as int) * (fw as int) + fx as int) by (nonlinear_arith)
                        requires
                            0 <= fy,
                            0 <= fw,
                            0 <= fx,
                    ;
                }
                let k = (fy as usize) * (fw as usize) + (fx as usize);
                let idx = frame.buffer[k];
                let cx = left + fx;
                let cy = top + fy;
                let ghost before = self.canvas;
                let skip = match frame.transparent {
                    Some(t) => t == idx,
                    Option::None => false,
                };
                if !skip {
                    let i3 = 3 * (idx as usize);
                    let c = PixelColor { r: pal[i3], g: pal[i3 + 1], b: pal[i3 + 2], a: 255 };
                    if cx < self.canvas.width && cy < self.canvas.height {
                        put_pixel(&mut self.canvas, cx, cy, c);
                    }
                }
                fx = fx + 1;
                proof {
                    assert forall|x: int, y: int| 0 <= x < s0.canvas.width && 0 <= y < s0.canvas.height
                        implies #[trigger] self.canvas.spec_pixel(x, y) == drawn_until(s0, frame, fy as int, fx as int, x, y) by {
                        assert(before.spec_pixel(x, y) == drawn_until(s0, frame, fy as int, fx - 1, x, y));
                        if x == cx && y == cy {
                            assert(frame.buffer@[(y - frame.top) * frame.width + (x - frame.left)] == idx);
                        }
                    }
                }
            }
            proof {
                assert forall|x: int, y: int| 0 <= x < s0.canvas.width && 0 <= y < s0.canvas.height
                    implies #[trigger] drawn_until(s0, frame, fy as int, fw as int, x, y) == drawn_until(s0, frame, fy + 1, 0, x, y) by {
                }
            }
            fy = fy + 1;
        }
        self.last_disposal = frame.dispose;
        self.last_frame_area = (left, top, fw, fh);
        proof {
            assert forall|x: int, y: int| 0 <= x < s0.canvas.width && 0 <= y < s0.canvas.height
                implies #[trigger] self.canvas.spec_pixel(x, y) == s0.drawn_at(frame, x, y) by {
                assert(self.canvas.spec_pixel(x, y) == drawn_until(s0, frame, fh as int, 0, x, y));
            }
        }
        self.canvas.duplicate()
    }
}

/// Disposal to the background: when a frame that keeps the canvas is followed by
/// a frame disposing to the background, the frame after them is drawn onto the
/// first frame's canvas outside the second frame's rectangle, and onto transparent
/// pixels inside it. Where the third frame draws nothing, that is the result; when
/// it disposes to the previous canvas, the saved canvas is exactly that.
pub proof fn background_disposal_restores_outside(
    s1: GifFrameProcessor,
    f2: &GifFrame,
    s2: GifFrameProcessor,
    f3: &GifFrame,
    s3: GifFrameProcessor,
)
    requires
        s1.wf(),
        s1.last_disposal == DisposalMethod::Any || s1.last_disposal == DisposalMethod::Keep,
        s1.steps_to(f2, &s2),
        s2.steps_to(f3, &s3),
        f2.dispose == DisposalMethod::Background,
    ensures
        forall|x: int, y: int| 0 <= x < s1.canvas.width && 0 <= y < s1.canvas.height
            && #[trigger] f3.color_at(s1.global_palette, x, y) is None ==> s3.canvas.spec_pixel(x, y) == if in_rect(
                x,
                y,
                frame_area(f2),
            ) {
                transparent_pixel()
            } else {
                s1.canvas.spec_pixel(x, y)
            },
        f3.dispose == DisposalMethod::Previous ==> forall|x: int, y: int| 0 <= x < s1.canvas.width && 0 <= y
            < s1.canvas.height ==> #[trigger] s3.previous_canvas->0.spec_pixel(x, y) == if in_rect(x, y, frame_area(f2)) {
                transparent_pixel()
            } else {
                s1.canvas.spec_pixel(x, y)
            },
{
    assert forall|x: int, y: int| 0 <= x < s1.canvas.width && 0 <= y < s1.canvas.height && !in_rect(x, y, frame_area(f2))
        implies #[trigger] s2.canvas.spec_pixel(x, y) == s1.canvas.spec_pixel(x, y) by {
        assert(f2.color_at(s1.global_palette, x, y) is None);
    }
    assert forall|x: int, y: int| 0 <= x < s1.canvas.width && 0 <= y < s1.canvas.height
        implies #[trigger] s2.cleaned_at(x, y) == if in_rect(x, y, frame_area(f2)) {
            transparent_pixel()
        } else {
            s1.canvas.spec_pixel(x, y)
        } by {
        if !in_rect(x, y, frame_area(f2)) {
            assert(s2.canvas.spec_pixel(x, y) == s1.canvas.spec_pixel(x, y));
        }
    }
    assert forall|x: int, y: int| 0 <= x < s1.canvas.width && 0 <= y < s1.canvas.height
        && #[trigger] f3.color_at(s1.global_palette, x, y) is None implies s3.canvas.spec_pixel(x, y) == if in_rect(
            x,
            y,
            frame_area(f2),
        ) {
            transparent_pixel()
        } else {
            s1.canvas.spec_pixel(x, y)
        } by {
        assert(s2.cleaned_at(x, y) == if in_rect(x, y, frame_area(f2)) {
            transparent_pixel()
        } else {
            s1.canvas.spec_pixel(x, y)
        });
    }
    if f3.dispose == DisposalMethod::Previous {
        assert forall|x: int, y: int| 0 <= x < s1.canvas.width && 0 <= y < s1.canvas.height
            implies #[trigger] s3.previous_canvas->0.spec_pixel(x, y) == if in_rect(x, y, frame_area(f2)) {
                transparent_pixel()
            } else {
                s1.canvas.spec_pixel(x, y)
            } by {
            assert(s2.cleaned_at(x, y) == if in_rect(x, y, frame_area(f2)) {
                transparent_pixel()
            } else {
                s1.canvas.spec_pixel(x, y)
            });
        }
    }
}

} // verus!
