use image_to_console::{DisposalMethod, GifFrame, GifFrameProcessor, PixelColor};

const RED: PixelColor = PixelColor { r: 255, g: 0, b: 0, a: 255 };
const BLUE: PixelColor = PixelColor { r: 0, g: 0, b: 255, a: 255 };
const CLEAR: PixelColor = PixelColor { r: 0, g: 0, b: 0, a: 0 };

fn frame(left: u16, top: u16, width: u16, height: u16, dispose: DisposalMethod, buffer: Vec<u8>) -> GifFrame {
    GifFrame { left, top, width, height, dispose, palette: None, transparent: Some(2), buffer }
}

fn at(pixels: &[PixelColor], x: usize, y: usize) -> PixelColor {
    pixels[y * 4 + x]
}

#[test]
fn background_then_previous_disposal() {
    let palette = vec![255, 0, 0, 0, 0, 255, 0, 0, 0];
    let mut p = GifFrameProcessor::new(4, 4, Some(palette));
    let f1 = frame(0, 0, 4, 4, DisposalMethod::Keep, vec![0; 16]);
    let f2 = frame(1, 1, 2, 2, DisposalMethod::Background, vec![1; 4]);
    let mut b3 = vec![2; 16];
    b3[0] = 1;
    let f3 = frame(0, 0, 4, 4, DisposalMethod::Previous, b3);
    let f4 = frame(0, 0, 4, 4, DisposalMethod::Any, vec![2; 16]);
    for f in [&f1, &f2, &f3, &f4] {
        assert!(p.frame_is_drawable(f));
    }

    let c1 = p.process_frame(&f1);
    assert_eq!(c1.pixels, vec![RED; 16]);

    let c2 = p.process_frame(&f2);
    for y in 0..4 {
        for x in 0..4 {
            let inside = (1..3).contains(&x) && (1..3).contains(&y);
            assert_eq!(at(&c2.pixels, x, y), if inside { BLUE } else { RED });
        }
    }

    let c3 = p.process_frame(&f3);
    for y in 0..4 {
        for x in 0..4 {
            let inside = (1..3).contains(&x) && (1..3).contains(&y);
            let expected = if x == 0 && y == 0 {
                BLUE
            } else if inside {
                CLEAR
            } else {
                at(&c1.pixels, x, y)
            };
            assert_eq!(at(&c3.pixels, x, y), expected);
        }
    }

    let c4 = p.process_frame(&f4);
    for y in 0..4 {
        for x in 0..4 {
            let inside = (1..3).contains(&x) && (1..3).contains(&y);
            assert_eq!(at(&c4.pixels, x, y), if inside { CLEAR } else { RED });
        }
    }
}

#[test]
fn frames_are_clipped_to_the_canvas() {
    let mut p = GifFrameProcessor::new(2, 2, None);
    let mut f = GifFrame {
        left: 1,
        top: 1,
        width: 3,
        height: 3,
        dispose: DisposalMethod::Background,
        palette: Some(vec![0, 0, 255]),
        transparent: None,
        buffer: vec![0; 9],
    };
    let c = p.process_frame(&f);
    assert_eq!(c.pixels, vec![CLEAR, CLEAR, CLEAR, BLUE]);
    f.left = 0;
    f.top = 0;
    f.width = 1;
    f.height = 1;
    f.buffer = vec![0];
    f.dispose = DisposalMethod::Keep;
    let c = p.process_frame(&f);
    assert_eq!(c.pixels, vec![BLUE, CLEAR, CLEAR, CLEAR]);
}

#[test]
fn undrawable_frames_are_detected() {
    let p = GifFrameProcessor::new(2, 2, None);
    let no_palette = GifFrame {
        left: 0,
        top: 0,
        width: 1,
        height: 1,
        dispose: DisposalMethod::Any,
        palette: None,
        transparent: None,
        buffer: vec![0],
    };
    assert!(!p.frame_is_drawable(&no_palette));
    let short_palette = GifFrame { palette: Some(vec![1, 2, 3]), buffer: vec![1], ..no_palette };
    assert!(!p.frame_is_drawable(&short_palette));
    let transparent_only = GifFrame { transparent: Some(1), ..short_palette };
    assert!(p.frame_is_drawable(&transparent_only));
}
