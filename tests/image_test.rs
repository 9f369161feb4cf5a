use image_to_console::{DisplayMode, GrayImage, ImageKind, IndexedImage, PixelColor, ProcessedImage, RgbColor, RgbImage, RgbaImage};

fn filled(width: u32, height: u32, p: PixelColor) -> RgbaImage {
    RgbaImage::filled(width, height, p)
}

#[test]
fn test_processed_image_creation() {
    let img = filled(10, 10, PixelColor { r: 0, g: 0, b: 0, a: 0 });

    let processed = ProcessedImage::new(DisplayMode::HalfColor, &img);
    assert!(matches!(processed, ProcessedImage::Color(_)));
    let processed = ProcessedImage::new(DisplayMode::FullColor, &img);
    assert!(matches!(processed, ProcessedImage::Both(_, _)));
    let processed = ProcessedImage::new(DisplayMode::WezTerm, &img);
    assert!(matches!(processed, ProcessedImage::Color(_)));
    let processed = ProcessedImage::new(DisplayMode::Kitty, &img);
    assert!(matches!(processed, ProcessedImage::Color(_)));
    let processed = ProcessedImage::new(DisplayMode::Iterm2, &img);
    assert!(matches!(processed, ProcessedImage::Color(_)));

    let processed = ProcessedImage::new(DisplayMode::Ascii, &img);
    assert!(matches!(processed, ProcessedImage::NoColor(_)));
    let processed = ProcessedImage::new(DisplayMode::FullNoColor, &img);
    assert!(matches!(processed, ProcessedImage::NoColor(_)));
    let processed = ProcessedImage::new(DisplayMode::WezTermNoColor, &img);
    assert!(matches!(processed, ProcessedImage::NoColor(_)));
    let processed = ProcessedImage::new(DisplayMode::KittyNoColor, &img);
    assert!(matches!(processed, ProcessedImage::NoColor(_)));
    let processed = ProcessedImage::new(DisplayMode::Iterm2NoColor, &img);
    assert!(matches!(processed, ProcessedImage::NoColor(_)));
}

#[test]
fn test_processed_image_accessors() {
    let rgba_img = filled(10, 10, PixelColor { r: 0, g: 0, b: 0, a: 0 });
    let processed = ProcessedImage::new(DisplayMode::HalfColor, &rgba_img);
    assert!(processed.rgba().is_some());
    assert!(processed.luma().is_none());
    assert!(processed.both().is_none());
    assert!(processed.is_color());

    let processed_both = ProcessedImage::new(DisplayMode::FullColor, &rgba_img);
    assert!(processed_both.both().is_some());
    assert_eq!(processed_both.is_color(), false);

    let luma_img = filled(10, 10, PixelColor { r: 0, g: 0, b: 0, a: 255 });
    let processed_luma = ProcessedImage::new(DisplayMode::Ascii, &luma_img);
    assert!(processed_luma.rgba().is_none());
    assert!(processed_luma.luma().is_some());
    assert!(!processed_luma.is_color());
}

#[test]
fn shape_matches_mode_for_every_mode() {
    let img = filled(3, 2, PixelColor { r: 9, g: 8, b: 7, a: 255 });
    let modes = vec![
        DisplayMode::HalfColor,
        DisplayMode::FullColor,
        DisplayMode::FullNoColor,
        DisplayMode::Ascii,
        DisplayMode::WezTerm,
        DisplayMode::WezTermNoColor,
        DisplayMode::Kitty,
        DisplayMode::KittyNoColor,
        DisplayMode::Iterm2,
        DisplayMode::Iterm2NoColor,
        DisplayMode::SixelHalf,
        DisplayMode::SixelFull,
    ];
    for mode in modes {
        let processed = ProcessedImage::new(mode, &img);
        assert_eq!(processed.variant(), mode.expected_kind());
        assert!(mode.check_image_type(&processed));
        assert_eq!(processed.mode(), mode.expect_image_type());
        assert_eq!(processed.width(), 3);
        assert_eq!(processed.height(), 2);
    }
    assert_eq!(ImageKind::Both.name(), "Both");
}

#[test]
fn luminance_uses_srgb_weights() {
    let img = RgbaImage {
        width: 3,
        height: 1,
        pixels: vec![
            PixelColor { r: 255, g: 0, b: 0, a: 255 },
            PixelColor { r: 0, g: 255, b: 0, a: 0 },
            PixelColor { r: 255, g: 255, b: 255, a: 255 },
        ],
    };
    match ProcessedImage::new(DisplayMode::Ascii, &img) {
        ProcessedImage::NoColor(GrayImage { pixels, .. }) => assert_eq!(pixels, vec![54, 182, 255]),
        _ => panic!("expected a luminance raster"),
    }
    match ProcessedImage::new(DisplayMode::SixelHalf, &img) {
        ProcessedImage::Color2(RgbImage { pixels, .. }) => {
            assert_eq!(pixels[0], RgbColor { red: 255, green: 0, blue: 0 });
            assert_eq!(pixels[1], RgbColor { red: 0, green: 255, blue: 0 });
        }
        _ => panic!("expected an RGB raster"),
    }
}

fn four_colors() -> RgbImage {
    RgbImage {
        width: 2,
        height: 2,
        pixels: vec![
            RgbColor { red: 255, green: 0, blue: 0 },
            RgbColor { red: 0, green: 255, blue: 0 },
            RgbColor { red: 0, green: 0, blue: 255 },
            RgbColor { red: 255, green: 255, blue: 255 },
        ],
    }
}

#[test]
fn test_indexed_image_creation() {
    let indexed_img = IndexedImage::from_image(&four_colors(), 256, false).unwrap();
    assert_eq!(indexed_img.width, 2);
    assert_eq!(indexed_img.height, 2);
    assert!(!indexed_img.palette.is_empty());
    assert_eq!(indexed_img.index_data.len(), 4);
}

#[test]
fn test_indexed_image_pixel_access() {
    let indexed_img = IndexedImage::from_image(&four_colors(), 256, false).unwrap();
    let pixel00 = indexed_img.get_pixel(0, 0);
    let pixel10 = indexed_img.get_pixel(1, 0);
    let pixel01 = indexed_img.get_pixel(0, 1);
    let pixel11 = indexed_img.get_pixel(1, 1);
    assert!(pixel00 < indexed_img.palette.len() as u8);
    assert!(pixel10 < indexed_img.palette.len() as u8);
    assert!(pixel01 < indexed_img.palette.len() as u8);
    assert!(pixel11 < indexed_img.palette.len() as u8);
}

#[test]
fn quantizing_four_colors_round_trips() {
    let img = four_colors();
    let indexed = IndexedImage::from_image(&img, 256, false).unwrap();
    assert!(indexed.palette.len() <= 4);
    for y in 0..2u32 {
        for x in 0..2u32 {
            let i = indexed.get_pixel(x, y) as usize;
            assert!(i < indexed.palette.len());
            let c = indexed.palette[i];
            let o = img.pixels[(y * 2 + x) as usize];
            assert!((c.red as i32 - o.red as i32).abs() <= 8);
            assert!((c.green as i32 - o.green as i32).abs() <= 8);
            assert!((c.blue as i32 - o.blue as i32).abs() <= 8);
        }
    }
}

#[test]
fn quantizing_to_no_colour_is_refused() {
    assert!(matches!(
        IndexedImage::from_image(&four_colors(), 0, false),
        Err(image_to_console::ConvertError::ImageError(_))
    ));
}
