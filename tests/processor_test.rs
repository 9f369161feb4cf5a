use image_to_console::{
    AutoResizeOption, ConvertError, CustomResizeOption, DisplayMode, ImageProcessor, ImageProcessorOptions,
    PixelColor, ResizeMode, RgbaImage, TerminalSize,
};

const TERM: TerminalSize = TerminalSize { cols: 80, rows: 24 };

fn filled(width: u32, height: u32, p: PixelColor) -> RgbaImage {
    RgbaImage::filled(width, height, p)
}

fn red() -> PixelColor {
    PixelColor { r: 255, g: 0, b: 0, a: 255 }
}

#[test]
fn test_image_processor_creation() {
    let img = filled(10, 10, PixelColor { r: 0, g: 0, b: 0, a: 0 });
    let options = ImageProcessorOptions {
        full: false,
        center: false,
        dither: false,
        mode: DisplayMode::HalfColor,
        black_background: false,
        resize_mode: ResizeMode::default(),
        enable_compression: false,
        max_colors: 256,
    };
    let processor = ImageProcessor::new(img, options);
    assert_eq!(processor.option.mode, DisplayMode::HalfColor);
}

#[test]
fn processor_test_test_all_protocol_convert() {
    let modes = vec![
        DisplayMode::HalfColor,
        DisplayMode::FullColor,
        DisplayMode::Ascii,
        DisplayMode::FullNoColor,
        DisplayMode::Kitty,
        DisplayMode::KittyNoColor,
        DisplayMode::Iterm2,
        DisplayMode::Iterm2NoColor,
        DisplayMode::WezTerm,
        DisplayMode::WezTermNoColor,
        DisplayMode::SixelFull,
        DisplayMode::SixelHalf,
    ];
    for mode in modes {
        let mut options = ImageProcessorOptions::default();
        options.option_display_mode(mode);
        let mut processor = ImageProcessor::new(filled(10, 10, PixelColor { r: 0, g: 0, b: 0, a: 0 }), options);
        let result = processor.process(TERM);
        assert!(result.is_ok(), "{:?}", mode);
    }
}

#[test]
fn red_full_color_end_to_end() {
    let options = ImageProcessorOptions::new(DisplayMode::FullColor, ResizeMode::Keep, false);
    let mut processor = ImageProcessor::new(filled(10, 10, red()), options);
    let result = processor.process(TERM).unwrap();
    assert_eq!(result.width, 10);
    assert_eq!(result.height, 10);
    assert_eq!(result.air_lines, 0);
    assert_eq!(result.lines.len(), 5);
    for line in &result.lines {
        assert_eq!(line, &format!("\x1b[48;2;255;0;0m{}\x1b[0m", " ".repeat(10)));
    }
}

#[test]
fn red_full_color_uncompressed_is_ten_blocks() {
    let mut options = ImageProcessorOptions::new(DisplayMode::FullColor, ResizeMode::Keep, false);
    options.option_compression(false);
    let mut processor = ImageProcessor::new(filled(10, 10, red()), options);
    let result = processor.process(TERM).unwrap();
    assert_eq!(result.lines.len(), 5);
    for line in &result.lines {
        assert_eq!(line, &format!("{}\x1b[0m", "\x1b[38;2;255;0;0m█".repeat(10)));
    }
}

#[test]
fn auto_fit_leaves_small_image_alone() {
    let options = ImageProcessorOptions::new(DisplayMode::FullColor, ResizeMode::default(), false);
    let mut processor = ImageProcessor::new(filled(10, 10, red()), options);
    let result = processor.process(TERM).unwrap();
    assert_eq!((result.width, result.height), (10, 10));
    assert_eq!(processor.image.pixels, vec![red(); 100]);
}

#[test]
fn auto_fit_shrinks_wide_image() {
    let options = ImageProcessorOptions::new(DisplayMode::HalfColor, ResizeMode::Auto(AutoResizeOption::only_width()), false);
    let mut processor = ImageProcessor::new(filled(200, 10, red()), options);
    let result = processor.process(TERM).unwrap();
    assert_eq!((result.width, result.height), (80, 4));
    assert_eq!(result.lines.len(), 4);
    let options = ImageProcessorOptions::new(DisplayMode::HalfColor, ResizeMode::default(), false);
    let mut processor = ImageProcessor::new(filled(70, 10, red()), options);
    let result = processor.process(TERM).unwrap();
    assert_eq!((result.width, result.height), (70, 10));
}

#[test]
fn auto_fit_shrinks_tall_image() {
    let options = ImageProcessorOptions::new(DisplayMode::FullColor, ResizeMode::Auto(AutoResizeOption::only_height()), false);
    let mut processor = ImageProcessor::new(filled(10, 96, red()), options);
    let result = processor.process(TERM).unwrap();
    assert_eq!((result.width, result.height), (5, 48));
}

#[test]
fn custom_resize_is_exact() {
    let options = ImageProcessorOptions::new(DisplayMode::HalfColor, ResizeMode::Custom(CustomResizeOption::with_width(5)), false);
    let mut processor = ImageProcessor::new(filled(10, 10, red()), options);
    let result = processor.process(TERM).unwrap();
    assert_eq!((result.width, result.height), (5, 10));
    let options = ImageProcessorOptions::new(DisplayMode::HalfColor, ResizeMode::Custom(CustomResizeOption::new(0, 3)), false);
    let mut processor = ImageProcessor::new(filled(10, 10, red()), options);
    assert!(matches!(processor.process(TERM), Err(ConvertError::EmptyData)));
}

#[test]
fn empty_image_and_unknown_terminal() {
    let options = ImageProcessorOptions::new(DisplayMode::HalfColor, ResizeMode::Keep, false);
    let mut processor = ImageProcessor::new(filled(0, 0, red()), options);
    assert!(matches!(processor.process(TERM), Err(ConvertError::EmptyData)));
    let mut processor = ImageProcessor::new(filled(2, 2, red()), options);
    assert!(matches!(
        processor.process(TerminalSize { cols: 0, rows: 24 }),
        Err(ConvertError::GetTerminalSizeError)
    ));
}

#[test]
fn centering_character_cells() {
    let options = ImageProcessorOptions::new(DisplayMode::HalfColor, ResizeMode::Keep, true);
    let mut processor = ImageProcessor::new(filled(10, 10, red()), options);
    let result = processor.process(TERM).unwrap();
    assert_eq!(result.air_lines, 7);
    assert!(result.lines[0].starts_with(&format!("{}\x1b[48;2;255;0;0m", " ".repeat(30))));

    let options = ImageProcessorOptions::new(DisplayMode::FullColor, ResizeMode::Keep, true);
    let mut processor = ImageProcessor::new(filled(10, 10, red()), options);
    let result = processor.process(TERM).unwrap();
    assert_eq!(result.air_lines, 10);
    assert!(result.lines[0].starts_with(&format!("{}\x1b[48;2;255;0;0m", " ".repeat(35))));
}

#[test]
fn centering_inline_image_with_cursor() {
    let options = ImageProcessorOptions::new(DisplayMode::Kitty, ResizeMode::Keep, true);
    let mut processor = ImageProcessor::new(filled(10, 10, red()), options);
    let result = processor.process(TERM).unwrap();
    assert_eq!(result.air_lines, 24);
    assert!(result.lines[0].starts_with("\x1b[1;16H\x1b_G"));

    let options = ImageProcessorOptions::new(DisplayMode::Kitty, ResizeMode::Keep, true);
    let mut processor = ImageProcessor::new(filled(100, 10, red()), options);
    let result = processor.process(TERM).unwrap();
    assert!(result.lines[0].starts_with("\x1b[22;1H\x1b_G"));
}

#[test]
fn display_joins_lines_after_air_lines() {
    let options = ImageProcessorOptions::new(DisplayMode::HalfColor, ResizeMode::Keep, true);
    let mut processor = ImageProcessor::new(filled(2, 2, red()), options);
    let result = processor.process(TerminalSize { cols: 8, rows: 6 }).unwrap();
    let text = result.display().to_string();
    let line = "  \x1b[48;2;255;0;0m    \x1b[0m";
    assert_eq!(text, format!("\n\n{}\n{}", line, line));
}

#[test]
fn option_setters() {
    let mut o = ImageProcessorOptions::default();
    o.option_center(true).option_black_background(true).option_max_colors(16).option_dither(false);
    o.option_resize(ResizeMode::Keep);
    let g = o.get_options();
    assert!(g.center && g.black_background && !g.dither);
    assert_eq!(g.max_colors, 16);
    assert_eq!(g.resize_mode, ResizeMode::Keep);
    o.option_display_mode(DisplayMode::HalfColor);
    assert!(!o.full);
}
