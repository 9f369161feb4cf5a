use base64::Engine;
use image_to_console::cells::no_color_pixel;
use image_to_console::{ConvertErrorContext, ConvertErrorContextSource};
use image_to_console::{
    ConvertError, DisplayMode, GrayImage, ImageConverter, ImageConverterOption, PixelColor, ProcessedImage,
    RgbaImage, TerminalSize,
};

fn options(mode: DisplayMode, width: u32, height: u32) -> ImageConverterOption {
    ImageConverterOption {
        center: false,
        width,
        height,
        dither: false,
        line_init: String::new(),
        mode,
        black_background: false,
        enable_compression: false,
        max_colors: 256,
        terminal: TerminalSize { cols: 0, rows: 0 },
    }
}

fn rgba(width: u32, height: u32, pixels: Vec<PixelColor>) -> RgbaImage {
    RgbaImage { width, height, pixels }
}

fn px(r: u8, g: u8, b: u8, a: u8) -> PixelColor {
    PixelColor { r, g, b, a }
}

fn convert(img: ProcessedImage, opt: ImageConverterOption) -> Result<Vec<String>, ConvertError> {
    ImageConverter::new(img, opt).convert()
}

#[test]
fn test_pixel_color_creation() {
    let color = PixelColor::from_channels([255, 128, 64, 255]);
    assert_eq!(color.r, 255);
    assert_eq!(color.g, 128);
    assert_eq!(color.b, 64);
    assert_eq!(color.a, 255);
}

#[test]
fn test_pixel_color_bg() {
    let color = PixelColor::from_channels([255, 128, 64, 255]);
    assert_eq!(color.bg(), "\x1b[48;2;255;128;64m");
}

#[test]
fn test_pixel_color_fg() {
    let color = PixelColor::from_channels([255, 128, 64, 255]);
    assert_eq!(color.fg(), "\x1b[38;2;255;128;64m");
}

#[test]
fn test_no_color_pixel_struct() {
    let pixel = &no_color_pixel(0);
    assert_eq!(pixel.top, "▘");
    assert_eq!(pixel.full, "▮");
    assert_eq!(pixel.bottom, "▖");
    assert!(pixel.sep);
    assert_eq!(pixel.from, 153);
    assert_eq!(pixel.to, 204);
}

#[test]
fn test_image_converter_creation() {
    let img = ProcessedImage::NoColor(GrayImage { width: 10, height: 10, pixels: vec![0; 100] });
    let converter = ImageConverter::new(img, options(DisplayMode::Ascii, 10, 10));
    assert_eq!(converter.option.mode, DisplayMode::Ascii);
    assert_eq!(converter.option.width, 10);
    assert_eq!(converter.option.height, 10);
}

#[test]
fn test_image_converter_convert() {
    let result = convert(
        ProcessedImage::NoColor(GrayImage { width: 0, height: 0, pixels: vec![] }),
        options(DisplayMode::Kitty, 0, 0),
    );
    let expected = ConvertError::WrongImageType {
        expect_type: String::from("Color"),
        actual_type: String::from("NoColor"),
    };
    assert!(result.is_err());
    assert_eq!(result.err().unwrap(), expected);
    let result = convert(ProcessedImage::Color(rgba(0, 0, vec![])), options(DisplayMode::Kitty, 0, 0));
    assert!(matches!(result, Err(ConvertError::EmptyData)));
    let result = convert(
        ProcessedImage::Color(rgba(10, 10, vec![px(0, 0, 0, 0); 100])),
        options(DisplayMode::Kitty, 10, 10),
    );
    assert!(result.is_ok());
}

#[test]
fn converter_test_test_all_protocol_convert() {
    let img = rgba(10, 10, vec![px(0, 0, 0, 0); 100]);
    let modes = vec![
        DisplayMode::HalfColor,
        DisplayMode::FullColor,
        DisplayMode::Ascii,
        DisplayMode::FullNoColor,
        DisplayMode::Kitty,
        DisplayMode::KittyNoColor,
        DisplayMode::Iterm2,
        DisplayMode::Iterm2NoColor,
        DisplayMode::WezTerm,
        DisplayMode::WezTermNoColor,
        DisplayMode::SixelFull,
        DisplayMode::SixelHalf,
    ];
    for mode in modes {
        let processed = ProcessedImage::new(mode, &img);
        let result = convert(processed, options(mode, 10, 10));
        assert!(result.is_ok(), "{:?}", mode);
    }
}

#[test]
fn kitty_rejects_luminance_raster() {
    let img = ProcessedImage::NoColor(GrayImage { width: 2, height: 2, pixels: vec![9; 4] });
    match convert(img, options(DisplayMode::Kitty, 2, 2)) {
        Err(ConvertError::WrongImageType { expect_type, actual_type }) => {
            assert_eq!(expect_type, "Color");
            assert_eq!(actual_type, "NoColor");
        }
        _ => panic!("expected WrongImageType"),
    }
}

#[test]
fn every_mismatched_pair_is_wrong_image_type() {
    let img = rgba(2, 2, vec![px(1, 2, 3, 255); 4]);
    let modes = vec![
        DisplayMode::HalfColor,
        DisplayMode::FullColor,
        DisplayMode::Ascii,
        DisplayMode::Kitty,
        DisplayMode::SixelFull,
    ];
    for made_for in modes.clone() {
        for used_with in modes.clone() {
            let processed = ProcessedImage::new(made_for, &img);
            let same = processed.variant() == used_with.expected_kind();
            let result = convert(processed, options(used_with, 2, 2));
            if same {
                assert!(result.is_ok());
            } else {
                assert!(matches!(result, Err(ConvertError::WrongImageType { .. })));
            }
        }
    }
}

#[test]
fn half_block_uniform_row_compresses_to_one_escape() {
    let img = rgba(4, 2, vec![px(10, 20, 30, 255); 8]);
    let mut opt = options(DisplayMode::HalfColor, 4, 2);
    opt.enable_compression = true;
    let lines = convert(ProcessedImage::Color(img), opt).unwrap();
    assert_eq!(lines.len(), 2);
    for line in lines {
        assert_eq!(line, "\x1b[48;2;10;20;30m        \x1b[0m");
        assert_eq!(line.matches("\x1b[48;2;").count(), 1);
    }
}

#[test]
fn half_block_without_compression_repeats_escape() {
    let img = rgba(2, 1, vec![px(10, 20, 30, 255), px(1, 2, 3, 100)]);
    let lines = convert(ProcessedImage::Color(img), options(DisplayMode::HalfColor, 2, 1)).unwrap();
    assert_eq!(lines, vec!["\x1b[48;2;10;20;30m  \x1b[0m  \x1b[0m".to_string()]);
}

#[test]
fn full_block_cells_pick_brighter_sample() {
    let rgba_img = rgba(3, 2, vec![
        px(255, 255, 255, 255),
        px(0, 0, 0, 255),
        px(5, 5, 5, 10),
        px(0, 0, 0, 255),
        px(255, 255, 255, 255),
        px(9, 9, 9, 255),
    ]);
    let processed = ProcessedImage::new(DisplayMode::FullColor, &rgba_img);
    let lines = convert(processed, options(DisplayMode::FullColor, 3, 2)).unwrap();
    assert_eq!(
        lines,
        vec![
            "\x1b[38;2;255;255;255m\x1b[48;2;0;0;0m▀\x1b[48;2;0;0;0m\x1b[38;2;255;255;255m▄\x1b[0m\x1b[38;2;9;9;9m▄\x1b[0m"
                .to_string()
        ]
    );
}

#[test]
fn full_block_equal_luminance_and_odd_row() {
    let img = rgba(1, 3, vec![px(200, 0, 0, 255); 3]);
    let processed = ProcessedImage::new(DisplayMode::FullColor, &img);
    let lines = convert(processed, options(DisplayMode::FullColor, 1, 3)).unwrap();
    assert_eq!(lines, vec!["\x1b[38;2;200;0;0m█\x1b[0m".to_string(), "\x1b[38;2;200;0;0m▀\x1b[0m".to_string()]);
}

#[test]
fn full_block_compression_uses_background_space() {
    let img = rgba(3, 2, vec![px(7, 7, 7, 255); 6]);
    let processed = ProcessedImage::new(DisplayMode::FullColor, &img);
    let mut opt = options(DisplayMode::FullColor, 3, 2);
    opt.enable_compression = true;
    let lines = convert(processed, opt).unwrap();
    assert_eq!(lines, vec!["\x1b[48;2;7;7;7m   \x1b[0m".to_string()]);
}

#[test]
fn luminance_glyph_rules() {
    let luma = GrayImage { width: 6, height: 2, pixels: vec![160, 160, 130, 101, 80, 255, 170, 10, 10, 10, 10, 255] };
    let lines = convert(ProcessedImage::NoColor(luma), options(DisplayMode::FullNoColor, 6, 2)).unwrap();
    assert_eq!(lines, vec!["▮▘▪▫,█".to_string()]);
}

#[test]
fn luminance_glyph_fallbacks_and_odd_row() {
    let luma = GrayImage { width: 3, height: 3, pixels: vec![250, 250, 0, 0, 250, 0, 200, 0, 0] };
    let lines = convert(ProcessedImage::NoColor(luma), options(DisplayMode::FullNoColor, 3, 3)).unwrap();
    assert_eq!(lines, vec!["▀█ ".to_string(), "▀  ".to_string()]);
}

#[test]
fn black_background_and_prefix() {
    let img = rgba(1, 1, vec![px(1, 2, 3, 255)]);
    let mut opt = options(DisplayMode::HalfColor, 1, 1);
    opt.black_background = true;
    opt.line_init = "  ".to_string();
    let lines = convert(ProcessedImage::Color(img), opt).unwrap();
    assert_eq!(lines, vec!["  \x1b[40m\x1b[48;2;1;2;3m  \x1b[0m".to_string()]);
}

#[test]
fn ascii_mode_draws_empty_cells() {
    let luma = GrayImage { width: 2, height: 2, pixels: vec![200; 4] };
    let lines = convert(ProcessedImage::NoColor(luma), options(DisplayMode::Ascii, 2, 2)).unwrap();
    assert_eq!(lines, vec![String::new(), String::new()]);
}

fn noisy(width: u32, height: u32) -> RgbaImage {
    let mut state: u32 = 12345;
    let mut pixels = Vec::new();
    for _ in 0..(width * height) {
        state = state.wrapping_mul(1103515245).wrapping_add(12345);
        let v = state.to_be_bytes();
        pixels.push(px(v[0], v[1], v[2], 255));
    }
    rgba(width, height, pixels)
}

fn kitty_payload_size(line: &str) -> usize {
    let start = line.find(",S=").unwrap() + 3;
    let end = start + line[start..].find(';').unwrap();
    line[start..end].parse().unwrap()
}

#[test]
fn kitty_single_chunk() {
    let img = rgba(10, 10, vec![px(255, 0, 0, 255); 100]);
    let lines = convert(ProcessedImage::Color(img), options(DisplayMode::Kitty, 10, 10)).unwrap();
    assert_eq!(lines.len(), 1);
    let line = &lines[0];
    assert!(line.starts_with("\x1b_Gm=0,a=T,f=100,s=10,v=10,S="));
    assert!(kitty_payload_size(line) <= 3072);
    assert_eq!(line.matches("\x1b_G").count(), 1);
    assert!(line.ends_with("\x1b\\"));
}

#[test]
fn kitty_chunks_large_payload() {
    let img = noisy(64, 64);
    let lines = convert(ProcessedImage::Color(img), options(DisplayMode::Kitty, 64, 64)).unwrap();
    let line = &lines[0];
    let s = kitty_payload_size(line);
    assert!(s > 3072);
    assert_eq!(line.matches("\x1b_G").count(), (s + 3071) / 3072);
    assert_eq!(line.matches("\x1b_Gm=0").count(), 1);
    assert!(line.starts_with("\x1b_Gm=1,a=T,f=100,s=64,v=64,S="));
    let last = line.rfind("\x1b_G").unwrap();
    assert!(line[last..].starts_with("\x1b_Gm=0;"));
    for piece in line.split("\x1b\\").filter(|p| !p.is_empty()) {
        let data = &piece[piece.find(';').unwrap() + 1..];
        assert!(data.len() <= 4096);
    }
}

#[test]
fn iterm2_and_wezterm_lines() {
    let img = rgba(4, 2, vec![px(0, 0, 255, 255); 8]);
    let mut opt = options(DisplayMode::Iterm2, 4, 2);
    opt.terminal = TerminalSize { cols: 80, rows: 24 };
    let lines = convert(ProcessedImage::Color(img), opt).unwrap();
    assert_eq!(lines.len(), 2);
    assert_eq!(lines[0], " ");
    assert!(lines[1].starts_with("\x1b]1337;File=size="));
    assert!(lines[1].contains(";width=40;inline=1:"));
    assert!(lines[1].ends_with("\x07"));

    let img = rgba(2, 4, vec![px(0, 0, 255, 255); 8]);
    let mut opt = options(DisplayMode::WezTerm, 2, 4);
    opt.terminal = TerminalSize { cols: 80, rows: 24 };
    let lines = convert(ProcessedImage::Color(img), opt).unwrap();
    assert!(lines[1].contains(";height=24;inline=1:"));
    assert!(lines[1].ends_with("\x1b\\"));

    let img = rgba(2, 4, vec![px(0, 0, 255, 255); 8]);
    let mut opt = options(DisplayMode::Iterm2, 2, 4);
    opt.center = true;
    let lines = convert(ProcessedImage::Color(img), opt).unwrap();
    assert!(lines[1].starts_with("\x1b]1337;File=size="));
    assert!(!lines[1].contains("width=") && !lines[1].contains("height="));
}

#[test]
fn sixel_output_frame() {
    let img = rgba(2, 2, vec![px(255, 0, 0, 255), px(0, 255, 0, 255), px(0, 0, 255, 255), px(255, 255, 255, 255)]);
    let processed = ProcessedImage::new(DisplayMode::SixelFull, &img);
    let mut opt = options(DisplayMode::SixelFull, 2, 2);
    opt.max_colors = 256;
    let lines = convert(processed, opt).unwrap();
    assert_eq!(lines.len(), 2);
    assert_eq!(lines[1], " ");
    assert!(lines[0].starts_with("\x1bP9;1q#0;2;"));
    assert!(lines[0].ends_with("-\x1b\\"));
    assert!(lines[0].contains("$"));

    let processed = ProcessedImage::new(DisplayMode::SixelHalf, &img);
    let lines = convert(processed, options(DisplayMode::SixelHalf, 2, 2)).unwrap();
    assert!(lines[0].starts_with("\x1bPq#0;2;"));
}

#[test]
fn sixel_uniform_image_is_one_run() {
    let img = rgba(4, 6, vec![px(255, 255, 255, 255); 24]);
    let processed = ProcessedImage::new(DisplayMode::SixelFull, &img);
    let lines = convert(processed, options(DisplayMode::SixelFull, 4, 6)).unwrap();
    assert_eq!(lines[0], "\x1bP9;1q#0;2;100;100;100$#0!4~-\x1b\\");
}

#[test]
fn error_messages() {
    assert_eq!(ConvertError::EmptyData.message(), "Empty data");
    assert_eq!(ConvertError::GetTerminalSizeError.message(), "Terminal size error");
    let e = ConvertError::WrongImageType { expect_type: "Color".to_string(), actual_type: "NoColor".to_string() };
    assert_eq!(e.message(), "Unsupported Image Type, expect Color, but actual NoColor");
}

fn payload_bytes(line: &str) -> Vec<u8> {
    let start = line.rfind(':').or_else(|| line.find(';')).unwrap() + 1;
    let end = line.rfind(|c| c == '\x07' || c == '\x1b').unwrap();
    base64::engine::general_purpose::STANDARD.decode(&line[start..end]).unwrap()
}

#[test]
fn kitty_payload_is_the_png_of_the_raster() {
    let pixels = vec![px(1, 2, 3, 255), px(200, 100, 50, 255), px(0, 0, 0, 0), px(9, 8, 7, 128), px(255, 255, 255, 255), px(10, 20, 30, 40)];
    let img = rgba(3, 2, pixels.clone());
    let lines = convert(ProcessedImage::Color(img), options(DisplayMode::Kitty, 3, 2)).unwrap();
    let line = &lines[0];
    let body = &line[line.find(';').unwrap() + 1..line.rfind("\x1b\\").unwrap()];
    let bytes = base64::engine::general_purpose::STANDARD.decode(body).unwrap();
    assert_eq!(bytes.len(), kitty_payload_size(line));
    assert_eq!(&bytes[1..4], b"PNG");
    let decoded = image::load_from_memory(&bytes).unwrap().to_rgba8();
    assert_eq!(decoded.dimensions(), (3, 2));
    for (i, p) in decoded.pixels().enumerate() {
        let q = pixels[i];
        assert_eq!(p.0, [q.r, q.g, q.b, q.a]);
    }
}

#[test]
fn iterm2_payload_is_the_png_of_the_luminance() {
    let luma = GrayImage { width: 2, height: 2, pixels: vec![0, 64, 128, 255] };
    let mut opt = options(DisplayMode::Iterm2NoColor, 2, 2);
    opt.center = true;
    let lines = convert(ProcessedImage::NoColor(luma), opt).unwrap();
    let bytes = payload_bytes(&lines[1]);
    assert!(lines[1].starts_with(&format!("\x1b]1337;File=size={};inline=1:", bytes.len())));
    let decoded = image::load_from_memory(&bytes).unwrap().to_luma8();
    assert_eq!(decoded.into_raw(), vec![0, 64, 128, 255]);
}

#[test]
fn sixel_with_no_colour_is_an_image_error() {
    let img = rgba(2, 2, vec![px(255, 0, 0, 255); 4]);
    let processed = ProcessedImage::new(DisplayMode::SixelHalf, &img);
    let mut opt = options(DisplayMode::SixelHalf, 2, 2);
    opt.max_colors = 0;
    assert!(matches!(convert(processed, opt), Err(ConvertError::ImageError(_))));
}

#[test]
fn sixel_half_doubles_runs_and_ranks_hot_colours() {
    let white = px(255, 255, 255, 255);
    let black = px(0, 0, 0, 255);
    let mut pixels = Vec::new();
    for _ in 0..6 {
        pixels.push(white);
        pixels.push(black);
        pixels.push(black);
    }
    let img = rgba(3, 6, pixels);
    let processed = ProcessedImage::new(DisplayMode::SixelHalf, &img);
    let lines = convert(processed, options(DisplayMode::SixelHalf, 3, 6)).unwrap();
    assert_eq!(lines[0], "\x1bPq#0;2;0;0;0#1;2;100;100;100$#1~~#0!4~-\x1b\\");
}

#[test]
fn odd_last_row_gets_black_background() {
    let img = rgba(1, 1, vec![px(5, 6, 7, 255)]);
    let processed = ProcessedImage::new(DisplayMode::FullColor, &img);
    let mut opt = options(DisplayMode::FullColor, 1, 1);
    opt.black_background = true;
    let lines = convert(processed, opt).unwrap();
    assert_eq!(lines, vec!["\x1b[40m\x1b[38;2;5;6;7m▀\x1b[0m".to_string()]);
}

#[test]
fn error_context_equality_ignores_inner() {
    let a = ConvertErrorContext::new(ConvertErrorContextSource::Pixel(1, 2), "m".to_string());
    let b = ConvertErrorContext::new(ConvertErrorContextSource::Pixel(1, 2), "m".to_string()).with_inner("x".to_string());
    assert_eq!(a, b);
    let c = ConvertErrorContext::new(ConvertErrorContextSource::Function("f".to_string()), "m".to_string());
    assert_ne!(a, c);
    assert_eq!(ConvertError::ImageError(a), ConvertError::ImageError(b));
}
