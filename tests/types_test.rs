use image_to_console::cli::Cli;
use image_to_console::{
    AutoResizeOption, ClapResizeMode, CustomResizeOption, DisplayMode, DisplayModeBuilder, Protocol,
    ResizeMode,
};

#[test]
fn test_crate_resize_mode() {
    let mut cli = Cli::default();
    let test_cases = vec![(true, true), (true, false), (false, true), (false, false)];
    for (width, height) in test_cases {
        cli.without_resize_width = !width;
        cli.without_resize_height = !height;
        assert_eq!(
            ResizeMode::from_cli(&cli),
            ResizeMode::Auto(AutoResizeOption { width, height }),
            "Failed for input: width={}, height={}",
            width,
            height
        );
    }
    cli.resize_mode = ClapResizeMode::Keep;
    assert_eq!(ResizeMode::from_cli(&cli), ResizeMode::Keep, "Default resize mode should be None");
    let test_cases = vec![(Some(10), Some(20)), (Some(10), None), (None, Some(20)), (None, None)];
    cli.resize_mode = ClapResizeMode::Custom;
    for (width, height) in test_cases {
        cli.width = width;
        cli.height = height;
        assert_eq!(
            ResizeMode::from_cli(&cli),
            ResizeMode::Custom(CustomResizeOption { width, height }),
            "Failed for input: width={:?}, height={:?}",
            width,
            height
        );
    }
}

#[test]
fn no_resize_switch_turns_off_both_axes() {
    let mut cli = Cli::default();
    cli.no_resize = true;
    assert_eq!(
        ResizeMode::from_cli(&cli),
        ResizeMode::Auto(AutoResizeOption { width: false, height: false })
    );
}

#[test]
fn test_crate_display_mode() {
    let test_cases = vec![
        ((false, false, Protocol::Normal), DisplayMode::HalfColor),
        ((true, false, Protocol::Normal), DisplayMode::FullColor),
        ((true, true, Protocol::Normal), DisplayMode::FullNoColor),
        ((false, true, Protocol::Normal), DisplayMode::Ascii),
        ((true, false, Protocol::WezTerm), DisplayMode::WezTerm),
        ((true, true, Protocol::WezTerm), DisplayMode::WezTermNoColor),
        ((false, false, Protocol::Kitty), DisplayMode::Kitty),
        ((false, true, Protocol::Kitty), DisplayMode::KittyNoColor),
        ((false, false, Protocol::ITerm2), DisplayMode::Iterm2),
        ((false, true, Protocol::ITerm2), DisplayMode::Iterm2NoColor),
    ];
    for ((full, no_color, protocol), expected) in test_cases {
        assert_eq!(
            DisplayMode::from_bool(full, no_color, protocol),
            expected,
            "Failed for input: full={}, no_color={}, protocol={:?}",
            full,
            no_color,
            protocol
        );
    }
    assert_eq!(DisplayMode::default(), DisplayMode::HalfColor, "Default display mode should be HalfColor");
}

#[test]
fn test_get_display_mode_info() {
    let mode_properties = vec![
        (DisplayMode::HalfColor, false, true, true),
        (DisplayMode::FullColor, true, true, true),
        (DisplayMode::FullNoColor, true, false, true),
        (DisplayMode::Ascii, false, false, true),
        (DisplayMode::Kitty, true, true, false),
        (DisplayMode::KittyNoColor, true, false, false),
        (DisplayMode::Iterm2, true, true, false),
        (DisplayMode::Iterm2NoColor, true, false, false),
    ];
    for (mode, is_full, is_color, is_normal) in mode_properties {
        assert_eq!(mode.is_full(), is_full, "is_full check failed for {:?}", mode);
        assert_eq!(mode.is_color(), is_color, "is_color check failed for {:?}", mode);
        assert_eq!(mode.is_normal(), is_normal, "is_normal check failed for {:?}", mode);
    }
}

#[test]
fn test_protocol() {
    let tests = vec![
        (Protocol::Normal, true, true, DisplayMode::FullColor),
        (Protocol::Normal, true, false, DisplayMode::FullNoColor),
        (Protocol::Normal, false, true, DisplayMode::HalfColor),
        (Protocol::Normal, false, false, DisplayMode::Ascii),
        (Protocol::Kitty, true, true, DisplayMode::Kitty),
        (Protocol::Kitty, true, false, DisplayMode::KittyNoColor),
        (Protocol::ITerm2, true, true, DisplayMode::Iterm2),
        (Protocol::ITerm2, true, false, DisplayMode::Iterm2NoColor),
        (Protocol::WezTerm, true, true, DisplayMode::WezTerm),
        (Protocol::WezTerm, true, false, DisplayMode::WezTermNoColor),
        (Protocol::Sixel, true, true, DisplayMode::SixelFull),
        (Protocol::Sixel, false, true, DisplayMode::SixelHalf),
    ];
    for (protocol, is_full, has_color, display_mode) in tests {
        let mode = DisplayModeBuilder::new(protocol).option_is_full(is_full).option_has_color(has_color).build();
        assert_eq!(mode, display_mode);
    }
}

#[test]
fn mode_names_and_expected_shapes() {
    assert_eq!(DisplayMode::HalfColor.mode(), "HalfColor");
    assert_eq!(DisplayMode::Ascii.mode(), "Ascii");
    assert_eq!(DisplayMode::SixelFull.mode(), "SixelFull");
    assert_eq!(DisplayMode::HalfColor.expect_image_type(), "Color");
    assert_eq!(DisplayMode::FullColor.expect_image_type(), "Both");
    assert_eq!(DisplayMode::Ascii.expect_image_type(), "NoColor");
    assert_eq!(DisplayMode::SixelHalf.expect_image_type(), "Color2");
    assert!(DisplayMode::Kitty.is_luma() == false);
    assert!(DisplayMode::KittyNoColor.is_luma());
    assert!(DisplayMode::WezTerm.is_wezterm());
    assert!(DisplayMode::Iterm2NoColor.is_iterm2());
    assert!(DisplayMode::SixelHalf.is_sixel());
    assert!(!DisplayMode::SixelHalf.is_full());
    assert_eq!(Protocol::Kitty.builder().no_colored().build(), DisplayMode::KittyNoColor);
    assert_eq!(Protocol::Normal.builder().no_full().colored().build(), DisplayMode::HalfColor);
    assert_eq!(DisplayModeBuilder::default().build(), DisplayMode::FullColor);
}
