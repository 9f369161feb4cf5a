use image_to_console::{AutoResizeOption, CustomResizeOption, ResizeMode};

#[test]
fn test_resize_mode_default() {
    let default_mode = ResizeMode::default();
    match default_mode {
        ResizeMode::Auto(option) => {
            assert!(option.width);
            assert!(option.height);
        }
        _ => panic!("Expected Auto resize mode as default"),
    }
}

#[test]
fn test_resize_mode_creation() {
    let auto_mode = ResizeMode::Auto(AutoResizeOption { width: false, height: true });

    match auto_mode {
        ResizeMode::Auto(option) => {
            assert!(!option.width);
            assert!(option.height);
        }
        _ => panic!("Expected Auto resize mode"),
    }

    let custom_mode = ResizeMode::Custom(CustomResizeOption { width: Some(100), height: None });

    match custom_mode {
        ResizeMode::Custom(option) => {
            assert_eq!(option.width, Some(100));
            assert_eq!(option.height, None);
        }
        _ => panic!("Expected Custom resize mode"),
    }

    let none_mode = ResizeMode::Keep;
    match none_mode {
        ResizeMode::Keep => (),
        _ => panic!("Expected None resize mode"),
    }
}

#[test]
fn resize_option_builders() {
    assert_eq!(AutoResizeOption::new(true, false), AutoResizeOption::only_width());
    assert_eq!(AutoResizeOption::only_height(), AutoResizeOption { width: false, height: true });
    assert_eq!(AutoResizeOption::none(), AutoResizeOption { width: false, height: false });
    assert_eq!(AutoResizeOption::default(), AutoResizeOption { width: true, height: true });
    assert_eq!(CustomResizeOption::new(3, 4), CustomResizeOption { width: Some(3), height: Some(4) });
    assert_eq!(CustomResizeOption::with_width(3), CustomResizeOption { width: Some(3), height: None });
    assert_eq!(CustomResizeOption::with_height(4), CustomResizeOption { width: None, height: Some(4) });
}
