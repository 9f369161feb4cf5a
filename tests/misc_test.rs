use image_to_console::cli::{AudioPath, Commands, DirectoryArgs, FileArgs, Frame, FrameError};
use image_to_console::colored::{Text, TerminalColor, TextHeader, ToColoredText};

#[test]
fn colored_text_escapes() {
    let mut t = Text::new("hi".to_string());
    t.set_foreground_color(TerminalColor::Red);
    assert_eq!(t.to_string(), "\x1b[38;5;1mhi\x1b[0m");
    t.set_background_color_rgb(1, 2, 3).set_foreground_color_rgb(4, 5, 6);
    assert_eq!(t.to_string(), "\x1b[38;2;4;5;6m\x1b[48;2;1;2;3mhi\x1b[0m");
    t.set_background_color(TerminalColor::LightCyan);
    assert_eq!(t.to_string(), "\x1b[38;2;4;5;6m\x1b[48;5;14mhi\x1b[0m");
    t.set_foreground_color_with_code(200).set_background_color_with_code(7);
    assert_eq!(t.to_string(), "\x1b[38;5;200m\x1b[48;5;7mhi\x1b[0m");
    assert_eq!("plain".to_colored_text().to_string(), "plain\x1b[0m");
    assert_eq!(String::from("s").to_colored_text().content, "s");
}

#[test]
fn text_header_joins_present_parts() {
    let h = TextHeader::new(Some("A".to_string()), None, Some("C".to_string()));
    assert_eq!(h.to_string(), "AC");
    assert_eq!(TextHeader::new_empty().to_string(), "");
}

#[test]
fn cli_helpers() {
    let d = Commands::Directory(DirectoryArgs { read_all: false, path: "x".to_string() });
    assert!(d.is_directory());
    let f = Commands::File(FileArgs { hide_filename: false, path: "x".to_string() });
    assert!(!f.is_directory());
    assert!(AudioPath::default().is_none());
    assert_eq!(AudioPath::Custom("a.mp3".to_string()).get_path(), Some("a.mp3".to_string()));
    assert_eq!(AudioPath::Silent.get_path(), None);
    let fr = Frame { index: 3, frame: "abc".to_string(), delay: 40 };
    assert_eq!(fr.unpacking(), ("abc", 3, 40));
    assert_eq!(FrameError::EOF.message(), "end of frames");
    assert_eq!(FrameError::Other("x".to_string()).message(), "Other error: x");
}
