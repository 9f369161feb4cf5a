use vstd::prelude::*;
use crate::text::{dec, push_dec};

verus! {

/// The sixteen terminal palette colours.
#[derive(Debug, Clone, Copy, PartialEq, Eq, Structural)]
pub enum TerminalColor {
    Black,
    Red,
    Green,
    Yellow,
    Blue,
    Purple,
    Cyan,
    White,
    Gray,
    LightRed,
    LightGreen,
    LightYellow,
    LightBlue,
    LightCyan,
    LightWhite,
}

pub open spec fn color_code(c: TerminalColor) -> u8 {
    match c {
        TerminalColor::Black => 0,
        TerminalColor::Red => 1,
        TerminalColor::Green => 2,
        TerminalColor::Yellow => 3,
        TerminalColor::Blue => 4,
        TerminalColor::Purple => 5,
        TerminalColor::Cyan => 6,
        TerminalColor::White => 7,
        TerminalColor::Gray => 8,
        TerminalColor::LightRed => 9,
        TerminalColor::LightGreen => 10,
        TerminalColor::LightYellow => 11,
        TerminalColor::LightBlue => 12,
        TerminalColor::LightCyan => 14,
        TerminalColor::LightWhite => 15,
    }
}

impl TerminalColor {
    /// The colour's index in the 256-colour palette.
    pub fn code(&self) -> (r: u8)
        ensures
            r == color_code(*self),
    {
        match self {
            TerminalColor::Black => 0,
            TerminalColor::Red => 1,
            TerminalColor::Green => 2,
            TerminalColor::Yellow => 3,
            TerminalColor::Blue => 4,
            TerminalColor::Purple => 5,
            TerminalColor::Cyan => 6,
            TerminalColor::White => 7,
            TerminalColor::Gray => 8,
            TerminalColor::LightRed => 9,
            TerminalColor::LightGreen => 10,
            TerminalColor::LightYellow => 11,
            TerminalColor::LightBlue => 12,
            TerminalColor::LightCyan => 14,
            TerminalColor::LightWhite => 15,
        }
    }
}

pub open spec fn opt_text(o: Option<String>) -> Seq<char> {
    match o {
        Some(s) => s@,
        Option::None => Seq::empty(),
    }
}

/// The escapes that start a coloured text.
pub struct TextHeader {
    pub foreground_color: Option<String>,
    pub background_color: Option<String>,
    pub style: Option<String>,
}

fn push_opt(out: &mut String, o: &Option<String>)
    ensures
        final(out)@ == old(out)@ + opt_text(*o),
{
    match o {
        Some(s) => out.append(s.as_str()),
        Option::None => {},
    }
    proof {
        assert(final(out)@ =~= old(out)@ + opt_text(*o));
    }
}

impl TextHeader {
    pub fn new(foreground_color: Option<String>, background_color: Option<String>, style: Option<String>) -> (r: TextHeader)
        ensures
            r.foreground_color == foreground_color,
            r.background_color == background_color,
            r.style == style,
    {
        TextHeader { foreground_color, background_color, style }
    }

    pub fn new_empty() -> (r: TextHeader)
        ensures
            r.foreground_color is None,
            r.background_color is None,
            r.style is None,
    {
        TextHeader::new(Option::None, Option::None, Option::None)
    }

    /// Foreground, background and style escapes, those that are set.
    pub fn to_string(&self) -> (s: String)
        ensures
            s@ == opt_text(self.foreground_color) + opt_text(self.background_color) + opt_text(self.style),
    {
        let mut s = String::new();
        push_opt(&mut s, &self.foreground_color);
        push_opt(&mut s, &self.background_color);
        push_opt(&mut s, &self.style);
        proof {
            assert(s@ =~= opt_text(self.foreground_color) + opt_text(self.background_color) + opt_text(self.style));
        }
        s
    }
}

/// Text with colour escapes.
pub struct Text {
    pub content: String,
    pub head: TextHeader,
}

pub open spec fn palette_fg_seq(code: u8) -> Seq<char> {
    "\x1b[38;5;"@ + dec(code as nat) + "m"@
}

pub open spec fn palette_bg_seq(code: u8) -> Seq<char> {
    "\x1b[48;5;"@ + dec(code as nat) + "m"@
}

fn palette_escape(prefix: &str, code: u8) -> (s: String)
    ensures
        s@ == prefix@ + dec(code as nat) + "m"@,
{
    let mut s = String::from_str(prefix);
    push_dec(&mut s, code as u64);
    s.append("m");
    s
}

impl Text {
    pub fn new(content: String) -> (r: Text)
        ensures
            r.content == content,
            r.head.foreground_color is None,
            r.head.background_color is None,
            r.head.style is None,
    {
        Text { content, head: TextHeader::new_empty() }
    }

    pub fn set_foreground_color(&mut self, foreground_color: TerminalColor) -> (r: &mut Text)
        ensures
            r.content == old(self).content,
            r.head.background_color == old(self).head.background_color,
            r.head.style == old(self).head.style,
            r.head.foreground_color matches Some(f) && f@ == palette_fg_seq(color_code(foreground_color)),
            *final(self) == *final(r),
    {
        self.set_foreground_color_with_code(foreground_color.code())
    }

    pub fn set_foreground_color_with_code(&mut self, foreground_color: u8) -> (r: &mut Text)
        ensures
            r.content == old(self).content,
            r.head.background_color == old(self).head.background_color,
            r.head.style == old(self).head.style,
            r.head.foreground_color matches Some(f) && f@ == palette_fg_seq(foreground_color),
            *final(self) == *final(r),
    {
        self.head.foreground_color = Some(palette_escape("\x1b[38;5;", foreground_color));
        self
    }

    pub fn set_foreground_color_rgb(&mut self, r: u8, g: u8, b: u8) -> (t: &mut Text)
        ensures
            t.content == old(self).content,
            t.head.background_color == old(self).head.background_color,
            t.head.style == old(self).head.style,
            t.head.foreground_color matches Some(f) && f@ == crate::text::fg_seq(r, g, b),
            *final(self) == *final(t),
    {
        let mut s = String::new();
        crate::text::push_fg(&mut s, r, g, b);
        proof {
            assert(s@ =~= crate::text::fg_seq(r, g, b));
        }
        self.head.foreground_color = Some(s);
        self
    }

    pub fn set_background_color(&mut self, background_color: TerminalColor) -> (r: &mut Text)
        ensures
            r.content == old(self).content,
            r.head.foreground_color == old(self).head.foreground_color,
            r.head.style == old(self).head.style,
            r.head.background_color matches Some(f) && f@ == palette_bg_seq(color_code(background_color)),
            *final(self) == *final(r),
    {
        self.set_background_color_with_code(background_color.code())
    }

    pub fn set_background_color_with_code(&mut self, background_color: u8) -> (r: &mut Text)
        ensures
            r.content == old(self).content,
            r.head.foreground_color == old(self).head.foreground_color,
            r.head.style == old(self).head.style,
            r.head.background_color matches Some(f) && f@ == palette_bg_seq(background_color),
            *final(self) == *final(r),
    {
        self.head.background_color = Some(palette_escape("\x1b[48;5;", background_color));
        self
    }

    pub fn set_background_color_rgb(&mut self, r: u8, g: u8, b: u8) -> (t: &mut Text)
        ensures
            t.content == old(self).content,
            t.head.foreground_color == old(self).head.foreground_color,
            t.head.style == old(self).head.style,
            t.head.background_color matches Some(f) && f@ == crate::text::bg_seq(r, g, b),
            *final(self) == *final(t),
    {
        let mut s = String::new();
        crate::text::push_bg(&mut s, r, g, b);
        proof {
            assert(s@ =~= crate::text::bg_seq(r, g, b));
        }
        self.head.background_color = Some(s);
        self
    }

    /// The escapes, the content, and a reset.
    pub fn to_string(&self) -> (s: String)
        ensures
            s@ == opt_text(self.head.foreground_color) + opt_text(self.head.background_color) + opt_text(
                self.head.style,
            ) + self.content@ + "\x1b[0m"@,
    {
        let mut s = self.head.to_string();
        s.append(self.content.as_str());
        s.append("\x1b[0m");
        s
    }
}

/// Conversion into coloured text.
pub trait ToColoredText {
    fn to_colored_text(&self) -> Text;
}

impl ToColoredText for String {
    fn to_colored_text(&self) -> Text {
        Text::new(self.clone())
    }
}

impl ToColoredText for str {
    fn to_colored_text(&self) -> Text {
        Text::new(String::from_str(self))
    }
}

} // verus!
