use vstd::prelude::*;

verus! {

/// The render target of a conversion.
#[derive(Debug, Clone, Copy, PartialEq, Eq, Structural)]
pub enum DisplayMode {
    HalfColor,
    FullColor,
    FullNoColor,
    Ascii,
    WezTerm,
    WezTermNoColor,
    Kitty,
    KittyNoColor,
    Iterm2,
    Iterm2NoColor,
    SixelHalf,
    SixelFull,
}

/// The raster shapes that a display mode may ask for.
#[derive(Debug, Clone, Copy, PartialEq, Eq, Structural)]
pub enum ImageKind {
    Color,
    Color2,
    NoColor,
    Both,
}

pub open spec fn kind_name(k: ImageKind) -> Seq<char> {
    match k {
        ImageKind::Color => "Color"@,
        ImageKind::Color2 => "Color2"@,
        ImageKind::NoColor => "NoColor"@,
        ImageKind::Both => "Both"@,
    }
}

impl ImageKind {
    /// The name of the shape, as error messages print it.
    pub fn name(&self) -> (r: &'static str)
        ensures
            r@ == kind_name(*self),
    {
        match self {
            ImageKind::Color => "Color",
            ImageKind::Color2 => "Color2",
            ImageKind::NoColor => "NoColor",
            ImageKind::Both => "Both",
        }
    }
}

impl DisplayMode {
    pub open spec fn spec_is_full(self) -> bool {
        !(self is HalfColor || self is Ascii || self is SixelHalf)
    }

    pub open spec fn spec_is_color(self) -> bool {
        self is FullColor || self is HalfColor || self is WezTerm || self is Kitty
            || self is Iterm2 || self is SixelHalf || self is SixelFull
    }

    pub open spec fn spec_is_normal(self) -> bool {
        self is HalfColor || self is FullColor || self is Ascii || self is FullNoColor
    }

    pub open spec fn spec_is_sixel(self) -> bool {
        self is SixelHalf || self is SixelFull
    }

    /// The raster shape that the encoder of this mode reads.
    pub open spec fn spec_expected_kind(self) -> ImageKind {
        match self {
            DisplayMode::FullColor => ImageKind::Both,
            DisplayMode::SixelHalf | DisplayMode::SixelFull => ImageKind::Color2,
            DisplayMode::HalfColor | DisplayMode::Kitty | DisplayMode::Iterm2
            | DisplayMode::WezTerm => ImageKind::Color,
            _ => ImageKind::NoColor,
        }
    }

    pub open spec fn spec_mode_name(self) -> Seq<char> {
        match self {
            DisplayMode::HalfColor => "HalfColor"@,
            DisplayMode::FullColor => "FullColor"@,
            DisplayMode::FullNoColor => "FullNoColor"@,
            DisplayMode::Ascii => "Ascii"@,
            DisplayMode::WezTerm => "WezTerm"@,
            DisplayMode::WezTermNoColor => "WezTermNoColor"@,
            DisplayMode::Kitty => "Kitty"@,
            DisplayMode::KittyNoColor => "KittyNoColor"@,
            DisplayMode::Iterm2 => "Iterm2"@,
            DisplayMode::Iterm2NoColor => "Iterm2NoColor"@,
            DisplayMode::SixelHalf => "SixelHalf"@,
            DisplayMode::SixelFull => "SixelFull"@,
        }
    }

    /// Whether one output cell stands for two vertically stacked samples.
    pub fn is_full(&self) -> (r: bool)
        ensures
            r == self.spec_is_full(),
    {
        !matches!(self, DisplayMode::HalfColor | DisplayMode::Ascii | DisplayMode::SixelHalf)
    }

    /// Whether the mode emits colour.
    pub fn is_color(&self) -> (r: bool)
        ensures
            r == self.spec_is_color(),
    {
        matches!(
            self,
            DisplayMode::FullColor | DisplayMode::HalfColor | DisplayMode::WezTerm
                | DisplayMode::Kitty | DisplayMode::Iterm2 | DisplayMode::SixelHalf
                | DisplayMode::SixelFull
        )
    }

    /// Whether the mode emits luminance only.
    pub fn is_luma(&self) -> (r: bool)
        ensures
            r == !self.spec_is_color(),
    {
        !self.is_color()
    }

    /// Whether the mode is a plain character-cell mode.
    pub fn is_normal(&self) -> (r: bool)
        ensures
            r == self.spec_is_normal(),
    {
        matches!(
            self,
            DisplayMode::HalfColor | DisplayMode::FullColor | DisplayMode::Ascii
                | DisplayMode::FullNoColor
        )
    }

    pub fn is_wezterm(&self) -> (r: bool)
        ensures
            r == (*self is WezTerm || *self is WezTermNoColor),
    {
        matches!(self, DisplayMode::WezTerm | DisplayMode::WezTermNoColor)
    }

    pub fn is_iterm2(&self) -> (r: bool)
        ensures
            r == (*self is Iterm2 || *self is Iterm2NoColor),
    {
        matches!(self, DisplayMode::Iterm2 | DisplayMode::Iterm2NoColor)
    }

    pub fn is_kitty(&self) -> (r: bool)
        ensures
            r == (*self is Kitty || *self is KittyNoColor),
    {
        matches!(self, DisplayMode::Kitty | DisplayMode::KittyNoColor)
    }

    pub fn is_sixel(&self) -> (r: bool)
        ensures
            r == self.spec_is_sixel(),
    {
        matches!(self, DisplayMode::SixelHalf | DisplayMode::SixelFull)
    }

    /// The name of the mode.
    pub fn mode(&self) -> (r: &'static str)
        ensures
            r@ == self.spec_mode_name(),
    {
        match self {
            DisplayMode::HalfColor => "HalfColor",
            DisplayMode::FullColor => "FullColor",
            DisplayMode::FullNoColor => "FullNoColor",
            DisplayMode::Ascii => "Ascii",
            DisplayMode::WezTerm => "WezTerm",
            DisplayMode::WezTermNoColor => "WezTermNoColor",
            DisplayMode::Kitty => "Kitty",
            DisplayMode::KittyNoColor => "KittyNoColor",
            DisplayMode::Iterm2 => "Iterm2",
            DisplayMode::Iterm2NoColor => "Iterm2NoColor",
            DisplayMode::SixelHalf => "SixelHalf",
            DisplayMode::SixelFull => "SixelFull",
        }
    }

    /// The raster shape that this mode's encoder reads.
    pub fn expected_kind(&self) -> (r: ImageKind)
        ensures
            r == self.spec_expected_kind(),
    {
        match self {
            DisplayMode::FullColor => ImageKind::Both,
            DisplayMode::SixelHalf | DisplayMode::SixelFull => ImageKind::Color2,
            DisplayMode::HalfColor | DisplayMode::Kitty | DisplayMode::Iterm2
            | DisplayMode::WezTerm => ImageKind::Color,
            _ => ImageKind::NoColor,
        }
    }

    /// The name of the raster shape that this mode's encoder reads.
    pub fn expect_image_type(&self) -> (r: &'static str)
        ensures
            r@ == kind_name(self.spec_expected_kind()),
    {
        self.expected_kind().name()
    }

    /// The mode for the command line's full, no-colour and protocol switches.
    pub fn from_bool(full: bool, no_color: bool, protocol: Protocol) -> (r: DisplayMode)
        ensures
            r == DisplayModeBuilder::spec_build(protocol, full, !no_color),
    {
        let b = DisplayModeBuilder { protocol, is_full: full, has_color: !no_color };
        b.build()
    }
}

impl Default for DisplayMode {
    fn default() -> (r: DisplayMode)
        ensures
            r == DisplayMode::HalfColor,
    {
        DisplayMode::HalfColor
    }
}

/// A terminal image protocol.
#[derive(Debug, Clone, Copy, PartialEq, Eq, Structural)]
pub enum Protocol {
    Normal,
    WezTerm,
    Kitty,
    ITerm2,
    Sixel,
}

impl Default for Protocol {
    fn default() -> (r: Protocol)
        ensures
            r == Protocol::Normal,
    {
        Protocol::Normal
    }
}

impl Protocol {
    /// A builder of a display mode for this protocol, full and coloured.
    pub fn builder(&self) -> (r: DisplayModeBuilder)
        ensures
            r == (DisplayModeBuilder { protocol: *self, is_full: true, has_color: true }),
    {
        DisplayModeBuilder::new(*self)
    }
}

/// Chooses a display mode from a protocol and two switches.
#[derive(Debug, Clone, Copy, PartialEq, Eq, Structural)]
pub struct DisplayModeBuilder {
    pub protocol: Protocol,
    pub is_full: bool,
    pub has_color: bool,
}

impl Default for DisplayModeBuilder {
    fn default() -> (r: DisplayModeBuilder)
        ensures
            r == (DisplayModeBuilder { protocol: Protocol::Normal, is_full: true, has_color: true }),
    {
        DisplayModeBuilder { protocol: Protocol::Normal, is_full: true, has_color: true }
    }
}

impl DisplayModeBuilder {
    pub open spec fn spec_build(protocol: Protocol, is_full: bool, has_color: bool) -> DisplayMode {
        match protocol {
            Protocol::Normal => if is_full {
                if has_color { DisplayMode::FullColor } else { DisplayMode::FullNoColor }
            } else {
                if has_color { DisplayMode::HalfColor } else { DisplayMode::Ascii }
            },
            Protocol::Kitty => if has_color { DisplayMode::Kitty } else { DisplayMode::KittyNoColor },
            Protocol::ITerm2 => if has_color { DisplayMode::Iterm2 } else { DisplayMode::Iterm2NoColor },
            Protocol::WezTerm => if has_color { DisplayMode::WezTerm } else { DisplayMode::WezTermNoColor },
            Protocol::Sixel => if is_full { DisplayMode::SixelFull } else { DisplayMode::SixelHalf },
        }
    }

    pub fn new(protocol: Protocol) -> (r: DisplayModeBuilder)
        ensures
            r == (DisplayModeBuilder { protocol, is_full: true, has_color: true }),
    {
        DisplayModeBuilder { protocol, is_full: true, has_color: true }
    }

    pub fn full(&mut self) -> (r: &mut DisplayModeBuilder)
        ensures
            *r == (DisplayModeBuilder { is_full: true, ..*old(self) }),
            *final(self) == *final(r),
    {
        self.is_full = true;
        self
    }

    pub fn no_full(&mut self) -> (r: &mut DisplayModeBuilder)
        ensures
            *r == (DisplayModeBuilder { is_full: false, ..*old(self) }),
            *final(self) == *final(r),
    {
        self.is_full = false;
        self
    }

    pub fn option_is_full(&mut self, is_full: bool) -> (r: &mut DisplayModeBuilder)
        ensures
            *r == (DisplayModeBuilder { is_full, ..*old(self) }),
            *final(self) == *final(r),
    {
        self.is_full = is_full;
        self
    }

    pub fn colored(&mut self) -> (r: &mut DisplayModeBuilder)
        ensures
            *r == (DisplayModeBuilder { has_color: true, ..*old(self) }),
            *final(self) == *final(r),
    {
        self.has_color = true;
        self
    }

    pub fn no_colored(&mut self) -> (r: &mut DisplayModeBuilder)
        ensures
            *r == (DisplayModeBuilder { has_color: false, ..*old(self) }),
            *final(self) == *final(r),
    {
        self.has_color = false;
        self
    }

    pub fn option_has_color(&mut self, has_color: bool) -> (r: &mut DisplayModeBuilder)
        ensures
            *r == (DisplayModeBuilder { has_color, ..*old(self) }),
            *final(self) == *final(r),
    {
        self.has_color = has_color;
        self
    }

    /// The display mode for the protocol and the two switches.
    pub fn build(&self) -> (r: DisplayMode)
        ensures
            r == Self::spec_build(self.protocol, self.is_full, self.has_color),
    {
        match self.protocol {
            Protocol::Normal => if self.is_full {
                if self.has_color { DisplayMode::FullColor } else { DisplayMode::FullNoColor }
            } else {
                if self.has_color { DisplayMode::HalfColor } else { DisplayMode::Ascii }
            },
            Protocol::Kitty => if self.has_color { DisplayMode::Kitty } else { DisplayMode::KittyNoColor },
            Protocol::ITerm2 => if self.has_color { DisplayMode::Iterm2 } else { DisplayMode::Iterm2NoColor },
            Protocol::WezTerm => if self.has_color { DisplayMode::WezTerm } else { DisplayMode::WezTermNoColor },
            Protocol::Sixel => if self.is_full { DisplayMode::SixelFull } else { DisplayMode::SixelHalf },
        }
    }
}

} // verus!
