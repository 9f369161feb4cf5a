use vstd::prelude::*;

verus! {

/// Which axes automatic fitting may shrink.
#[derive(Debug, Clone, Copy, PartialEq, Eq, Structural)]
pub struct AutoResizeOption {
    /// Fit the width to the terminal.
    pub width: bool,
    /// Fit the height to the terminal.
    pub height: bool,
}

impl Default for AutoResizeOption {
    fn default() -> (r: AutoResizeOption)
        ensures
            r == (AutoResizeOption { width: true, height: true }),
    {
        AutoResizeOption { width: true, height: true }
    }
}

impl AutoResizeOption {
    pub fn new(width: bool, height: bool) -> (r: AutoResizeOption)
        ensures
            r == (AutoResizeOption { width, height }),
    {
        AutoResizeOption { width, height }
    }

    pub fn only_width() -> (r: AutoResizeOption)
        ensures
            r == (AutoResizeOption { width: true, height: false }),
    {
        AutoResizeOption { width: true, height: false }
    }

    pub fn only_height() -> (r: AutoResizeOption)
        ensures
            r == (AutoResizeOption { width: false, height: true }),
    {
        AutoResizeOption { width: false, height: true }
    }

    pub fn none() -> (r: AutoResizeOption)
        ensures
            r == (AutoResizeOption { width: false, height: false }),
    {
        AutoResizeOption { width: false, height: false }
    }
}

/// Exact target size per axis; an axis left unset keeps its size.
#[derive(Debug, Clone, Copy, PartialEq, Eq, Structural)]
pub struct CustomResizeOption {
    pub width: Option<u32>,
    pub height: Option<u32>,
}

impl Default for CustomResizeOption {
    fn default() -> (r: CustomResizeOption)
        ensures
            r == (CustomResizeOption { width: None, height: None }),
    {
        CustomResizeOption { width: None, height: None }
    }
}

impl CustomResizeOption {
    pub fn new(width: u32, height: u32) -> (r: CustomResizeOption)
        ensures
            r == (CustomResizeOption { width: Some(width), height: Some(height) }),
    {
        CustomResizeOption { width: Some(width), height: Some(height) }
    }

    pub fn with_width(width: u32) -> (r: CustomResizeOption)
        ensures
            r == (CustomResizeOption { width: Some(width), height: None }),
    {
        CustomResizeOption { width: Some(width), height: None }
    }

    pub fn with_height(height: u32) -> (r: CustomResizeOption)
        ensures
            r == (CustomResizeOption { width: None, height: Some(height) }),
    {
        CustomResizeOption { width: None, height: Some(height) }
    }
}

/// How the image is resized before encoding.
#[derive(Debug, Clone, Copy, PartialEq, Eq, Structural)]
pub enum ResizeMode {
    /// Shrink to the terminal's size.
    Auto(AutoResizeOption),
    /// Resize to the given size.
    Custom(CustomResizeOption),
    /// Keep the size.
    Keep,
}

impl Default for ResizeMode {
    fn default() -> (r: ResizeMode)
        ensures
            r == ResizeMode::Auto(AutoResizeOption { width: true, height: true }),
    {
        ResizeMode::Auto(AutoResizeOption { width: true, height: true })
    }
}

/// The resize mode as the command line names it.
#[derive(Debug, Clone, Copy, PartialEq, Eq, Structural)]
pub enum ClapResizeMode {
    Auto,
    Custom,
    Keep,
}

impl Default for ClapResizeMode {
    fn default() -> (r: ClapResizeMode)
        ensures
            r == ClapResizeMode::Auto,
    {
        ClapResizeMode::Auto
    }
}

} // verus!
