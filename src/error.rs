use vstd::prelude::*;
use crate::text::push_dec;

verus! {

/// Where an error arose.
#[derive(Debug)]
pub enum ConvertErrorContextSource {
    /// At a pixel `(x, y)`.
    Pixel(u32, u32),
    /// While encoding Sixel.
    SixelConvert,
    /// In the named function.
    Function(String),
}

/// Where an error arose, what it was, and the error underneath it, if any.
#[derive(Debug)]
pub struct ConvertErrorContext {
    pub source: ConvertErrorContextSource,
    pub message: String,
    pub inner: Option<String>,
}

pub open spec fn same_source(a: &ConvertErrorContextSource, b: &ConvertErrorContextSource) -> bool {
    match (a, b) {
        (ConvertErrorContextSource::Pixel(x1, y1), ConvertErrorContextSource::Pixel(x2, y2)) => x1 == x2 && y1 == y2,
        (ConvertErrorContextSource::SixelConvert, ConvertErrorContextSource::SixelConvert) => true,
        (ConvertErrorContextSource::Function(f1), ConvertErrorContextSource::Function(f2)) => f1@ == f2@,
        _ => false,
    }
}

impl PartialEq for ConvertErrorContextSource {
    fn eq(&self, o: &ConvertErrorContextSource) -> (r: bool) {
        match self {
            ConvertErrorContextSource::Pixel(x1, y1) => match o {
                ConvertErrorContextSource::Pixel(x2, y2) => *x1 == *x2 && *y1 == *y2,
                _ => false,
            },
            ConvertErrorContextSource::SixelConvert => match o {
                ConvertErrorContextSource::SixelConvert => true,
                _ => false,
            },
            ConvertErrorContextSource::Function(f1) => match o {
                ConvertErrorContextSource::Function(f2) => f1.eq(f2),
                _ => false,
            },
        }
    }
}

impl vstd::std_specs::cmp::PartialEqSpecImpl for ConvertErrorContextSource {
    open spec fn obeys_eq_spec() -> bool {
        true
    }

    open spec fn eq_spec(&self, o: &ConvertErrorContextSource) -> bool {
        same_source(self, o)
    }
}

/// Two contexts are equal when their sources and messages are; the error
/// underneath is not compared.
impl PartialEq for ConvertErrorContext {
    fn eq(&self, o: &ConvertErrorContext) -> (r: bool) {
        self.source == o.source && self.message == o.message
    }
}

impl vstd::std_specs::cmp::PartialEqSpecImpl for ConvertErrorContext {
    open spec fn obeys_eq_spec() -> bool {
        true
    }

    open spec fn eq_spec(&self, o: &ConvertErrorContext) -> bool {
        same_source(&self.source, &o.source) && self.message@ == o.message@
    }
}

impl ConvertErrorContext {
    pub fn new(source: ConvertErrorContextSource, message: String) -> (r: ConvertErrorContext)
        ensures
            r.source == source,
            r.message == message,
            r.inner is None,
    {
        ConvertErrorContext { source, message, inner: None }
    }

    /// The same context with the description of the error underneath it.
    pub fn with_inner(self, inner: String) -> (r: ConvertErrorContext)
        ensures
            r.source == self.source,
            r.message == self.message,
            r.inner == Some(inner),
    {
        ConvertErrorContext { inner: Some(inner), ..self }
    }
}

/// The errors of conversion.
#[derive(Debug, PartialEq)]
pub enum ConvertError {
    /// The raster holds no pixel.
    EmptyData,
    /// The raster's shape is not the one that the display mode reads.
    WrongImageType { expect_type: String, actual_type: String },
    /// The terminal's size could not be had.
    GetTerminalSizeError,
    /// An input is longer than the limit given.
    AboveMaxLength(u32, ConvertErrorContext),
    /// A lock could not be taken.
    LockError(ConvertErrorContext),
    /// The image codec failed.
    ImageError(ConvertErrorContext),
}

impl ConvertError {
    /// The message that describes the error.
    pub fn message(&self) -> (r: String)
        ensures
            self is EmptyData ==> r@ == "Empty data"@,
            self is GetTerminalSizeError ==> r@ == "Terminal size error"@,
            self is WrongImageType ==> r@ == "Unsupported Image Type, expect "@
                + self->expect_type@ + ", but actual "@ + self->actual_type@,
            self is LockError ==> r == self->LockError_0.message,
            self is ImageError ==> r == self->ImageError_0.message,
    {
        match self {
            ConvertError::EmptyData => String::from_str("Empty data"),
            ConvertError::WrongImageType { expect_type, actual_type } => {
                let mut s = String::from_str("Unsupported Image Type, expect ");
                s.append(expect_type.as_str());
                s.append(", but actual ");
                s.append(actual_type.as_str());
                s
            },
            ConvertError::GetTerminalSizeError => String::from_str("Terminal size error"),
            ConvertError::AboveMaxLength(len, _) => {
                let mut s = String::from_str("above the maximum length of ");
                push_dec(&mut s, *len as u64);
                s
            },
            ConvertError::LockError(context) => context.message.clone(),
            ConvertError::ImageError(context) => context.message.clone(),
        }
    }
}

} // verus!
