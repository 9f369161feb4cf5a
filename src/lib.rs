//! Conversion of decoded raster images into terminal output: character-cell
//! escape text (half blocks, full blocks, luminance glyphs) and inline-image
//! protocol payloads (Kitty, iTerm2, WezTerm, Sixel), with the geometry that
//! fits and places the image, and a GIF frame compositor.

pub mod mode;
pub mod text;
pub mod raster;
pub mod error;
pub mod cells;
pub mod codec;
pub mod geometry;
pub mod resize;
pub mod converter;
pub mod indexed;
pub mod sixel;
pub mod processor;
pub mod gif;
pub mod colored;
pub mod cli;

pub use mode::{DisplayMode, DisplayModeBuilder, ImageKind, Protocol};
pub use raster::{GrayImage, PixelColor, ProcessedImage, RgbColor, RgbImage, RgbaImage};
pub use resize::{AutoResizeOption, ClapResizeMode, CustomResizeOption, ResizeMode};
pub use error::{ConvertError, ConvertErrorContext, ConvertErrorContextSource};
pub use geometry::TerminalSize;
pub use converter::{ImageConverter, ImageConverterOption};
pub use processor::{ImageProcessor, ImageProcessorOptions, ImageProcessorResult, ImageProcessorResultDisplay};
pub use indexed::IndexedImage;
pub use gif::{DisposalMethod, GifFrame, GifFrameProcessor};
