use vstd::prelude::*;
use crate::error::{ConvertError, ConvertErrorContext, ConvertErrorContextSource};
use crate::raster::{lemma_index_in_grid, pixel_index, RgbColor, RgbImage};

verus! {

/// Relies on quantette's `ImagePipeline` (from an RGB8 buffer of the samples,
/// Wu's method in sRGB, `PaletteSize::from_clamped(max_colors)`, optional
/// dithering, `indexed_palette_par`). Building the pipeline fails, with the limit
/// `u32::MAX`, exactly when there are more than `u32::MAX` pixels. A palette size
/// of zero gives an empty palette; otherwise every pixel gets an index into the
/// palette. Wu's method makes at most the palette size (clamped to 256) colours.
#[verifier::external_body]
fn quantize(img: &RgbImage, max_colors: u16, dither: bool) -> (r: Result<(Vec<RgbColor>, Vec<u8>), u32>)
    requires
        img.wf(),
    ensures
        r is Err <==> img.width as int * img.height as int > u32::MAX,
        r is Err ==> r->Err_0 == u32::MAX,
        r is Ok && max_colors == 0 ==> r->Ok_0.0@.len() == 0,
        r is Ok ==> r->Ok_0.0@.len() <= max_colors && r->Ok_0.0@.len() <= 256,
        r is Ok && max_colors > 0 ==> indices_fit(r->Ok_0.0@.len(), r->Ok_0.1@, img.width, img.height),
{
    let raw: Vec<u8> = img.pixels.iter().flat_map(|p| [p.red, p.green, p.blue]).collect();
    let buf = image::RgbImage::from_raw(img.width, img.height, raw).unwrap();
    let mut pipeline = quantette::ImagePipeline::try_from(&buf).map_err(|e| e.0)?;
    let (palette, indices) = pipeline
        .palette_size(quantette::PaletteSize::from_clamped(max_colors))
        .dither(dither)
        .colorspace(quantette::ColorSpace::Srgb)
        .quantize_method(quantette::QuantizeMethod::wu())
        .indexed_palette_par();
    Ok((palette.iter().map(|c| RgbColor { red: c.red, green: c.green, blue: c.blue }).collect(), indices))
}

/// One index per pixel of a `width` by `height` raster, each below `palette_len`.
pub open spec fn indices_fit(palette_len: nat, indices: Seq<u8>, width: u32, height: u32) -> bool {
    &&& indices.len() == width as int * height as int
    &&& forall|i: int| 0 <= i < indices.len() ==> (#[trigger] indices[i] as int) < palette_len
}

/// Whether `indices` has one index per pixel of a `width` by `height` raster, each
/// below `palette_len`.
pub fn indices_are_valid(palette_len: usize, indices: &Vec<u8>, width: u32, height: u32) -> (r: bool)
    ensures
        r == indices_fit(palette_len as nat, indices@, width, height),
{
    proof {
        assert(0 <= (width as int) * (height as int) <= u32::MAX as int * u32::MAX as int) by (nonlinear_arith)
            requires
                width <= u32::MAX,
                height <= u32::MAX,
        ;
    }
    let n = indices.len();
    if n as u64 != (width as u64) * (height as u64) {
        return false;
    }
    let mut i: usize = 0;
    while i < n
        invariant
            n == indices@.len(),
            i <= n,
            forall|j: int| 0 <= j < i ==> (#[trigger] indices@[j] as int) < palette_len,
        decreases n - i,
    {
        if (indices[i] as usize) >= palette_len {
            return false;
        }
        i = i + 1;
    }
    true
}

/// A palette-quantized raster: a palette and one palette index per pixel.
pub struct IndexedImage {
    pub palette: Vec<RgbColor>,
    pub index_data: Vec<u8>,
    pub width: u32,
    pub height: u32,
}

impl IndexedImage {
    /// One index per pixel, each a valid palette position.
    pub open spec fn wf(&self) -> bool {
        &&& self.index_data@.len() == self.width as int * self.height as int
        &&& forall|i: int| 0 <= i < self.index_data@.len() ==> (#[trigger] self.index_data@[i] as int)
            < self.palette@.len()
    }

    pub open spec fn spec_pixel(&self, x: int, y: int) -> u8 {
        self.index_data@[pixel_index(x, y, self.width as int)]
    }

    /// Quantizes `img` to at most `max_colors` colours (at most 256).
    ///
    /// Fails with `AboveMaxLength(u32::MAX)` when the image has more pixels than
    /// the quantizer takes, and with `ImageError` when a palette bound of zero
    /// leaves pixels without a colour.
    pub fn from_image(img: &RgbImage, max_colors: u16, dither: bool) -> (r: Result<IndexedImage, ConvertError>)
        requires
            img.wf(),
        ensures
            r is Ok ==> r->Ok_0.wf() && r->Ok_0.width == img.width && r->Ok_0.height == img.height,
            r is Ok ==> r->Ok_0.palette@.len() <= max_colors && r->Ok_0.palette@.len() <= 256,
            r is Err ==> r->Err_0 is AboveMaxLength || r->Err_0 is ImageError,
            img.width as int * img.height as int > u32::MAX ==> r is Err && r->Err_0 is AboveMaxLength
                && r->Err_0->AboveMaxLength_0 == u32::MAX,
            img.width as int * img.height as int <= u32::MAX && max_colors > 0 ==> r is Ok,
            img.width as int * img.height as int <= u32::MAX && max_colors == 0 && img.width as int
                * img.height as int > 0 ==> r is Err && r->Err_0 is ImageError,
    {
        match quantize(img, max_colors, dither) {
            Err(limit) => Err(ConvertError::AboveMaxLength(
                limit,
                ConvertErrorContext::new(
                    ConvertErrorContextSource::SixelConvert,
                    String::from_str("the image has more pixels than the quantizer takes"),
                ),
            )),
            Ok((palette, index_data)) => {
                proof {
                    if palette@.len() == 0 && index_data@.len() > 0 {
                        assert(!((index_data@[0] as int) < palette@.len()));
                    }
                }
                if indices_are_valid(palette.len(), &index_data, img.width, img.height) {
                    Ok(IndexedImage { palette, index_data, width: img.width, height: img.height })
                } else {
                    Err(ConvertError::ImageError(
                        ConvertErrorContext::new(
                            ConvertErrorContextSource::SixelConvert,
                            String::from_str("the quantizer did not index every pixel"),
                        ),
                    ))
                }
            },
        }
    }

    /// The palette index of pixel `(x, y)`.
    pub fn get_pixel(&self, x: u32, y: u32) -> (r: u8)
        requires
            self.wf(),
            x < self.width,
            y < self.height,
        ensures
            r == self.spec_pixel(x as int, y as int),
            (r as int) < self.palette@.len(),
    {
        let n = self.index_data.len();
        proof {
            lemma_index_in_grid(x as int, y as int, self.width as int, self.height as int);
            assert(0 <= (y as int) * (self.width as int) <= (y as int) * (self.width as int) + x as int) by (nonlinear_arith)
                requires
                    0 <= y,
                    0 <= self.width,
                    0 <= x,
            ;
        }
        self.index_data[(y as usize) * (self.width as usize) + (x as usize)]
    }
}

} // verus!
