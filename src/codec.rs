//! Conversion between images and the flat RGB buffer handed to the backend.
use image::DynamicImage;
use vstd::prelude::*;

verus! {

/// image's `DynamicImage`, carried opaquely; what the library reads of it is
/// named below.
#[verifier::external_type_specification]
#[verifier::external_body]
pub struct ExDynamicImage(image::DynamicImage);

/// The samples of the RGB copy that `DynamicImage::to_rgb8` makes of an image,
/// row by row, three per pixel (the buffer may run past the last pixel).
pub uninterp spec fn rgb8_samples(image: DynamicImage) -> Seq<u8>;

/// The width and height of the RGB copy that `DynamicImage::to_rgb8` makes.
pub uninterp spec fn rgb8_dimensions(image: DynamicImage) -> (u32, u32);

/// Bytes per pixel in every buffer exchanged with the backend.
pub const PIXEL_SIZE: u32 = 3;

/// Number of bytes of an RGB image of the given size.
pub open spec fn rgb_len(width: u32, height: u32) -> int {
    width * height * 3
}

/// The red, green and blue values of every pixel of an image, row by row.
pub open spec fn rgb_channels(image: DynamicImage) -> Seq<u8> {
    rgb8_samples(image).take(rgb_len(rgb8_dimensions(image).0, rgb8_dimensions(image).1))
}

/// Whether an image of this size can cross the native boundary, whose
/// lengths and row strides are 32-bit.
pub open spec fn fits_native_abi(width: u32, height: u32) -> bool {
    &&& width * 3 <= u32::MAX
    &&& rgb_len(width, height) <= u32::MAX
}

/// Errors of a single image operation.
#[derive(Clone, Copy, Debug, PartialEq, Eq, Structural)]
pub enum ProcessError {
    /// The image has more bytes than the native boundary can address.
    ImageTooLarge,
    /// The entry point of the operation could not be resolved in the backend.
    SymbolResolution,
    /// A buffer does not have the size that its dimensions call for.
    Format,
}

/// An image as the backend sees it: RGB bytes, row by row.
pub struct CudaImageData {
    pub bytes: Vec<u8>,
    pub raw_len: u32,
    pub width: u32,
    pub height: u32,
    pub pixel_size: u32,
}

impl CudaImageData {
    /// The buffer holds exactly `width * height` pixels of three bytes, and
    /// its length and row stride fit the native boundary.
    pub open spec fn wf(&self) -> bool {
        &&& self.pixel_size == PIXEL_SIZE
        &&& fits_native_abi(self.width, self.height)
        &&& self.bytes@.len() == rgb_len(self.width, self.height)
        &&& self.raw_len == self.bytes@.len()
    }

    /// The buffer is the RGB content of `image`.
    pub open spec fn encodes(&self, image: DynamicImage) -> bool {
        &&& self.wf()
        &&& (self.width, self.height) == rgb8_dimensions(image)
        &&& self.bytes@ == rgb_channels(image)
    }
}

/// Relies on `DynamicImage::to_rgb8`, `ImageBuffer::dimensions` and
/// `ImageBuffer::into_raw`: the RGB copy of the image, its size, and its
/// sample buffer, which an `ImageBuffer` keeps at least `3 * width * height` long.
#[verifier::external_body]
fn rgb8_parts(image: &DynamicImage) -> (r: (Vec<u8>, u32, u32))
    ensures
        r.0@ == rgb8_samples(*image),
        (r.1, r.2) == rgb8_dimensions(*image),
        r.0@.len() >= rgb_len(r.1, r.2),
{
    let rgb = image.to_rgb8();
    let (width, height) = rgb.dimensions();
    (rgb.into_raw(), width, height)
}

/// Relies on `ImageBuffer::from_raw`, which accepts a buffer of at least
/// `3 * width * height` samples whenever that product fits in `usize`, and on
/// `DynamicImage::to_rgb8`, which returns an `ImageRgb8` image as a clone of
/// its buffer.
#[verifier::external_body]
fn rgb8_image_from_raw(width: u32, height: u32, bytes: Vec<u8>) -> (r: Option<DynamicImage>)
    requires
        bytes@.len() == rgb_len(width, height),
    ensures
        r is Some,
        rgb8_dimensions(r->0) == (width, height),
        rgb8_samples(r->0) == bytes@,
{
    image::RgbImage::from_raw(width, height, bytes).map(DynamicImage::ImageRgb8)
}

/// Conversion of an image into the buffer handed to the backend.
pub trait ToCudaImageData: Sized {
    /// Whether the image can be encoded for the native boundary.
    spec fn fits_backend(&self) -> bool;

    /// Whether `data` is the encoding of the image.
    spec fn encoded_as(&self, data: CudaImageData) -> bool;

    /// The image as RGB bytes, three per pixel, any alpha channel dropped.
    fn to_cuda_image_data(&self) -> (r: Result<CudaImageData, ProcessError>)
        ensures
            r is Ok <==> self.fits_backend(),
            r matches Ok(data) ==> self.encoded_as(data),
            r matches Err(e) ==> e == ProcessError::ImageTooLarge,
    ;
}

impl ToCudaImageData for DynamicImage {
    open spec fn fits_backend(&self) -> bool {
        fits_native_abi(rgb8_dimensions(*self).0, rgb8_dimensions(*self).1)
    }

    open spec fn encoded_as(&self, data: CudaImageData) -> bool {
        data.encodes(*self)
    }

    fn to_cuda_image_data(&self) -> (r: Result<CudaImageData, ProcessError>) {
        let (mut bytes, width, height) = rgb8_parts(self);
        if width > u32::MAX / PIXEL_SIZE {
            return Err(ProcessError::ImageTooLarge);
        }
        let stride: u32 = width * PIXEL_SIZE;
        assert((stride as u64) * (height as u64) <= 0xffff_ffff_u64 * 0xffff_ffff_u64)
            by (nonlinear_arith)
            requires
                stride <= 0xffff_ffff_u64,
                height <= 0xffff_ffff_u64,
        ;
        let len: u64 = stride as u64 * height as u64;
        assert(len == rgb_len(width, height)) by (nonlinear_arith)
            requires
                len == (width * 3) * height,
        ;
        if len > u32::MAX as u64 {
            return Err(ProcessError::ImageTooLarge);
        }
        bytes.truncate(len as usize);
        Ok(CudaImageData { bytes, raw_len: len as u32, width, height, pixel_size: PIXEL_SIZE })
    }
}

impl CudaImageData {
    /// Whether the buffer can be read back as an RGB image of its dimensions.
    pub open spec fn decodable(&self) -> bool {
        self.pixel_size == PIXEL_SIZE && self.bytes@.len() == rgb_len(self.width, self.height)
    }

    /// `image` is the buffer read back: same size, same samples.
    pub open spec fn decodes_to(&self, image: DynamicImage) -> bool {
        &&& rgb8_dimensions(image) == (self.width, self.height)
        &&& rgb8_samples(image) == self.bytes@
    }

    /// The buffer read back as an RGB image of its dimensions; a buffer whose
    /// length disagrees with them is a `Format` error.
    pub fn into_image(self) -> (r: Result<DynamicImage, ProcessError>)
        ensures
            r is Ok <==> self.decodable(),
            r matches Ok(image) ==> self.decodes_to(image),
            r matches Err(e) ==> e == ProcessError::Format,
    {
        if self.pixel_size != PIXEL_SIZE {
            return Err(ProcessError::Format);
        }
        let len: usize = self.bytes.len();
        assert((self.width as u64) * (self.height as u64) <= 0xffff_ffff_u64 * 0xffff_ffff_u64)
            by (nonlinear_arith)
            requires
                self.width <= 0xffff_ffff_u64,
                self.height <= 0xffff_ffff_u64,
        ;
        let area: u64 = self.width as u64 * self.height as u64;
        let expected = match area.checked_mul(3) {
            Some(expected) => expected,
            None => return Err(ProcessError::Format),
        };
        if len as u64 != expected {
            return Err(ProcessError::Format);
        }
        match rgb8_image_from_raw(self.width, self.height, self.bytes) {
            Some(image) => Ok(image),
            None => Err(ProcessError::Format),
        }
    }
}

/// Encoding an image and decoding the buffer, with no native call between,
/// gives an image of the same size whose red, green and blue values are
/// those of the original, pixel for pixel.
pub proof fn lemma_round_trip(image: DynamicImage, data: CudaImageData, decoded: DynamicImage)
    requires
        image.encoded_as(data),
        data.decodes_to(decoded),
    ensures
        data.decodable(),
        rgb8_dimensions(decoded) == rgb8_dimensions(image),
        rgb_channels(decoded) == rgb_channels(image),
{
    assert(rgb_channels(decoded) =~= rgb8_samples(decoded));
}

/// Every image of up to 4096 by 4096 pixels can be encoded for the backend.
pub proof fn lemma_large_images_fit(image: DynamicImage)
    requires
        rgb8_dimensions(image).0 <= 4096,
        rgb8_dimensions(image).1 <= 4096,
    ensures
        image.fits_backend(),
{
    let (width, height) = rgb8_dimensions(image);
    assert(width * height * 3 <= 4096 * 4096 * 3) by (nonlinear_arith)
        requires
            width <= 4096,
            height <= 4096,
    ;
}

} // verus!
