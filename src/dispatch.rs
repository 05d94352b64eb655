//! The operations of the backend: their entry points, the arguments each
//! call is made with, and what a finished call yields.
use crate::codec::{CudaImageData, ProcessError, ToCudaImageData, PIXEL_SIZE};
use crate::histogram::{CudaHistogramData, HISTOGRAM_BINS};
use image::DynamicImage;
use vstd::prelude::*;

verus! {

/// An image processing operation of the backend.
///
/// Floating-point parameters are carried as their IEEE-754 bit pattern
/// (`f32::to_bits`): the library hands them to the backend unread.
#[derive(Clone, Copy, Debug, PartialEq, Eq, Structural)]
pub enum ImageProcessingFunction {
    Invert,
    GammaTransform(u32),
    LogarithmicTransform(u32),
    Grayscale,
    ComputeHistogram,
    BalanceHistogram,
    BoxFilter(u32),
    GaussianBlur(u32),
    SobelEdgeDetection,
    LaplaceEdgeDetection,
    HarrisCornerDetection,
}

/// What follows `(image, image_len, stride, height)` in a native call.
#[derive(Clone, Copy, Debug, PartialEq, Eq, Structural)]
pub enum TrailingArg {
    /// No further argument.
    Nothing,
    /// An `f32`, given by its bit pattern.
    Float(u32),
    /// A `u32`.
    Unsigned(u32),
    /// No trailing argument, but a pointer to the 256 histogram counts
    /// inserted as the third argument, before the stride.
    HistogramOut,
}

/// The NUL-terminated name of the operation's entry point in the backend.
pub open spec fn entry_point_name(op: ImageProcessingFunction) -> Seq<char> {
    match op {
        ImageProcessingFunction::Invert => "invertImage\0"@,
        ImageProcessingFunction::GammaTransform(_) => "gammaTransformImage\0"@,
        ImageProcessingFunction::LogarithmicTransform(_) => "logarithmicTransformImage\0"@,
        ImageProcessingFunction::Grayscale => "grayscaleImage\0"@,
        ImageProcessingFunction::ComputeHistogram => "computeHistogram\0"@,
        ImageProcessingFunction::BalanceHistogram => "balanceHistogram\0"@,
        ImageProcessingFunction::BoxFilter(_) => "boxFilter\0"@,
        ImageProcessingFunction::GaussianBlur(_) => "gaussianBlur\0"@,
        ImageProcessingFunction::SobelEdgeDetection => "sobelEdgeDetection\0"@,
        ImageProcessingFunction::LaplaceEdgeDetection => "laplaceEdgeDetection\0"@,
        ImageProcessingFunction::HarrisCornerDetection => "harrisCornerDetection\0"@,
    }
}

/// The argument that the operation's signature adds to the common ones.
pub open spec fn trailing_arg(op: ImageProcessingFunction) -> TrailingArg {
    match op {
        ImageProcessingFunction::GammaTransform(gamma) => TrailingArg::Float(gamma),
        ImageProcessingFunction::LogarithmicTransform(base) => TrailingArg::Float(base),
        ImageProcessingFunction::GaussianBlur(sigma) => TrailingArg::Float(sigma),
        ImageProcessingFunction::BoxFilter(size) => TrailingArg::Unsigned(size),
        ImageProcessingFunction::ComputeHistogram => TrailingArg::HistogramOut,
        _ => TrailingArg::Nothing,
    }
}

/// The entry point of an operation.
pub fn entry_point(op: &ImageProcessingFunction) -> (r: &'static str)
    ensures
        r@ == entry_point_name(*op),
{
    match op {
        ImageProcessingFunction::Invert => "invertImage\0",
        ImageProcessingFunction::GammaTransform(_) => "gammaTransformImage\0",
        ImageProcessingFunction::LogarithmicTransform(_) => "logarithmicTransformImage\0",
        ImageProcessingFunction::Grayscale => "grayscaleImage\0",
        ImageProcessingFunction::ComputeHistogram => "computeHistogram\0",
        ImageProcessingFunction::BalanceHistogram => "balanceHistogram\0",
        ImageProcessingFunction::BoxFilter(_) => "boxFilter\0",
        ImageProcessingFunction::GaussianBlur(_) => "gaussianBlur\0",
        ImageProcessingFunction::SobelEdgeDetection => "sobelEdgeDetection\0",
        ImageProcessingFunction::LaplaceEdgeDetection => "laplaceEdgeDetection\0",
        ImageProcessingFunction::HarrisCornerDetection => "harrisCornerDetection\0",
    }
}

/// One native call: the entry point and the scalar arguments that go with
/// the image buffer.
pub struct NativeCall {
    pub symbol: &'static str,
    pub image_len: u32,
    pub stride: u32,
    pub height: u32,
    pub trailing: TrailingArg,
}

/// `call` is the call that runs `op` on `data`: its stride is the number of
/// bytes in a row, never the width in pixels.
pub open spec fn is_call_for(call: NativeCall, op: ImageProcessingFunction, data: CudaImageData) -> bool {
    &&& call.symbol@ == entry_point_name(op)
    &&& call.image_len == data.raw_len
    &&& call.image_len == data.bytes@.len()
    &&& call.stride == data.width * PIXEL_SIZE
    &&& call.height == data.height
    &&& call.trailing == trailing_arg(op)
}

/// The native call that runs `op` on `data`.
pub fn plan_native_call(op: &ImageProcessingFunction, data: &CudaImageData) -> (r: NativeCall)
    requires
        data.wf(),
    ensures
        is_call_for(r, *op, *data),
{
    let trailing = match op {
        ImageProcessingFunction::GammaTransform(gamma) => TrailingArg::Float(*gamma),
        ImageProcessingFunction::LogarithmicTransform(base) => TrailingArg::Float(*base),
        ImageProcessingFunction::GaussianBlur(sigma) => TrailingArg::Float(*sigma),
        ImageProcessingFunction::BoxFilter(size) => TrailingArg::Unsigned(*size),
        ImageProcessingFunction::ComputeHistogram => TrailingArg::HistogramOut,
        _ => TrailingArg::Nothing,
    };
    NativeCall {
        symbol: entry_point(op),
        image_len: data.raw_len,
        stride: data.width * PIXEL_SIZE,
        height: data.height,
        trailing,
    }
}

/// Everything a native call needs, owned by the caller for its duration:
/// the image buffer, a zeroed histogram buffer, and the arguments.
pub struct PreparedCall {
    pub operation: ImageProcessingFunction,
    pub call: NativeCall,
    pub image: CudaImageData,
    pub histogram: CudaHistogramData,
}

/// What a finished operation yields.
pub enum ProcessOutput {
    /// The image buffer as the backend left it.
    Image(DynamicImage),
    /// The counts that `ComputeHistogram` wrote.
    Histogram(CudaHistogramData),
}

/// Encodes `image` and plans the native call of `op` on it.
pub fn prepare_native_call(image: &DynamicImage, op: ImageProcessingFunction) -> (r: Result<PreparedCall, ProcessError>)
    ensures
        r is Ok <==> image.fits_backend(),
        r matches Ok(p) ==> {
            &&& p.operation == op
            &&& p.image.encodes(*image)
            &&& is_call_for(p.call, op, p.image)
            &&& p.histogram.wf()
            &&& forall|i: int| 0 <= i < p.histogram.data@.len() ==> p.histogram.data@[i] == 0
        },
        r matches Err(e) ==> e == ProcessError::ImageTooLarge,
{
    let data = match image.to_cuda_image_data() {
        Ok(data) => data,
        Err(e) => return Err(e),
    };
    let call = plan_native_call(&op, &data);
    Ok(PreparedCall { operation: op, call, image: data, histogram: CudaHistogramData::default() })
}

/// The result of a finished native call: for `ComputeHistogram` the
/// histogram counts, for every other operation the image buffer read back.
/// A buffer whose size no longer matches is a `Format` error.
pub fn finish_native_call(prepared: PreparedCall) -> (r: Result<ProcessOutput, ProcessError>)
    ensures
        prepared.operation is ComputeHistogram ==> (match r {
            Ok(ProcessOutput::Histogram(h)) => prepared.histogram.wf() && h == prepared.histogram,
            Ok(ProcessOutput::Image(_)) => false,
            Err(e) => !prepared.histogram.wf() && e == ProcessError::Format,
        }),
        !(prepared.operation is ComputeHistogram) ==> (match r {
            Ok(ProcessOutput::Image(image)) => {
                &&& prepared.image.decodable()
                &&& prepared.image.decodes_to(image)
            },
            Ok(ProcessOutput::Histogram(_)) => false,
            Err(e) => !prepared.image.decodable() && e == ProcessError::Format,
        }),
{
    match prepared.operation {
        ImageProcessingFunction::ComputeHistogram => {
            if prepared.histogram.data.len() == HISTOGRAM_BINS {
                Ok(ProcessOutput::Histogram(prepared.histogram))
            } else {
                Err(ProcessError::Format)
            }
        },
        _ => match prepared.image.into_image() {
            Ok(image) => Ok(ProcessOutput::Image(image)),
            Err(e) => Err(e),
        },
    }
}

} // verus!
