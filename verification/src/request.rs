//! What a caller may ask of one extraction: the output pixel format, the
//! scaling method, and the output dimensions, each optional with a
//! documented default, and the resolution of those options against the
//! source frame's native dimensions into a concrete conversion plan.

use vstd::prelude::*;
use crate::error::{VideoError, VideoErrorCode};

verus! {

/// The packed pixel formats an extraction can produce.
#[derive(Clone, Copy, Debug, PartialEq, Eq, Structural)]
pub enum PixelFormat {
    Rgb24,
    Rgba,
    Bgr24,
    Gray8,
}

/// Bytes per pixel of each packed format.
pub open spec fn spec_bytes_per_pixel(format: PixelFormat) -> int {
    match format {
        PixelFormat::Rgb24 => 3,
        PixelFormat::Rgba => 4,
        PixelFormat::Bgr24 => 3,
        PixelFormat::Gray8 => 1,
    }
}

/// Bytes per pixel of each packed format.
pub fn bytes_per_pixel(format: PixelFormat) -> (n: u32)
    ensures
        n == spec_bytes_per_pixel(format),
        1 <= n <= 4,
{
    match format {
        PixelFormat::Rgb24 => 3,
        PixelFormat::Rgba => 4,
        PixelFormat::Bgr24 => 3,
        PixelFormat::Gray8 => 1,
    }
}

/// The resampling algorithms the converter may be built with. The choice
/// affects only resampling quality and cost, never the output's format or
/// dimensions.
#[derive(Clone, Copy, Debug, PartialEq, Eq, Structural)]
pub enum ScalingMethod {
    Bilinear,
    Bicubic,
    AreaBased,
    Fast,
}

/// A caller's options for one extraction. Every field is optional: the
/// pixel format defaults to RGB24, the scaling method to bilinear, and the
/// output dimensions to the source frame's own.
#[derive(Clone, Copy, Debug, PartialEq, Eq, Structural)]
pub struct ExtractionRequest {
    pub pixel_format: Option<PixelFormat>,
    pub scaling_method: Option<ScalingMethod>,
    pub width: Option<u32>,
    pub height: Option<u32>,
}

impl ExtractionRequest {
    /// A request with every option left at its default.
    pub fn defaults() -> (r: ExtractionRequest)
        ensures
            r.pixel_format is None,
            r.scaling_method is None,
            r.width is None,
            r.height is None,
    {
        ExtractionRequest { pixel_format: None, scaling_method: None, width: None, height: None }
    }
}

/// The pixel format a request resolves to.
pub open spec fn spec_chosen_format(req: ExtractionRequest) -> PixelFormat {
    match req.pixel_format {
        Some(f) => f,
        None => PixelFormat::Rgb24,
    }
}

/// The scaling method a request resolves to.
pub open spec fn spec_chosen_method(req: ExtractionRequest) -> ScalingMethod {
    match req.scaling_method {
        Some(m) => m,
        None => ScalingMethod::Bilinear,
    }
}

/// The output width a request resolves to against a source width.
pub open spec fn spec_chosen_width(req: ExtractionRequest, src_width: u32) -> u32 {
    match req.width {
        Some(w) => w,
        None => src_width,
    }
}

/// The output height a request resolves to against a source height.
pub open spec fn spec_chosen_height(req: ExtractionRequest, src_height: u32) -> u32 {
    match req.height {
        Some(h) => h,
        None => src_height,
    }
}

/// The concrete plan a converter is built from: destination format and
/// dimensions and the resampling algorithm. Built once per call, on the
/// first accepted frame, and reused for every frame of that call.
#[derive(Clone, Copy, Debug, PartialEq, Eq, Structural)]
pub struct ConversionPlan {
    pub format: PixelFormat,
    pub width: u32,
    pub height: u32,
    pub method: ScalingMethod,
}

/// Resolves a request against the source frame's native dimensions.
/// Each option falls back to its default; dimensions that resolve to zero
/// are rejected as invalid input, so a plan always has positive dimensions.
pub fn resolve_conversion(req: &ExtractionRequest, src_width: u32, src_height: u32) -> (r:
    Result<ConversionPlan, VideoError>)
    ensures
        spec_chosen_width(*req, src_width) > 0 && spec_chosen_height(*req, src_height) > 0
            ==> (r matches Ok(plan) && plan == (ConversionPlan {
                format: spec_chosen_format(*req),
                width: spec_chosen_width(*req, src_width),
                height: spec_chosen_height(*req, src_height),
                method: spec_chosen_method(*req),
            })),
        !(spec_chosen_width(*req, src_width) > 0 && spec_chosen_height(*req, src_height) > 0)
            ==> (r matches Err(e) && e.code == VideoErrorCode::InvalidInput),
{
    let width = match req.width {
        Some(w) => w,
        None => src_width,
    };
    let height = match req.height {
        Some(h) => h,
        None => src_height,
    };
    if width == 0 || height == 0 {
        return Err(VideoError::new(VideoErrorCode::InvalidInput, None));
    }
    let format = match req.pixel_format {
        Some(f) => f,
        None => PixelFormat::Rgb24,
    };
    let method = match req.scaling_method {
        Some(m) => m,
        None => ScalingMethod::Bilinear,
    };
    Ok(ConversionPlan { format, width, height, method })
}

/// Varying only the scaling method never changes what geometry and format
/// an extraction resolves to: two requests that agree on everything but the
/// scaling method yield plans with the same format, width and height.
pub proof fn lemma_scaling_method_preserves_geometry(
    a: ExtractionRequest,
    b: ExtractionRequest,
    src_width: u32,
    src_height: u32,
)
    requires
        a.pixel_format == b.pixel_format,
        a.width == b.width,
        a.height == b.height,
    ensures
        spec_chosen_format(a) == spec_chosen_format(b),
        spec_chosen_width(a, src_width) == spec_chosen_width(b, src_width),
        spec_chosen_height(a, src_height) == spec_chosen_height(b, src_height),
{
}

} // verus!
