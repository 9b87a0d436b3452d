//! The decision points of the extraction pipeline that stand between the
//! media backend's answers: validating the source, turning the stream
//! selection into a result, and carrying a packed frame to the outward
//! result shape.
//!
//! One extraction runs `INIT → open container → select stream → build
//! decoder → seek → decode loop → drain → done`, any step able to fail
//! into the closed taxonomy. The backend work — opening, demuxing,
//! decoding, rescaling — is a host program's business; each of its answers
//! comes back here as a plain value and is judged by one of these
//! functions.

use vstd::prelude::*;
use crate::error::{VideoError, VideoErrorCode, VideoResult};
use crate::packer::{geometry_ok, is_packed, pack_frame};
use crate::request::{ConversionPlan, PixelFormat, spec_bytes_per_pixel};

verus! {

/// An in-memory source must be non-empty before the container is opened:
/// an empty buffer is invalid input, reported as such and never handed to
/// the backend.
pub fn validate_source_len(len: usize) -> (r: Result<(), VideoError>)
    ensures
        len == 0 ==> (r matches Err(e) && e.code == VideoErrorCode::InvalidInput),
        len > 0 ==> r is Ok,
{
    if len == 0 {
        Err(VideoError::new(VideoErrorCode::InvalidInput, None))
    } else {
        Ok(())
    }
}

/// Turns the container's choice of a best video stream into the
/// pipeline's result: the chosen index as is, or `NoVideoStream` when the
/// container holds none.
pub fn select_stream(best_video: Option<usize>) -> (r: Result<usize, VideoError>)
    ensures
        best_video matches Some(i) ==> (r matches Ok(j) && j == i),
        best_video is None ==> (r matches Err(e) && e.code == VideoErrorCode::NoVideoStream),
{
    match best_video {
        Some(index) => Ok(index),
        None => Err(VideoError::new(VideoErrorCode::NoVideoStream, None)),
    }
}

/// A successfully extracted frame: the tightly packed pixel buffer and
/// the geometry it was packed for.
pub struct FrameOutput {
    pub buffer: Vec<u8>,
    pub width: u32,
    pub height: u32,
    pub format: PixelFormat,
}

impl FrameOutput {
    /// The buffer is exactly `width * height * bytes_per_pixel(format)`
    /// bytes: no stride padding leaks through, and nothing is missing.
    pub open spec fn wf(self) -> bool {
        self.buffer@.len() == self.width as int * self.height as int * spec_bytes_per_pixel(
            self.format,
        )
    }
}

/// Packs a converted frame's padded data against its conversion plan,
/// yielding the extraction's output frame. The plan's dimensions and
/// format are the output's; inconsistent backend geometry is rejected, so
/// a returned frame always satisfies its exact-length well-formedness.
pub fn pack_converted_frame(data: &Vec<u8>, plan: &ConversionPlan, stride: usize) -> (r: Result<
    FrameOutput,
    VideoError,
>)
    ensures
        geometry_ok(
            data@.len() as int,
            plan.width as int,
            plan.height as int,
            spec_bytes_per_pixel(plan.format),
            stride as int,
        ) ==> (r matches Ok(f) && f.width == plan.width && f.height == plan.height && f.format
            == plan.format && f.wf() && is_packed(
            f.buffer@,
            data@,
            plan.width as int,
            plan.height as int,
            spec_bytes_per_pixel(plan.format),
            stride as int,
        )),
        !geometry_ok(
            data@.len() as int,
            plan.width as int,
            plan.height as int,
            spec_bytes_per_pixel(plan.format),
            stride as int,
        ) ==> (r matches Err(e) && e.code == VideoErrorCode::BackendError),
{
    let buffer = pack_frame(data, plan.width, plan.height, plan.format, stride)?;
    Ok(FrameOutput { buffer, width: plan.width, height: plan.height, format: plan.format })
}

/// The outward result of a successful extraction: carries the packed
/// buffer, whose length is exactly the frame's
/// `width * height * bytes_per_pixel`.
pub fn success_result(frame: FrameOutput) -> (r: VideoResult)
    requires
        frame.wf(),
    ensures
        r.success,
        r.buffer@ == frame.buffer@,
        r.buffer@.len() == frame.width as int * frame.height as int * spec_bytes_per_pixel(
            frame.format,
        ),
{
    VideoResult::success(frame.buffer)
}

/// The outward result of a failed extraction: never a partial buffer,
/// always the error's own kind and message.
pub fn error_result(error: &VideoError) -> (r: VideoResult)
    ensures
        !r.success,
        r.buffer@.len() == 0,
        r.error_code == error.code.spec_code(),
        r.error_message@ == error.message@,
{
    VideoResult::error(error.code, error.message.as_str())
}

} // verus!
