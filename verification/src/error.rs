//! The closed error taxonomy of the extraction pipeline.
//!
//! Every failure of any step — opening the container, selecting a stream,
//! building the decoder, seeking, decoding, converting, packing — is
//! classified into exactly one [`VideoErrorCode`] at the point of detection.
//! Failures reported by the media backend cross the boundary through
//! [`VideoError::from_backend`], which maps each recognized backend failure
//! to its taxonomy kind and preserves the original message text for
//! unrecognized ones.

use vstd::prelude::*;

verus! {

/// The closed set of error kinds, each with a stable numeric code.
#[derive(Clone, Copy, Debug, PartialEq, Eq, Structural)]
pub enum VideoErrorCode {
    Unknown,
    InitFailed,
    NoVideoStream,
    DecoderFailed,
    FrameNotFound,
    InvalidInput,
    SeekFailed,
    BackendError,
}

impl VideoErrorCode {
    /// The stable numeric code of this kind, as exposed to callers.
    pub open spec fn spec_code(self) -> u32 {
        match self {
            VideoErrorCode::Unknown => 0,
            VideoErrorCode::InitFailed => 1,
            VideoErrorCode::NoVideoStream => 2,
            VideoErrorCode::DecoderFailed => 3,
            VideoErrorCode::FrameNotFound => 4,
            VideoErrorCode::InvalidInput => 5,
            VideoErrorCode::SeekFailed => 6,
            VideoErrorCode::BackendError => 7,
        }
    }

    /// The descriptive text attached to this kind when no custom message is given.
    pub open spec fn spec_description(self) -> Seq<char> {
        match self {
            VideoErrorCode::Unknown => "unknown error"@,
            VideoErrorCode::InitFailed => "media backend initialization failed"@,
            VideoErrorCode::NoVideoStream => "no video stream found"@,
            VideoErrorCode::DecoderFailed => "decoder failure"@,
            VideoErrorCode::FrameNotFound => "frame not found"@,
            VideoErrorCode::InvalidInput => "invalid input data"@,
            VideoErrorCode::SeekFailed => "seek failed"@,
            VideoErrorCode::BackendError => "media backend error"@,
        }
    }

    /// The descriptive text of this kind.
    pub fn to_string(&self) -> (s: String)
        ensures
            s@ == self.spec_description(),
    {
        match self {
            VideoErrorCode::Unknown => "unknown error".to_owned(),
            VideoErrorCode::InitFailed => "media backend initialization failed".to_owned(),
            VideoErrorCode::NoVideoStream => "no video stream found".to_owned(),
            VideoErrorCode::DecoderFailed => "decoder failure".to_owned(),
            VideoErrorCode::FrameNotFound => "frame not found".to_owned(),
            VideoErrorCode::InvalidInput => "invalid input data".to_owned(),
            VideoErrorCode::SeekFailed => "seek failed".to_owned(),
            VideoErrorCode::BackendError => "media backend error".to_owned(),
        }
    }

    /// The stable numeric code of this kind.
    pub fn get_code(&self) -> (c: u32)
        ensures
            c == self.spec_code(),
    {
        match self {
            VideoErrorCode::Unknown => 0,
            VideoErrorCode::InitFailed => 1,
            VideoErrorCode::NoVideoStream => 2,
            VideoErrorCode::DecoderFailed => 3,
            VideoErrorCode::FrameNotFound => 4,
            VideoErrorCode::InvalidInput => 5,
            VideoErrorCode::SeekFailed => 6,
            VideoErrorCode::BackendError => 7,
        }
    }
}

/// A classified failure: a taxonomy kind plus a descriptive message.
#[derive(Debug)]
pub struct VideoError {
    pub code: VideoErrorCode,
    pub message: String,
}

/// A failure as the media backend reports it, reduced to the variants the
/// taxonomy distinguishes. A host program converts the backend's own error
/// value into this shape before handing it over the boundary; `Other`
/// covers every variant the taxonomy does not single out.
#[derive(Clone, Copy, Debug, PartialEq, Eq, Structural)]
pub enum BackendFailure {
    StreamNotFound,
    DecoderNotFound,
    InvalidData,
    Other,
}

/// The taxonomy kind each backend failure is classified as.
pub open spec fn spec_backend_code(failure: BackendFailure) -> VideoErrorCode {
    match failure {
        BackendFailure::StreamNotFound => VideoErrorCode::NoVideoStream,
        BackendFailure::DecoderNotFound => VideoErrorCode::DecoderFailed,
        BackendFailure::InvalidData => VideoErrorCode::InvalidInput,
        BackendFailure::Other => VideoErrorCode::BackendError,
    }
}

impl VideoError {
    /// A new error of the given kind; without a custom message the kind's
    /// own descriptive text is used.
    pub fn new(code: VideoErrorCode, custom_message: Option<String>) -> (r: VideoError)
        ensures
            r.code == code,
            custom_message matches Some(m) ==> r.message@ == m@,
            custom_message is None ==> r.message@ == code.spec_description(),
    {
        let message = match custom_message {
            Some(msg) => msg,
            None => code.to_string(),
        };
        VideoError { code, message }
    }

    /// The kind of this error.
    pub fn code(&self) -> (c: VideoErrorCode)
        ensures
            c == self.code,
    {
        self.code
    }

    /// Boundary translation of a backend failure into the closed taxonomy.
    /// Recognized failures take the taxonomy kind's own description; an
    /// unrecognized one keeps the backend's message text, never discarded.
    pub fn from_backend(failure: BackendFailure, backend_message: String) -> (r: VideoError)
        ensures
            r.code == spec_backend_code(failure),
            failure is Other ==> r.message@ == backend_message@,
            !(failure is Other) ==> r.message@ == spec_backend_code(failure).spec_description(),
    {
        match failure {
            BackendFailure::StreamNotFound => VideoError::new(
                VideoErrorCode::NoVideoStream,
                None,
            ),
            BackendFailure::DecoderNotFound => VideoError::new(
                VideoErrorCode::DecoderFailed,
                None,
            ),
            BackendFailure::InvalidData => VideoError::new(VideoErrorCode::InvalidInput, None),
            BackendFailure::Other => VideoError::new(
                VideoErrorCode::BackendError,
                Some(backend_message),
            ),
        }
    }
}

/// The descriptive text for a numeric error code, as a caller sees it.
pub open spec fn spec_code_description(code: u32) -> Seq<char> {
    if code == 0 {
        "unknown error"@
    } else if code == 1 {
        "media backend initialization failed"@
    } else if code == 2 {
        "no video stream found"@
    } else if code == 3 {
        "decoder failure"@
    } else if code == 4 {
        "frame not found"@
    } else if code == 5 {
        "invalid input data"@
    } else if code == 6 {
        "seek failed"@
    } else if code == 7 {
        "media backend error"@
    } else {
        "unrecognized error code"@
    }
}

/// The outward-facing result shape: either a buffer on success, or a
/// numeric error code with a message on failure. It never aborts a caller;
/// every outcome of an extraction is carried in this structure.
pub struct VideoResult {
    pub buffer: Vec<u8>,
    pub success: bool,
    pub error_code: u32,
    pub error_message: String,
}

impl VideoResult {
    /// A successful result carrying the packed pixel buffer.
    pub fn success(data: Vec<u8>) -> (r: VideoResult)
        ensures
            r.success,
            r.buffer@ == data@,
            r.error_code == VideoErrorCode::Unknown.spec_code(),
            r.error_message@.len() == 0,
    {
        VideoResult {
            buffer: data,
            success: true,
            error_code: VideoErrorCode::Unknown.get_code(),
            error_message: String::new(),
        }
    }

    /// A failed result carrying the error's kind and message.
    pub fn error(code: VideoErrorCode, message: &str) -> (r: VideoResult)
        ensures
            !r.success,
            r.buffer@.len() == 0,
            r.error_code == code.spec_code(),
            r.error_message@ == message@,
    {
        VideoResult {
            buffer: Vec::new(),
            success: false,
            error_code: code.get_code(),
            error_message: message.to_owned(),
        }
    }

    /// A copy of the packed pixel buffer.
    pub fn get_buffer(&self) -> (b: Vec<u8>)
        ensures
            b@ == self.buffer@,
    {
        let mut out: Vec<u8> = Vec::new();
        let mut i: usize = 0;
        while i < self.buffer.len()
            invariant
                i <= self.buffer.len(),
                out@ == self.buffer@.subrange(0, i as int),
            decreases self.buffer.len() - i,
        {
            out.push(self.buffer[i]);
            i = i + 1;
            proof {
                assert(out@ =~= self.buffer@.subrange(0, i as int));
            }
        }
        proof {
            assert(out@ =~= self.buffer@);
        }
        out
    }

    /// Whether the extraction succeeded.
    pub fn is_success(&self) -> (b: bool)
        ensures
            b == self.success,
    {
        self.success
    }

    /// The numeric error code; zero on success.
    pub fn get_error_code(&self) -> (c: u32)
        ensures
            c == self.error_code,
    {
        self.error_code
    }

    /// The descriptive text for this result's error code.
    pub fn get_error_description(&self) -> (s: String)
        ensures
            s@ == spec_code_description(self.error_code),
    {
        if self.error_code == 0 {
            "unknown error".to_owned()
        } else if self.error_code == 1 {
            "media backend initialization failed".to_owned()
        } else if self.error_code == 2 {
            "no video stream found".to_owned()
        } else if self.error_code == 3 {
            "decoder failure".to_owned()
        } else if self.error_code == 4 {
            "frame not found".to_owned()
        } else if self.error_code == 5 {
            "invalid input data".to_owned()
        } else if self.error_code == 6 {
            "seek failed".to_owned()
        } else if self.error_code == 7 {
            "media backend error".to_owned()
        } else {
            "unrecognized error code".to_owned()
        }
    }

    /// The message attached to this result's error, empty on success.
    pub fn get_error_message(&self) -> (s: String)
        ensures
            s@ == self.error_message@,
    {
        let s: &str = self.error_message.as_str();
        s.to_owned()
    }
}

} // verus!
