//! Extraction of a single decoded video frame at a caller-chosen timestamp.
//!
//! The library holds the decision logic of the extraction pipeline: the
//! closed error taxonomy, the translation of a requested time into a
//! stream's integer timestamp domain, the decode/flush loop's acceptance
//! state machine, the resolution of output format and dimensions, and the
//! stride-aware packing of a converted frame into a tightly packed buffer.
//! The demuxing, decoding and rescaling themselves are the business of an
//! external media backend; a host program drives that backend and feeds the
//! plain values it produces through the functions verified here.

pub mod decode;
pub mod error;
pub mod packer;
pub mod pipeline;
pub mod request;
pub mod timing;
