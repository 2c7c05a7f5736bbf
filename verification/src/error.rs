//! The errors of the backend.

use vstd::prelude::*;

verus! {

/// A failure reported by the hardware acceleration API: the status code that
/// the failing call returned.
#[derive(Copy, Clone, Debug, PartialEq, Eq, Structural)]
pub struct HardwareError {
    pub status: i32,
}

/// Why a negotiation of stream parameters failed.
#[derive(Copy, Clone, Debug, PartialEq, Eq, Structural)]
pub enum NegotiationError {
    /// The hardware does not advertise the stream's rt-format for the
    /// stream's profile and the decode entrypoint.
    RtFormatNotAdvertised,
    /// No export format is known for the stream's rt-format.
    NoFormatForRtFormat,
    /// The hardware cannot map a surface into the chosen export format.
    ImageFormatNotAvailable,
    /// The requested format is not among the formats supported for the
    /// stream.
    FormatNotSupported,
    /// The negotiation status does not allow a change of format.
    NotPossible,
}

/// What can go wrong in the backend.
#[derive(Copy, Clone, Debug, PartialEq, Eq, Structural)]
pub enum Error {
    /// The operation needs the stream metadata, which has not been parsed
    /// yet.
    NotYetParsed,
    /// The stream parameters or the requested format cannot be negotiated.
    NegotiationFailed(NegotiationError),
    /// The hardware failed to create a resource, to complete a picture or to
    /// map a surface.
    HardwareError(HardwareError),
    /// The coded size of the stream is beyond what a hardware context can
    /// be created for.
    CodedSizeOutOfRange,
    /// The image is in a format that cannot be exported.
    UnsupportedFormat,
    /// The destination buffer does not have the size of the image.
    SizeMismatch { buffer_size: usize, image_size: u64 },
}

} // verus!
