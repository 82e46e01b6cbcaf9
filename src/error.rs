use vstd::prelude::*;

verus! {

/// Why a JPEG stream did not yield an image.
#[derive(Clone, Copy, Debug, PartialEq, Eq, Structural)]
pub enum DecodeError {
    /// The stream is malformed or truncated.
    Corrupt,
    /// The stream uses a JPEG feature that the decoder does not handle.
    Unsupported,
    /// The decoder reported no dimensions, or a pixel count that does not
    /// match them.
    BadOutput,
}

/// Why no preview could be produced for a RAW file.
#[derive(Clone, Copy, Debug, PartialEq, Eq, Structural)]
pub enum PreviewError {
    /// The RAW container could not be opened or its directory parsed.
    ContainerOpen,
    /// The directory holds no compressed JPEG preview.
    NoThumbnailFound,
    /// The preview's byte range could not be read.
    Io,
    /// The preview's bytes are not a decodable JPEG stream.
    Decode(DecodeError),
}

} // verus!
