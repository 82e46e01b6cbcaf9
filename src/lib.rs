//! Extraction of the embedded JPEG preview from a camera RAW file: choosing a
//! record of the thumbnail directory, cutting its byte range out of the file
//! and decoding it into RGBA pixels.
pub mod error;
pub mod thumbnail;
pub mod extract;
pub mod decode;
pub mod preview;
