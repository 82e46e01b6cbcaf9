use vstd::prelude::*;

use crate::decode::{decode, decodes_to, DecodedImage};
use crate::error::PreviewError;
use crate::extract::{range_end, read_range};
use crate::thumbnail::{select_thumbnail_with_skip, selected, ThumbnailRecord};

verus! {

/// `r` is what the preview of a file with directory `records` and bytes
/// `contents` comes to: the chosen record's byte range, decoded.
pub open spec fn preview_outcome(
    records: Seq<ThumbnailRecord>,
    contents: Seq<u8>,
    skip: int,
    r: Result<DecodedImage, PreviewError>,
) -> bool {
    match selected(records, skip) {
        None => r == Err::<DecodedImage, PreviewError>(PreviewError::NoThumbnailFound),
        Some(t) => if t.offset > contents.len() {
            r == Err::<DecodedImage, PreviewError>(PreviewError::Io)
        } else {
            let bytes = contents.subrange(
                t.offset as int,
                range_end(contents.len() as int, t.offset as int, t.length as int),
            );
            match r {
                Ok(img) => decodes_to(bytes, Ok(img)),
                Err(PreviewError::Decode(e)) => decodes_to(bytes, Err(e)),
                Err(_) => false,
            }
        },
    }
}

/// The whole pipeline for one RAW file: chooses a preview record from the
/// directory, reads its byte range from the file's contents and decodes it.
pub fn extract_preview(records: &Vec<ThumbnailRecord>, contents: &Vec<u8>, skip: usize) -> (r: Result<
    DecodedImage,
    PreviewError,
>)
    ensures
        preview_outcome(records@, contents@, skip as int, r),
{
    let t = match select_thumbnail_with_skip(records, skip) {
        Ok(t) => t,
        Err(e) => return Err(e),
    };
    let bytes = match read_range(contents, t.offset, t.length) {
        Ok(b) => b,
        Err(e) => return Err(e),
    };
    match decode(&bytes) {
        Ok(img) => Ok(img),
        Err(e) => Err(PreviewError::Decode(e)),
    }
}

} // verus!
