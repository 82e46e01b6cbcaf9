use raw_viewer::decode::{decode, expand_grey, DecodedImage};
use raw_viewer::error::{DecodeError, PreviewError};
use raw_viewer::extract::read_range;
use raw_viewer::preview::extract_preview;
use raw_viewer::thumbnail::{
    jpeg_records, pick_from_sorted, select_thumbnail, select_thumbnail_with_skip, ThumbFormat,
    ThumbnailRecord, DEFAULT_SKIP, JPEG_TAG,
};

/// A baseline greyscale JPEG of 16 x 8 pixels, every pixel mid-grey.
fn small_jpeg() -> Vec<u8> {
    let mut v: Vec<u8> = vec![0xFF, 0xD8];
    v.extend_from_slice(&[0xFF, 0xDB, 0x00, 0x43, 0x00]);
    v.extend_from_slice(&[0x01; 64]);
    v.extend_from_slice(&[0xFF, 0xC0, 0x00, 0x0B, 0x08, 0x00, 0x08, 0x00, 0x10, 0x01, 0x01, 0x11, 0x00]);
    for class in [0x00u8, 0x10u8] {
        v.extend_from_slice(&[0xFF, 0xC4, 0x00, 0x14, class, 0x01]);
        v.extend_from_slice(&[0x00; 15]);
        v.push(0x00);
    }
    v.extend_from_slice(&[0xFF, 0xDA, 0x00, 0x08, 0x01, 0x01, 0x00, 0x00, 0x3F, 0x00]);
    v.push(0x0F);
    v.extend_from_slice(&[0xFF, 0xD9]);
    v
}

fn jpeg(offset: u64, length: u32) -> ThumbnailRecord {
    ThumbnailRecord { format: ThumbFormat::Jpeg, offset, length }
}

fn bitmap(offset: u64, length: u32) -> ThumbnailRecord {
    ThumbnailRecord { format: ThumbFormat::Other(2), offset, length }
}

#[test]
fn tag_four_is_jpeg() {
    assert_eq!(ThumbFormat::from_tag(JPEG_TAG), ThumbFormat::Jpeg);
    assert_eq!(ThumbFormat::from_tag(4), ThumbFormat::Jpeg);
    assert_eq!(ThumbFormat::from_tag(2), ThumbFormat::Other(2));
    assert_eq!(ThumbFormat::from_tag(0), ThumbFormat::Other(0));
}

#[test]
fn entry_is_decoded_once() {
    let r = ThumbnailRecord::from_entry(4, 1234, 99);
    assert_eq!(r, jpeg(1234, 99));
    let r = ThumbnailRecord::from_entry(3, 10, 20);
    assert_eq!(r.format, ThumbFormat::Other(3));
}

#[test]
fn jpeg_records_keep_directory_order() {
    let recs = vec![jpeg(0, 30), bitmap(1, 5), jpeg(2, 10), bitmap(3, 1), jpeg(4, 20)];
    assert_eq!(jpeg_records(&recs), vec![jpeg(0, 30), jpeg(2, 10), jpeg(4, 20)]);
}

#[test]
fn empty_directory_has_no_thumbnail() {
    assert_eq!(select_thumbnail(&vec![]), Err(PreviewError::NoThumbnailFound));
}

#[test]
fn only_bitmaps_have_no_thumbnail() {
    let recs = vec![bitmap(0, 100), bitmap(100, 5000), bitmap(6000, 20)];
    assert_eq!(select_thumbnail(&recs), Err(PreviewError::NoThumbnailFound));
    assert_eq!(select_thumbnail_with_skip(&recs, 0), Err(PreviewError::NoThumbnailFound));
}

#[test]
fn single_jpeg_chosen_for_any_skip() {
    let recs = vec![bitmap(0, 100), jpeg(700, 300), bitmap(2000, 50)];
    for skip in [0usize, 1, 2, 7] {
        assert_eq!(select_thumbnail_with_skip(&recs, skip), Ok(jpeg(700, 300)));
    }
}

#[test]
fn two_jpegs_largest_chosen() {
    let recs = vec![jpeg(0, 9000), bitmap(9000, 1), jpeg(10000, 400)];
    assert_eq!(select_thumbnail(&recs), Ok(jpeg(0, 9000)));
    let recs = vec![jpeg(10000, 400), jpeg(0, 9000)];
    assert_eq!(select_thumbnail(&recs), Ok(jpeg(0, 9000)));
}

#[test]
fn many_jpegs_second_smallest_chosen() {
    let recs = vec![jpeg(1, 8000), bitmap(2, 10), jpeg(3, 500), jpeg(4, 40000), jpeg(5, 2000)];
    assert_eq!(select_thumbnail(&recs), Ok(jpeg(5, 2000)));
    assert_eq!(select_thumbnail_with_skip(&recs, 0), Ok(jpeg(3, 500)));
    assert_eq!(select_thumbnail_with_skip(&recs, 2), Ok(jpeg(1, 8000)));
    // four records are not more than skip + 1 = 4: the largest is taken
    assert_eq!(select_thumbnail_with_skip(&recs, 3), Ok(jpeg(4, 40000)));
}

#[test]
fn equal_lengths_keep_directory_order() {
    let recs = vec![jpeg(10, 700), jpeg(20, 700), jpeg(30, 700)];
    assert_eq!(select_thumbnail(&recs), Ok(jpeg(20, 700)));
    let recs = vec![jpeg(10, 700), jpeg(20, 700)];
    assert_eq!(select_thumbnail(&recs), Ok(jpeg(20, 700)));
}

#[test]
fn pick_from_sorted_policy() {
    let sorted = vec![jpeg(0, 1), jpeg(0, 2), jpeg(0, 3)];
    assert_eq!(pick_from_sorted(&sorted, 1), Some(jpeg(0, 2)));
    assert_eq!(pick_from_sorted(&sorted, 2), Some(jpeg(0, 3)));
    assert_eq!(pick_from_sorted(&sorted, usize::MAX), Some(jpeg(0, 3)));
    assert_eq!(pick_from_sorted(&vec![], 1), None);
    assert_eq!(DEFAULT_SKIP, 1);
}

#[test]
fn read_range_reads_one_extra_byte() {
    let contents: Vec<u8> = (0u8..100).collect();
    let r = read_range(&contents, 10, 5).unwrap();
    assert_eq!(r, vec![10, 11, 12, 13, 14, 15]);
    assert_eq!(r[0], contents[10]);
}

#[test]
fn read_range_stops_at_end_of_file() {
    let contents: Vec<u8> = (0u8..100).collect();
    assert_eq!(read_range(&contents, 97, 5).unwrap(), vec![97, 98, 99]);
    assert_eq!(read_range(&contents, 0, 99).unwrap().len(), 100);
    assert_eq!(read_range(&contents, 100, 5).unwrap(), Vec::<u8>::new());
}

#[test]
fn read_range_past_end_is_io_error() {
    let contents: Vec<u8> = (0u8..100).collect();
    assert_eq!(read_range(&contents, 101, 0).unwrap_err(), PreviewError::Io);
    assert_eq!(read_range(&contents, u64::MAX, u32::MAX).unwrap_err(), PreviewError::Io);
}

#[test]
fn decode_small_jpeg() {
    let img = decode(&small_jpeg()).unwrap();
    assert_eq!(img.width, 16);
    assert_eq!(img.height, 8);
    assert_eq!(img.pixels.len(), 16 * 8 * 4);
    for px in img.pixels.chunks(4) {
        assert_eq!(px[0], px[1]);
        assert_eq!(px[1], px[2]);
        assert_eq!(px[3], 255);
    }
}

#[test]
fn decode_ignores_trailing_bytes() {
    let mut buf = small_jpeg();
    buf.push(0);
    let img = decode(&buf).unwrap();
    assert_eq!((img.width, img.height), (16, 8));
}

#[test]
fn decode_truncated_fails() {
    let buf = small_jpeg();
    let r = decode(&buf[..10].to_vec());
    assert!(r.is_err());
    assert_ne!(r.unwrap_err(), DecodeError::BadOutput);
}

#[test]
fn decode_empty_and_garbage_fail() {
    assert!(decode(&vec![]).is_err());
    assert!(decode(&vec![0x12, 0x34, 0x56, 0x78, 0x9A]).is_err());
}

#[test]
fn from_decoded_checks_layout() {
    let img = DecodedImage::from_decoded(vec![7u8; 2 * 3 * 4], Some((2, 3))).unwrap();
    assert_eq!((img.width, img.height, img.pixels.len()), (2, 3, 24));
    assert_eq!(img.pixels, vec![7u8; 24]);
    assert_eq!(DecodedImage::from_decoded(vec![7u8; 23], Some((2, 3))).unwrap_err(), DecodeError::BadOutput);
    assert_eq!(DecodedImage::from_decoded(vec![7u8; 24], None).unwrap_err(), DecodeError::BadOutput);
}

#[test]
fn from_decoded_spreads_grey() {
    let img = DecodedImage::from_decoded(vec![10, 20], Some((2, 1))).unwrap();
    assert_eq!((img.width, img.height), (2, 1));
    assert_eq!(img.pixels, vec![10, 10, 10, 255, 20, 20, 20, 255]);
}

#[test]
fn expand_grey_values() {
    assert_eq!(expand_grey(&vec![]), Vec::<u8>::new());
    assert_eq!(expand_grey(&vec![0, 128]), vec![0, 0, 0, 255, 128, 128, 128, 255]);
}

/// A container holding the small JPEG as its 2000-byte record, between a
/// 500-byte and an 8000-byte record.
fn container() -> (Vec<ThumbnailRecord>, Vec<u8>) {
    let mut contents = vec![0u8; 12000];
    let fixture = small_jpeg();
    contents[1000..1000 + fixture.len()].copy_from_slice(&fixture);
    let recs = vec![jpeg(4000, 8000), jpeg(200, 500), bitmap(50, 100), jpeg(1000, 2000)];
    (recs, contents)
}

#[test]
fn three_records_end_to_end() {
    let (recs, contents) = container();
    assert_eq!(select_thumbnail(&recs), Ok(jpeg(1000, 2000)));
    let img = extract_preview(&recs, &contents, DEFAULT_SKIP).unwrap();
    assert_eq!((img.width, img.height), (16, 8));
    assert_eq!(img.pixels.len(), 512);
}

#[test]
fn one_record_end_to_end() {
    let recs = vec![jpeg(64, 500)];
    assert_eq!(select_thumbnail(&recs), Ok(jpeg(64, 500)));
    let mut contents = vec![0u8; 1000];
    let fixture = small_jpeg();
    contents[64..64 + fixture.len()].copy_from_slice(&fixture);
    let img = extract_preview(&recs, &contents, DEFAULT_SKIP).unwrap();
    assert_eq!((img.width, img.height), (16, 8));
}

#[test]
fn extract_preview_errors() {
    let (recs, contents) = container();
    assert_eq!(
        extract_preview(&vec![bitmap(0, 10)], &contents, 1).unwrap_err(),
        PreviewError::NoThumbnailFound
    );
    assert_eq!(
        extract_preview(&vec![jpeg(20000, 10)], &contents, 1).unwrap_err(),
        PreviewError::Io
    );
    // the 500-byte record at offset 200 holds only zeros
    assert!(matches!(
        extract_preview(&recs, &contents, 0).unwrap_err(),
        PreviewError::Decode(_)
    ));
}
