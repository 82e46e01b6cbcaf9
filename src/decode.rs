use vstd::prelude::*;
use zune_core::colorspace::ColorSpace;
use zune_core::options::DecoderOptions;
use zune_jpeg::errors::DecodeErrors;
use zune_jpeg::JpegDecoder;

use crate::error::DecodeError;

verus! {

/// What the JPEG decoder, asked for RGBA output, makes of a byte stream: the
/// pixels and the dimensions it then reports, or nothing when it fails.
/// Greyscale streams come out with one byte per pixel.
pub uninterp spec fn rgba_decode_of(b: Seq<u8>) -> Option<(Seq<u8>, Option<(u16, u16)>)>;

/// A decoded preview: RGBA, 8 bits per channel, row-major, top row first.
#[derive(Debug)]
pub struct DecodedImage {
    pub width: u32,
    pub height: u32,
    pub pixels: Vec<u8>,
}

/// Greyscale samples spread over RGBA: each sample fills the three colour
/// channels and the pixel is opaque.
pub open spec fn grey_to_rgba(g: Seq<u8>) -> Seq<u8> {
    Seq::new((g.len() * 4) as nat, |k: int| if k % 4 == 3 { 255u8 } else { g[k / 4] })
}

/// The image that decoder output describes, as width, height and RGBA
/// pixels: output of four bytes per pixel is taken as it is, output of one
/// byte per pixel is greyscale (where four times its size fits in memory);
/// anything else, or missing dimensions, is inconsistent.
pub open spec fn layout_of(p: Seq<u8>, dims: Option<(u16, u16)>) -> Option<(u32, u32, Seq<u8>)> {
    match dims {
        Some((w, h)) => if p.len() == w as int * h as int * 4 {
            Some((w as u32, h as u32, p))
        } else if p.len() == w as int * h as int && p.len() * 4 <= usize::MAX {
            Some((w as u32, h as u32, grey_to_rgba(p)))
        } else {
            None
        },
        None => None,
    }
}

/// `r` is what decoder output `(p, dims)` yields.
pub open spec fn image_from(p: Seq<u8>, dims: Option<(u16, u16)>, r: Result<DecodedImage, DecodeError>) -> bool {
    match layout_of(p, dims) {
        Some((w, h, q)) => r is Ok && r->Ok_0.width == w && r->Ok_0.height == h && r->Ok_0.pixels@ == q,
        None => r == Err::<DecodedImage, DecodeError>(DecodeError::BadOutput),
    }
}

/// Spreads greyscale samples over RGBA.
pub fn expand_grey(g: &Vec<u8>) -> (r: Vec<u8>)
    requires
        g@.len() * 4 <= usize::MAX,
    ensures
        r@ == grey_to_rgba(g@),
{
    let mut out: Vec<u8> = Vec::new();
    let mut i: usize = 0;
    while i < g.len()
        invariant
            i <= g@.len(),
            g@.len() * 4 <= usize::MAX,
            out@.len() == 4 * i,
            forall|k: int| 0 <= k < 4 * i ==> #[trigger] out@[k] == if k % 4 == 3 { 255u8 } else { g@[k / 4] },
        decreases g@.len() - i,
    {
        let v = g[i];
        out.push(v);
        out.push(v);
        out.push(v);
        out.push(255u8);
        proof {
            assert forall|k: int| 0 <= k < 4 * (i + 1) implies #[trigger] out@[k] == if k % 4 == 3 { 255u8 } else { g@[k / 4] } by {
                if k >= 4 * i {
                    assert(k / 4 == i as int);
                }
            }
        }
        i = i + 1;
    }
    assert(out@ =~= grey_to_rgba(g@));
    out
}

/// `r` is what decoding the stream `b` yields.
pub open spec fn decodes_to(b: Seq<u8>, r: Result<DecodedImage, DecodeError>) -> bool {
    match rgba_decode_of(b) {
        Some((p, dims)) => image_from(p, dims, r),
        None => r is Err && r->Err_0 != DecodeError::BadOutput,
    }
}

/// Relies on zune_jpeg's JpegDecoder::decode with zune_core's fast options
/// and RGBA output, then JpegDecoder::dimensions: the result depends on the
/// bytes alone. An `Unsupported` error of the decoder is told apart from the
/// others.
#[verifier::external_body]
fn decode_rgba(buf: &Vec<u8>) -> (r: Result<(Vec<u8>, Option<(u16, u16)>), DecodeError>)
    ensures
        r is Ok <==> rgba_decode_of(buf@) is Some,
        r is Ok ==> rgba_decode_of(buf@) == Some((r->Ok_0.0@, r->Ok_0.1)),
        r is Err ==> r->Err_0 != DecodeError::BadOutput,
{
    let mut decoder = JpegDecoder::new(buf.as_slice());
    decoder.set_options(DecoderOptions::new_fast().jpeg_set_out_colorspace(ColorSpace::RGBA));
    match decoder.decode() {
        Ok(pixels) => Ok((pixels, decoder.dimensions())),
        Err(DecodeErrors::Unsupported(_)) => Err(DecodeError::Unsupported),
        Err(_) => Err(DecodeError::Corrupt),
    }
}

impl DecodedImage {
    /// Builds the image from decoder output: RGBA output is kept, greyscale
    /// output is spread over RGBA, output whose size matches neither is
    /// refused.
    pub fn from_decoded(pixels: Vec<u8>, dims: Option<(u16, u16)>) -> (r: Result<DecodedImage, DecodeError>)
        ensures
            image_from(pixels@, dims, r),
    {
        match dims {
            Some((w, h)) => {
                assert(w as u64 * h as u64 * 4 <= 0xffff_ffff_u64 * 4) by (nonlinear_arith)
                    requires
                        w <= 0xffff,
                        h <= 0xffff,
                ;
                let area: u64 = w as u64 * h as u64;
                let n = pixels.len() as u64;
                if n == area * 4 {
                    Ok(DecodedImage { width: w as u32, height: h as u32, pixels })
                } else if n == area && pixels.len() <= usize::MAX / 4 {
                    let rgba = expand_grey(&pixels);
                    Ok(DecodedImage { width: w as u32, height: h as u32, pixels: rgba })
                } else {
                    Err(DecodeError::BadOutput)
                }
            },
            None => Err(DecodeError::BadOutput),
        }
    }
}

/// Decodes a JPEG stream into an RGBA image whose dimensions are those the
/// stream declares.
pub fn decode(buf: &Vec<u8>) -> (r: Result<DecodedImage, DecodeError>)
    ensures
        decodes_to(buf@, r),
        r is Ok ==> r->Ok_0.pixels@.len() == r->Ok_0.width as int * r->Ok_0.height as int * 4,
{
    match decode_rgba(buf) {
        Ok((pixels, dims)) => DecodedImage::from_decoded(pixels, dims),
        Err(e) => Err(e),
    }
}

} // verus!
