//! Still-image encoding for the graphics protocols.

use vstd::prelude::*;

use image::ImageEncoder;

use crate::error::RimgError;
use crate::frame::RgbaBuffer;

verus! {

/// The PNG encoding of an RGBA image of the given size.
pub uninterp spec fn png_encoding_of(data: Seq<u8>, width: int, height: int) -> Seq<u8>;

/// Whether PNG-encoding an RGBA image of the given size succeeds; the
/// encoder writes to a plain byte vector, so success depends on the pixel
/// bytes and dimensions alone.
pub uninterp spec fn png_encodes_ok(data: Seq<u8>, width: int, height: int) -> bool;

/// Relies on image's `PngEncoder::write_image`: writing into a byte
/// vector, both the outcome and the encoding are functions of the pixel
/// bytes and dimensions alone.
#[verifier::external_body]
fn png_encode_raw(data: &Vec<u8>, width: u32, height: u32) -> (r: Result<Vec<u8>, String>)
    requires
        data@.len() == 4 * width * height,
    ensures
        r is Ok <==> png_encodes_ok(data@, width as int, height as int),
        r is Ok ==> r->Ok_0@ == png_encoding_of(data@, width as int, height as int),
{
    let mut encoded = Vec::new();
    let result = image::codecs::png::PngEncoder::new(&mut encoded).write_image(
        data,
        width,
        height,
        image::ExtendedColorType::Rgba8,
    );
    match result {
        Ok(()) => Ok(encoded),
        Err(err) => Err(format!("{err}")),
    }
}

/// How a PNG encoding failure is reported: the failing backend's name,
/// then the encoder's own description.
pub open spec fn spec_png_error_prefix(backend_name: Seq<char>) -> Seq<char> {
    "failed to encode PNG for "@ + backend_name + " backend: "@
}

/// Encodes a pixel buffer as PNG. Succeeds exactly when the encoder
/// does; a failure is reported under the given backend's name.
pub fn encode_png(image: &RgbaBuffer, backend_name: &str) -> (r: Result<Vec<u8>, RimgError>)
    requires
        image.wf(),
    ensures
        r is Ok <==> png_encodes_ok(image.data@, image.width as int, image.height as int),
        r is Ok ==> r->Ok_0@ == png_encoding_of(image.data@, image.width as int,
            image.height as int),
        r is Err ==> (r->Err_0 matches RimgError::Other(m)
            && m@.len() >= spec_png_error_prefix(backend_name@).len()
            && m@.subrange(0, spec_png_error_prefix(backend_name@).len() as int)
                == spec_png_error_prefix(backend_name@)),
{
    match png_encode_raw(&image.data, image.width, image.height) {
        Ok(encoded) => Ok(encoded),
        Err(err) => {
            let mut msg = String::from_str("failed to encode PNG for ");
            msg.append(backend_name);
            msg.append(" backend: ");
            proof {
                assert(msg@ =~= spec_png_error_prefix(backend_name@));
            }
            msg.append(err.as_str());
            proof {
                assert(msg@.subrange(0, spec_png_error_prefix(backend_name@).len() as int)
                    =~= spec_png_error_prefix(backend_name@));
            }
            Err(RimgError::Other(msg))
        },
    }
}

} // verus!
