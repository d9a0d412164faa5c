//! Event artwork upload. Files are stored under the media directory
//! with a random name and served immutably at /media/<name>. Only the
//! sniffed content type counts; the one the client sends is untrusted.

use vstd::prelude::*;
use vstd::string::*;

use crate::errors::{is_validation, ApiError};
use crate::text::str_eq;

verus! {

broadcast use vstd::string::group_string_axioms;

/// The largest request body the API accepts.
pub const MAX_UPLOAD_BYTES: usize = 15 * 1024 * 1024;

#[derive(Debug)]
pub struct MediaResponse {
    /// Site-relative URL of the uploaded file, usable as an event's
    /// imageUrl.
    pub url: String,
}

/// The MIME type `infer` detects in the leading bytes of a file, or `None`
/// when it recognises none.
pub uninterp spec fn sniffed_mime(data: Seq<u8>) -> Option<Seq<char>>;

/// `infer::get(data)` and the detected type's `mime_type`. The contract
/// claims that the outcome is a function of the bytes, named
/// `sniffed_mime`; which signatures `infer` knows is left unsaid.
#[verifier::external_body]
fn sniff_mime(data: &[u8]) -> (r: Option<&'static str>)
    ensures
        match r {
            Some(mime) => sniffed_mime(data@) == Some(mime@),
            None => sniffed_mime(data@) is None,
        },
{
    match infer::get(data) {
        Some(kind) => Some(kind.mime_type()),
        None => None,
    }
}

/// The accepted image types and the extension each is stored with.
pub open spec fn extension_for(mime: Seq<char>) -> Option<Seq<char>> {
    if mime == "image/jpeg"@ {
        Some("jpg"@)
    } else if mime == "image/png"@ {
        Some("png"@)
    } else if mime == "image/webp"@ {
        Some("webp"@)
    } else if mime == "image/avif"@ {
        Some("avif"@)
    } else {
        None
    }
}

/// The four image types the site accepts, each with the extension it is
/// stored under: JPEG as `jpg`, PNG as `png`, WebP as `webp`, AVIF as
/// `avif`.
pub open spec fn accepted_image(mime: Seq<char>, extension: Seq<char>) -> bool {
    ||| mime == "image/jpeg"@ && extension == "jpg"@
    ||| mime == "image/png"@ && extension == "png"@
    ||| mime == "image/webp"@ && extension == "webp"@
    ||| mime == "image/avif"@ && extension == "avif"@
}

pub fn allowed_extension(mime: &str) -> (r: Option<&'static str>)
    ensures
        match extension_for(mime@) {
            Some(x) => r matches Some(e) && e@ == x,
            None => r is None,
        },
{
    if str_eq(mime, "image/jpeg") {
        Some("jpg")
    } else if str_eq(mime, "image/png") {
        Some("png")
    } else if str_eq(mime, "image/webp") {
        Some("webp")
    } else if str_eq(mime, "image/avif") {
        Some("avif")
    } else {
        None
    }
}

/// The extension an upload is stored with, or why it is refused: no `file`
/// field, an empty file, an unrecognised type, or a type that is not an
/// accepted image.
pub fn upload_extension(data: Option<&[u8]>) -> (r: Result<&'static str, ApiError>)
    ensures
        match data {
            None => r matches Err(e) && is_validation(e, "multipart body needs a `file` field"@),
            Some(bytes) => if bytes@.len() == 0 {
                r matches Err(e) && is_validation(e, "uploaded file is empty"@)
            } else {
                match sniffed_mime(bytes@) {
                    None => r matches Err(e) && is_validation(e, "could not detect file type"@),
                    Some(mime) => match extension_for(mime) {
                        Some(x) => r matches Ok(ext) && ext@ == x,
                        None => r matches Err(e) && is_validation(
                            e,
                            "file type "@ + mime + " is not allowed (jpeg, png, webp, avif)"@,
                        ),
                    },
                }
            },
        },
        r matches Ok(ext) ==> (data matches Some(bytes) && bytes@.len() > 0 && (sniffed_mime(
            bytes@,
        ) matches Some(mime) && accepted_image(mime, ext@))),
{
    let bytes = match data {
        Some(bytes) => bytes,
        None => {
            return Err(ApiError::Validation("multipart body needs a `file` field".to_string()));
        },
    };
    if bytes.len() == 0 {
        return Err(ApiError::Validation("uploaded file is empty".to_string()));
    }
    let mime = match sniff_mime(bytes) {
        Some(mime) => mime,
        None => return Err(ApiError::Validation("could not detect file type".to_string())),
    };
    match allowed_extension(mime) {
        Some(extension) => Ok(extension),
        None => Err(
            ApiError::Validation(
                "file type ".to_string().concat(mime).concat(
                    " is not allowed (jpeg, png, webp, avif)",
                ),
            ),
        ),
    }
}

/// The stored file's name: the random id with the extension.
pub fn media_file_name(id: &str, extension: &str) -> (r: String)
    ensures
        r@ == id@ + "."@ + extension@,
{
    id.to_string().concat(".").concat(extension)
}

/// Where a stored file is served.
pub fn media_response(file_name: &str) -> (r: MediaResponse)
    ensures
        r.url@ == "/media/"@ + file_name@,
{
    MediaResponse { url: "/media/".to_string().concat(file_name) }
}

/// Only the four accepted image types are stored, each under its own
/// extension, and all four are stored: a type has an extension exactly
/// when it is JPEG, PNG, WebP or AVIF.
pub proof fn lemma_only_the_four_image_types(mime: Seq<char>)
    ensures
        extension_for(mime) matches Some(ext) ==> accepted_image(mime, ext),
        (mime == "image/jpeg"@ || mime == "image/png"@ || mime == "image/webp"@ || mime
            == "image/avif"@) <==> extension_for(mime) is Some,
{
}

} // verus!
