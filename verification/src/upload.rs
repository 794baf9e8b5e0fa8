//! File upload checks: the size bound, the sniffed content type and the
//! object name and URI under which an accepted file is stored. The
//! streaming and the object-store write stay with the caller.

use vstd::prelude::*;
use crate::errors::AppError;
use crate::validation::str_eq;

verus! {

/// The largest accepted file, in bytes: 100 KiB.
pub const MAX_FILE_BYTES: usize = 102400;

/// What content sniffing detects for a byte sequence: the MIME type and
/// the canonical file extension, or `None` when the type is unknown. This
/// is a function of the bytes alone.
pub uninterp spec fn detected_type(data: Seq<u8>) -> Option<(Seq<char>, Seq<char>)>;

/// Relies on `infer::get`: matches the buffer against the known magic
/// numbers and reports the MIME type and extension, a function of the
/// bytes alone.
#[verifier::external_body]
fn sniff_type(data: &Vec<u8>) -> (r: Option<(String, String)>)
    ensures
        match r {
            Some(t) => detected_type(data@) == Some((t.0@, t.1@)),
            None => detected_type(data@) is None,
        },
{
    infer::get(data).map(|t| (t.mime_type().to_string(), t.extension().to_string()))
}

/// An accepted image MIME type.
pub open spec fn is_allowed_mime(mime: Seq<char>) -> bool {
    mime == "image/jpeg"@ || mime == "image/jpg"@ || mime == "image/png"@
}

/// The message for the first check a rejected file fails, in the order
/// the checks run; meaningful only when some check fails.
pub open spec fn upload_error_msg(data: Seq<u8>) -> Seq<char> {
    if data.len() == 0 {
        "File part is missing"@
    } else if data.len() > MAX_FILE_BYTES {
        "File size exceeds 100KiB limit"@
    } else if detected_type(data) is None {
        "Unable to detect file type"@
    } else {
        "Only JPEG, JPG, and PNG files are allowed"@
    }
}

/// A file acceptable for upload: non-empty, within the size bound, and
/// sniffed as an allowed image type.
pub open spec fn spec_upload_verdict(data: Seq<u8>) -> bool {
    &&& data.len() > 0
    &&& data.len() <= MAX_FILE_BYTES
    &&& detected_type(data) matches Some(t) && is_allowed_mime(t.0)
}

/// Checks an uploaded file: rejects an empty or oversized payload and
/// anything not sniffed as JPEG or PNG; accepts exactly the payloads
/// `spec_upload_verdict` allows and hands back the detected MIME type and
/// extension.
pub fn validate_upload(data: &Vec<u8>) -> (r: Result<(String, String), AppError>)
    ensures
        r is Ok <==> spec_upload_verdict(data@),
        r matches Ok(t) ==> detected_type(data@) == Some((t.0@, t.1@)),
        r matches Err(e) ==> e is BadRequest && e.msg_view() == upload_error_msg(data@),
{
    if data.len() == 0 {
        return Err(AppError::BadRequest(String::from_str("File part is missing")));
    }
    if data.len() > MAX_FILE_BYTES {
        return Err(AppError::BadRequest(String::from_str("File size exceeds 100KiB limit")));
    }
    let (mime, ext) = match sniff_type(data) {
        None => {
            return Err(AppError::BadRequest(String::from_str("Unable to detect file type")));
        },
        Some(t) => t,
    };
    if !(str_eq(mime.as_str(), "image/jpeg") || str_eq(mime.as_str(), "image/jpg") || str_eq(
        mime.as_str(),
        "image/png",
    )) {
        return Err(AppError::BadRequest(String::from_str(
            "Only JPEG, JPG, and PNG files are allowed",
        )));
    }
    Ok((mime, ext))
}

/// The object name for a stored file: the generated identifier, a dot,
/// and the detected extension.
pub fn object_name(file_id: &str, ext: &str) -> (r: String)
    ensures
        r@ == file_id@ + "."@ + ext@,
{
    let mut out = String::from_str(file_id);
    out.append(".");
    out.append(ext);
    out
}

/// The object-store URI for a stored file: the `s3` scheme, the bucket,
/// and the object name.
pub fn object_uri(bucket: &str, name: &str) -> (r: String)
    ensures
        r@ == "s3://"@ + bucket@ + "/"@ + name@,
{
    let mut out = String::from_str("s3://");
    out.append(bucket);
    out.append("/");
    out.append(name);
    out
}

} // verus!
