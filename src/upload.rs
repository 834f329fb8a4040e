//! The checks a profile picture passes before it is stored.
use crate::session::opt_view;
use vstd::prelude::*;

verus! {

/// The largest profile picture accepted, in bytes.
pub const PFP_BYTES_MAX: usize = 25000;

/// The MIME type that infer's signature matching finds for `b`, if any.
pub uninterp spec fn inferred_mime(b: Seq<u8>) -> Option<Seq<char>>;

/// Relies on infer::get and infer::Type::mime_type: the MIME type of the
/// first known signature that the bytes match, or `None` when none matches.
#[verifier::external_body]
fn detect_mime(b: &[u8]) -> (r: Option<String>)
    ensures
        opt_view(r) == inferred_mime(b@),
{
    infer::get(b).map(|t| t.mime_type().to_owned())
}

/// Why an uploaded picture was refused.
pub enum PfpRejection {
    TooLarge,
    UnknownType,
    NotJpeg,
}

impl PfpRejection {
    /// The reason phrase of the 400 response sent back.
    pub fn reason(&self) -> (r: String)
        ensures
            r@ == match *self {
                PfpRejection::TooLarge => "uploaded file exceeded allowed size"@,
                PfpRejection::UnknownType => "unknown file type"@,
                PfpRejection::NotJpeg => "uploaded file was not a valid jpg/jpeg file"@,
            },
    {
        match self {
            PfpRejection::TooLarge => "uploaded file exceeded allowed size".to_owned(),
            PfpRejection::UnknownType => "unknown file type".to_owned(),
            PfpRejection::NotJpeg => "uploaded file was not a valid jpg/jpeg file".to_owned(),
        }
    }
}

/// The verdict on a picture of `size` bytes whose detected type is `mime`:
/// too large first, then of no known type, then of a type other than JPEG.
pub open spec fn pfp_verdict(size: int, mime: Option<Seq<char>>) -> Result<(), PfpRejection> {
    if size > PFP_BYTES_MAX {
        Err(PfpRejection::TooLarge)
    } else {
        match mime {
            None => Err(PfpRejection::UnknownType),
            Some(m) => if m == "image/jpg"@ || m == "image/jpeg"@ {
                Ok(())
            } else {
                Err(PfpRejection::NotJpeg)
            },
        }
    }
}

/// Judges a picture from its size and its detected MIME type.
pub fn judge_pfp(size: usize, mime: Option<String>) -> (r: Result<(), PfpRejection>)
    ensures
        r == pfp_verdict(size as int, opt_view(mime)),
{
    if size > PFP_BYTES_MAX {
        return Err(PfpRejection::TooLarge);
    }
    match mime {
        None => Err(PfpRejection::UnknownType),
        Some(m) => {
            if m == "image/jpg".to_owned() || m == "image/jpeg".to_owned() {
                Ok(())
            } else {
                Err(PfpRejection::NotJpeg)
            }
        },
    }
}

/// Checks an uploaded picture: at most `PFP_BYTES_MAX` bytes, and a JPEG by
/// its signature. The type is only looked at when the size is acceptable.
pub fn check_pfp(payload: &[u8]) -> (r: Result<(), PfpRejection>)
    ensures
        r == pfp_verdict(payload@.len() as int, inferred_mime(payload@)),
{
    if payload.len() > PFP_BYTES_MAX {
        return Err(PfpRejection::TooLarge);
    }
    let mime = detect_mime(payload);
    judge_pfp(payload.len(), mime)
}

} // verus!
