//! How the browser client reads the service's answers: each request's status
//! code becomes a success or a typed error.
use crate::validation::ValidationErrorBody;
use vstd::prelude::*;
use vstd::std_specs::iter::IteratorSpec;

verus! {

/// Transport-level failures of a request.
pub enum WebworksError {
    /// The HTTP layer failed, with its description.
    GlooError { detail: String },
    /// Anything else, with its description.
    Other { detail: String },
    /// The server answered with an internal error.
    ServerError { status: String },
    /// An answer the client does not understand.
    Unknown { msg: String },
}

pub enum RegisterError {
    ValidationError(ValidationErrorBody),
    Webworks { source: WebworksError },
}

pub enum UpdateUserError {
    ValidationError(ValidationErrorBody),
    Webworks { source: WebworksError },
}

pub enum LoginError {
    IncorrectPassword,
    NoSuchUser,
    Webworks { source: WebworksError },
}

#[allow(inconsistent_fields)]
pub enum PfpUploadError {
    Webworks { source: WebworksError },
    IoError { source: std::io::Error },
    /// The file was refused, with the reason.
    Rejected { reason: String },
    /// The browser failed, with its description.
    Websys { detail: String },
}

pub enum CreatePostError {
    NotLoggedIn,
    ValidationError(ValidationErrorBody),
    Webworks { source: WebworksError },
}

/// The answer to a login: 202 accepts it, 403 is a wrong password, 400 an
/// unknown user, 500 a server error carrying `status_text`, and anything else
/// is not understood.
pub fn login_outcome(status: u16, status_text: String) -> (r: Result<(), LoginError>)
    ensures
        status == 202 <==> r is Ok,
        status == 403 <==> r matches Err(LoginError::IncorrectPassword),
        status == 400 <==> r matches Err(LoginError::NoSuchUser),
        status == 500 <==> r matches Err(LoginError::Webworks { source: WebworksError::ServerError { .. } }),
        r matches Err(LoginError::Webworks { source: WebworksError::ServerError { status: s } }) ==> s == status_text,
        r matches Err(LoginError::Webworks { source: WebworksError::Unknown { msg } }) ==> msg == status_text,
        r matches Err(LoginError::Webworks { source }) ==> source is ServerError || source is Unknown,
{
    match status {
        202 => Ok(()),
        500 => Err(LoginError::Webworks { source: WebworksError::ServerError { status: status_text } }),
        403 => Err(LoginError::IncorrectPassword),
        400 => Err(LoginError::NoSuchUser),
        _ => Err(LoginError::Webworks { source: WebworksError::Unknown { msg: status_text } }),
    }
}

/// The message given when a 400 answer's body cannot be read.
pub open spec fn unreadable_body() -> Seq<char> {
    "failed to read json response"@
}

/// The answer to a registration: 201 accepts it, 400 reports the validation
/// failures in `body` (or, when the body could not be read, an unknown
/// answer), and anything else is a server error carrying `status_text`.
pub fn register_outcome(status: u16, status_text: String, body: Option<ValidationErrorBody>) -> (r: Result<
    (),
    RegisterError,
>)
    ensures
        status == 201 <==> r is Ok,
        status == 400 && body is Some <==> r matches Err(RegisterError::ValidationError(_)),
        r matches Err(RegisterError::ValidationError(b)) ==> body == Some(b),
        status == 400 && body is None <==> r matches Err(
            RegisterError::Webworks { source: WebworksError::Unknown { .. } },
        ),
        r matches Err(RegisterError::Webworks { source: WebworksError::Unknown { msg } }) ==> msg@
            == unreadable_body(),
        status != 201 && status != 400 <==> r matches Err(
            RegisterError::Webworks { source: WebworksError::ServerError { .. } },
        ),
        r matches Err(RegisterError::Webworks { source: WebworksError::ServerError { status: s } }) ==> s
            == status_text,
        r matches Err(RegisterError::Webworks { source }) ==> source is ServerError || source is Unknown,
{
    match status {
        400 => match body {
            Some(b) => Err(RegisterError::ValidationError(b)),
            None => Err(
                RegisterError::Webworks {
                    source: WebworksError::Unknown { msg: "failed to read json response".to_owned() },
                },
            ),
        },
        201 => Ok(()),
        _ => Err(RegisterError::Webworks { source: WebworksError::ServerError { status: status_text } }),
    }
}

/// The answer to a profile update: 200 accepts it, 400 reports the
/// validation failures in `body` (or an unknown answer when it could not be
/// read), and anything else is an unknown answer.
pub fn update_outcome(status: u16, body: Option<ValidationErrorBody>) -> (r: Result<(), UpdateUserError>)
    ensures
        status == 200 <==> r is Ok,
        status == 400 && body is Some <==> r matches Err(UpdateUserError::ValidationError(_)),
        r matches Err(UpdateUserError::ValidationError(b)) ==> body == Some(b),
        r matches Err(UpdateUserError::Webworks { source }) ==> source matches WebworksError::Unknown { msg } && msg@
            == (if status == 400 { unreadable_body() } else { "Update data error"@ }),
{
    if status == 200 {
        Ok(())
    } else if status == 400 {
        match body {
            Some(b) => Err(UpdateUserError::ValidationError(b)),
            None => Err(
                UpdateUserError::Webworks {
                    source: WebworksError::Unknown { msg: "failed to read json response".to_owned() },
                },
            ),
        }
    } else {
        Err(UpdateUserError::Webworks { source: WebworksError::Unknown { msg: "Update data error".to_owned() } })
    }
}

/// The answer to a new post: 201 accepts it, 400 reports the validation
/// failures in `body` (or why the body could not be read), and anything else
/// means the user is not logged in.
pub fn create_post_outcome(status: u16, body: Option<Result<ValidationErrorBody, String>>) -> (r: Result<
    (),
    CreatePostError,
>)
    ensures
        status == 201 <==> r is Ok,
        status != 201 && status != 400 <==> r matches Err(CreatePostError::NotLoggedIn),
        r matches Err(CreatePostError::ValidationError(b)) ==> status == 400 && body == Some(
            Ok::<ValidationErrorBody, String>(b),
        ),
        r matches Err(CreatePostError::Webworks { source }) ==> status == 400 && (source matches WebworksError::Other {
            detail,
        } && (body == Some(Err::<ValidationErrorBody, String>(detail)) || (body is None && detail@
            == unreadable_body()))),
        status == 400 ==> (r matches Err(CreatePostError::ValidationError(_)) <==> body matches Some(Ok(_))),
{
    match status {
        201 => Ok(()),
        400 => match body {
            Some(Ok(b)) => Err(CreatePostError::ValidationError(b)),
            Some(Err(detail)) => Err(CreatePostError::Webworks { source: WebworksError::Other { detail } }),
            None => Err(
                CreatePostError::Webworks {
                    source: WebworksError::Other { detail: "failed to read json response".to_owned() },
                },
            ),
        },
        _ => Err(CreatePostError::NotLoggedIn),
    }
}

/// The answer to a picture upload: 200 accepts it, 400 is a refusal whose
/// reason is `status_text`, anything else is an unknown answer.
pub fn pfp_upload_outcome(status: u16, status_text: String) -> (r: Result<(), PfpUploadError>)
    ensures
        status == 200 <==> r is Ok,
        status == 400 <==> r matches Err(PfpUploadError::Rejected { .. }),
        r matches Err(PfpUploadError::Rejected { reason }) ==> reason == status_text,
        status != 200 && status != 400 <==> (r matches Err(
            PfpUploadError::Webworks { source: WebworksError::Unknown { msg } },
        ) && msg@ == "unknown error"@),
{
    match status {
        200 => Ok(()),
        400 => Err(PfpUploadError::Rejected { reason: status_text }),
        _ => Err(
            PfpUploadError::Webworks { source: WebworksError::Unknown { msg: "unknown error".to_owned() } },
        ),
    }
}

/// The largest picture the client sends, in bytes.
pub const PFP_UPLOAD_MAX: u64 = 25000;

/// `s` ends with `suffix`.
pub open spec fn has_suffix(s: Seq<char>, suffix: Seq<char>) -> bool {
    suffix.len() <= s.len() && s.subrange(s.len() - suffix.len(), s.len() as int) == suffix
}

fn chars_of(s: &str) -> (v: Vec<char>)
    ensures
        v@ == s@,
{
    let mut v: Vec<char> = Vec::new();
    for c in it: s.chars()
        invariant
            it.seq() == s@,
            v@ == s@.subrange(0, v@.len() as int),
            v@.len() == it.index(),
    {
        v.push(c);
        assert(v@ =~= s@.subrange(0, v@.len() as int));
    }
    v
}

fn ends_with(s: &str, suffix: &str) -> (r: bool)
    ensures
        r == has_suffix(s@, suffix@),
{
    let a = chars_of(s);
    let b = chars_of(suffix);
    if b.len() > a.len() {
        return false;
    }
    let off = a.len() - b.len();
    let mut i: usize = 0;
    while i < b.len()
        invariant
            a@ == s@,
            b@ == suffix@,
            off == a.len() - b.len(),
            i <= b.len(),
            forall|j: int| 0 <= j < i ==> a@[off + j] == b@[j],
        decreases b.len() - i,
    {
        if a[off + i] != b[i] {
            assert(s@.subrange(off as int, s@.len() as int)[i as int] != suffix@[i as int]);
            return false;
        }
        i = i + 1;
    }
    assert(s@.subrange(off as int, s@.len() as int) =~= suffix@);
    true
}

/// The check made before a picture is sent: its name ends in `.jpg` or
/// `.jpeg`, and it holds at most `PFP_UPLOAD_MAX` bytes.
pub fn precheck_pfp_file(name: &str, size: u64) -> (r: Result<(), PfpUploadError>)
    ensures
        r is Ok <==> (has_suffix(name@, ".jpg"@) || has_suffix(name@, ".jpeg"@)) && size <= PFP_UPLOAD_MAX,
        r matches Err(e) ==> (e matches PfpUploadError::Rejected { reason } && reason@ == if has_suffix(
            name@,
            ".jpg"@,
        ) || has_suffix(name@, ".jpeg"@) {
            "this file is to big and will not be sent"@
        } else {
            "the file is not a valid jpg/jpeg"@
        }),
{
    if !ends_with(name, ".jpg") && !ends_with(name, ".jpeg") {
        return Err(PfpUploadError::Rejected { reason: "the file is not a valid jpg/jpeg".to_owned() });
    }
    if size > PFP_UPLOAD_MAX {
        return Err(PfpUploadError::Rejected { reason: "this file is to big and will not be sent".to_owned() });
    }
    Ok(())
}

} // verus!
