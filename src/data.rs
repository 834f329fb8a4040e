//! The data that clients send to the service, with the rules each field must
//! meet.
use crate::validation::{
    check_length, failures_of, length_failure, login_acceptable, validate_user_login,
    validate_user_password, Failure, FieldError, FieldFailure,
};
use vstd::prelude::*;

verus! {

/// What the failures list holds for one rule: nothing when it held, else the
/// failure on `field`.
pub open spec fn unless(held: bool, field: Seq<char>, f: Failure) -> Seq<(Seq<char>, Failure)> {
    if held {
        Seq::empty()
    } else {
        seq![(field, f)]
    }
}

/// A bounded length rule with a message.
pub open spec fn bounded(s: Seq<char>, min: int, max: int) -> bool {
    min <= s.len() <= max
}

/// What the login rule reports when it fails.
pub open spec fn login_failure() -> Failure {
    (Some("2137"@), Some("username contains whitespace or non-ascii characters"@), None, None)
}

/// What the password rule reports when it fails.
pub open spec fn password_failure() -> Failure {
    (Some("2138"@), Some("login contains non-ascii characters"@), None, None)
}

fn push_failure(v: &mut Vec<FieldFailure>, f: Option<FieldFailure>)
    ensures
        match f {
            Some(x) => final(v)@ == old(v)@.push(x),
            None => final(v)@ == old(v)@,
        },
{
    if let Some(x) = f {
        v.push(x);
    }
}

fn finish(v: Vec<FieldFailure>) -> (r: Result<(), Vec<FieldFailure>>)
    ensures
        r is Ok <==> v@.len() == 0,
        r matches Err(w) ==> w@ == v@,
{
    if v.len() == 0 {
        Ok(())
    } else {
        Err(v)
    }
}

/// A new post.
pub struct PostCreationData {
    pub content: String,
}

pub open spec fn post_failures(content: Seq<char>) -> Seq<(Seq<char>, Failure)> {
    unless(
        bounded(content, 1, 300),
        "content"@,
        length_failure(Some(1), Some(300), Some("post content of disallowed size"@)),
    )
}

impl PostCreationData {
    /// The content holds 1 to 300 characters.
    pub fn validate(&self) -> (r: Result<(), Vec<FieldFailure>>)
        ensures
            r is Ok <==> post_failures(self.content@).len() == 0,
            r matches Err(v) ==> failures_of(v@) == post_failures(self.content@),
    {
        let mut v: Vec<FieldFailure> = Vec::new();
        push_failure(
            &mut v,
            check_length("content", self.content.as_str(), Some(1), Some(300), Some("post content of disallowed size")),
        );
        proof {
            assert(failures_of(v@) =~= post_failures(self.content@));
        }
        finish(v)
    }
}

/// A new comment on the post `post_id`.
pub struct CommentCreationData {
    pub content: String,
    pub post_id: u128,
}

pub open spec fn comment_failures(content: Seq<char>) -> Seq<(Seq<char>, Failure)> {
    unless(
        bounded(content, 1, 300),
        "content"@,
        length_failure(Some(1), Some(300), Some("comment content of disallowed size"@)),
    )
}

impl CommentCreationData {
    /// The content holds 1 to 300 characters.
    pub fn validate(&self) -> (r: Result<(), Vec<FieldFailure>>)
        ensures
            r is Ok <==> comment_failures(self.content@).len() == 0,
            r matches Err(v) ==> failures_of(v@) == comment_failures(self.content@),
    {
        let mut v: Vec<FieldFailure> = Vec::new();
        push_failure(
            &mut v,
            check_length("content", self.content.as_str(), Some(1), Some(300), Some("comment content of disallowed size")),
        );
        proof {
            assert(failures_of(v@) =~= comment_failures(self.content@));
        }
        finish(v)
    }
}

/// A login name on its own.
pub struct UserLogin {
    pub login: String,
}

/// A login name and password.
pub struct LoginData {
    pub login: String,
    pub password: String,
}

/// The data of a new account.
pub struct UserCreationData {
    pub login: String,
    pub password: String,
}

pub open spec fn user_creation_failures(login: Seq<char>, password: Seq<char>) -> Seq<(Seq<char>, Failure)> {
    unless(login.len() >= 1, "login"@, length_failure(Some(1), None, None))
        + unless(login_acceptable(login), "login"@, login_failure())
        + unless(password.len() >= 1, "password"@, length_failure(Some(1), None, None))
        + unless(vstd::utf8::is_ascii_chars(password), "password"@, password_failure())
}

fn custom_failure(field: &str, r: Result<(), FieldError>) -> (f: Option<FieldFailure>)
    ensures
        match r {
            Ok(()) => f is None,
            Err(e) => f == Some(FieldFailure { field: f->0.field, error: e }) && f->0.field@ == field@,
        },
{
    match r {
        Ok(()) => None,
        Err(error) => Some(FieldFailure { field: field.to_owned(), error }),
    }
}

impl UserCreationData {
    /// The login is non-empty ASCII without whitespace; the password is
    /// non-empty ASCII.
    pub fn validate(&self) -> (r: Result<(), Vec<FieldFailure>>)
        ensures
            r is Ok <==> user_creation_failures(self.login@, self.password@).len() == 0,
            r matches Err(v) ==> failures_of(v@) == user_creation_failures(self.login@, self.password@),
    {
        let mut v: Vec<FieldFailure> = Vec::new();
        push_failure(&mut v, check_length("login", self.login.as_str(), Some(1), None, None));
        push_failure(&mut v, custom_failure("login", validate_user_login(self.login.as_str())));
        push_failure(&mut v, check_length("password", self.password.as_str(), Some(1), None, None));
        push_failure(&mut v, custom_failure("password", validate_user_password(self.password.as_str())));
        proof {
            assert(failures_of(v@) =~= user_creation_failures(self.login@, self.password@));
        }
        finish(v)
    }
}

/// Changes to a user's profile; an absent field is left as it is.
pub struct UserUpdateData {
    pub description: Option<String>,
    pub gender: Option<String>,
}

pub open spec fn user_update_failures(description: Option<Seq<char>>, gender: Option<Seq<char>>) -> Seq<
    (Seq<char>, Failure),
> {
    unless(
        description matches Some(d) ==> d.len() <= 250,
        "description"@,
        length_failure(None, Some(250), Some("description was too long"@)),
    ) + unless(
        gender matches Some(g) ==> bounded(g, 3, 15),
        "gender"@,
        length_failure(Some(3), Some(15), Some("gender length was inproper"@)),
    )
}

impl UserUpdateData {
    /// A description holds at most 250 characters, a gender 3 to 15.
    pub fn validate(&self) -> (r: Result<(), Vec<FieldFailure>>)
        ensures
            r is Ok <==> user_update_failures(
                crate::session::opt_view(self.description),
                crate::session::opt_view(self.gender),
            ).len() == 0,
            r matches Err(v) ==> failures_of(v@) == user_update_failures(
                crate::session::opt_view(self.description),
                crate::session::opt_view(self.gender),
            ),
    {
        let mut v: Vec<FieldFailure> = Vec::new();
        if let Some(d) = &self.description {
            push_failure(&mut v, check_length("description", d.as_str(), None, Some(250), Some("description was too long")));
        }
        if let Some(g) = &self.gender {
            push_failure(&mut v, check_length("gender", g.as_str(), Some(3), Some(15), Some("gender length was inproper")));
        }
        proof {
            assert(failures_of(v@) =~= user_update_failures(
                crate::session::opt_view(self.description),
                crate::session::opt_view(self.gender),
            ));
        }
        finish(v)
    }
}

/// The part of a stored user profile that `UserUpdateData` may change.
pub struct ProfileFields {
    pub description: Option<String>,
    pub gender: Option<String>,
}

/// Applying a set of changes to a stored profile.
pub trait UserUpdateDataExt: Sized {
    /// The profile after the changes in `self` were applied to `model`.
    spec fn updated(&self, model: ProfileFields) -> ProfileFields;

    fn update_model(self, model: &mut ProfileFields)
        ensures
            *final(model) == self.updated(*old(model)),
    ;
}

impl UserUpdateDataExt for UserUpdateData {
    /// Each field that is given replaces the stored one; the others stay.
    open spec fn updated(&self, model: ProfileFields) -> ProfileFields {
        ProfileFields {
            description: if self.description is Some { self.description } else { model.description },
            gender: if self.gender is Some { self.gender } else { model.gender },
        }
    }

    fn update_model(self, model: &mut ProfileFields) {
        if let Some(desc) = self.description {
            model.description = Some(desc);
        }
        if let Some(gender) = self.gender {
            model.gender = Some(gender);
        }
    }
}

/// Which posts to list: those of one user, at most `limit` of them.
pub struct PostsFilter {
    pub username: Option<String>,
    pub user_id: Option<u128>,
    pub limit: Option<u64>,
}

} // verus!
