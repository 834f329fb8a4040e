//! Which database lookup a request asks for, read from its optional
//! parameters.
use vstd::prelude::*;

verus! {

/// How a profile is looked up.
pub enum ProfileLookup {
    ById(u128),
    ByLogin(String),
    /// Neither was given: there is no such user.
    Nothing,
}

/// A login, when given, wins; an id is used only on its own.
pub fn profile_lookup(user_id: Option<u128>, username: Option<String>) -> (r: ProfileLookup)
    ensures
        match username {
            Some(name) => r == ProfileLookup::ByLogin(name),
            None => match user_id {
                Some(id) => r == ProfileLookup::ById(id),
                None => r is Nothing,
            },
        },
{
    match (user_id, username) {
        (Some(id), None) => ProfileLookup::ById(id),
        (_, Some(login)) => ProfileLookup::ByLogin(login),
        _ => ProfileLookup::Nothing,
    }
}

/// How comments are looked up.
pub enum CommentsLookup {
    /// One comment, by its id.
    One(u128),
    /// The comments of a post, at most `limit` of them when a limit is given.
    OfPost { post: u128, limit: Option<u64> },
    /// Both or neither id was given: the request is malformed.
    Malformed,
}

/// Exactly one of a post id and a comment id must be given.
pub fn comments_lookup(pid: Option<u128>, cid: Option<u128>, limit: Option<u64>) -> (r: CommentsLookup)
    ensures
        match (pid, cid) {
            (None, Some(c)) => r == CommentsLookup::One(c),
            (Some(p), None) => r == (CommentsLookup::OfPost { post: p, limit }),
            _ => r is Malformed,
        },
{
    match (pid, cid) {
        (None, Some(c)) => CommentsLookup::One(c),
        (Some(p), None) => CommentsLookup::OfPost { post: p, limit },
        _ => CommentsLookup::Malformed,
    }
}

} // verus!
