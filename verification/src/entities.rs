use vstd::prelude::*;

verus! {

/// One row of the persistent store: a cached profile record.
///
/// `id` is the remote-assigned identity and is unique across rows;
/// `username` is the case-insensitive lookup key; `expiration` is an
/// absolute timestamp in milliseconds since the epoch, and the record is
/// fresh exactly while the current time is below it.
#[derive(Debug)]
pub struct GithubUser {
    pub id: i32,
    pub username: String,
    pub name: Option<String>,
    pub location: Option<String>,
    pub avatar_url: String,
    pub expiration: i64,
}

impl GithubUser {
    /// A record is fresh when the current time has not yet reached its expiry.
    pub open spec fn is_fresh(&self, now: i64) -> bool {
        now < self.expiration
    }
}

impl Clone for GithubUser {
    fn clone(&self) -> (r: Self)
        ensures
            r == *self,
    {
        GithubUser {
            id: self.id,
            username: self.username.clone(),
            name: match &self.name {
                Some(s) => Some(s.clone()),
                None => None,
            },
            location: match &self.location {
                Some(s) => Some(s.clone()),
                None => None,
            },
            avatar_url: self.avatar_url.clone(),
            expiration: self.expiration,
        }
    }
}

} // verus!
