use vstd::prelude::*;

verus! {

/// A profile as the upstream API reports it: the fields of the JSON body
/// of a successful profile response. `login` is the username; `name` and
/// `location` are optional.
#[derive(Debug)]
pub struct GithubUser {
    pub id: i32,
    pub login: String,
    pub name: Option<String>,
    pub location: Option<String>,
    pub avatar_url: String,
}

impl Clone for GithubUser {
    fn clone(&self) -> (r: Self)
        ensures
            r == *self,
    {
        GithubUser {
            id: self.id,
            login: self.login.clone(),
            name: match &self.name {
                Some(s) => Some(s.clone()),
                None => None,
            },
            location: match &self.location {
                Some(s) => Some(s.clone()),
                None => None,
            },
            avatar_url: self.avatar_url.clone(),
        }
    }
}

} // verus!
