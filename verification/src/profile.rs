//! The profile claims the system keeps after a successful authentication.

use vstd::prelude::*;

use crate::errors::AuthError;

verus! {

/// The three claims of interest, read from a verified identity token.
/// Immutable once constructed; the session boundary owns it afterwards.
#[derive(Clone, Debug)]
pub struct Profile {
    pub picture_url: String,
    pub name: String,
    pub email: String,
}

impl Profile {
    pub fn new(picture_url: String, name: String, email: String) -> (r: Profile)
        ensures
            r.picture_url == picture_url,
            r.name == name,
            r.email == email,
    {
        Profile { picture_url, name, email }
    }

    /// Builds a profile from the optional claims of a verified identity
    /// token. All three claims must be present: an absent one yields
    /// `IncompleteClaims` rather than a silently empty field.
    pub fn from_claims(picture: Option<String>, name: Option<String>, email: Option<String>) -> (r:
        Result<Profile, AuthError>)
        ensures
            match r {
                Ok(p) => {
                    &&& picture is Some && name is Some && email is Some
                    &&& p.picture_url == picture.unwrap()
                    &&& p.name == name.unwrap()
                    &&& p.email == email.unwrap()
                },
                Err(e) => {
                    &&& e == AuthError::IncompleteClaims
                    &&& !(picture is Some && name is Some && email is Some)
                },
            },
    {
        match (picture, name, email) {
            (Some(picture_url), Some(name), Some(email)) => Ok(
                Profile { picture_url, name, email },
            ),
            _ => Err(AuthError::IncompleteClaims),
        }
    }
}

} // verus!
