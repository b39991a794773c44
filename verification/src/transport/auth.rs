//! Authentication of HTTP requests.
use crate::text::quoted;
use vstd::prelude::*;

verus! {

/// How requests to an endpoint authenticate.
#[derive(Clone, Debug, PartialEq, Eq)]
pub enum AuthConfig {
    NoAuth,
    BearerToken(String),
    Header { name: String, value: String },
}

/// The headers an authentication adds, as `(name, value)` strings.
pub open spec fn auth_headers(auth: AuthConfig) -> Seq<(Seq<char>, Seq<char>)> {
    match auth {
        AuthConfig::NoAuth => seq![],
        AuthConfig::BearerToken(token) => seq![("Authorization"@, "Bearer "@ + token@)],
        AuthConfig::Header { name, value } => seq![(name@, value@)],
    }
}

impl AuthConfig {
    pub fn headers(&self) -> (headers: Vec<(String, String)>)
        ensures
            headers@.len() == auth_headers(*self).len(),
            forall|i: int|
                0 <= i < headers@.len() ==> (#[trigger] headers@[i]).0@ == auth_headers(*self)[i].0
                    && headers@[i].1@ == auth_headers(*self)[i].1,
    {
        let mut headers: Vec<(String, String)> = Vec::new();
        match self {
            AuthConfig::NoAuth => {},
            AuthConfig::BearerToken(token) => {
                headers.push(("Authorization".to_owned(), quoted("Bearer ", token.as_str(), "")));
                proof {
                    reveal_strlit("");
                }
                assert(("Bearer "@ + token@ + ""@) =~= "Bearer "@ + token@);
            },
            AuthConfig::Header { name, value } => {
                headers.push((name.clone(), value.clone()));
            },
        }
        headers
    }
}

} // verus!
