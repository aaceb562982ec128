//! Bearer-token authorization.

use crate::http::text_view;
use vstd::prelude::*;
use vstd::string::StringExecFns;

verus! {

/// The value that the `Authorization` header must have for a bearer token.
pub open spec fn bearer_value(token: Seq<char>) -> Seq<char> {
    "Bearer "@ + token
}

/// Whether a request with this `Authorization` header passes a check that
/// expects `expected`: the header is there and is that value, letter for letter.
pub open spec fn passes(expected: Seq<char>, header: Option<Seq<char>>) -> bool {
    header == Some(expected)
}

/// A check that lets a request pass only with one fixed `Authorization` header.
#[derive(Clone, Debug, PartialEq, Eq)]
pub struct RequireAuthorization {
    header_value: String,
}

impl View for RequireAuthorization {
    type V = Seq<char>;

    /// The header value that the check expects.
    closed spec fn view(&self) -> Seq<char> {
        self.header_value@
    }
}

impl RequireAuthorization {
    /// The check that expects the bearer token `token`.
    pub fn bearer(token: &str) -> (check: RequireAuthorization)
        ensures
            check@ == bearer_value(token@),
    {
        let mut header_value = "Bearer ".to_owned();
        header_value.append(token);
        RequireAuthorization { header_value }
    }

    /// Whether a request with this `Authorization` header passes the check.
    pub fn authorize(&self, header: &Option<String>) -> (ok: bool)
        ensures
            ok == passes(self@, text_view(*header)),
    {
        match header {
            Some(actual) => *actual == self.header_value,
            None => false,
        }
    }

    /// A copy of the check.
    pub fn duplicate(&self) -> (copy: RequireAuthorization)
        ensures
            copy@ == self@,
    {
        RequireAuthorization { header_value: self.header_value.clone() }
    }
}

} // verus!
