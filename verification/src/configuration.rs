//! The runtime environment the application can be started in. Reading the
//! configuration files and environment variables it selects is transport
//! work and stays outside.

use vstd::prelude::*;

use crate::erro::str_eq;

verus! {

/// What str::to_lowercase yields on a character sequence: a function of the
/// characters alone.
pub uninterp spec fn lower_of(s: Seq<char>) -> Seq<char>;

/// Relies on str::to_lowercase: the result depends on the characters alone.
#[verifier::external_body]
fn lowercase(s: &str) -> (r: String)
    ensures
        r@ == lower_of(s@),
{
    s.to_lowercase()
}

/// The possible runtime environment for our application.
#[derive(Clone, Copy, PartialEq, Eq, Structural, Debug)]
pub enum Environment {
    Local,
    Production,
}

impl Environment {
    #[must_use]
    pub fn as_str(&self) -> (r: &'static str)
        ensures
            *self is Local ==> r@ == "local"@,
            *self is Production ==> r@ == "production"@,
    {
        match self {
            Environment::Local => "local",
            Environment::Production => "production",
        }
    }

    /// Parse an environment name, case-insensitively. A name that lowers to
    /// neither "local" nor "production" is handed back as the error.
    pub fn try_from(s: String) -> (r: Result<Environment, String>)
        ensures
            lower_of(s@) == "local"@ ==> (r matches Ok(e) && e is Local),
            lower_of(s@) == "production"@ ==> (r matches Ok(e) && e is Production),
            (lower_of(s@) != "local"@ && lower_of(s@) != "production"@) ==> (r matches Err(orig)
                && orig@ == s@),
    {
        proof {
            reveal_strlit("local");
            reveal_strlit("production");
            assert("local"@.len() != "production"@.len());
        }
        let low = lowercase(s.as_str());
        if str_eq(low.as_str(), "local") {
            Ok(Environment::Local)
        } else if str_eq(low.as_str(), "production") {
            Ok(Environment::Production)
        } else {
            Err(s)
        }
    }
}

} // verus!
