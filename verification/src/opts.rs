//! The settings the service is started with.

use vstd::prelude::*;

verus! {

/// `std::path::PathBuf`: an owned path. It is only carried along here.
#[verifier::external_type_specification]
#[verifier::external_body]
pub struct ExPathBuf(std::path::PathBuf);

/// The settings the service is started with.
pub struct Opts {
    /// The directory that holds one file per alert.
    pub db_path: std::path::PathBuf,
    /// The password of the administrator.
    pub admin_password: Secret,
}

/// A text that must not show up in logs. It can be read only by asking for
/// it with `secret`; the type has no `Debug`, so that printing a value that
/// holds one cannot reveal it.
pub struct Secret(String);

impl Clone for Secret {
    fn clone(&self) -> (copy: Self)
        ensures
            copy@ == self@,
    {
        Secret(self.0.clone())
    }
}

impl View for Secret {
    type V = Seq<char>;

    closed spec fn view(&self) -> Seq<char> {
        self.0@
    }
}

impl Secret {
    pub fn new(secret: String) -> (made: Self)
        ensures
            made@ == secret@,
    {
        Secret(secret)
    }

    /// The text itself.
    pub fn secret(&self) -> (secret: &str)
        ensures
            secret@ == self@,
    {
        self.0.as_str()
    }

    /// What stands in for the secret wherever a value is shown.
    pub fn redacted(&self) -> (shown: String)
        ensures
            shown@ == "[secret]"@,
    {
        "[secret]".to_owned()
    }
}

impl std::str::FromStr for Secret {
    type Err = std::convert::Infallible;

    /// Any text is a secret: reading one never fails and keeps the text as
    /// it is.
    fn from_str(s: &str) -> (made: Result<Self, Self::Err>)
        ensures
            made is Ok,
            made->Ok_0@ == s@,
    {
        Ok(Secret(s.to_owned()))
    }
}

} // verus!
