use vstd::prelude::*;

verus! {

/// The failure kinds an entry point can raise. Each is terminal for the call
/// that raised it; none is retried internally. Only `Install` has a recovery
/// path: an install failure is swallowed when a previously installed version
/// of the package can still be used.
#[derive(Debug, Clone, PartialEq, Eq)]
pub enum Error {
    /// The host could not supply the path of its default JavaScript runtime.
    HostResolution(String),
    /// A version lookup (installed or latest) failed.
    Query(String),
    /// Installation failed and no previously installed version exists.
    Install(String),
    /// The working directory could not be resolved.
    Path(String),
}

impl Error {
    /// The message carried by the error, whichever kind it is.
    pub fn message(&self) -> (m: &str)
        ensures
            match self {
                Error::HostResolution(s) => m@ == s@,
                Error::Query(s) => m@ == s@,
                Error::Install(s) => m@ == s@,
                Error::Path(s) => m@ == s@,
            },
    {
        match self {
            Error::HostResolution(s) => s.as_str(),
            Error::Query(s) => s.as_str(),
            Error::Install(s) => s.as_str(),
            Error::Path(s) => s.as_str(),
        }
    }
}

} // verus!
