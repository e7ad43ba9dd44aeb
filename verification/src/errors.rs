use vstd::prelude::*;

verus! {

/// The failures this library can report.
#[derive(Clone, Copy, Debug, PartialEq, Eq, Structural)]
pub enum ErrorDetails {
    /// The platform could not supply a home directory for the current user.
    NoHomeEnvironmentVar,
}

/// The result type of every fallible operation in this library.
pub type Fallible<T> = Result<T, ErrorDetails>;

} // verus!
