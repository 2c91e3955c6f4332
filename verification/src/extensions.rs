//! Results whose error is a description.

use vstd::prelude::*;

verus! {

/// A result whose error says in words what went wrong.
pub type GenericResult<D> = Result<D, String>;

/// `std::fmt::Debug` of `error`, as `{:?}` formats it. What the text holds
/// is the business of the error's type: nothing is claimed of it.
#[verifier::external_body]
pub(crate) fn debug_text<E: core::fmt::Debug>(error: &E) -> (r: String) {
    format!("{:?}", error)
}

/// Results whose error can be described.
pub trait ResultGeneralize<T, E> where E: core::fmt::Debug {
    /// The result with its error replaced by a description of it.
    fn generalize(self) -> GenericResult<T>;
}

impl<T, E> ResultGeneralize<T, E> for Result<T, E> where E: core::fmt::Debug {
    /// A success stays as it is. An error becomes its debug text.
    fn generalize(self) -> (r: GenericResult<T>)
        ensures
            match self {
                Ok(value) => r == Ok::<T, String>(value),
                Err(_) => r is Err,
            },
    {
        match self {
            Ok(value) => Ok(value),
            Err(error) => Err(debug_text(&error)),
        }
    }
}

} // verus!
