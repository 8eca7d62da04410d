//! The errors that a request for a key can surface.

use std::sync::Arc;
use vstd::prelude::*;
use vstd::string::StringExecFns;
use crate::runtime::TypeTag;
use crate::util::share;

verus! {

/// The stored payload is not of the type that the caller asked for.
///
/// This happens when two parts of a program request the same key with
/// different response types.
#[derive(Clone, Copy, Debug)]
pub struct MismatchedTypeError {
    /// The number of the type that the cache holds.
    pub contained_type: u64,
    /// The number of the type that was asked for.
    pub wanted_type: u64,
    /// The name of the type that the cache holds.
    pub contained_name: &'static str,
    /// The name of the type that was asked for.
    pub wanted_name: &'static str,
}

impl MismatchedTypeError {
    /// The error for a payload of type `contained` read as type `wanted`.
    pub fn new(contained: &TypeTag, wanted: &TypeTag) -> (error: Self)
        ensures
            error == Self::of(*contained, *wanted),
    {
        MismatchedTypeError {
            contained_type: contained.id,
            wanted_type: wanted.id,
            contained_name: contained.name,
            wanted_name: wanted.name,
        }
    }

    /// The error for a payload of type `contained` read as type `wanted`.
    pub open spec fn of(contained: TypeTag, wanted: TypeTag) -> Self {
        MismatchedTypeError {
            contained_type: contained.id,
            wanted_type: wanted.id,
            contained_name: contained.name,
            wanted_name: wanted.name,
        }
    }

    /// The name of the type that the cache holds.
    #[inline]
    pub fn contained_type_name(&self) -> (name: Option<&'static str>)
        ensures
            name == Some(self.contained_name),
    {
        Some(self.contained_name)
    }

    /// The name of the type that was asked for.
    #[inline]
    pub fn wanted_type_name(&self) -> (name: Option<&'static str>)
        ensures
            name == Some(self.wanted_name),
    {
        Some(self.wanted_name)
    }

    /// The text of the error.
    pub open spec fn message_text(&self) -> Seq<char> {
        "Data type mismatch"@ + " - cache contains a value of type `"@ + self.contained_name@
            + "`, but tried to retrieve a value of type `"@ + self.wanted_name@ + "`."@
    }

    /// The error in words.
    pub fn message(&self) -> (text: String)
        ensures
            text@ == self.message_text(),
    {
        let mut text = String::from_str("Data type mismatch");
        text.append(" - cache contains a value of type `");
        text.append(self.contained_name);
        text.append("`, but tried to retrieve a value of type `");
        text.append(self.wanted_name);
        text.append("`.");
        text
    }
}

/// Any error that a request for a key can surface.
#[derive(Debug)]
pub enum Error<E> {
    /// The fetcher failed; its error is stored on the entry until a fetch or
    /// a mutation succeeds.
    Fetcher(Arc<E>),
    /// The stored payload is not of the requested type. This error is made
    /// anew for each request and never stored.
    MismatchedType(MismatchedTypeError),
}

impl<E> Error<E> {
    /// Another handle to the same error.
    pub fn share(&self) -> (other: Self)
        ensures
            other == *self,
    {
        match self {
            Error::Fetcher(e) => Error::Fetcher(share(e)),
            Error::MismatchedType(e) => Error::MismatchedType(*e),
        }
    }
}

} // verus!
