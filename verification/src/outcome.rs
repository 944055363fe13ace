//! How a build ends.

use crate::probe::ProbeError;
use std::convert::Infallible;
use vstd::prelude::*;
use vstd::string::*;

verus! {

/// The name of the library, as diagnostics give it.
pub const LIB_NAME: &'static str = "dftb+";

/// An error that cannot occur. Its one variant holds a value of a type that
/// has none, so no value of this type can be made.
#[derive(Debug)]
pub enum Never {
    Impossible(Infallible),
}

impl Clone for Never {
    fn clone(&self) -> (copy: Never) {
        match self {
            Never::Impossible(void) => Never::Impossible(*void),
        }
    }
}

/// A result type that is always `Ok`.
pub type PanicResult<T> = Result<T, Never>;

/// A failure that ends the build. None is recovered from.
#[derive(Debug, Clone)]
pub enum Fatal {
    /// The source directory could not be enumerated.
    Walk(String),
    /// The library could not be located, or its metadata was unusable.
    Probe(ProbeError),
    /// The generator could not produce bindings for the header.
    Generation,
    /// The bindings could not be written.
    Write,
}

/// The mathematical value of a [`Fatal`].
pub enum FatalView {
    Walk(Seq<char>),
    Probe(Seq<char>),
    Generation,
    Write,
}

impl FatalView {
    /// The diagnostic that the build ends with: the message of the tool that
    /// failed, or a sentence that names the library.
    pub open spec fn message(self) -> Seq<char> {
        match self {
            FatalView::Walk(message) => message,
            FatalView::Probe(message) => message,
            FatalView::Generation => "Unable to generate bindings for '"@ + LIB_NAME@ + "'!"@,
            FatalView::Write => "Couldn't write bindings for '"@ + LIB_NAME@ + "'!"@,
        }
    }
}

impl View for Fatal {
    type V = FatalView;

    open spec fn view(&self) -> FatalView {
        match self {
            Fatal::Walk(message) => FatalView::Walk(message@),
            Fatal::Probe(error) => FatalView::Probe(error@),
            Fatal::Generation => FatalView::Generation,
            Fatal::Write => FatalView::Write,
        }
    }
}

impl Fatal {
    /// The diagnostic to end the build with.
    pub fn message(&self) -> (out: String)
        ensures
            out@ == self@.message(),
    {
        match self {
            Fatal::Walk(message) => message.clone(),
            Fatal::Probe(error) => error.to_string(),
            Fatal::Generation => String::from_str("Unable to generate bindings for '").concat(
                LIB_NAME,
            ).concat("'!"),
            Fatal::Write => String::from_str("Couldn't write bindings for '").concat(
                LIB_NAME,
            ).concat("'!"),
        }
    }
}

} // verus!
