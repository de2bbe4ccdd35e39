use vstd::prelude::*;

verus! {

/// The ways a render call can fail: the labelling contract handed back a name
/// that is not a valid DOT identifier, or the output sink reported a write
/// failure.
#[derive(Debug)]
pub enum Error {
    /// A write to the output sink failed.
    Io(std::io::Error),
    /// A graph, node, or subgraph name does not match
    /// `[A-Za-z_][A-Za-z0-9_]*`.
    InvalidId,
}

/// `std::io::Error` is declared so that `Error` can carry a sink failure
/// through; nothing is assumed about its contents.
#[verifier::external_type_specification]
#[verifier::external_body]
pub struct ExIoError(std::io::Error);

impl From<std::io::Error> for Error {
    fn from(err: std::io::Error) -> (r: Error) {
        Error::Io(err)
    }
}

impl vstd::std_specs::convert::FromSpecImpl<std::io::Error> for Error {
    open spec fn obeys_from_spec() -> bool {
        true
    }

    open spec fn from_spec(err: std::io::Error) -> Error {
        Error::Io(err)
    }
}

} // verus!
