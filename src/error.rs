use vstd::prelude::*;

verus! {

/// `std::io::Error`, carried through the library as an opaque value.
#[verifier::external_type_specification]
#[verifier::external_body]
pub struct ExIoError(std::io::Error);

/// Why running a remote command failed.
#[derive(Debug)]
pub enum Error {
    /// A pipe or stream failed, for instance a reader dropped mid-write.
    IoError(std::io::Error),
    /// The transport failed: a send or receive, or the exec request.
    Transport(String),
}

} // verus!
