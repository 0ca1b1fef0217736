use vstd::prelude::*;

verus! {

/// Declares `std::io::Error` so that it can stand in signatures and fields.
/// The library never inspects such a value; it only carries the error that a
/// filesystem step produced back to the caller unchanged.
#[verifier::external_type_specification]
#[verifier::external_body]
pub struct ExIoError(std::io::Error);

/// The error type returned by the loading operations.
pub enum ConfigurationError<E> {
    /// A filesystem step failed: the file could not be opened, read or
    /// written. The underlying error is carried unchanged.
    Io(std::io::Error),
    /// The file was read, but the caller-supplied deserializer rejected its
    /// content. The deserializer's own error is carried unchanged.
    Deserialize(E),
}

} // verus!
