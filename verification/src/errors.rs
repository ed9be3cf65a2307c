use vstd::prelude::*;

verus! {

/// `std::array::TryFromSliceError`, the error of converting a slice of the
/// wrong length into an array. Opaque here.
#[verifier::external_type_specification]
#[verifier::external_body]
pub struct ExTryFromSliceError(std::array::TryFromSliceError);

/// `std::io::Error`, an error of the pipe that carries the frames. Opaque here.
#[verifier::external_type_specification]
#[verifier::external_body]
pub struct ExIoError(std::io::Error);

/// `std::string::FromUtf8Error`, the error of decoding bytes that are not
/// valid UTF-8. Opaque here.
#[verifier::external_type_specification]
#[verifier::external_body]
pub struct ExFromUtf8Error(std::string::FromUtf8Error);

/// `serde_json::Error`, an error of serialising a JSON value. Opaque here.
#[verifier::external_type_specification]
#[verifier::external_body]
pub struct ExJsonError(serde_json::Error);

/// Everything that can go wrong while talking to the Discord client.
#[derive(Debug)]
pub enum DiscordRPCError {
    /// No IPC pipe of the Discord client was found.
    PipeNotFound,
    /// The IPC pipe was found but could not be opened.
    CouldNotConnect,
    /// A frame header did not have the expected length.
    TryFromSlice(std::array::TryFromSliceError),
    /// Reading from or writing to the pipe failed.
    Io(std::io::Error),
    /// A frame payload was not valid UTF-8.
    FromUtf8(std::string::FromUtf8Error),
    /// A JSON value could not be serialised.
    SerdeJson(serde_json::Error),
}

/// The result type of this library.
pub type Result<T, E = DiscordRPCError> = core::result::Result<T, E>;

} // verus!
