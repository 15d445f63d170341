//! Why a server could not start.
use vstd::prelude::*;

verus! {

#[verifier::external_type_specification]
#[verifier::external_body]
pub struct ExIoError(std::io::Error);

#[verifier::external_type_specification]
#[verifier::external_body]
pub struct ExTransportError(hyper::error::Error);

/// Whether a transport error is the `Io` variant of `hyper::error::Error`, the
/// one that carries an error of the I/O layer.
pub uninterp spec fn carries_io_error(err: hyper::error::Error) -> bool;

/// The I/O error inside a transport error that carries one (the field of the
/// `Io` variant of `hyper::error::Error`).
pub uninterp spec fn carried_io_error(err: hyper::error::Error) -> std::io::Error;

/// A failure to bind or to listen.
pub enum RpcServerError {
    /// The I/O layer failed.
    IoError(std::io::Error),
    /// The transport failed for another reason.
    Other(hyper::error::Error),
}

/// Tells the variants of `hyper::error::Error` apart: the I/O error out of the
/// `Io` variant, or any other error as it came.
#[verifier::external_body]
fn split_io_error(err: hyper::error::Error) -> (parts: Result<std::io::Error, hyper::error::Error>)
    ensures
        parts is Ok <==> carries_io_error(err),
        parts matches Ok(inner) ==> inner == carried_io_error(err),
        parts matches Err(other) ==> other == err,
{
    match err {
        hyper::error::Error::Io(inner) => Ok(inner),
        other => Err(other),
    }
}

impl RpcServerError {
    /// Sorts a transport error: one of the I/O layer gives up the I/O error it
    /// carries, any other is kept as it is.
    pub fn from(err: hyper::error::Error) -> (error: Self)
        ensures
            error is IoError <==> carries_io_error(err),
            error is Other <==> !carries_io_error(err),
            error matches RpcServerError::IoError(inner) ==> inner == carried_io_error(err),
            error matches RpcServerError::Other(other) ==> other == err,
    {
        match split_io_error(err) {
            Ok(inner) => RpcServerError::IoError(inner),
            Err(other) => RpcServerError::Other(other),
        }
    }

    /// Whether the I/O layer failed.
    pub fn is_io_error(&self) -> (io: bool)
        ensures
            io == (self is IoError),
    {
        match self {
            RpcServerError::IoError(_) => true,
            RpcServerError::Other(_) => false,
        }
    }
}

} // verus!
