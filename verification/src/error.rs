//! The errors of the library.

use vstd::prelude::*;
use bytes::Bytes;
use std::string::FromUtf8Error;
use zeromq::ZmqError;

verus! {

/// `std::io::Error`, carried through as it is.
#[verifier::external_type_specification]
#[verifier::external_body]
pub struct ExIoError(std::io::Error);

/// An error of the operating system, with what the library has to know of it: whether something
/// was not found.
#[derive(Debug)]
pub enum IoFailure {
    /// Its kind is `std::io::ErrorKind::NotFound`.
    NotFound(std::io::Error),
    /// It is of another kind.
    Other(std::io::Error),
}

/// An error of the transport, with what the library has to know of it: whether the peer closed
/// the connection without an answer.
#[derive(Debug)]
pub enum ZmqFailure {
    /// `zeromq::ZmqError::NoMessage`.
    NoMessage,
    /// Any other error.
    Other(ZmqError),
}

/// Errors around the path of the OMC executable.
#[derive(Debug)]
pub enum OMCPathError {
    /// The path could not be converted to a string.
    PathToStringConversionFailed { path: String },
    /// There is no executable at the path.
    OMCNotFound { omc_path: String },
}

/// Errors while the OMC process is started.
#[derive(Debug)]
pub enum OMCSessionBaseConstructionError {
    /// An error around the path of the executable.
    OMCPathErr(OMCPathError),
    /// The log file could not be created.
    FailedToCreateOMCLogFile { path: String, source: std::io::Error },
    /// The process could not be started.
    IOError(std::io::Error),
}

/// Errors while a session is set up.
#[derive(Debug)]
pub enum OMCSessionZMQConstructionError {
    /// The environment variable that names the installation is not set.
    OpenModelicaHomeEnvVarNotSet { env_var: String },
    /// The server did not write its port file in time.
    OMCServerFailedToStart { port_file: String },
    /// The process could not be started.
    OMCSessionBaseConstructionErr(OMCSessionBaseConstructionError),
    /// The port file could not be read.
    IOErr(std::io::Error),
    /// The server could not be reached.
    OMCSessionZMQErr(OMCSessionZMQError),
}

/// Errors of a session.
#[derive(Debug)]
pub enum OMCSessionZMQError {
    /// The server refused an expression; the bytes are its error string, frame by frame.
    ExpressionError { bytes: Vec<Bytes> },
    /// A reply could not be parsed.
    FromZmqErr(FromZmqError),
    /// The transport failed.
    ZmqErr(ZmqFailure),
}

/// Errors while a reply is parsed.
#[derive(Debug)]
pub enum FromZmqError {
    /// The reply does not name the results of a build; the bytes are the reply, frame by frame.
    BuildModelResultsParseError { bytes: Vec<Bytes> },
    /// The reply is not valid UTF-8.
    FromUtf8Err(FromUtf8Error),
}

/// Errors of a Modelica system.
#[derive(Debug)]
pub enum ModelicaSystemError {
    /// An error around a path.
    OMCPathErr(OMCPathError),
    /// There is no model file at the path.
    ModelNotFound { model_path: String },
    /// There is no simulation executable at the path.
    SimNotFound { exec_path: String },
    /// The simulation executable is in no directory.
    ExecParentDirError { exec_path: String },
    /// The log file of a simulation could not be created.
    FailedToCreateSimLogFile { path: String, source: std::io::Error },
    /// The session failed.
    OMCSessionZMQErr(OMCSessionZMQError),
    /// The simulation could not be started.
    IOError(std::io::Error),
}

} // verus!
