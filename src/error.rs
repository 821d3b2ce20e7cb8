//! The errors of the library.
use vstd::prelude::*;

verus! {

/// A failure to get an answer from the release catalog.
#[derive(Debug, PartialEq, Eq)]
pub enum AdoptiumError {
    /// The request could not be made or its answer not read.
    ReqwestError(String),
    /// The answer was not the expected JSON.
    JSONError(String),
    /// Some other failure, in words.
    Custom(String),
    /// The catalog answered with a status that is not a success.
    BadResponse(u16),
    /// A URL could not be parsed.
    InvalidUrl,
    /// The catalog listed no release for the query.
    NoRelease,
    /// The release listed no binary.
    NoBinary,
}

/// A failure while fetching and unpacking an archive.
#[derive(Debug, PartialEq, Eq)]
pub enum TransferError {
    /// The server answered with a status that is not a success.
    BadResponse(u16),
    /// Reading the response failed.
    Network(String),
    /// The stream was not valid gzip, or the archive was not a valid tar.
    Unpack(String),
    /// Writing to the local disk failed.
    Io(String),
}

/// A failure on the record files of installs.
#[derive(Debug, PartialEq, Eq)]
pub enum RecordError {
    /// A record for that install already exists.
    AlreadyExists,
    /// A record could not be encoded.
    Serialize(String),
    /// A record file could not be decoded.
    Deserialize(String),
    /// Reading or writing a record file failed.
    Io(String),
}

/// Any failure of an install, update or uninstall.
#[derive(Debug, PartialEq, Eq)]
pub enum InstallerError {
    Adoptium(AdoptiumError),
    Transfer(TransferError),
    /// Moving the unpacked files into place failed.
    Relocation(String),
    /// A system integration step failed.
    Integration(String),
    Record(RecordError),
    /// No install has the given id.
    NotFound(String),
    /// Some other failure, in words.
    Custom(String),
}

} // verus!
