//! The ways in which the store and its collaborators fail.

use vstd::prelude::*;
use vstd::string::StringExecFns;

verus! {

/// A failure of the store, of the lock protocol or of a collection.
#[derive(Clone, Debug, PartialEq, Eq)]
pub enum Error {
    /// A host counter could not be read.
    Psutil,
    /// A version tag does not follow semantic versioning.
    SemVer,
    /// The file holds no well-formed store.
    CborDeserialize,
    /// The store could not be encoded.
    CborSerialize,
    /// The path given for the store cannot be used.
    InvalidPath,
    FailedToOpenFile,
    FailedToGetFileMetadata,
    FailedToWriteFile,
    FailedToSetFileCursor,
    FailedToRemoveFile,
    /// The lock sentinel of the named store was still there when the wait
    /// ran out.
    LockFileTimeout(String),
    /// The retention cutoff cannot be represented.
    OldestDateOverflow,
}

impl Error {
    /// The text that describes this kind of failure, without its cause.
    pub open spec fn spec_message(self) -> Seq<char> {
        match self {
            Error::Psutil => "Failed to get stat from psutil"@,
            Error::SemVer => "SemVer failed"@,
            Error::CborDeserialize => "Failed to convert data from cbor"@,
            Error::CborSerialize => "Failed to convert data to cbor"@,
            Error::InvalidPath => "Provided path is invalid"@,
            Error::FailedToOpenFile => "Failed to open file"@,
            Error::FailedToGetFileMetadata => "Failed to get file metadata"@,
            Error::FailedToWriteFile => "Failed to write to file"@,
            Error::FailedToSetFileCursor => "Failed to set file cursor"@,
            Error::FailedToRemoveFile => "Failed to remove file"@,
            Error::LockFileTimeout(path) => "Timeout while trying to lock "@ + path@,
            Error::OldestDateOverflow => "Oldest date is too big to big calculated"@,
        }
    }

    /// The text that describes this failure.
    pub fn message(&self) -> (text: String)
        ensures
            text@ == self.spec_message(),
    {
        match self {
            Error::Psutil => String::from_str("Failed to get stat from psutil"),
            Error::SemVer => String::from_str("SemVer failed"),
            Error::CborDeserialize => String::from_str("Failed to convert data from cbor"),
            Error::CborSerialize => String::from_str("Failed to convert data to cbor"),
            Error::InvalidPath => String::from_str("Provided path is invalid"),
            Error::FailedToOpenFile => String::from_str("Failed to open file"),
            Error::FailedToGetFileMetadata => String::from_str("Failed to get file metadata"),
            Error::FailedToWriteFile => String::from_str("Failed to write to file"),
            Error::FailedToSetFileCursor => String::from_str("Failed to set file cursor"),
            Error::FailedToRemoveFile => String::from_str("Failed to remove file"),
            Error::LockFileTimeout(path) => String::from_str(
                "Timeout while trying to lock ",
            ).concat(path.as_str()),
            Error::OldestDateOverflow => String::from_str(
                "Oldest date is too big to big calculated",
            ),
        }
    }
}

} // verus!
