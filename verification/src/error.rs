//! The ways in which work on a repository's configuration can fail.

use vstd::prelude::*;

verus! {

/// Why an operation on a repository's configuration was refused or failed.
///
/// Each kind calls for a different remedy, so none is ever reported in place
/// of another.
#[derive(Copy, Clone, Debug, PartialEq, Eq, Structural)]
pub enum ConfigError {
    /// A choice is out of range or two choices do not fit together. Such a
    /// configuration is refused before anything is written.
    ConfigValidation,
    /// The format version lies outside the range this library reads.
    UnsupportedVersion,
    /// The stored configuration cannot be understood: a field is missing, has
    /// the wrong shape, names an unknown variant or breaks a range.
    MalformedConfig,
    /// The passphrase does not open the stored key.
    AuthenticationFailure,
    /// The storage below failed to read or to write.
    StorageFault,
    /// A collaborating engine (key generation or key wrapping) failed.
    EngineFault,
}

impl ConfigError {
    /// What went wrong, in words.
    pub open spec fn spec_message(self) -> Seq<char> {
        match self {
            ConfigError::ConfigValidation => "the chosen algorithms are out of range or do not fit together"@,
            ConfigError::UnsupportedVersion => "the repository's format version is not supported"@,
            ConfigError::MalformedConfig => "the repository's configuration cannot be understood"@,
            ConfigError::AuthenticationFailure => "the passphrase does not open the repository's key"@,
            ConfigError::StorageFault => "the storage failed"@,
            ConfigError::EngineFault => "an engine failed"@,
        }
    }

    /// What went wrong, in words.
    pub fn message(self) -> (text: &'static str)
        ensures
            text@ == self.spec_message(),
    {
        match self {
            ConfigError::ConfigValidation => "the chosen algorithms are out of range or do not fit together",
            ConfigError::UnsupportedVersion => "the repository's format version is not supported",
            ConfigError::MalformedConfig => "the repository's configuration cannot be understood",
            ConfigError::AuthenticationFailure => "the passphrase does not open the repository's key",
            ConfigError::StorageFault => "the storage failed",
            ConfigError::EngineFault => "an engine failed",
        }
    }
}

} // verus!
