//! The configuration of a repository: the one place that says how its bytes
//! are produced and read.

use vstd::prelude::*;
use crate::chunking::Chunking;
use crate::compression::Compression;
use crate::encryption::{Curve25519, Encryption, EncryptionView};
use crate::error::ConfigError;
use crate::hashing::Hashing;
use crate::nesting::Nesting;

verus! {

/// The oldest format version that is read.
pub const REPO_VERSION_LOWEST: u32 = 0;

/// The format version that is written.
pub const REPO_VERSION_CURRENT: u32 = 1;

/// The configuration of a repository.
#[derive(Debug, PartialEq, Eq)]
pub struct Repo {
    pub version: u32,
    pub chunking: Chunking,
    pub encryption: Encryption,
    pub compression: Compression,
    pub nesting: Nesting,
    pub hashing: Hashing,
}

/// What a `Repo` holds.
pub struct RepoView {
    pub version: u32,
    pub chunking: Chunking,
    pub encryption: EncryptionView,
    pub compression: Compression,
    pub nesting: Nesting,
    pub hashing: Hashing,
}

/// Whether a new repository is to have a key pair.
#[derive(Copy, Clone, Debug, PartialEq, Eq, Structural)]
pub enum EncryptionChoice {
    NoEncryption,
    Curve25519,
}

/// The choices made for a new repository.
#[derive(Copy, Clone, Debug, PartialEq, Eq, Structural)]
pub struct Settings {
    pub encryption: EncryptionChoice,
    pub chunking: Chunking,
    pub compression: Compression,
    pub nesting: Nesting,
    pub hashing: Hashing,
}

impl View for Repo {
    type V = RepoView;

    open spec fn view(&self) -> RepoView {
        RepoView {
            version: self.version,
            chunking: self.chunking,
            encryption: self.encryption@,
            compression: self.compression,
            nesting: self.nesting,
            hashing: self.hashing,
        }
    }
}

impl Clone for Repo {
    fn clone(&self) -> (copy: Repo)
        ensures
            copy@ == self@,
    {
        Repo {
            version: self.version,
            chunking: self.chunking,
            encryption: self.encryption.clone(),
            compression: self.compression,
            nesting: self.nesting,
            hashing: self.hashing,
        }
    }
}

/// Whether the chunking's bit width is in range and every digest of the
/// hashing has digits for every level of the nesting.
pub open spec fn choices_fit(chunking: Chunking, nesting: Nesting, hashing: Hashing) -> bool {
    chunking.spec_valid() && nesting.fits(hashing.spec_digest_len())
}

impl RepoView {
    /// Whether the format version is one that is read.
    pub open spec fn version_supported(self) -> bool {
        REPO_VERSION_LOWEST <= self.version <= REPO_VERSION_CURRENT
    }

    /// Whether the algorithms fit their ranges and each other.
    pub open spec fn consistent(self) -> bool {
        choices_fit(self.chunking, self.nesting, self.hashing)
    }

    /// Whether the configuration may be used: both of the above.
    pub open spec fn usable(self) -> bool {
        self.version_supported() && self.consistent()
    }

    /// What `Repo::validate` returns.
    pub open spec fn checked(self) -> Result<(), ConfigError> {
        if !self.version_supported() {
            Err(ConfigError::UnsupportedVersion)
        } else if !self.consistent() {
            Err(ConfigError::ConfigValidation)
        } else {
            Ok(())
        }
    }
}

/// A result with the view of the configuration in place of the configuration.
pub open spec fn viewed(made: Result<Repo, ConfigError>) -> Result<RepoView, ConfigError> {
    match made {
        Ok(repo) => Ok(repo@),
        Err(e) => Err(e),
    }
}

/// The configuration that the choices make, or why they make none: choices
/// that do not fit are refused, a key pair that was asked for has to be there,
/// and the result carries the current format version.
pub open spec fn assembled(keys: Option<Curve25519>, settings: Settings) -> Result<
    RepoView,
    ConfigError,
> {
    if !choices_fit(settings.chunking, settings.nesting, settings.hashing) {
        Err(ConfigError::ConfigValidation)
    } else if settings.encryption == EncryptionChoice::Curve25519 && keys is None {
        Err(ConfigError::EngineFault)
    } else {
        Ok(
            RepoView {
                version: REPO_VERSION_CURRENT,
                chunking: settings.chunking,
                encryption: match settings.encryption {
                    EncryptionChoice::NoEncryption => EncryptionView::NoEncryption,
                    EncryptionChoice::Curve25519 => EncryptionView::Curve25519(keys.unwrap()@),
                },
                compression: settings.compression,
                nesting: settings.nesting,
                hashing: settings.hashing,
            },
        )
    }
}

impl Repo {
    /// The configuration of a new repository. `keys` is the key pair that the
    /// key engine made and sealed under the passphrase; it is looked at only
    /// where the settings ask for encryption.
    pub fn new_from_settings(keys: Option<Curve25519>, settings: Settings) -> (made: Result<
        Repo,
        ConfigError,
    >)
        ensures
            viewed(made) == assembled(keys, settings),
    {
        if !settings.chunking.valid() || !settings.nesting.accepts(settings.hashing.digest_len()) {
            return Err(ConfigError::ConfigValidation);
        }
        let encryption = match settings.encryption {
            EncryptionChoice::NoEncryption => Encryption::NoEncryption,
            EncryptionChoice::Curve25519 => match keys {
                Some(pair) => Encryption::Curve25519(pair),
                None => {
                    return Err(ConfigError::EngineFault);
                },
            },
        };
        Ok(
            Repo {
                version: REPO_VERSION_CURRENT,
                chunking: settings.chunking,
                encryption,
                compression: settings.compression,
                nesting: settings.nesting,
                hashing: settings.hashing,
            },
        )
    }

    /// Whether this configuration may be used: its version is one that is
    /// read, and its algorithms fit their ranges and each other.
    pub fn validate(&self) -> (checked: Result<(), ConfigError>)
        ensures
            checked == self@.checked(),
    {
        if self.version < REPO_VERSION_LOWEST || self.version > REPO_VERSION_CURRENT {
            Err(ConfigError::UnsupportedVersion)
        } else if !self.chunking.valid() || !self.nesting.accepts(self.hashing.digest_len()) {
            Err(ConfigError::ConfigValidation)
        } else {
            Ok(())
        }
    }
}

/// A configuration made from settings is always one that may be used.
pub proof fn lemma_assembled_is_valid(keys: Option<Curve25519>, settings: Settings)
    ensures
        assembled(keys, settings) matches Ok(repo) ==> repo.usable() && repo.version
            == REPO_VERSION_CURRENT,
{
}

/// A configuration may be used just when `Repo::validate` accepts it.
pub proof fn lemma_usable_is_checked(repo: RepoView)
    ensures
        repo.usable() <==> repo.checked() is Ok,
{
}

/// A configuration whose version is one beyond the current one is refused as
/// unsupported, whatever else it holds.
pub proof fn lemma_next_version_unsupported(repo: RepoView)
    requires
        repo.version == REPO_VERSION_CURRENT + 1,
    ensures
        repo.checked() == Err::<(), ConfigError>(ConfigError::UnsupportedVersion),
{
}

} // verus!
