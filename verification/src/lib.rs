//! The on-disk configuration of a deduplicating data store: which algorithms a
//! repository uses, where a chunk with a given digest is kept, and the order in
//! which a new configuration is brought to disk.

pub mod chunking;
pub mod commit;
pub mod compression;
pub mod decimal;
pub mod document;
pub mod encryption;
pub mod error;
pub mod hashing;
pub mod hexcode;
pub mod layout;
pub mod load;
pub mod nesting;
pub mod path;
pub mod repo;
pub mod schema;
pub mod text;

pub use chunking::Chunking;
pub use chunking::DEFAULT_BUP_CHUNK_BITS;
pub use commit::Commit;
pub use commit::CommitAction;
pub use commit::CommitEvent;
pub use commit::WriteRequest;
pub use commit::write_version_file;
pub use compression::Compression;
pub use document::Document;
pub use document::Entry;
pub use document::Field;
pub use document::Node;
pub use document::Scalar;
pub use encryption::Curve25519;
pub use encryption::Decrypter;
pub use encryption::Encrypter;
pub use encryption::Encryption;
pub use encryption::Rotation;
pub use encryption::RotationAction;
pub use encryption::RotationEvent;
pub use error::ConfigError;
pub use hashing::Hashing;
pub use layout::CONFIG_YML_FILE;
pub use layout::DATA_SUBDIR;
pub use layout::INDEX_SUBDIR;
pub use layout::LOCK_FILE;
pub use layout::NAME_SUBDIR;
pub use layout::VERSION_FILE;
pub use layout::lock_file_path;
pub use load::FileRead;
pub use load::Load;
pub use load::LoadAction;
pub use load::LoadEvent;
pub use load::Loaded;
pub use load::load;
pub use nesting::Nesting;
pub use repo::EncryptionChoice;
pub use repo::REPO_VERSION_CURRENT;
pub use repo::REPO_VERSION_LOWEST;
pub use repo::Repo;
pub use repo::Settings;
