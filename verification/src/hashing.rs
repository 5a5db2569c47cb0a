//! How the digest of a chunk is computed.

use vstd::prelude::*;
use crate::text::same_text;

verus! {

/// The hashing algorithms a repository can name.
#[derive(Copy, Clone, Debug, PartialEq, Eq, Structural)]
pub enum Hashing {
    Sha256,
    Blake2b,
}

impl Default for Hashing {
    fn default() -> (h: Hashing)
        ensures
            h == Hashing::Sha256,
    {
        Hashing::Sha256
    }
}

impl Hashing {
    /// The number of bytes in a digest of this algorithm.
    pub open spec fn spec_digest_len(self) -> nat {
        match self {
            Hashing::Sha256 => 32,
            Hashing::Blake2b => 64,
        }
    }

    /// The name under which the algorithm stands in a stored configuration.
    pub open spec fn spec_name(self) -> Seq<char> {
        match self {
            Hashing::Sha256 => "sha256"@,
            Hashing::Blake2b => "blake2b"@,
        }
    }

    /// The algorithm that a name stands for, if it is one of the two.
    pub open spec fn spec_from_name(name: Seq<char>) -> Option<Hashing> {
        if name == "sha256"@ {
            Some(Hashing::Sha256)
        } else if name == "blake2b"@ {
            Some(Hashing::Blake2b)
        } else {
            None
        }
    }

    /// The number of bytes in a digest of this algorithm.
    pub fn digest_len(self) -> (len: usize)
        ensures
            len == self.spec_digest_len(),
    {
        match self {
            Hashing::Sha256 => 32,
            Hashing::Blake2b => 64,
        }
    }

    /// The name under which the algorithm stands in a stored configuration.
    pub fn name(self) -> (name: &'static str)
        ensures
            name@ == self.spec_name(),
    {
        match self {
            Hashing::Sha256 => "sha256",
            Hashing::Blake2b => "blake2b",
        }
    }

    /// The algorithm with the given name; `None` for any other text.
    pub fn from_name(name: &str) -> (found: Option<Hashing>)
        ensures
            found == Hashing::spec_from_name(name@),
    {
        if same_text(name, "sha256") {
            Some(Hashing::Sha256)
        } else if same_text(name, "blake2b") {
            Some(Hashing::Blake2b)
        } else {
            None
        }
    }

    /// Every algorithm is found again under its own name.
    pub proof fn lemma_name_round_trip(self)
        ensures
            Hashing::spec_from_name(self.spec_name()) == Some(self),
    {
        reveal_strlit("sha256");
        reveal_strlit("blake2b");
        assert("sha256"@.len() == 6 && "blake2b"@.len() == 7);
    }
}

} // verus!
