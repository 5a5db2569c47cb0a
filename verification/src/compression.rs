//! How chunks are compressed before they are stored.

use vstd::prelude::*;
use crate::text::same_text;

verus! {

/// The compression algorithms a repository can name.
#[derive(Copy, Clone, Debug, PartialEq, Eq, Structural)]
pub enum Compression {
    Deflate,
    Xz2,
    Bzip2,
    Zstd,
    /// Chunks are stored as they are.
    NoCompression,
}

impl Default for Compression {
    fn default() -> (c: Compression)
        ensures
            c == Compression::Deflate,
    {
        Compression::Deflate
    }
}

impl Compression {
    /// The name under which the algorithm stands in a stored configuration.
    pub open spec fn spec_name(self) -> Seq<char> {
        match self {
            Compression::Deflate => "deflate"@,
            Compression::Xz2 => "xz2"@,
            Compression::Bzip2 => "bzip2"@,
            Compression::Zstd => "zstd"@,
            Compression::NoCompression => "none"@,
        }
    }

    /// The algorithm that a name stands for, if it is one of the five.
    pub open spec fn spec_from_name(name: Seq<char>) -> Option<Compression> {
        if name == "deflate"@ {
            Some(Compression::Deflate)
        } else if name == "xz2"@ {
            Some(Compression::Xz2)
        } else if name == "bzip2"@ {
            Some(Compression::Bzip2)
        } else if name == "zstd"@ {
            Some(Compression::Zstd)
        } else if name == "none"@ {
            Some(Compression::NoCompression)
        } else {
            None
        }
    }

    /// The name under which the algorithm stands in a stored configuration.
    pub fn name(self) -> (name: &'static str)
        ensures
            name@ == self.spec_name(),
    {
        match self {
            Compression::Deflate => "deflate",
            Compression::Xz2 => "xz2",
            Compression::Bzip2 => "bzip2",
            Compression::Zstd => "zstd",
            Compression::NoCompression => "none",
        }
    }

    /// The algorithm with the given name; `None` for any other text.
    pub fn from_name(name: &str) -> (found: Option<Compression>)
        ensures
            found == Compression::spec_from_name(name@),
    {
        if same_text(name, "deflate") {
            Some(Compression::Deflate)
        } else if same_text(name, "xz2") {
            Some(Compression::Xz2)
        } else if same_text(name, "bzip2") {
            Some(Compression::Bzip2)
        } else if same_text(name, "zstd") {
            Some(Compression::Zstd)
        } else if same_text(name, "none") {
            Some(Compression::NoCompression)
        } else {
            None
        }
    }

    /// Every algorithm is found again under its own name.
    pub proof fn lemma_name_round_trip(self)
        ensures
            Compression::spec_from_name(self.spec_name()) == Some(self),
    {
        reveal_strlit("deflate");
        reveal_strlit("xz2");
        reveal_strlit("bzip2");
        reveal_strlit("zstd");
        reveal_strlit("none");
        assert("deflate"@.len() == 7 && "xz2"@.len() == 3 && "bzip2"@.len() == 5);
        assert("zstd"@.len() == 4 && "zstd"@[0] == 'z');
        assert("none"@.len() == 4 && "none"@[0] == 'n');
    }
}

} // verus!
