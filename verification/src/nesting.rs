//! Where the chunk with a given digest is kept: directories named by the
//! leading bytes of the digest, so that no directory grows beyond 256 entries
//! per level.

use vstd::prelude::*;
use vstd::string::*;
use crate::error::ConfigError;
use crate::hexcode::{encode, hex_text, lemma_hex_text_chars};
use crate::path::{join, joined};

verus! {

/// The number of directory levels between the chunk directory and a chunk.
#[derive(Copy, Clone, Debug, PartialEq, Eq, Structural)]
pub struct Nesting(pub u8);

impl Default for Nesting {
    fn default() -> (nesting: Nesting)
        ensures
            nesting == Nesting(2),
    {
        Nesting(2)
    }
}

/// The `i`-th pair of digits of `hex`: the name of the directory at level `i`.
pub open spec fn digit_pair(hex: Seq<char>, i: int) -> Seq<char> {
    hex.subrange(2 * i, 2 * i + 2)
}

/// The directory reached from `base` after `levels` levels.
pub open spec fn nested_dir(base: Seq<char>, hex: Seq<char>, levels: nat) -> Seq<char>
    decreases levels,
{
    if levels == 0 {
        base
    } else {
        joined(nested_dir(base, hex, (levels - 1) as nat), digit_pair(hex, levels - 1))
    }
}

/// The names of the first `levels` directories, each followed by a `/`.
pub open spec fn fan_out(hex: Seq<char>, levels: nat) -> Seq<char>
    decreases levels,
{
    if levels == 0 {
        Seq::<char>::empty()
    } else {
        fan_out(hex, (levels - 1) as nat) + digit_pair(hex, levels - 1) + seq!['/']
    }
}

impl Nesting {
    /// Whether a digest of `digest_len` bytes has digits for every level: twice
    /// the depth is at most the length of the digest's text.
    pub open spec fn fits(self, digest_len: nat) -> bool {
        2 * self.0 <= 2 * digest_len
    }

    /// The path of the chunk with `digest` below `base`: one directory for each
    /// level, then the whole text of the digest as the file's name.
    pub open spec fn spec_path(self, base: Seq<char>, digest: Seq<u8>) -> Seq<char> {
        joined(nested_dir(base, hex_text(digest), self.0 as nat), hex_text(digest))
    }

    /// What `get_path` returns on `base` and `digest`.
    pub open spec fn derives(
        self,
        base: Seq<char>,
        digest: Seq<u8>,
        derived: Result<String, ConfigError>,
    ) -> bool {
        match derived {
            Ok(path) => self.fits(digest.len()) && path@ == self.spec_path(base, digest),
            Err(e) => !self.fits(digest.len()) && e == ConfigError::ConfigValidation,
        }
    }

    /// Whether a digest of `digest_len` bytes is long enough for this depth.
    pub fn accepts(&self, digest_len: usize) -> (ok: bool)
        ensures
            ok == self.fits(digest_len as nat),
    {
        self.0 as usize <= digest_len
    }

    /// The path below `base` of the chunk with `digest`. A digest with fewer
    /// bytes than there are levels is refused.
    pub fn get_path(&self, base: &str, digest: &[u8]) -> (derived: Result<String, ConfigError>)
        ensures
            self.derives(base@, digest@, derived),
    {
        let levels: u8 = self.0;
        if !self.accepts(digest.len()) {
            return Err(ConfigError::ConfigValidation);
        }
        let hex_digest = encode(digest);
        proof {
            lemma_hex_text_chars(digest@);
        }
        let mut dir = String::from_str(base);
        let mut i: u8 = 0;
        while i < levels
            invariant
                i <= levels,
                levels as nat <= digest@.len(),
                hex_digest@ == hex_text(digest@),
                vstd::utf8::is_ascii_chars(hex_digest@),
                dir@ == nested_dir(base@, hex_digest@, i as nat),
            decreases levels - i,
        {
            let start: usize = i as usize * 2;
            let end: usize = start + 2;
            let name = hex_digest.as_str().substring_ascii(start, end);
            dir = join(dir.as_str(), name);
            i = i + 1;
        }
        Ok(join(dir.as_str(), hex_digest.as_str()))
    }
}

/// Joining below a nested directory is appending to the base, made to end in
/// a separator, and the names of the levels.
proof fn lemma_nested_dir_joined(base: Seq<char>, digest: Seq<u8>, levels: nat, name: Seq<char>)
    requires
        levels <= digest.len(),
    ensures
        joined(nested_dir(base, hex_text(digest), levels), name) == joined(base, Seq::empty())
            + fan_out(hex_text(digest), levels) + name,
        fan_out(hex_text(digest), levels).len() == 3 * levels,
    decreases levels,
{
    let hex = hex_text(digest);
    let stem = joined(base, Seq::empty());
    if levels == 0 {
        assert(joined(base, name) =~= stem + fan_out(hex, 0) + name);
    } else {
        let k = (levels - 1) as nat;
        let pair = digit_pair(hex, k as int);
        lemma_nested_dir_joined(base, digest, k, pair);
        lemma_hex_text_chars(digest);
        let dir = nested_dir(base, hex, levels);
        assert(dir == stem + fan_out(hex, k) + pair);
        assert(pair.len() == 2);
        assert(dir.last() == pair[1]);
        assert(pair[1] == hex[2 * (k as int) + 1]);
        assert(joined(dir, name) =~= stem + fan_out(hex, levels) + name);
    }
}

/// The levels of a fan-out stand three characters apart: two digits of the
/// digest's text and a separator.
proof fn lemma_fan_out_at(hex: Seq<char>, levels: nat, i: int)
    requires
        2 * levels <= hex.len(),
        0 <= i < levels,
    ensures
        fan_out(hex, levels).len() == 3 * levels,
        fan_out(hex, levels).subrange(3 * i, 3 * i + 2) == digit_pair(hex, i),
        fan_out(hex, levels)[3 * i + 2] == '/',
    decreases levels,
{
    let k = (levels - 1) as nat;
    lemma_fan_out_len(hex, k);
    if i < k {
        lemma_fan_out_at(hex, k, i);
        assert(fan_out(hex, levels).subrange(3 * i, 3 * i + 2) =~= fan_out(hex, k).subrange(
            3 * i,
            3 * i + 2,
        ));
    } else {
        assert(fan_out(hex, levels).subrange(3 * i, 3 * i + 2) =~= digit_pair(hex, i));
    }
}

proof fn lemma_fan_out_len(hex: Seq<char>, levels: nat)
    requires
        2 * levels <= hex.len(),
    ensures
        fan_out(hex, levels).len() == 3 * levels,
    decreases levels,
{
    if levels > 0 {
        lemma_fan_out_len(hex, (levels - 1) as nat);
    }
}

/// The shape of a derived path. After the base (made to end in a separator)
/// comes one directory for each level, named by the next two digits of the
/// digest's text and closed by a separator; the rest of the path is the whole
/// text of the digest, which holds no separator and so is the file's name.
pub proof fn lemma_path_shape(nesting: Nesting, base: Seq<char>, digest: Seq<u8>)
    requires
        nesting.fits(digest.len()),
    ensures
        ({
            let hex = hex_text(digest);
            let path = nesting.spec_path(base, digest);
            let stem = joined(base, Seq::empty());
            &&& hex.len() == 2 * digest.len()
            &&& path.len() == stem.len() + 3 * nesting.0 + hex.len()
            &&& path.subrange(0, stem.len() as int) == stem
            &&& forall|i: int|
                0 <= i < nesting.0 ==> {
                    &&& #[trigger] path.subrange(stem.len() + 3 * i, stem.len() + 3 * i + 2)
                        == digit_pair(hex, i)
                    &&& path[stem.len() + 3 * i + 2] == '/'
                }
            &&& path.subrange(path.len() - hex.len(), path.len() as int) == hex
            &&& forall|j: int| 0 <= j < hex.len() ==> hex[j] != '/'
        }),
{
    let hex = hex_text(digest);
    let path = nesting.spec_path(base, digest);
    let stem = joined(base, Seq::empty());
    let levels = nesting.0 as nat;
    let fan = fan_out(hex, levels);
    lemma_nested_dir_joined(base, digest, levels, hex);
    lemma_hex_text_chars(digest);
    assert(path == stem + fan + hex);
    assert(path.subrange(0, stem.len() as int) =~= stem);
    assert(path.subrange(path.len() - hex.len(), path.len() as int) =~= hex);
    assert forall|i: int| 0 <= i < nesting.0 implies {
        &&& #[trigger] path.subrange(stem.len() + 3 * i, stem.len() + 3 * i + 2) == digit_pair(
            hex,
            i,
        )
        &&& path[stem.len() + 3 * i + 2] == '/'
    } by {
        lemma_fan_out_at(hex, levels, i);
        assert(path.subrange(stem.len() + 3 * i, stem.len() + 3 * i + 2) =~= fan.subrange(
            3 * i,
            3 * i + 2,
        ));
        assert(path[stem.len() + 3 * i + 2] == fan[3 * i + 2]);
    }
}

/// Deriving a path is a function of the depth, the base and the digest: two
/// derivations on the same three agree, in success and in failure.
pub proof fn lemma_path_deterministic(
    nesting: Nesting,
    base: Seq<char>,
    digest: Seq<u8>,
    first: Result<String, ConfigError>,
    second: Result<String, ConfigError>,
)
    requires
        nesting.derives(base, digest, first),
        nesting.derives(base, digest, second),
    ensures
        first is Ok <==> second is Ok,
        first is Ok ==> first.unwrap()@ == second.unwrap()@,
        first is Err ==> first.unwrap_err() == second.unwrap_err(),
{
}

} // verus!
