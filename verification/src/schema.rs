//! The stored form of a configuration: under which names its parts stand in a
//! document, what is assumed where a part is left out, and what is refused.

use vstd::prelude::*;
use vstd::string::*;
use crate::chunking::{Chunking, DEFAULT_BUP_CHUNK_BITS};
use crate::compression::Compression;
use crate::document::{
    field_of, fields_view, find_field, lemma_field_at, lemma_node_at, node_of, Document, Entry,
    EntryView, Field, FieldView, Node, NodeView, Scalar, ScalarView,
};
use crate::encryption::{Curve25519, Curve25519View, Encryption, EncryptionView};
use crate::error::ConfigError;
use crate::hashing::Hashing;
use crate::hexcode::{
    decode, encode, hex_bytes, hex_decodable, hex_text, lemma_hex_round_trip,
};
use crate::nesting::Nesting;
use crate::repo::{viewed, Repo, RepoView, REPO_VERSION_CURRENT, REPO_VERSION_LOWEST};
use crate::text::same_text;

verus! {

/// The text under `name` in a table, if a text stands there.
pub open spec fn text_of(fields: Seq<FieldView>, name: Seq<char>) -> Option<Seq<char>> {
    match field_of(fields, name) {
        Some(ScalarView::Text(text)) => Some(text),
        _ => None,
    }
}

/// The number under `name` in a table, if a number stands there.
pub open spec fn int_of(fields: Seq<FieldView>, name: Seq<char>) -> Option<u64> {
    match field_of(fields, name) {
        Some(ScalarView::Int(n)) => Some(n),
        _ => None,
    }
}

/// The variant that a table names: the text under `type`.
pub open spec fn tag_of(fields: Seq<FieldView>) -> Option<Seq<char>> {
    text_of(fields, "type"@)
}

/// A table that names a variant and nothing else.
pub open spec fn tag_only(tag: Seq<char>) -> Seq<FieldView> {
    seq![FieldView { name: "type"@, value: ScalarView::Text(tag) }]
}

/// The format version of a document: a number under `version` that fits 32
/// bits. It has to be there.
pub open spec fn version_in(doc: Seq<EntryView>) -> Option<u32> {
    match node_of(doc, "version"@) {
        Some(NodeView::Scalar(ScalarView::Int(n))) => if n <= u32::MAX {
            Some(n as u32)
        } else {
            None
        },
        _ => None,
    }
}

/// The chunking that a table describes: `bup` or `gear` with its `chunk_bits`.
pub open spec fn chunking_from(fields: Seq<FieldView>) -> Option<Chunking> {
    match (tag_of(fields), int_of(fields, "chunk_bits"@)) {
        (Some(tag), Some(bits)) => if bits > u32::MAX {
            None
        } else if tag == "bup"@ {
            Some(Chunking::Bup { chunk_bits: bits as u32 })
        } else if tag == "gear"@ {
            Some(Chunking::Gear { chunk_bits: bits as u32 })
        } else {
            None
        },
        _ => None,
    }
}

/// The chunking of a document; where none is named, `bup` with its default
/// width.
pub open spec fn chunking_in(doc: Seq<EntryView>) -> Option<Chunking> {
    match node_of(doc, "chunking"@) {
        None => Some(Chunking::Bup { chunk_bits: DEFAULT_BUP_CHUNK_BITS }),
        Some(NodeView::Table(fields)) => chunking_from(fields),
        Some(NodeView::Scalar(_)) => None,
    }
}

/// The encryption that a table describes: `none`, or a key pair with both
/// keys as hexadecimal text.
pub open spec fn encryption_from(fields: Seq<FieldView>) -> Option<EncryptionView> {
    match tag_of(fields) {
        Some(tag) => if tag == "none"@ {
            Some(EncryptionView::NoEncryption)
        } else if tag == "curve25519_blake2b_salsa20_poly1305"@ {
            match (text_of(fields, "sealed_sec_key"@), text_of(fields, "pub_key"@)) {
                (Some(sealed), Some(public)) => if hex_decodable(sealed) && hex_decodable(public) {
                    Some(
                        EncryptionView::Curve25519(
                            Curve25519View {
                                sealed_sec_key: hex_bytes(sealed),
                                pub_key: hex_bytes(public),
                            },
                        ),
                    )
                } else {
                    None
                },
                _ => None,
            }
        } else {
            None
        },
        None => None,
    }
}

/// The encryption of a document. It has to be named.
pub open spec fn encryption_in(doc: Seq<EntryView>) -> Option<EncryptionView> {
    match node_of(doc, "encryption"@) {
        Some(NodeView::Table(fields)) => encryption_from(fields),
        _ => None,
    }
}

/// The compression of a document; where none is named, `deflate`.
pub open spec fn compression_in(doc: Seq<EntryView>) -> Option<Compression> {
    match node_of(doc, "compression"@) {
        None => Some(Compression::Deflate),
        Some(NodeView::Table(fields)) => match tag_of(fields) {
            Some(tag) => Compression::spec_from_name(tag),
            None => None,
        },
        Some(NodeView::Scalar(_)) => None,
    }
}

/// The nesting of a document: a number under `nesting` that fits 8 bits;
/// where none stands, two levels.
pub open spec fn nesting_in(doc: Seq<EntryView>) -> Option<Nesting> {
    match node_of(doc, "nesting"@) {
        None => Some(Nesting(2)),
        Some(NodeView::Scalar(ScalarView::Int(n))) => if n <= u8::MAX {
            Some(Nesting(n as u8))
        } else {
            None
        },
        _ => None,
    }
}

/// The hashing of a document; where none is named, `sha256`.
pub open spec fn hashing_in(doc: Seq<EntryView>) -> Option<Hashing> {
    match node_of(doc, "hashing"@) {
        None => Some(Hashing::Sha256),
        Some(NodeView::Table(fields)) => match tag_of(fields) {
            Some(tag) => Hashing::spec_from_name(tag),
            None => None,
        },
        Some(NodeView::Scalar(_)) => None,
    }
}

/// The configuration that a document stands for, or why it stands for none.
///
/// The version is read first: without one the document is malformed, and with
/// one outside the supported range it is refused as unsupported whatever else
/// it holds. After that, a part that is misshaped or names an unknown
/// variant, a missing encryption, a bit width out of range or a nesting too
/// deep for the hashing make the document malformed.
pub open spec fn parsed(doc: Seq<EntryView>) -> Result<RepoView, ConfigError> {
    match version_in(doc) {
        None => Err(ConfigError::MalformedConfig),
        Some(version) => if !(REPO_VERSION_LOWEST <= version <= REPO_VERSION_CURRENT) {
            Err(ConfigError::UnsupportedVersion)
        } else {
            match (
                chunking_in(doc),
                encryption_in(doc),
                compression_in(doc),
                nesting_in(doc),
                hashing_in(doc),
            ) {
                (
                    Some(chunking),
                    Some(encryption),
                    Some(compression),
                    Some(nesting),
                    Some(hashing),
                ) => {
                    let repo = RepoView {
                        version,
                        chunking,
                        encryption,
                        compression,
                        nesting,
                        hashing,
                    };
                    if repo.consistent() {
                        Ok(repo)
                    } else {
                        Err(ConfigError::MalformedConfig)
                    }
                },
                _ => Err(ConfigError::MalformedConfig),
            }
        },
    }
}

/// The table that describes a chunking.
pub open spec fn chunking_fields(chunking: Chunking) -> Seq<FieldView> {
    seq![
        FieldView {
            name: "type"@,
            value: ScalarView::Text(
                match chunking {
                    Chunking::Bup { .. } => "bup"@,
                    Chunking::Gear { .. } => "gear"@,
                },
            ),
        },
        FieldView { name: "chunk_bits"@, value: ScalarView::Int(chunking.bits() as u64) },
    ]
}

/// The table that describes an encryption.
pub open spec fn encryption_fields(encryption: EncryptionView) -> Seq<FieldView> {
    match encryption {
        EncryptionView::NoEncryption => tag_only(encryption.name()),
        EncryptionView::Curve25519(keys) => seq![
            FieldView { name: "type"@, value: ScalarView::Text(encryption.name()) },
            FieldView {
                name: "sealed_sec_key"@,
                value: ScalarView::Text(hex_text(keys.sealed_sec_key)),
            },
            FieldView { name: "pub_key"@, value: ScalarView::Text(hex_text(keys.pub_key)) },
        ],
    }
}

/// The document that a configuration is stored as: every part under its name,
/// in the order version, chunking, encryption, compression, nesting, hashing.
pub open spec fn rendered(repo: RepoView) -> Seq<EntryView> {
    seq![
        EntryView {
            name: "version"@,
            node: NodeView::Scalar(ScalarView::Int(repo.version as u64)),
        },
        EntryView { name: "chunking"@, node: NodeView::Table(chunking_fields(repo.chunking)) },
        EntryView {
            name: "encryption"@,
            node: NodeView::Table(encryption_fields(repo.encryption)),
        },
        EntryView {
            name: "compression"@,
            node: NodeView::Table(tag_only(repo.compression.spec_name())),
        },
        EntryView {
            name: "nesting"@,
            node: NodeView::Scalar(ScalarView::Int(repo.nesting.0 as u64)),
        },
        EntryView { name: "hashing"@, node: NodeView::Table(tag_only(repo.hashing.spec_name())) },
    ]
}

/// The text under `name` in a table, if a text stands there.
fn find_text<'a>(fields: &'a Vec<Field>, name: &str) -> (found: Option<&'a String>)
    ensures
        match found {
            Some(text) => text_of(fields_view(fields@), name@) == Some(text@),
            None => text_of(fields_view(fields@), name@) is None,
        },
{
    match find_field(fields, name) {
        Some(Scalar::Text(text)) => Some(text),
        _ => None,
    }
}

/// The number under `name` in a table, if a number stands there.
fn find_int(fields: &Vec<Field>, name: &str) -> (found: Option<u64>)
    ensures
        found == int_of(fields_view(fields@), name@),
{
    match find_field(fields, name) {
        Some(Scalar::Int(n)) => Some(*n),
        _ => None,
    }
}

/// A field with the given name and text.
fn text_field(name: &str, text: &str) -> (field: Field)
    ensures
        field@ == (FieldView { name: name@, value: ScalarView::Text(text@) }),
{
    Field { name: String::from_str(name), value: Scalar::Text(String::from_str(text)) }
}

/// A table that names a variant and nothing else.
fn tag_table(tag: &str) -> (node: Node)
    ensures
        node@ == NodeView::Table(tag_only(tag@)),
{
    let fields = vec![text_field("type", tag)];
    proof {
        assert(fields_view(fields@) =~= tag_only(tag@));
    }
    Node::Table(fields)
}

/// An entry with the given name and node.
fn entry(name: &str, node: Node) -> (made: Entry)
    ensures
        made@ == (EntryView { name: name@, node: node@ }),
{
    Entry { name: String::from_str(name), node }
}

fn read_version(doc: &Document) -> (found: Option<u32>)
    ensures
        found == version_in(doc@),
{
    match doc.find("version") {
        Some(Node::Scalar(Scalar::Int(n))) => if *n <= u32::MAX as u64 {
            Some(*n as u32)
        } else {
            None
        },
        _ => None,
    }
}

fn read_chunking(doc: &Document) -> (found: Option<Chunking>)
    ensures
        found == chunking_in(doc@),
{
    match doc.find("chunking") {
        None => Some(Chunking::Bup { chunk_bits: DEFAULT_BUP_CHUNK_BITS }),
        Some(Node::Scalar(_)) => None,
        Some(Node::Table(fields)) => {
            let tag = find_text(fields, "type");
            let bits = find_int(fields, "chunk_bits");
            match (tag, bits) {
                (Some(tag), Some(bits)) => if bits > u32::MAX as u64 {
                    None
                } else if same_text(tag.as_str(), "bup") {
                    Some(Chunking::Bup { chunk_bits: bits as u32 })
                } else if same_text(tag.as_str(), "gear") {
                    Some(Chunking::Gear { chunk_bits: bits as u32 })
                } else {
                    None
                },
                _ => None,
            }
        },
    }
}

/// The bytes that a hexadecimal text stands for, if it stands for any.
fn read_hex(text: &str) -> (found: Option<Vec<u8>>)
    ensures
        match found {
            Some(bytes) => hex_decodable(text@) && bytes@ == hex_bytes(text@),
            None => !hex_decodable(text@),
        },
{
    match decode(text) {
        Ok(bytes) => Some(bytes),
        Err(_) => None,
    }
}

fn read_keys(fields: &Vec<Field>) -> (found: Option<Curve25519>)
    ensures
        match (
            text_of(fields_view(fields@), "sealed_sec_key"@),
            text_of(fields_view(fields@), "pub_key"@),
        ) {
            (Some(sealed), Some(public)) => if hex_decodable(sealed) && hex_decodable(public) {
                found matches Some(keys) && keys@ == (Curve25519View {
                    sealed_sec_key: hex_bytes(sealed),
                    pub_key: hex_bytes(public),
                })
            } else {
                found is None
            },
            _ => found is None,
        },
{
    let sealed = find_text(fields, "sealed_sec_key");
    let public = find_text(fields, "pub_key");
    match (sealed, public) {
        (Some(sealed), Some(public)) => {
            match (read_hex(sealed.as_str()), read_hex(public.as_str())) {
                (Some(sealed_sec_key), Some(pub_key)) => Some(
                    Curve25519 { sealed_sec_key, pub_key },
                ),
                _ => None,
            }
        },
        _ => None,
    }
}

fn read_encryption(doc: &Document) -> (found: Option<Encryption>)
    ensures
        match found {
            Some(encryption) => encryption_in(doc@) == Some(encryption@),
            None => encryption_in(doc@) is None,
        },
{
    match doc.find("encryption") {
        Some(Node::Table(fields)) => match find_text(fields, "type") {
            Some(tag) => if same_text(tag.as_str(), "none") {
                Some(Encryption::NoEncryption)
            } else if same_text(tag.as_str(), "curve25519_blake2b_salsa20_poly1305") {
                match read_keys(fields) {
                    Some(keys) => Some(Encryption::Curve25519(keys)),
                    None => None,
                }
            } else {
                None
            },
            None => None,
        },
        _ => None,
    }
}

fn read_compression(doc: &Document) -> (found: Option<Compression>)
    ensures
        found == compression_in(doc@),
{
    match doc.find("compression") {
        None => Some(Compression::Deflate),
        Some(Node::Scalar(_)) => None,
        Some(Node::Table(fields)) => match find_text(fields, "type") {
            Some(tag) => Compression::from_name(tag.as_str()),
            None => None,
        },
    }
}

fn read_nesting(doc: &Document) -> (found: Option<Nesting>)
    ensures
        found == nesting_in(doc@),
{
    match doc.find("nesting") {
        None => Some(Nesting(2)),
        Some(Node::Scalar(Scalar::Int(n))) => if *n <= u8::MAX as u64 {
            Some(Nesting(*n as u8))
        } else {
            None
        },
        _ => None,
    }
}

fn read_hashing(doc: &Document) -> (found: Option<Hashing>)
    ensures
        found == hashing_in(doc@),
{
    match doc.find("hashing") {
        None => Some(Hashing::Sha256),
        Some(Node::Scalar(_)) => None,
        Some(Node::Table(fields)) => match find_text(fields, "type") {
            Some(tag) => Hashing::from_name(tag.as_str()),
            None => None,
        },
    }
}

impl Repo {
    /// The document that this configuration is stored as.
    pub fn to_document(&self) -> (doc: Document)
        ensures
            doc@ == rendered(self@),
    {
        let chunking_tag = match self.chunking {
            Chunking::Bup { .. } => "bup",
            Chunking::Gear { .. } => "gear",
        };
        let chunking = vec![
            text_field("type", chunking_tag),
            Field {
                name: String::from_str("chunk_bits"),
                value: Scalar::Int(self.chunking.chunk_bits() as u64),
            },
        ];
        let encryption = match &self.encryption {
            Encryption::NoEncryption => vec![text_field("type", self.encryption.name())],
            Encryption::Curve25519(keys) => {
                let sealed = encode(keys.sealed_sec_key.as_slice());
                let public = encode(keys.pub_key.as_slice());
                vec![
                    text_field("type", self.encryption.name()),
                    text_field("sealed_sec_key", sealed.as_str()),
                    text_field("pub_key", public.as_str()),
                ]
            },
        };
        proof {
            assert(fields_view(chunking@) =~= chunking_fields(self.chunking));
            assert(fields_view(encryption@) =~= encryption_fields(self.encryption@));
        }
        let entries = vec![
            entry("version", Node::Scalar(Scalar::Int(self.version as u64))),
            entry("chunking", Node::Table(chunking)),
            entry("encryption", Node::Table(encryption)),
            entry("compression", tag_table(self.compression.name())),
            entry("nesting", Node::Scalar(Scalar::Int(self.nesting.0 as u64))),
            entry("hashing", tag_table(self.hashing.name())),
        ];
        let doc = Document { entries };
        proof {
            assert(doc@ =~= rendered(self@));
        }
        doc
    }

    /// The configuration that a document stands for.
    pub fn from_document(doc: &Document) -> (read: Result<Repo, ConfigError>)
        ensures
            viewed(read) == parsed(doc@),
    {
        let version = match read_version(doc) {
            Some(version) => version,
            None => {
                return Err(ConfigError::MalformedConfig);
            },
        };
        if version < REPO_VERSION_LOWEST || version > REPO_VERSION_CURRENT {
            return Err(ConfigError::UnsupportedVersion);
        }
        let chunking = read_chunking(doc);
        let encryption = read_encryption(doc);
        let compression = read_compression(doc);
        let nesting = read_nesting(doc);
        let hashing = read_hashing(doc);
        match (chunking, encryption, compression, nesting, hashing) {
            (Some(chunking), Some(encryption), Some(compression), Some(nesting), Some(hashing)) => {
                if chunking.valid() && nesting.accepts(hashing.digest_len()) {
                    Ok(Repo { version, chunking, encryption, compression, nesting, hashing })
                } else {
                    Err(ConfigError::MalformedConfig)
                }
            },
            _ => Err(ConfigError::MalformedConfig),
        }
    }
}

/// What the names of the entries and fields are made of, as far as telling
/// them apart takes.
proof fn lemma_names()
    ensures
        "version"@.len() == 7 && "version"@[0] == 'v',
        "chunking"@.len() == 8,
        "encryption"@.len() == 10,
        "compression"@.len() == 11,
        "nesting"@.len() == 7 && "nesting"@[0] == 'n',
        "hashing"@.len() == 7 && "hashing"@[0] == 'h',
        "type"@.len() == 4,
        "chunk_bits"@.len() == 10,
        "sealed_sec_key"@.len() == 14,
        "pub_key"@.len() == 7,
        "bup"@.len() == 3,
        "gear"@.len() == 4,
        "none"@.len() == 4,
        "curve25519_blake2b_salsa20_poly1305"@.len() == 35,
{
    reveal_strlit("version");
    reveal_strlit("chunking");
    reveal_strlit("encryption");
    reveal_strlit("compression");
    reveal_strlit("nesting");
    reveal_strlit("hashing");
    reveal_strlit("type");
    reveal_strlit("chunk_bits");
    reveal_strlit("sealed_sec_key");
    reveal_strlit("pub_key");
    reveal_strlit("bup");
    reveal_strlit("gear");
    reveal_strlit("none");
    reveal_strlit("curve25519_blake2b_salsa20_poly1305");
}

/// Every part of a written configuration is read back as it was.
proof fn lemma_parts_read_back(repo: RepoView)
    ensures
        version_in(rendered(repo)) == Some(repo.version),
        chunking_in(rendered(repo)) == Some(repo.chunking),
        encryption_in(rendered(repo)) == Some(repo.encryption),
        compression_in(rendered(repo)) == Some(repo.compression),
        nesting_in(rendered(repo)) == Some(repo.nesting),
        hashing_in(rendered(repo)) == Some(repo.hashing),
{
    let doc = rendered(repo);
    lemma_names();
    lemma_node_at(doc, "version"@, 0, 0);
    lemma_node_at(doc, "chunking"@, 1, 0);
    lemma_node_at(doc, "encryption"@, 2, 0);
    lemma_node_at(doc, "compression"@, 3, 0);
    lemma_node_at(doc, "nesting"@, 4, 0);
    lemma_node_at(doc, "hashing"@, 5, 0);

    let chunking = chunking_fields(repo.chunking);
    lemma_field_at(chunking, "type"@, 0, 0);
    lemma_field_at(chunking, "chunk_bits"@, 1, 0);

    let encryption = encryption_fields(repo.encryption);
    lemma_field_at(encryption, "type"@, 0, 0);
    match repo.encryption {
        EncryptionView::NoEncryption => {},
        EncryptionView::Curve25519(keys) => {
            lemma_field_at(encryption, "sealed_sec_key"@, 1, 0);
            lemma_field_at(encryption, "pub_key"@, 2, 0);
            lemma_hex_round_trip(keys.sealed_sec_key);
            lemma_hex_round_trip(keys.pub_key);
        },
    }

    lemma_field_at(tag_only(repo.compression.spec_name()), "type"@, 0, 0);
    repo.compression.lemma_name_round_trip();
    lemma_field_at(tag_only(repo.hashing.spec_name()), "type"@, 0, 0);
    repo.hashing.lemma_name_round_trip();
}

/// Reading what was written. A configuration that may be used is read back
/// equal in every part, whichever variants it holds. One with a version
/// outside the supported range is refused as unsupported, and one whose parts
/// do not fit as malformed.
pub proof fn lemma_round_trip(repo: RepoView)
    ensures
        parsed(rendered(repo)) == if !repo.version_supported() {
            Err::<RepoView, ConfigError>(ConfigError::UnsupportedVersion)
        } else if !repo.consistent() {
            Err::<RepoView, ConfigError>(ConfigError::MalformedConfig)
        } else {
            Ok::<RepoView, ConfigError>(repo)
        },
{
    lemma_parts_read_back(repo);
}

/// Whatever is read from a document is a configuration that may be used.
pub proof fn lemma_parsed_is_usable(doc: Seq<EntryView>)
    ensures
        parsed(doc) matches Ok(repo) ==> repo.usable(),
{
}

/// A stored configuration whose version is one beyond the current one is
/// refused as unsupported, whatever else it holds.
pub proof fn lemma_next_version_refused(repo: RepoView)
    requires
        repo.version == REPO_VERSION_CURRENT + 1,
    ensures
        parsed(rendered(repo)) == Err::<RepoView, ConfigError>(ConfigError::UnsupportedVersion),
{
    lemma_round_trip(repo);
}

} // verus!
