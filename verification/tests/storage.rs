use repo_config::{
    load, write_version_file, Chunking, Commit, CommitAction, CommitEvent, Compression,
    ConfigError, Curve25519, Document, Encryption, Entry, Field, FileRead, Hashing, Load,
    LoadAction, LoadEvent, Loaded, Nesting, Node, Repo, Scalar, WriteRequest,
};
use serde_yaml::{Mapping, Value};
use std::collections::BTreeMap;

fn scalar_to_yaml(scalar: &Scalar) -> Value {
    match scalar {
        Scalar::Int(n) => Value::Number((*n).into()),
        Scalar::Text(text) => Value::String(text.clone()),
    }
}

fn to_yaml(doc: &Document) -> Value {
    let mut top = Mapping::new();
    for entry in &doc.entries {
        let node = match &entry.node {
            Node::Scalar(scalar) => scalar_to_yaml(scalar),
            Node::Table(fields) => {
                let mut table = Mapping::new();
                for field in fields {
                    table.insert(Value::String(field.name.clone()), scalar_to_yaml(&field.value));
                }
                Value::Mapping(table)
            }
        };
        top.insert(Value::String(entry.name.clone()), node);
    }
    Value::Mapping(top)
}

fn scalar_from_yaml(value: &Value) -> Option<Scalar> {
    match value {
        Value::Number(n) => n.as_u64().map(Scalar::Int),
        Value::String(text) => Some(Scalar::Text(text.clone())),
        _ => None,
    }
}

fn from_yaml(value: &Value) -> Option<Document> {
    let top = value.as_mapping()?;
    let mut entries = Vec::new();
    for (name, node) in top {
        let name = name.as_str()?.to_string();
        let node = match node {
            Value::Mapping(table) => {
                let mut fields = Vec::new();
                for (name, value) in table {
                    fields.push(Field {
                        name: name.as_str()?.to_string(),
                        value: scalar_from_yaml(value)?,
                    });
                }
                Node::Table(fields)
            }
            other => Node::Scalar(scalar_from_yaml(other)?),
        };
        entries.push(Entry { name, node });
    }
    Some(Document { entries })
}

fn render(doc: &Document) -> Vec<u8> {
    serde_yaml::to_string(&to_yaml(doc)).unwrap().into_bytes()
}

fn parse(text: &[u8]) -> Option<Document> {
    let text = std::str::from_utf8(text).ok()?;
    let value: Value = serde_yaml::from_str(text).ok()?;
    from_yaml(&value)
}

struct Disk {
    files: BTreeMap<String, Vec<u8>>,
    refuses: Vec<String>,
    unreadable: Vec<String>,
    written: Vec<String>,
}

impl Disk {
    fn new() -> Disk {
        Disk { files: BTreeMap::new(), refuses: vec![], unreadable: vec![], written: vec![] }
    }

    fn write(&mut self, request: WriteRequest) -> bool {
        self.written.push(request.path.clone());
        if self.refuses.contains(&request.path) {
            return false;
        }
        self.files.insert(request.path, request.data);
        true
    }

    fn read(&self, path: &str) -> FileRead {
        if self.unreadable.iter().any(|p| p == path) {
            return FileRead::Failed;
        }
        match self.files.get(path) {
            Some(data) => FileRead::Found(data.clone()),
            None => FileRead::Missing,
        }
    }
}

fn commit(repo: &Repo, disk: &mut Disk) -> (Commit, Result<(), ConfigError>) {
    let mut phase = Commit::Uninitialized;
    let mut event = CommitEvent::Begin;
    loop {
        let (next, action) = repo.write(phase, event);
        phase = next;
        event = match action {
            CommitAction::Render(doc) => CommitEvent::Rendered(render(&doc)),
            CommitAction::Write(request) => CommitEvent::Written(disk.write(request)),
            CommitAction::Finish(end) => return (phase, end),
        };
    }
}

fn read_back(disk: &Disk) -> Loaded {
    let mut phase = Load::Start;
    let mut event = LoadEvent::Begin;
    loop {
        let (next, action) = load(phase, event);
        phase = next;
        event = match action {
            LoadAction::Read { path } => LoadEvent::Read(disk.read(&path)),
            LoadAction::Parse(text) => LoadEvent::Parsed(parse(&text)),
            LoadAction::Finish(end) => {
                assert_eq!(phase, Load::Closed);
                return end;
            }
        };
    }
}

fn keys() -> Curve25519 {
    Curve25519 { sealed_sec_key: vec![0x1e, 0x10, 0x00, 0x99], pub_key: vec![0x00, 0x12, 0x34] }
}

fn sample(encryption: Encryption) -> Repo {
    Repo {
        version: 1,
        chunking: Chunking::Bup { chunk_bits: 17 },
        encryption,
        compression: Compression::Deflate,
        nesting: Nesting(2),
        hashing: Hashing::Sha256,
    }
}

#[test]
fn the_version_file_holds_the_version_in_digits() {
    let request = write_version_file(1);
    assert_eq!(request.path, "version");
    assert_eq!(request.data, b"1".to_vec());
    assert_eq!(write_version_file(0).data, b"0".to_vec());
    assert_eq!(write_version_file(4000000000).data, b"4000000000".to_vec());
}

#[test]
fn a_configuration_in_text_form() {
    let text = String::from_utf8(render(&sample(Encryption::NoEncryption).to_document())).unwrap();
    assert_eq!(
        text,
        "version: 1\nchunking:\n  type: bup\n  chunk_bits: 17\nencryption:\n  type: none\n\
         compression:\n  type: deflate\nnesting: 2\nhashing:\n  type: sha256\n"
    );
}

#[test]
fn a_configuration_from_text() {
    let text = "---\nversion: 1\nchunking:\n  type: gear\n  chunk_bits: 12\nencryption:\n  \
                type: curve25519_blake2b_salsa20_poly1305\n  sealed_sec_key: \"1e100099\"\n  \
                pub_key: \"001234\"\ncompression:\n  type: zstd\nnesting: 4\nhashing:\n  \
                type: blake2b\n";
    let doc = parse(text.as_bytes()).unwrap();
    assert_eq!(
        Repo::from_document(&doc),
        Ok(Repo {
            version: 1,
            chunking: Chunking::Gear { chunk_bits: 12 },
            encryption: Encryption::Curve25519(keys()),
            compression: Compression::Zstd,
            nesting: Nesting(4),
            hashing: Hashing::Blake2b,
        })
    );
}

#[test]
fn text_that_leaves_parts_out() {
    let doc = parse(b"version: 0\nencryption:\n  type: none\n").unwrap();
    let repo = Repo::from_document(&doc).unwrap();
    assert_eq!(repo.version, 0);
    assert_eq!(repo.chunking, Chunking::Bup { chunk_bits: 17 });
    assert_eq!(repo.compression, Compression::Deflate);
    assert_eq!(repo.nesting, Nesting(2));
    assert_eq!(repo.hashing, Hashing::Sha256);
    let doc = parse(b"version: 1\n").unwrap();
    assert_eq!(Repo::from_document(&doc), Err(ConfigError::MalformedConfig));
}

#[test]
fn text_round_trip_of_every_variant() {
    let compressions = [
        Compression::Deflate,
        Compression::Xz2,
        Compression::Bzip2,
        Compression::Zstd,
        Compression::NoCompression,
    ];
    let encryptions = [
        Encryption::NoEncryption,
        Encryption::Curve25519(keys()),
        Encryption::Curve25519(Curve25519 { sealed_sec_key: vec![], pub_key: vec![] }),
        Encryption::Curve25519(Curve25519 {
            sealed_sec_key: (0u8..=255).collect(),
            pub_key: vec![0x12, 0x34, 0x56],
        }),
        Encryption::Curve25519(Curve25519 { sealed_sec_key: vec![0x0e, 0x05], pub_key: vec![0x10] }),
    ];
    for chunking in [Chunking::Bup { chunk_bits: 10 }, Chunking::Gear { chunk_bits: 30 }] {
        for compression in compressions {
            for hashing in [Hashing::Sha256, Hashing::Blake2b] {
                for encryption in &encryptions {
                    let repo = Repo {
                        version: 1,
                        chunking,
                        encryption: encryption.clone(),
                        compression,
                        nesting: Nesting(7),
                        hashing,
                    };
                    let doc = repo.to_document();
                    let back = parse(&render(&doc)).unwrap();
                    assert_eq!(back, doc);
                    assert_eq!(Repo::from_document(&back), Ok(repo));
                }
            }
        }
    }
}

#[test]
fn both_files_are_written_in_order() {
    let repo = sample(Encryption::Curve25519(keys()));
    let mut disk = Disk::new();
    assert_eq!(commit(&repo, &mut disk), (Commit::Committed, Ok(())));
    assert_eq!(disk.written, vec!["config.yml".to_string(), "version".to_string()]);
    assert_eq!(disk.files["version"], b"1".to_vec());
    assert_eq!(disk.files["config.yml"], render(&repo.to_document()));
    assert_eq!(read_back(&disk), Loaded::Found(repo));
}

#[test]
fn a_failed_configuration_write_leaves_no_version_file() {
    let repo = sample(Encryption::NoEncryption);
    let mut disk = Disk::new();
    disk.refuses.push("config.yml".to_string());
    assert_eq!(
        commit(&repo, &mut disk),
        (Commit::Failed(ConfigError::StorageFault), Err(ConfigError::StorageFault))
    );
    assert_eq!(disk.written, vec!["config.yml".to_string()]);
    assert!(!disk.files.contains_key("version"));
    assert_eq!(read_back(&disk), Loaded::NotFound);
    disk.refuses.clear();
    assert_eq!(commit(&repo, &mut disk), (Commit::Committed, Ok(())));
    assert_eq!(read_back(&disk), Loaded::Found(repo));
}

#[test]
fn a_failed_version_write_is_a_storage_fault() {
    let repo = sample(Encryption::NoEncryption);
    let mut disk = Disk::new();
    disk.refuses.push("version".to_string());
    assert_eq!(
        commit(&repo, &mut disk),
        (Commit::Failed(ConfigError::StorageFault), Err(ConfigError::StorageFault))
    );
    assert_eq!(read_back(&disk), Loaded::NotFound);
}

#[test]
fn a_configuration_that_may_not_be_used_is_never_written() {
    let mut disk = Disk::new();
    let mut narrow = sample(Encryption::NoEncryption);
    narrow.chunking = Chunking::Bup { chunk_bits: 9 };
    assert_eq!(
        commit(&narrow, &mut disk),
        (Commit::Failed(ConfigError::ConfigValidation), Err(ConfigError::ConfigValidation))
    );
    let mut next = sample(Encryption::NoEncryption);
    next.version = 2;
    assert_eq!(
        commit(&next, &mut disk),
        (Commit::Failed(ConfigError::UnsupportedVersion), Err(ConfigError::UnsupportedVersion))
    );
    assert!(disk.written.is_empty());
    assert!(disk.files.is_empty());
}

#[test]
fn the_steps_of_a_commit_one_by_one() {
    let repo = sample(Encryption::NoEncryption);
    let (phase, action) = repo.write(Commit::Uninitialized, CommitEvent::Begin);
    assert_eq!(phase, Commit::Rendering);
    assert_eq!(action, CommitAction::Render(repo.to_document()));
    let (phase, action) = repo.write(phase, CommitEvent::Rendered(b"text".to_vec()));
    assert_eq!(phase, Commit::ConfigSubmitted);
    assert_eq!(
        action,
        CommitAction::Write(WriteRequest { path: "config.yml".to_string(), data: b"text".to_vec() })
    );
    let (phase, action) = repo.write(phase, CommitEvent::Written(true));
    assert_eq!(phase, Commit::MarkerSubmitted);
    assert_eq!(
        action,
        CommitAction::Write(WriteRequest { path: "version".to_string(), data: b"1".to_vec() })
    );
    let (phase, action) = repo.write(phase, CommitEvent::Written(true));
    assert_eq!(phase, Commit::Committed);
    assert_eq!(action, CommitAction::Finish(Ok(())));
    let (phase, action) = repo.write(phase, CommitEvent::Written(false));
    assert_eq!(phase, Commit::Committed);
    assert_eq!(action, CommitAction::Finish(Ok(())));
}

#[test]
fn a_report_out_of_turn_ends_the_commit() {
    let repo = sample(Encryption::NoEncryption);
    let out_of_turn = [
        (Commit::Uninitialized, CommitEvent::Written(true)),
        (Commit::Uninitialized, CommitEvent::Rendered(vec![])),
        (Commit::Rendering, CommitEvent::Begin),
        (Commit::Rendering, CommitEvent::Written(true)),
        (Commit::ConfigSubmitted, CommitEvent::Begin),
        (Commit::ConfigSubmitted, CommitEvent::Rendered(vec![])),
        (Commit::MarkerSubmitted, CommitEvent::Begin),
        (Commit::MarkerSubmitted, CommitEvent::Rendered(vec![])),
    ];
    for (phase, event) in out_of_turn {
        let (next, action) = repo.write(phase, event);
        assert_eq!(next, Commit::Failed(ConfigError::EngineFault));
        assert_eq!(action, CommitAction::Finish(Err(ConfigError::EngineFault)));
    }
    for event in [CommitEvent::Begin, CommitEvent::Written(true), CommitEvent::Rendered(vec![1])] {
        let (next, action) = repo.write(Commit::Failed(ConfigError::StorageFault), event);
        assert_eq!(next, Commit::Failed(ConfigError::StorageFault));
        assert_eq!(action, CommitAction::Finish(Err(ConfigError::StorageFault)));
    }
}

#[test]
fn no_version_file_means_no_repository() {
    let mut disk = Disk::new();
    assert_eq!(read_back(&disk), Loaded::NotFound);
    disk.files.insert("config.yml".to_string(), b"garbage: [".to_vec());
    assert_eq!(read_back(&disk), Loaded::NotFound);
}

#[test]
fn a_version_file_without_a_configuration_is_a_storage_fault() {
    let mut disk = Disk::new();
    disk.files.insert("version".to_string(), b"1".to_vec());
    assert_eq!(read_back(&disk), Loaded::Failed(ConfigError::StorageFault));
}

#[test]
fn files_that_cannot_be_read_are_storage_faults() {
    let repo = sample(Encryption::NoEncryption);
    let mut disk = Disk::new();
    assert_eq!(commit(&repo, &mut disk).1, Ok(()));
    disk.unreadable.push("config.yml".to_string());
    assert_eq!(read_back(&disk), Loaded::Failed(ConfigError::StorageFault));
    disk.unreadable.push("version".to_string());
    assert_eq!(read_back(&disk), Loaded::Failed(ConfigError::StorageFault));
}

#[test]
fn a_version_file_that_holds_no_number_is_malformed() {
    for marker in [&b""[..], b"one", b"1\n", b"-1", b"99999999999"] {
        let mut disk = Disk::new();
        disk.files.insert("version".to_string(), marker.to_vec());
        disk.files.insert(
            "config.yml".to_string(),
            render(&sample(Encryption::NoEncryption).to_document()),
        );
        assert_eq!(read_back(&disk), Loaded::Failed(ConfigError::MalformedConfig));
    }
}

#[test]
fn a_configuration_that_is_no_document_is_malformed() {
    for text in [
        &b"version: [1, 2"[..],
        b"- 1\n- 2\n",
        b"version: 1\nencryption: ~\n",
        b"version: 1.5\nencryption:\n  type: none\n",
        b"version: -1\nencryption:\n  type: none\n",
        b"version: 1\nencryption:\n  type: none\nnesting: [2]\n",
        b"version: 1\nencryption:\n  type:\n    deep: none\n",
        b"\xff\xfe",
    ] {
        let mut disk = Disk::new();
        disk.files.insert("version".to_string(), b"1".to_vec());
        disk.files.insert("config.yml".to_string(), text.to_vec());
        assert_eq!(read_back(&disk), Loaded::Failed(ConfigError::MalformedConfig));
    }
}

#[test]
fn a_stored_configuration_of_the_next_version_is_unsupported() {
    let mut repo = sample(Encryption::Curve25519(keys()));
    repo.version = 2;
    let mut disk = Disk::new();
    disk.files.insert("version".to_string(), b"2".to_vec());
    disk.files.insert("config.yml".to_string(), render(&repo.to_document()));
    assert_eq!(read_back(&disk), Loaded::Failed(ConfigError::UnsupportedVersion));
}

#[test]
fn a_stored_configuration_that_does_not_fit_is_malformed() {
    let mut repo = sample(Encryption::NoEncryption);
    repo.nesting = Nesting(40);
    let mut disk = Disk::new();
    disk.files.insert("version".to_string(), b"1".to_vec());
    disk.files.insert("config.yml".to_string(), render(&repo.to_document()));
    assert_eq!(read_back(&disk), Loaded::Failed(ConfigError::MalformedConfig));
}

#[test]
fn a_report_out_of_turn_ends_the_reading() {
    let out_of_turn = [
        (Load::Start, LoadEvent::Read(FileRead::Missing)),
        (Load::Start, LoadEvent::Parsed(None)),
        (Load::MarkerRequested, LoadEvent::Begin),
        (Load::MarkerRequested, LoadEvent::Parsed(None)),
        (Load::ConfigRequested, LoadEvent::Begin),
        (Load::ConfigRequested, LoadEvent::Parsed(None)),
        (Load::Parsing, LoadEvent::Begin),
        (Load::Parsing, LoadEvent::Read(FileRead::Found(vec![]))),
        (Load::Closed, LoadEvent::Begin),
        (Load::Closed, LoadEvent::Read(FileRead::Missing)),
    ];
    for (phase, event) in out_of_turn {
        let (next, action) = load(phase, event);
        assert_eq!(next, Load::Closed);
        assert_eq!(action, LoadAction::Finish(Loaded::Failed(ConfigError::EngineFault)));
    }
}

#[test]
fn the_steps_of_a_reading_one_by_one() {
    let (phase, action) = load(Load::Start, LoadEvent::Begin);
    assert_eq!(phase, Load::MarkerRequested);
    assert_eq!(action, LoadAction::Read { path: "version".to_string() });
    let (phase, action) = load(phase, LoadEvent::Read(FileRead::Found(b"1".to_vec())));
    assert_eq!(phase, Load::ConfigRequested);
    assert_eq!(action, LoadAction::Read { path: "config.yml".to_string() });
    let (phase, action) = load(phase, LoadEvent::Read(FileRead::Found(b"some text".to_vec())));
    assert_eq!(phase, Load::Parsing);
    assert_eq!(action, LoadAction::Parse(b"some text".to_vec()));
    let repo = sample(Encryption::NoEncryption);
    let (phase, action) = load(phase, LoadEvent::Parsed(Some(repo.to_document())));
    assert_eq!(phase, Load::Closed);
    assert_eq!(action, LoadAction::Finish(Loaded::Found(repo)));
}
