use repo_config::{Chunking, Compression, Hashing, Nesting, DEFAULT_BUP_CHUNK_BITS};

#[test]
fn bup_with_nine_bits_is_invalid() {
    assert!(!Chunking::Bup { chunk_bits: 9 }.valid());
}

#[test]
fn bup_with_seventeen_bits_is_valid() {
    assert!(Chunking::Bup { chunk_bits: 17 }.valid());
}

#[test]
fn every_width_from_ten_to_thirty_is_valid() {
    for bits in 10u32..=30 {
        assert!(Chunking::Bup { chunk_bits: bits }.valid(), "bup {}", bits);
        assert!(Chunking::Gear { chunk_bits: bits }.valid(), "gear {}", bits);
    }
}

#[test]
fn widths_outside_the_range_are_invalid() {
    for bits in [0u32, 1, 9, 31, 32, 64, u32::MAX] {
        assert!(!Chunking::Bup { chunk_bits: bits }.valid(), "bup {}", bits);
        assert!(!Chunking::Gear { chunk_bits: bits }.valid(), "gear {}", bits);
    }
}

#[test]
fn chunk_bits_reads_either_variant() {
    assert_eq!(Chunking::Bup { chunk_bits: 12 }.chunk_bits(), 12);
    assert_eq!(Chunking::Gear { chunk_bits: 25 }.chunk_bits(), 25);
}

#[test]
fn defaults_are_bup_deflate_sha256_and_two_levels() {
    assert_eq!(DEFAULT_BUP_CHUNK_BITS, 17);
    assert_eq!(Chunking::default(), Chunking::Bup { chunk_bits: 17 });
    assert_eq!(Compression::default(), Compression::Deflate);
    assert_eq!(Hashing::default(), Hashing::Sha256);
    assert_eq!(Nesting::default(), Nesting(2));
}

#[test]
fn compression_names_are_found_again() {
    let all = [
        (Compression::Deflate, "deflate"),
        (Compression::Xz2, "xz2"),
        (Compression::Bzip2, "bzip2"),
        (Compression::Zstd, "zstd"),
        (Compression::NoCompression, "none"),
    ];
    for (compression, name) in all {
        assert_eq!(compression.name(), name);
        assert_eq!(Compression::from_name(name), Some(compression));
    }
    assert_eq!(Compression::from_name("lz4"), None);
    assert_eq!(Compression::from_name("Deflate"), None);
    assert_eq!(Compression::from_name(""), None);
}

#[test]
fn hashing_names_and_digest_lengths() {
    assert_eq!(Hashing::Sha256.name(), "sha256");
    assert_eq!(Hashing::Blake2b.name(), "blake2b");
    assert_eq!(Hashing::from_name("sha256"), Some(Hashing::Sha256));
    assert_eq!(Hashing::from_name("blake2b"), Some(Hashing::Blake2b));
    assert_eq!(Hashing::from_name("md5"), None);
    assert_eq!(Hashing::Sha256.digest_len(), 32);
    assert_eq!(Hashing::Blake2b.digest_len(), 64);
}
