use repo_config::{lock_file_path, ConfigError, Nesting};
use std::path::{Path, PathBuf};

fn sample_digest() -> Vec<u8> {
    let mut digest = vec![0x3f, 0x2a];
    for i in 2u8..32 {
        digest.push(i.wrapping_mul(7));
    }
    digest
}

fn lower_hex(bytes: &[u8]) -> String {
    let mut text = String::new();
    for byte in bytes {
        text.push_str(&format!("{:02x}", byte));
    }
    text
}

#[test]
fn two_levels_below_the_chunk_directory() {
    let digest = sample_digest();
    let hex = lower_hex(&digest);
    assert_eq!(hex.len(), 64);
    assert!(hex.starts_with("3f2a"));
    let path = Nesting(2).get_path("/repo/chunk", &digest).unwrap();
    assert_eq!(path, format!("/repo/chunk/3f/2a/{}", hex));
}

#[test]
fn no_levels_puts_the_file_below_the_base() {
    let digest = sample_digest();
    let path = Nesting(0).get_path("/repo/chunk", &digest).unwrap();
    assert_eq!(path, format!("/repo/chunk/{}", lower_hex(&digest)));
}

#[test]
fn the_text_of_a_digest_is_lower_case_hex() {
    let path = Nesting(0).get_path("d", &[0x00, 0x0f, 0xa0, 0xff, 0x9c]).unwrap();
    assert_eq!(path, "d/000fa0ff9c");
}

#[test]
fn each_level_is_named_by_the_next_byte() {
    let path = Nesting(3).get_path("base", &[0xde, 0xad, 0xbe, 0xef]).unwrap();
    assert_eq!(path, "base/de/ad/be/deadbeef");
}

#[test]
fn as_many_levels_as_bytes_is_accepted() {
    let path = Nesting(2).get_path("b", &[0x01, 0x02]).unwrap();
    assert_eq!(path, "b/01/02/0102");
}

#[test]
fn more_levels_than_bytes_is_refused() {
    assert_eq!(Nesting(3).get_path("b", &[0x01, 0x02]), Err(ConfigError::ConfigValidation));
    assert_eq!(Nesting(1).get_path("b", &[]), Err(ConfigError::ConfigValidation));
    assert_eq!(Nesting(255).get_path("b", &sample_digest()), Err(ConfigError::ConfigValidation));
}

#[test]
fn accepts_tells_whether_a_digest_is_long_enough() {
    assert!(Nesting(2).accepts(32));
    assert!(Nesting(32).accepts(32));
    assert!(!Nesting(33).accepts(32));
    assert!(Nesting(0).accepts(0));
    assert!(!Nesting(1).accepts(0));
}

#[test]
fn a_base_that_ends_in_a_separator_gets_no_second_one() {
    let path = Nesting(1).get_path("/repo/chunk/", &[0xab, 0xcd]).unwrap();
    assert_eq!(path, "/repo/chunk/ab/abcd");
}

#[test]
fn an_empty_base_gives_a_relative_path() {
    let path = Nesting(1).get_path("", &[0xab, 0xcd]).unwrap();
    assert_eq!(path, "ab/abcd");
}

#[test]
fn deriving_twice_gives_the_same_path() {
    let digest = sample_digest();
    for depth in [0u8, 1, 2, 5, 32] {
        let first = Nesting(depth).get_path("/repo/chunk", &digest);
        let second = Nesting(depth).get_path("/repo/chunk", &digest);
        assert!(first.is_ok());
        assert_eq!(first, second);
    }
    assert_eq!(Nesting(40).get_path("x", &digest), Nesting(40).get_path("x", &digest));
}

#[test]
fn the_leaf_is_the_whole_digest_and_the_levels_are_its_pairs() {
    let digest = sample_digest();
    let hex = lower_hex(&digest);
    for depth in 0u8..=32 {
        let path = Nesting(depth).get_path("/r", &digest).unwrap();
        let parts: Vec<&str> = path.split('/').collect();
        assert_eq!(parts.len(), 2 + depth as usize + 1);
        assert_eq!(parts[0], "");
        assert_eq!(parts[1], "r");
        for level in 0..depth as usize {
            assert_eq!(parts[2 + level], &hex[2 * level..2 * level + 2]);
        }
        assert_eq!(parts[parts.len() - 1], hex);
    }
}

#[test]
fn the_text_agrees_with_joining_paths() {
    let digest = sample_digest();
    let hex = lower_hex(&digest);
    for base in ["/repo/chunk", "/repo/chunk/", "", "rel", "/"] {
        let text = Nesting(2).get_path(base, &digest).unwrap();
        let joined = Path::new(base).join(&hex[0..2]).join(&hex[2..4]).join(&hex);
        assert_eq!(PathBuf::from(text), joined);
    }
}

#[test]
fn the_lock_file_stands_below_the_root() {
    assert_eq!(lock_file_path("/repo"), "/repo/.lock");
    assert_eq!(lock_file_path("/repo/"), "/repo/.lock");
    assert_eq!(lock_file_path(""), ".lock");
    assert_eq!(PathBuf::from(lock_file_path("some/where")), Path::new("some/where").join(".lock"));
}

#[test]
fn the_fixed_names() {
    assert_eq!(repo_config::DATA_SUBDIR, "chunk");
    assert_eq!(repo_config::NAME_SUBDIR, "name");
    assert_eq!(repo_config::INDEX_SUBDIR, "index");
    assert_eq!(repo_config::LOCK_FILE, ".lock");
    assert_eq!(repo_config::VERSION_FILE, "version");
    assert_eq!(repo_config::CONFIG_YML_FILE, "config.yml");
    assert_eq!(repo_config::REPO_VERSION_LOWEST, 0);
    assert_eq!(repo_config::REPO_VERSION_CURRENT, 1);
}
