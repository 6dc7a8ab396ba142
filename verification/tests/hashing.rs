use sauvegarde::hashing::{calculate_hash, calculate_hash_recursive, render_hex, Sha256Stream};
use sha2::Digest;

const HELLO_DIGEST: &str = "2cf24dba5fb0a30e26e83b2ac5b9e29e1b161e5c1fa7425e73043362938b9824";
const EMPTY_DIGEST: &str = "e3b0c44298fc1c149afbf4c8996fb92427ae41e4649b934ca495991b7852b855";

#[test]
fn digest_of_known_content() {
    assert_eq!(calculate_hash(b"hello"), HELLO_DIGEST);
}

#[test]
fn digest_of_empty_content() {
    assert_eq!(calculate_hash(b""), EMPTY_DIGEST);
}

#[test]
fn digest_matches_independent_computation() {
    let content = b"some longer content, spanning more than one word";
    let expected = format!("{:x}", sha2::Sha256::digest(content));
    assert_eq!(calculate_hash(content), expected);
}

#[test]
fn digest_of_large_content_crosses_chunks() {
    // More than one 1024-byte chunk is fed to the accumulator.
    let content: Vec<u8> = (0..5000u32).map(|i| (i % 251) as u8).collect();
    let expected = format!("{:x}", sha2::Sha256::digest(&content));
    assert_eq!(calculate_hash(&content), expected);
}

#[test]
fn stream_absorbs_chunks_like_one_shot() {
    let mut stream = Sha256Stream::new();
    stream.update(b"hel");
    stream.update(b"lo");
    let digest = stream.finalize();
    let expected = sha2::Sha256::digest(b"hello");
    assert_eq!(digest.as_slice(), expected.as_slice());
}

#[test]
fn streamed_digest_renders_like_one_shot() {
    let mut stream = Sha256Stream::new();
    stream.update(b"hel");
    stream.update(b"lo");
    assert_eq!(render_hex(&stream.finalize()), HELLO_DIGEST);
    assert_eq!(render_hex(&Vec::new()), "");
}

#[test]
fn recursive_digests_skip_unreadable() {
    let entries = vec![
        ("/tree/a.txt".to_string(), Some(b"hello".to_vec())),
        ("/tree/locked.txt".to_string(), None),
        ("/tree/b/c.txt".to_string(), Some(Vec::new())),
    ];
    let digests = calculate_hash_recursive(&entries);
    assert_eq!(digests.len(), 2);
    assert_eq!(digests[0].0, "/tree/a.txt");
    assert_eq!(digests[0].1, HELLO_DIGEST);
    assert_eq!(digests[1].0, "/tree/b/c.txt");
    assert_eq!(digests[1].1, EMPTY_DIGEST);
}

#[test]
fn recursive_digests_of_nothing() {
    let digests = calculate_hash_recursive(&Vec::new());
    assert!(digests.is_empty());
}
