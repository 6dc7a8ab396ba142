use sauvegarde::entities::{FileHash, FileHashError, HashError, Path, PathError};
use std::io::Write;

#[test]
fn hash_accepts_nonempty() {
    let h = sauvegarde::entities::Hash::try_from("h1".to_string()).unwrap();
    assert_eq!(h.value(), "h1");
}

#[test]
fn hash_keeps_arbitrary_nonempty_value() {
    let h = sauvegarde::entities::Hash::try_from("not-even-hex".to_string()).unwrap();
    assert_eq!(h.value(), "not-even-hex");
}

#[test]
fn hash_rejects_empty() {
    let r = sauvegarde::entities::Hash::try_from(String::new());
    assert!(matches!(r, Err(HashError::EmptyHash)));
}

#[test]
fn path_accepts_existing() {
    let mut file = tempfile::NamedTempFile::new().unwrap();
    file.write_all(b"x").unwrap();
    let s = file.path().to_str().unwrap().to_string();
    let p = Path::try_from(s.clone()).unwrap();
    assert_eq!(p.value(), s.as_str());
}

#[test]
fn path_rejects_missing() {
    let r = Path::try_from("/no/such/entry/anywhere-at-all".to_string());
    assert!(matches!(r, Err(PathError::DoesNotExist)));
}

#[test]
fn path_rejects_empty() {
    let r = Path::try_from(String::new());
    assert!(matches!(r, Err(PathError::DoesNotExist)));
}

#[test]
fn file_hash_new_validates_both() {
    let mut file = tempfile::NamedTempFile::new().unwrap();
    file.write_all(b"x").unwrap();
    let s = file.path().to_str().unwrap().to_string();
    let f = FileHash::new(s.clone(), "abc".to_string()).unwrap();
    assert_eq!(f.path().value(), s.as_str());
    assert_eq!(f.hash().value(), "abc");
}

#[test]
fn file_hash_new_tags_missing_path() {
    let r = FileHash::new("/no/such/entry".to_string(), "abc".to_string());
    assert!(matches!(r, Err(FileHashError::PathError(PathError::DoesNotExist))));
}

#[test]
fn file_hash_new_tags_empty_hash() {
    let mut file = tempfile::NamedTempFile::new().unwrap();
    file.write_all(b"x").unwrap();
    let s = file.path().to_str().unwrap().to_string();
    let r = FileHash::new(s, String::new());
    assert!(matches!(r, Err(FileHashError::HashError(HashError::EmptyHash))));
}

#[test]
fn from_stored_skips_disk_check() {
    let f = FileHash::from_stored("/no/such/entry".to_string(), "h".to_string()).unwrap();
    assert_eq!(f.path().value(), "/no/such/entry");
    assert_eq!(f.hash().value(), "h");
}

#[test]
fn from_stored_rejects_empty_fields() {
    let r = FileHash::from_stored(String::new(), "h".to_string());
    assert!(matches!(r, Err(FileHashError::PathError(PathError::DoesNotExist))));
    let r = FileHash::from_stored("/a".to_string(), String::new());
    assert!(matches!(r, Err(FileHashError::HashError(HashError::EmptyHash))));
}

#[test]
fn into_parts_decomposes() {
    let f = FileHash::from_stored("/a/b".to_string(), "h2".to_string()).unwrap();
    let (p, h) = f.into_parts();
    assert_eq!(p.value(), "/a/b");
    assert_eq!(h.value(), "h2");
}
