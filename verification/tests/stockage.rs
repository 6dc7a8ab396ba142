use sauvegarde::create_file_hash::{create_file_hash, CreateError};
use sauvegarde::delete_file_hash::delete_file_hash;
use sauvegarde::entities::{FileHash, FileHashError, PathError};
use sauvegarde::read_all_file_hash::read_all_file_hash;
use sauvegarde::stockage::{RepoDeleteError, StockageHash};
use sauvegarde::stockage_sqlite::SqliteStockage;
use std::io::Write;

const HELLO_DIGEST: &str = "2cf24dba5fb0a30e26e83b2ac5b9e29e1b161e5c1fa7425e73043362938b9824";

fn fresh_store(dir: &tempfile::TempDir) -> SqliteStockage {
    let db = dir.path().join("store.db");
    SqliteStockage::new(db.to_str().unwrap()).unwrap()
}

fn stored(path: &str, hash: &str) -> FileHash {
    FileHash::from_stored(path.to_string(), hash.to_string()).unwrap()
}

#[test]
fn new_fails_on_unusable_path() {
    assert!(SqliteStockage::new("/no/such/dir/store.db").is_none());
}

#[test]
fn insert_then_read_back() {
    let dir = tempfile::tempdir().unwrap();
    let mut store = fresh_store(&dir);
    store.insert(stored("/data/a.txt", "h1")).unwrap();
    let rows = store.read_all().unwrap();
    assert_eq!(rows.len(), 1);
    assert_eq!(rows[0].path().value(), "/data/a.txt");
    assert_eq!(rows[0].hash().value(), "h1");
}

#[test]
fn insert_same_twice_leaves_one_row() {
    let dir = tempfile::tempdir().unwrap();
    let mut store = fresh_store(&dir);
    store.insert(stored("/data/a.txt", "h1")).unwrap();
    store.insert(stored("/data/a.txt", "h1")).unwrap();
    let rows = store.read_all().unwrap();
    assert_eq!(rows.len(), 1);
    assert_eq!(rows[0].path().value(), "/data/a.txt");
    assert_eq!(rows[0].hash().value(), "h1");
}

#[test]
fn insert_overwrites_by_path() {
    let dir = tempfile::tempdir().unwrap();
    let mut store = fresh_store(&dir);
    store.insert(stored("a", "h1")).unwrap();
    store.insert(stored("a", "h2")).unwrap();
    let rows = store.read_all().unwrap();
    assert_eq!(rows.len(), 1);
    assert_eq!(rows[0].path().value(), "a");
    assert_eq!(rows[0].hash().value(), "h2");
}

#[test]
fn delete_of_absent_key_succeeds() {
    let dir = tempfile::tempdir().unwrap();
    let mut store = fresh_store(&dir);
    assert!(store.delete("/never/inserted").is_ok());
}

#[test]
fn delete_of_empty_key_is_invalid() {
    let dir = tempfile::tempdir().unwrap();
    let mut store = fresh_store(&dir);
    assert!(matches!(store.delete(""), Err(RepoDeleteError::InvalidData(_))));
}

#[test]
fn delete_removes_only_its_row() {
    let dir = tempfile::tempdir().unwrap();
    let mut store = fresh_store(&dir);
    store.insert(stored("a", "h1")).unwrap();
    store.insert(stored("b", "h2")).unwrap();
    store.delete("a").unwrap();
    let rows = store.read_all().unwrap();
    assert_eq!(rows.len(), 1);
    assert_eq!(rows[0].path().value(), "b");
}

#[test]
fn read_all_of_fresh_store_is_empty() {
    let dir = tempfile::tempdir().unwrap();
    let store = fresh_store(&dir);
    assert!(store.read_all().unwrap().is_empty());
}

#[test]
fn read_all_filters_by_component_prefix() {
    let dir = tempfile::tempdir().unwrap();
    let mut store = fresh_store(&dir);
    store.insert(stored("/data/a.txt", "h1")).unwrap();
    store.insert(stored("/data/b/x.txt", "h2")).unwrap();
    store.insert(stored("/other/c.txt", "h3")).unwrap();

    let mut under_data: Vec<String> = read_all_file_hash("/data", &store)
        .unwrap()
        .iter()
        .map(|f| f.path().value().to_string())
        .collect();
    under_data.sort();
    assert_eq!(under_data, vec!["/data/a.txt".to_string(), "/data/b/x.txt".to_string()]);

    // A partial component must not match.
    assert!(read_all_file_hash("/dat", &store).unwrap().is_empty());
}

#[test]
fn read_all_with_trailing_separator_on_the_query() {
    let dir = tempfile::tempdir().unwrap();
    let mut store = fresh_store(&dir);
    store.insert(stored("/data/a.txt", "h1")).unwrap();
    store.insert(stored("/data2/c.txt", "h2")).unwrap();
    let rows = read_all_file_hash("/data/", &store).unwrap();
    assert_eq!(rows.len(), 1);
    assert_eq!(rows[0].path().value(), "/data/a.txt");
}

#[test]
fn rows_with_embedded_nul_round_trip_in_full() {
    let dir = tempfile::tempdir().unwrap();
    let mut store = fresh_store(&dir);
    store.insert(stored("a\u{0}b", "h1")).unwrap();
    store.insert(stored("a\u{0}c", "h2")).unwrap();
    let mut rows: Vec<(String, String)> = store
        .read_all()
        .unwrap()
        .iter()
        .map(|f| (f.path().value().to_string(), f.hash().value().to_string()))
        .collect();
    rows.sort();
    assert_eq!(
        rows,
        vec![
            ("a\u{0}b".to_string(), "h1".to_string()),
            ("a\u{0}c".to_string(), "h2".to_string()),
        ]
    );
}

#[test]
fn read_all_with_exact_path_prefix() {
    let dir = tempfile::tempdir().unwrap();
    let mut store = fresh_store(&dir);
    store.insert(stored("/data/a.txt", "h1")).unwrap();
    let rows = read_all_file_hash("/data/a.txt", &store).unwrap();
    assert_eq!(rows.len(), 1);
    assert_eq!(rows[0].hash().value(), "h1");
}

#[test]
fn create_rejects_missing_path() {
    let dir = tempfile::tempdir().unwrap();
    let mut store = fresh_store(&dir);
    let r = create_file_hash("/no/such/file", b"hello", &mut store);
    assert!(matches!(
        r,
        Err(CreateError::InvalidData(FileHashError::PathError(PathError::DoesNotExist)))
    ));
    assert!(store.read_all().unwrap().is_empty());
}

#[test]
fn end_to_end_create_read_delete() {
    let dir = tempfile::tempdir().unwrap();
    let mut store = fresh_store(&dir);

    // Write a 5-byte file under a directory of its own.
    let tree = tempfile::tempdir().unwrap();
    let mut file = tempfile::NamedTempFile::new_in(tree.path()).unwrap();
    file.write_all(b"hello").unwrap();
    let file_path = file.path().to_str().unwrap().to_string();
    let dir_path = tree.path().to_str().unwrap().to_string();

    let created = create_file_hash(&file_path, b"hello", &mut store).unwrap();
    assert_eq!(created.path().value(), file_path.as_str());
    assert_eq!(created.hash().value(), HELLO_DIGEST);

    let rows = read_all_file_hash(&dir_path, &store).unwrap();
    assert_eq!(rows.len(), 1);
    assert_eq!(rows[0].path().value(), file_path.as_str());
    assert_eq!(rows[0].hash().value(), HELLO_DIGEST);

    delete_file_hash(&file_path, &mut store).unwrap();
    assert!(read_all_file_hash(&dir_path, &store).unwrap().is_empty());
}
