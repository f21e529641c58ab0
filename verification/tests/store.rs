use sangjeom::error::AttachmentError;
use sangjeom::models::files::File;
use sangjeom::store::Store;

fn record(id: i64, file_id: i64, hash: &str, owner: &str) -> File {
    File {
        id,
        file_id,
        name: format!("file-{}", id),
        content_type: format!("type/{}", id),
        hash: hash.to_string(),
        owner: owner.to_string(),
    }
}

#[test]
fn a_new_store_is_empty() {
    let db = Store::new();
    assert_eq!(db.record_count(), 0);
    assert_eq!(db.blob_count(), 0);
    assert!(db.get_by_id(1).is_none());
    assert!(db.open_blob(1).is_none());
    assert!(db.find_by_hash("abc").is_none());
}

#[test]
fn a_blob_is_written_once() {
    let mut db = Store::new();
    assert_eq!(db.write_blob(5, b"one"), Ok(()));
    assert_eq!(db.open_blob(5), Some(b"one".to_vec()));
    assert_eq!(db.write_blob(5, b"two"), Err(AttachmentError::StorageFailure));
    assert_eq!(db.open_blob(5), Some(b"one".to_vec()));
    assert_eq!(db.blob_count(), 1);
}

#[test]
fn a_deleted_blob_is_gone() {
    let mut db = Store::new();
    db.write_blob(5, b"one").unwrap();
    db.write_blob(6, b"two").unwrap();
    assert_eq!(db.delete_blob(5), Ok(()));
    assert!(db.open_blob(5).is_none());
    assert_eq!(db.open_blob(6), Some(b"two".to_vec()));
    assert_eq!(db.delete_blob(5), Err(AttachmentError::StorageFailure));
    assert_eq!(db.blob_count(), 1);
}

#[test]
fn find_by_hash_returns_the_first_record() {
    let mut db = Store::new();
    db.insert(record(1, 1, "aa", "alice")).unwrap();
    db.insert(record(2, 2, "bb", "bob")).unwrap();
    db.insert(record(3, 1, "aa", "carol")).unwrap();
    assert_eq!(
        db.find_by_hash("aa"),
        Some((1, "type/1".to_string(), "alice".to_string()))
    );
    assert_eq!(db.find_by_hash("bb"), Some((2, "type/2".to_string(), "bob".to_string())));
    assert_eq!(db.find_by_hash("cc"), None);
}

#[test]
fn record_identifiers_are_unique() {
    let mut db = Store::new();
    assert_eq!(db.insert(record(1, 1, "aa", "alice")), Ok(()));
    assert_eq!(db.insert(record(1, 9, "zz", "zed")), Err(AttachmentError::MetadataFailure));
    assert_eq!(db.record_count(), 1);
    assert_eq!(db.get_by_id(1), Some(record(1, 1, "aa", "alice")));
    assert_eq!(db.get_by_id(2), None);
}

#[test]
fn last_id_is_the_largest_record_identifier() {
    let mut db = Store::new();
    assert_eq!(db.last_id(), 0);
    db.insert(record(3, 3, "aa", "alice")).unwrap();
    db.insert(record(9, 3, "aa", "bob")).unwrap();
    db.insert(record(5, 5, "bb", "carol")).unwrap();
    assert_eq!(db.last_id(), 9);
    let mut negative = Store::new();
    negative.insert(record(-4, -4, "aa", "alice")).unwrap();
    assert_eq!(negative.last_id(), 0);
}
