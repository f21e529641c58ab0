use sangjeom::error::AttachmentError;
use sangjeom::id::IdGen;
use sangjeom::models::files::{File, FileData, FileUpload};
use sangjeom::store::Store;

const HELLO_SHA256: &str = "2cf24dba5fb0a30e26e83b2ac5b9e29e1b161e5c1fa7425e73043362938b9824";

fn upload(name: &str, data: &[u8]) -> FileUpload {
    FileUpload { name: Some(name.to_string()), data: data.to_vec() }
}

#[test]
fn hello_is_stored_deduplicated_and_served() {
    let mut ids = IdGen::new();
    let mut db = Store::new();

    let first = File::create(upload("a.txt", b"hello"), &mut ids, "alice".to_string(), &mut db);
    assert_eq!(
        first,
        Ok(FileData { id: 1, name: "a.txt".to_string(), owner: "alice".to_string() })
    );
    let record = File::get(1, &db).unwrap();
    assert_eq!(record.id, 1);
    assert_eq!(record.file_id, 1);
    assert_eq!(record.hash, HELLO_SHA256);
    assert_eq!(record.name, "a.txt");
    assert_eq!(record.owner, "alice");
    assert_eq!(db.blob_count(), 1);

    let served = File::fetch_file(1, &db).unwrap();
    assert_eq!(served.file, b"hello".to_vec());
    assert_eq!(served.disposition, "inline; filename=\"a.txt\"");
    assert_eq!(served.content_type, record.content_type);

    let second = File::create(upload("b.txt", b"hello"), &mut ids, "alice".to_string(), &mut db);
    assert_eq!(
        second,
        Ok(FileData { id: 2, name: "b.txt".to_string(), owner: "alice".to_string() })
    );
    let copy = File::get(2, &db).unwrap();
    assert_eq!(copy.file_id, 1);
    assert_eq!(copy.hash, HELLO_SHA256);
    assert_eq!(db.blob_count(), 1);
    assert_eq!(db.record_count(), 2);

    let empty = File::create(upload("c.txt", b""), &mut ids, "alice".to_string(), &mut db);
    assert_eq!(empty, Err(AttachmentError::EmptyUpload));
    assert_eq!(db.record_count(), 2);
    assert_eq!(db.blob_count(), 1);
}

#[test]
fn unknown_id_on_empty_store_is_not_found() {
    let db = Store::new();
    assert_eq!(File::fetch_file(999, &db), Err(AttachmentError::NotFound));
    assert_eq!(File::fetch_file_download(999, &db), Err(AttachmentError::NotFound));
    assert_eq!(File::fetch_file_data(999, &db), Err(AttachmentError::NotFound));
    assert!(File::get(999, &db).is_none());
}

#[test]
fn same_bytes_under_two_names_share_one_blob() {
    let mut ids = IdGen::new();
    let mut db = Store::new();
    let data = b"the same bytes, twice";
    let one = File::create(upload("one.bin", data), &mut ids, "alice".to_string(), &mut db)
        .unwrap();
    let two = File::create(upload("two.bin", data), &mut ids, "bob".to_string(), &mut db)
        .unwrap();
    assert_ne!(one.id, two.id);
    let first = File::get(one.id, &db).unwrap();
    let second = File::get(two.id, &db).unwrap();
    assert_eq!(first.file_id, second.file_id);
    assert_eq!(first.file_id, one.id);
    assert_eq!(first.hash, second.hash);
    assert_eq!(first.content_type, second.content_type);
    assert_eq!(db.blob_count(), 1);
    assert!(db.open_blob(two.id).is_none());
}

#[test]
fn a_shared_blob_keeps_each_record_with_its_uploader() {
    let mut ids = IdGen::new();
    let mut db = Store::new();
    File::create(upload("one.bin", b"shared"), &mut ids, "alice".to_string(), &mut db).unwrap();
    let two = File::create(upload("two.bin", b"shared"), &mut ids, "bob".to_string(), &mut db)
        .unwrap();
    assert_eq!(two.owner, "bob");
    assert_eq!(File::get(two.id, &db).unwrap().owner, "bob");
    assert_eq!(File::get(1, &db).unwrap().owner, "alice");
}

#[test]
fn different_bytes_get_different_blobs() {
    let mut ids = IdGen::new();
    let mut db = Store::new();
    let one = File::create(upload("a", b"first"), &mut ids, "o".to_string(), &mut db).unwrap();
    let two = File::create(upload("a", b"second"), &mut ids, "o".to_string(), &mut db).unwrap();
    assert_eq!(File::get(one.id, &db).unwrap().file_id, one.id);
    assert_eq!(File::get(two.id, &db).unwrap().file_id, two.id);
    assert_eq!(db.blob_count(), 2);
    assert_eq!(File::fetch_file(one.id, &db).unwrap().file, b"first".to_vec());
    assert_eq!(File::fetch_file(two.id, &db).unwrap().file, b"second".to_vec());
}

#[test]
fn empty_upload_is_refused_and_leaves_nothing() {
    let mut ids = IdGen::new();
    let mut db = Store::new();
    let result = File::create(upload("a.txt", b""), &mut ids, "alice".to_string(), &mut db);
    assert_eq!(result, Err(AttachmentError::EmptyUpload));
    assert_eq!(db.record_count(), 0);
    assert_eq!(db.blob_count(), 0);
    // No identifier was used up: the next upload is the first.
    let next = File::create(upload("a.txt", b"x"), &mut ids, "alice".to_string(), &mut db);
    assert_eq!(next.unwrap().id, 1);
}

#[test]
fn empty_upload_is_refused_before_its_name_is_looked_at() {
    let mut ids = IdGen::new();
    let mut db = Store::new();
    let long = "n".repeat(300);
    let result = File::create(upload(&long, b""), &mut ids, "alice".to_string(), &mut db);
    assert_eq!(result, Err(AttachmentError::EmptyUpload));
}

#[test]
fn uploaded_bytes_come_back_unchanged() {
    let mut ids = IdGen::starting_after(41);
    let mut db = Store::new();
    let data: Vec<u8> = (0..=255u8).collect();
    let made = File::create(
        FileUpload { name: Some("all bytes.bin".to_string()), data: data.clone() },
        &mut ids,
        "carol".to_string(),
        &mut db,
    )
    .unwrap();
    assert_eq!(made.id, 42);
    let record = File::get(42, &db).unwrap();
    let inline = File::fetch_file(42, &db).unwrap();
    assert_eq!(inline.file, data);
    assert_eq!(inline.content_type, record.content_type);
    assert_eq!(inline.disposition, "inline; filename=\"all bytes.bin\"");
    let download = File::fetch_file_download(42, &db).unwrap();
    assert_eq!(download.file, data);
    assert_eq!(download.content_type, record.content_type);
    assert_eq!(download.disposition, "attachment; filename=\"all bytes.bin\"");
}

#[test]
fn a_deduplicated_record_takes_the_content_type_of_the_first() {
    let mut ids = IdGen::new();
    let mut db = Store::new();
    let png: &[u8] = b"\x89PNG\r\n\x1a\n\0\0\0\rIHDR\0\0\0\x01\0\0\0\x01\x08\x06\0\0\0";
    File::create(upload("picture.png", png), &mut ids, "a".to_string(), &mut db).unwrap();
    File::create(upload("notes.txt", png), &mut ids, "a".to_string(), &mut db).unwrap();
    let first = File::get(1, &db).unwrap();
    let second = File::get(2, &db).unwrap();
    assert_eq!(first.content_type, "image/png");
    assert_eq!(second.content_type, "image/png");
    assert_eq!(File::fetch_file(2, &db).unwrap().content_type, "image/png");
}

#[test]
fn directories_in_the_supplied_name_are_dropped() {
    let mut ids = IdGen::new();
    let mut db = Store::new();
    let made = File::create(
        upload("../../etc/passwd", b"root:x:0:0"),
        &mut ids,
        "mallory".to_string(),
        &mut db,
    )
    .unwrap();
    assert_eq!(made.name, "passwd");
    assert_eq!(File::get(made.id, &db).unwrap().name, "passwd");
}

#[test]
fn an_upload_without_a_name_is_called_attachment() {
    let mut ids = IdGen::new();
    let mut db = Store::new();
    let unnamed = File::create(
        FileUpload { name: None, data: b"x".to_vec() },
        &mut ids,
        "o".to_string(),
        &mut db,
    )
    .unwrap();
    assert_eq!(unnamed.name, "attachment");
    let blank = File::create(upload("", b"y"), &mut ids, "o".to_string(), &mut db).unwrap();
    assert_eq!(blank.name, "attachment");
    let parent = File::create(upload("a/..", b"z"), &mut ids, "o".to_string(), &mut db).unwrap();
    assert_eq!(parent.name, "attachment");
}

#[test]
fn a_name_of_more_than_256_characters_is_refused() {
    let mut ids = IdGen::new();
    let mut db = Store::new();
    let longest = "a".repeat(256);
    let made = File::create(upload(&longest, b"x"), &mut ids, "o".to_string(), &mut db).unwrap();
    assert_eq!(made.name, longest);
    let too_long = "a".repeat(257);
    let refused = File::create(upload(&too_long, b"x"), &mut ids, "o".to_string(), &mut db);
    assert_eq!(refused, Err(AttachmentError::InvalidName));
    assert_eq!(db.record_count(), 1);
    assert_eq!(db.blob_count(), 1);
    // The refused upload used up no identifier.
    let next = File::create(upload("b", b"y"), &mut ids, "o".to_string(), &mut db).unwrap();
    assert_eq!(next.id, 2);
}

#[test]
fn the_length_of_a_name_counts_characters() {
    let mut ids = IdGen::new();
    let mut db = Store::new();
    let name = "\u{e9}".repeat(256);
    assert_eq!(name.len(), 512);
    let made = File::create(upload(&name, b"x"), &mut ids, "o".to_string(), &mut db).unwrap();
    assert_eq!(made.name, name);
    let longer = "\u{e9}".repeat(257);
    let refused = File::create(upload(&longer, b"x"), &mut ids, "o".to_string(), &mut db);
    assert_eq!(refused, Err(AttachmentError::InvalidName));
}

#[test]
fn only_the_directories_count_for_a_long_path() {
    let mut ids = IdGen::new();
    let mut db = Store::new();
    let path = format!("{}/short.txt", "d".repeat(400));
    let made = File::create(upload(&path, b"x"), &mut ids, "o".to_string(), &mut db).unwrap();
    assert_eq!(made.name, "short.txt");
}

#[test]
fn a_used_blob_identifier_fails_the_upload_as_a_storage_failure() {
    let mut db = Store::new();
    let mut ids = IdGen::new();
    File::create(upload("a", b"first"), &mut ids, "o".to_string(), &mut db).unwrap();
    // A generator that was not seeded above the identifiers in use.
    let mut stale = IdGen::new();
    let result = File::create(upload("b", b"second"), &mut stale, "o".to_string(), &mut db);
    assert_eq!(result, Err(AttachmentError::StorageFailure));
    assert_eq!(db.record_count(), 1);
    assert_eq!(db.blob_count(), 1);
    assert_eq!(db.open_blob(1), Some(b"first".to_vec()));
}

#[test]
fn a_used_record_identifier_fails_the_upload_and_leaves_the_new_blob() {
    let mut db = Store::new();
    let mut ids = IdGen::new();
    File::create(upload("a", b"first"), &mut ids, "o".to_string(), &mut db).unwrap();
    File::create(upload("b", b"first"), &mut ids, "o".to_string(), &mut db).unwrap();
    // Record 2 exists and names blob 1, so blob 2 is free and record 2 is not.
    let mut stale = IdGen::starting_after(1);
    let result = File::create(upload("c", b"other"), &mut stale, "o".to_string(), &mut db);
    assert_eq!(result, Err(AttachmentError::MetadataFailure));
    assert_eq!(db.record_count(), 2);
    assert_eq!(db.blob_count(), 2);
    assert_eq!(db.open_blob(2), Some(b"other".to_vec()));
}

#[test]
fn a_used_record_identifier_with_known_bytes_leaves_nothing() {
    let mut db = Store::new();
    let mut ids = IdGen::new();
    File::create(upload("a", b"first"), &mut ids, "o".to_string(), &mut db).unwrap();
    File::create(upload("b", b"first"), &mut ids, "o".to_string(), &mut db).unwrap();
    let mut stale = IdGen::starting_after(1);
    let result = File::create(upload("c", b"first"), &mut stale, "o".to_string(), &mut db);
    assert_eq!(result, Err(AttachmentError::MetadataFailure));
    assert_eq!(db.record_count(), 2);
    assert_eq!(db.blob_count(), 1);
}

#[test]
fn a_record_without_its_blob_is_a_storage_failure() {
    let mut db = Store::new();
    let mut ids = IdGen::new();
    File::create(upload("a", b"first"), &mut ids, "o".to_string(), &mut db).unwrap();
    assert_eq!(db.delete_blob(1), Ok(()));
    assert_eq!(File::fetch_file(1, &db), Err(AttachmentError::StorageFailure));
    assert_eq!(File::fetch_file_download(1, &db), Err(AttachmentError::StorageFailure));
    assert_eq!(File::fetch_file_data(1, &db).unwrap().name, "a");
}

#[test]
fn file_data_is_the_visible_part_of_a_record() {
    let record = File {
        id: 7,
        file_id: 3,
        name: "n".to_string(),
        content_type: "text/plain".to_string(),
        hash: "h".to_string(),
        owner: "o".to_string(),
    };
    assert_eq!(
        record.get_file_data(),
        FileData { id: 7, name: "n".to_string(), owner: "o".to_string() }
    );
    let mut db = Store::new();
    let mut ids = IdGen::new();
    File::create(upload("x.txt", b"x"), &mut ids, "me".to_string(), &mut db).unwrap();
    assert_eq!(
        File::fetch_file_data(1, &db),
        Ok(FileData { id: 1, name: "x.txt".to_string(), owner: "me".to_string() })
    );
}

#[test]
fn a_generator_seeded_from_the_store_collides_with_nothing() {
    let mut db = Store::new();
    let mut ids = IdGen::starting_after(10);
    File::create(upload("a", b"first"), &mut ids, "o".to_string(), &mut db).unwrap();
    File::create(upload("b", b"second"), &mut ids, "o".to_string(), &mut db).unwrap();
    // A restart: the generator is made anew from what the store holds.
    let mut restarted = IdGen::starting_after(db.last_id());
    let made = File::create(upload("c", b"third"), &mut restarted, "o".to_string(), &mut db);
    assert_eq!(made.unwrap().id, 13);
    assert_eq!(db.record_count(), 3);
    assert_eq!(db.blob_count(), 3);
}

#[test]
fn later_uploads_leave_earlier_files_as_they_were() {
    let mut ids = IdGen::new();
    let mut db = Store::new();
    File::create(upload("a.txt", b"first"), &mut ids, "alice".to_string(), &mut db).unwrap();
    let record = File::get(1, &db).unwrap();
    let served = File::fetch_file(1, &db).unwrap();
    File::create(upload("b.txt", b"second"), &mut ids, "bob".to_string(), &mut db).unwrap();
    File::create(upload("c.txt", b"first"), &mut ids, "carol".to_string(), &mut db).unwrap();
    let refused = File::create(upload("d.txt", b""), &mut ids, "dan".to_string(), &mut db);
    assert!(refused.is_err());
    assert_eq!(File::get(1, &db), Some(record));
    assert_eq!(File::fetch_file(1, &db), Ok(served));
    assert_eq!(db.open_blob(1), Some(b"first".to_vec()));
}
