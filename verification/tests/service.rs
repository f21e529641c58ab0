use sangjeom::auth::{AuthError, TokenAuth};
use sangjeom::conf::Conf;
use sangjeom::error::AttachmentError;
use sangjeom::layout::{blob_path, static_path};
use sangjeom::static_files::{
    download_static_file, get_file, get_static_file, StaticFile, StaticFileError, StaticResponse,
};

fn conf() -> Conf {
    let mut conf = Conf::new();
    conf.insert("alice".to_string(), "secret-a".to_string());
    conf.insert("bob".to_string(), "secret-b".to_string());
    conf
}

#[test]
fn a_known_token_resolves_to_its_owner() {
    let conf = conf();
    assert_eq!(
        TokenAuth::from_request(Some("secret-a"), &conf),
        Ok(TokenAuth { owner: "alice".to_string() })
    );
    assert_eq!(
        TokenAuth::from_request(Some("secret-b"), &conf),
        Ok(TokenAuth { owner: "bob".to_string() })
    );
}

#[test]
fn a_request_without_a_known_token_is_refused() {
    let conf = conf();
    assert_eq!(TokenAuth::from_request(None, &conf), Err(AuthError));
    assert_eq!(TokenAuth::from_request(Some("secret-c"), &conf), Err(AuthError));
    assert_eq!(TokenAuth::from_request(Some("alice"), &conf), Err(AuthError));
    assert_eq!(TokenAuth::from_request(Some(""), &conf), Err(AuthError));
    assert_eq!(TokenAuth::from_request(Some("secret-a"), &Conf::new()), Err(AuthError));
}

#[test]
fn an_owner_has_one_token() {
    let mut conf = conf();
    conf.insert("alice".to_string(), "renewed".to_string());
    assert_eq!(conf.owner_of("secret-a"), None);
    assert_eq!(conf.owner_of("renewed"), Some("alice".to_string()));
    assert_eq!(conf.owner_of("secret-b"), Some("bob".to_string()));
}

#[test]
fn a_shared_token_resolves_to_the_first_owner() {
    let mut conf = conf();
    conf.insert("carol".to_string(), "secret-a".to_string());
    assert_eq!(conf.owner_of("secret-a"), Some("alice".to_string()));
}

#[test]
fn blob_paths_are_files_and_the_identifier() {
    assert_eq!(blob_path(1), "files/1");
    assert_eq!(blob_path(0), "files/0");
    assert_eq!(blob_path(10), "files/10");
    assert_eq!(blob_path(1234567890), "files/1234567890");
    assert_eq!(blob_path(-5), "files/-5");
    for id in [9, 99, 100, 101, 4096, -1, -10, i64::MAX, i64::MIN, i64::MIN + 1] {
        assert_eq!(blob_path(id), format!("files/{}", id));
    }
}

#[test]
fn static_paths_are_under_files_static() {
    assert_eq!(static_path("logo.png"), "files/static/logo.png");
}

#[test]
fn a_static_asset_is_found_by_its_file_name() {
    assert_eq!(
        get_file("logo.png"),
        Ok(StaticFile {
            file_name: "logo.png".to_string(),
            extension: Some("png".to_string()),
            path: "files/static/logo.png".to_string(),
        })
    );
    assert_eq!(
        get_file("../../etc/passwd"),
        Ok(StaticFile {
            file_name: "passwd".to_string(),
            extension: None,
            path: "files/static/passwd".to_string(),
        })
    );
    assert_eq!(get_file(".."), Err(StaticFileError::InvalidName));
    assert_eq!(get_file(""), Err(StaticFileError::InvalidName));
}

#[test]
fn a_static_asset_is_served_inline_or_as_a_download() {
    assert_eq!(
        get_static_file("css/site.css"),
        Ok(StaticResponse {
            path: "files/static/site.css".to_string(),
            disposition: "inline; filename=\"site.css\"".to_string(),
            extension: Some("css".to_string()),
        })
    );
    assert_eq!(
        download_static_file("css/site.css"),
        Ok(StaticResponse {
            path: "files/static/site.css".to_string(),
            disposition: "attachment; filename=\"site.css\"".to_string(),
            extension: Some("css".to_string()),
        })
    );
    assert_eq!(get_static_file("/"), Err(StaticFileError::InvalidName));
    assert_eq!(download_static_file("."), Err(StaticFileError::InvalidName));
}

#[test]
fn static_errors_have_their_texts() {
    assert_eq!(StaticFileError::InvalidName.message(), "Invalid file name");
    assert_eq!(StaticFileError::NotFound.message(), "File not found");
    assert_eq!(
        StaticFileError::Unavailable.message(),
        "Failed to get static file from storage"
    );
    assert_eq!(StaticFileError::on_open_failure(true), StaticFileError::NotFound);
    assert_eq!(StaticFileError::on_open_failure(false), StaticFileError::Unavailable);
}

#[test]
fn errors_have_their_texts() {
    assert_eq!(AttachmentError::EmptyUpload.message(), "Cannot upload an empty file");
    assert_eq!(
        AttachmentError::InvalidName.message(),
        "Invalid file name. File name must be between 1 and 256 characters long"
    );
    assert_eq!(AttachmentError::NotFound.message(), "File not found");
    assert_eq!(AttachmentError::StorageFailure.message(), "Error fetching file");
    assert_eq!(AttachmentError::MetadataFailure.message(), "Error accessing file records");
    assert_eq!(AttachmentError::ClassificationFailure.message(), "Error classifying file");
}
