//! Fixed vectors for the request-URL builders of the object REST API,
//! and the timestamp renderings they and the signer share.

use cloud_storage::urls::{
    compose_url, copy_url, download_media_url, list_url, object_url, rewrite_url, upload_url,
};
use cloud_storage::timestamp::{format_date, format_datetime, Timestamp};

fn s(v: Vec<u8>) -> String {
    String::from_utf8(v).unwrap()
}

#[test]
fn object_url_encodes_both_names() {
    assert_eq!(
        s(object_url(b"my_bucket", b"path/to/file.png")),
        "https://www.googleapis.com/storage/v1/b/my_bucket/o/path%2Fto%2Ffile.png"
    );
}

#[test]
fn download_media_url_appends_alt_media() {
    assert_eq!(
        s(download_media_url(b"my_bucket", b"file")),
        "https://www.googleapis.com/storage/v1/b/my_bucket/o/file?alt=media"
    );
}

#[test]
fn upload_url_uses_the_upload_base() {
    assert_eq!(
        s(upload_url(b"my_bucket", b"test create")),
        "https://www.googleapis.com/upload/storage/v1/b/my_bucket/o?uploadType=media&name=test%20create"
    );
}

#[test]
fn list_url_names_the_bucket() {
    assert_eq!(s(list_url(b"my_bucket")), "https://www.googleapis.com/storage/v1/b/my_bucket/o");
}

#[test]
fn compose_url_targets_the_destination() {
    assert_eq!(
        s(compose_url(b"my_bucket", b"test-concatted-file")),
        "https://www.googleapis.com/storage/v1/b/my_bucket/o/test-concatted-file/compose"
    );
}

#[test]
fn copy_and_rewrite_urls() {
    assert_eq!(
        s(copy_url(b"b1", b"test-copy", b"b2", b"test-copy - copy")),
        "https://www.googleapis.com/storage/v1/b/b1/o/test-copy/copyTo/b/b2/o/test-copy%20-%20copy"
    );
    assert_eq!(
        s(rewrite_url(b"b1", b"test-rewrite", b"b2", b"test-rewritten")),
        "https://www.googleapis.com/storage/v1/b/b1/o/test-rewrite/rewriteTo/b/b2/o/test-rewritten"
    );
}

#[test]
fn timestamp_renderings_are_zero_padded() {
    let ts = Timestamp::new(2021, 3, 4, 10, 0, 0).unwrap();
    assert_eq!(s(format_date(&ts)), "20210304");
    assert_eq!(s(format_datetime(&ts)), "20210304T100000Z");
    let ts = Timestamp::new(999, 12, 31, 23, 59, 59).unwrap();
    assert_eq!(s(format_datetime(&ts)), "09991231T235959Z");
}

#[test]
fn timestamp_rejects_out_of_range_fields() {
    assert!(Timestamp::new(2021, 0, 4, 10, 0, 0).is_none());
    assert!(Timestamp::new(2021, 13, 4, 10, 0, 0).is_none());
    assert!(Timestamp::new(2021, 3, 32, 10, 0, 0).is_none());
    assert!(Timestamp::new(2021, 3, 4, 24, 0, 0).is_none());
    assert!(Timestamp::new(2021, 3, 4, 10, 60, 0).is_none());
    assert!(Timestamp::new(2021, 3, 4, 10, 0, 60).is_none());
    assert!(Timestamp::new(10000, 3, 4, 10, 0, 0).is_none());
    assert!(Timestamp::now().is_some());
}
