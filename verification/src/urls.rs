//! Request URLs of the object REST API. Each builder is the computational
//! half of one API operation: the surrounding application performs the HTTP
//! exchange, the URL itself is specified and proved here. Bucket and object
//! names go through the strict percent-encoder.

use vstd::prelude::*;

use crate::encoding::{percent_encode, strict_encoded};
use crate::signing::{push_all, str_bytes};

verus! {

/// URL naming one object: `{base}/b/{bucket}/o/{object}`, both names
/// strict-encoded. Used to read, update and delete an object.
pub open spec fn spec_object_url(bucket: Seq<u8>, object: Seq<u8>) -> Seq<u8> {
    str_bytes("https://www.googleapis.com/storage/v1/b/") + strict_encoded(bucket) + str_bytes(
        "/o/",
    ) + strict_encoded(object)
}

/// Builds the URL naming one object.
pub fn object_url(bucket: &[u8], object: &[u8]) -> (r: Vec<u8>)
    ensures
        r@ == spec_object_url(bucket@, object@),
{
    let encoded_bucket = percent_encode(bucket);
    let encoded_object = percent_encode(object);
    let mut out: Vec<u8> = Vec::new();
    push_all(&mut out, "https://www.googleapis.com/storage/v1/b/".as_bytes());
    push_all(&mut out, encoded_bucket.as_slice());
    push_all(&mut out, "/o/".as_bytes());
    push_all(&mut out, encoded_object.as_slice());
    proof {
        assert(out@ =~= spec_object_url(bucket@, object@));
    }
    out
}

/// URL that downloads an object's content: the object URL with `?alt=media`.
pub open spec fn spec_download_media_url(bucket: Seq<u8>, object: Seq<u8>) -> Seq<u8> {
    spec_object_url(bucket, object) + str_bytes("?alt=media")
}

/// Builds the content-download URL of an object.
pub fn download_media_url(bucket: &[u8], object: &[u8]) -> (r: Vec<u8>)
    ensures
        r@ == spec_download_media_url(bucket@, object@),
{
    let mut out = object_url(bucket, object);
    push_all(&mut out, "?alt=media".as_bytes());
    out
}

/// URL of the media upload endpoint, which lives under its own base:
/// `{upload base}/{bucket}/o?uploadType=media&name={object}`.
pub open spec fn spec_upload_url(bucket: Seq<u8>, object: Seq<u8>) -> Seq<u8> {
    str_bytes("https://www.googleapis.com/upload/storage/v1/b/") + strict_encoded(bucket)
        + str_bytes("/o?uploadType=media&name=") + strict_encoded(object)
}

/// Builds the media upload URL for a new object.
pub fn upload_url(bucket: &[u8], object: &[u8]) -> (r: Vec<u8>)
    ensures
        r@ == spec_upload_url(bucket@, object@),
{
    let encoded_bucket = percent_encode(bucket);
    let encoded_object = percent_encode(object);
    let mut out: Vec<u8> = Vec::new();
    push_all(&mut out, "https://www.googleapis.com/upload/storage/v1/b/".as_bytes());
    push_all(&mut out, encoded_bucket.as_slice());
    push_all(&mut out, "/o?uploadType=media&name=".as_bytes());
    push_all(&mut out, encoded_object.as_slice());
    proof {
        assert(out@ =~= spec_upload_url(bucket@, object@));
    }
    out
}

/// URL listing the objects of a bucket: `{base}/b/{bucket}/o`.
pub open spec fn spec_list_url(bucket: Seq<u8>) -> Seq<u8> {
    str_bytes("https://www.googleapis.com/storage/v1/b/") + strict_encoded(bucket) + str_bytes(
        "/o",
    )
}

/// Builds the listing URL of a bucket.
pub fn list_url(bucket: &[u8]) -> (r: Vec<u8>)
    ensures
        r@ == spec_list_url(bucket@),
{
    let encoded_bucket = percent_encode(bucket);
    let mut out: Vec<u8> = Vec::new();
    push_all(&mut out, "https://www.googleapis.com/storage/v1/b/".as_bytes());
    push_all(&mut out, encoded_bucket.as_slice());
    push_all(&mut out, "/o".as_bytes());
    proof {
        assert(out@ =~= spec_list_url(bucket@));
    }
    out
}

/// URL of the compose endpoint: the destination object's URL plus
/// `/compose`.
pub open spec fn spec_compose_url(bucket: Seq<u8>, destination: Seq<u8>) -> Seq<u8> {
    spec_object_url(bucket, destination) + str_bytes("/compose")
}

/// Builds the compose URL for a destination object.
pub fn compose_url(bucket: &[u8], destination: &[u8]) -> (r: Vec<u8>)
    ensures
        r@ == spec_compose_url(bucket@, destination@),
{
    let mut out = object_url(bucket, destination);
    push_all(&mut out, "/compose".as_bytes());
    out
}

/// URL of the copy endpoint: the source object's URL plus
/// `/copyTo/b/{destination bucket}/o/{destination object}`.
pub open spec fn spec_copy_url(
    source_bucket: Seq<u8>,
    source_object: Seq<u8>,
    destination_bucket: Seq<u8>,
    destination_object: Seq<u8>,
) -> Seq<u8> {
    spec_object_url(source_bucket, source_object) + str_bytes("/copyTo/b/") + strict_encoded(
        destination_bucket,
    ) + str_bytes("/o/") + strict_encoded(destination_object)
}

/// Builds the copy URL from a source object to a destination.
pub fn copy_url(
    source_bucket: &[u8],
    source_object: &[u8],
    destination_bucket: &[u8],
    destination_object: &[u8],
) -> (r: Vec<u8>)
    ensures
        r@ == spec_copy_url(
            source_bucket@,
            source_object@,
            destination_bucket@,
            destination_object@,
        ),
{
    let encoded_bucket = percent_encode(destination_bucket);
    let encoded_object = percent_encode(destination_object);
    let mut out = object_url(source_bucket, source_object);
    push_all(&mut out, "/copyTo/b/".as_bytes());
    push_all(&mut out, encoded_bucket.as_slice());
    push_all(&mut out, "/o/".as_bytes());
    push_all(&mut out, encoded_object.as_slice());
    proof {
        assert(out@ =~= spec_copy_url(
            source_bucket@,
            source_object@,
            destination_bucket@,
            destination_object@,
        ));
    }
    out
}

/// URL of the rewrite endpoint: as the copy URL, with `/rewriteTo/b/`.
pub open spec fn spec_rewrite_url(
    source_bucket: Seq<u8>,
    source_object: Seq<u8>,
    destination_bucket: Seq<u8>,
    destination_object: Seq<u8>,
) -> Seq<u8> {
    spec_object_url(source_bucket, source_object) + str_bytes("/rewriteTo/b/") + strict_encoded(
        destination_bucket,
    ) + str_bytes("/o/") + strict_encoded(destination_object)
}

/// Builds the rewrite URL from a source object to a destination.
pub fn rewrite_url(
    source_bucket: &[u8],
    source_object: &[u8],
    destination_bucket: &[u8],
    destination_object: &[u8],
) -> (r: Vec<u8>)
    ensures
        r@ == spec_rewrite_url(
            source_bucket@,
            source_object@,
            destination_bucket@,
            destination_object@,
        ),
{
    let encoded_bucket = percent_encode(destination_bucket);
    let encoded_object = percent_encode(destination_object);
    let mut out = object_url(source_bucket, source_object);
    push_all(&mut out, "/rewriteTo/b/".as_bytes());
    push_all(&mut out, encoded_bucket.as_slice());
    push_all(&mut out, "/o/".as_bytes());
    push_all(&mut out, encoded_object.as_slice());
    proof {
        assert(out@ =~= spec_rewrite_url(
            source_bucket@,
            source_object@,
            destination_bucket@,
            destination_object@,
        ));
    }
    out
}

} // verus!
