use crate::error::AppError;
use vstd::prelude::*;
use vstd::string::StringExecFns;

verus! {

/// Where the artifact store is and how to sign in to it.
pub struct Config {
    pub region: String,
    pub access_key_id: String,
    pub secret_access_key: String,
    pub endpoint_url: String,
}

impl Config {
    /// The store of the local development setup.
    pub fn docker() -> (r: Config)
        ensures
            r.region@ == "eu-west-1"@,
            r.access_key_id@ == "rustfsadmin"@,
            r.secret_access_key@ == "rustfsadmin"@,
            r.endpoint_url@ == "http://localhost:9000"@,
    {
        Config {
            region: String::from_str("eu-west-1"),
            access_key_id: String::from_str("rustfsadmin"),
            secret_access_key: String::from_str("rustfsadmin"),
            endpoint_url: String::from_str("http://localhost:9000"),
        }
    }
}

/// The keys of the objects in a bucket.
pub struct BucketListResponse {
    pub files: Vec<String>,
}

/// The keys that are present, in their order.
pub open spec fn present_keys(keys: Seq<Option<String>>) -> Seq<Seq<char>>
    decreases keys.len(),
{
    if keys.len() == 0 {
        Seq::empty()
    } else {
        let rest = present_keys(keys.drop_last());
        match keys.last() {
            Some(k) => rest.push(k@),
            None => rest,
        }
    }
}

/// The listing of a bucket from the keys of its objects as the store lists
/// them: objects without a key are left out, the order is kept.
pub fn bucket_listing(keys: Vec<Option<String>>) -> (r: BucketListResponse)
    ensures
        r.files@.map_values(|f: String| f@) == present_keys(keys@),
{
    let mut files: Vec<String> = Vec::new();
    let mut i: usize = 0;
    while i < keys.len()
        invariant
            i <= keys@.len(),
            files@.map_values(|f: String| f@) == present_keys(keys@.subrange(0, i as int)),
        decreases keys@.len() - i,
    {
        let ghost before = files@;
        assert(keys@.subrange(0, i + 1).drop_last() =~= keys@.subrange(0, i as int));
        match &keys[i] {
            Some(k) => {
                files.push(k.clone());
                assert(files@.map_values(|f: String| f@) =~= before.map_values(|f: String| f@).push(
                    k@,
                ));
            },
            None => {},
        }
        i = i + 1;
    }
    assert(keys@.subrange(0, keys@.len() as int) =~= keys@);
    BucketListResponse { files }
}

/// Uploads larger than this many bytes are refused: 50 MiB.
pub const MAX_UPLOAD_BYTES: usize = 52428800;

/// Checks the size of an upload.
pub fn check_upload_size(len: usize) -> (r: Result<(), AppError>)
    ensures
        r is Ok <==> len <= MAX_UPLOAD_BYTES,
        r is Err ==> (r->Err_0 matches AppError::Internal(m) && m@
            == "File too large. Maximum size is 50MB"@),
{
    if len > MAX_UPLOAD_BYTES {
        Err(AppError::Internal(String::from_str("File too large. Maximum size is 50MB")))
    } else {
        Ok(())
    }
}

/// The error of a multipart upload without a `file` field.
pub fn missing_file_error() -> (r: AppError)
    ensures
        r matches AppError::Internal(m) && m@ == "Missing file in multipart"@,
{
    AppError::Internal(String::from_str("Missing file in multipart"))
}

/// `Bucket <bucket> created`
pub fn bucket_created(bucket: &str) -> (r: String)
    ensures
        r@ == "Bucket "@ + bucket@ + " created"@,
{
    String::from_str("Bucket ").concat(bucket).concat(" created")
}

/// `Bucket <bucket> deleted`
pub fn bucket_deleted(bucket: &str) -> (r: String)
    ensures
        r@ == "Bucket "@ + bucket@ + " deleted"@,
{
    String::from_str("Bucket ").concat(bucket).concat(" deleted")
}

/// `File <key> uploaded to <bucket>`
pub fn file_uploaded(key: &str, bucket: &str) -> (r: String)
    ensures
        r@ == "File "@ + key@ + " uploaded to "@ + bucket@,
{
    String::from_str("File ").concat(key).concat(" uploaded to ").concat(bucket)
}

/// `File <key> deleted from <bucket>`
pub fn file_deleted(key: &str, bucket: &str) -> (r: String)
    ensures
        r@ == "File "@ + key@ + " deleted from "@ + bucket@,
{
    String::from_str("File ").concat(key).concat(" deleted from ").concat(bucket)
}

/// The content disposition of a downloaded object: `attachment; filename="<key>"`.
pub fn attachment_disposition(key: &str) -> (r: String)
    ensures
        r@ == "attachment; filename=\""@ + key@ + "\""@,
{
    String::from_str("attachment; filename=\"").concat(key).concat("\"")
}

} // verus!
