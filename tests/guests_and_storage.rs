use faas::error::{AppError, FailureKind};
use faas::guest::{fibonacci, greeting, listed_file, listing};
use faas::storage::{
    attachment_disposition, bucket_created, bucket_deleted, bucket_listing, check_upload_size, file_deleted,
    file_uploaded, missing_file_error, Config, MAX_UPLOAD_BYTES,
};

#[test]
fn fibonacci_answers() {
    assert_eq!(fibonacci(10), Some(144));
    assert_eq!(fibonacci(0), Some(1));
    assert_eq!(fibonacci(1), Some(2));
    assert_eq!(fibonacci(10), fibonacci(10));
    assert_eq!(fibonacci(45), Some(2971215073));
    assert_eq!(fibonacci(46), None);
    assert_eq!(fibonacci(u32::MAX), None);
}

#[test]
fn greeting_answers() {
    assert_eq!(greeting("James"), "Hello James, how are you?");
    assert_eq!(greeting("Zoë 東京 🦀"), "Hello Zoë 東京 🦀, how are you?");
    assert_eq!(greeting(""), "Hello , how are you?");
}

#[test]
fn listed_objects_default_missing_parts() {
    let f = listed_file(Some("a.wasm".to_string()), Some(42));
    assert_eq!((f.name.as_str(), f.size), ("a.wasm", 42));
    let g = listed_file(None, None);
    assert_eq!((g.name.as_str(), g.size), ("", 0));
    let h = listed_file(Some("x".to_string()), Some(-1));
    assert_eq!(h.size, u64::MAX);
}

#[test]
fn listing_success_and_failure() {
    let ok = listing(Ok(vec![(Some("a".to_string()), Some(1)), (None, Some(2))]));
    assert!(ok.success);
    assert_eq!(ok.files.len(), 2);
    assert_eq!((ok.files[1].name.as_str(), ok.files[1].size), ("", 2));
    let err = listing(Err("connection refused".to_string()));
    assert!(!err.success);
    assert!(err.files.is_empty());
}

#[test]
fn docker_config() {
    let c = Config::docker();
    assert_eq!(c.region, "eu-west-1");
    assert_eq!(c.access_key_id, "rustfsadmin");
    assert_eq!(c.secret_access_key, "rustfsadmin");
    assert_eq!(c.endpoint_url, "http://localhost:9000");
}

#[test]
fn bucket_listing_skips_keyless_objects() {
    let r = bucket_listing(vec![Some("b".to_string()), None, Some("a".to_string())]);
    assert_eq!(r.files, vec!["b".to_string(), "a".to_string()]);
    assert!(bucket_listing(Vec::new()).files.is_empty());
}

#[test]
fn upload_size_limit() {
    assert_eq!(MAX_UPLOAD_BYTES, 50 * 1024 * 1024);
    assert!(check_upload_size(0).is_ok());
    assert!(check_upload_size(MAX_UPLOAD_BYTES).is_ok());
    match check_upload_size(MAX_UPLOAD_BYTES + 1) {
        Err(AppError::Internal(m)) => assert_eq!(m, "File too large. Maximum size is 50MB"),
        other => panic!("unexpected {:?}", other),
    }
    match missing_file_error() {
        AppError::Internal(m) => assert_eq!(m, "Missing file in multipart"),
        other => panic!("unexpected {:?}", other),
    }
}

#[test]
fn api_messages() {
    assert_eq!(bucket_created("faas-modules"), "Bucket faas-modules created");
    assert_eq!(bucket_deleted("faas-modules"), "Bucket faas-modules deleted");
    assert_eq!(file_uploaded("hello.wasm", "faas-modules"), "File hello.wasm uploaded to faas-modules");
    assert_eq!(file_deleted("hello.wasm", "faas-modules"), "File hello.wasm deleted from faas-modules");
    assert_eq!(attachment_disposition("hello.wasm"), "attachment; filename=\"hello.wasm\"");
}

#[test]
fn error_messages() {
    let e = AppError::from_s3(Some("NoSuchBucket".to_string()), Some("gone".to_string()));
    assert_eq!(e.message(), "NoSuchBucket: gone");
    let d = AppError::from_s3(None, None);
    assert_eq!(d.message(), ": ");
    let l = AppError::from_failure(FailureKind::Link, "missing".to_string());
    assert!(matches!(l, AppError::Link(_)));
    assert_eq!(l.message(), "missing");
    assert!(matches!(AppError::from_failure(FailureKind::GuestTrap, String::new()), AppError::GuestTrap(_)));
}
