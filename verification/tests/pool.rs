use blaze_transfer::backblaze::{B2Authorization, BlazeCache, BlazeError, UploadUrlResponse};
use blaze_transfer::error::TransferError;
use blaze_transfer::url_cache::{BlazeUploadUrlCache, PREFILL_COUNT};

fn endpoint(n: usize) -> UploadUrlResponse {
    UploadUrlResponse {
        authorization_token: format!("token-{}", n),
        bucket_id: "bucket".to_string(),
        upload_url: format!("https://pod.example.com/{}", n),
    }
}

fn filled(n: usize) -> BlazeUploadUrlCache {
    let mut pool = BlazeUploadUrlCache::new();
    for i in 0..n {
        assert!(pool.return_upload_url(endpoint(i)).is_ok());
    }
    pool
}

#[test]
fn new_pool_is_empty() {
    let pool = BlazeUploadUrlCache::new();
    assert_eq!(pool.idle(), 0);
    assert!(pool.needs_prefill());
}

#[test]
fn prefill_takes_twenty_endpoints() {
    assert_eq!(PREFILL_COUNT, 20);
    let mut pool = BlazeUploadUrlCache::new();
    let mut minted = 0;
    while pool.needs_prefill() {
        assert!(pool.prefill(Ok(endpoint(minted))).is_ok());
        minted += 1;
    }
    assert_eq!(minted, 20);
    assert_eq!(pool.idle(), 20);
}

#[test]
fn prefill_hands_a_failure_back_and_keeps_the_pool() {
    let mut pool = filled(3);
    let failure =
        BlazeError { status: 500, code: "c".to_string(), message: "m".to_string() };
    match pool.prefill(Err(TransferError::Blaze(failure))) {
        Err(TransferError::Blaze(e)) => assert_eq!(e.status, 500),
        other => panic!("unexpected: {:?}", other),
    }
    assert_eq!(pool.idle(), 3);
    assert!(pool.needs_prefill());
}

#[test]
fn take_on_an_empty_pool_answers_at_once_with_none() {
    let mut pool = BlazeUploadUrlCache::new();
    assert!(pool.take_upload_url().is_none());
    assert_eq!(pool.idle(), 0);
}

#[test]
fn take_hands_out_the_endpoint_returned_last() {
    let mut pool = filled(3);
    match pool.take_upload_url() {
        Some(url) => assert_eq!(url.authorization_token, "token-2"),
        None => panic!("pool was not empty"),
    }
    assert!(pool.return_upload_url(endpoint(9)).is_ok());
    match pool.take_upload_url() {
        Some(url) => {
            assert_eq!(url.authorization_token, "token-9");
            assert_eq!(url.upload_url, "https://pod.example.com/9");
            assert_eq!(url.bucket_id, "bucket");
        }
        None => panic!("pool was not empty"),
    }
    assert_eq!(pool.idle(), 2);
}

#[test]
fn return_has_no_upper_limit() {
    let mut pool = filled(20);
    assert!(!pool.needs_prefill());
    for i in 0..15 {
        assert!(pool.return_upload_url(endpoint(100 + i)).is_ok());
    }
    assert_eq!(pool.idle(), 35);
}

#[test]
fn idle_count_is_initial_plus_releases_minus_served_leases() {
    // true: lease, false: release
    let scripts: [(usize, &[bool]); 5] = [
        (0, &[true, true, false, true, true, false, false, true]),
        (2, &[true, true, true, true, false, true]),
        (3, &[false, false, true]),
        (0, &[]),
        (1, &[true, false, true, false, true, false, true, true, true]),
    ];
    for (initial, script) in scripts {
        let mut pool = filled(initial);
        let mut releases = 0;
        let mut served = 0;
        for (i, lease) in script.iter().enumerate() {
            if *lease {
                if pool.take_upload_url().is_some() {
                    served += 1;
                }
            } else {
                assert!(pool.return_upload_url(endpoint(50 + i)).is_ok());
                releases += 1;
            }
        }
        assert_eq!(pool.idle(), initial + releases - served);
    }
}

#[test]
fn new_upload_url_asks_under_the_cached_authorization() {
    let blaze = BlazeCache {
        last_updated: 0,
        auth: B2Authorization {
            account_id: "acct".to_string(),
            authorization_token: "tok".to_string(),
            api_url: "https://api".to_string(),
            download_url: "https://dl".to_string(),
            recommended_part_size: 1,
            absolute_minimum_part_size: 1,
        },
    };
    let request = match BlazeUploadUrlCache::new_upload_url(&blaze, "bkt") {
        Ok(request) => request,
        Err(e) => panic!("failed: {:?}", e),
    };
    assert_eq!(request.url, "https://api/b2api/v2/b2_get_upload_url");
    assert_eq!(request.authorization, "tok");
    assert_eq!(request.body.as_deref(), Some("{\"bucketId\":\"bkt\"}"));
}
