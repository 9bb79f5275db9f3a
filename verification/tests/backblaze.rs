use blaze_transfer::backblaze::{
    bucket_query, encode_file_name, get_or_update_blaze_cache, prefix_query, reply_or_text,
    B2AuthResponse, B2Authorization, BlazeCache, BlazeError, CacheChoice, Credentials, Method,
    UploadUrlResponse, API_URL_V2, CACHE_SECONDS,
};
use blaze_transfer::error::TransferError;

fn auth() -> B2Authorization {
    B2Authorization {
        account_id: "acct".to_string(),
        authorization_token: "token-1".to_string(),
        api_url: "https://api001.example.com".to_string(),
        download_url: "https://f001.example.com".to_string(),
        recommended_part_size: 100_000_000,
        absolute_minimum_part_size: 5_000_000,
    }
}

fn endpoint(n: u32) -> UploadUrlResponse {
    UploadUrlResponse {
        authorization_token: format!("upload-token-{}", n),
        bucket_id: "bucket".to_string(),
        upload_url: format!("https://pod.example.com/upload/{}", n),
    }
}

fn bad_json() -> serde_json::Error {
    match serde_json::from_str::<serde_json::Value>("{") {
        Ok(_) => unreachable!(),
        Err(e) => e,
    }
}

#[test]
fn encode_file_name_leaves_plain_names() {
    assert_eq!(encode_file_name("photos/2020/cat.jpg".to_string()), "photos/2020/cat.jpg");
    assert_eq!(encode_file_name(String::new()), "");
}

#[test]
fn encode_file_name_replaces_backslashes_and_spaces() {
    assert_eq!(encode_file_name("a b".to_string()), "a%20b");
    assert_eq!(encode_file_name("dir\\file name.txt".to_string()), "dir-file%20name.txt");
    assert_eq!(encode_file_name("  ".to_string()), "%20%20");
    assert_eq!(encode_file_name("\\\\".to_string()), "--");
}

#[test]
fn encode_file_name_agrees_with_two_replacements() {
    let names = ["", "plain", "a b\\c", " \\ \\ ", "ünï cödé \\ x", "%20-", "tab\tand\nline"];
    for name in names {
        let expected = name.replace("\\", "-").replace(" ", "%20");
        assert_eq!(encode_file_name(name.to_string()), expected);
    }
}

#[test]
fn credentials_keep_id_and_key() {
    let creds = Credentials::new("id", "key");
    assert_eq!(creds.id, "id");
    assert_eq!(creds.key, "key");
    assert_eq!(creds.header_name(), "Authorization");
    assert_eq!(creds.id_key(), "id:key");
}

#[test]
fn auth_string_is_basic_and_base64() {
    assert_eq!(Credentials::new("id", "key").auth_string(), "Basic aWQ6a2V5");
    assert_eq!(
        Credentials::new("0012abc", "K001secret").auth_string(),
        "Basic MDAxMmFiYzpLMDAxc2VjcmV0"
    );
    assert_eq!(Credentials::new("", "").auth_string(), "Basic Og==");
}

#[test]
fn authorize_asks_the_account_service() {
    let request = Credentials::new("id", "key").authorize();
    assert_eq!(request.method, Method::Get);
    assert_eq!(request.url, "https://api.backblazeb2.com/b2api/v2/b2_authorize_account");
    assert_eq!(request.url, format!("{}/b2_authorize_account", API_URL_V2));
    assert_eq!(request.authorization, "Basic aWQ6a2V5");
    assert!(request.body.is_none());
}

#[test]
fn authorized_builds_the_authorization() {
    let creds = Credentials::new("my-id", "key");
    let reply = B2AuthResponse {
        absolute_minimum_part_size: 5,
        api_url: "https://api".to_string(),
        authorization_token: "tok".to_string(),
        download_url: "https://dl".to_string(),
        recommended_part_size: 100,
    };
    let auth = match creds.authorized(Ok(reply)) {
        Ok(auth) => auth,
        Err(e) => panic!("refused: {:?}", e),
    };
    assert_eq!(auth.account_id, "my-id");
    assert_eq!(auth.authorization_token, "tok");
    assert_eq!(auth.api_url, "https://api");
    assert_eq!(auth.download_url, "https://dl");
    assert_eq!(auth.recommended_part_size, 100);
    assert_eq!(auth.absolute_minimum_part_size, 5);
}

#[test]
fn authorized_reports_a_refusal_in_fixed_words() {
    let creds = Credentials::new("my-id", "key");
    match creds.authorized(Err("{\"status\":401}".to_string())) {
        Err(TransferError::Text(text)) => assert_eq!(text, "Authorization Error"),
        other => panic!("unexpected: {:?}", other),
    }
}

#[test]
fn b2_authorization_new_moves_every_field() {
    let reply = B2AuthResponse {
        absolute_minimum_part_size: 1,
        api_url: "a".to_string(),
        authorization_token: "b".to_string(),
        download_url: "c".to_string(),
        recommended_part_size: 2,
    };
    let auth = B2Authorization::new("id".to_string(), reply);
    assert_eq!(auth.account_id, "id");
    assert_eq!(auth.api_url, "a");
    assert_eq!(auth.authorization_token, "b");
    assert_eq!(auth.download_url, "c");
    assert_eq!(auth.recommended_part_size, 2);
    assert_eq!(auth.absolute_minimum_part_size, 1);
}

#[test]
fn get_upload_url_request_is_exact() {
    let request = match auth().get_upload_url("bucket-9") {
        Ok(request) => request,
        Err(e) => panic!("failed: {:?}", e),
    };
    assert_eq!(request.method, Method::Post);
    assert_eq!(request.url, "https://api001.example.com/b2api/v2/b2_get_upload_url");
    assert_eq!(request.authorization, "token-1");
    assert_eq!(request.body.as_deref(), Some("{\"bucketId\":\"bucket-9\"}"));
}

#[test]
fn get_upload_url_escapes_the_bucket_id() {
    let request = match auth().get_upload_url("a\"b\\c\n") {
        Ok(request) => request,
        Err(e) => panic!("failed: {:?}", e),
    };
    assert_eq!(request.body.as_deref(), Some("{\"bucketId\":\"a\\\"b\\\\c\\n\"}"));
}

#[test]
fn get_upload_url_body_is_what_the_encoder_writes_for_the_object() {
    for bucket in ["", "plain", "with \"quotes\"", "line\nbreak", "ünï"] {
        let mut object = serde_json::Map::new();
        object.insert("bucketId".to_string(), serde_json::Value::String(bucket.to_string()));
        let expected = match serde_json::to_string(&serde_json::Value::Object(object)) {
            Ok(text) => text,
            Err(e) => panic!("encoder failed: {}", e),
        };
        let request = match auth().get_upload_url(bucket) {
            Ok(request) => request,
            Err(e) => panic!("failed: {:?}", e),
        };
        assert_eq!(request.body, Some(expected));
    }
}

#[test]
fn requests_are_made_for_every_text() {
    let texts = ["", "plain", "\u{0}\u{1f}", "\"\\/", "\u{7f}\u{80}\u{ffff}\u{10ffff}", "\t\r\n"];
    for text in texts {
        assert!(auth().get_upload_url(text).is_ok(), "text {:?}", text);
        assert!(auth().list_file_names(text, text).is_ok(), "text {:?}", text);
    }
}

#[test]
fn list_file_names_request_is_exact() {
    let request = match auth().list_file_names("photos/", "bucket-9") {
        Ok(request) => request,
        Err(e) => panic!("failed: {:?}", e),
    };
    assert_eq!(request.method, Method::Post);
    assert_eq!(request.url, "https://api001.example.com/b2api/v2/b2_list_file_names");
    assert_eq!(request.authorization, "token-1");
    assert_eq!(
        request.body.as_deref(),
        Some("{\"bucketId\":\"bucket-9\",\"prefix\":\"photos/\"}")
    );
}

#[test]
fn list_file_names_body_is_what_the_encoder_writes_for_the_object() {
    let mut object = serde_json::Map::new();
    object.insert("bucketId".to_string(), serde_json::Value::String("b \"1\"".to_string()));
    object.insert("prefix".to_string(), serde_json::Value::String("p\\q".to_string()));
    let expected = match serde_json::to_string(&serde_json::Value::Object(object)) {
        Ok(text) => text,
        Err(e) => panic!("encoder failed: {}", e),
    };
    let request = match auth().list_file_names("p\\q", "b \"1\"") {
        Ok(request) => request,
        Err(e) => panic!("failed: {:?}", e),
    };
    assert_eq!(request.body, Some(expected));
}

#[test]
fn bucket_query_frames_the_id_or_passes_the_failure_on() {
    match bucket_query(Ok("\"x\"".to_string())) {
        Ok(body) => assert_eq!(body, "{\"bucketId\":\"x\"}"),
        Err(e) => panic!("failed: {:?}", e),
    }
    assert!(matches!(bucket_query(Err(bad_json())), Err(TransferError::Json(_))));
}

#[test]
fn prefix_query_frames_both_or_passes_the_failure_on() {
    match prefix_query(Ok("\"b\"".to_string()), Ok("\"p\"".to_string())) {
        Ok(body) => assert_eq!(body, "{\"bucketId\":\"b\",\"prefix\":\"p\"}"),
        Err(e) => panic!("failed: {:?}", e),
    }
    assert!(matches!(
        prefix_query(Err(bad_json()), Ok("\"p\"".to_string())),
        Err(TransferError::Json(_))
    ));
    assert!(matches!(
        prefix_query(Ok("\"b\"".to_string()), Err(bad_json())),
        Err(TransferError::Json(_))
    ));
}

#[test]
fn upload_file_headers_are_exact() {
    let image = b"hello".to_vec();
    let request = auth().upload_file(&endpoint(3), "dir\\my file.txt".to_string(), &image);
    assert_eq!(request.upload_url, "https://pod.example.com/upload/3");
    assert_eq!(request.authorization, "upload-token-3");
    assert_eq!(request.content_type, "b2/x-auto");
    assert_eq!(request.content_length, 5);
    assert_eq!(request.file_name, "dir-my%20file.txt");
    assert_eq!(request.content_sha1, "aaf4c61ddcc5e8a2dabede0f3b482cd9aea9434d");
}

#[test]
fn upload_file_digest_follows_the_bytes() {
    let empty: Vec<u8> = Vec::new();
    let request = auth().upload_file(&endpoint(1), "k".to_string(), &empty);
    assert_eq!(request.content_length, 0);
    assert_eq!(request.content_sha1, "da39a3ee5e6b4b0d3255bfef95601890afd80709");
    let abc = b"abc".to_vec();
    let request = auth().upload_file(&endpoint(1), "k".to_string(), &abc);
    assert_eq!(request.content_length, 3);
    assert_eq!(request.content_sha1, "a9993e364706816aba3e25717850c26c9cd0d89d");
}

#[test]
fn uploaded_maps_a_structured_failure() {
    assert!(B2Authorization::uploaded(Ok(())).is_ok());
    let failure =
        BlazeError { status: 503, code: "busy".to_string(), message: "later".to_string() };
    match B2Authorization::uploaded(Err(failure)) {
        Err(TransferError::Blaze(e)) => {
            assert_eq!(e.status, 503);
            assert_eq!(e.code, "busy");
            assert_eq!(e.message, "later");
        }
        other => panic!("unexpected: {:?}", other),
    }
}

#[test]
fn reply_or_text_maps_a_refusal_to_its_text() {
    match reply_or_text::<u32>(Ok(7)) {
        Ok(v) => assert_eq!(v, 7),
        Err(e) => panic!("failed: {:?}", e),
    }
    match reply_or_text::<u32>(Err("no such bucket".to_string())) {
        Err(TransferError::Text(text)) => assert_eq!(text, "no such bucket"),
        other => panic!("unexpected: {:?}", other),
    }
}

#[test]
fn stored_authorization_is_used_for_a_day() {
    let cache = |at: u64| Some(BlazeCache { last_updated: at, auth: auth() });
    assert_eq!(CACHE_SECONDS, 60 * 60 * 24);
    match get_or_update_blaze_cache(cache(1_000), 1_000, 0) {
        CacheChoice::Use(c) => assert_eq!(c.last_updated, 1_000),
        CacheChoice::Refresh => panic!("fresh cache refused"),
    }
    assert!(matches!(
        get_or_update_blaze_cache(cache(1_000), 1_000 + 86_399, 999_999_999),
        CacheChoice::Use(_)
    ));
    assert!(matches!(
        get_or_update_blaze_cache(cache(1_000), 1_000 + 86_400, 0),
        CacheChoice::Use(_)
    ));
    assert!(matches!(
        get_or_update_blaze_cache(cache(1_000), 1_000 + 86_400, 1),
        CacheChoice::Refresh
    ));
    assert!(matches!(
        get_or_update_blaze_cache(cache(1_000), 1_000 + 86_401, 0),
        CacheChoice::Refresh
    ));
}

#[test]
fn missing_stored_authorization_asks_for_a_new_one() {
    assert!(matches!(get_or_update_blaze_cache(None, 5, 0), CacheChoice::Refresh));
}
