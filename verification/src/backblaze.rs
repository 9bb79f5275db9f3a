//! The destination provider: its records, and what is sent to it.
//!
//! Nothing here touches the network. Each call of the provider is split in
//! two: a function that says what is sent (address, authorization, body), and
//! a function that says what an answer means.

use vstd::prelude::*;
use vstd::string::*;
use vstd::utf8::encode_utf8;
use crypto::digest::Digest;
use crypto::sha1::Sha1;
use crate::error::TransferError;

verus! {

/// Where the provider's account service is reached.
pub const API_URL_V2: &'static str = "https://api.backblazeb2.com/b2api/v2";

/// For how many seconds a stored authorization is used again.
pub const CACHE_SECONDS: u64 = 86400;

/// A structured failure reported by the destination.
#[derive(Debug, Clone)]
pub struct BlazeError {
    pub status: i64,
    pub code: String,
    pub message: String,
}

/// A stored authorization, with the time at which it was obtained.
#[derive(Debug, Clone)]
pub struct BlazeCache {
    /// Seconds since the epoch.
    pub last_updated: u64,
    pub auth: B2Authorization,
}

/// The key pair of an account.
pub struct Credentials {
    pub id: String,
    pub key: String,
}

/// What the account service answers to a key pair that it accepts.
#[derive(Debug)]
pub struct B2AuthResponse {
    pub absolute_minimum_part_size: usize,
    pub api_url: String,
    pub authorization_token: String,
    pub download_url: String,
    pub recommended_part_size: usize,
}

/// An authorized account: the token, and the addresses to use with it.
#[derive(Debug, Clone)]
pub struct B2Authorization {
    pub account_id: String,
    pub authorization_token: String,
    pub api_url: String,
    pub download_url: String,
    pub recommended_part_size: usize,
    pub absolute_minimum_part_size: usize,
}

/// A leased upload endpoint: where to send an object, and the token that
/// authorizes sending it there.
#[derive(Debug)]
pub struct UploadUrlResponse {
    pub authorization_token: String,
    pub bucket_id: String,
    pub upload_url: String,
}

/// One page of the destination's listing of file names.
#[derive(Debug)]
pub struct ListFileNamesResponse {
    pub files: Vec<FileName>,
    pub next_file_name: Option<String>,
}

/// One file as the destination lists it.
#[derive(Debug)]
pub struct FileName {
    pub account_id: String,
    pub action: String,
    pub bucket_id: String,
    pub content_length: i64,
    pub content_sha1: String,
    pub content_md5: String,
    pub content_type: String,
    pub file_id: String,
    pub file_name: String,
    pub upload_timestamp: i64,
}

/// How a request is sent.
#[derive(Debug, Clone, Copy, PartialEq, Eq, Structural)]
pub enum Method {
    Get,
    Post,
}

/// A request to the provider's service: how it is sent, the address, the
/// value of the `Authorization` header, and the body, where it has one.
#[derive(Debug)]
pub struct ApiRequest {
    pub method: Method,
    pub url: String,
    pub authorization: String,
    pub body: Option<String>,
}

/// The headers of one upload. The body that goes with them is the object's
/// bytes.
#[derive(Debug)]
pub struct UploadRequest {
    pub upload_url: String,
    pub authorization: String,
    pub content_type: String,
    pub content_length: usize,
    pub file_name: String,
    pub content_sha1: String,
}

/// Whether to go on with a stored authorization or to ask for a new one.
#[derive(Debug)]
pub enum CacheChoice {
    /// The stored authorization is young enough.
    Use(BlazeCache),
    /// None is stored, or it is too old.
    Refresh,
}

/// The SHA-1 digest of `data` as forty lower-case hexadecimal digits.
pub uninterp spec fn sha1_hex(data: Seq<u8>) -> Seq<char>;

/// The base64 text of `data`, in the standard alphabet and with padding.
pub uninterp spec fn base64_text(data: Seq<u8>) -> Seq<char>;

/// `text` as a JSON string: in double quotes, with what JSON asks to be
/// escaped written as an escape.
pub uninterp spec fn json_string_literal(text: Seq<char>) -> Seq<char>;

/// Digest of `data` by `crypto::sha1::Sha1`: the bytes are put in with
/// `input`, and `result_str` gives the digest in hexadecimal. Trusted: that
/// the text is the SHA-1 digest of exactly these bytes. The hasher counts bits
/// in 64 bits and stops the program at 2^61 bytes or more, which `requires`
/// leaves out.
#[verifier::external_body]
fn sha1_digest(data: &Vec<u8>) -> (out: String)
    requires
        data@.len() < 0x2000_0000_0000_0000,
    ensures
        out@ == sha1_hex(data@),
{
    let mut sha = Sha1::new();
    sha.input(data.as_slice());
    sha.result_str()
}

/// `base64::encode` on `data`. Trusted: that the text is the base64 form of
/// exactly these bytes. The encoder stops the program where the length of the
/// text, four characters for every three bytes begun, does not fit in
/// `usize`, which `requires` leaves out.
#[verifier::external_body]
fn base64_encode(data: &[u8]) -> (out: String)
    requires
        (data@.len() / 3) * 4 + 4 <= usize::MAX,
    ensures
        out@ == base64_text(data@),
{
    base64::encode(data)
}

/// `serde_json::to_string` on the JSON string value that holds `text`.
/// Trusted: that a text is handed back, and that it is that string as JSON
/// writes it. The encoder fails on a string only where writing fails, and it
/// writes to a vector in memory.
#[verifier::external_body]
fn json_string(text: &str) -> (out: Result<String, serde_json::Error>)
    ensures
        out is Ok,
        out matches Ok(s) ==> s@ == json_string_literal(text@),
{
    serde_json::to_string(&serde_json::Value::String(text.to_owned()))
}

/// What one character of an object key becomes in the file-name header: a
/// backslash turns into a hyphen, a space into `%20`, anything else stays.
pub open spec fn encoded_char(c: char) -> Seq<char> {
    if c == '\\' {
        seq!['-']
    } else if c == ' ' {
        seq!['%', '2', '0']
    } else {
        seq![c]
    }
}

/// The encoded form of a whole key: its characters encoded one by one, in order.
pub open spec fn encoded_name(s: Seq<char>) -> Seq<char>
    decreases s.len(),
{
    if s.len() == 0 {
        Seq::empty()
    } else {
        encoded_name(s.drop_last()) + encoded_char(s.last())
    }
}

/// Encodes an object key for the upload header.
pub fn encode_file_name(file_name: String) -> (out: String)
    ensures
        out@ == encoded_name(file_name@),
{
    let src = file_name.as_str();
    let n: usize = src.unicode_len();
    let mut out = String::new();
    let mut i: usize = 0;
    while i < n
        invariant
            n == src@.len(),
            src@ == file_name@,
            i <= n,
            out@ == encoded_name(src@.take(i as int)),
        decreases n - i,
    {
        let c = src.get_char(i);
        proof {
            reveal_strlit("-");
            reveal_strlit("%20");
            assert(src@.take(i + 1).drop_last() == src@.take(i as int));
            assert(src@.take(i + 1).last() == c);
        }
        if c == '\\' {
            out.append("-");
            assert(out@ == encoded_name(src@.take(i as int)) + seq!['-']);
        } else if c == ' ' {
            out.append("%20");
            assert(out@ == encoded_name(src@.take(i as int)) + seq!['%', '2', '0']);
        } else {
            let piece = src.substring_char(i, i + 1);
            assert(piece@ == seq![c]);
            out.append(piece);
        }
        i = i + 1;
    }
    proof {
        assert(src@.take(n as int) == src@);
    }
    out
}

/// The headers of the upload of `image` under the key `file_name` to the
/// endpoint `upload`.
pub open spec fn upload_headers(
    request: UploadRequest,
    upload: UploadUrlResponse,
    file_name: Seq<char>,
    image: Seq<u8>,
) -> bool {
    &&& request.upload_url@ == upload.upload_url@
    &&& request.authorization@ == upload.authorization_token@
    &&& request.content_type@ == "b2/x-auto"@
    &&& request.content_length == image.len()
    &&& request.file_name@ == encoded_name(file_name)
    &&& request.content_sha1@ == sha1_hex(image)
}

/// The body that asks about one bucket, given the bucket's id as a JSON
/// string.
pub open spec fn bucket_query_text(bucket_id: Seq<char>) -> Seq<char> {
    "{\"bucketId\":"@ + bucket_id + "}"@
}

/// Whether `request` asks, under the authorization `auth`, for a fresh upload
/// endpoint in the bucket `bucket_id`.
pub open spec fn asks_for_upload_url(
    request: ApiRequest,
    auth: B2Authorization,
    bucket_id: Seq<char>,
) -> bool {
    &&& request.method == Method::Post
    &&& request.url@ == auth.api_url@ + "/b2api/v2/b2_get_upload_url"@
    &&& request.authorization@ == auth.authorization_token@
    &&& request.body matches Some(body) && body@ == bucket_query_text(
        json_string_literal(bucket_id),
    )
}

/// Whether `request` asks, under the authorization `auth`, for the names in
/// the bucket `bucket_id` that begin with `prefix`.
pub open spec fn asks_for_file_names(
    request: ApiRequest,
    auth: B2Authorization,
    prefix: Seq<char>,
    bucket_id: Seq<char>,
) -> bool {
    &&& request.method == Method::Post
    &&& request.url@ == auth.api_url@ + "/b2api/v2/b2_list_file_names"@
    &&& request.authorization@ == auth.authorization_token@
    &&& request.body matches Some(body) && body@ == prefix_query_text(
        json_string_literal(bucket_id),
        json_string_literal(prefix),
    )
}

/// The body that asks about the names in one bucket that begin with a prefix,
/// given the bucket's id and the prefix as JSON strings.
pub open spec fn prefix_query_text(bucket_id: Seq<char>, prefix: Seq<char>) -> Seq<char> {
    "{\"bucketId\":"@ + bucket_id + ",\"prefix\":"@ + prefix + "}"@
}

/// Whether an authorization obtained at `last_updated` is used again at the
/// time `now_secs` seconds and `now_nanos` nanoseconds: when it is at most a
/// day old.
pub open spec fn cache_is_fresh(last_updated: u64, now_secs: u64, now_nanos: u32) -> bool {
    now_secs - last_updated < CACHE_SECONDS || (now_secs - last_updated == CACHE_SECONDS
        && now_nanos == 0)
}

/// Decides between a stored authorization and a new one. `cached` is what the
/// store held, if it could be read; the time is that of the decision, in
/// seconds and nanoseconds since the epoch. A stored authorization cannot be
/// younger than the present second.
pub fn get_or_update_blaze_cache(cached: Option<BlazeCache>, now_secs: u64, now_nanos: u32) -> (out:
    CacheChoice)
    requires
        cached matches Some(c) ==> c.last_updated <= now_secs,
    ensures
        match cached {
            Some(c) => if cache_is_fresh(c.last_updated, now_secs, now_nanos) {
                out == CacheChoice::Use(c)
            } else {
                out == CacheChoice::Refresh
            },
            None => out == CacheChoice::Refresh,
        },
{
    match cached {
        Some(c) => {
            let age: u64 = now_secs - c.last_updated;
            if age < CACHE_SECONDS || (age == CACHE_SECONDS && now_nanos == 0) {
                CacheChoice::Use(c)
            } else {
                CacheChoice::Refresh
            }
        },
        None => CacheChoice::Refresh,
    }
}

/// What an answer of the service means where a refusal comes as plain text:
/// the payload of an accepted request, or the text as the failure.
pub fn reply_or_text<T>(reply: Result<T, String>) -> (out: Result<T, TransferError>)
    ensures
        match reply {
            Ok(v) => out == Ok::<T, TransferError>(v),
            Err(text) => out == Err::<T, TransferError>(TransferError::Text(text)),
        },
{
    match reply {
        Ok(v) => Ok(v),
        Err(text) => Err(TransferError::Text(text)),
    }
}

/// The body that asks about one bucket, from the outcome of encoding the
/// bucket's id.
pub fn bucket_query(bucket_id: Result<String, serde_json::Error>) -> (out: Result<
    String,
    TransferError,
>)
    ensures
        match bucket_id {
            Ok(id) => out matches Ok(body) && body@ == bucket_query_text(id@),
            Err(e) => out == Err::<String, TransferError>(TransferError::Json(e)),
        },
{
    match bucket_id {
        Ok(id) => {
            let mut body = String::from_str("{\"bucketId\":");
            body.append(id.as_str());
            body.append("}");
            Ok(body)
        },
        Err(e) => Err(TransferError::Json(e)),
    }
}

/// The body that asks about the names under a prefix, from the outcomes of
/// encoding the bucket's id and the prefix. Of two failures the bucket's is
/// reported.
pub fn prefix_query(
    bucket_id: Result<String, serde_json::Error>,
    prefix: Result<String, serde_json::Error>,
) -> (out: Result<String, TransferError>)
    ensures
        match (bucket_id, prefix) {
            (Ok(id), Ok(p)) => out matches Ok(body) && body@ == prefix_query_text(id@, p@),
            (Err(e), _) => out == Err::<String, TransferError>(TransferError::Json(e)),
            (Ok(_), Err(e)) => out == Err::<String, TransferError>(TransferError::Json(e)),
        },
{
    match bucket_id {
        Ok(id) => match prefix {
            Ok(p) => {
                let mut body = String::from_str("{\"bucketId\":");
                body.append(id.as_str());
                body.append(",\"prefix\":");
                body.append(p.as_str());
                body.append("}");
                Ok(body)
            },
            Err(e) => Err(TransferError::Json(e)),
        },
        Err(e) => Err(TransferError::Json(e)),
    }
}

impl Credentials {
    pub fn new(id: &str, key: &str) -> (out: Self)
        ensures
            out.id@ == id@,
            out.key@ == key@,
    {
        Credentials { id: String::from_str(id), key: String::from_str(key) }
    }

    /// The header in which the key pair travels.
    pub fn header_name(&self) -> (out: &'static str)
        ensures
            out@ == "Authorization"@,
    {
        "Authorization"
    }

    /// The id and the key with a colon between them.
    pub open spec fn spec_id_key(&self) -> Seq<char> {
        self.id@ + ":"@ + self.key@
    }

    /// The id and the key with a colon between them.
    pub fn id_key(&self) -> (out: String)
        ensures
            out@ == self.spec_id_key(),
    {
        let mut out = self.id.clone();
        out.append(":");
        out.append(self.key.as_str());
        out
    }

    /// The value of the header for HTTP basic authorization: the word `Basic`,
    /// a space, and the base64 form of id, colon and key. The length of that
    /// form has to fit in `usize`.
    pub fn auth_string(&self) -> (out: String)
        requires
            (encode_utf8(self.spec_id_key()).len() / 3) * 4 + 4 <= usize::MAX,
        ensures
            out@ == "Basic "@ + base64_text(encode_utf8(self.spec_id_key())),
    {
        let pair = self.id_key();
        let encoded = base64_encode(pair.as_str().as_bytes());
        let mut out = String::from_str("Basic ");
        out.append(encoded.as_str());
        out
    }

    /// The request that asks the account service to authorize this key pair.
    pub fn authorize(&self) -> (out: ApiRequest)
        requires
            (encode_utf8(self.spec_id_key()).len() / 3) * 4 + 4 <= usize::MAX,
        ensures
            out.method == Method::Get,
            out.url@ == API_URL_V2@ + "/b2_authorize_account"@,
            out.authorization@ == "Basic "@ + base64_text(encode_utf8(self.spec_id_key())),
            out.body is None,
    {
        let mut url = String::from_str(API_URL_V2);
        url.append("/b2_authorize_account");
        ApiRequest { method: Method::Get, url, authorization: self.auth_string(), body: None }
    }

    /// What the account service's answer means: accepted, it yields the
    /// authorization for this account; refused, whatever the text of the
    /// refusal, the failure reads `Authorization Error`.
    pub fn authorized(&self, reply: Result<B2AuthResponse, String>) -> (out: Result<
        B2Authorization,
        TransferError,
    >)
        ensures
            match reply {
                Ok(resp) => out matches Ok(auth) && auth.account_id@ == self.id@
                    && auth.authorization_token == resp.authorization_token && auth.api_url
                    == resp.api_url && auth.download_url == resp.download_url
                    && auth.recommended_part_size == resp.recommended_part_size
                    && auth.absolute_minimum_part_size == resp.absolute_minimum_part_size,
                Err(_) => out matches Err(TransferError::Text(text)) && text@
                    == "Authorization Error"@,
            },
    {
        match reply {
            Ok(resp) => Ok(B2Authorization::new(self.id.clone(), resp)),
            Err(_) => Err(TransferError::from("Authorization Error")),
        }
    }
}

impl B2Authorization {
    /// The authorization of the account `id`, as the account service
    /// answered.
    pub fn new(id: String, resp: B2AuthResponse) -> (out: B2Authorization)
        ensures
            out.account_id == id,
            out.authorization_token == resp.authorization_token,
            out.api_url == resp.api_url,
            out.download_url == resp.download_url,
            out.recommended_part_size == resp.recommended_part_size,
            out.absolute_minimum_part_size == resp.absolute_minimum_part_size,
    {
        B2Authorization {
            account_id: id,
            authorization_token: resp.authorization_token,
            api_url: resp.api_url,
            download_url: resp.download_url,
            recommended_part_size: resp.recommended_part_size,
            absolute_minimum_part_size: resp.absolute_minimum_part_size,
        }
    }

    /// The request for a fresh upload endpoint in the bucket `bucket_id`.
    /// There always is one.
    pub fn get_upload_url(&self, bucket_id: &str) -> (out: Result<ApiRequest, TransferError>)
        ensures
            out matches Ok(request) && asks_for_upload_url(request, *self, bucket_id@),
    {
        let body = bucket_query(json_string(bucket_id))?;
        let mut url = self.api_url.clone();
        url.append("/b2api/v2/b2_get_upload_url");
        Ok(
            ApiRequest {
                method: Method::Post,
                url,
                authorization: self.authorization_token.clone(),
                body: Some(body),
            },
        )
    }

    /// The request for the names in the bucket `bucket_id` that begin with
    /// `prefix`. There always is one.
    pub fn list_file_names(&self, prefix: &str, bucket_id: &str) -> (out: Result<
        ApiRequest,
        TransferError,
    >)
        ensures
            out matches Ok(request) && asks_for_file_names(request, *self, prefix@, bucket_id@),
    {
        let body = prefix_query(json_string(bucket_id), json_string(prefix))?;
        let mut url = self.api_url.clone();
        url.append("/b2api/v2/b2_list_file_names");
        Ok(
            ApiRequest {
                method: Method::Post,
                url,
                authorization: self.authorization_token.clone(),
                body: Some(body),
            },
        )
    }

    /// The headers with which `image` is sent to the endpoint `upload` under
    /// the key `file_name`: the endpoint's token, the content type left to the
    /// destination, the length, the encoded key and the digest of the bytes.
    pub fn upload_file(&self, upload: &UploadUrlResponse, file_name: String, image: &Vec<u8>) -> (out:
        UploadRequest)
        requires
            image@.len() < 0x2000_0000_0000_0000,
        ensures
            upload_headers(out, *upload, file_name@, image@),
    {
        UploadRequest {
            upload_url: upload.upload_url.clone(),
            authorization: upload.authorization_token.clone(),
            content_type: String::from_str("b2/x-auto"),
            content_length: image.len(),
            content_sha1: sha1_digest(image),
            file_name: encode_file_name(file_name),
        }
    }

    /// What the destination's answer to an upload means: success, or the
    /// structured failure that it reported.
    pub fn uploaded(reply: Result<(), BlazeError>) -> (out: Result<(), TransferError>)
        ensures
            match reply {
                Ok(_) => out is Ok,
                Err(e) => out == Err::<(), TransferError>(TransferError::Blaze(e)),
            },
    {
        match reply {
            Ok(_) => Ok(()),
            Err(e) => Err(TransferError::Blaze(e)),
        }
    }
}

} // verus!
