//! Rules of the video service: upload requests, upload completion, the
//! public catalogue and its cursors, and the worker's processing callbacks.
use vstd::prelude::*;

use base64::Engine;

use crate::api::ApiError;
use crate::auth::bearer_token;
use crate::text::{
    byte_len, has_prefix, push_char, push_str, same_text, starts_with, trim, trim_end_char, trim_end_matches,
    trim_start_char, trim_start_matches, trimmed, utf8_len,
};
use crate::transcode::hls_prefix_of;
use vstd::string::StrSliceExecFns;

verus! {

/// Largest upload, in bytes (1 GiB).
pub const MAX_UPLOAD_BYTES: i64 = 1_073_741_824;

/// Validity of a presigned upload URL, in seconds.
pub const UPLOAD_TTL_SECONDS: u64 = 900;

/// Queue the outbox relay publishes upload events to.
pub const UPLOAD_QUEUE: &'static str = "video.uploaded.v1";

/// Longest title, in characters after trimming.
pub const MAX_TITLE_CHARS: usize = 120;

/// Longest description, in characters.
pub const MAX_DESCRIPTION_CHARS: usize = 2000;

/// Longest search text, in UTF-8 bytes after trimming.
pub const MAX_SEARCH_BYTES: usize = 200;

/// Page size when the request names none.
pub const DEFAULT_PAGE_SIZE: i64 = 24;

/// Largest page size.
pub const MAX_PAGE_SIZE: i64 = 50;

/// Longest idempotency key of a processing callback, in UTF-8 bytes.
pub const MAX_IDEMPOTENCY_KEY_BYTES: usize = 200;

/// Longest stored failure code, in characters.
pub const MAX_FAILURE_CODE_CHARS: usize = 64;

/// Rows the outbox relay publishes per pass.
pub const OUTBOX_BATCH: i64 = 20;

/// A validated upload request, as it is stored.
#[derive(Debug)]
pub struct NewVideo {
    pub title: String,
    pub description: String,
}

/// Where a completion request stands once the video row was looked up.
#[derive(Debug)]
pub enum CompletionGate {
    /// No video with this id belongs to the caller.
    NotFound,
    /// The upload was already completed; its current status is answered.
    AlreadySettled(String),
    /// The uploaded object has to be checked before the video is marked uploaded.
    VerifyObject,
}

/// Validated listing parameters.
#[derive(Debug)]
pub struct ListParams {
    pub search: String,
    pub limit: i64,
}

/// The change a processing callback makes to a video.
#[derive(Debug)]
pub enum VideoUpdate {
    /// Publish the video with its HLS output under this prefix.
    MarkReady(String),
    /// Mark the video failed with this (sanitised) code.
    MarkFailed(String),
}

// ---------------------------------------------------------------------------
// Specifications
// ---------------------------------------------------------------------------

/// An upload size the service accepts: 1 byte to 1 GiB, both inclusive.
pub open spec fn upload_size_ok(size_bytes: int) -> bool {
    1 <= size_bytes <= MAX_UPLOAD_BYTES
}

/// An upload request the service accepts.
pub open spec fn valid_upload_request(
    title: Seq<char>,
    description: Seq<char>,
    content_type: Seq<char>,
    size_bytes: int,
) -> bool {
    &&& trimmed(title).len() > 0
    &&& trimmed(title).len() <= MAX_TITLE_CHARS
    &&& description.len() <= MAX_DESCRIPTION_CHARS
    &&& content_type == "video/mp4"@
    &&& upload_size_ok(size_bytes)
}

/// `x` limited to `[lo, hi]`.
pub open spec fn clamp(x: i64, lo: i64, hi: i64) -> i64 {
    if x < lo {
        lo
    } else if x > hi {
        hi
    } else {
        x
    }
}

/// A character kept in a stored failure code: ASCII letters, digits and `_`.
pub open spec fn is_code_char(c: char) -> bool {
    ('0' <= c && c <= '9') || ('A' <= c && c <= 'Z') || ('a' <= c && c <= 'z') || c == '_'
}

/// The characters of `s` that may stand in a failure code, in order.
pub open spec fn code_chars(s: Seq<char>) -> Seq<char>
    decreases s.len(),
{
    if s.len() == 0 {
        s
    } else if is_code_char(s.last()) {
        code_chars(s.drop_last()).push(s.last())
    } else {
        code_chars(s.drop_last())
    }
}

/// The first `n` elements of `s`, or all of them when there are fewer.
pub open spec fn at_most(s: Seq<char>, n: nat) -> Seq<char> {
    if s.len() <= n {
        s
    } else {
        s.take(n as int)
    }
}

/// A failure code as it is stored: its letters, digits and `_`, at most 64 of them.
pub open spec fn sanitized_code(code: Seq<char>) -> Seq<char> {
    at_most(code_chars(code), MAX_FAILURE_CODE_CHARS as nat)
}

/// The playback URL of a ready video.
pub open spec fn playback_url_of(media_base: Seq<char>, bucket: Seq<char>, hls_prefix: Seq<char>) -> Seq<char> {
    trim_end_char(media_base, '/') + "/"@ + bucket + "/"@ + trim_start_char(hls_prefix, '/')
        + "/master.m3u8"@
}

/// The change a processing callback asks for, or the error that answers it.
pub open spec fn planned_update(
    video_id: Seq<char>,
    result: Seq<char>,
    hls_prefix: Option<Seq<char>>,
    failure_code: Option<Seq<char>>,
) -> Result<Seq<char>, ApiError> {
    if result == "ready"@ {
        match hls_prefix {
            Some(p) => if p.len() > 0 && has_prefix(p, hls_prefix_of(video_id)) {
                Ok(p)
            } else {
                Err(ApiError::BadRequest)
            },
            None => Err(ApiError::BadRequest),
        }
    } else if result == "failed"@ {
        match failure_code {
            Some(c) => Ok(sanitized_code(c)),
            None => Ok(sanitized_code("processing_failed"@)),
        }
    } else {
        Err(ApiError::BadRequest)
    }
}

/// The canonical URL-safe base64 text of `bytes`, without padding, as the
/// `base64` crate's `URL_SAFE_NO_PAD` engine encodes it.
pub uninterp spec fn base64_url_nopad(bytes: Seq<u8>) -> Seq<char>;

/// A character of the URL-safe base64 alphabet: ASCII letters, digits, `-`
/// and `_`.
pub open spec fn is_url_safe_b64_char(c: char) -> bool {
    ('A' <= c && c <= 'Z') || ('a' <= c && c <= 'z') || ('0' <= c && c <= '9') || c == '-' || c == '_'
}

/// A text made only of URL-safe base64 characters.
pub open spec fn is_url_safe_b64_text(s: Seq<char>) -> bool {
    forall|i: int| 0 <= i < s.len() ==> is_url_safe_b64_char(#[trigger] s[i])
}

/// `base64::engine::general_purpose::URL_SAFE_NO_PAD.encode`: the canonical
/// unpadded URL-safe base64 text of the bytes, named `base64_url_nopad`. It is
/// written in the URL-safe alphabet, four characters for every three bytes
/// and two or three for a last group of one or two bytes.
#[verifier::external_body]
fn base64_encode(bytes: &[u8]) -> (s: String)
    ensures
        s@ == base64_url_nopad(bytes@),
        is_url_safe_b64_text(s@),
        s@.len() == (4 * bytes@.len() + 2) / 3,
{
    base64::engine::general_purpose::URL_SAFE_NO_PAD.encode(bytes)
}

/// `base64::engine::general_purpose::URL_SAFE_NO_PAD.decode`. That engine
/// rejects padding and non-zero trailing bits, so it accepts exactly the
/// canonical encodings: it fails only on a text that encodes no bytes, and
/// what it returns is the one byte string whose encoding is the text. A text
/// holding a character outside the URL-safe alphabet is refused. The error
/// kind is dropped.
#[verifier::external_body]
fn base64_decode(text: &str) -> (r: Option<Vec<u8>>)
    ensures
        r matches Some(v) ==> base64_url_nopad(v@) == text@,
        r is Some ==> is_url_safe_b64_text(text@),
        r matches Some(v) ==> forall|b: Seq<u8>| #[trigger] base64_url_nopad(b) == text@ ==> b == v@,
        r is None ==> forall|b: Seq<u8>| #[trigger] base64_url_nopad(b) != text@,
{
    base64::engine::general_purpose::URL_SAFE_NO_PAD.decode(text).ok()
}

// ---------------------------------------------------------------------------
// Uploads
// ---------------------------------------------------------------------------

/// Whether an upload of this size is accepted (1 byte to 1 GiB, inclusive).
pub fn upload_size_accepted(size_bytes: i64) -> (b: bool)
    ensures
        b == upload_size_ok(size_bytes as int),
{
    1 <= size_bytes && size_bytes <= MAX_UPLOAD_BYTES
}

/// Validates an upload request: a non-blank title of at most 120 characters
/// once trimmed, a description of at most 2000 characters, type `video/mp4` and a size
/// of 1 byte to 1 GiB. The title and description are stored trimmed.
pub fn validate_new_video(title: &str, description: &str, content_type: &str, size_bytes: i64) -> (r:
    Result<NewVideo, ApiError>)
    ensures
        r is Ok <==> valid_upload_request(title@, description@, content_type@, size_bytes as int),
        r matches Ok(v) ==> v.title@ == trimmed(title@) && v.description@ == trimmed(description@),
        r matches Err(e) ==> e == ApiError::BadRequest,
{
    let t = trim(title);
    if t.is_empty() || t.unicode_len() > MAX_TITLE_CHARS || description.unicode_len() > MAX_DESCRIPTION_CHARS
        || !same_text(content_type, "video/mp4") || !upload_size_accepted(size_bytes) {
        return Err(ApiError::BadRequest);
    }
    Ok(NewVideo { title: t.to_owned(), description: trim(description).to_owned() })
}

/// Object key under which the source of a new video is uploaded.
pub fn source_object_key(video_id: &str) -> (r: String)
    ensures
        r@ == "videos/"@ + video_id@ + "/source.mp4"@,
{
    let mut s = String::new();
    push_str(&mut s, "videos/");
    push_str(&mut s, video_id);
    push_str(&mut s, "/source.mp4");
    assert(s@ =~= "videos/"@ + video_id@ + "/source.mp4"@);
    s
}

/// Where a completion request stands, from the status of the caller's video
/// (`None` when the caller owns no video with that id).
pub fn completion_gate(status: Option<&str>) -> (g: CompletionGate)
    ensures
        match status {
            None => g is NotFound,
            Some(s) => if s@ == "pending_upload"@ {
                g is VerifyObject
            } else {
                g matches CompletionGate::AlreadySettled(t) && t@ == s@
            },
        },
{
    match status {
        None => CompletionGate::NotFound,
        Some(s) => if same_text(s, "pending_upload") {
            CompletionGate::VerifyObject
        } else {
            CompletionGate::AlreadySettled(s.to_owned())
        },
    }
}

/// Checks the uploaded object: `head` is `None` when it could not be looked
/// up, else its content length (which the store may omit, counted as 0).
pub fn uploaded_object_matches(head: Option<Option<i64>>, expected_size: i64) -> (r: Result<(), ApiError>)
    ensures
        r is Ok <==> (head matches Some(len) && (match len {
            Some(n) => n,
            None => 0,
        }) == expected_size),
        r matches Err(e) ==> e == ApiError::Conflict,
{
    match head {
        None => Err(ApiError::Conflict),
        Some(len) => {
            let n = match len {
                Some(n) => n,
                None => 0,
            };
            if n != expected_size {
                Err(ApiError::Conflict)
            } else {
                Ok(())
            }
        },
    }
}

/// Whether completing the upload changed the video, so that an upload event
/// is written to the outbox.
pub fn completion_publishes_event(rows_affected: u64) -> (b: bool)
    ensures
        b == (rows_affected == 1),
{
    rows_affected == 1
}

// ---------------------------------------------------------------------------
// Catalogue
// ---------------------------------------------------------------------------

/// Listing parameters: the search text trimmed (at most 200 bytes) and the
/// page size, 24 by default, limited to 1..=50.
pub fn list_params(query: Option<&str>, limit: Option<i64>) -> (r: Result<ListParams, ApiError>)
    ensures
        ({
            let q = match query {
                Some(q) => q@,
                None => Seq::<char>::empty(),
            };
            &&& r is Ok <==> utf8_len(trimmed(q)) <= MAX_SEARCH_BYTES
            &&& r matches Ok(p) ==> p.search@ == trimmed(q) && p.limit == clamp(
                match limit {
                    Some(l) => l,
                    None => DEFAULT_PAGE_SIZE,
                },
                1,
                MAX_PAGE_SIZE,
            )
            &&& r matches Err(e) ==> e == ApiError::BadRequest
        }),
{
    let q: &str = match query {
        Some(q) => q,
        None => "",
    };
    proof {
        reveal_strlit("");
    }
    let search = trim(q);
    if byte_len(search) > MAX_SEARCH_BYTES {
        return Err(ApiError::BadRequest);
    }
    let requested: i64 = match limit {
        Some(l) => l,
        None => DEFAULT_PAGE_SIZE,
    };
    let limit: i64 = if requested < 1 {
        1
    } else if requested > MAX_PAGE_SIZE {
        MAX_PAGE_SIZE
    } else {
        requested
    };
    Ok(ListParams { search: search.to_owned(), limit })
}

/// A cursor belongs to the search it was issued for; any other is answered 400.
pub fn cursor_matches_search(cursor_query: &str, search: &str) -> (r: Result<(), ApiError>)
    ensures
        r is Ok <==> cursor_query@ == search@,
        r matches Err(e) ==> e == ApiError::BadRequest,
{
    if same_text(cursor_query, search) {
        Ok(())
    } else {
        Err(ApiError::BadRequest)
    }
}

/// One page out of the rows fetched for it (the query asks for one row more
/// than the page holds): the first `limit` rows, and whether more follow.
pub fn page_window<T>(rows: Vec<T>, limit: i64) -> (r: (Vec<T>, bool))
    requires
        1 <= limit <= MAX_PAGE_SIZE,
    ensures
        r.1 == (rows.len() > limit),
        r.0@ == if rows.len() > limit {
            rows@.take(limit as int)
        } else {
            rows@
        },
{
    let has_more = rows.len() > limit as usize;
    let mut rows = rows;
    rows.truncate(limit as usize);
    (rows, has_more)
}

/// The playback URL of a ready video: the media base without trailing `/`,
/// the bucket, the HLS prefix without leading `/`, and `master.m3u8`.
pub fn playback_url(media_base: &str, bucket: &str, hls_prefix: &str) -> (r: String)
    ensures
        r@ == playback_url_of(media_base@, bucket@, hls_prefix@),
{
    let mut s = String::new();
    push_str(&mut s, trim_end_matches(media_base, '/'));
    push_str(&mut s, "/");
    push_str(&mut s, bucket);
    push_str(&mut s, "/");
    push_str(&mut s, trim_start_matches(hls_prefix, '/'));
    push_str(&mut s, "/master.m3u8");
    assert(s@ =~= playback_url_of(media_base@, bucket@, hls_prefix@));
    s
}

/// The opaque page cursor that carries the given JSON document: its
/// URL-safe base64 text without padding.
pub fn encode_cursor(json: &[u8]) -> (r: String)
    ensures
        r@ == base64_url_nopad(json@),
        is_url_safe_b64_text(r@),
{
    base64_encode(json)
}

/// The JSON document a page cursor carries; a cursor that is not canonical
/// unpadded URL-safe base64 is answered 400, among them every cursor with a
/// character outside the URL-safe alphabet.
pub fn decode_cursor(cursor: &str) -> (r: Result<Vec<u8>, ApiError>)
    ensures
        r matches Ok(b) ==> base64_url_nopad(b@) == cursor@,
        !is_url_safe_b64_text(cursor@) ==> r == Err::<Vec<u8>, ApiError>(ApiError::BadRequest),
        forall|b: Seq<u8>| #[trigger] base64_url_nopad(b) == cursor@ ==> (r matches Ok(v) && v@ == b),
        r matches Err(e) ==> e == ApiError::BadRequest,
{
    match base64_decode(cursor) {
        Some(b) => Ok(b),
        None => Err(ApiError::BadRequest),
    }
}

// ---------------------------------------------------------------------------
// Processing callbacks
// ---------------------------------------------------------------------------

/// Whether a callback carries the worker's token: its `Authorization` header
/// is exactly `Bearer ` followed by the token.
pub fn worker_authorized(header: Option<&str>, worker_token: &str) -> (b: bool)
    ensures
        b == (header matches Some(h) && h@ == "Bearer "@ + worker_token@),
{
    proof {
        if let Some(h) = header {
            let p = "Bearer "@;
            if h@ == p + worker_token@ {
                assert(h@.subrange(0, p.len() as int) =~= p);
                assert(h@.subrange(p.len() as int, h@.len() as int) =~= worker_token@);
            }
            if has_prefix(h@, p) {
                assert(h@ =~= p + h@.subrange(p.len() as int, h@.len() as int));
            }
        }
    }
    match bearer_token(header) {
        Some(t) => same_text(t, worker_token),
        None => false,
    }
}

/// Checks a callback's idempotency key: present, non-empty, at most 200 bytes.
pub fn check_idempotency_key(key: Option<&str>) -> (r: Result<(), ApiError>)
    ensures
        r is Ok <==> (key matches Some(k) && k@.len() > 0 && utf8_len(k@) <= MAX_IDEMPOTENCY_KEY_BYTES),
        r matches Err(e) ==> e == ApiError::BadRequest,
{
    match key {
        None => Err(ApiError::BadRequest),
        Some(k) => if k.is_empty() || byte_len(k) > MAX_IDEMPOTENCY_KEY_BYTES {
            Err(ApiError::BadRequest)
        } else {
            Ok(())
        },
    }
}

/// The answer to a callback whose idempotency key was already used:
/// `existing` tells whether a recorded callback was found and whether it was
/// for the same video with the same payload. A repeat is answered 200, any
/// other reuse 409.
pub fn replay_decision(existing: Option<bool>) -> (r: Result<(), ApiError>)
    ensures
        r is Ok <==> existing == Some(true),
        r matches Err(e) ==> e == ApiError::Conflict,
{
    match existing {
        Some(true) => Ok(()),
        _ => Err(ApiError::Conflict),
    }
}

/// Whether `c` may stand in a stored failure code.
fn code_char(c: char) -> (b: bool)
    ensures
        b == is_code_char(c),
{
    ('0' <= c && c <= '9') || ('A' <= c && c <= 'Z') || ('a' <= c && c <= 'z') || c == '_'
}

/// A failure code as it is stored: its ASCII letters, digits and `_`, at most 64 of them.
pub fn sanitize_failure_code(code: &str) -> (r: String)
    ensures
        r@ == sanitized_code(code@),
        code@.len() <= MAX_FAILURE_CODE_CHARS && (forall|i: int|
            0 <= i < code@.len() ==> ('0' <= #[trigger] code@[i] && code@[i] <= '9') || ('A'
                <= code@[i] && code@[i] <= 'Z') || ('a' <= code@[i] && code@[i] <= 'z') || code@[i]
                == '_') ==> r@ == code@,
{
    proof {
        if code@.len() <= MAX_FAILURE_CODE_CHARS && (forall|i: int|
            0 <= i < code@.len() ==> ('0' <= #[trigger] code@[i] && code@[i] <= '9') || ('A'
                <= code@[i] && code@[i] <= 'Z') || ('a' <= code@[i] && code@[i] <= 'z') || code@[i]
                == '_') {
            crate::laws::law_alphanumeric_codes_are_kept(code@);
        }
    }
    let cs = crate::text::chars_of(code);
    let mut out = String::new();
    let mut count: usize = 0;
    let mut i: usize = 0;
    assert(code@.take(0) =~= Seq::<char>::empty());
    while i < cs.len()
        invariant
            cs@ == code@,
            i <= cs.len(),
            count == out@.len(),
            out@ == sanitized_code(code@.take(i as int)),
        decreases cs.len() - i,
    {
        let c = cs[i];
        let ghost prev = code@.take(i as int);
        assert(code@.take(i + 1).drop_last() =~= prev);
        assert(code@.take(i + 1).last() == c);
        if code_char(c) && count < MAX_FAILURE_CODE_CHARS {
            push_char(&mut out, c);
            count = count + 1;
            assert(out@ =~= sanitized_code(code@.take(i + 1)));
        } else {
            if code_char(c) {
                assert(code_chars(prev).len() >= MAX_FAILURE_CODE_CHARS);
                assert(code_chars(code@.take(i + 1)) == code_chars(prev).push(c));
                assert(code_chars(code@.take(i + 1)).take(MAX_FAILURE_CODE_CHARS as int) =~= code_chars(
                    prev,
                ).take(MAX_FAILURE_CODE_CHARS as int));
            }
        }
        i = i + 1;
    }
    assert(code@.take(cs.len() as int) =~= code@);
    out
}

/// The change a processing callback asks for. A `ready` result needs a
/// non-empty HLS prefix under `videos/<video_id>/hls`; a `failed` result is
/// stored with its code sanitised (`processing_failed` when it has none); any
/// other result is answered 400.
pub fn plan_processing_update(
    video_id: &str,
    result: &str,
    hls_prefix: Option<&str>,
    failure_code: Option<&str>,
) -> (r: Result<VideoUpdate, ApiError>)
    ensures
        match planned_update(
            video_id@,
            result@,
            match hls_prefix {
                Some(p) => Some(p@),
                None => None,
            },
            match failure_code {
                Some(c) => Some(c@),
                None => None,
            },
        ) {
            Ok(v) => if result@ == "ready"@ {
                r matches Ok(VideoUpdate::MarkReady(p)) && p@ == v
            } else {
                r matches Ok(VideoUpdate::MarkFailed(c)) && c@ == v
            },
            Err(e) => r matches Err(x) && x == e,
        },
{
    if same_text(result, "ready") {
        match hls_prefix {
            Some(p) => {
                if p.is_empty() {
                    return Err(ApiError::BadRequest);
                }
                let expected = crate::transcode::hls_prefix(video_id);
                if !starts_with(p, expected.as_str()) {
                    return Err(ApiError::BadRequest);
                }
                Ok(VideoUpdate::MarkReady(p.to_owned()))
            },
            None => Err(ApiError::BadRequest),
        }
    } else if same_text(result, "failed") {
        match failure_code {
            Some(c) => Ok(VideoUpdate::MarkFailed(sanitize_failure_code(c))),
            None => Ok(VideoUpdate::MarkFailed(sanitize_failure_code("processing_failed"))),
        }
    } else {
        Err(ApiError::BadRequest)
    }
}

/// A callback's update must change exactly one video; otherwise the video is
/// missing or not in a state the result applies to, answered 404.
pub fn update_applied(rows_affected: u64) -> (r: Result<(), ApiError>)
    ensures
        r is Ok <==> rows_affected == 1,
        r matches Err(e) ==> e == ApiError::NotFound,
{
    if rows_affected == 1 {
        Ok(())
    } else {
        Err(ApiError::NotFound)
    }
}

// ---------------------------------------------------------------------------
// Outbox relay and storage policy
// ---------------------------------------------------------------------------

/// Pause before the next relay pass: 700 ms after a pass that succeeded,
/// 2 s after one that failed.
pub fn relay_pause_millis(succeeded: bool) -> (ms: u64)
    ensures
        ms == (if succeeded {
            700u64
        } else {
            2000u64
        }),
{
    if succeeded {
        700
    } else {
        2000
    }
}

/// The objects the bucket policy opens to anonymous playback: every HLS file.
pub fn playback_policy_resource(bucket: &str) -> (r: String)
    ensures
        r@ == "arn:aws:s3:::"@ + bucket@ + "/videos/*/hls/*"@,
{
    let mut s = String::new();
    push_str(&mut s, "arn:aws:s3:::");
    push_str(&mut s, bucket);
    push_str(&mut s, "/videos/*/hls/*");
    assert(s@ =~= "arn:aws:s3:::"@ + bucket@ + "/videos/*/hls/*"@);
    s
}

} // verus!
