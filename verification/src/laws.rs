//! Properties that hold across the worker's and the video service's rules.
use vstd::prelude::*;

use crate::auth::{token_expiry, ACCESS_TOKEN_MINUTES};
use crate::identity::ACCESS_TOKEN_SECONDS;
use crate::text::{decimal, trim_start_char};
use crate::transcode::{
    attempt_of, budget_exhausted, first_video_stream, hls_prefix_of, planned_variant, probed_dimensions,
    replace_char, HeaderValue, ProbeStream, Variant, MAX_DELIVERIES,
};
use crate::video::{
    code_chars, is_code_char, planned_update, playback_url_of, sanitized_code, MAX_FAILURE_CODE_CHARS,
};

verus! {

/// The lifetime a login answer states for its access token, in seconds, is
/// the lifetime the token is issued with, in minutes.
pub proof fn law_login_states_token_lifetime()
    ensures
        ACCESS_TOKEN_MINUTES * 60 == ACCESS_TOKEN_SECONDS,
{
}

/// A login token issued at a Unix time `now` expires `ACCESS_TOKEN_SECONDS`
/// later, the lifetime the login answer states.
pub proof fn law_login_token_expires_when_stated(now: i64)
    requires
        0 <= now,
        now + ACCESS_TOKEN_SECONDS <= usize::MAX,
    ensures
        token_expiry(now, ACCESS_TOKEN_MINUTES) == now + ACCESS_TOKEN_SECONDS,
{
}

/// The retry header the worker writes on a requeue is read back as the next
/// attempt number, and a requeued attempt number never passes the last
/// allowed delivery, so a job is delivered at most `MAX_DELIVERIES` times.
pub proof fn law_requeue_counts_deliveries(attempt: u64)
    requires
        !budget_exhausted(attempt),
    ensures
        attempt_of(Some(HeaderValue::LongLongInt((attempt + 1) as i64))) == attempt + 1,
        attempt + 1 <= MAX_DELIVERIES - 1,
        budget_exhausted((MAX_DELIVERIES - 1) as u64),
{
}

/// Deliveries of a job that fails on every attempt, counted from the given
/// attempt number: each failure before the budget is spent requeues the job
/// with the header that `retry_or_fail` writes, read back as `retry_count` does.
pub open spec fn deliveries_until_failure(attempt: u64) -> nat
    decreases MAX_DELIVERIES - attempt,
{
    if budget_exhausted(attempt) {
        1
    } else {
        1 + deliveries_until_failure(attempt_of(Some(HeaderValue::LongLongInt((attempt + 1) as i64))))
    }
}

/// A job that fails on every attempt is delivered exactly `MAX_DELIVERIES`
/// times, the last of which reports it failed.
pub proof fn law_failing_job_delivered_max_times()
    ensures
        deliveries_until_failure(0) == MAX_DELIVERIES,
{
    reveal_with_fuel(deliveries_until_failure, 6);
}

/// The bucket policy that opens HLS output to anonymous playback covers the
/// objects `videos/<x>/hls/<y>`.
pub open spec fn playback_policy_covers(key: Seq<char>) -> bool {
    exists|x: Seq<char>, y: Seq<char>| key == "videos/"@ + x + "/hls/"@ + y
}

/// Every object the worker uploads under a video's HLS prefix is covered by
/// the playback policy the video service installs.
pub proof fn law_worker_output_is_playable(video_id: Seq<char>, relative: Seq<char>)
    ensures
        playback_policy_covers(hls_prefix_of(video_id) + "/"@ + replace_char(relative, '\\', '/')),
{
    reveal_strlit("/hls");
    reveal_strlit("/");
    reveal_strlit("/hls/");
    let y = replace_char(relative, '\\', '/');
    assert(hls_prefix_of(video_id) + "/"@ + y =~= "videos/"@ + video_id + "/hls/"@ + y);
}

/// The HLS prefix the worker reports for a video is one the video service
/// accepts for that video, whatever failure code accompanies it.
pub proof fn law_worker_prefix_accepted(video_id: Seq<char>, failure_code: Option<Seq<char>>)
    ensures
        planned_update(video_id, "ready"@, Some(hls_prefix_of(video_id)), failure_code) == Ok::<
            Seq<char>,
            crate::api::ApiError,
        >(hls_prefix_of(video_id)),
{
    reveal_strlit("videos/");
    let p = hls_prefix_of(video_id);
    assert(p.len() > 0);
    assert(p.subrange(0, p.len() as int) =~= p);
}

/// The playback URL of a video whose HLS output the worker stored under its
/// prefix ends with `videos/<id>/hls/master.m3u8`.
pub proof fn law_playback_url_of_worker_output(media_base: Seq<char>, bucket: Seq<char>, video_id: Seq<char>)
    ensures
        playback_url_of(media_base, bucket, hls_prefix_of(video_id)) == crate::text::trim_end_char(
            media_base,
            '/',
        ) + "/"@ + bucket + "/"@ + "videos/"@ + video_id + "/hls/master.m3u8"@,
{
    reveal_strlit("videos/");
    reveal_strlit("/hls");
    reveal_strlit("/master.m3u8");
    reveal_strlit("/hls/master.m3u8");
    let p = hls_prefix_of(video_id);
    assert(p[0] == 'v');
    assert(trim_start_char(p, '/') == p);
    assert(p + "/master.m3u8"@ =~= "videos/"@ + video_id + "/hls/master.m3u8"@);
}

proof fn lemma_code_chars_only(s: Seq<char>)
    ensures
        forall|i: int| 0 <= i < code_chars(s).len() ==> is_code_char(#[trigger] code_chars(s)[i]),
        code_chars(s).len() <= s.len(),
    decreases s.len(),
{
    if s.len() > 0 {
        lemma_code_chars_only(s.drop_last());
    }
}

proof fn lemma_code_chars_identity(s: Seq<char>)
    requires
        forall|i: int| 0 <= i < s.len() ==> is_code_char(#[trigger] s[i]),
    ensures
        code_chars(s) == s,
    decreases s.len(),
{
    if s.len() > 0 {
        lemma_code_chars_identity(s.drop_last());
        assert(s.drop_last().push(s.last()) =~= s);
    }
}

/// A stored failure code holds only ASCII letters, digits and `_`, at most
/// 64 of them, and storing it again leaves it unchanged.
pub proof fn law_sanitized_code_is_stable(code: Seq<char>)
    ensures
        sanitized_code(code).len() <= MAX_FAILURE_CODE_CHARS,
        forall|i: int|
            0 <= i < sanitized_code(code).len() ==> is_code_char(#[trigger] sanitized_code(code)[i]),
        sanitized_code(sanitized_code(code)) == sanitized_code(code),
{
    lemma_code_chars_only(code);
    let s = sanitized_code(code);
    assert forall|i: int| 0 <= i < s.len() implies is_code_char(#[trigger] s[i]) by {
        assert(s[i] == code_chars(code)[i]);
    }
    lemma_code_chars_identity(s);
}

/// A failure code made of ASCII letters, digits and `_`, at most 64 long, is
/// stored as it is sent.
pub proof fn law_plain_codes_are_kept(code: Seq<char>)
    requires
        code.len() <= MAX_FAILURE_CODE_CHARS,
        forall|i: int| 0 <= i < code.len() ==> is_code_char(#[trigger] code[i]),
    ensures
        sanitized_code(code) == code,
{
    lemma_code_chars_identity(code);
}

/// The failure codes the worker reports are stored unchanged by the video service.
pub proof fn law_worker_failure_codes_kept()
    ensures
        sanitized_code("invalid_media"@) == "invalid_media"@,
        sanitized_code("callback_unavailable"@) == "callback_unavailable"@,
        sanitized_code("processing_unavailable"@) == "processing_unavailable"@,
        sanitized_code("processing_failed"@) == "processing_failed"@,
{
    reveal_strlit("invalid_media");
    reveal_strlit("callback_unavailable");
    reveal_strlit("processing_unavailable");
    reveal_strlit("processing_failed");
    law_plain_codes_are_kept("invalid_media"@);
    law_plain_codes_are_kept("callback_unavailable"@);
    law_plain_codes_are_kept("processing_unavailable"@);
    law_plain_codes_are_kept("processing_failed"@);
}


/// An output file's object key is the prefix, `/`, and the file's relative
/// path with each `\` written as `/` and every other character copied
/// unchanged; a path without `\` is appended as it is.
pub proof fn law_object_key_keeps_relative_path(prefix: Seq<char>, relative: Seq<char>)
    ensures
        ({
            let key = prefix + "/"@ + replace_char(relative, '\\', '/');
            &&& key.len() == prefix.len() + 1 + relative.len()
            &&& key.subrange(0, prefix.len() as int) == prefix
            &&& key[prefix.len() as int] == '/'
            &&& forall|i: int|
                0 <= i < relative.len() ==> #[trigger] key[prefix.len() + 1 + i] == (if relative[i]
                    == '\\' {
                    '/'
                } else {
                    relative[i]
                })
        }),
        (forall|i: int| 0 <= i < relative.len() ==> relative[i] != '\\') ==> prefix + "/"@
            + replace_char(relative, '\\', '/') == prefix + "/"@ + relative,
{
    reveal_strlit("/");
    let key = prefix + "/"@ + replace_char(relative, '\\', '/');
    assert(key.subrange(0, prefix.len() as int) =~= prefix);
    assert forall|i: int| 0 <= i < relative.len() implies #[trigger] key[prefix.len() + 1 + i] == (
    if relative[i] == '\\' {
        '/'
    } else {
        relative[i]
    }) by {
        assert(key[prefix.len() + 1 + i] == replace_char(relative, '\\', '/')[i]);
    }
    if forall|i: int| 0 <= i < relative.len() ==> relative[i] != '\\' {
        assert(replace_char(relative, '\\', '/') =~= relative);
    }
}

/// A rendition is advertised at 700 000 bit/s up to 360 lines, 2 000 000 from
/// 361 to 720 lines and 4 500 000 above; its width is the scaled width made
/// even (at least 2), and its height is the one asked for.
pub proof fn law_rendition_bandwidth_tiers(v: Variant, height: u32, scaled_width: u32)
    requires
        planned_variant(v, height, scaled_width),
    ensures
        v.height == height,
        v.height <= 360 ==> v.bandwidth == 700_000,
        361 <= v.height <= 720 ==> v.bandwidth == 2_000_000,
        v.height > 720 ==> v.bandwidth == 4_500_000,
        v.width % 2 == 0,
        scaled_width < 2 ==> v.width == 2,
        scaled_width >= 2 ==> v.width <= scaled_width && scaled_width <= v.width + 1,
{
}

/// A failure code made only of ASCII letters, ASCII digits and `_`, at most
/// 64 long, is stored as it is sent.
pub proof fn law_alphanumeric_codes_are_kept(code: Seq<char>)
    requires
        code.len() <= MAX_FAILURE_CODE_CHARS,
        forall|i: int|
            0 <= i < code.len() ==> ('0' <= #[trigger] code[i] && code[i] <= '9') || ('A' <= code[i]
                && code[i] <= 'Z') || ('a' <= code[i] && code[i] <= 'z') || code[i] == '_',
    ensures
        sanitized_code(code) == code,
{
    assert forall|i: int| 0 <= i < code.len() implies is_code_char(#[trigger] code[i]) by {}
    lemma_code_chars_identity(code);
}

/// The number that a text of ASCII decimal digits denotes, read from the
/// most significant digit.
pub open spec fn decimal_value(s: Seq<char>) -> int
    decreases s.len(),
{
    if s.len() == 0 {
        0
    } else {
        decimal_value(s.drop_last()) * 10 + (s.last() as int - '0' as int)
    }
}

/// The decimal text written for a number is made of ASCII digits, has no
/// leading zero, and reads back as that number.
pub proof fn law_decimal_reads_back(n: nat)
    ensures
        decimal(n).len() >= 1,
        n >= 10 ==> decimal(n).len() >= 2,
        forall|i: int| 0 <= i < decimal(n).len() ==> '0' <= #[trigger] decimal(n)[i] && decimal(n)[i] <= '9',
        decimal(n).len() > 1 ==> decimal(n)[0] != '0',
        decimal_value(decimal(n)) == n,
    decreases n,
{
    let d = decimal(n);
    if n < 10 {
        lemma_digit_char_value(n);
        assert(d.drop_last() =~= Seq::<char>::empty());
        assert(decimal_value(d.drop_last()) == 0);
        assert(d.last() == crate::text::digit_char(n));
        assert(decimal_value(d) == decimal_value(d.drop_last()) * 10 + (d.last() as int - '0' as int));
    } else {
        law_decimal_reads_back(n / 10);
        lemma_digit_char_value(n % 10);
        let p = decimal(n / 10);
        assert(d == p.push(crate::text::digit_char(n % 10)));
        assert(d.drop_last() =~= p);
        if p.len() == 1 {
            lemma_digit_char_value(n / 10);
        }
        assert(d.last() == crate::text::digit_char(n % 10));
        assert(decimal_value(d) == decimal_value(p) * 10 + (d.last() as int - '0' as int));
        assert(decimal_value(p) == n / 10);
        assert((n / 10) * 10 + n % 10 == n);
        assert(d[0] == p[0]);
        assert forall|i: int| 0 <= i < d.len() implies '0' <= #[trigger] d[i] && d[i] <= '9' by {
            if i < p.len() {
                assert(d[i] == p[i]);
            }
        }
    }
}

proof fn lemma_digit_char_value(d: nat)
    requires
        d < 10,
    ensures
        crate::text::digit_char(d) as int == '0' as int + d,
{
}

/// The dimensions read from a probe are the width and then the height of its
/// first video stream, whatever their relative size; a first video stream without a
/// positive width and height gives none.
pub proof fn law_dimensions_are_width_then_height(streams: Seq<ProbeStream>, k: int)
    requires
        0 <= k < streams.len(),
        streams[k].codec_type is Some && streams[k].codec_type->0@ == "video"@,
        forall|j: int|
            0 <= j < k ==> !(#[trigger] streams[j].codec_type is Some && streams[j].codec_type->0@
                == "video"@),
    ensures
        (streams[k].width is Some && streams[k].width->0 > 0 && streams[k].height is Some
            && streams[k].height->0 > 0) ==> probed_dimensions(streams) == Some((streams[k].width->0, streams[k].height->0)),
        !(streams[k].width is Some && streams[k].width->0 > 0 && streams[k].height is Some
            && streams[k].height->0 > 0) ==> probed_dimensions(streams) is None,
{
    lemma_first_video_stream_at(streams, k);
}

proof fn lemma_first_video_stream_at(streams: Seq<ProbeStream>, k: int)
    requires
        0 <= k < streams.len(),
        streams[k].codec_type is Some && streams[k].codec_type->0@ == "video"@,
        forall|j: int|
            0 <= j < k ==> !(#[trigger] streams[j].codec_type is Some && streams[j].codec_type->0@
                == "video"@),
    ensures
        first_video_stream(streams) == Some(streams[k]),
    decreases k,
{
    if k > 0 {
        let rest = streams.drop_first();
        assert(!(streams[0].codec_type is Some && streams[0].codec_type->0@ == "video"@));
        assert forall|j: int| 0 <= j < k - 1 implies !(#[trigger] rest[j].codec_type is Some
            && rest[j].codec_type->0@ == "video"@) by {
            assert(rest[j] == streams[j + 1]);
        }
        assert(rest[k - 1] == streams[k]);
        lemma_first_video_stream_at(rest, k - 1);
    }
}

} // verus!
