//! Rules of the transcoding worker: which uploads it accepts, which HLS
//! renditions it produces and how it names them, the master playlist it
//! writes, and how a job is acknowledged, retried or reported as failed.
use vstd::prelude::*;

use crate::text::{decimal, push_decimal, push_str, same_text, trim_end_char, trim_end_matches};

verus! {

/// Queue that carries `video.uploaded.v1` jobs.
pub const JOB_QUEUE: &'static str = "video.uploaded.v1";

/// Queue where a failed attempt waits before it is dead-lettered back to the job queue.
pub const RETRY_QUEUE: &'static str = "video.uploaded.retry";

/// Deliveries of one job, the first included, before it is reported as failed.
pub const MAX_DELIVERIES: u64 = 5;

/// Largest accepted source object, in bytes (1 GiB).
pub const MAX_SOURCE_BYTES: i64 = 1_073_741_824;

/// Milliseconds a job waits in the retry queue.
pub const RETRY_DELAY_MS: i32 = 5000;

/// Why processing a job did not produce HLS output.
#[derive(Debug)]
pub enum WorkError {
    /// The source is not a usable MP4 video; retrying cannot help.
    InvalidMedia,
    /// Storage, file system or tool failure; the job may succeed later.
    Transient(String),
}

/// One stream as `ffprobe -show_streams` describes it.
#[derive(Debug)]
pub struct ProbeStream {
    pub codec_type: Option<String>,
    pub width: Option<u32>,
    pub height: Option<u32>,
}

/// One HLS rendition produced for a video.
#[derive(Debug)]
pub struct Variant {
    pub height: u32,
    pub width: u32,
    pub bandwidth: u32,
    pub directory: String,
}

/// The terminal result the worker reports to the video service.
#[derive(Debug)]
pub struct ProcessingResult {
    pub result: String,
    pub hls_prefix: Option<String>,
    pub failure_code: Option<String>,
}

/// A numeric AMQP header value, as far as the retry counter reads it.
#[derive(Debug, Clone, Copy, PartialEq, Eq, Structural)]
pub enum HeaderValue {
    LongLongInt(i64),
    LongInt(i32),
    ShortInt(i16),
    /// Any other AMQP value.
    Other,
}

/// An argument of the retry queue's declaration.
#[derive(Debug)]
pub enum QueueArgument {
    LongInt(i32),
    LongString(String),
}

/// What to do with a job after the worker has processed it.
#[derive(Debug)]
pub enum NextStep {
    /// Send this result to the video service.
    Report(ProcessingResult),
    /// Retry the job, or report it failed with this code once the budget is spent.
    RetryOrFail(String),
}

/// What to do with a job once its result was sent, or could not be sent.
#[derive(Debug)]
pub enum AfterReport {
    Acknowledge,
    RetryOrFail(String),
}

/// How a failed attempt ends.
#[derive(Debug)]
pub enum RetryPlan {
    /// The budget is spent: report this failure, then acknowledge the job.
    ReportFailure(ProcessingResult),
    /// Publish the job to the retry queue with this `x-retry-count`, then acknowledge it.
    Requeue(HeaderValue),
}

// ---------------------------------------------------------------------------
// Specifications
// ---------------------------------------------------------------------------

/// An upload the worker accepts: an MP4 of 1 byte to 1 GiB.
pub open spec fn accepted_upload(content_type: Seq<char>, size_bytes: int) -> bool {
    content_type == "video/mp4"@ && 1 <= size_bytes <= MAX_SOURCE_BYTES
}

/// A stream whose codec type is `video`.
pub open spec fn is_video_stream(s: ProbeStream) -> bool {
    s.codec_type matches Some(t) && t@ == "video"@
}

/// The first video stream of a probe, if there is one.
pub open spec fn first_video_stream(streams: Seq<ProbeStream>) -> Option<ProbeStream>
    decreases streams.len(),
{
    if streams.len() == 0 {
        None
    } else if is_video_stream(streams[0]) {
        Some(streams[0])
    } else {
        first_video_stream(streams.drop_first())
    }
}

/// Positive width and height of the first video stream, if it has both.
pub open spec fn probed_dimensions(streams: Seq<ProbeStream>) -> Option<(u32, u32)> {
    match first_video_stream(streams) {
        Some(s) => if s.width is Some && s.width->0 > 0 && s.height is Some && s.height->0 > 0 {
            Some((s.width->0, s.height->0))
        } else {
            None
        },
        None => None,
    }
}

/// The heights to produce for a source: the standard 360, 720 and 1080
/// rungs that do not exceed the source, then the source height itself
/// (capped at 1080) when it lies above the last of them.
pub open spec fn rendition_ladder(source_height: u32) -> Seq<u32> {
    let maximum: u32 = if source_height < 1080 {
        source_height
    } else {
        1080
    };
    let rungs: Seq<u32> = if source_height >= 1080 {
        seq![360u32, 720u32, 1080u32]
    } else if source_height >= 720 {
        seq![360u32, 720u32]
    } else if source_height >= 360 {
        seq![360u32]
    } else {
        Seq::<u32>::empty()
    };
    if rungs.len() == 0 {
        seq![maximum]
    } else if rungs.last() < maximum {
        rungs.push(maximum)
    } else {
        rungs
    }
}

/// `x` rounded down to an even number.
pub open spec fn even_floor(x: int) -> int {
    x / 2 * 2
}

/// Height of a rendition: the target, never above the source, at least 2, even.
pub open spec fn variant_height(source_height: u32, target_height: u32) -> int {
    let h = if target_height < source_height {
        target_height as int
    } else {
        source_height as int
    };
    even_floor(if h < 2 {
        2
    } else {
        h
    })
}

/// Width of a rendition from the source width scaled to its height: at
/// least 2, even.
pub open spec fn variant_width(scaled_width: u32) -> int {
    even_floor(if scaled_width < 2 {
        2
    } else {
        scaled_width as int
    })
}

/// Advertised bandwidth of a rendition of the given height.
pub open spec fn bandwidth_for(height: int) -> u32 {
    if height <= 360 {
        700_000
    } else if height <= 720 {
        2_000_000
    } else {
        4_500_000
    }
}

/// Directory (and label) of a rendition: its height followed by `p`.
pub open spec fn rendition_label(height: nat) -> Seq<char> {
    decimal(height) + "p"@
}

/// The rendition planned for a height and the source width scaled to it.
pub open spec fn planned_variant(v: Variant, height: u32, scaled_width: u32) -> bool {
    &&& v.height == height
    &&& v.width == variant_width(scaled_width)
    &&& v.bandwidth == bandwidth_for(v.height as int)
    &&& v.directory@ == rendition_label(v.height as nat)
}

/// Header of every master playlist.
pub open spec fn master_header() -> Seq<char> {
    "#EXTM3U\n#EXT-X-VERSION:3\n"@
}

/// The two playlist lines that announce one rendition.
pub open spec fn stream_entry(v: Variant) -> Seq<char> {
    "#EXT-X-STREAM-INF:BANDWIDTH="@ + decimal(v.bandwidth as nat) + ",RESOLUTION="@ + decimal(
        v.width as nat,
    ) + "x"@ + decimal(v.height as nat) + "\n"@ + v.directory@ + "/index.m3u8\n"@
}

/// The master playlist listing the renditions in order.
pub open spec fn master_playlist(variants: Seq<Variant>) -> Seq<char>
    decreases variants.len(),
{
    if variants.len() == 0 {
        master_header()
    } else {
        master_playlist(variants.drop_last()) + stream_entry(variants.last())
    }
}

/// Object-store prefix of a video's HLS output.
pub open spec fn hls_prefix_of(video_id: Seq<char>) -> Seq<char> {
    "videos/"@ + video_id + "/hls"@
}

/// `s` with every `from` replaced by `to`.
pub open spec fn replace_char(s: Seq<char>, from: char, to: char) -> Seq<char> {
    s.map_values(|c: char| if c == from { to } else { c })
}

/// Whether the worker has used up its deliveries at this attempt (counted from 0).
pub open spec fn budget_exhausted(attempt: u64) -> bool {
    attempt >= MAX_DELIVERIES - 1
}

/// The attempt number that a retry header carries, 0 when it carries none.
pub open spec fn attempt_of(header: Option<HeaderValue>) -> u64 {
    match header {
        Some(HeaderValue::LongLongInt(n)) => if n >= 0 {
            n as u64
        } else {
            0
        },
        Some(HeaderValue::LongInt(n)) => if n >= 0 {
            n as u64
        } else {
            0
        },
        _ => 0,
    }
}

/// A report of a failure with the given code.
pub open spec fn is_failure_report(r: ProcessingResult, code: Seq<char>) -> bool {
    &&& r.result@ == "failed"@
    &&& r.hls_prefix is None
    &&& r.failure_code matches Some(c) && c@ == code
}

/// A report that the video is ready under the given prefix.
pub open spec fn is_ready_report(r: ProcessingResult, prefix: Seq<char>) -> bool {
    &&& r.result@ == "ready"@
    &&& r.hls_prefix matches Some(p) && p@ == prefix
    &&& r.failure_code is None
}

// ---------------------------------------------------------------------------
// Upload and probe checks
// ---------------------------------------------------------------------------

/// Rejects, before any storage access, an upload that is not an MP4 of 1 byte to 1 GiB.
pub fn check_upload_metadata(content_type: &str, size_bytes: i64) -> (r: Result<(), WorkError>)
    ensures
        r is Ok <==> accepted_upload(content_type@, size_bytes as int),
        r is Err ==> r->Err_0 is InvalidMedia,
{
    if !same_text(content_type, "video/mp4") || !(1 <= size_bytes && size_bytes <= MAX_SOURCE_BYTES) {
        return Err(WorkError::InvalidMedia);
    }
    Ok(())
}

/// Rejects a downloaded source whose length differs from the announced size
/// (compared as the signed 64-bit values the job carries).
pub fn check_downloaded_size(actual_len: u64, size_bytes: i64) -> (r: Result<(), WorkError>)
    ensures
        r is Ok <==> actual_len as i64 == size_bytes,
        r is Err ==> r->Err_0 is InvalidMedia,
{
    if actual_len as i64 != size_bytes {
        return Err(WorkError::InvalidMedia);
    }
    Ok(())
}

/// The outcome of running `ffprobe`: a failed run or unreadable output means
/// the source is not valid media.
pub fn probe_outcome(exit_success: bool, parsed: Option<Vec<ProbeStream>>) -> (r: Result<Vec<ProbeStream>, WorkError>)
    ensures
        exit_success && parsed is Some ==> (r matches Ok(v) && v@ == parsed->0@),
        !(exit_success && parsed is Some) ==> (r matches Err(e) && e is InvalidMedia),
{
    if !exit_success {
        return Err(WorkError::InvalidMedia);
    }
    match parsed {
        Some(streams) => Ok(streams),
        None => Err(WorkError::InvalidMedia),
    }
}

fn is_video(s: &ProbeStream) -> (b: bool)
    ensures
        b == is_video_stream(*s),
{
    match &s.codec_type {
        Some(t) => same_text(t.as_str(), "video"),
        None => false,
    }
}

/// Width and height of the source: those of its first video stream, both positive.
pub fn source_dimensions(streams: &Vec<ProbeStream>) -> (r: Result<(u32, u32), WorkError>)
    ensures
        match probed_dimensions(streams@) {
            Some(d) => r matches Ok(x) && x == d,
            None => r matches Err(e) && e is InvalidMedia,
        },
        r matches Ok(d) ==> first_video_stream(streams@) matches Some(s) && s.width == Some(d.0)
            && s.height == Some(d.1),
{
    let mut i: usize = 0;
    assert(streams@.skip(0) =~= streams@);
    while i < streams.len()
        invariant
            i <= streams.len(),
            first_video_stream(streams@) == first_video_stream(streams@.skip(i as int)),
        decreases streams.len() - i,
    {
        if is_video(&streams[i]) {
            let s = &streams[i];
            assert(streams@.skip(i as int)[0] == streams@[i as int]);
            match (s.width, s.height) {
                (Some(w), Some(h)) => {
                    if w > 0 && h > 0 {
                        return Ok((w, h));
                    }
                    return Err(WorkError::InvalidMedia);
                },
                _ => {
                    return Err(WorkError::InvalidMedia);
                },
            }
        }
        assert(streams@.skip(i as int).drop_first() =~= streams@.skip(i + 1));
        i = i + 1;
    }
    assert(streams@.skip(i as int).len() == 0);
    Err(WorkError::InvalidMedia)
}

// ---------------------------------------------------------------------------
// Renditions and playlists
// ---------------------------------------------------------------------------

/// Heights of the renditions to produce for a source of the given height.
pub fn rendition_heights(source_height: u32) -> (r: Vec<u32>)
    ensures
        r@ == rendition_ladder(source_height),
        r.len() >= 1,
        r@.last() == (if source_height < 1080 {
            source_height
        } else {
            1080
        }),
        forall|i: int| 0 <= i < r.len() ==> r@[i] <= source_height && r@[i] <= 1080,
        forall|i: int, j: int| 0 <= i < j < r.len() ==> r@[i] < r@[j],
{
    let maximum: u32 = if source_height < 1080 {
        source_height
    } else {
        1080
    };
    let mut heights: Vec<u32> = Vec::new();
    if 360 <= source_height {
        heights.push(360);
    }
    if 720 <= source_height {
        heights.push(720);
    }
    if 1080 <= source_height {
        heights.push(1080);
    }
    let last: u32 = if heights.len() > 0 {
        heights[heights.len() - 1]
    } else {
        0
    };
    if last < maximum {
        heights.push(maximum);
    }
    if heights.len() == 0 {
        heights.push(maximum);
    }
    assert(heights@ =~= rendition_ladder(source_height));
    heights
}

/// Height of the rendition of a source for a target height: the target,
/// never above the source, at least 2, rounded down to even.
pub fn rendition_height(source_height: u32, target_height: u32) -> (h: u32)
    ensures
        h == variant_height(source_height, target_height),
        h >= 2 && h % 2 == 0,
        h <= target_height || h <= source_height || h == 2,
{
    let bounded: u32 = if target_height < source_height {
        target_height
    } else {
        source_height
    };
    let at_least_two: u32 = if bounded < 2 {
        2
    } else {
        bounded
    };
    at_least_two / 2 * 2
}

/// The rendition of the given height, with `scaled_width` the source width
/// times that height over the source height, rounded and saturated to `u32`
/// (the caller's floating-point division): width at least 2 and even,
/// bandwidth by height, directory named after the height.
pub fn plan_variant(height: u32, scaled_width: u32) -> (v: Variant)
    ensures
        planned_variant(v, height, scaled_width),
        v.width >= 2 && v.width % 2 == 0,
        v.height <= 360 ==> v.bandwidth == 700_000,
        361 <= v.height <= 720 ==> v.bandwidth == 2_000_000,
        v.height > 720 ==> v.bandwidth == 4_500_000,
{
    let width_at_least_two: u32 = if scaled_width < 2 {
        2
    } else {
        scaled_width
    };
    let width: u32 = width_at_least_two / 2 * 2;
    let bandwidth: u32 = if height <= 360 {
        700_000
    } else if height <= 720 {
        2_000_000
    } else {
        4_500_000
    };
    let mut directory = String::new();
    push_decimal(&mut directory, height as u64);
    push_str(&mut directory, "p");
    assert(directory@ =~= rendition_label(height as nat));
    Variant { height, width, bandwidth, directory }
}

/// The `-vf` filter that scales and letterboxes the source to the rendition size.
pub fn scale_filter(width: u32, height: u32) -> (r: String)
    ensures
        r@ == "scale="@ + decimal(width as nat) + ":"@ + decimal(height as nat)
            + ":force_original_aspect_ratio=decrease,pad="@ + decimal(width as nat) + ":"@
            + decimal(height as nat) + ":(ow-iw)/2:(oh-ih)/2"@,
{
    let mut s = String::new();
    push_str(&mut s, "scale=");
    push_decimal(&mut s, width as u64);
    push_str(&mut s, ":");
    push_decimal(&mut s, height as u64);
    push_str(&mut s, ":force_original_aspect_ratio=decrease,pad=");
    push_decimal(&mut s, width as u64);
    push_str(&mut s, ":");
    push_decimal(&mut s, height as u64);
    push_str(&mut s, ":(ow-iw)/2:(oh-ih)/2");
    assert(s@ =~= "scale="@ + decimal(width as nat) + ":"@ + decimal(height as nat)
        + ":force_original_aspect_ratio=decrease,pad="@ + decimal(width as nat) + ":"@ + decimal(
        height as nat,
    ) + ":(ow-iw)/2:(oh-ih)/2"@);
    s
}

/// The outcome of an `ffmpeg` run: a failed run means the source is not valid media.
pub fn transcode_outcome(exit_success: bool) -> (r: Result<(), WorkError>)
    ensures
        r is Ok <==> exit_success,
        r is Err ==> r->Err_0 is InvalidMedia,
{
    if exit_success {
        Ok(())
    } else {
        Err(WorkError::InvalidMedia)
    }
}

proof fn lemma_master_starts_with_header(variants: Seq<Variant>)
    ensures
        crate::text::has_prefix(master_playlist(variants), master_header()),
    decreases variants.len(),
{
    if variants.len() > 0 {
        let rest = variants.drop_last();
        lemma_master_starts_with_header(rest);
        let m = master_playlist(rest);
        let h = master_header();
        assert((m + stream_entry(variants.last())).subrange(0, h.len() as int) =~= m.subrange(
            0,
            h.len() as int,
        ));
    } else {
        assert(master_header().subrange(0, master_header().len() as int) =~= master_header());
    }
}

/// The HLS master playlist that lists the given renditions; it always begins
/// with the playlist header, also when there are none.
pub fn render_master(variants: &[Variant]) -> (r: String)
    ensures
        r@ == master_playlist(variants@),
        crate::text::has_prefix(r@, master_header()),
{
    proof {
        lemma_master_starts_with_header(variants@);
    }
    let mut master = String::new();
    push_str(&mut master, "#EXTM3U\n#EXT-X-VERSION:3\n");
    assert(master@ =~= master_playlist(variants@.take(0)));
    let mut i: usize = 0;
    while i < variants.len()
        invariant
            i <= variants.len(),
            master@ == master_playlist(variants@.take(i as int)),
        decreases variants.len() - i,
    {
        let v = &variants[i];
        let ghost before = master@;
        push_str(&mut master, "#EXT-X-STREAM-INF:BANDWIDTH=");
        push_decimal(&mut master, v.bandwidth as u64);
        push_str(&mut master, ",RESOLUTION=");
        push_decimal(&mut master, v.width as u64);
        push_str(&mut master, "x");
        push_decimal(&mut master, v.height as u64);
        push_str(&mut master, "\n");
        push_str(&mut master, v.directory.as_str());
        push_str(&mut master, "/index.m3u8\n");
        assert(master@ =~= before + stream_entry(*v));
        assert(variants@.take(i + 1).drop_last() =~= variants@.take(i as int));
        assert(variants@.take(i + 1).last() == *v);
        i = i + 1;
    }
    assert(variants@.take(variants.len() as int) =~= variants@);
    master
}

// ---------------------------------------------------------------------------
// Object keys and callbacks
// ---------------------------------------------------------------------------

/// Object-store prefix under which a video's HLS output is stored.
pub fn hls_prefix(video_id: &str) -> (r: String)
    ensures
        r@ == hls_prefix_of(video_id@),
{
    let mut s = String::new();
    push_str(&mut s, "videos/");
    push_str(&mut s, video_id);
    push_str(&mut s, "/hls");
    assert(s@ =~= hls_prefix_of(video_id@));
    s
}

/// Object key of an output file: the prefix, `/`, and the file's path below
/// the output directory with `\` written as `/`.
pub fn hls_object_key(prefix: &str, relative: &str) -> (r: String)
    ensures
        r@ == prefix@ + "/"@ + replace_char(relative@, '\\', '/'),
        r@.len() == prefix@.len() + 1 + relative@.len(),
        forall|i: int|
            0 <= i < relative@.len() ==> #[trigger] r@[prefix@.len() + 1 + i] == (if relative@[i]
                == '\\' {
                '/'
            } else {
                relative@[i]
            }),
{
    proof {
        crate::laws::law_object_key_keeps_relative_path(prefix@, relative@);
    }
    let cs = crate::text::chars_of(relative);
    let mut s = String::new();
    push_str(&mut s, prefix);
    push_str(&mut s, "/");
    let ghost start = s@;
    let mut i: usize = 0;
    while i < cs.len()
        invariant
            cs@ == relative@,
            i <= cs.len(),
            s@ == start + replace_char(relative@.take(i as int), '\\', '/'),
        decreases cs.len() - i,
    {
        let c = cs[i];
        if c == '\\' {
            crate::text::push_char(&mut s, '/');
        } else {
            crate::text::push_char(&mut s, c);
        }
        assert(replace_char(relative@.take(i + 1), '\\', '/') =~= replace_char(
            relative@.take(i as int),
            '\\',
            '/',
        ).push(if c == '\\' {
            '/'
        } else {
            c
        }));
        i = i + 1;
    }
    assert(relative@.take(cs.len() as int) =~= relative@);
    s
}

/// Content type of an output file, by its extension.
pub fn hls_content_type(extension: Option<&str>) -> (r: &'static str)
    ensures
        (extension matches Some(e) && e@ == "m3u8"@) ==> r@ == "application/vnd.apple.mpegurl"@,
        !(extension matches Some(e) && e@ == "m3u8"@) ==> r@ == "video/mp2t"@,
{
    match extension {
        Some(e) => if same_text(e, "m3u8") {
            "application/vnd.apple.mpegurl"
        } else {
            "video/mp2t"
        },
        None => "video/mp2t",
    }
}

/// URL of the video service's processing-result callback for a video.
pub fn callback_url(service_base: &str, video_id: &str) -> (r: String)
    ensures
        r@ == trim_end_char(service_base@, '/') + "/internal/videos/"@ + video_id@
            + "/processing-result"@,
{
    let mut s = String::new();
    push_str(&mut s, trim_end_matches(service_base, '/'));
    push_str(&mut s, "/internal/videos/");
    push_str(&mut s, video_id);
    push_str(&mut s, "/processing-result");
    assert(s@ =~= trim_end_char(service_base@, '/') + "/internal/videos/"@ + video_id@
        + "/processing-result"@);
    s
}

/// The report that a video is ready under the given prefix.
pub fn ready_report(prefix: &str) -> (r: ProcessingResult)
    ensures
        is_ready_report(r, prefix@),
{
    ProcessingResult {
        result: "ready".to_owned(),
        hls_prefix: Some(prefix.to_owned()),
        failure_code: None,
    }
}

/// The report that processing failed with the given code.
pub fn failure_report(code: &str) -> (r: ProcessingResult)
    ensures
        is_failure_report(r, code@),
{
    ProcessingResult { result: "failed".to_owned(), hls_prefix: None, failure_code: Some(code.to_owned()) }
}

// ---------------------------------------------------------------------------
// Acknowledgement, retry and failure
// ---------------------------------------------------------------------------

/// What follows processing: a ready or invalid-media result is reported; a
/// transient failure goes to retry with `processing_unavailable`.
pub fn step_after_processing(outcome: &Result<String, WorkError>) -> (s: NextStep)
    ensures
        match outcome {
            Ok(prefix) => s matches NextStep::Report(r) && is_ready_report(r, prefix@),
            Err(WorkError::InvalidMedia) => s matches NextStep::Report(r) && is_failure_report(
                r,
                "invalid_media"@,
            ),
            Err(WorkError::Transient(_)) => s matches NextStep::RetryOrFail(c) && c@
                == "processing_unavailable"@,
        },
{
    match outcome {
        Ok(prefix) => NextStep::Report(ready_report(prefix.as_str())),
        Err(WorkError::InvalidMedia) => NextStep::Report(failure_report("invalid_media")),
        Err(WorkError::Transient(_)) => NextStep::RetryOrFail("processing_unavailable".to_owned()),
    }
}

/// What follows a report: acknowledge when the video service accepted it,
/// otherwise retry with `callback_unavailable`.
pub fn step_after_report(accepted: bool) -> (s: AfterReport)
    ensures
        accepted ==> s is Acknowledge,
        !accepted ==> (s matches AfterReport::RetryOrFail(c) && c@ == "callback_unavailable"@),
{
    if accepted {
        AfterReport::Acknowledge
    } else {
        AfterReport::RetryOrFail("callback_unavailable".to_owned())
    }
}

/// Whether the delivery with this attempt number (counted from 0) is the last allowed one.
pub fn exhausted_retry_budget(attempt: u64) -> (b: bool)
    ensures
        b == budget_exhausted(attempt),
{
    attempt >= MAX_DELIVERIES - 1
}

/// The attempt number carried by a delivery's `x-retry-count` header: a
/// non-negative 64- or 32-bit integer, 0 for anything else or no header.
pub fn retry_count(header: Option<HeaderValue>) -> (n: u64)
    ensures
        n == attempt_of(header),
{
    match header {
        Some(HeaderValue::LongLongInt(n)) => if n >= 0 {
            n as u64
        } else {
            0
        },
        Some(HeaderValue::LongInt(n)) => if n >= 0 {
            n as u64
        } else {
            0
        },
        _ => 0,
    }
}

/// How a failed attempt ends: once the budget is spent the failure is
/// reported with the given code; before that the job is requeued with the
/// next attempt number.
pub fn retry_or_fail(attempt: u64, failure_code: &str) -> (p: RetryPlan)
    ensures
        budget_exhausted(attempt) ==> (p matches RetryPlan::ReportFailure(r) && is_failure_report(
            r,
            failure_code@,
        )),
        !budget_exhausted(attempt) ==> p == RetryPlan::Requeue(
            HeaderValue::LongLongInt((attempt + 1) as i64),
        ),
{
    if exhausted_retry_budget(attempt) {
        RetryPlan::ReportFailure(failure_report(failure_code))
    } else {
        RetryPlan::Requeue(HeaderValue::LongLongInt((attempt + 1) as i64))
    }
}

/// Arguments of the retry queue: jobs wait there for the retry delay and are
/// then dead-lettered through the default exchange back to `job_queue`.
pub fn retry_queue_arguments(job_queue: &str) -> (args: Vec<(String, QueueArgument)>)
    ensures
        args.len() == 3,
        args[0].0@ == "x-message-ttl"@ && args[0].1 == QueueArgument::LongInt(RETRY_DELAY_MS),
        args[1].0@ == "x-dead-letter-exchange"@,
        args[1].1 matches QueueArgument::LongString(s) && s@ == ""@,
        args[2].0@ == "x-dead-letter-routing-key"@,
        args[2].1 matches QueueArgument::LongString(s) && s@ == job_queue@,
{
    let mut args: Vec<(String, QueueArgument)> = Vec::new();
    args.push(("x-message-ttl".to_owned(), QueueArgument::LongInt(RETRY_DELAY_MS)));
    args.push(("x-dead-letter-exchange".to_owned(), QueueArgument::LongString("".to_owned())));
    args.push(
        ("x-dead-letter-routing-key".to_owned(), QueueArgument::LongString(job_queue.to_owned())),
    );
    args
}

} // verus!
