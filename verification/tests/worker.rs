use opentube::transcode::{
    callback_url, check_downloaded_size, check_upload_metadata, exhausted_retry_budget,
    failure_report, hls_content_type, hls_object_key, hls_prefix, plan_variant, probe_outcome, rendition_height,
    ready_report, render_master, rendition_heights, retry_count, retry_or_fail,
    retry_queue_arguments, scale_filter, source_dimensions, step_after_processing,
    step_after_report, transcode_outcome, AfterReport, HeaderValue, NextStep, ProbeStream,
    QueueArgument, RetryPlan, Variant, WorkError, MAX_DELIVERIES,
};

#[test]
fn master_playlist_lists_all_adaptive_variants() {
    let text = render_master(&[
        Variant {
            height: 360,
            width: 640,
            bandwidth: 700_000,
            directory: "360p".into(),
        },
        Variant {
            height: 720,
            width: 1280,
            bandwidth: 2_000_000,
            directory: "720p".into(),
        },
    ]);
    assert!(text.starts_with("#EXTM3U\n"));
    assert!(text.contains("360p/index.m3u8"));
    assert!(text.contains("1280x720"));
}

#[test]
fn master_playlist_without_variants_still_has_a_valid_header() {
    assert_eq!(render_master(&[]), "#EXTM3U\n#EXT-X-VERSION:3\n");
}

#[test]
fn master_playlist_has_exact_stream_entries() {
    let text = render_master(&[Variant {
        height: 480,
        width: 854,
        bandwidth: 2_000_000,
        directory: "480p".into(),
    }]);
    assert_eq!(
        text,
        "#EXTM3U\n#EXT-X-VERSION:3\n#EXT-X-STREAM-INF:BANDWIDTH=2000000,RESOLUTION=854x480\n480p/index.m3u8\n"
    );
}

#[test]
fn rendition_heights_never_upscale_and_stop_at_1080p() {
    assert_eq!(rendition_heights(240), [240]);
    assert_eq!(rendition_heights(360), [360]);
    assert_eq!(rendition_heights(480), [360, 480]);
    assert_eq!(rendition_heights(720), [360, 720]);
    assert_eq!(rendition_heights(1440), [360, 720, 1080]);
}

#[test]
fn rendition_heights_edge_cases() {
    assert_eq!(rendition_heights(0), [0]);
    assert_eq!(rendition_heights(1080), [360, 720, 1080]);
    assert_eq!(rendition_heights(1079), [360, 720, 1079]);
    assert_eq!(rendition_heights(u32::MAX), [360, 720, 1080]);
}

#[test]
fn retry_count_accepts_supported_nonnegative_amqp_numbers_only() {
    assert_eq!(retry_count(None), 0);
    for (value, expected) in [
        (HeaderValue::LongLongInt(3), 3),
        (HeaderValue::LongInt(4), 4),
        (HeaderValue::LongLongInt(-1), 0),
        (HeaderValue::ShortInt(8), 0),
    ] {
        assert_eq!(retry_count(Some(value)), expected);
    }
    assert_eq!(retry_count(Some(HeaderValue::LongInt(-7))), 0);
    assert_eq!(retry_count(Some(HeaderValue::Other)), 0);
}

#[test]
fn retry_budget_fails_only_after_the_final_delivery() {
    assert!(!exhausted_retry_budget(0));
    assert!(!exhausted_retry_budget(MAX_DELIVERIES - 2));
    assert!(exhausted_retry_budget(MAX_DELIVERIES - 1));
    assert!(exhausted_retry_budget(MAX_DELIVERIES));
}

#[test]
fn requeued_header_is_read_back_as_next_attempt() {
    for attempt in 0..MAX_DELIVERIES - 1 {
        match retry_or_fail(attempt, "transient") {
            RetryPlan::Requeue(header) => assert_eq!(retry_count(Some(header)), attempt + 1),
            RetryPlan::ReportFailure(_) => panic!("budget not spent at attempt {attempt}"),
        }
    }
}

#[test]
fn final_delivery_reports_failure_with_its_code() {
    match retry_or_fail(MAX_DELIVERIES - 1, "retry_limit_reached") {
        RetryPlan::ReportFailure(report) => {
            assert_eq!(report.result, "failed");
            assert_eq!(report.hls_prefix, None);
            assert_eq!(report.failure_code.as_deref(), Some("retry_limit_reached"));
        }
        RetryPlan::Requeue(_) => panic!("budget is spent"),
    }
}

#[test]
fn invalid_media_metadata_is_rejected_before_processing() {
    assert!(matches!(
        check_upload_metadata("video/quicktime", 1),
        Err(WorkError::InvalidMedia)
    ));
    assert!(matches!(
        check_upload_metadata("video/mp4", 1_073_741_825),
        Err(WorkError::InvalidMedia)
    ));
    assert!(matches!(check_upload_metadata("video/mp4", 0), Err(WorkError::InvalidMedia)));
    assert!(check_upload_metadata("video/mp4", 1).is_ok());
    assert!(check_upload_metadata("video/mp4", 1_073_741_824).is_ok());
}

#[test]
fn downloaded_size_must_match_the_announced_size() {
    assert!(check_downloaded_size(42, 42).is_ok());
    assert!(matches!(check_downloaded_size(41, 42), Err(WorkError::InvalidMedia)));
    assert!(matches!(check_downloaded_size(u64::MAX, -1), Ok(())));
}

#[test]
fn probe_results_are_classified() {
    let streams = vec![ProbeStream {
        codec_type: Some("video".into()),
        width: Some(640),
        height: Some(360),
    }];
    let probed = probe_outcome(true, Some(streams)).unwrap();
    assert_eq!(probed.len(), 1);
    assert_eq!(probed[0].width, Some(640));
    assert!(matches!(probe_outcome(false, Some(Vec::new())), Err(WorkError::InvalidMedia)));
    assert!(matches!(probe_outcome(true, None), Err(WorkError::InvalidMedia)));
}

#[test]
fn source_dimensions_come_from_the_first_video_stream() {
    let audio = ProbeStream { codec_type: Some("audio".into()), width: None, height: None };
    let video = ProbeStream { codec_type: Some("video".into()), width: Some(854), height: Some(480) };
    let later = ProbeStream { codec_type: Some("video".into()), width: Some(1920), height: Some(1080) };
    assert_eq!(source_dimensions(&vec![audio, video, later]).unwrap(), (854, 480));
    let empty_width = ProbeStream { codec_type: Some("video".into()), width: Some(0), height: Some(480) };
    let later = ProbeStream { codec_type: Some("video".into()), width: Some(1920), height: Some(1080) };
    assert!(matches!(source_dimensions(&vec![empty_width, later]), Err(WorkError::InvalidMedia)));
    let untyped = ProbeStream { codec_type: None, width: Some(10), height: Some(10) };
    assert!(matches!(source_dimensions(&vec![untyped]), Err(WorkError::InvalidMedia)));
    assert!(matches!(source_dimensions(&Vec::new()), Err(WorkError::InvalidMedia)));
}

/// The source width scaled to a rendition height, as the worker computes it.
fn scaled(source_width: u32, source_height: u32, height: u32) -> u32 {
    (source_width as f64 * height as f64 / source_height as f64).round() as u32
}

/// The rendition the worker plans for a source and a target height.
fn plan(source_width: u32, source_height: u32, target_height: u32) -> opentube::transcode::Variant {
    let height = rendition_height(source_height, target_height);
    plan_variant(height, scaled(source_width, source_height, height))
}

#[test]
fn transcode_dimensions_are_even_and_keep_the_aspect_ratio() {
    let variant = plan(853, 479, 360);
    assert_eq!(variant.height, 360);
    assert_eq!(variant.width, 640);
    assert_eq!(variant.width % 2, 0);
    assert_eq!(variant.directory, "360p");
    assert_eq!(variant.bandwidth, 700_000);

    let variant = plan(1920, 1080, 720);
    assert_eq!((variant.width, variant.height, variant.bandwidth), (1280, 720, 2_000_000));
    assert_eq!(variant.directory, "720p");

    let variant = plan(3840, 2160, 1080);
    assert_eq!((variant.width, variant.height, variant.bandwidth), (1920, 1080, 4_500_000));

    // The target never exceeds the source, and odd sizes are rounded down to even.
    let variant = plan(641, 361, 720);
    assert_eq!((variant.width, variant.height), (638, 360));
    let variant = plan(1, 1, 360);
    assert_eq!((variant.width, variant.height), (2, 2));
    // 3 * 2 / 4 = 1.5 rounds to 2.
    let variant = plan(3, 4, 2);
    assert_eq!((variant.width, variant.height), (2, 2));
    // A zero source height: NaN saturates to 0, infinity to u32::MAX.
    assert_eq!(plan(0, 0, 360).width, 2);
    assert_eq!(plan(5, 0, 360).width, u32::MAX - 1);
}

#[test]
fn rendition_width_is_the_scaled_width_made_even() {
    assert_eq!(rendition_height(1080, 720), 720);
    assert_eq!(rendition_height(361, 720), 360);
    assert_eq!(rendition_height(0, 360), 2);
    assert_eq!(rendition_height(1080, 1), 2);
    assert_eq!(plan_variant(720, 1281).width, 1280);
    assert_eq!(plan_variant(720, 1).width, 2);
    assert_eq!(plan_variant(720, 0).width, 2);
    assert_eq!(plan_variant(1080, u32::MAX).width, u32::MAX - 1);
    assert_eq!(plan_variant(1080, 7).directory, "1080p");
    // Dimensions in the billions keep the floating-point result.
    assert_eq!(plan(1002360666, 2590792115, 1891580682).width, 731840298);
}

#[test]
fn transcode_process_errors_are_classified() {
    assert!(transcode_outcome(true).is_ok());
    assert!(matches!(transcode_outcome(false), Err(WorkError::InvalidMedia)));
}

#[test]
fn scale_filter_letterboxes_to_the_rendition_size() {
    assert_eq!(
        scale_filter(640, 360),
        "scale=640:360:force_original_aspect_ratio=decrease,pad=640:360:(ow-iw)/2:(oh-ih)/2"
    );
}

#[test]
fn hls_output_keys_and_types() {
    let id = "0b7e3f5e-8c4e-4d35-9e3c-1b2f8a6a9c11";
    let prefix = hls_prefix(id);
    assert_eq!(prefix, format!("videos/{id}/hls"));
    assert_eq!(
        hls_object_key(&prefix, "360p\\segment_00000.ts"),
        format!("videos/{id}/hls/360p/segment_00000.ts")
    );
    assert_eq!(hls_object_key("p", "master.m3u8"), "p/master.m3u8");
    assert_eq!(hls_content_type(Some("m3u8")), "application/vnd.apple.mpegurl");
    assert_eq!(hls_content_type(Some("ts")), "video/mp2t");
    assert_eq!(hls_content_type(None), "video/mp2t");
}

#[test]
fn callback_url_targets_the_processing_result_route() {
    let id = "4f1c";
    assert_eq!(
        callback_url("http://video:8082//", id),
        "http://video:8082/internal/videos/4f1c/processing-result"
    );
    assert_eq!(
        callback_url("http://video:8082", id),
        "http://video:8082/internal/videos/4f1c/processing-result"
    );
}

#[test]
fn processing_outcomes_lead_to_reports_or_retries() {
    match step_after_processing(&Ok("videos/a/hls".to_string())) {
        NextStep::Report(report) => {
            assert_eq!(report.result, "ready");
            assert_eq!(report.hls_prefix.as_deref(), Some("videos/a/hls"));
            assert_eq!(report.failure_code, None);
        }
        NextStep::RetryOrFail(_) => panic!("a ready video is reported"),
    }
    match step_after_processing(&Err(WorkError::InvalidMedia)) {
        NextStep::Report(report) => {
            assert_eq!(report.result, "failed");
            assert_eq!(report.failure_code.as_deref(), Some("invalid_media"));
        }
        NextStep::RetryOrFail(_) => panic!("invalid media is reported"),
    }
    match step_after_processing(&Err(WorkError::Transient("s3 down".into()))) {
        NextStep::RetryOrFail(code) => assert_eq!(code, "processing_unavailable"),
        NextStep::Report(_) => panic!("a transient failure is retried"),
    }
    assert!(matches!(step_after_report(true), AfterReport::Acknowledge));
    match step_after_report(false) {
        AfterReport::RetryOrFail(code) => assert_eq!(code, "callback_unavailable"),
        AfterReport::Acknowledge => panic!("an unsent report is retried"),
    }
    assert_eq!(ready_report("x").result, "ready");
    assert_eq!(failure_report("y").failure_code.as_deref(), Some("y"));
}

#[test]
fn retry_queue_dead_letters_back_to_the_job_queue() {
    let args = retry_queue_arguments("video.uploaded.v1");
    assert_eq!(args.len(), 3);
    assert_eq!(args[0].0, "x-message-ttl");
    assert!(matches!(args[0].1, QueueArgument::LongInt(5000)));
    assert_eq!(args[1].0, "x-dead-letter-exchange");
    assert!(matches!(&args[1].1, QueueArgument::LongString(s) if s.is_empty()));
    assert_eq!(args[2].0, "x-dead-letter-routing-key");
    assert!(matches!(&args[2].1, QueueArgument::LongString(s) if s == "video.uploaded.v1"));
}
