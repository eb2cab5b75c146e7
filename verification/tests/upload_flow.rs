use misp2sentinel_core::config::SentinelConfig;
use misp2sentinel_core::error::Error;
use misp2sentinel_core::progress::Phase;
use misp2sentinel_core::sentinel::http::{
    bearer, token_form, token_reply, token_url, upload_reply, upload_url,
};
use misp2sentinel_core::sentinel::regex_lite::{extract_retry_after, Regex};
use misp2sentinel_core::sentinel::upload::{ConcurrentUpload, SequentialUpload};
use misp2sentinel_core::sentinel::{
    batch_outcome, batch_ranges, concurrent_retry_wait, effective_batch_size, rate_limit_error,
    request_interval_ms, token_is_fresh, BatchOutcome, SequentialStep, UploadError,
    UploadResponse, UploadStats,
};

fn response(rejected: usize) -> UploadResponse {
    UploadResponse {
        errors: (0..rejected)
            .map(|i| UploadError { record_index: i, error_messages: vec!["bad".to_string()] })
            .collect(),
    }
}

#[test]
fn retry_after_is_read_from_the_message() {
    assert_eq!(extract_retry_after("Try again in 60 seconds"), Some(60));
    assert_eq!(extract_retry_after("Rate limit. Retry in 5 second"), Some(5));
    assert_eq!(extract_retry_after("wait 7 minutes"), None);
    assert_eq!(extract_retry_after("no number seconds"), None);
    assert_eq!(extract_retry_after("in 3 4 seconds"), Some(4));
    assert_eq!(extract_retry_after("Retry 3 times, then wait 60 seconds"), Some(60));
    assert_eq!(extract_retry_after("wait 12seconds"), Some(12));
    assert_eq!(extract_retry_after("abc45 seconds"), Some(45));
    assert_eq!(extract_retry_after("99999999999999999999999 seconds"), None);
}

#[test]
fn regex_shim() {
    let re = Regex::new(r"(\d+)\s*seconds?").unwrap();
    let caps = re.captures("retry in 12 seconds").unwrap();
    assert_eq!(caps.get(1).unwrap().as_str(), "12");
    let caps = re.captures("Retry 3 times, then wait 60 seconds").unwrap();
    assert_eq!(caps.get(1).unwrap().as_str(), "60");
    assert!(re.captures("nothing here").is_none());
}

#[test]
fn rate_limit_error_defaults_to_sixty_seconds() {
    assert!(matches!(rate_limit_error("Try again in 30 seconds"), Error::RateLimit(30)));
    assert!(matches!(rate_limit_error("slow down"), Error::RateLimit(60)));
    assert_eq!(
        Error::RateLimit(30).message(),
        "Rate limit exceeded, retry after 30 seconds"
    );
    assert_eq!(Error::Config("x".to_string()).message(), "Configuration error: x");
    assert_eq!(Error::MispApi("x".to_string()).message(), "MISP API error: x");
    assert_eq!(Error::SentinelApi("x".to_string()).message(), "Sentinel API error: x");
    assert_eq!(Error::Auth("x".to_string()).message(), "Authentication error: x");
    assert_eq!(Error::StixConversion("x".to_string()).message(), "STIX conversion error: x");
    assert_eq!(Error::KeyVault("x".to_string()).message(), "Key Vault error: x");
    assert_eq!(Error::Http("x".to_string()).message(), "HTTP error: x");
    assert_eq!(Error::Json("x".to_string()).message(), "JSON error: x");
    assert_eq!(Error::Io("x".to_string()).message(), "IO error: x");
}

#[test]
fn batching_and_pacing() {
    assert_eq!(effective_batch_size(250), 100);
    assert_eq!(effective_batch_size(20), 20);
    assert_eq!(request_interval_ms(100), 600);
    assert_eq!(request_interval_ms(7), 8571);
    assert_eq!(batch_ranges(0, 10), Vec::<(usize, usize)>::new());
    assert_eq!(batch_ranges(25, 10), vec![(0, 10), (10, 20), (20, 25)]);
    assert_eq!(batch_ranges(20, 10), vec![(0, 10), (10, 20)]);
    assert!(token_is_fresh(300_000_000_001));
    assert!(!token_is_fresh(300_000_000_000));
}

#[test]
fn outcomes_of_answers() {
    assert_eq!(batch_outcome(&Ok(response(2))), BatchOutcome::Accepted { rejected: 2 });
    assert_eq!(batch_outcome(&Err(Error::RateLimit(9))), BatchOutcome::RateLimited { retry_after: 9 });
    assert_eq!(batch_outcome(&Err(Error::Http("x".to_string()))), BatchOutcome::Failed);
    assert_eq!(concurrent_retry_wait(0, BatchOutcome::RateLimited { retry_after: 9 }), Some(10));
    assert_eq!(concurrent_retry_wait(5, BatchOutcome::RateLimited { retry_after: 9 }), None);
    assert_eq!(concurrent_retry_wait(0, BatchOutcome::Failed), None);
}

#[test]
fn stats_record_attempts() {
    let mut stats = UploadStats::new(10);
    let mut attempts = 0u32;
    assert_eq!(
        stats.record_sequential_attempt(10, &mut attempts, BatchOutcome::RateLimited { retry_after: 1 }),
        SequentialStep::RetryAfter { wait_secs: 2 }
    );
    assert_eq!(
        stats.record_sequential_attempt(10, &mut attempts, BatchOutcome::Accepted { rejected: 3 }),
        SequentialStep::Done
    );
    assert_eq!(stats, UploadStats { total_indicators: 10, successful: 7, failed: 3, requests_made: 2 });
    let mut c = UploadStats::new(4);
    c.record_concurrent(4, BatchOutcome::Failed);
    assert_eq!(c, UploadStats { total_indicators: 4, successful: 0, failed: 4, requests_made: 1 });
}

#[test]
fn sequential_upload_gives_up_after_three_rate_limits() {
    let mut up = SequentialUpload::new(150, 500);
    assert_eq!(up.current(), Some((0, 100)));
    assert_eq!(up.record(BatchOutcome::RateLimited { retry_after: 5 }), SequentialStep::RetryAfter { wait_secs: 6 });
    assert_eq!(up.current(), Some((0, 100)));
    assert_eq!(up.record(BatchOutcome::RateLimited { retry_after: 5 }), SequentialStep::RetryAfter { wait_secs: 6 });
    assert_eq!(up.record(BatchOutcome::RateLimited { retry_after: 5 }), SequentialStep::GiveUpAfter { wait_secs: 6 });
    assert_eq!(up.attempts, 0);
    assert_eq!(up.current(), Some((100, 150)));
    assert_eq!(up.record(BatchOutcome::Accepted { rejected: 1 }), SequentialStep::Done);
    assert_eq!(up.current(), None);
    let stats = up.finish();
    assert_eq!(stats, UploadStats { total_indicators: 150, successful: 49, failed: 101, requests_made: 4 });
}

#[test]
fn sequential_upload_of_nothing() {
    let up = SequentialUpload::new(0, 0);
    assert_eq!(up.current(), None);
    assert_eq!(up.finish(), UploadStats::new(0));
}

#[test]
fn concurrent_upload_records_batches_in_any_order() {
    let mut up = ConcurrentUpload::new(25, 10);
    assert_eq!(up.lens, vec![10, 10, 5]);
    up.record(2, BatchOutcome::Accepted { rejected: 0 });
    up.record(0, BatchOutcome::RateLimited { retry_after: 3 });
    up.record(1, BatchOutcome::Accepted { rejected: 4 });
    let stats = up.finish();
    assert_eq!(stats, UploadStats { total_indicators: 25, successful: 11, failed: 14, requests_made: 3 });
}

#[test]
fn request_texts() {
    assert_eq!(
        upload_url("ws-1", "2024-02-01-preview"),
        "https://api.ti.sentinel.azure.com/workspaces/ws-1/threat-intelligence-stix-objects:upload?api-version=2024-02-01-preview"
    );
    assert_eq!(token_url("t-1"), "https://login.microsoftonline.com/t-1/oauth2/v2.0/token");
    assert_eq!(bearer("abc"), "Bearer abc");
    let cfg = SentinelConfig {
        tenant_id: "t".to_string(),
        client_id: "cid".to_string(),
        client_secret: "cs".to_string(),
        workspace_id: "w".to_string(),
        source_system: "MISP".to_string(),
        api_version: "v".to_string(),
    };
    assert_eq!(
        token_form(&cfg),
        vec![
            ("grant_type".to_string(), "client_credentials".to_string()),
            ("client_id".to_string(), "cid".to_string()),
            ("client_secret".to_string(), "cs".to_string()),
            ("scope".to_string(), "https://management.azure.com/.default".to_string()),
        ]
    );
}

#[test]
fn upload_answers() {
    assert!(matches!(upload_reply(429, "429 Too Many Requests", "Try again in 20 seconds", None), Err(Error::RateLimit(20))));
    assert!(matches!(upload_reply(429, "429 Too Many Requests", "busy", None), Err(Error::RateLimit(60))));
    match upload_reply(500, "500 Internal Server Error", "boom", None) {
        Err(Error::SentinelApi(m)) => assert_eq!(m, "Upload failed (500 Internal Server Error): boom"),
        other => panic!("unexpected {:?}", other),
    }
    assert_eq!(upload_reply(200, "200 OK", "", Some(response(2))).unwrap().errors.len(), 2);
    assert!(upload_reply(200, "200 OK", "not json", None).unwrap().errors.is_empty());
}

#[test]
fn token_answers() {
    match token_reply(false, "401 Unauthorized", "denied", Err(String::new())) {
        Err(Error::Auth(m)) => assert_eq!(m, "Failed to acquire token (401 Unauthorized): denied"),
        other => panic!("unexpected {:?}", other),
    }
    match token_reply(true, "200 OK", "", Err("missing field".to_string())) {
        Err(Error::Auth(m)) => assert_eq!(m, "Failed to parse token response: missing field"),
        other => panic!("unexpected {:?}", other),
    }
    assert_eq!(
        token_reply(true, "200 OK", "", Ok(("tok".to_string(), 3600))).unwrap(),
        ("tok".to_string(), 3600)
    );
}

#[test]
fn phase_names() {
    assert_eq!(Phase::Fetching.name(), "Fetching");
    assert_eq!(Phase::Converting.name(), "Converting");
    assert_eq!(Phase::Uploading.name(), "Uploading");
    assert_eq!(Phase::Complete.name(), "Complete");
}

#[test]
fn all_rate_limited_answers_take_three_requests_per_batch() {
    let mut up = SequentialUpload::new(250, 100);
    assert_eq!(up.ranges.len(), 3);
    let mut answers = 0;
    while up.current().is_some() {
        up.record(BatchOutcome::RateLimited { retry_after: 0 });
        answers += 1;
        assert!(up.attempts < 3);
    }
    assert_eq!(answers, 9);
    let stats = up.finish();
    assert_eq!(stats, UploadStats { total_indicators: 250, successful: 0, failed: 250, requests_made: 9 });
}

#[test]
fn batch_counts_round_up() {
    assert_eq!(batch_ranges(1, 100).len(), 1);
    assert_eq!(batch_ranges(100, 100).len(), 1);
    assert_eq!(batch_ranges(101, 100).len(), 2);
    assert_eq!(batch_ranges(0, 7).len(), 0);
    assert_eq!(SequentialUpload::new(1001, 500).ranges.len(), 11);
    assert_eq!(ConcurrentUpload::new(30, 7).lens.len(), 5);
}

#[test]
fn concurrent_batch_is_sent_at_most_six_times() {
    let limited = BatchOutcome::RateLimited { retry_after: 2 };
    let mut sends = 1;
    let mut retries = 0u32;
    while let Some(wait) = concurrent_retry_wait(retries, limited) {
        assert_eq!(wait, 3);
        retries += 1;
        sends += 1;
    }
    assert_eq!(sends, 6);
    assert_eq!(concurrent_retry_wait(0, BatchOutcome::Failed), None);
}
