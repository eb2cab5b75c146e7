use misp2sentinel_core::config::{Config, TypeExpiration};
use misp2sentinel_core::error::Error;
use misp2sentinel_core::misp::{is_actionable_type, MispAttribute, MispEvent, MispTag};
use misp2sentinel_core::sentinel::UploadStats;
use misp2sentinel_core::stix::tlp;
use misp2sentinel_core::stix::StixIndicator;
use misp2sentinel_core::sync::result::SyncResult;
use misp2sentinel_core::sync::{merge_unique_by_pattern, Syncer};
use misp2sentinel_core::timestamp::Timestamp;

const NOW: Timestamp = Timestamp { secs: 1_700_000_000, nanos: 0 };

fn tag(name: &str) -> MispTag {
    MispTag { id: None, name: name.to_string(), colour: None, local: None }
}

fn attr(uuid: &str, t: &str, v: &str) -> MispAttribute {
    MispAttribute {
        id: "1".to_string(),
        uuid: uuid.to_string(),
        attr_type: t.to_string(),
        category: "Network activity".to_string(),
        value: v.to_string(),
        to_ids: true,
        timestamp: "0".to_string(),
        comment: None,
        tags: Vec::new(),
        first_seen: None,
        last_seen: None,
    }
}

fn event(uuid: &str, attrs: Vec<MispAttribute>, tags: Vec<MispTag>) -> MispEvent {
    MispEvent {
        id: "10".to_string(),
        uuid: uuid.to_string(),
        info: "Campaign".to_string(),
        date: None,
        timestamp: "0".to_string(),
        publish_timestamp: None,
        published: true,
        threat_level_id: None,
        analysis: None,
        attributes: attrs,
        objects: Vec::new(),
        tags,
        org: None,
        orgc: None,
    }
}

fn syncer() -> Syncer {
    let mut c = Config::default();
    c.misp.url = "https://misp.example.com".to_string();
    Syncer::new(c)
}

fn pattern_of(s: &Syncer, t: &str, v: &str) -> Option<String> {
    s.create_pattern_for_attribute(&attr("u", t, v))
}

fn patterns(v: &[StixIndicator]) -> Vec<String> {
    v.iter().map(|i| i.pattern.clone()).collect()
}

#[test]
fn patterns_for_attribute_types() {
    let s = syncer();
    assert_eq!(pattern_of(&s, "ip-dst", "10.0.0.1").unwrap(), "[ipv4-addr:value = '10.0.0.1']");
    assert_eq!(pattern_of(&s, "ip-src", "2001:db8::1").unwrap(), "[ipv6-addr:value = '2001:db8::1']");
    assert_eq!(pattern_of(&s, "ip-dst|port", "10.0.0.1|443").unwrap(), "[ipv4-addr:value = '10.0.0.1']");
    assert_eq!(pattern_of(&s, "domain|ip", "evil.com|1.2.3.4").unwrap(), "[domain-name:value = 'evil.com']");
    assert_eq!(pattern_of(&s, "hostname|port", "h.evil.com|80").unwrap(), "[domain-name:value = 'h.evil.com']");
    assert_eq!(pattern_of(&s, "uri", "/x").unwrap(), "[url:value = '/x']");
    assert_eq!(pattern_of(&s, "AS", "AS64496").unwrap(), "[autonomous-system:number = 64496]");
    assert_eq!(pattern_of(&s, "AS", "ASAS1").unwrap(), "[autonomous-system:number = 1]");
    assert_eq!(pattern_of(&s, "mac-address", "00:11").unwrap(), "[mac-addr:value = '00:11']");
    assert_eq!(pattern_of(&s, "email-subject", "it's").unwrap(), "[email-message:subject = 'it\\'s']");
    assert_eq!(pattern_of(&s, "filename", "a.exe").unwrap(), "[file:name = 'a.exe']");
    assert_eq!(
        pattern_of(&s, "user-agent", "Mozilla").unwrap(),
        "[network-traffic:extensions.'http-request-ext'.request_header.'User-Agent' = 'Mozilla']"
    );
    assert_eq!(pattern_of(&s, "x509-fingerprint-sha1", "ab").unwrap(), "[x509-certificate:hashes.'SHA-1' = 'ab']");
    assert_eq!(pattern_of(&s, "md5", "d41d").unwrap(), "[file:hashes.'MD5' = 'd41d']");
    assert_eq!(pattern_of(&s, "filename|sha256", "a.exe|beef").unwrap(), "[file:hashes.'SHA-256' = 'beef']");
    assert_eq!(pattern_of(&s, "sha512", "ff").unwrap(), "[file:hashes.'SHA-512' = 'ff']");
    assert_eq!(
        pattern_of(&s, "regkey|value", "HKLM\\Run|evil").unwrap(),
        "[windows-registry-key:key = 'HKLM\\\\Run']"
    );
    assert_eq!(pattern_of(&s, "port", "80"), None);
    assert_eq!(pattern_of(&s, "comment", "x"), None);
}

#[test]
fn include_and_exclude_types() {
    let mut s = syncer();
    assert!(s.should_include_type("ip-dst"));
    s.config.sync.exclude_types = vec!["ip-dst".to_string()];
    assert!(!s.should_include_type("ip-dst"));
    assert!(s.should_include_type("domain"));
    s.config.sync.include_types = vec!["ip-dst".to_string()];
    assert!(s.should_include_type("ip-dst"));
    assert!(!s.should_include_type("domain"));
}

#[test]
fn expiration_days_per_type_later_entry_wins() {
    let mut s = syncer();
    s.config.sync.days_to_expire = 30;
    s.config.sync.type_expiration = vec![
        TypeExpiration { observable: "ipv4-addr".to_string(), days: 180 },
        TypeExpiration { observable: "ipv4-addr".to_string(), days: 90 },
    ];
    assert_eq!(s.get_expiration_days(&attr("u", "ip-dst", "1.1.1.1")), 90);
    assert_eq!(s.get_expiration_days(&attr("u", "domain", "x")), 30);
    assert_eq!(s.get_expiration_days(&attr("u", "mutex", "x")), 30);
}

#[test]
fn indicator_for_attribute() {
    let s = syncer();
    let mut a = attr("attr-1", "ip-dst", "10.0.0.1");
    a.tags = vec![tag("malware"), tag("c2")];
    a.first_seen = Some("2023-01-01T00:00:00Z".to_string());
    let e = event("ev-1", vec![a.clone()], Vec::new());
    let ind = s.create_indicator_at(
        &e,
        &a,
        "[ipv4-addr:value = '10.0.0.1']".to_string(),
        tlp::GREEN,
        &Some("Botnet".to_string()),
        &vec!["malware".to_string()],
        NOW,
    );
    assert_eq!(ind.id, "indicator--05660aad-abd7-5553-85cc-59c6d6a29a3b");
    assert_eq!(ind.name.as_deref(), Some("Campaign - ip-dst"));
    assert_eq!(
        ind.description.as_deref(),
        Some("MISP Event: Campaign (UUID: ev-1). Attribute type: ip-dst")
    );
    assert_eq!(ind.pattern_type, "stix");
    assert_eq!(ind.valid_from, Timestamp { secs: 1_672_531_200, nanos: 0 });
    assert_eq!(ind.valid_until, Some(Timestamp { secs: 1_700_000_000 + 50 * 86_400, nanos: 0 }));
    assert_eq!(ind.confidence, Some(50));
    assert_eq!(ind.object_marking_refs, vec![tlp::GREEN.to_string()]);
    assert_eq!(ind.indicator_types, vec!["Botnet".to_string()]);
    assert_eq!(ind.labels, vec!["malware".to_string(), "c2".to_string()]);
    assert_eq!(ind.external_references.len(), 1);
    let r = &ind.external_references[0];
    assert_eq!(r.source_name, "MISP");
    assert_eq!(r.description.as_deref(), Some("MISP Event: Campaign"));
    assert_eq!(r.url.as_deref(), Some("https://misp.example.com/events/view/ev-1"));
    assert_eq!(r.external_id.as_deref(), Some("ev-1"));
}

#[test]
fn indicator_without_threat_type_or_valid_first_seen() {
    let s = syncer();
    let mut a = attr("attr-2", "domain", "evil.com");
    a.first_seen = Some("not a date".to_string());
    let e = event("ev-2", vec![a.clone()], Vec::new());
    let ind = s.create_indicator_at(&e, &a, "p".to_string(), tlp::WHITE, &None, &Vec::new(), NOW);
    assert_eq!(ind.indicator_types, vec!["unknown".to_string()]);
    assert_eq!(ind.valid_from, NOW);
}

#[test]
fn validation_errors() {
    let s = syncer();
    let base = StixIndicator::with_id_at("i".to_string(), "p".to_string(), "stix".to_string(), NOW, NOW);
    assert!(s.validate_indicator(&base, NOW).is_ok());
    let mut empty = base.clone();
    empty.pattern = String::new();
    assert!(matches!(s.validate_indicator(&empty, NOW), Err(Error::StixConversion(m)) if m == "Pattern is empty"));
    let mut no_type = base.clone();
    no_type.pattern_type = String::new();
    assert!(matches!(s.validate_indicator(&no_type, NOW), Err(Error::StixConversion(m)) if m == "Pattern type is empty"));
    let expired = base.clone().with_valid_until(NOW);
    match s.validate_indicator(&expired, NOW) {
        Err(Error::StixConversion(m)) => {
            assert_eq!(m, "Indicator expired: valid_until 2023-11-14 22:13:20 UTC is in the past")
        },
        other => panic!("unexpected {:?}", other),
    }
    let later = base.with_valid_until(Timestamp { secs: NOW.secs, nanos: 1 });
    assert!(s.validate_indicator(&later, NOW).is_ok());
}

#[test]
fn sequential_conversion_deduplicates_across_events() {
    let s = syncer();
    let e1 = event(
        "ev-1",
        vec![attr("a1", "ip-dst", "1.1.1.1"), attr("a2", "ip-src", "1.1.1.1"), attr("a3", "domain", "x.com")],
        vec![tag("tlp:amber")],
    );
    let e2 = event("ev-2", vec![attr("a4", "domain", "x.com"), attr("a5", "url", "http://y")], Vec::new());
    let out = s.convert_events_to_indicators_at(&vec![e1.clone(), e2.clone()], NOW);
    assert_eq!(
        patterns(&out),
        vec![
            "[ipv4-addr:value = '1.1.1.1']".to_string(),
            "[domain-name:value = 'x.com']".to_string(),
            "[url:value = 'http://y']".to_string(),
        ]
    );
    assert_eq!(out[0].object_marking_refs, vec![tlp::AMBER.to_string()]);
    assert_eq!(out[2].object_marking_refs, vec![tlp::WHITE.to_string()]);
    assert_eq!(out[2].external_references[0].external_id.as_deref(), Some("ev-2"));
}

#[test]
fn parallel_conversion_then_merge_gives_same_patterns() {
    let s = syncer();
    let e1 = event("ev-1", vec![attr("a1", "ip-dst", "1.1.1.1"), attr("a3", "domain", "x.com")], Vec::new());
    let e2 = event("ev-2", vec![attr("a4", "domain", "x.com"), attr("a5", "ip-dst", "1.1.1.1"), attr("a6", "md5", "ff")], Vec::new());
    let events = vec![e1.clone(), e2.clone()];
    let sequential = s.convert_events_to_indicators_at(&events, NOW);
    let per_event: Vec<Vec<StixIndicator>> = events.iter().map(|e| s.convert_event_for_parallel(e, NOW)).collect();
    assert_eq!(per_event[1].len(), 3);
    let merged = merge_unique_by_pattern(per_event);
    assert_eq!(patterns(&merged), patterns(&sequential));
    let ids = |v: &[StixIndicator]| v.iter().map(|i| i.id.clone()).collect::<Vec<String>>();
    assert_eq!(ids(&merged), ids(&sequential));
    assert_eq!(merged.len(), 3);
    // The first indicator of each pattern is kept: that of event 1.
    assert_eq!(merged[0].external_references[0].external_id.as_deref(), Some("ev-1"));
}

#[test]
fn zero_day_expiration_drops_indicators() {
    let mut s = syncer();
    s.config.sync.days_to_expire = 0;
    let e = event("ev", vec![attr("a1", "ip-dst", "1.1.1.1")], Vec::new());
    assert!(s.convert_events_to_indicators_at(&vec![e], NOW).is_empty());
}

#[test]
fn conversion_at_current_time() {
    let s = syncer();
    let e = event("ev", vec![attr("a1", "ip-dst", "9.9.9.9"), attr("a2", "comment", "x")], Vec::new());
    let out = s.convert_events_to_indicators(&vec![e]).unwrap();
    assert_eq!(out.len(), 1);
    assert!(out[0].valid_until.unwrap().secs > out[0].created.secs);
}

#[test]
fn runs_at_different_times_agree_on_ids() {
    let s = syncer();
    let e = event("ev", vec![attr("attr-3", "ip-dst", "1.1.1.1")], Vec::new());
    let a = s.convert_events_to_indicators_at(&vec![e.clone()], NOW);
    let b = s.convert_events_to_indicators_at(&vec![e], Timestamp { secs: NOW.secs + 3600, nanos: 5 });
    assert_eq!(a[0].id, b[0].id);
    assert_eq!(a[0].id, "indicator--6e23b00d-6622-51f0-8dfa-b298ee8b67a7");
}

#[test]
fn sync_result_summaries() {
    let dry = SyncResult::dry_run(3, 7);
    assert!(dry.is_success());
    assert_eq!(dry.summary(), "Dry run: processed 3 events, created 7 indicators (not uploaded)");
    assert_eq!(dry.upload_counts(), (0, 0));
    let stats = UploadStats { total_indicators: 7, successful: 5, failed: 2, requests_made: 1 };
    let up = SyncResult::uploaded(3, stats);
    assert!(!up.is_success());
    assert_eq!(up.indicators_created, 7);
    assert_eq!(
        up.summary(),
        "Processed 3 events, created 7 indicators. Upload: 5 successful, 2 failed"
    );
    assert_eq!(up.upload_counts(), (5, 2));
    let ok = SyncResult::uploaded(0, UploadStats { total_indicators: 0, successful: 0, failed: 0, requests_made: 0 });
    assert!(ok.is_success());
    let documented = SyncResult::uploaded(
        42,
        UploadStats { total_indicators: 1337, successful: 1337, failed: 0, requests_made: 14 },
    );
    assert_eq!(
        documented.summary(),
        "Processed 42 events, created 1337 indicators. Upload: 1337 successful, 0 failed"
    );
    assert!(documented.is_success());
}

#[test]
fn actionable_types_without_a_pattern() {
    let s = syncer();
    for t in ["email-src-display-name", "malware-type", "port", "size-in-bytes"] {
        assert!(is_actionable_type(t));
        assert_eq!(pattern_of(&s, t, "anything"), None);
    }
    for t in ["mutex", "regkey|value", "filename|sha3-512", "x509-fingerprint-sha256", "AS"] {
        assert!(is_actionable_type(t));
        assert!(pattern_of(&s, t, "AS1|v").is_some());
    }
}
