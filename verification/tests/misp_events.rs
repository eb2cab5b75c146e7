use misp2sentinel_core::config::{CustomFilter, MispFilters};
use misp2sentinel_core::error::Error;
use misp2sentinel_core::misp::fetch::{base_url, page_events, search_url, PageAnswer, PageFetch};
use misp2sentinel_core::misp::local::{local_flag, parse_i32, LocalValue};
use misp2sentinel_core::misp::search::{build_search_request, RequestValue, SearchRequest};
use misp2sentinel_core::misp::{
    is_actionable_type, threat_type_of_lowered, tlp_name_of_lowered, MispAttribute, MispEvent, MispEventWrapper, MispObject,
    MispSearchResponse, MispTag,
};
use misp2sentinel_core::stix::ObservableType;

fn tag(name: &str) -> MispTag {
    MispTag { id: None, name: name.to_string(), colour: None, local: None }
}

fn local_tag(name: &str) -> MispTag {
    MispTag { id: None, name: name.to_string(), colour: None, local: Some(1) }
}

fn attr(t: &str, v: &str, to_ids: bool) -> MispAttribute {
    MispAttribute {
        id: "1".to_string(),
        uuid: format!("uuid-{}-{}", t, v),
        attr_type: t.to_string(),
        category: "Network activity".to_string(),
        value: v.to_string(),
        to_ids,
        timestamp: "0".to_string(),
        comment: None,
        tags: Vec::new(),
        first_seen: None,
        last_seen: None,
    }
}

fn event(attrs: Vec<MispAttribute>, objects: Vec<MispObject>, tags: Vec<MispTag>) -> MispEvent {
    MispEvent {
        id: "10".to_string(),
        uuid: "ev-uuid".to_string(),
        info: "Test event".to_string(),
        date: None,
        timestamp: "0".to_string(),
        publish_timestamp: None,
        published: true,
        threat_level_id: None,
        analysis: None,
        attributes: attrs,
        objects,
        tags,
        org: None,
        orgc: None,
    }
}

fn events_n(n: usize, prefix: &str) -> Vec<MispEvent> {
    (0..n)
        .map(|i| {
            let mut e = event(Vec::new(), Vec::new(), Vec::new());
            e.uuid = format!("{}{}", prefix, i);
            e
        })
        .collect()
}

fn filters() -> MispFilters {
    MispFilters {
        published: false,
        tags: Vec::new(),
        not_tags: Vec::new(),
        orgs: Vec::new(),
        not_orgs: Vec::new(),
        publish_timestamp: None,
        timestamp: None,
        from: None,
        to: None,
        last: None,
        event_info: None,
        threat_level_id: None,
        to_ids: false,
        enforce_warninglist: false,
        include_event_tags: false,
        custom: Vec::new(),
    }
}

fn param<'a>(req: &'a SearchRequest, key: &str) -> Option<&'a RequestValue> {
    req.params.iter().find(|p| p.key == key).map(|p| &p.value)
}

fn texts(v: Option<&RequestValue>) -> Vec<String> {
    match v {
        Some(RequestValue::Texts(t)) => t.clone(),
        other => panic!("not a text list: {:?}", other),
    }
}

#[test]
fn actionable_attribute_needs_ids_flag_and_known_type() {
    assert!(attr("ip-dst", "1.2.3.4", true).is_actionable());
    assert!(!attr("ip-dst", "1.2.3.4", false).is_actionable());
    assert!(!attr("comment", "x", true).is_actionable());
    assert!(is_actionable_type("sha3-512"));
    assert!(is_actionable_type("size-in-bytes"));
    assert!(!is_actionable_type("Sha256"));
}

#[test]
fn observable_types_of_attributes() {
    assert_eq!(attr("ip-src", "x", true).get_observable_type(), Some(ObservableType::IPv4Addr));
    assert_eq!(attr("hostname", "x", true).get_observable_type(), Some(ObservableType::DomainName));
    assert_eq!(attr("url", "x", true).get_observable_type(), Some(ObservableType::Url));
    assert_eq!(attr("email-dst", "x", true).get_observable_type(), Some(ObservableType::EmailAddr));
    assert_eq!(attr("filename|sha256", "x", true).get_observable_type(), Some(ObservableType::File));
    assert_eq!(attr("regkey|value", "x", true).get_observable_type(), Some(ObservableType::WindowsRegistryKey));
    assert_eq!(attr("mutex", "x", true).get_observable_type(), None);
}

#[test]
fn hash_types_and_values() {
    assert_eq!(attr("md5", "x", true).get_hash_type(), Some("MD5"));
    assert_eq!(attr("filename|sha1", "x", true).get_hash_type(), Some("SHA-1"));
    assert_eq!(attr("sha256", "x", true).get_hash_type(), Some("SHA-256"));
    assert_eq!(attr("ip-dst", "x", true).get_hash_type(), None);
    assert_eq!(attr("filename|md5", "evil.exe|abc", true).get_hash_value(), "abc");
    assert_eq!(attr("md5", "abc", true).get_hash_value(), "abc");
    assert_eq!(attr("filename|md5", "noseparator", true).get_hash_value(), "noseparator");
}

#[test]
fn actionable_attributes_include_object_attributes() {
    let obj = MispObject {
        id: "o".to_string(),
        uuid: "ou".to_string(),
        name: "file".to_string(),
        attributes: vec![attr("md5", "m", true), attr("text", "t", true)],
        comment: None,
        timestamp: "0".to_string(),
    };
    let e = event(
        vec![attr("ip-dst", "1.1.1.1", true), attr("ip-dst", "2.2.2.2", false)],
        vec![obj],
        Vec::new(),
    );
    let acts = e.get_actionable_attributes();
    assert_eq!(acts.len(), 2);
    assert_eq!(acts[0].value, "1.1.1.1");
    assert_eq!(acts[1].value, "m");
}

#[test]
fn event_tlp_threat_type_and_labels() {
    let e = event(
        Vec::new(),
        Vec::new(),
        vec![
            tag("misp-galaxy:threat-actor=\"X\""),
            tag("TLP:Amber"),
            tag("tlp:green"),
            tag("Sentinel-ThreatType:Botnet"),
            tag("malware"),
            local_tag("internal"),
            tag("misp:tool=\"y\""),
            tag("Threat-Report"),
            tag("sentinel-other"),
            tag("phishing"),
        ],
    );
    assert_eq!(e.get_tlp(), Some("TLP:Amber"));
    assert_eq!(e.get_threat_type(), Some("Botnet".to_string()));
    // The prefixes are matched case-sensitively: upper-case TLP and Sentinel tags stay labels.
    assert_eq!(
        e.get_labels(true),
        vec![
            "TLP:Amber".to_string(),
            "Sentinel-ThreatType:Botnet".to_string(),
            "malware".to_string(),
            "phishing".to_string()
        ]
    );
    assert_eq!(
        e.get_labels(false),
        vec![
            "TLP:Amber".to_string(),
            "Sentinel-ThreatType:Botnet".to_string(),
            "malware".to_string(),
            "internal".to_string(),
            "phishing".to_string()
        ]
    );
    let lowered: Vec<String> = e.tags.iter().map(|t| t.name.to_lowercase()).collect();
    assert_eq!(tlp_name_of_lowered(&e.tags, &lowered), Some("TLP:Amber"));
    assert_eq!(threat_type_of_lowered(&e.tags, &lowered), Some("Botnet".to_string()));
    // Given names that were not lower-cased, the case-sensitive prefix decides.
    let raw: Vec<String> = e.tags.iter().map(|t| t.name.clone()).collect();
    assert_eq!(tlp_name_of_lowered(&e.tags, &raw), Some("tlp:green"));
    assert_eq!(threat_type_of_lowered(&e.tags, &raw), None);
    let none = event(Vec::new(), Vec::new(), vec![tag("other")]);
    assert_eq!(none.get_tlp(), None);
    assert_eq!(none.get_threat_type(), None);
}

#[test]
fn threat_type_tag_without_value() {
    let e = event(Vec::new(), Vec::new(), vec![tag("sentinel-threattype")]);
    assert_eq!(e.get_threat_type(), None);
}

// ---------------------------------------------------------------------------
// Paging
// ---------------------------------------------------------------------------

#[test]
fn fetch_stops_after_short_first_page() {
    let f = PageFetch::start(100, None, 4, events_n(3, "a"));
    assert!(f.done);
    assert_eq!(f.into_events().len(), 3);
}

#[test]
fn fetch_first_page_already_holds_max_events() {
    let f = PageFetch::start(10, Some(4), 4, events_n(10, "a"));
    assert!(f.done);
    let out = f.into_events();
    assert_eq!(out.len(), 4);
    assert_eq!(out[3].uuid, "a3");
}

#[test]
fn fetch_rounds_until_a_page_is_not_full() {
    let mut f = PageFetch::start(2, None, 3, events_n(2, "p1-"));
    assert!(!f.done);
    let pages = f.next_round().unwrap();
    assert_eq!(pages, vec![2, 3, 4]);
    f.absorb(vec![Some(events_n(2, "p2-")), Some(events_n(2, "p3-")), Some(events_n(2, "p4-"))]);
    assert!(!f.done);
    assert_eq!(f.next_page, 5);
    let pages = f.next_round().unwrap();
    assert_eq!(pages, vec![5, 6, 7]);
    f.absorb(vec![Some(events_n(2, "p5-")), Some(events_n(1, "p6-")), Some(Vec::new())]);
    assert!(f.done);
    assert_eq!(f.next_round(), None);
    let out = f.into_events();
    assert_eq!(out.len(), 11);
    assert_eq!(out[10].uuid, "p6-0");
}

#[test]
fn fetch_failed_page_ends_the_fetch() {
    let mut f = PageFetch::start(1, None, 2, events_n(1, "a"));
    let _ = f.next_round().unwrap();
    f.absorb(vec![None, Some(events_n(1, "b"))]);
    assert!(f.done);
    assert_eq!(f.into_events().len(), 2);
}

#[test]
fn fetch_round_without_events_ends_the_fetch() {
    let mut f = PageFetch::start(1, None, 2, events_n(1, "a"));
    let _ = f.next_round().unwrap();
    f.absorb(vec![Some(Vec::new()), Some(Vec::new())]);
    assert!(f.done);
    assert_eq!(f.into_events().len(), 1);
}

#[test]
fn fetch_max_events_truncates() {
    let mut f = PageFetch::start(2, Some(5), 2, events_n(2, "a"));
    assert!(!f.done);
    let _ = f.next_round().unwrap();
    f.absorb(vec![Some(events_n(2, "b")), Some(events_n(2, "c"))]);
    assert!(!f.done);
    assert_eq!(f.next_round(), None);
    assert!(f.done);
    let out = f.into_events();
    assert_eq!(out.len(), 5);
    assert_eq!(out[4].uuid, "c0");
}

#[test]
fn search_response_unwraps_events() {
    let resp = MispSearchResponse {
        response: vec![
            MispEventWrapper { event: events_n(1, "x").remove(0) },
            MispEventWrapper { event: events_n(1, "y").remove(0) },
        ],
    };
    let evs = resp.into_events();
    assert_eq!(evs.len(), 2);
    assert_eq!(evs[0].uuid, "x0");
    assert_eq!(evs[1].uuid, "y0");
}

#[test]
fn page_answers() {
    match page_events(PageAnswer::Refused { status: "403 Forbidden".to_string(), body: "no".to_string() }) {
        Err(Error::MispApi(m)) => assert_eq!(m, "MISP API error (403 Forbidden): no"),
        other => panic!("unexpected {:?}", other),
    }
    match page_events(PageAnswer::Unparsable { message: "eof".to_string() }) {
        Err(Error::MispApi(m)) => assert_eq!(m, "Failed to parse response: eof"),
        other => panic!("unexpected {:?}", other),
    }
    let ok = page_events(PageAnswer::Parsed(MispSearchResponse { response: Vec::new() })).unwrap();
    assert!(ok.is_empty());
}

#[test]
fn endpoint_urls() {
    assert_eq!(base_url("https://misp.example.com///"), "https://misp.example.com");
    assert_eq!(base_url("https://misp.example.com"), "https://misp.example.com");
    assert_eq!(base_url("///"), "");
    assert_eq!(search_url("https://m"), "https://m/events/restSearch");
}

// ---------------------------------------------------------------------------
// Search request
// ---------------------------------------------------------------------------

#[test]
fn search_request_paging_only() {
    let req = build_search_request(&filters(), 3, 50);
    assert_eq!(req.params.len(), 3);
    assert!(matches!(param(&req, "returnFormat"), Some(RequestValue::Text(t)) if t == "json"));
    assert!(matches!(param(&req, "page"), Some(RequestValue::Number(3))));
    assert!(matches!(param(&req, "limit"), Some(RequestValue::Number(50))));
}

#[test]
fn search_request_merges_excluded_tags_and_orgs() {
    let mut f = filters();
    f.tags = vec!["tlp:white".to_string()];
    f.not_tags = vec!["false-positive".to_string()];
    f.not_orgs = vec!["BadOrg".to_string()];
    f.published = true;
    f.to_ids = true;
    f.include_event_tags = true;
    f.enforce_warninglist = true;
    f.publish_timestamp = Some("14d".to_string());
    f.event_info = Some("ransom".to_string());
    f.threat_level_id = Some(vec![1, 2]);
    let req = build_search_request(&f, 1, 100);
    assert_eq!(texts(param(&req, "tags")), vec!["tlp:white".to_string(), "!false-positive".to_string()]);
    assert_eq!(texts(param(&req, "org")), vec!["!BadOrg".to_string()]);
    assert!(matches!(param(&req, "published"), Some(RequestValue::Number(1))));
    assert!(matches!(param(&req, "to_ids"), Some(RequestValue::Number(1))));
    assert!(matches!(param(&req, "includeEventTags"), Some(RequestValue::Flag(true))));
    assert!(matches!(param(&req, "enforceWarninglist"), Some(RequestValue::Flag(true))));
    assert!(matches!(param(&req, "publish_timestamp"), Some(RequestValue::Text(t)) if t == "14d"));
    assert!(matches!(param(&req, "eventinfo"), Some(RequestValue::Text(t)) if t == "ransom"));
    assert!(matches!(param(&req, "threat_level_id"), Some(RequestValue::Numbers(v)) if *v == vec![1u8, 2u8]));
    assert!(param(&req, "timestamp").is_none());
    assert!(param(&req, "last").is_none());
}

#[test]
fn search_request_empty_threat_levels_are_left_out() {
    let mut f = filters();
    f.threat_level_id = Some(Vec::new());
    let req = build_search_request(&f, 1, 10);
    assert!(param(&req, "threat_level_id").is_none());
}

#[test]
fn search_request_custom_filters_replace_and_add() {
    let mut f = filters();
    f.custom = vec![
        CustomFilter { key: "limit".to_string(), json: "5".to_string() },
        CustomFilter { key: "category".to_string(), json: "\"Network activity\"".to_string() },
    ];
    let req = build_search_request(&f, 1, 10);
    assert_eq!(req.params.len(), 4);
    assert!(matches!(param(&req, "limit"), Some(RequestValue::Json(j)) if j == "5"));
    assert!(matches!(param(&req, "category"), Some(RequestValue::Json(j)) if j == "\"Network activity\""));
    let keys: Vec<&str> = req.params.iter().map(|p| p.key.as_str()).collect();
    assert_eq!(keys, vec!["returnFormat", "page", "limit", "category"]);
}

// ---------------------------------------------------------------------------
// Local flag
// ---------------------------------------------------------------------------

#[test]
fn local_flag_forms() {
    assert_eq!(local_flag(LocalValue::Absent).unwrap(), None);
    assert_eq!(local_flag(LocalValue::Bool(true)).unwrap(), Some(1));
    assert_eq!(local_flag(LocalValue::Bool(false)).unwrap(), Some(0));
    assert_eq!(local_flag(LocalValue::Number(Some(1))).unwrap(), Some(1));
    assert_eq!(local_flag(LocalValue::Number(None)).unwrap(), Some(0));
    assert_eq!(local_flag(LocalValue::Number(Some(4_294_967_297))).unwrap(), Some(1));
    assert_eq!(local_flag(LocalValue::Text("1".to_string())).unwrap(), Some(1));
    assert_eq!(local_flag(LocalValue::Text("yes".to_string())).unwrap(), Some(0));
    match local_flag(LocalValue::Other) {
        Err(Error::Json(m)) => assert_eq!(m, "unexpected type for local field"),
        other => panic!("unexpected {:?}", other),
    }
}

#[test]
fn parse_i32_like_std() {
    for s in ["0", "-0", "+7", "-2147483648", "2147483647", "2147483648", "-2147483649", "", "-", "+", "-+1", "1a", " 1"] {
        assert_eq!(parse_i32(s), s.parse::<i32>().ok(), "input {:?}", s);
    }
}

#[test]
fn filename_hash_pairs_name_the_same_hash() {
    for t in [
        "md5", "sha1", "sha256", "sha512", "ssdeep", "imphash", "authentihash", "pehash", "vhash",
        "tlsh", "impfuzzy", "sha224", "sha384", "sha512/224", "sha512/256", "sha3-224", "sha3-256",
        "sha3-384", "sha3-512",
    ] {
        let bare = attr(t, "x", true).get_hash_type();
        assert!(bare.is_some());
        assert_eq!(attr(&format!("filename|{}", t), "x", true).get_hash_type(), bare);
    }
    assert_eq!(attr("sha3-256", "x", true).get_hash_type(), Some("SHA3-256"));
    assert_eq!(attr("filename|sha512/256", "x", true).get_hash_type(), Some("SHA-512/256"));
    assert_eq!(attr("x509-fingerprint-sha1", "x", true).get_hash_type(), Some("SHA-1"));
    assert_eq!(attr("cdhash", "x", true).get_hash_type(), Some("CDHASH"));
    assert_eq!(attr("filename|cdhash", "x", true).get_hash_type(), None);
    assert_eq!(attr("filename", "x", true).get_hash_type(), None);
}

#[test]
fn labels_without_local_tags_are_a_subsequence() {
    let e = event(
        Vec::new(),
        Vec::new(),
        vec![local_tag("a"), tag("b"), local_tag("c"), tag("tlp:red"), tag("d"), local_tag("e")],
    );
    assert_eq!(e.get_labels(true), vec!["b".to_string(), "d".to_string()]);
    assert_eq!(
        e.get_labels(false),
        vec!["a".to_string(), "b".to_string(), "c".to_string(), "d".to_string(), "e".to_string()]
    );
}
