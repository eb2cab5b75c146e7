use misp2sentinel_core::stix::tlp;
use misp2sentinel_core::stix::{
    create_file_hash_pattern, create_file_hash_pattern_upper, create_pattern, default_spec_version,
    escape_pattern_value,
    ExternalReference, ObservableType, StixAttackPattern, StixIdentity, StixIndicator,
    StixRelationship, StixThreatActor,
};
use misp2sentinel_core::timestamp::Timestamp;

fn t(secs: i64) -> Timestamp {
    Timestamp { secs, nanos: 0 }
}

#[test]
fn test_create_ipv4_pattern() {
    let pattern = create_pattern(ObservableType::IPv4Addr, "192.168.1.1");
    assert_eq!(pattern, "[ipv4-addr:value = '192.168.1.1']");
}

#[test]
fn test_create_domain_pattern() {
    let pattern = create_pattern(ObservableType::DomainName, "evil.example.com");
    assert_eq!(pattern, "[domain-name:value = 'evil.example.com']");
}

#[test]
fn test_create_file_hash_pattern() {
    let pattern = create_file_hash_pattern("SHA256", "abc123");
    assert_eq!(pattern, "[file:hashes.'SHA-256' = 'abc123']");
}

#[test]
fn test_tlp_from_tag() {
    assert_eq!(tlp::from_tag("tlp:white"), Some(tlp::WHITE));
    assert_eq!(tlp::from_tag("TLP:AMBER"), Some(tlp::AMBER));
    assert_eq!(tlp::from_tag("tlp:clear"), Some(tlp::WHITE));
}

#[test]
fn tlp_from_tag_all_levels_and_unknown() {
    assert_eq!(tlp::from_tag("tlp:green"), Some(tlp::GREEN));
    assert_eq!(tlp::from_tag("Tlp:Red"), Some(tlp::RED));
    assert_eq!(tlp::from_tag("prefix tlp:amber+strict"), Some(tlp::AMBER));
    assert_eq!(tlp::from_tag("tlp:unknown"), None);
    assert_eq!(tlp::from_tag(""), None);
    assert_eq!(
        tlp::WHITE,
        "marking-definition--613f2e26-407d-48c7-9eca-b8e91df99dc9"
    );
}

#[test]
fn file_hash_pattern_lowercase_type_is_uppercased() {
    assert_eq!(
        create_file_hash_pattern("sha256", "ff"),
        "[file:hashes.'SHA-256' = 'ff']"
    );
    assert_eq!(
        create_file_hash_pattern("sha1", "aa"),
        "[file:hashes.'SHA-1' = 'aa']"
    );
    assert_eq!(
        create_file_hash_pattern("SHA512", "bb"),
        "[file:hashes.'SHA-512' = 'bb']"
    );
    assert_eq!(create_file_hash_pattern("md5", "cc"), "[file:hashes.'MD5' = 'cc']");
}

#[test]
fn escape_doubles_backslashes_and_quotes() {
    assert_eq!(escape_pattern_value("plain"), "plain");
    assert_eq!(escape_pattern_value("a'b"), "a\\'b");
    assert_eq!(escape_pattern_value("c:\\dir"), "c:\\\\dir");
    assert_eq!(escape_pattern_value(""), "");
}

#[test]
fn pattern_escapes_value() {
    assert_eq!(
        create_pattern(ObservableType::Url, "http://x/'a'"),
        "[url:value = 'http://x/\\'a\\'']"
    );
}

#[test]
fn pattern_prefixes_and_type_names() {
    assert_eq!(ObservableType::IPv4Addr.pattern_prefix(), "ipv4-addr:value");
    assert_eq!(ObservableType::IPv6Addr.pattern_prefix(), "ipv6-addr:value");
    assert_eq!(ObservableType::File.pattern_prefix(), "file:hashes");
    assert_eq!(
        ObservableType::UserAccount.pattern_prefix(),
        "user-account:account_login"
    );
    assert_eq!(ObservableType::IPv4Addr.expiration_type_name(), "ipv4-addr");
    assert_eq!(ObservableType::DomainName.expiration_type_name(), "domain-name");
    assert_eq!(ObservableType::File.expiration_type_name(), "file");
    assert_eq!(
        ObservableType::WindowsRegistryKey.expiration_type_name(),
        "windows-registry-key"
    );
}

#[test]
fn deterministic_indicator_id_is_uuid_v5_of_source() {
    let a = StixIndicator::new_with_deterministic_id(
        "attr-1",
        "[ipv4-addr:value = '1.2.3.4']".to_string(),
        "stix".to_string(),
        t(1_700_000_000),
    )
    .unwrap();
    let b = StixIndicator::new_with_deterministic_id(
        "attr-1",
        "[ipv4-addr:value = '5.6.7.8']".to_string(),
        "stix".to_string(),
        t(1_600_000_000),
    )
    .unwrap();
    assert_eq!(a.id, "indicator--05660aad-abd7-5553-85cc-59c6d6a29a3b");
    assert_eq!(a.id, b.id);
    let c = StixIndicator::new_with_deterministic_id(
        "attr-2",
        "x".to_string(),
        "stix".to_string(),
        t(0),
    )
    .unwrap();
    assert_eq!(c.id, "indicator--8e792339-419e-5a9a-b9b9-47b000e0c46e");
}

#[test]
fn new_indicator_defaults() {
    let bytes: [u8; 16] = [0, 1, 2, 3, 4, 5, 6, 7, 8, 9, 10, 11, 12, 13, 14, 15];
    let ind = StixIndicator::new("[url:value = 'x']".to_string(), "stix".to_string(), t(5), bytes)
        .unwrap();
    assert_eq!(ind.object_type, "indicator");
    assert_eq!(ind.spec_version, "2.1");
    assert_eq!(ind.id, "indicator--00010203-0405-4607-8809-0a0b0c0d0e0f");
    assert_eq!(ind.pattern_version.as_deref(), Some("2.1"));
    assert_eq!(ind.valid_from, t(5));
    assert_eq!(ind.created, ind.modified);
    assert!(ind.valid_until.is_none());
    assert!(ind.labels.is_empty());
    assert!(!ind.revoked);
}

#[test]
fn indicator_builders() {
    let ind = StixIndicator::with_id_at(
        "indicator--1".to_string(),
        "p".to_string(),
        "stix".to_string(),
        t(1),
        t(2),
    )
    .with_name("n".to_string())
    .with_description("d".to_string())
    .with_valid_until(t(9))
    .with_confidence(150)
    .with_labels(vec!["a".to_string()])
    .with_labels(vec!["b".to_string()])
    .with_indicator_types(vec!["malicious-activity".to_string()])
    .with_kill_chain_phase("kc".to_string(), "ph".to_string())
    .with_tlp(tlp::GREEN)
    .with_tlp(tlp::GREEN)
    .with_tlp(tlp::RED);
    assert_eq!(ind.name.as_deref(), Some("n"));
    assert_eq!(ind.description.as_deref(), Some("d"));
    assert_eq!(ind.valid_until, Some(t(9)));
    assert_eq!(ind.confidence, Some(100));
    assert_eq!(ind.labels, vec!["a".to_string(), "b".to_string()]);
    assert_eq!(ind.indicator_types, vec!["malicious-activity".to_string()]);
    assert_eq!(ind.kill_chain_phases.len(), 1);
    assert_eq!(ind.kill_chain_phases[0].kill_chain_name, "kc");
    assert_eq!(ind.kill_chain_phases[0].phase_name, "ph");
    assert_eq!(
        ind.object_marking_refs,
        vec![tlp::GREEN.to_string(), tlp::RED.to_string()]
    );
    assert_eq!(ind.created, t(2));
    assert_eq!(ind.valid_from, t(1));
}

#[test]
fn confidence_within_range_is_kept() {
    let ind = StixIndicator::with_id_at("i".to_string(), "p".to_string(), "stix".to_string(), t(0), t(0))
        .with_confidence(42);
    assert_eq!(ind.confidence, Some(42));
}

#[test]
fn external_reference_builder() {
    let r = ExternalReference {
        source_name: "MISP".to_string(),
        description: None,
        url: Some("https://misp/events/view/u".to_string()),
        external_id: Some("u".to_string()),
        hashes: Vec::new(),
    };
    let ind = StixIndicator::with_id_at("i".to_string(), "p".to_string(), "stix".to_string(), t(0), t(0))
        .with_external_reference(r.clone());
    assert_eq!(ind.external_references.len(), 1);
    assert_eq!(ind.external_references[0].source_name, "MISP");
    assert_eq!(ind.external_references[0].external_id.as_deref(), Some("u"));
}

#[test]
fn domain_objects_deterministic_ids() {
    let ap = StixAttackPattern::new_with_deterministic_id("src-1", "Phishing".to_string()).unwrap();
    assert_eq!(ap.id, "attack-pattern--2cf205ee-6190-5afd-ba6a-1d841918855e");
    assert_eq!(ap.name, "Phishing");
    assert_eq!(ap.object_type, "attack-pattern");
    let ta = StixThreatActor::new_with_deterministic_id("src-1", "APT".to_string()).unwrap();
    assert_eq!(ta.id, "threat-actor--2cf205ee-6190-5afd-ba6a-1d841918855e");
    let id = StixIdentity::new_with_deterministic_id("src-1", "Org".to_string()).unwrap();
    assert_eq!(id.id, "identity--2cf205ee-6190-5afd-ba6a-1d841918855e");
    let rel = StixRelationship::new_with_deterministic_id(
        "src-1",
        "uses".to_string(),
        ta.id.clone(),
        ap.id.clone(),
    )
    .unwrap();
    assert_eq!(rel.id, "relationship--2cf205ee-6190-5afd-ba6a-1d841918855e");
    assert_eq!(rel.relationship_type, "uses");
    assert_eq!(rel.source_ref, ta.id);
    assert_eq!(rel.target_ref, ap.id);
}

#[test]
fn domain_objects_random_ids_and_builders() {
    let ap = StixAttackPattern::new("AP".to_string(), [0u8; 16])
        .unwrap()
        .with_description("desc".to_string())
        .with_tlp(tlp::AMBER)
        .with_tlp(tlp::AMBER);
    assert_eq!(ap.id, "attack-pattern--00000000-0000-4000-8000-000000000000");
    assert_eq!(ap.description.as_deref(), Some("desc"));
    assert_eq!(ap.object_marking_refs, vec![tlp::AMBER.to_string()]);
    let ta = StixThreatActor::new("TA".to_string(), [255u8; 16]).unwrap().with_description("d".to_string());
    assert_eq!(ta.id, "threat-actor--ffffffff-ffff-4fff-bfff-ffffffffffff");
    assert_eq!(ta.description.as_deref(), Some("d"));
    let idn = StixIdentity::new("Org".to_string(), [7u8; 16])
        .unwrap()
        .with_identity_class("organization".to_string());
    assert!(idn.id.starts_with("identity--"));
    assert_eq!(idn.identity_class.as_deref(), Some("organization"));
    let rel = StixRelationship::new("targets".to_string(), "a".to_string(), "b".to_string(), [7u8; 16])
        .unwrap()
        .with_tlp(tlp::WHITE);
    assert!(rel.id.starts_with("relationship--"));
    assert_eq!(rel.object_marking_refs, vec![tlp::WHITE.to_string()]);
}

#[test]
fn spec_version_default() {
    assert_eq!(default_spec_version(), "2.1");
}

#[test]
fn different_values_give_different_patterns() {
    let values = ["a'", "a\\'", "a\\", "a", "a''", "'a"];
    let patterns: Vec<String> = values
        .iter()
        .map(|v| create_pattern(ObservableType::DomainName, v))
        .collect();
    for i in 0..patterns.len() {
        for j in 0..patterns.len() {
            if i != j {
                assert_ne!(patterns[i], patterns[j]);
            }
        }
    }
    assert_ne!(
        create_pattern(ObservableType::DomainName, "x"),
        create_pattern(ObservableType::Url, "x")
    );
}

fn unescape(s: &str) -> String {
    let mut out = String::new();
    let mut chars = s.chars();
    while let Some(c) = chars.next() {
        if c == '\\' {
            if let Some(d) = chars.next() {
                out.push(d);
            }
        } else {
            out.push(c);
        }
    }
    out
}

#[test]
fn escape_round_trip_and_length() {
    for v in ["plain", "a'b", "c:\\dir\\", "''\\\\'", "", "\\'"] {
        let e = escape_pattern_value(v);
        assert_eq!(unescape(&e), v);
        let specials = v.chars().filter(|c| *c == '\\' || *c == '\'').count();
        assert_eq!(e.chars().count(), v.chars().count() + specials);
    }
    assert_eq!(escape_pattern_value("\\'"), "\\\\\\'");
}

#[test]
fn hash_labels_are_fixed_points() {
    for (name, label) in [("SHA1", "SHA-1"), ("SHA256", "SHA-256"), ("SHA512", "SHA-512"), ("MD5", "MD5")] {
        let p = create_file_hash_pattern_upper(name, "ab");
        assert_eq!(p, format!("[file:hashes.'{}' = 'ab']", label));
        assert_eq!(create_file_hash_pattern_upper(label, "ab"), p);
    }
    for label in ["SHA-512/256", "SHA3-256", "JA3", "SSDEEP", "TLSH"] {
        assert_eq!(
            create_file_hash_pattern_upper(label, "ab"),
            format!("[file:hashes.'{}' = 'ab']", label)
        );
    }
}
