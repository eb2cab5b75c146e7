//! The STIX pattern for each kind of MISP attribute.

use crate::config::SyncConfig;
use crate::misp::{
    actionable_types_spec, hash_type_for, hash_value_for, observable_type_for, MispAttribute,
};
use crate::sync::{expiration_days_for, expiration_lookup};
use crate::stix::{
    create_file_hash_pattern, create_pattern, escape_pattern_value, escape_spec,
    file_hash_pattern_spec, pattern_spec, ObservableType,
};
use crate::text::{contains_char, first_field, split_fields, str_eq, strip_all_prefix, trim_start_matches};
use crate::trusted::spec_to_uppercase;
use vstd::prelude::*;

verus! {

/// An IPv6 pattern when the address holds a colon, else an IPv4 pattern.
pub open spec fn ip_pattern(ip: Seq<char>) -> Seq<char> {
    if ip.contains(':') {
        pattern_spec(ObservableType::IPv6Addr, ip)
    } else {
        pattern_spec(ObservableType::IPv4Addr, ip)
    }
}

/// `prefix`, the escaped value, then a closing quote and bracket.
pub open spec fn quoted(prefix: Seq<char>, v: Seq<char>) -> Seq<char> {
    prefix + escape_spec(v) + "']"@
}

/// The STIX pattern for an attribute of type `t` and value `v`; `None` for
/// types that have no pattern.
pub open spec fn pattern_for(t: Seq<char>, v: Seq<char>) -> Option<Seq<char>> {
    if t == "ip-src"@ || t == "ip-dst"@ {
        Some(ip_pattern(v))
    } else if t == "ip-src|port"@ || t == "ip-dst|port"@ {
        Some(ip_pattern(split_fields(v, '|')[0]))
    } else if t == "domain"@ || t == "hostname"@ {
        Some(pattern_spec(ObservableType::DomainName, v))
    } else if t == "domain|ip"@ || t == "hostname|port"@ {
        Some(pattern_spec(ObservableType::DomainName, split_fields(v, '|')[0]))
    } else if t == "url"@ || t == "uri"@ {
        Some(pattern_spec(ObservableType::Url, v))
    } else if t == "AS"@ {
        Some("[autonomous-system:number = "@ + strip_all_prefix(v, "AS"@) + "]"@)
    } else if t == "email-src"@ || t == "email-dst"@ {
        Some(pattern_spec(ObservableType::EmailAddr, v))
    } else if quoted_prefix_for(t) is Some {
        Some(quoted(quoted_prefix_for(t)->0, v))
    } else if hash_type_for(t) is Some {
        Some(
            file_hash_pattern_spec(
                spec_to_uppercase(hash_type_for(t)->0),
                hash_value_for(t, v),
            ),
        )
    } else if t == "regkey"@ {
        Some(pattern_spec(ObservableType::WindowsRegistryKey, v))
    } else if t == "regkey|value"@ {
        Some(pattern_spec(ObservableType::WindowsRegistryKey, split_fields(v, '|')[0]))
    } else {
        None
    }
}

/// The pattern text before the quoted value, for the attribute types whose
/// pattern is that text, the escaped value and a closing quote and bracket.
pub open spec fn quoted_prefix_for(t: Seq<char>) -> Option<Seq<char>> {
    if t == "mac-address"@ {
        Some("[mac-addr:value = '"@)
    } else if t == "mac-eui-64"@ {
        Some("[mac-addr:value = '"@)
    } else if t == "email-subject"@ {
        Some("[email-message:subject = '"@)
    } else if t == "email-body"@ {
        Some("[email-message:body = '"@)
    } else if t == "email-header"@ {
        Some("[email-message:raw_email = '"@)
    } else if t == "email-reply-to"@ {
        Some("[email-message:additional_header_fields.Reply-To = '"@)
    } else if t == "email-x-mailer"@ {
        Some("[email-message:additional_header_fields.X-Mailer = '"@)
    } else if t == "email-message-id"@ {
        Some("[email-message:message_id = '"@)
    } else if t == "email-mime-boundary"@ {
        Some("[email-message:additional_header_fields.MIME-Boundary = '"@)
    } else if t == "email-thread-index"@ {
        Some("[email-message:additional_header_fields.Thread-Index = '"@)
    } else if t == "filename"@ {
        Some("[file:name = '"@)
    } else if t == "user-agent"@ {
        Some("[network-traffic:extensions.'http-request-ext'.request_header.'User-Agent' = '"@)
    } else if t == "ja3-fingerprint-md5"@ {
        Some("[network-traffic:extensions.'ja3-ext'.ja3_hash = '"@)
    } else if t == "jarm-fingerprint"@ {
        Some("[network-traffic:extensions.'jarm-ext'.jarm_hash = '"@)
    } else if t == "hassh-md5"@ {
        Some("[network-traffic:extensions.'ssh-ext'.hassh = '"@)
    } else if t == "hasshserver-md5"@ {
        Some("[network-traffic:extensions.'ssh-ext'.hassh_server = '"@)
    } else if t == "community-id"@ {
        Some("[network-traffic:extensions.'community-id-ext'.community_id = '"@)
    } else if t == "mutex"@ {
        Some("[mutex:name = '"@)
    } else if t == "x509-fingerprint-md5"@ {
        Some("[x509-certificate:hashes.MD5 = '"@)
    } else if t == "x509-fingerprint-sha1"@ {
        Some("[x509-certificate:hashes.'SHA-1' = '"@)
    } else if t == "x509-fingerprint-sha256"@ {
        Some("[x509-certificate:hashes.'SHA-256' = '"@)
    } else if t == "windows-scheduled-task"@ {
        Some("[process:extensions.'windows-process-ext'.scheduled_task = '"@)
    } else if t == "windows-service-name"@ {
        Some("[process:extensions.'windows-service-ext'.service_name = '"@)
    } else if t == "windows-service-displayname"@ {
        Some("[process:extensions.'windows-service-ext'.display_name = '"@)
    } else {
        None
    }
}

/// The text before the quoted value for an attribute type, if it has one.
pub fn quoted_prefix_of(t: &str) -> (r: Option<&'static str>)
    ensures
        r.deep_view() == quoted_prefix_for(t@),
{
    if str_eq(t, "mac-address") {
        Some("[mac-addr:value = '")
    } else if str_eq(t, "mac-eui-64") {
        Some("[mac-addr:value = '")
    } else if str_eq(t, "email-subject") {
        Some("[email-message:subject = '")
    } else if str_eq(t, "email-body") {
        Some("[email-message:body = '")
    } else if str_eq(t, "email-header") {
        Some("[email-message:raw_email = '")
    } else if str_eq(t, "email-reply-to") {
        Some("[email-message:additional_header_fields.Reply-To = '")
    } else if str_eq(t, "email-x-mailer") {
        Some("[email-message:additional_header_fields.X-Mailer = '")
    } else if str_eq(t, "email-message-id") {
        Some("[email-message:message_id = '")
    } else if str_eq(t, "email-mime-boundary") {
        Some("[email-message:additional_header_fields.MIME-Boundary = '")
    } else if str_eq(t, "email-thread-index") {
        Some("[email-message:additional_header_fields.Thread-Index = '")
    } else if str_eq(t, "filename") {
        Some("[file:name = '")
    } else if str_eq(t, "user-agent") {
        Some("[network-traffic:extensions.'http-request-ext'.request_header.'User-Agent' = '")
    } else if str_eq(t, "ja3-fingerprint-md5") {
        Some("[network-traffic:extensions.'ja3-ext'.ja3_hash = '")
    } else if str_eq(t, "jarm-fingerprint") {
        Some("[network-traffic:extensions.'jarm-ext'.jarm_hash = '")
    } else if str_eq(t, "hassh-md5") {
        Some("[network-traffic:extensions.'ssh-ext'.hassh = '")
    } else if str_eq(t, "hasshserver-md5") {
        Some("[network-traffic:extensions.'ssh-ext'.hassh_server = '")
    } else if str_eq(t, "community-id") {
        Some("[network-traffic:extensions.'community-id-ext'.community_id = '")
    } else if str_eq(t, "mutex") {
        Some("[mutex:name = '")
    } else if str_eq(t, "x509-fingerprint-md5") {
        Some("[x509-certificate:hashes.MD5 = '")
    } else if str_eq(t, "x509-fingerprint-sha1") {
        Some("[x509-certificate:hashes.'SHA-1' = '")
    } else if str_eq(t, "x509-fingerprint-sha256") {
        Some("[x509-certificate:hashes.'SHA-256' = '")
    } else if str_eq(t, "windows-scheduled-task") {
        Some("[process:extensions.'windows-process-ext'.scheduled_task = '")
    } else if str_eq(t, "windows-service-name") {
        Some("[process:extensions.'windows-service-ext'.service_name = '")
    } else if str_eq(t, "windows-service-displayname") {
        Some("[process:extensions.'windows-service-ext'.display_name = '")
    } else {
        None
    }
}

/// The IP pattern for an address.
fn ip_pattern_of(ip: &str) -> (r: String)
    ensures
        r@ == ip_pattern(ip@),
{
    if contains_char(ip, ':') {
        create_pattern(ObservableType::IPv6Addr, ip)
    } else {
        create_pattern(ObservableType::IPv4Addr, ip)
    }
}

/// `prefix`, the escaped value, then a closing quote and bracket.
fn quoted_pattern(prefix: &str, value: &str) -> (r: String)
    ensures
        r@ == quoted(prefix@, value@),
{
    let mut r = String::from_str(prefix);
    let escaped = escape_pattern_value(value);
    r.append(escaped.as_str());
    r.append("']");
    r
}

/// Create the STIX pattern for a MISP attribute, if its type has one.
pub fn pattern_for_attribute(attr: &MispAttribute) -> (r: Option<String>)
    ensures
        r.deep_view() == pattern_for(attr.attr_type@, attr.value@),
{
    let t = attr.attr_type.as_str();
    let v = attr.value.as_str();
    if str_eq(t, "ip-src") || str_eq(t, "ip-dst") {
        Some(ip_pattern_of(v))
    } else if str_eq(t, "ip-src|port") || str_eq(t, "ip-dst|port") {
        let ip = first_field(v, '|');
        Some(ip_pattern_of(ip.as_str()))
    } else if str_eq(t, "domain") || str_eq(t, "hostname") {
        Some(create_pattern(ObservableType::DomainName, v))
    } else if str_eq(t, "domain|ip") || str_eq(t, "hostname|port") {
        let host = first_field(v, '|');
        Some(create_pattern(ObservableType::DomainName, host.as_str()))
    } else if str_eq(t, "url") || str_eq(t, "uri") {
        Some(create_pattern(ObservableType::Url, v))
    } else if str_eq(t, "AS") {
        let mut r = String::from_str("[autonomous-system:number = ");
        r.append(trim_start_matches(v, "AS"));
        r.append("]");
        Some(r)
    } else if str_eq(t, "email-src") || str_eq(t, "email-dst") {
        Some(create_pattern(ObservableType::EmailAddr, v))
    } else if let Some(prefix) = quoted_prefix_of(t) {
        Some(quoted_pattern(prefix, v))
    } else if let Some(hash_type) = attr.get_hash_type() {
        let hash_value = attr.get_hash_value();
        Some(create_file_hash_pattern(hash_type, hash_value))
    } else if str_eq(t, "regkey") {
        Some(create_pattern(ObservableType::WindowsRegistryKey, v))
    } else if str_eq(t, "regkey|value") {
        let key = first_field(v, '|');
        Some(create_pattern(ObservableType::WindowsRegistryKey, key.as_str()))
    } else {
        None
    }
}

/// The actionable attribute types that have no STIX pattern.
pub open spec fn actionable_without_pattern() -> Seq<Seq<char>> {
    seq!["email-src-display-name"@, "malware-type"@, "port"@, "size-in-bytes"@]
}

proof fn lemma_actionable_has_pattern(t: Seq<char>, v: Seq<char>)
    requires
        actionable_types_spec().contains(t),
        !actionable_without_pattern().contains(t),
    ensures
        pattern_for(t, v) is Some,
{
    let i = choose|i: int| 0 <= i < actionable_types_spec().len() && actionable_types_spec()[i] == t;
    assert(t != actionable_without_pattern()[0]);
    assert(t != actionable_without_pattern()[1]);
    assert(t != actionable_without_pattern()[2]);
    assert(t != actionable_without_pattern()[3]);
}

proof fn lemma_actionable_without_pattern(t: Seq<char>, v: Seq<char>)
    requires
        actionable_without_pattern().contains(t),
    ensures
        actionable_types_spec().contains(t),
        pattern_for(t, v) is None,
{
    reveal_strlit("ip-src");
    assert("ip-src"@.len() == 6);
    reveal_strlit("ip-dst");
    assert("ip-dst"@.len() == 6);
    reveal_strlit("ip-src|port");
    assert("ip-src|port"@.len() == 11);
    reveal_strlit("ip-dst|port");
    assert("ip-dst|port"@.len() == 11);
    reveal_strlit("domain");
    assert("domain"@.len() == 6);
    reveal_strlit("hostname");
    assert("hostname"@.len() == 8);
    reveal_strlit("domain|ip");
    assert("domain|ip"@.len() == 9);
    reveal_strlit("hostname|port");
    assert("hostname|port"@.len() == 13);
    reveal_strlit("url");
    assert("url"@.len() == 3);
    reveal_strlit("uri");
    assert("uri"@.len() == 3);
    reveal_strlit("AS");
    assert("AS"@.len() == 2);
    reveal_strlit("email-src");
    assert("email-src"@.len() == 9);
    reveal_strlit("email-dst");
    assert("email-dst"@.len() == 9);
    reveal_strlit("regkey");
    assert("regkey"@.len() == 6);
    reveal_strlit("regkey|value");
    assert("regkey|value"@.len() == 12);
    reveal_strlit("mac-address");
    assert("mac-address"@.len() == 11);
    reveal_strlit("mac-eui-64");
    assert("mac-eui-64"@.len() == 10);
    reveal_strlit("email-subject");
    assert("email-subject"@.len() == 13);
    reveal_strlit("email-body");
    assert("email-body"@.len() == 10);
    reveal_strlit("email-header");
    assert("email-header"@.len() == 12);
    reveal_strlit("email-reply-to");
    assert("email-reply-to"@.len() == 14);
    reveal_strlit("email-x-mailer");
    assert("email-x-mailer"@.len() == 14);
    reveal_strlit("email-message-id");
    assert("email-message-id"@.len() == 16);
    reveal_strlit("email-mime-boundary");
    assert("email-mime-boundary"@.len() == 19);
    reveal_strlit("email-thread-index");
    assert("email-thread-index"@.len() == 18);
    reveal_strlit("filename");
    assert("filename"@.len() == 8);
    reveal_strlit("user-agent");
    assert("user-agent"@.len() == 10);
    reveal_strlit("ja3-fingerprint-md5");
    assert("ja3-fingerprint-md5"@.len() == 19);
    reveal_strlit("jarm-fingerprint");
    assert("jarm-fingerprint"@.len() == 16);
    reveal_strlit("hassh-md5");
    assert("hassh-md5"@.len() == 9);
    reveal_strlit("hasshserver-md5");
    assert("hasshserver-md5"@.len() == 15);
    reveal_strlit("community-id");
    assert("community-id"@.len() == 12);
    reveal_strlit("mutex");
    assert("mutex"@.len() == 5);
    reveal_strlit("x509-fingerprint-md5");
    assert("x509-fingerprint-md5"@.len() == 20);
    reveal_strlit("x509-fingerprint-sha1");
    assert("x509-fingerprint-sha1"@.len() == 21);
    reveal_strlit("x509-fingerprint-sha256");
    assert("x509-fingerprint-sha256"@.len() == 23);
    reveal_strlit("windows-scheduled-task");
    assert("windows-scheduled-task"@.len() == 22);
    reveal_strlit("windows-service-name");
    assert("windows-service-name"@.len() == 20);
    reveal_strlit("windows-service-displayname");
    assert("windows-service-displayname"@.len() == 27);
    reveal_strlit("md5");
    assert("md5"@.len() == 3);
    reveal_strlit("filename|md5");
    assert("filename|md5"@.len() == 12);
    reveal_strlit("sha1");
    assert("sha1"@.len() == 4);
    reveal_strlit("filename|sha1");
    assert("filename|sha1"@.len() == 13);
    reveal_strlit("sha256");
    assert("sha256"@.len() == 6);
    reveal_strlit("filename|sha256");
    assert("filename|sha256"@.len() == 15);
    reveal_strlit("sha512");
    assert("sha512"@.len() == 6);
    reveal_strlit("filename|sha512");
    assert("filename|sha512"@.len() == 15);
    reveal_strlit("ssdeep");
    assert("ssdeep"@.len() == 6);
    reveal_strlit("filename|ssdeep");
    assert("filename|ssdeep"@.len() == 15);
    reveal_strlit("imphash");
    assert("imphash"@.len() == 7);
    reveal_strlit("filename|imphash");
    assert("filename|imphash"@.len() == 16);
    reveal_strlit("authentihash");
    assert("authentihash"@.len() == 12);
    reveal_strlit("filename|authentihash");
    assert("filename|authentihash"@.len() == 21);
    reveal_strlit("pehash");
    assert("pehash"@.len() == 6);
    reveal_strlit("filename|pehash");
    assert("filename|pehash"@.len() == 15);
    reveal_strlit("vhash");
    assert("vhash"@.len() == 5);
    reveal_strlit("filename|vhash");
    assert("filename|vhash"@.len() == 14);
    reveal_strlit("tlsh");
    assert("tlsh"@.len() == 4);
    reveal_strlit("filename|tlsh");
    assert("filename|tlsh"@.len() == 13);
    reveal_strlit("cdhash");
    assert("cdhash"@.len() == 6);
    reveal_strlit("telfhash");
    assert("telfhash"@.len() == 8);
    reveal_strlit("impfuzzy");
    assert("impfuzzy"@.len() == 8);
    reveal_strlit("filename|impfuzzy");
    assert("filename|impfuzzy"@.len() == 17);
    reveal_strlit("sha224");
    assert("sha224"@.len() == 6);
    reveal_strlit("filename|sha224");
    assert("filename|sha224"@.len() == 15);
    reveal_strlit("sha384");
    assert("sha384"@.len() == 6);
    reveal_strlit("filename|sha384");
    assert("filename|sha384"@.len() == 15);
    reveal_strlit("sha512/224");
    assert("sha512/224"@.len() == 10);
    reveal_strlit("filename|sha512/224");
    assert("filename|sha512/224"@.len() == 19);
    reveal_strlit("sha512/256");
    assert("sha512/256"@.len() == 10);
    reveal_strlit("filename|sha512/256");
    assert("filename|sha512/256"@.len() == 19);
    reveal_strlit("sha3-224");
    assert("sha3-224"@.len() == 8);
    reveal_strlit("filename|sha3-224");
    assert("filename|sha3-224"@.len() == 17);
    reveal_strlit("sha3-256");
    assert("sha3-256"@.len() == 8);
    reveal_strlit("filename|sha3-256");
    assert("filename|sha3-256"@.len() == 17);
    reveal_strlit("sha3-384");
    assert("sha3-384"@.len() == 8);
    reveal_strlit("filename|sha3-384");
    assert("filename|sha3-384"@.len() == 17);
    reveal_strlit("sha3-512");
    assert("sha3-512"@.len() == 8);
    reveal_strlit("filename|sha3-512");
    assert("filename|sha3-512"@.len() == 17);
    let k = choose|k: int| 0 <= k < 4 && actionable_without_pattern()[k] == t;
    if t == "email-src-display-name"@ {
        reveal_strlit("email-src-display-name");
        assert("email-src-display-name"@.len() == 22);
        assert("email-src-display-name"@[0] != "windows-scheduled-task"@[0]);
    }
    if t == "malware-type"@ {
        reveal_strlit("malware-type");
        assert("malware-type"@.len() == 12);
        assert("malware-type"@[0] != "regkey|value"@[0]);
        assert("malware-type"@[0] != "email-header"@[0]);
        assert("malware-type"@[0] != "community-id"@[0]);
        assert("malware-type"@[0] != "filename|md5"@[0]);
        assert("malware-type"@[0] != "authentihash"@[0]);
    }
    if t == "port"@ {
        reveal_strlit("port");
        assert("port"@.len() == 4);
        assert("port"@[0] != "sha1"@[0]);
        assert("port"@[0] != "tlsh"@[0]);
    }
    if t == "size-in-bytes"@ {
        reveal_strlit("size-in-bytes");
        assert("size-in-bytes"@.len() == 13);
        assert("size-in-bytes"@[0] != "hostname|port"@[0]);
        assert("size-in-bytes"@[0] != "email-subject"@[0]);
        assert("size-in-bytes"@[0] != "filename|sha1"@[0]);
        assert("size-in-bytes"@[0] != "filename|tlsh"@[0]);
    }
}

/// An attribute of an actionable type has a STIX pattern exactly when its
/// type is not one of `actionable_without_pattern`, whatever its value.
pub proof fn lemma_actionable_pattern_exactly(t: Seq<char>, v: Seq<char>)
    requires
        actionable_types_spec().contains(t),
    ensures
        pattern_for(t, v) is Some <==> !actionable_without_pattern().contains(t),
{
    if actionable_without_pattern().contains(t) {
        lemma_actionable_without_pattern(t, v);
    } else {
        lemma_actionable_has_pattern(t, v);
    }
}

/// The attribute types whose pattern is the plain pattern of one kind of
/// observable: that kind is the type's observable type, and the pattern is
/// that kind's pattern of the whole value.
#[verifier::rlimit(100)]
pub proof fn lemma_plain_pattern_types(t: Seq<char>, v: Seq<char>)
    requires
        t == "domain"@ || t == "hostname"@ || t == "url"@ || t == "email-src"@ || t == "email-dst"@
            || t == "regkey"@,
    ensures
        observable_type_for(t) is Some,
        pattern_for(t, v) == Some(pattern_spec(observable_type_for(t)->0, v)),
        t == "domain"@ || t == "hostname"@ ==> observable_type_for(t) == Some(ObservableType::DomainName),
        t == "url"@ ==> observable_type_for(t) == Some(ObservableType::Url),
        t == "email-src"@ || t == "email-dst"@ ==> observable_type_for(t) == Some(ObservableType::EmailAddr),
        t == "regkey"@ ==> observable_type_for(t) == Some(ObservableType::WindowsRegistryKey),
{
    reveal_strlit("ip-src");
    assert("ip-src"@.len() == 6);
    reveal_strlit("ip-dst");
    assert("ip-dst"@.len() == 6);
    reveal_strlit("ip-src|port");
    assert("ip-src|port"@.len() == 11);
    reveal_strlit("ip-dst|port");
    assert("ip-dst|port"@.len() == 11);
    reveal_strlit("domain");
    assert("domain"@.len() == 6);
    reveal_strlit("hostname");
    assert("hostname"@.len() == 8);
    reveal_strlit("domain|ip");
    assert("domain|ip"@.len() == 9);
    reveal_strlit("hostname|port");
    assert("hostname|port"@.len() == 13);
    reveal_strlit("url");
    assert("url"@.len() == 3);
    reveal_strlit("uri");
    assert("uri"@.len() == 3);
    reveal_strlit("AS");
    assert("AS"@.len() == 2);
    reveal_strlit("email-src");
    assert("email-src"@.len() == 9);
    reveal_strlit("email-dst");
    assert("email-dst"@.len() == 9);
    reveal_strlit("regkey");
    assert("regkey"@.len() == 6);
    reveal_strlit("regkey|value");
    assert("regkey|value"@.len() == 12);
    reveal_strlit("mac-address");
    assert("mac-address"@.len() == 11);
    reveal_strlit("mac-eui-64");
    assert("mac-eui-64"@.len() == 10);
    reveal_strlit("email-subject");
    assert("email-subject"@.len() == 13);
    reveal_strlit("email-body");
    assert("email-body"@.len() == 10);
    reveal_strlit("email-header");
    assert("email-header"@.len() == 12);
    reveal_strlit("email-reply-to");
    assert("email-reply-to"@.len() == 14);
    reveal_strlit("email-x-mailer");
    assert("email-x-mailer"@.len() == 14);
    reveal_strlit("email-message-id");
    assert("email-message-id"@.len() == 16);
    reveal_strlit("email-mime-boundary");
    assert("email-mime-boundary"@.len() == 19);
    reveal_strlit("email-thread-index");
    assert("email-thread-index"@.len() == 18);
    reveal_strlit("filename");
    assert("filename"@.len() == 8);
    reveal_strlit("user-agent");
    assert("user-agent"@.len() == 10);
    reveal_strlit("ja3-fingerprint-md5");
    assert("ja3-fingerprint-md5"@.len() == 19);
    reveal_strlit("jarm-fingerprint");
    assert("jarm-fingerprint"@.len() == 16);
    reveal_strlit("hassh-md5");
    assert("hassh-md5"@.len() == 9);
    reveal_strlit("hasshserver-md5");
    assert("hasshserver-md5"@.len() == 15);
    reveal_strlit("community-id");
    assert("community-id"@.len() == 12);
    reveal_strlit("mutex");
    assert("mutex"@.len() == 5);
    reveal_strlit("x509-fingerprint-md5");
    assert("x509-fingerprint-md5"@.len() == 20);
    reveal_strlit("x509-fingerprint-sha1");
    assert("x509-fingerprint-sha1"@.len() == 21);
    reveal_strlit("x509-fingerprint-sha256");
    assert("x509-fingerprint-sha256"@.len() == 23);
    reveal_strlit("windows-scheduled-task");
    assert("windows-scheduled-task"@.len() == 22);
    reveal_strlit("windows-service-name");
    assert("windows-service-name"@.len() == 20);
    reveal_strlit("windows-service-displayname");
    assert("windows-service-displayname"@.len() == 27);
    reveal_strlit("md5");
    assert("md5"@.len() == 3);
    reveal_strlit("filename|md5");
    assert("filename|md5"@.len() == 12);
    reveal_strlit("sha1");
    assert("sha1"@.len() == 4);
    reveal_strlit("filename|sha1");
    assert("filename|sha1"@.len() == 13);
    reveal_strlit("sha256");
    assert("sha256"@.len() == 6);
    reveal_strlit("filename|sha256");
    assert("filename|sha256"@.len() == 15);
    reveal_strlit("sha512");
    assert("sha512"@.len() == 6);
    reveal_strlit("filename|sha512");
    assert("filename|sha512"@.len() == 15);
    reveal_strlit("ssdeep");
    assert("ssdeep"@.len() == 6);
    reveal_strlit("filename|ssdeep");
    assert("filename|ssdeep"@.len() == 15);
    reveal_strlit("imphash");
    assert("imphash"@.len() == 7);
    reveal_strlit("filename|imphash");
    assert("filename|imphash"@.len() == 16);
    reveal_strlit("authentihash");
    assert("authentihash"@.len() == 12);
    reveal_strlit("filename|authentihash");
    assert("filename|authentihash"@.len() == 21);
    reveal_strlit("pehash");
    assert("pehash"@.len() == 6);
    reveal_strlit("filename|pehash");
    assert("filename|pehash"@.len() == 15);
    reveal_strlit("vhash");
    assert("vhash"@.len() == 5);
    reveal_strlit("filename|vhash");
    assert("filename|vhash"@.len() == 14);
    reveal_strlit("tlsh");
    assert("tlsh"@.len() == 4);
    reveal_strlit("filename|tlsh");
    assert("filename|tlsh"@.len() == 13);
    reveal_strlit("cdhash");
    assert("cdhash"@.len() == 6);
    reveal_strlit("telfhash");
    assert("telfhash"@.len() == 8);
    reveal_strlit("impfuzzy");
    assert("impfuzzy"@.len() == 8);
    reveal_strlit("filename|impfuzzy");
    assert("filename|impfuzzy"@.len() == 17);
    reveal_strlit("sha224");
    assert("sha224"@.len() == 6);
    reveal_strlit("filename|sha224");
    assert("filename|sha224"@.len() == 15);
    reveal_strlit("sha384");
    assert("sha384"@.len() == 6);
    reveal_strlit("filename|sha384");
    assert("filename|sha384"@.len() == 15);
    reveal_strlit("sha512/224");
    assert("sha512/224"@.len() == 10);
    reveal_strlit("filename|sha512/224");
    assert("filename|sha512/224"@.len() == 19);
    reveal_strlit("sha512/256");
    assert("sha512/256"@.len() == 10);
    reveal_strlit("filename|sha512/256");
    assert("filename|sha512/256"@.len() == 19);
    reveal_strlit("sha3-224");
    assert("sha3-224"@.len() == 8);
    reveal_strlit("filename|sha3-224");
    assert("filename|sha3-224"@.len() == 17);
    reveal_strlit("sha3-256");
    assert("sha3-256"@.len() == 8);
    reveal_strlit("filename|sha3-256");
    assert("filename|sha3-256"@.len() == 17);
    reveal_strlit("sha3-384");
    assert("sha3-384"@.len() == 8);
    reveal_strlit("filename|sha3-384");
    assert("filename|sha3-384"@.len() == 17);
    reveal_strlit("sha3-512");
    assert("sha3-512"@.len() == 8);
    reveal_strlit("filename|sha3-512");
    assert("filename|sha3-512"@.len() == 17);
    if t == "domain"@ {
        assert("domain"@[0] != "ip-src"@[0]);
        assert("domain"@[0] != "ip-dst"@[0]);
        assert("domain"@[0] != "regkey"@[0]);
        assert("domain"@[0] != "sha256"@[0]);
        assert("domain"@[0] != "sha512"@[0]);
        assert("domain"@[0] != "ssdeep"@[0]);
        assert("domain"@[0] != "pehash"@[0]);
        assert("domain"@[0] != "cdhash"@[0]);
        assert("domain"@[0] != "sha224"@[0]);
        assert("domain"@[0] != "sha384"@[0]);
    }
    if t == "hostname"@ {
        assert("hostname"@[0] != "filename"@[0]);
        assert("hostname"@[0] != "telfhash"@[0]);
        assert("hostname"@[0] != "impfuzzy"@[0]);
        assert("hostname"@[0] != "sha3-224"@[0]);
        assert("hostname"@[0] != "sha3-256"@[0]);
        assert("hostname"@[0] != "sha3-384"@[0]);
        assert("hostname"@[0] != "sha3-512"@[0]);
    }
    if t == "url"@ {
        assert("url"@[2] != "uri"@[2]);
        assert("url"@[0] != "md5"@[0]);
    }
    if t == "email-src"@ {
        assert("email-src"@[0] != "domain|ip"@[0]);
        assert("email-src"@[6] != "email-dst"@[6]);
        assert("email-src"@[0] != "hassh-md5"@[0]);
    }
    if t == "email-dst"@ {
        assert("email-dst"@[0] != "domain|ip"@[0]);
        assert("email-dst"@[6] != "email-src"@[6]);
        assert("email-dst"@[0] != "hassh-md5"@[0]);
    }
    if t == "regkey"@ {
        assert("regkey"@[0] != "ip-src"@[0]);
        assert("regkey"@[0] != "ip-dst"@[0]);
        assert("regkey"@[0] != "domain"@[0]);
        assert("regkey"@[0] != "sha256"@[0]);
        assert("regkey"@[0] != "sha512"@[0]);
        assert("regkey"@[0] != "ssdeep"@[0]);
        assert("regkey"@[0] != "pehash"@[0]);
        assert("regkey"@[0] != "cdhash"@[0]);
        assert("regkey"@[0] != "sha224"@[0]);
        assert("regkey"@[0] != "sha384"@[0]);
    }
}

/// Host names are domain names: a `hostname` attribute gets the domain-name
/// pattern of its value and the domain-name observable type, as a `domain`
/// attribute does, and so the domain-name expiration setting.
pub proof fn lemma_hostname_is_domain(v: Seq<char>, cfg: SyncConfig, a: MispAttribute, b: MispAttribute)
    requires
        a.attr_type@ == "domain"@,
        b.attr_type@ == "hostname"@,
    ensures
        pattern_for("domain"@, v) == Some(pattern_spec(ObservableType::DomainName, v)),
        pattern_for("hostname"@, v) == Some(pattern_spec(ObservableType::DomainName, v)),
        observable_type_for("domain"@) == Some(ObservableType::DomainName),
        observable_type_for("hostname"@) == Some(ObservableType::DomainName),
        expiration_days_for(cfg, a) == match expiration_lookup(cfg.type_expiration@, "domain-name"@) {
            Some(d) => d,
            None => cfg.days_to_expire,
        },
        expiration_days_for(cfg, b) == expiration_days_for(cfg, a),
{
    lemma_plain_pattern_types("domain"@, v);
    lemma_plain_pattern_types("hostname"@, v);
    reveal_strlit("domain");
    reveal_strlit("hostname");
    reveal_strlit("ip-src");
    reveal_strlit("ip-dst");
    assert("domain"@[0] != "ip-src"@[0]);
    assert("domain"@[0] != "ip-dst"@[0]);
    assert("hostname"@.len() != "ip-src"@.len());
    assert("hostname"@.len() != "ip-dst"@.len());
    assert("hostname"@.len() != "domain"@.len());
    assert(observable_type_for("domain"@) == Some(ObservableType::DomainName));
    assert(observable_type_for("hostname"@) == Some(ObservableType::DomainName));
}

} // verus!
