//! MISP events and attributes, and the rules that pick the actionable
//! attributes and the event metadata (TLP, threat type, labels) from them.

pub mod fetch;
pub mod search;
pub mod local;

use crate::stix::{stix_hash_label, ObservableType};
use crate::text::{after_last, contains_char, contains_str, contains_seq, is_prefix, second_field, split_fields, starts_with, str_eq};
use crate::trusted::{spec_to_lowercase, str_to_lowercase};
use vstd::prelude::*;

verus! {

/// MISP API search response wrapper.
#[derive(Debug, Clone)]
pub struct MispSearchResponse {
    pub response: Vec<MispEventWrapper>,
}

/// Wrapper for a MISP event in a response.
#[derive(Debug, Clone)]
pub struct MispEventWrapper {
    pub event: MispEvent,
}

/// MISP event.
#[derive(Debug, Clone)]
pub struct MispEvent {
    pub id: String,
    pub uuid: String,
    pub info: String,
    pub date: Option<String>,
    pub timestamp: String,
    pub publish_timestamp: Option<String>,
    pub published: bool,
    pub threat_level_id: Option<String>,
    pub analysis: Option<String>,
    pub attributes: Vec<MispAttribute>,
    pub objects: Vec<MispObject>,
    pub tags: Vec<MispTag>,
    pub org: Option<MispOrg>,
    pub orgc: Option<MispOrg>,
}

/// MISP attribute.
#[derive(Debug, Clone)]
pub struct MispAttribute {
    pub id: String,
    pub uuid: String,
    pub attr_type: String,
    pub category: String,
    pub value: String,
    pub to_ids: bool,
    pub timestamp: String,
    pub comment: Option<String>,
    pub tags: Vec<MispTag>,
    pub first_seen: Option<String>,
    pub last_seen: Option<String>,
}

/// MISP object (container for related attributes).
#[derive(Debug, Clone)]
pub struct MispObject {
    pub id: String,
    pub uuid: String,
    pub name: String,
    pub attributes: Vec<MispAttribute>,
    pub comment: Option<String>,
    pub timestamp: String,
}

/// MISP tag.
#[derive(Debug, Clone)]
pub struct MispTag {
    pub id: Option<String>,
    pub name: String,
    pub colour: Option<String>,
    /// Local tag indicator (1 for a local tag).
    pub local: Option<i32>,
}

/// MISP organisation.
#[derive(Debug, Clone)]
pub struct MispOrg {
    pub id: String,
    pub name: String,
    pub uuid: Option<String>,
}

/// The MISP attribute types that can become STIX indicators.
pub open spec fn actionable_types_spec() -> Seq<Seq<char>> {
    seq![
        "ip-src"@,
        "ip-dst"@,
        "ip-src|port"@,
        "ip-dst|port"@,
        "domain"@,
        "domain|ip"@,
        "hostname"@,
        "hostname|port"@,
        "url"@,
        "AS"@,
        "mac-address"@,
        "mac-eui-64"@,
        "ja3-fingerprint-md5"@,
        "jarm-fingerprint"@,
        "hassh-md5"@,
        "hasshserver-md5"@,
        "community-id"@,
        "user-agent"@,
        "email-src"@,
        "email-dst"@,
        "email-subject"@,
        "email-src-display-name"@,
        "email-x-mailer"@,
        "md5"@,
        "sha1"@,
        "sha256"@,
        "sha512"@,
        "ssdeep"@,
        "imphash"@,
        "authentihash"@,
        "pehash"@,
        "vhash"@,
        "tlsh"@,
        "cdhash"@,
        "telfhash"@,
        "impfuzzy"@,
        "sha224"@,
        "sha384"@,
        "sha512/224"@,
        "sha512/256"@,
        "sha3-224"@,
        "sha3-256"@,
        "sha3-384"@,
        "sha3-512"@,
        "filename|md5"@,
        "filename|sha1"@,
        "filename|sha256"@,
        "filename|sha512"@,
        "filename|ssdeep"@,
        "filename|imphash"@,
        "filename|authentihash"@,
        "filename|pehash"@,
        "filename|vhash"@,
        "filename|tlsh"@,
        "filename|sha224"@,
        "filename|sha384"@,
        "filename|sha512/224"@,
        "filename|sha512/256"@,
        "filename|sha3-224"@,
        "filename|sha3-256"@,
        "filename|sha3-384"@,
        "filename|sha3-512"@,
        "filename|impfuzzy"@,
        "filename"@,
        "x509-fingerprint-md5"@,
        "x509-fingerprint-sha1"@,
        "x509-fingerprint-sha256"@,
        "mutex"@,
        "regkey"@,
        "regkey|value"@,
        "windows-scheduled-task"@,
        "windows-service-name"@,
        "windows-service-displayname"@,
        "malware-type"@,
        "port"@,
        "size-in-bytes"@,
    ]
}

/// Whether an attribute type is one of the actionable types.
pub fn is_actionable_type(t: &str) -> (r: bool)
    ensures
        r == actionable_types_spec().contains(t@),
{
    let types: [&str; 76] = [
        "ip-src",
        "ip-dst",
        "ip-src|port",
        "ip-dst|port",
        "domain",
        "domain|ip",
        "hostname",
        "hostname|port",
        "url",
        "AS",
        "mac-address",
        "mac-eui-64",
        "ja3-fingerprint-md5",
        "jarm-fingerprint",
        "hassh-md5",
        "hasshserver-md5",
        "community-id",
        "user-agent",
        "email-src",
        "email-dst",
        "email-subject",
        "email-src-display-name",
        "email-x-mailer",
        "md5",
        "sha1",
        "sha256",
        "sha512",
        "ssdeep",
        "imphash",
        "authentihash",
        "pehash",
        "vhash",
        "tlsh",
        "cdhash",
        "telfhash",
        "impfuzzy",
        "sha224",
        "sha384",
        "sha512/224",
        "sha512/256",
        "sha3-224",
        "sha3-256",
        "sha3-384",
        "sha3-512",
        "filename|md5",
        "filename|sha1",
        "filename|sha256",
        "filename|sha512",
        "filename|ssdeep",
        "filename|imphash",
        "filename|authentihash",
        "filename|pehash",
        "filename|vhash",
        "filename|tlsh",
        "filename|sha224",
        "filename|sha384",
        "filename|sha512/224",
        "filename|sha512/256",
        "filename|sha3-224",
        "filename|sha3-256",
        "filename|sha3-384",
        "filename|sha3-512",
        "filename|impfuzzy",
        "filename",
        "x509-fingerprint-md5",
        "x509-fingerprint-sha1",
        "x509-fingerprint-sha256",
        "mutex",
        "regkey",
        "regkey|value",
        "windows-scheduled-task",
        "windows-service-name",
        "windows-service-displayname",
        "malware-type",
        "port",
        "size-in-bytes",
    ];
    let ghost spec_list = actionable_types_spec();
    proof {
        assert(types@.map_values(|s: &str| s@) =~= spec_list);
    }
    let mut i: usize = 0;
    while i < 76
        invariant
            i <= 76,
            types@.len() == 76,
            spec_list == actionable_types_spec(),
            types@.map_values(|s: &str| s@) == spec_list,
            forall|k: int| 0 <= k < i ==> spec_list[k] != t@,
        decreases 76 - i,
    {
        assert(types@.map_values(|s: &str| s@)[i as int] == types@[i as int]@);
        if str_eq(types[i], t) {
            assert(spec_list[i as int] == t@);
            return true;
        }
        i = i + 1;
    }
    false
}

/// The hash name MISP attribute types carry.
pub open spec fn hash_type_for(t: Seq<char>) -> Option<Seq<char>> {
    if t == "md5"@ {
        Some("MD5"@)
    } else if t == "filename|md5"@ {
        Some("MD5"@)
    } else if t == "sha1"@ {
        Some("SHA-1"@)
    } else if t == "filename|sha1"@ {
        Some("SHA-1"@)
    } else if t == "sha256"@ {
        Some("SHA-256"@)
    } else if t == "filename|sha256"@ {
        Some("SHA-256"@)
    } else if t == "sha512"@ {
        Some("SHA-512"@)
    } else if t == "filename|sha512"@ {
        Some("SHA-512"@)
    } else if t == "ssdeep"@ {
        Some("SSDEEP"@)
    } else if t == "filename|ssdeep"@ {
        Some("SSDEEP"@)
    } else if t == "imphash"@ {
        Some("IMPHASH"@)
    } else if t == "filename|imphash"@ {
        Some("IMPHASH"@)
    } else if t == "authentihash"@ {
        Some("AUTHENTIHASH"@)
    } else if t == "filename|authentihash"@ {
        Some("AUTHENTIHASH"@)
    } else if t == "pehash"@ {
        Some("PEHASH"@)
    } else if t == "filename|pehash"@ {
        Some("PEHASH"@)
    } else if t == "vhash"@ {
        Some("VHASH"@)
    } else if t == "filename|vhash"@ {
        Some("VHASH"@)
    } else if t == "tlsh"@ {
        Some("TLSH"@)
    } else if t == "filename|tlsh"@ {
        Some("TLSH"@)
    } else if t == "cdhash"@ {
        Some("CDHASH"@)
    } else if t == "telfhash"@ {
        Some("TELFHASH"@)
    } else if t == "impfuzzy"@ {
        Some("IMPFUZZY"@)
    } else if t == "filename|impfuzzy"@ {
        Some("IMPFUZZY"@)
    } else if t == "sha224"@ {
        Some("SHA-224"@)
    } else if t == "filename|sha224"@ {
        Some("SHA-224"@)
    } else if t == "sha384"@ {
        Some("SHA-384"@)
    } else if t == "filename|sha384"@ {
        Some("SHA-384"@)
    } else if t == "sha512/224"@ {
        Some("SHA-512/224"@)
    } else if t == "filename|sha512/224"@ {
        Some("SHA-512/224"@)
    } else if t == "sha512/256"@ {
        Some("SHA-512/256"@)
    } else if t == "filename|sha512/256"@ {
        Some("SHA-512/256"@)
    } else if t == "sha3-224"@ {
        Some("SHA3-224"@)
    } else if t == "filename|sha3-224"@ {
        Some("SHA3-224"@)
    } else if t == "sha3-256"@ {
        Some("SHA3-256"@)
    } else if t == "filename|sha3-256"@ {
        Some("SHA3-256"@)
    } else if t == "sha3-384"@ {
        Some("SHA3-384"@)
    } else if t == "filename|sha3-384"@ {
        Some("SHA3-384"@)
    } else if t == "sha3-512"@ {
        Some("SHA3-512"@)
    } else if t == "filename|sha3-512"@ {
        Some("SHA3-512"@)
    } else if t == "x509-fingerprint-md5"@ {
        Some("MD5"@)
    } else if t == "x509-fingerprint-sha1"@ {
        Some("SHA-1"@)
    } else if t == "x509-fingerprint-sha256"@ {
        Some("SHA-256"@)
    } else if t == "ja3-fingerprint-md5"@ {
        Some("JA3"@)
    } else if t == "jarm-fingerprint"@ {
        Some("JARM"@)
    } else if t == "hassh-md5"@ {
        Some("HASSH"@)
    } else if t == "hasshserver-md5"@ {
        Some("HASSHSERVER"@)
    } else {
        None
    }
}

/// The hash name of an attribute type, if it names a hash.
pub fn hash_type_of(t: &str) -> (r: Option<&'static str>)
    ensures
        r.deep_view() == hash_type_for(t@),
{
    if str_eq(t, "md5") {
        Some("MD5")
    } else if str_eq(t, "filename|md5") {
        Some("MD5")
    } else if str_eq(t, "sha1") {
        Some("SHA-1")
    } else if str_eq(t, "filename|sha1") {
        Some("SHA-1")
    } else if str_eq(t, "sha256") {
        Some("SHA-256")
    } else if str_eq(t, "filename|sha256") {
        Some("SHA-256")
    } else if str_eq(t, "sha512") {
        Some("SHA-512")
    } else if str_eq(t, "filename|sha512") {
        Some("SHA-512")
    } else if str_eq(t, "ssdeep") {
        Some("SSDEEP")
    } else if str_eq(t, "filename|ssdeep") {
        Some("SSDEEP")
    } else if str_eq(t, "imphash") {
        Some("IMPHASH")
    } else if str_eq(t, "filename|imphash") {
        Some("IMPHASH")
    } else if str_eq(t, "authentihash") {
        Some("AUTHENTIHASH")
    } else if str_eq(t, "filename|authentihash") {
        Some("AUTHENTIHASH")
    } else if str_eq(t, "pehash") {
        Some("PEHASH")
    } else if str_eq(t, "filename|pehash") {
        Some("PEHASH")
    } else if str_eq(t, "vhash") {
        Some("VHASH")
    } else if str_eq(t, "filename|vhash") {
        Some("VHASH")
    } else if str_eq(t, "tlsh") {
        Some("TLSH")
    } else if str_eq(t, "filename|tlsh") {
        Some("TLSH")
    } else if str_eq(t, "cdhash") {
        Some("CDHASH")
    } else if str_eq(t, "telfhash") {
        Some("TELFHASH")
    } else if str_eq(t, "impfuzzy") {
        Some("IMPFUZZY")
    } else if str_eq(t, "filename|impfuzzy") {
        Some("IMPFUZZY")
    } else if str_eq(t, "sha224") {
        Some("SHA-224")
    } else if str_eq(t, "filename|sha224") {
        Some("SHA-224")
    } else if str_eq(t, "sha384") {
        Some("SHA-384")
    } else if str_eq(t, "filename|sha384") {
        Some("SHA-384")
    } else if str_eq(t, "sha512/224") {
        Some("SHA-512/224")
    } else if str_eq(t, "filename|sha512/224") {
        Some("SHA-512/224")
    } else if str_eq(t, "sha512/256") {
        Some("SHA-512/256")
    } else if str_eq(t, "filename|sha512/256") {
        Some("SHA-512/256")
    } else if str_eq(t, "sha3-224") {
        Some("SHA3-224")
    } else if str_eq(t, "filename|sha3-224") {
        Some("SHA3-224")
    } else if str_eq(t, "sha3-256") {
        Some("SHA3-256")
    } else if str_eq(t, "filename|sha3-256") {
        Some("SHA3-256")
    } else if str_eq(t, "sha3-384") {
        Some("SHA3-384")
    } else if str_eq(t, "filename|sha3-384") {
        Some("SHA3-384")
    } else if str_eq(t, "sha3-512") {
        Some("SHA3-512")
    } else if str_eq(t, "filename|sha3-512") {
        Some("SHA3-512")
    } else if str_eq(t, "x509-fingerprint-md5") {
        Some("MD5")
    } else if str_eq(t, "x509-fingerprint-sha1") {
        Some("SHA-1")
    } else if str_eq(t, "x509-fingerprint-sha256") {
        Some("SHA-256")
    } else if str_eq(t, "ja3-fingerprint-md5") {
        Some("JA3")
    } else if str_eq(t, "jarm-fingerprint") {
        Some("JARM")
    } else if str_eq(t, "hassh-md5") {
        Some("HASSH")
    } else if str_eq(t, "hasshserver-md5") {
        Some("HASSHSERVER")
    } else {
        None
    }
}

/// The observable type an attribute type maps to.
pub open spec fn observable_type_for(t: Seq<char>) -> Option<ObservableType> {
    if t == "ip-src"@ || t == "ip-dst"@ {
        Some(ObservableType::IPv4Addr)
    } else if t == "domain"@ || t == "hostname"@ {
        Some(ObservableType::DomainName)
    } else if t == "url"@ {
        Some(ObservableType::Url)
    } else if t == "email-src"@ || t == "email-dst"@ {
        Some(ObservableType::EmailAddr)
    } else if t == "md5"@ || t == "sha1"@ || t == "sha256"@ || t == "sha512"@ || t == "ssdeep"@
        || t == "imphash"@ || t == "filename|md5"@ || t == "filename|sha1"@ || t
        == "filename|sha256"@ || t == "filename|sha512"@ || t == "filename|ssdeep"@ || t
        == "filename|imphash"@ {
        Some(ObservableType::File)
    } else if t == "regkey"@ || t == "regkey|value"@ {
        Some(ObservableType::WindowsRegistryKey)
    } else {
        None
    }
}

/// The observable type of an attribute type.
pub fn observable_type_of(t: &str) -> (r: Option<ObservableType>)
    ensures
        r == observable_type_for(t@),
{
    if str_eq(t, "ip-src") || str_eq(t, "ip-dst") {
        Some(ObservableType::IPv4Addr)
    } else if str_eq(t, "domain") || str_eq(t, "hostname") {
        Some(ObservableType::DomainName)
    } else if str_eq(t, "url") {
        Some(ObservableType::Url)
    } else if str_eq(t, "email-src") || str_eq(t, "email-dst") {
        Some(ObservableType::EmailAddr)
    } else if str_eq(t, "md5") || str_eq(t, "sha1") || str_eq(t, "sha256") || str_eq(t, "sha512")
        || str_eq(t, "ssdeep") || str_eq(t, "imphash") || str_eq(t, "filename|md5") || str_eq(
        t,
        "filename|sha1",
    ) || str_eq(t, "filename|sha256") || str_eq(t, "filename|sha512") || str_eq(
        t,
        "filename|ssdeep",
    ) || str_eq(t, "filename|imphash") {
        Some(ObservableType::File)
    } else if str_eq(t, "regkey") || str_eq(t, "regkey|value") {
        Some(ObservableType::WindowsRegistryKey)
    } else {
        None
    }
}

/// The hash value of an attribute: the part after the last `|` for composite types.
pub open spec fn hash_value_for(t: Seq<char>, v: Seq<char>) -> Seq<char> {
    if t.contains('|') {
        split_fields(v, '|').last()
    } else {
        v
    }
}

/// The attribute is flagged for detection and of an actionable type.
pub open spec fn attr_is_actionable(a: MispAttribute) -> bool {
    a.to_ids && actionable_types_spec().contains(a.attr_type@)
}

/// The actionable attributes of a list, in order.
pub open spec fn actionable_in(attrs: Seq<MispAttribute>) -> Seq<MispAttribute>
    decreases attrs.len(),
{
    if attrs.len() == 0 {
        Seq::<MispAttribute>::empty()
    } else {
        let prev = actionable_in(attrs.drop_last());
        if attr_is_actionable(attrs.last()) {
            prev.push(attrs.last())
        } else {
            prev
        }
    }
}

/// The actionable attributes of a list of objects, object by object.
pub open spec fn actionable_in_objects(objs: Seq<MispObject>) -> Seq<MispAttribute>
    decreases objs.len(),
{
    if objs.len() == 0 {
        Seq::<MispAttribute>::empty()
    } else {
        actionable_in_objects(objs.drop_last()) + actionable_in(objs.last().attributes@)
    }
}

/// The actionable attributes of an event: its own, then those of its objects.
pub open spec fn event_actionable(e: MispEvent) -> Seq<MispAttribute> {
    actionable_in(e.attributes@) + actionable_in_objects(e.objects@)
}

/// The first tag whose lower-cased name, given alongside in `lowered`, starts with `p`.
pub open spec fn first_tag_lowered(tags: Seq<MispTag>, lowered: Seq<Seq<char>>, p: Seq<char>) -> Option<
    MispTag,
>
    decreases tags.len(),
{
    if tags.len() == 0 || lowered.len() == 0 {
        None
    } else if is_prefix(p, lowered[0]) {
        Some(tags[0])
    } else {
        first_tag_lowered(tags.drop_first(), lowered.drop_first(), p)
    }
}

/// The lower-cased names of tags.
pub open spec fn lowered_names(tags: Seq<MispTag>) -> Seq<Seq<char>> {
    tags.map_values(|t: MispTag| spec_to_lowercase(t.name@))
}

/// The TLP tag name among tags with the given lower-cased names: the name of
/// the first whose lower-cased name starts with `tlp:`.
pub open spec fn tlp_name_lowered(tags: Seq<MispTag>, lowered: Seq<Seq<char>>) -> Option<Seq<char>> {
    match first_tag_lowered(tags, lowered, "tlp:"@) {
        Some(t) => Some(t.name@),
        None => None,
    }
}

/// The threat type among tags with the given lower-cased names: the second
/// `:`-separated field of the first whose lower-cased name starts with
/// `sentinel-threattype:`.
pub open spec fn threat_type_lowered(tags: Seq<MispTag>, lowered: Seq<Seq<char>>) -> Option<Seq<char>> {
    match first_tag_lowered(tags, lowered, "sentinel-threattype:"@) {
        Some(t) => {
            let f = split_fields(t.name@, ':');
            if f.len() > 1 {
                Some(f[1])
            } else {
                None
            }
        },
        None => None,
    }
}

/// The name of the first tag whose lower-cased name starts with `tlp:`.
pub open spec fn tlp_tag_name(tags: Seq<MispTag>) -> Option<Seq<char>> {
    tlp_name_lowered(tags, lowered_names(tags))
}

/// The threat type named by the first `sentinel-threattype:` tag (matched
/// case-insensitively): the second `:`-separated field of its name.
pub open spec fn threat_type_from_tags(tags: Seq<MispTag>) -> Option<Seq<char>> {
    threat_type_lowered(tags, lowered_names(tags))
}

/// A tag becomes a label unless it is local (when local tags are ignored) or
/// an internal MISP, TLP or Sentinel tag.
pub open spec fn tag_is_label(tag: MispTag, ignore_local: bool) -> bool {
    let name = tag.name@;
    &&& !(ignore_local && tag.local == Some(1i32))
    &&& !is_prefix("misp-galaxy:"@, name)
    &&& !is_prefix("misp:"@, name)
    &&& !contains_seq(name, "Threat-Report"@)
    &&& !is_prefix("tlp:"@, name)
    &&& !is_prefix("sentinel-"@, name)
}

/// The names of the tags that become labels, in order.
pub open spec fn labels_of(tags: Seq<MispTag>, ignore_local: bool) -> Seq<Seq<char>>
    decreases tags.len(),
{
    if tags.len() == 0 {
        Seq::<Seq<char>>::empty()
    } else {
        let prev = labels_of(tags.drop_last(), ignore_local);
        if tag_is_label(tags.last(), ignore_local) {
            prev.push(tags.last().name@)
        } else {
            prev
        }
    }
}

impl MispAttribute {
    /// Check if this attribute is actionable for threat intelligence.
    pub fn is_actionable(&self) -> (r: bool)
        ensures
            r == attr_is_actionable(*self),
    {
        self.to_ids && is_actionable_type(self.attr_type.as_str())
    }

    /// Get the observable type for STIX pattern generation.
    pub fn get_observable_type(&self) -> (r: Option<ObservableType>)
        ensures
            r == observable_type_for(self.attr_type@),
    {
        observable_type_of(self.attr_type.as_str())
    }

    /// Extract the hash type from the attribute type.
    pub fn get_hash_type(&self) -> (r: Option<&'static str>)
        ensures
            r.deep_view() == hash_type_for(self.attr_type@),
    {
        hash_type_of(self.attr_type.as_str())
    }

    /// Extract the hash value from composite types.
    pub fn get_hash_value(&self) -> (r: &str)
        ensures
            r@ == hash_value_for(self.attr_type@, self.value@),
    {
        if contains_char(self.attr_type.as_str(), '|') {
            after_last(self.value.as_str(), '|')
        } else {
            self.value.as_str()
        }
    }
}

/// Append the actionable attributes of `attrs` to `out`.
fn collect_actionable<'a>(attrs: &'a Vec<MispAttribute>, out: &mut Vec<&'a MispAttribute>)
    ensures
        final(out)@.map_values(|a: &MispAttribute| *a) == old(out)@.map_values(
            |a: &MispAttribute| *a,
        ) + actionable_in(attrs@),
{
    let ghost start = out@.map_values(|a: &MispAttribute| *a);
    let mut i: usize = 0;
    proof {
        assert(attrs@.take(0) =~= Seq::<MispAttribute>::empty());
        assert(start + actionable_in(attrs@.take(0)) =~= start);
    }
    while i < attrs.len()
        invariant
            i <= attrs.len(),
            out@.map_values(|a: &MispAttribute| *a) == start + actionable_in(
                attrs@.take(i as int),
            ),
        decreases attrs.len() - i,
    {
        proof {
            assert(attrs@.take(i + 1).drop_last() =~= attrs@.take(i as int));
            assert(attrs@.take(i + 1).last() == attrs@[i as int]);
        }
        let a = &attrs[i];
        if a.is_actionable() {
            let ghost before = out@.map_values(|x: &MispAttribute| *x);
            out.push(a);
            proof {
                assert(out@.map_values(|x: &MispAttribute| *x) =~= before.push(*a));
            }
        }
        i = i + 1;
    }
    proof {
        assert(attrs@.take(attrs.len() as int) =~= attrs@);
    }
}

impl MispEvent {
    /// All actionable attributes of the event, including those inside objects.
    pub fn get_actionable_attributes(&self) -> (r: Vec<&MispAttribute>)
        ensures
            r@.map_values(|a: &MispAttribute| *a) == event_actionable(*self),
    {
        let mut out: Vec<&MispAttribute> = Vec::new();
        proof {
            assert(out@.map_values(|a: &MispAttribute| *a) =~= Seq::<MispAttribute>::empty());
        }
        collect_actionable(&self.attributes, &mut out);
        let mut j: usize = 0;
        proof {
            assert(self.objects@.take(0) =~= Seq::<MispObject>::empty());
            assert(actionable_in(self.attributes@) + actionable_in_objects(self.objects@.take(0))
                =~= actionable_in(self.attributes@));
        }
        while j < self.objects.len()
            invariant
                j <= self.objects.len(),
                out@.map_values(|a: &MispAttribute| *a) == actionable_in(self.attributes@)
                    + actionable_in_objects(self.objects@.take(j as int)),
            decreases self.objects.len() - j,
        {
            proof {
                assert(self.objects@.take(j + 1).drop_last() =~= self.objects@.take(j as int));
                assert(self.objects@.take(j + 1).last() == self.objects@[j as int]);
            }
            collect_actionable(&self.objects[j].attributes, &mut out);
            proof {
                let a = actionable_in(self.attributes@);
                let b = actionable_in_objects(self.objects@.take(j as int));
                let c = actionable_in(self.objects@[j as int].attributes@);
                assert(a + b + c =~= a + (b + c));
            }
            j = j + 1;
        }
        proof {
            assert(self.objects@.take(self.objects.len() as int) =~= self.objects@);
        }
        out
    }

    /// The name of the event's TLP tag, if any.
    pub fn get_tlp(&self) -> (r: Option<&str>)
        ensures
            r.deep_view() == tlp_tag_name(self.tags@),
    {
        let lowered = lowercase_names(&self.tags);
        tlp_name_of_lowered(&self.tags, &lowered)
    }

    /// The threat type named by the event's `sentinel-threattype:` tag, if any.
    pub fn get_threat_type(&self) -> (r: Option<String>)
        ensures
            r.deep_view() == threat_type_from_tags(self.tags@),
    {
        let lowered = lowercase_names(&self.tags);
        threat_type_of_lowered(&self.tags, &lowered)
    }

    /// The event's tags that become labels, excluding internal MISP tags.
    pub fn get_labels(&self, ignore_local: bool) -> (r: Vec<String>)
        ensures
            r.deep_view() == labels_of(self.tags@, ignore_local),
    {
        let mut out: Vec<String> = Vec::new();
        let mut i: usize = 0;
        proof {
            assert(self.tags@.take(0) =~= Seq::<MispTag>::empty());
        }
        while i < self.tags.len()
            invariant
                i <= self.tags.len(),
                out.deep_view() == labels_of(self.tags@.take(i as int), ignore_local),
            decreases self.tags.len() - i,
        {
            let tag = &self.tags[i];
            proof {
                assert(self.tags@.take(i + 1).drop_last() =~= self.tags@.take(i as int));
                assert(self.tags@.take(i + 1).last() == self.tags@[i as int]);
            }
            let name = tag.name.as_str();
            let is_local = match tag.local {
                Some(v) => v == 1,
                None => false,
            };
            let keep = !(ignore_local && is_local) && !starts_with(name, "misp-galaxy:")
                && !starts_with(name, "misp:") && !contains_str(name, "Threat-Report")
                && !starts_with(name, "tlp:") && !starts_with(name, "sentinel-");
            if keep {
                let ghost before = out.deep_view();
                out.push(tag.name.clone());
                proof {
                    assert(out.deep_view() =~= before.push(tag.name@));
                }
            }
            i = i + 1;
        }
        proof {
            assert(self.tags@.take(self.tags.len() as int) =~= self.tags@);
        }
        out
    }
}

/// The lower-cased names of tags.
fn lowercase_names(tags: &Vec<MispTag>) -> (r: Vec<String>)
    ensures
        r.deep_view() == lowered_names(tags@),
        r@.len() == tags@.len(),
{
    let mut r: Vec<String> = Vec::new();
    let mut i: usize = 0;
    while i < tags.len()
        invariant
            i <= tags.len(),
            r@.len() == i,
            forall|k: int| 0 <= k < i ==> #[trigger] r@[k]@ == spec_to_lowercase(tags@[k].name@),
        decreases tags.len() - i,
    {
        r.push(str_to_lowercase(tags[i].name.as_str()));
        i = i + 1;
    }
    assert(r.deep_view() =~= lowered_names(tags@));
    r
}

/// Where the first tag whose lower-cased name starts with `p` stands.
fn find_lowered_prefix(tags: &Vec<MispTag>, lowered: &Vec<String>, p: &str) -> (r: Option<usize>)
    requires
        tags@.len() == lowered@.len(),
    ensures
        match r {
            Some(i) => i < tags@.len() && first_tag_lowered(tags@, lowered.deep_view(), p@) == Some(
                tags@[i as int],
            ),
            None => first_tag_lowered(tags@, lowered.deep_view(), p@) is None,
        },
{
    let n = tags.len();
    let ghost lw = lowered.deep_view();
    let mut i: usize = 0;
    proof {
        assert(tags@.subrange(0, n as int) =~= tags@);
        assert(lw.subrange(0, n as int) =~= lw);
    }
    while i < n
        invariant
            n == tags@.len(),
            n == lowered@.len(),
            lw == lowered.deep_view(),
            i <= n,
            first_tag_lowered(tags@, lw, p@) == first_tag_lowered(
                tags@.subrange(i as int, n as int),
                lw.subrange(i as int, n as int),
                p@,
            ),
        decreases n - i,
    {
        proof {
            let t = tags@.subrange(i as int, n as int);
            let l = lw.subrange(i as int, n as int);
            assert(t[0] == tags@[i as int]);
            assert(l[0] == lowered@[i as int]@);
            assert(t.drop_first() =~= tags@.subrange(i + 1, n as int));
            assert(l.drop_first() =~= lw.subrange(i + 1, n as int));
        }
        if starts_with(lowered[i].as_str(), p) {
            return Some(i);
        }
        i = i + 1;
    }
    None
}

/// The TLP tag name, given the tags' lower-cased names.
pub fn tlp_name_of_lowered<'a>(tags: &'a Vec<MispTag>, lowered: &Vec<String>) -> (r: Option<&'a str>)
    requires
        tags@.len() == lowered@.len(),
    ensures
        r.deep_view() == tlp_name_lowered(tags@, lowered.deep_view()),
{
    match find_lowered_prefix(tags, lowered, "tlp:") {
        Some(i) => Some(tags[i].name.as_str()),
        None => None,
    }
}

/// The threat type, given the tags' lower-cased names.
pub fn threat_type_of_lowered(tags: &Vec<MispTag>, lowered: &Vec<String>) -> (r: Option<String>)
    requires
        tags@.len() == lowered@.len(),
    ensures
        r.deep_view() == threat_type_lowered(tags@, lowered.deep_view()),
{
    match find_lowered_prefix(tags, lowered, "sentinel-threattype:") {
        Some(i) => second_field(tags[i].name.as_str(), ':'),
        None => None,
    }
}

// ---------------------------------------------------------------------------
// Labels with and without local tags
// ---------------------------------------------------------------------------

/// The tags that are not local, in order.
pub open spec fn non_local(tags: Seq<MispTag>) -> Seq<MispTag>
    decreases tags.len(),
{
    if tags.len() == 0 {
        Seq::<MispTag>::empty()
    } else if tags.last().local == Some(1i32) {
        non_local(tags.drop_last())
    } else {
        non_local(tags.drop_last()).push(tags.last())
    }
}

/// `a` is a subsequence of `b`: `b` with some items left out.
pub open spec fn is_subsequence(a: Seq<Seq<char>>, b: Seq<Seq<char>>) -> bool
    decreases b.len(),
{
    if a.len() == 0 {
        true
    } else if b.len() == 0 {
        false
    } else if a.last() == b.last() {
        is_subsequence(a.drop_last(), b.drop_last())
    } else {
        is_subsequence(a, b.drop_last())
    }
}

proof fn lemma_subsequence_drop(a: Seq<Seq<char>>, b: Seq<Seq<char>>)
    requires
        is_subsequence(a, b),
        a.len() > 0,
    ensures
        is_subsequence(a.drop_last(), b),
    decreases b.len(), 0int,
{
    if b.len() > 0 {
        if a.last() == b.last() {
            lemma_subsequence_extend(a.drop_last(), b.drop_last(), b.last());
        } else {
            lemma_subsequence_drop(a, b.drop_last());
            lemma_subsequence_extend(a.drop_last(), b.drop_last(), b.last());
        }
        assert(b.drop_last().push(b.last()) =~= b);
    }
}

proof fn lemma_subsequence_extend(a: Seq<Seq<char>>, b: Seq<Seq<char>>, x: Seq<char>)
    requires
        is_subsequence(a, b),
    ensures
        is_subsequence(a, b.push(x)),
    decreases b.len(), 1int,
{
    assert(b.push(x).drop_last() =~= b);
    if a.len() > 0 && a.last() == x {
        lemma_subsequence_drop(a, b);
    }
}

/// Labels without local tags are the labels of the non-local tags, and they
/// are the labels with local tags with some left out.
pub proof fn lemma_labels_without_local(tags: Seq<MispTag>)
    ensures
        labels_of(tags, true) == labels_of(non_local(tags), false),
        is_subsequence(labels_of(tags, true), labels_of(tags, false)),
    decreases tags.len(),
{
    if tags.len() > 0 {
        let p = tags.drop_last();
        let t = tags.last();
        lemma_labels_without_local(p);
        let nl = non_local(p);
        if t.local != Some(1i32) {
            assert(nl.push(t).drop_last() =~= nl);
            assert(nl.push(t).last() == t);
        }
        let a = labels_of(p, true);
        let b = labels_of(p, false);
        if tag_is_label(t, true) {
            assert(a.push(t.name@).drop_last() =~= a);
            assert(b.push(t.name@).drop_last() =~= b);
        } else if tag_is_label(t, false) {
            lemma_subsequence_extend(a, b, t.name@);
        }
    }
}

/// The hash types that MISP also pairs with a file name (`filename|<hash>`).
pub open spec fn filename_paired_hash_types() -> Seq<Seq<char>> {
    seq![
        "md5"@,
        "sha1"@,
        "sha256"@,
        "sha512"@,
        "ssdeep"@,
        "imphash"@,
        "authentihash"@,
        "pehash"@,
        "vhash"@,
        "tlsh"@,
        "impfuzzy"@,
        "sha224"@,
        "sha384"@,
        "sha512/224"@,
        "sha512/256"@,
        "sha3-224"@,
        "sha3-256"@,
        "sha3-384"@,
        "sha3-512"@,
    ]
}

/// A `filename|<hash>` attribute names the same hash as the bare `<hash>`
/// type, and each of those bare types names a hash.
#[verifier::rlimit(100)]
pub proof fn lemma_filename_pair_hash_type(t: Seq<char>)
    requires
        filename_paired_hash_types().contains(t),
    ensures
        hash_type_for(t) is Some,
        hash_type_for("filename|"@ + t) == hash_type_for(t),
{
    reveal_strlit("filename|");
    reveal_strlit("md5");
    reveal_strlit("MD5");
    reveal_strlit("filename|md5");
    reveal_strlit("sha1");
    reveal_strlit("SHA-1");
    reveal_strlit("filename|sha1");
    reveal_strlit("sha256");
    reveal_strlit("SHA-256");
    reveal_strlit("filename|sha256");
    reveal_strlit("sha512");
    reveal_strlit("SHA-512");
    reveal_strlit("filename|sha512");
    reveal_strlit("ssdeep");
    reveal_strlit("SSDEEP");
    reveal_strlit("filename|ssdeep");
    reveal_strlit("imphash");
    reveal_strlit("IMPHASH");
    reveal_strlit("filename|imphash");
    reveal_strlit("authentihash");
    reveal_strlit("AUTHENTIHASH");
    reveal_strlit("filename|authentihash");
    reveal_strlit("pehash");
    reveal_strlit("PEHASH");
    reveal_strlit("filename|pehash");
    reveal_strlit("vhash");
    reveal_strlit("VHASH");
    reveal_strlit("filename|vhash");
    reveal_strlit("tlsh");
    reveal_strlit("TLSH");
    reveal_strlit("filename|tlsh");
    reveal_strlit("cdhash");
    reveal_strlit("CDHASH");
    reveal_strlit("telfhash");
    reveal_strlit("TELFHASH");
    reveal_strlit("impfuzzy");
    reveal_strlit("IMPFUZZY");
    reveal_strlit("filename|impfuzzy");
    reveal_strlit("sha224");
    reveal_strlit("SHA-224");
    reveal_strlit("filename|sha224");
    reveal_strlit("sha384");
    reveal_strlit("SHA-384");
    reveal_strlit("filename|sha384");
    reveal_strlit("sha512/224");
    reveal_strlit("SHA-512/224");
    reveal_strlit("filename|sha512/224");
    reveal_strlit("sha512/256");
    reveal_strlit("SHA-512/256");
    reveal_strlit("filename|sha512/256");
    reveal_strlit("sha3-224");
    reveal_strlit("SHA3-224");
    reveal_strlit("filename|sha3-224");
    reveal_strlit("sha3-256");
    reveal_strlit("SHA3-256");
    reveal_strlit("filename|sha3-256");
    reveal_strlit("sha3-384");
    reveal_strlit("SHA3-384");
    reveal_strlit("filename|sha3-384");
    reveal_strlit("sha3-512");
    reveal_strlit("SHA3-512");
    reveal_strlit("filename|sha3-512");
    reveal_strlit("x509-fingerprint-md5");
    reveal_strlit("x509-fingerprint-sha1");
    reveal_strlit("x509-fingerprint-sha256");
    reveal_strlit("ja3-fingerprint-md5");
    reveal_strlit("JA3");
    reveal_strlit("jarm-fingerprint");
    reveal_strlit("JARM");
    reveal_strlit("hassh-md5");
    reveal_strlit("HASSH");
    reveal_strlit("hasshserver-md5");
    reveal_strlit("HASSHSERVER");
    let i = choose|i: int| 0 <= i < filename_paired_hash_types().len() && filename_paired_hash_types()[i] == t;
    if t == "md5"@ {
        assert("filename|"@ + t =~= "filename|md5"@);
    }
    if t == "sha1"@ {
        assert("filename|"@ + t =~= "filename|sha1"@);
    }
    if t == "sha256"@ {
        assert("filename|"@ + t =~= "filename|sha256"@);
    }
    if t == "sha512"@ {
        assert("filename|"@ + t =~= "filename|sha512"@);
        assert("sha512"@[3] != "sha256"@[3]);
        assert("filename|sha512"@[12] != "filename|sha256"@[12]);
    }
    if t == "ssdeep"@ {
        assert("filename|"@ + t =~= "filename|ssdeep"@);
        assert("ssdeep"@[1] != "sha256"@[1]);
        assert("ssdeep"@[1] != "sha512"@[1]);
        assert("filename|ssdeep"@[10] != "filename|sha256"@[10]);
        assert("filename|ssdeep"@[10] != "filename|sha512"@[10]);
    }
    if t == "imphash"@ {
        assert("filename|"@ + t =~= "filename|imphash"@);
    }
    if t == "authentihash"@ {
        assert("filename|"@ + t =~= "filename|authentihash"@);
        assert("authentihash"@[0] != "filename|md5"@[0]);
    }
    if t == "pehash"@ {
        assert("filename|"@ + t =~= "filename|pehash"@);
        assert("pehash"@[0] != "sha256"@[0]);
        assert("pehash"@[0] != "sha512"@[0]);
        assert("pehash"@[0] != "ssdeep"@[0]);
        assert("filename|pehash"@[9] != "filename|sha256"@[9]);
        assert("filename|pehash"@[9] != "filename|sha512"@[9]);
        assert("filename|pehash"@[9] != "filename|ssdeep"@[9]);
    }
    if t == "vhash"@ {
        assert("filename|"@ + t =~= "filename|vhash"@);
    }
    if t == "tlsh"@ {
        assert("filename|"@ + t =~= "filename|tlsh"@);
        assert("tlsh"@[0] != "sha1"@[0]);
        assert("filename|tlsh"@[9] != "filename|sha1"@[9]);
    }
    if t == "impfuzzy"@ {
        assert("filename|"@ + t =~= "filename|impfuzzy"@);
        assert("impfuzzy"@[0] != "telfhash"@[0]);
    }
    if t == "sha224"@ {
        assert("filename|"@ + t =~= "filename|sha224"@);
        assert("sha224"@[4] != "sha256"@[4]);
        assert("sha224"@[3] != "sha512"@[3]);
        assert("sha224"@[1] != "ssdeep"@[1]);
        assert("sha224"@[0] != "pehash"@[0]);
        assert("sha224"@[0] != "cdhash"@[0]);
        assert("filename|sha224"@[13] != "filename|sha256"@[13]);
        assert("filename|sha224"@[12] != "filename|sha512"@[12]);
        assert("filename|sha224"@[10] != "filename|ssdeep"@[10]);
        assert("filename|sha224"@[9] != "filename|pehash"@[9]);
    }
    if t == "sha384"@ {
        assert("filename|"@ + t =~= "filename|sha384"@);
        assert("sha384"@[3] != "sha256"@[3]);
        assert("sha384"@[3] != "sha512"@[3]);
        assert("sha384"@[1] != "ssdeep"@[1]);
        assert("sha384"@[0] != "pehash"@[0]);
        assert("sha384"@[0] != "cdhash"@[0]);
        assert("sha384"@[3] != "sha224"@[3]);
        assert("filename|sha384"@[12] != "filename|sha256"@[12]);
        assert("filename|sha384"@[12] != "filename|sha512"@[12]);
        assert("filename|sha384"@[10] != "filename|ssdeep"@[10]);
        assert("filename|sha384"@[9] != "filename|pehash"@[9]);
        assert("filename|sha384"@[12] != "filename|sha224"@[12]);
    }
    if t == "sha512/224"@ {
        assert("filename|"@ + t =~= "filename|sha512/224"@);
    }
    if t == "sha512/256"@ {
        assert("filename|"@ + t =~= "filename|sha512/256"@);
        assert("sha512/256"@[8] != "sha512/224"@[8]);
        assert("filename|sha512/256"@[17] != "filename|sha512/224"@[17]);
    }
    if t == "sha3-224"@ {
        assert("filename|"@ + t =~= "filename|sha3-224"@);
        assert("sha3-224"@[0] != "telfhash"@[0]);
        assert("sha3-224"@[0] != "impfuzzy"@[0]);
        assert("filename|sha3-224"@[9] != "filename|impfuzzy"@[9]);
    }
    if t == "sha3-256"@ {
        assert("filename|"@ + t =~= "filename|sha3-256"@);
        assert("sha3-256"@[0] != "telfhash"@[0]);
        assert("sha3-256"@[0] != "impfuzzy"@[0]);
        assert("sha3-256"@[6] != "sha3-224"@[6]);
        assert("filename|sha3-256"@[9] != "filename|impfuzzy"@[9]);
        assert("filename|sha3-256"@[15] != "filename|sha3-224"@[15]);
    }
    if t == "sha3-384"@ {
        assert("filename|"@ + t =~= "filename|sha3-384"@);
        assert("sha3-384"@[0] != "telfhash"@[0]);
        assert("sha3-384"@[0] != "impfuzzy"@[0]);
        assert("sha3-384"@[5] != "sha3-224"@[5]);
        assert("sha3-384"@[5] != "sha3-256"@[5]);
        assert("filename|sha3-384"@[9] != "filename|impfuzzy"@[9]);
        assert("filename|sha3-384"@[14] != "filename|sha3-224"@[14]);
        assert("filename|sha3-384"@[14] != "filename|sha3-256"@[14]);
    }
    if t == "sha3-512"@ {
        assert("filename|"@ + t =~= "filename|sha3-512"@);
        assert("sha3-512"@[0] != "telfhash"@[0]);
        assert("sha3-512"@[0] != "impfuzzy"@[0]);
        assert("sha3-512"@[5] != "sha3-224"@[5]);
        assert("sha3-512"@[5] != "sha3-256"@[5]);
        assert("sha3-512"@[5] != "sha3-384"@[5]);
        assert("filename|sha3-512"@[9] != "filename|impfuzzy"@[9]);
        assert("filename|sha3-512"@[14] != "filename|sha3-224"@[14]);
        assert("filename|sha3-512"@[14] != "filename|sha3-256"@[14]);
        assert("filename|sha3-512"@[14] != "filename|sha3-384"@[14]);
    }
}


/// The hash names that attribute types carry are already STIX hash labels:
/// quoting one in a file hash pattern leaves it unchanged.
pub proof fn lemma_hash_type_is_label(t: Seq<char>)
    requires
        hash_type_for(t) is Some,
    ensures
        stix_hash_label(hash_type_for(t)->0) == hash_type_for(t)->0,
{
    reveal_strlit("SHA1");
    assert("SHA1"@.len() == 4);
    reveal_strlit("SHA256");
    assert("SHA256"@.len() == 6);
    reveal_strlit("SHA512");
    assert("SHA512"@.len() == 6);
    reveal_strlit("MD5");
    assert("MD5"@.len() == 3);
    reveal_strlit("SHA-1");
    assert("SHA-1"@.len() == 5);
    reveal_strlit("SHA-256");
    assert("SHA-256"@.len() == 7);
    reveal_strlit("SHA-512");
    assert("SHA-512"@.len() == 7);
    reveal_strlit("SSDEEP");
    assert("SSDEEP"@.len() == 6);
    assert("SSDEEP"@[1] != "SHA256"@[1]);
    assert("SSDEEP"@[1] != "SHA512"@[1]);
    reveal_strlit("IMPHASH");
    assert("IMPHASH"@.len() == 7);
    reveal_strlit("AUTHENTIHASH");
    assert("AUTHENTIHASH"@.len() == 12);
    reveal_strlit("PEHASH");
    assert("PEHASH"@.len() == 6);
    assert("PEHASH"@[0] != "SHA256"@[0]);
    assert("PEHASH"@[0] != "SHA512"@[0]);
    reveal_strlit("VHASH");
    assert("VHASH"@.len() == 5);
    reveal_strlit("TLSH");
    assert("TLSH"@.len() == 4);
    assert("TLSH"@[0] != "SHA1"@[0]);
    reveal_strlit("CDHASH");
    assert("CDHASH"@.len() == 6);
    assert("CDHASH"@[0] != "SHA256"@[0]);
    assert("CDHASH"@[0] != "SHA512"@[0]);
    reveal_strlit("TELFHASH");
    assert("TELFHASH"@.len() == 8);
    reveal_strlit("IMPFUZZY");
    assert("IMPFUZZY"@.len() == 8);
    reveal_strlit("SHA-224");
    assert("SHA-224"@.len() == 7);
    reveal_strlit("SHA-384");
    assert("SHA-384"@.len() == 7);
    reveal_strlit("SHA-512/224");
    assert("SHA-512/224"@.len() == 11);
    reveal_strlit("SHA-512/256");
    assert("SHA-512/256"@.len() == 11);
    reveal_strlit("SHA3-224");
    assert("SHA3-224"@.len() == 8);
    reveal_strlit("SHA3-256");
    assert("SHA3-256"@.len() == 8);
    reveal_strlit("SHA3-384");
    assert("SHA3-384"@.len() == 8);
    reveal_strlit("SHA3-512");
    assert("SHA3-512"@.len() == 8);
    reveal_strlit("JA3");
    assert("JA3"@.len() == 3);
    reveal_strlit("JARM");
    assert("JARM"@.len() == 4);
    assert("JARM"@[0] != "SHA1"@[0]);
    reveal_strlit("HASSH");
    assert("HASSH"@.len() == 5);
    reveal_strlit("HASSHSERVER");
    assert("HASSHSERVER"@.len() == 11);
}

proof fn lemma_first_tag_at(tags: Seq<MispTag>, lowered: Seq<Seq<char>>, p: Seq<char>, i: int)
    requires
        tags.len() == lowered.len(),
        0 <= i < tags.len(),
        is_prefix(p, lowered[i]),
        forall|j: int| 0 <= j < i ==> !is_prefix(p, #[trigger] lowered[j]),
    ensures
        first_tag_lowered(tags, lowered, p) == Some(tags[i]),
    decreases i,
{
    if i > 0 {
        assert(!is_prefix(p, lowered[0]));
        assert forall|j: int| 0 <= j < i - 1 implies !is_prefix(p, #[trigger] lowered.drop_first()[j]) by {
            assert(lowered.drop_first()[j] == lowered[j + 1]);
        }
        lemma_first_tag_at(tags.drop_first(), lowered.drop_first(), p, i - 1);
    }
}

proof fn lemma_first_tag_none(tags: Seq<MispTag>, lowered: Seq<Seq<char>>, p: Seq<char>)
    requires
        tags.len() == lowered.len(),
        forall|j: int| 0 <= j < lowered.len() ==> !is_prefix(p, #[trigger] lowered[j]),
    ensures
        first_tag_lowered(tags, lowered, p) is None,
    decreases tags.len(),
{
    if tags.len() > 0 {
        assert(!is_prefix(p, lowered[0]));
        assert forall|j: int| 0 <= j < lowered.drop_first().len() implies !is_prefix(
            p,
            #[trigger] lowered.drop_first()[j],
        ) by {
            assert(lowered.drop_first()[j] == lowered[j + 1]);
        }
        lemma_first_tag_none(tags.drop_first(), lowered.drop_first(), p);
    }
}

/// The TLP tag of a list of tags is the first one whose lower-cased name
/// starts with `tlp:`, wherever it stands among the other tags; there is none
/// when no tag's lower-cased name starts so.
pub proof fn lemma_tlp_tag_is_first(tags: Seq<MispTag>, i: int)
    requires
        0 <= i < tags.len(),
        is_prefix("tlp:"@, spec_to_lowercase(tags[i].name@)),
        forall|j: int| 0 <= j < i ==> !is_prefix("tlp:"@, spec_to_lowercase((#[trigger] tags[j]).name@)),
    ensures
        tlp_tag_name(tags) == Some(tags[i].name@),
{
    let lowered = lowered_names(tags);
    assert forall|j: int| 0 <= j < i implies !is_prefix("tlp:"@, #[trigger] lowered[j]) by {
        assert(lowered[j] == spec_to_lowercase(tags[j].name@));
    }
    lemma_first_tag_at(tags, lowered, "tlp:"@, i);
}

/// Without a tag whose lower-cased name starts with `tlp:`, there is no TLP tag.
pub proof fn lemma_no_tlp_tag(tags: Seq<MispTag>)
    requires
        forall|j: int| 0 <= j < tags.len() ==> !is_prefix("tlp:"@, spec_to_lowercase((#[trigger] tags[j]).name@)),
    ensures
        tlp_tag_name(tags) is None,
{
    let lowered = lowered_names(tags);
    assert forall|j: int| 0 <= j < lowered.len() implies !is_prefix("tlp:"@, #[trigger] lowered[j]) by {
        assert(lowered[j] == spec_to_lowercase(tags[j].name@));
    }
    lemma_first_tag_none(tags, lowered, "tlp:"@);
}

} // verus!
