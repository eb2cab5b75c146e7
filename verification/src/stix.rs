//! STIX 2.1 objects accepted by the Microsoft Sentinel upload API, and the
//! construction of STIX detection patterns.

pub mod domain;
pub mod tlp;

use crate::text::str_eq;
use crate::timestamp::{utc_now, Timestamp};
use crate::trusted::{
    spec_to_uppercase, spec_uuid_from_random, spec_uuid_v5_url, str_to_uppercase,
    uuid_from_random_bytes, uuid_v5_url,
};
use vstd::prelude::*;

verus! {

// ---------------------------------------------------------------------------
// Objects
// ---------------------------------------------------------------------------

/// Kill chain phase reference.
#[derive(Debug, Clone)]
pub struct KillChainPhase {
    pub kill_chain_name: String,
    pub phase_name: String,
}

/// One entry of an external reference's hash list.
#[derive(Debug, Clone)]
pub struct HashEntry {
    pub algorithm: String,
    pub value: String,
}

/// External reference (URL, report, etc.).
#[derive(Debug, Clone)]
pub struct ExternalReference {
    pub source_name: String,
    pub description: Option<String>,
    pub url: Option<String>,
    pub external_id: Option<String>,
    pub hashes: Vec<HashEntry>,
}

/// Granular marking for specific fields.
#[derive(Debug, Clone)]
pub struct GranularMarking {
    pub marking_ref: Option<String>,
    pub selectors: Vec<String>,
    pub lang: Option<String>,
}

/// STIX indicator object for threat intelligence.
#[derive(Debug, Clone)]
pub struct StixIndicator {
    /// Object type - always "indicator"
    pub object_type: String,
    /// STIX specification version
    pub spec_version: String,
    /// Unique identifier (format: indicator--UUID)
    pub id: String,
    pub created: Timestamp,
    pub modified: Timestamp,
    pub name: Option<String>,
    pub description: Option<String>,
    /// The detection pattern (STIX patterning language)
    pub pattern: String,
    pub pattern_type: String,
    pub pattern_version: Option<String>,
    pub valid_from: Timestamp,
    pub valid_until: Option<Timestamp>,
    pub indicator_types: Vec<String>,
    pub kill_chain_phases: Vec<KillChainPhase>,
    /// Confidence level (0-100)
    pub confidence: Option<u8>,
    pub lang: Option<String>,
    pub external_references: Vec<ExternalReference>,
    /// Object marking references (TLP, etc.)
    pub object_marking_refs: Vec<String>,
    pub labels: Vec<String>,
    pub created_by_ref: Option<String>,
    pub revoked: bool,
    pub granular_markings: Vec<GranularMarking>,
}

/// STIX Attack Pattern object.
#[derive(Debug, Clone)]
pub struct StixAttackPattern {
    pub object_type: String,
    pub spec_version: String,
    pub id: String,
    pub created: Timestamp,
    pub modified: Timestamp,
    pub name: String,
    pub description: Option<String>,
    pub aliases: Vec<String>,
    pub kill_chain_phases: Vec<KillChainPhase>,
    pub external_references: Vec<ExternalReference>,
    pub object_marking_refs: Vec<String>,
    pub labels: Vec<String>,
}

/// STIX Threat Actor object.
#[derive(Debug, Clone)]
pub struct StixThreatActor {
    pub object_type: String,
    pub spec_version: String,
    pub id: String,
    pub created: Timestamp,
    pub modified: Timestamp,
    pub name: String,
    pub description: Option<String>,
    pub aliases: Vec<String>,
    pub threat_actor_types: Vec<String>,
    pub first_seen: Option<Timestamp>,
    pub last_seen: Option<Timestamp>,
    pub roles: Vec<String>,
    pub goals: Vec<String>,
    pub sophistication: Option<String>,
    pub resource_level: Option<String>,
    pub primary_motivation: Option<String>,
    pub external_references: Vec<ExternalReference>,
    pub object_marking_refs: Vec<String>,
    pub labels: Vec<String>,
}

/// STIX Identity object.
#[derive(Debug, Clone)]
pub struct StixIdentity {
    pub object_type: String,
    pub spec_version: String,
    pub id: String,
    pub created: Timestamp,
    pub modified: Timestamp,
    pub name: String,
    pub description: Option<String>,
    pub identity_class: Option<String>,
    pub sectors: Vec<String>,
    pub contact_information: Option<String>,
    pub external_references: Vec<ExternalReference>,
    pub object_marking_refs: Vec<String>,
    pub labels: Vec<String>,
}

/// STIX Relationship object.
#[derive(Debug, Clone)]
pub struct StixRelationship {
    pub object_type: String,
    pub spec_version: String,
    pub id: String,
    pub created: Timestamp,
    pub modified: Timestamp,
    pub relationship_type: String,
    pub source_ref: String,
    pub target_ref: String,
    pub description: Option<String>,
    pub external_references: Vec<ExternalReference>,
    pub object_marking_refs: Vec<String>,
}

/// All supported STIX domain objects.
#[derive(Debug, Clone)]
pub enum StixObject {
    Indicator(StixIndicator),
    AttackPattern(StixAttackPattern),
    ThreatActor(StixThreatActor),
    Identity(StixIdentity),
    Relationship(StixRelationship),
}

// ---------------------------------------------------------------------------
// Identifiers and markings shared by all objects
// ---------------------------------------------------------------------------

/// The identifier an object of `kind` gets from a source UUID: `kind--` and the
/// name-based UUID of the source.
pub open spec fn deterministic_id(kind: Seq<char>, source_uuid: Seq<char>) -> Seq<char> {
    kind + "--"@ + spec_uuid_v5_url(source_uuid)
}

/// The identifier an object of `kind` gets from random bytes: `kind--` and the
/// version 4 UUID made of the bytes.
pub open spec fn random_id_spec(kind: Seq<char>, random: Seq<u8>) -> Seq<char> {
    kind + "--"@ + spec_uuid_from_random(random)
}

/// The marking list after adding `m`: unchanged when already present, else `m` appended.
pub open spec fn add_marking(refs: Seq<Seq<char>>, m: Seq<char>) -> Seq<Seq<char>> {
    if refs.contains(m) {
        refs
    } else {
        refs.push(m)
    }
}

/// `kind--` followed by `uuid`.
fn make_id(kind: &str, uuid: String) -> (r: String)
    ensures
        r@ == kind@ + "--"@ + uuid@,
{
    let mut r = String::from_str(kind);
    r.append("--");
    r.append(uuid.as_str());
    r
}

/// An identifier of `kind` from random bytes.
pub(crate) fn random_id(kind: &str, random: [u8; 16]) -> (r: String)
    ensures
        r@ == random_id_spec(kind@, random@),
        r@.len() == kind@.len() + 38,
{
    proof {
        reveal_strlit("--");
    }
    make_id(kind, uuid_from_random_bytes(random))
}

/// An identifier of `kind` from a source UUID.
pub(crate) fn stable_id(kind: &str, source_uuid: &str) -> (r: String)
    ensures
        r@ == deterministic_id(kind@, source_uuid@),
{
    make_id(kind, uuid_v5_url(source_uuid))
}

/// Whether `v` holds a string equal to `s`.
pub fn contains_string(v: &Vec<String>, s: &str) -> (r: bool)
    ensures
        r == v.deep_view().contains(s@),
{
    let mut i: usize = 0;
    while i < v.len()
        invariant
            i <= v.len(),
            forall|k: int| 0 <= k < i ==> v.deep_view()[k] != s@,
        decreases v.len() - i,
    {
        if str_eq(v[i].as_str(), s) {
            assert(v.deep_view()[i as int] == s@);
            return true;
        }
        i = i + 1;
    }
    false
}

/// Add a marking to a marking list unless it is already there.
pub fn push_marking(refs: &mut Vec<String>, m: &str)
    ensures
        final(refs).deep_view() == add_marking(old(refs).deep_view(), m@),
{
    if !contains_string(refs, m) {
        let ghost before = refs.deep_view();
        refs.push(m.to_string());
        assert(refs.deep_view() =~= before.push(m@));
    }
}

/// Append all of `items` to `v`.
pub fn extend_strings(v: &mut Vec<String>, items: Vec<String>)
    ensures
        final(v).deep_view() == old(v).deep_view() + items.deep_view(),
{
    let mut items = items;
    let ghost before = v.deep_view();
    let ghost added = items.deep_view();
    v.append(&mut items);
    assert(v.deep_view() =~= before + added);
}

/// Adding a marking twice is the same as adding it once.
pub proof fn lemma_add_marking_idempotent(refs: Seq<Seq<char>>, m: Seq<char>)
    ensures
        add_marking(add_marking(refs, m), m) == add_marking(refs, m),
{
    if !refs.contains(m) {
        assert(refs.push(m)[refs.len() as int] == m);
    }
}

/// Adding a marking keeps a duplicate-free list duplicate-free, and the marking is then present.
pub proof fn lemma_add_marking_no_duplicates(refs: Seq<Seq<char>>, m: Seq<char>)
    requires
        refs.no_duplicates(),
    ensures
        add_marking(refs, m).no_duplicates(),
        add_marking(refs, m).contains(m),
{
    if !refs.contains(m) {
        let r = refs.push(m);
        assert(r[refs.len() as int] == m);
        assert forall|i: int, j: int| 0 <= i < r.len() && 0 <= j < r.len() && i != j implies r[i]
            != r[j] by {
            if i < refs.len() && j < refs.len() {
                assert(r[i] == refs[i] && r[j] == refs[j]);
            } else if i < refs.len() {
                assert(r[i] == refs[i]);
            } else if j < refs.len() {
                assert(r[j] == refs[j]);
            }
        }
    }
}

// ---------------------------------------------------------------------------
// Patterns
// ---------------------------------------------------------------------------

/// Supported indicator observable types.
#[derive(Debug, Clone, Copy, PartialEq, Eq, Structural)]
pub enum ObservableType {
    IPv4Addr,
    IPv6Addr,
    DomainName,
    Url,
    File,
    EmailAddr,
    UserAccount,
    WindowsRegistryKey,
}

/// The STIX pattern prefix of an observable type.
pub open spec fn pattern_prefix_of(t: ObservableType) -> Seq<char> {
    match t {
        ObservableType::IPv4Addr => "ipv4-addr:value"@,
        ObservableType::IPv6Addr => "ipv6-addr:value"@,
        ObservableType::DomainName => "domain-name:value"@,
        ObservableType::Url => "url:value"@,
        ObservableType::File => "file:hashes"@,
        ObservableType::EmailAddr => "email-addr:value"@,
        ObservableType::UserAccount => "user-account:account_login"@,
        ObservableType::WindowsRegistryKey => "windows-registry-key:key"@,
    }
}

/// The type name of an observable type, used for per-type expiration.
pub open spec fn type_name_of(t: ObservableType) -> Seq<char> {
    match t {
        ObservableType::IPv4Addr => "ipv4-addr"@,
        ObservableType::IPv6Addr => "ipv6-addr"@,
        ObservableType::DomainName => "domain-name"@,
        ObservableType::Url => "url"@,
        ObservableType::File => "file"@,
        ObservableType::EmailAddr => "email-addr"@,
        ObservableType::UserAccount => "user-account"@,
        ObservableType::WindowsRegistryKey => "windows-registry-key"@,
    }
}

impl ObservableType {
    /// Get the STIX pattern prefix for this type.
    pub fn pattern_prefix(&self) -> (r: &'static str)
        ensures
            r@ == pattern_prefix_of(*self),
    {
        match self {
            ObservableType::IPv4Addr => "ipv4-addr:value",
            ObservableType::IPv6Addr => "ipv6-addr:value",
            ObservableType::DomainName => "domain-name:value",
            ObservableType::Url => "url:value",
            ObservableType::File => "file:hashes",
            ObservableType::EmailAddr => "email-addr:value",
            ObservableType::UserAccount => "user-account:account_login",
            ObservableType::WindowsRegistryKey => "windows-registry-key:key",
        }
    }

    /// Get the type name for expiration mapping.
    pub fn expiration_type_name(&self) -> (r: &'static str)
        ensures
            r@ == type_name_of(*self),
    {
        match self {
            ObservableType::IPv4Addr => "ipv4-addr",
            ObservableType::IPv6Addr => "ipv6-addr",
            ObservableType::DomainName => "domain-name",
            ObservableType::Url => "url",
            ObservableType::File => "file",
            ObservableType::EmailAddr => "email-addr",
            ObservableType::UserAccount => "user-account",
            ObservableType::WindowsRegistryKey => "windows-registry-key",
        }
    }
}

/// How one character is written inside a quoted STIX pattern value.
pub open spec fn escape_char(c: char) -> Seq<char> {
    if c == '\\' {
        seq!['\\', '\\']
    } else if c == '\'' {
        seq!['\\', '\'']
    } else {
        seq![c]
    }
}

/// A value with every backslash doubled and every single quote preceded by a backslash.
pub open spec fn escape_spec(s: Seq<char>) -> Seq<char>
    decreases s.len(),
{
    if s.len() == 0 {
        Seq::<char>::empty()
    } else {
        escape_spec(s.drop_last()) + escape_char(s.last())
    }
}

/// The pattern comparing an observable of type `t` with the quoted, escaped `value`.
pub open spec fn pattern_spec(t: ObservableType, value: Seq<char>) -> Seq<char> {
    "["@ + pattern_prefix_of(t) + " = '"@ + escape_spec(value) + "']"@
}

/// The STIX hash name for an upper-cased hash type: the hyphenated SHA names,
/// anything else as given.
pub open spec fn stix_hash_label(u: Seq<char>) -> Seq<char> {
    if u == "SHA1"@ {
        "SHA-1"@
    } else if u == "SHA256"@ {
        "SHA-256"@
    } else if u == "SHA512"@ {
        "SHA-512"@
    } else {
        u
    }
}

/// The file hash pattern for an already upper-cased hash type (the value is not escaped).
pub open spec fn file_hash_pattern_spec(hash_upper: Seq<char>, value: Seq<char>) -> Seq<char> {
    "[file:hashes.'"@ + stix_hash_label(hash_upper) + "' = '"@ + value + "']"@
}

/// Escape special characters in STIX pattern values.
pub fn escape_pattern_value(value: &str) -> (r: String)
    ensures
        r@ == escape_spec(value@),
{
    let n = value.unicode_len();
    let mut r = String::new();
    let mut i: usize = 0;
    proof {
        reveal_strlit("\\\\");
        reveal_strlit("\\'");
        assert(value@.take(0) =~= Seq::<char>::empty());
    }
    while i < n
        invariant
            n == value@.len(),
            i <= n,
            r@ == escape_spec(value@.take(i as int)),
            "\\\\"@ == seq!['\\', '\\'],
            "\\'"@ == seq!['\\', '\''],
        decreases n - i,
    {
        let c = value.get_char(i);
        proof {
            assert(value@.take(i + 1).drop_last() =~= value@.take(i as int));
            assert(value@.take(i + 1).last() == c);
        }
        if c == '\\' {
            r.append("\\\\");
        } else if c == '\'' {
            r.append("\\'");
        } else {
            let one = value.substring_char(i, i + 1);
            proof {
                assert(one@ =~= seq![c]);
            }
            r.append(one);
        }
        i = i + 1;
    }
    proof {
        assert(value@.take(n as int) =~= value@);
    }
    r
}

/// Create a STIX pattern from a value and type.
pub fn create_pattern(observable_type: ObservableType, value: &str) -> (r: String)
    ensures
        r@ == pattern_spec(observable_type, value@),
{
    let mut r = String::from_str("[");
    r.append(observable_type.pattern_prefix());
    r.append(" = '");
    let escaped = escape_pattern_value(value);
    r.append(escaped.as_str());
    r.append("']");
    r
}

/// Create a file hash pattern from a hash type that is already upper-cased.
pub fn create_file_hash_pattern_upper(hash_upper: &str, hash_value: &str) -> (r: String)
    ensures
        r@ == file_hash_pattern_spec(hash_upper@, hash_value@),
{
    let mut r = String::from_str("[file:hashes.'");
    if str_eq(hash_upper, "SHA1") {
        r.append("SHA-1");
    } else if str_eq(hash_upper, "SHA256") {
        r.append("SHA-256");
    } else if str_eq(hash_upper, "SHA512") {
        r.append("SHA-512");
    } else {
        r.append(hash_upper);
    }
    r.append("' = '");
    r.append(hash_value);
    r.append("']");
    r
}

/// Create a file hash pattern: the hash type is upper-cased, then mapped to its STIX name.
pub fn create_file_hash_pattern(hash_type: &str, hash_value: &str) -> (r: String)
    ensures
        r@ == file_hash_pattern_spec(spec_to_uppercase(hash_type@), hash_value@),
{
    let hash_upper = str_to_uppercase(hash_type);
    create_file_hash_pattern_upper(hash_upper.as_str(), hash_value)
}

// ---------------------------------------------------------------------------
// Indicators
// ---------------------------------------------------------------------------

/// The STIX specification version of the objects made here.
pub fn default_spec_version() -> (r: String)
    ensures
        r@ == "2.1"@,
{
    String::from_str("2.1")
}

/// `ind` is a freshly made indicator with the given pattern, pattern type,
/// start of validity and creation time, and nothing else set.
pub open spec fn is_new_indicator(
    ind: StixIndicator,
    pattern: Seq<char>,
    pattern_type: Seq<char>,
    valid_from: Timestamp,
    now: Timestamp,
) -> bool {
    &&& ind.object_type@ == "indicator"@
    &&& ind.spec_version@ == "2.1"@
    &&& ind.created == now
    &&& ind.modified == now
    &&& ind.name is None
    &&& ind.description is None
    &&& ind.pattern@ == pattern
    &&& ind.pattern_type@ == pattern_type
    &&& ind.pattern_version.deep_view() == Some("2.1"@)
    &&& ind.valid_from == valid_from
    &&& ind.valid_until is None
    &&& ind.indicator_types@.len() == 0
    &&& ind.kill_chain_phases@.len() == 0
    &&& ind.confidence is None
    &&& ind.lang is None
    &&& ind.external_references@.len() == 0
    &&& ind.object_marking_refs@.len() == 0
    &&& ind.labels@.len() == 0
    &&& ind.created_by_ref is None
    &&& !ind.revoked
    &&& ind.granular_markings@.len() == 0
}

impl StixIndicator {
    /// A fresh indicator with the given identifier, created at `now`.
    pub fn with_id_at(
        id: String,
        pattern: String,
        pattern_type: String,
        valid_from: Timestamp,
        now: Timestamp,
    ) -> (r: Self)
        ensures
            is_new_indicator(r, pattern@, pattern_type@, valid_from, now),
            r.id@ == id@,
    {
        StixIndicator {
            object_type: String::from_str("indicator"),
            spec_version: default_spec_version(),
            id,
            created: now,
            modified: now,
            name: None,
            description: None,
            pattern,
            pattern_type,
            pattern_version: Some(String::from_str("2.1")),
            valid_from,
            valid_until: None,
            indicator_types: Vec::new(),
            kill_chain_phases: Vec::new(),
            confidence: None,
            lang: None,
            external_references: Vec::new(),
            object_marking_refs: Vec::new(),
            labels: Vec::new(),
            created_by_ref: None,
            revoked: false,
            granular_markings: Vec::new(),
        }
    }

    /// Create a new STIX indicator with required fields, created now, with an
    /// identifier made of the given random bytes; `None` when the system clock
    /// cannot be read as a time after 1970.
    pub fn new(pattern: String, pattern_type: String, valid_from: Timestamp, random: [u8; 16]) -> (r:
        Option<Self>)
        ensures
            r matches Some(i) ==> is_new_indicator(i, pattern@, pattern_type@, valid_from, i.created)
                && i.id@ == random_id_spec("indicator"@, random@),
    {
        match utc_now() {
            Some(now) => Some(
                StixIndicator::with_id_at(
                    random_id("indicator", random),
                    pattern,
                    pattern_type,
                    valid_from,
                    now,
                ),
            ),
            None => None,
        }
    }

    /// Create a new STIX indicator, created now, whose identifier is derived from
    /// a source UUID, so the same MISP attribute always yields the same indicator
    /// identifier; `None` when the system clock cannot be read as a time after 1970.
    pub fn new_with_deterministic_id(
        source_uuid: &str,
        pattern: String,
        pattern_type: String,
        valid_from: Timestamp,
    ) -> (r: Option<Self>)
        ensures
            r matches Some(i) ==> is_new_indicator(i, pattern@, pattern_type@, valid_from, i.created)
                && i.id@ == deterministic_id("indicator"@, source_uuid@),
    {
        match utc_now() {
            Some(now) => Some(
                StixIndicator::with_id_at(
                    stable_id("indicator", source_uuid),
                    pattern,
                    pattern_type,
                    valid_from,
                    now,
                ),
            ),
            None => None,
        }
    }

    /// Set the indicator name.
    pub fn with_name(self, name: String) -> (r: Self)
        ensures
            r == (StixIndicator { name: Some(name), ..self }),
    {
        let mut s = self;
        s.name = Some(name);
        s
    }

    /// Set the description.
    pub fn with_description(self, description: String) -> (r: Self)
        ensures
            r == (StixIndicator { description: Some(description), ..self }),
    {
        let mut s = self;
        s.description = Some(description);
        s
    }

    /// Set the end of validity.
    pub fn with_valid_until(self, valid_until: Timestamp) -> (r: Self)
        ensures
            r == (StixIndicator { valid_until: Some(valid_until), ..self }),
    {
        let mut s = self;
        s.valid_until = Some(valid_until);
        s
    }

    /// Set the confidence level, capped at 100.
    pub fn with_confidence(self, confidence: u8) -> (r: Self)
        ensures
            r == (StixIndicator {
                confidence: Some(if confidence <= 100 { confidence } else { 100 }),
                ..self
            }),
    {
        let mut s = self;
        let c = if confidence <= 100 { confidence } else { 100 };
        s.confidence = Some(c);
        s
    }

    /// Add a TLP marking unless it is already present.
    pub fn with_tlp(self, tlp_marking: &str) -> (r: Self)
        ensures
            r.object_marking_refs.deep_view() == add_marking(
                self.object_marking_refs.deep_view(),
                tlp_marking@,
            ),
            r == (StixIndicator { object_marking_refs: r.object_marking_refs, ..self }),
    {
        let mut s = self;
        push_marking(&mut s.object_marking_refs, tlp_marking);
        s
    }

    /// Add labels.
    pub fn with_labels(self, labels: Vec<String>) -> (r: Self)
        ensures
            r.labels.deep_view() == self.labels.deep_view() + labels.deep_view(),
            r == (StixIndicator { labels: r.labels, ..self }),
    {
        let mut s = self;
        extend_strings(&mut s.labels, labels);
        s
    }

    /// Add an external reference.
    pub fn with_external_reference(self, reference: ExternalReference) -> (r: Self)
        ensures
            r.external_references@ == self.external_references@.push(reference),
            r == (StixIndicator { external_references: r.external_references, ..self }),
    {
        let mut s = self;
        s.external_references.push(reference);
        s
    }

    /// Add indicator types.
    pub fn with_indicator_types(self, types: Vec<String>) -> (r: Self)
        ensures
            r.indicator_types.deep_view() == self.indicator_types.deep_view()
                + types.deep_view(),
            r == (StixIndicator { indicator_types: r.indicator_types, ..self }),
    {
        let mut s = self;
        extend_strings(&mut s.indicator_types, types);
        s
    }

    /// Add a kill chain phase.
    pub fn with_kill_chain_phase(self, chain_name: String, phase_name: String) -> (r: Self)
        ensures
            r.kill_chain_phases@ == self.kill_chain_phases@.push(
                KillChainPhase { kill_chain_name: chain_name, phase_name },
            ),
            r == (StixIndicator { kill_chain_phases: r.kill_chain_phases, ..self }),
    {
        let mut s = self;
        s.kill_chain_phases.push(KillChainPhase { kill_chain_name: chain_name, phase_name });
        s
    }
}

// ---------------------------------------------------------------------------
// Laws of patterns
// ---------------------------------------------------------------------------

/// Every escaped character ends with the character itself.
proof fn lemma_escape_char_last(c: char)
    ensures
        escape_char(c).len() >= 1,
        escape_char(c).last() == c,
{
}

/// Escaping is injective: distinct values give distinct escaped texts.
pub proof fn lemma_escape_injective(a: Seq<char>, b: Seq<char>)
    requires
        escape_spec(a) == escape_spec(b),
    ensures
        a == b,
    decreases a.len() + b.len(),
{
    if a.len() == 0 && b.len() == 0 {
        assert(a =~= b);
    } else if a.len() == 0 {
        lemma_escape_char_last(b.last());
        assert(escape_spec(b).len() >= 1);
    } else if b.len() == 0 {
        lemma_escape_char_last(a.last());
        assert(escape_spec(a).len() >= 1);
    } else {
        let ea = escape_spec(a);
        lemma_escape_char_last(a.last());
        lemma_escape_char_last(b.last());
        assert(ea.last() == a.last());
        assert(escape_spec(b).last() == b.last());
        assert(a.last() == b.last());
        let e = escape_char(a.last());
        let pa = escape_spec(a.drop_last());
        let pb = escape_spec(b.drop_last());
        assert(ea == pa + e);
        assert(ea == pb + e);
        assert(pa =~= ea.subrange(0, ea.len() - e.len()));
        assert(pb =~= ea.subrange(0, ea.len() - e.len()));
        lemma_escape_injective(a.drop_last(), b.drop_last());
        assert(a =~= a.drop_last().push(a.last()));
        assert(b =~= b.drop_last().push(b.last()));
    }
}

/// Reading an escaped text back, left to right: a backslash followed by a
/// backslash or a single quote stands for that character; any other
/// character stands for itself.
pub open spec fn unescape(s: Seq<char>) -> Seq<char>
    decreases s.len(),
{
    if s.len() == 0 {
        Seq::<char>::empty()
    } else if s.len() >= 2 && s[0] == '\\' && (s[1] == '\\' || s[1] == '\'') {
        seq![s[1]] + unescape(s.subrange(2, s.len() as int))
    } else {
        seq![s[0]] + unescape(s.drop_first())
    }
}

/// The number of backslashes and single quotes in `s`.
pub open spec fn special_count(s: Seq<char>) -> nat
    decreases s.len(),
{
    if s.len() == 0 {
        0
    } else {
        special_count(s.drop_last()) + if s.last() == '\\' || s.last() == '\'' {
            1nat
        } else {
            0nat
        }
    }
}

/// Escaping a character followed by a text escapes each in turn.
proof fn lemma_escape_cons(c: char, s: Seq<char>)
    ensures
        escape_spec(seq![c] + s) == escape_char(c) + escape_spec(s),
    decreases s.len(),
{
    if s.len() == 0 {
        assert(seq![c] + s =~= seq![c]);
        assert(seq![c].drop_last() =~= Seq::<char>::empty());
        assert(seq![c].last() == c);
        assert(escape_spec(Seq::<char>::empty()) == Seq::<char>::empty());
        assert(escape_spec(seq![c]) == escape_spec(seq![c].drop_last()) + escape_char(c));
        assert(Seq::<char>::empty() + escape_char(c) =~= escape_char(c));
        assert(escape_char(c) + escape_spec(s) =~= escape_char(c));
    } else {
        lemma_escape_cons(c, s.drop_last());
        assert((seq![c] + s).drop_last() =~= seq![c] + s.drop_last());
        assert((seq![c] + s).last() == s.last());
        assert(escape_spec(seq![c] + s) == escape_spec((seq![c] + s).drop_last()) + escape_char(
            (seq![c] + s).last(),
        ));
        assert(escape_char(c) + escape_spec(s.drop_last()) + escape_char(s.last())
            =~= escape_char(c) + (escape_spec(s.drop_last()) + escape_char(s.last())));
    }
}

/// Escaping can be undone, and it adds one character for each backslash and
/// single quote of the value.
pub proof fn lemma_escape_round_trip(v: Seq<char>)
    ensures
        unescape(escape_spec(v)) == v,
        escape_spec(v).len() == v.len() + special_count(v),
    decreases v.len(),
{
    lemma_escape_length(v);
    if v.len() > 0 {
        let c = v[0];
        let rest = v.drop_first();
        assert(v =~= seq![c] + rest);
        lemma_escape_cons(c, rest);
        lemma_escape_round_trip(rest);
        let e = escape_spec(rest);
        let t = escape_char(c) + e;
        if c == '\\' || c == '\'' {
            assert(t[0] == '\\' && t[1] == c);
            assert(t.subrange(2, t.len() as int) =~= e);
        } else {
            assert(t[0] == c);
            assert(t.drop_first() =~= e);
        }
    }
}

proof fn lemma_escape_length(v: Seq<char>)
    ensures
        escape_spec(v).len() == v.len() + special_count(v),
    decreases v.len(),
{
    if v.len() > 0 {
        lemma_escape_length(v.drop_last());
    }
}

/// Escaping leaves values without backslashes and single quotes unchanged.
pub proof fn lemma_escape_plain(s: Seq<char>)
    requires
        forall|i: int| 0 <= i < s.len() ==> s[i] != '\\' && s[i] != '\'',
    ensures
        escape_spec(s) == s,
    decreases s.len(),
{
    if s.len() > 0 {
        lemma_escape_plain(s.drop_last());
        assert(s.drop_last().push(s.last()) =~= s);
    }
}

/// Two patterns of the same observable type are equal only for equal values,
/// so deduplicating by pattern never merges distinct observables.
pub proof fn lemma_pattern_injective(t: ObservableType, a: Seq<char>, b: Seq<char>)
    requires
        pattern_spec(t, a) == pattern_spec(t, b),
    ensures
        a == b,
{
    let pre = "["@ + pattern_prefix_of(t) + " = '"@;
    let post = "']"@;
    let pa = pattern_spec(t, a);
    assert(pa == pre + escape_spec(a) + post);
    assert(pattern_spec(t, b) == pre + escape_spec(b) + post);
    assert(escape_spec(a) =~= pa.subrange(pre.len() as int, pa.len() - post.len()));
    assert(escape_spec(b) =~= pa.subrange(pre.len() as int, pa.len() - post.len()));
    lemma_escape_injective(a, b);
}

/// Mapping a hash name to its STIX label twice is mapping it once, so a file
/// hash pattern made from the label of a name is the pattern of the name.
pub proof fn lemma_hash_label_idempotent(u: Seq<char>, value: Seq<char>)
    ensures
        stix_hash_label(stix_hash_label(u)) == stix_hash_label(u),
        file_hash_pattern_spec(stix_hash_label(u), value) == file_hash_pattern_spec(u, value),
{
    reveal_strlit("SHA1");
    reveal_strlit("SHA256");
    reveal_strlit("SHA512");
    reveal_strlit("SHA-1");
    reveal_strlit("SHA-256");
    reveal_strlit("SHA-512");
    assert("SHA1"@.len() == 4);
    assert("SHA256"@.len() == 6);
    assert("SHA512"@.len() == 6);
    assert("SHA-1"@.len() == 5);
    assert("SHA-256"@.len() == 7);
    assert("SHA-512"@.len() == 7);
}

} // verus!
