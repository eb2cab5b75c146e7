//! Conversion of MISP events into STIX indicators ready for upload.

pub mod pattern;
pub mod result;
pub mod laws;


use crate::config::{Config, SyncConfig, TypeExpiration};
use crate::error::Error;
use crate::misp::{
    event_actionable, labels_of, lemma_no_tlp_tag, lemma_tlp_tag_is_first, observable_type_for,
    threat_type_from_tags, tlp_tag_name, MispAttribute, MispEvent, MispTag,
};
use crate::stix::tlp::{from_tag, marking_for_lowercase, WHITE};
use crate::stix::{
    contains_string, deterministic_id, stable_id, type_name_of, ExternalReference, StixIndicator,
};
use crate::text::{is_prefix, str_eq};
use crate::timestamp::{
    clock_secs_in_range, lemma_plus_days_after, ts_le, ts_plus_days, utc_now, Timestamp,
};
use crate::trusted::{
    display_utc, parse_rfc3339_utc, spec_display_utc, spec_parse_rfc3339, spec_to_lowercase,
};
use pattern::{pattern_for, pattern_for_attribute};
use vstd::prelude::*;

verus! {

/// Converts MISP events to STIX indicators according to a configuration.
pub struct Syncer {
    pub config: Config,
}

// ---------------------------------------------------------------------------
// Specifications
// ---------------------------------------------------------------------------

/// An attribute type passes the include/exclude lists: when an include list
/// is given only its types pass, otherwise every type not excluded passes.
pub open spec fn include_type(cfg: SyncConfig, t: Seq<char>) -> bool {
    if cfg.include_types@.len() > 0 {
        cfg.include_types.deep_view().contains(t)
    } else {
        !cfg.exclude_types.deep_view().contains(t)
    }
}

/// The include and exclude lists: with no included types, a type passes
/// exactly when it equals none of the excluded types, whichever place they
/// have in the list; with included types, exactly when it equals one of them.
pub proof fn lemma_include_exclude(cfg: SyncConfig, t: Seq<char>)
    ensures
        cfg.include_types@.len() == 0 ==> (include_type(cfg, t) <==> forall|i: int|
            0 <= i < cfg.exclude_types@.len() ==> (#[trigger] cfg.exclude_types@[i])@ != t),
        cfg.include_types@.len() > 0 ==> (include_type(cfg, t) <==> exists|i: int|
            0 <= i < cfg.include_types@.len() && (#[trigger] cfg.include_types@[i])@ == t),
{
    let ex = cfg.exclude_types.deep_view();
    let inc = cfg.include_types.deep_view();
    assert forall|i: int| 0 <= i < cfg.exclude_types@.len() implies ex[i] == (
    #[trigger] cfg.exclude_types@[i])@ by {}
    assert forall|i: int| 0 <= i < cfg.include_types@.len() implies inc[i] == (
    #[trigger] cfg.include_types@[i])@ by {}
    if ex.contains(t) {
        let i = choose|i: int| 0 <= i < ex.len() && ex[i] == t;
        assert(cfg.exclude_types@[i]@ == t);
    }
    if exists|i: int| 0 <= i < cfg.exclude_types@.len() && (#[trigger] cfg.exclude_types@[i])@ == t {
        let i = choose|i: int| 0 <= i < cfg.exclude_types@.len() && (#[trigger] cfg.exclude_types@[i])@ == t;
        assert(ex[i] == t);
    }
    if inc.contains(t) {
        let i = choose|i: int| 0 <= i < inc.len() && inc[i] == t;
        assert(cfg.include_types@[i]@ == t);
    }
    if exists|i: int| 0 <= i < cfg.include_types@.len() && (#[trigger] cfg.include_types@[i])@ == t {
        let i = choose|i: int| 0 <= i < cfg.include_types@.len() && (#[trigger] cfg.include_types@[i])@ == t;
        assert(inc[i] == t);
    }
}

/// The days configured for an observable type name; a later entry wins.
pub open spec fn expiration_lookup(entries: Seq<TypeExpiration>, name: Seq<char>) -> Option<u32>
    decreases entries.len(),
{
    if entries.len() == 0 {
        None
    } else if entries.last().observable@ == name {
        Some(entries.last().days)
    } else {
        expiration_lookup(entries.drop_last(), name)
    }
}

/// Days until an attribute's indicator expires: the per-type setting for its
/// observable type, else the default.
pub open spec fn expiration_days_for(cfg: SyncConfig, a: MispAttribute) -> u32 {
    match observable_type_for(a.attr_type@) {
        Some(ot) => match expiration_lookup(cfg.type_expiration@, type_name_of(ot)) {
            Some(d) => d,
            None => cfg.days_to_expire,
        },
        None => cfg.days_to_expire,
    }
}

/// An indicator becomes valid at the attribute's `first_seen` when that is an
/// RFC 3339 time, else at `now`.
pub open spec fn valid_from_for(a: MispAttribute, now: Timestamp) -> Timestamp {
    match a.first_seen {
        Some(s) => match spec_parse_rfc3339(s@) {
            Some(t) => Timestamp { secs: t.0, nanos: t.1 },
            None => now,
        },
        None => now,
    }
}

/// The event labels followed by the attribute's tag names not already present.
pub open spec fn merged_labels(labels: Seq<Seq<char>>, tags: Seq<MispTag>) -> Seq<Seq<char>>
    decreases tags.len(),
{
    if tags.len() == 0 {
        labels
    } else {
        let prev = merged_labels(labels, tags.drop_last());
        if prev.contains(tags.last().name@) {
            prev
        } else {
            prev.push(tags.last().name@)
        }
    }
}

/// The TLP marking of an event: that of its TLP tag, TLP:WHITE by default.
pub open spec fn event_tlp(e: MispEvent) -> Seq<char> {
    match tlp_tag_name(e.tags@) {
        Some(n) => match marking_for_lowercase(spec_to_lowercase(n)) {
            Some(m) => m,
            None => WHITE@,
        },
        None => WHITE@,
    }
}

/// An event's TLP marking is that of its first tag whose lower-cased name
/// starts with `tlp:`, wherever that tag stands among the others (TLP:WHITE
/// when its level is unknown), and TLP:WHITE when no tag is a TLP tag.
pub proof fn lemma_event_tlp_first_tlp_tag(e: MispEvent, i: int)
    requires
        0 <= i < e.tags@.len(),
        is_prefix("tlp:"@, spec_to_lowercase(e.tags@[i].name@)),
        forall|j: int| 0 <= j < i ==> !is_prefix("tlp:"@, spec_to_lowercase((#[trigger] e.tags@[j]).name@)),
    ensures
        event_tlp(e) == match marking_for_lowercase(spec_to_lowercase(e.tags@[i].name@)) {
            Some(m) => m,
            None => WHITE@,
        },
{
    lemma_tlp_tag_is_first(e.tags@, i);
}

/// An event with no tag whose lower-cased name starts with `tlp:` is marked TLP:WHITE.
pub proof fn lemma_event_tlp_default(e: MispEvent)
    requires
        forall|j: int| 0 <= j < e.tags@.len() ==> !is_prefix("tlp:"@, spec_to_lowercase((#[trigger] e.tags@[j]).name@)),
    ensures
        event_tlp(e) == WHITE@,
{
    lemma_no_tlp_tag(e.tags@);
}

/// Confidence capped at 100.
pub open spec fn capped_confidence(c: u8) -> u8 {
    if c <= 100 {
        c
    } else {
        100
    }
}

/// The external reference pointing back at the MISP event.
pub open spec fn is_misp_reference(r: ExternalReference, misp_url: Seq<char>, e: MispEvent) -> bool {
    &&& r.source_name@ == "MISP"@
    &&& r.description.deep_view() == Some("MISP Event: "@ + e.info@)
    &&& r.url.deep_view() == Some(misp_url + "/events/view/"@ + e.uuid@)
    &&& r.external_id.deep_view() == Some(e.uuid@)
    &&& r.hashes@.len() == 0
}

/// `ind` is the indicator made at `now` for attribute `a` of event `e` with
/// the given pattern, TLP marking, threat type and event labels.
pub open spec fn is_indicator_for(
    ind: StixIndicator,
    cfg: Config,
    e: MispEvent,
    a: MispAttribute,
    pattern: Seq<char>,
    tlp: Seq<char>,
    threat: Option<Seq<char>>,
    labels: Seq<Seq<char>>,
    now: Timestamp,
) -> bool {
    &&& ind.object_type@ == "indicator"@
    &&& ind.spec_version@ == "2.1"@
    &&& ind.id@ == deterministic_id("indicator"@, a.uuid@)
    &&& ind.created == now
    &&& ind.modified == now
    &&& ind.name.deep_view() == Some(e.info@ + " - "@ + a.attr_type@)
    &&& ind.description.deep_view() == Some(
        "MISP Event: "@ + e.info@ + " (UUID: "@ + e.uuid@ + "). Attribute type: "@ + a.attr_type@,
    )
    &&& ind.pattern@ == pattern
    &&& ind.pattern_type@ == "stix"@
    &&& ind.pattern_version.deep_view() == Some("2.1"@)
    &&& ind.valid_from == valid_from_for(a, now)
    &&& ind.valid_until == Some(ts_plus_days(now, expiration_days_for(cfg.sync, a) as nat))
    &&& ind.indicator_types.deep_view() == seq![
        match threat {
            Some(t) => t,
            None => "unknown"@,
        },
    ]
    &&& ind.kill_chain_phases@.len() == 0
    &&& ind.confidence == Some(capped_confidence(cfg.sync.default_confidence))
    &&& ind.lang is None
    &&& ind.external_references@.len() == 1
    &&& is_misp_reference(ind.external_references@[0], cfg.misp.url@, e)
    &&& ind.object_marking_refs.deep_view() == seq![tlp]
    &&& ind.labels.deep_view() == merged_labels(labels, a.tags@)
    &&& ind.created_by_ref is None
    &&& !ind.revoked
    &&& ind.granular_markings@.len() == 0
}

/// The indicator made for `a` in `e` at `now`, with the event's own metadata.
pub open spec fn is_event_indicator(
    ind: StixIndicator,
    cfg: Config,
    e: MispEvent,
    a: MispAttribute,
    pattern: Seq<char>,
    now: Timestamp,
) -> bool {
    is_indicator_for(
        ind,
        cfg,
        e,
        a,
        pattern,
        event_tlp(e),
        threat_type_from_tags(e.tags@),
        labels_of(e.tags@, true),
        now,
    )
}

/// An indicator made for `a` with pattern `p` passes validation: the pattern is
/// not empty and the indicator does not expire at once.
pub open spec fn indicator_valid(cfg: Config, a: MispAttribute, p: Seq<char>) -> bool {
    p.len() > 0 && expiration_days_for(cfg.sync, a) > 0
}

/// Converting a list of attributes with the patterns already `seen`: each
/// attribute whose type is included and has a pattern not seen yet marks the
/// pattern as seen, and yields an indicator when that indicator is valid.
/// The result is the patterns seen afterwards and the (attribute, pattern)
/// pairs that yield indicators, in order.
pub open spec fn convert_attrs(
    cfg: Config,
    attrs: Seq<MispAttribute>,
    seen: Seq<Seq<char>>,
) -> (Seq<Seq<char>>, Seq<(MispAttribute, Seq<char>)>)
    decreases attrs.len(),
{
    if attrs.len() == 0 {
        (seen, Seq::<(MispAttribute, Seq<char>)>::empty())
    } else {
        let (s, out) = convert_attrs(cfg, attrs.drop_last(), seen);
        let a = attrs.last();
        if !include_type(cfg.sync, a.attr_type@) {
            (s, out)
        } else {
            match pattern_for(a.attr_type@, a.value@) {
                None => (s, out),
                Some(p) => if s.contains(p) {
                    (s, out)
                } else if indicator_valid(cfg, a, p) {
                    (s.push(p), out.push((a, p)))
                } else {
                    (s.push(p), out)
                },
            }
        }
    }
}

/// Converting a list of events one after the other with one set of seen
/// patterns: the patterns seen afterwards and the (event, attribute, pattern)
/// triples that yield indicators, in order.
pub open spec fn convert_events_spec(cfg: Config, events: Seq<MispEvent>, seen: Seq<Seq<char>>) -> (
    Seq<Seq<char>>,
    Seq<(MispEvent, MispAttribute, Seq<char>)>,
)
    decreases events.len(),
{
    if events.len() == 0 {
        (seen, Seq::<(MispEvent, MispAttribute, Seq<char>)>::empty())
    } else {
        let (s, out) = convert_events_spec(cfg, events.drop_last(), seen);
        let e = events.last();
        let (s2, o2) = convert_attrs(cfg, event_actionable(e), s);
        (s2, out + tag_event(e, o2))
    }
}

/// The (attribute, pattern) pairs of event `e` as (event, attribute, pattern) triples.
pub open spec fn tag_event(e: MispEvent, pairs: Seq<(MispAttribute, Seq<char>)>) -> Seq<
    (MispEvent, MispAttribute, Seq<char>),
> {
    pairs.map_values(|x: (MispAttribute, Seq<char>)| (e, x.0, x.1))
}

/// `inds` are the indicators made at `now` for the triples `out`, one for one.
pub open spec fn indicators_for(
    cfg: Config,
    out: Seq<(MispEvent, MispAttribute, Seq<char>)>,
    inds: Seq<StixIndicator>,
    now: Timestamp,
) -> bool {
    &&& inds.len() == out.len()
    &&& forall|k: int|
        0 <= k < inds.len() ==> #[trigger] is_event_indicator(
            inds[k],
            cfg,
            out[k].0,
            out[k].1,
            out[k].2,
            now,
        )
}

// ---------------------------------------------------------------------------
// Helpers
// ---------------------------------------------------------------------------

/// A copy of a list of strings.
pub(crate) fn copy_strings(v: &Vec<String>) -> (r: Vec<String>)
    ensures
        r.deep_view() == v.deep_view(),
{
    let mut r: Vec<String> = Vec::new();
    let mut i: usize = 0;
    while i < v.len()
        invariant
            i <= v.len(),
            r.deep_view() == v.deep_view().take(i as int),
        decreases v.len() - i,
    {
        let c = v[i].clone();
        assert(c@ == v.deep_view()[i as int]);
        let ghost before = r.deep_view();
        r.push(c);
        assert(r.deep_view() =~= before.push(c@));
        assert(r.deep_view() =~= v.deep_view().take(i + 1));
        i = i + 1;
    }
    assert(v.deep_view().take(v.len() as int) =~= v.deep_view());
    r
}

/// The event labels followed by the tag names not already present.
fn merge_labels(labels: &Vec<String>, tags: &Vec<MispTag>) -> (r: Vec<String>)
    ensures
        r.deep_view() == merged_labels(labels.deep_view(), tags@),
{
    let mut r = copy_strings(labels);
    let mut i: usize = 0;
    proof {
        assert(tags@.take(0) =~= Seq::<MispTag>::empty());
    }
    while i < tags.len()
        invariant
            i <= tags.len(),
            r.deep_view() == merged_labels(labels.deep_view(), tags@.take(i as int)),
        decreases tags.len() - i,
    {
        proof {
            assert(tags@.take(i + 1).drop_last() =~= tags@.take(i as int));
            assert(tags@.take(i + 1).last() == tags@[i as int]);
        }
        let name = &tags[i].name;
        if !contains_string(&r, name.as_str()) {
            let ghost before = r.deep_view();
            r.push(name.clone());
            assert(r.deep_view() =~= before.push(name@));
        }
        i = i + 1;
    }
    proof {
        assert(tags@.take(tags.len() as int) =~= tags@);
    }
    r
}

/// The concatenation of three strings.
fn concat3(a: &str, b: &str, c: &str) -> (r: String)
    ensures
        r@ == a@ + b@ + c@,
{
    let mut r = String::from_str(a);
    r.append(b);
    r.append(c);
    r
}

/// The message when the system clock cannot be read.
pub const CLOCK_ERROR: &'static str = "system clock is before 1970 or out of range";

impl Syncer {
    /// A syncer for the given configuration.
    pub fn new(config: Config) -> (r: Syncer)
        ensures
            r.config == config,
    {
        Syncer { config }
    }

    /// Whether an attribute type passes the include/exclude lists.
    pub fn should_include_type(&self, attr_type: &str) -> (r: bool)
        ensures
            r == include_type(self.config.sync, attr_type@),
    {
        if self.config.sync.include_types.len() > 0 {
            return contains_string(&self.config.sync.include_types, attr_type);
        }
        !contains_string(&self.config.sync.exclude_types, attr_type)
    }

    /// Days until the indicator of an attribute expires.
    pub fn get_expiration_days(&self, attr: &MispAttribute) -> (r: u32)
        ensures
            r == expiration_days_for(self.config.sync, *attr),
    {
        if let Some(observable_type) = attr.get_observable_type() {
            let name = observable_type.expiration_type_name();
            let entries = &self.config.sync.type_expiration;
            let mut i: usize = entries.len();
            assert(entries@.take(i as int) =~= entries@);
            while i > 0
                invariant
                    i <= entries.len(),
                    entries@ == self.config.sync.type_expiration@,
                    observable_type_for(attr.attr_type@) == Some(observable_type),
                    name@ == type_name_of(observable_type),
                    expiration_lookup(entries@, name@) == expiration_lookup(
                        entries@.take(i as int),
                        name@,
                    ),
                decreases i,
            {
                let e = &entries[i - 1];
                proof {
                    assert(entries@.take(i as int).last() == entries@[i - 1]);
                    assert(entries@.take(i as int).drop_last() =~= entries@.take(i - 1));
                }
                if str_eq(e.observable.as_str(), name) {
                    return e.days;
                }
                i = i - 1;
            }
            proof {
                assert(entries@.take(0) =~= Seq::<TypeExpiration>::empty());
            }
        }
        self.config.sync.days_to_expire
    }

    /// Create the STIX pattern for a MISP attribute.
    pub fn create_pattern_for_attribute(&self, attr: &MispAttribute) -> (r: Option<String>)
        ensures
            r.deep_view() == pattern_for(attr.attr_type@, attr.value@),
    {
        pattern_for_attribute(attr)
    }

    /// Create the STIX indicator for an attribute of an event at time `now`.
    pub fn create_indicator_at(
        &self,
        event: &MispEvent,
        attr: &MispAttribute,
        pattern: String,
        tlp: &str,
        threat_type: &Option<String>,
        event_labels: &Vec<String>,
        now: Timestamp,
    ) -> (r: StixIndicator)
        requires
            clock_secs_in_range(now),
        ensures
            is_indicator_for(
                r,
                self.config,
                *event,
                *attr,
                pattern@,
                tlp@,
                threat_type.deep_view(),
                event_labels.deep_view(),
                now,
            ),
    {
        let valid_from = match &attr.first_seen {
            Some(s) => match parse_rfc3339_utc(s.as_str()) {
                Some(t) => Timestamp { secs: t.0, nanos: t.1 },
                None => now,
            },
            None => now,
        };
        let days = self.get_expiration_days(attr);
        let valid_until = now.plus_days(days);
        let mut ind = StixIndicator::with_id_at(
            stable_id("indicator", attr.uuid.as_str()),
            pattern,
            String::from_str("stix"),
            valid_from,
            now,
        );
        ind.valid_until = Some(valid_until);
        let c = self.config.sync.default_confidence;
        ind.confidence = Some(if c <= 100 { c } else { 100 });
        let mut refs: Vec<String> = Vec::new();
        refs.push(tlp.to_string());
        proof {
            assert(refs.deep_view() =~= seq![tlp@]);
        }
        ind.object_marking_refs = refs;
        ind.name = Some(concat3(event.info.as_str(), " - ", attr.attr_type.as_str()));
        let mut desc = concat3("MISP Event: ", event.info.as_str(), " (UUID: ");
        desc.append(event.uuid.as_str());
        desc.append("). Attribute type: ");
        desc.append(attr.attr_type.as_str());
        ind.description = Some(desc);
        let mut types: Vec<String> = Vec::new();
        match threat_type {
            Some(tt) => types.push(tt.clone()),
            None => types.push(String::from_str("unknown")),
        }
        proof {
            assert(types.deep_view() =~= seq![
                match threat_type.deep_view() {
                    Some(t) => t,
                    None => "unknown"@,
                },
            ]);
        }
        ind.indicator_types = types;
        ind.labels = merge_labels(event_labels, &attr.tags);
        let reference = ExternalReference {
            source_name: String::from_str("MISP"),
            description: Some(concat3("MISP Event: ", event.info.as_str(), "")),
            url: Some(concat3(self.config.misp.url.as_str(), "/events/view/", event.uuid.as_str())),
            external_id: Some(event.uuid.clone()),
            hashes: Vec::new(),
        };
        proof {
            reveal_strlit("");
            assert("MISP Event: "@ + event.info@ + ""@ =~= "MISP Event: "@ + event.info@);
        }
        ind.external_references.push(reference);
        ind
    }

    /// Validate an indicator before upload, at time `now`.
    pub fn validate_indicator(&self, indicator: &StixIndicator, now: Timestamp) -> (r: Result<
        (),
        Error,
    >)
        ensures
            r is Ok <==> (indicator.pattern@.len() > 0 && indicator.pattern_type@.len() > 0 && (
            match indicator.valid_until {
                Some(v) => !ts_le(v, now),
                None => true,
            })),
            r matches Err(e) ==> e matches Error::StixConversion(m) && m@ == (
            if indicator.pattern@.len() == 0 {
                "Pattern is empty"@
            } else if indicator.pattern_type@.len() == 0 {
                "Pattern type is empty"@
            } else {
                "Indicator expired: valid_until "@ + spec_display_utc(
                    indicator.valid_until->0.secs,
                    indicator.valid_until->0.nanos,
                ) + " is in the past"@
            }),
    {
        if indicator.pattern.unicode_len() == 0 {
            return Err(Error::StixConversion(String::from_str("Pattern is empty")));
        }
        if indicator.pattern_type.unicode_len() == 0 {
            return Err(Error::StixConversion(String::from_str("Pattern type is empty")));
        }
        if let Some(valid_until) = indicator.valid_until {
            if valid_until.is_at_or_before(&now) {
                let shown = display_utc(valid_until);
                let msg = concat3("Indicator expired: valid_until ", shown.as_str(), " is in the past");
                return Err(Error::StixConversion(msg));
            }
        }
        Ok(())
    }
}


/// All indicators of a list of lists, in order.
pub open spec fn flatten_indicators(bs: Seq<Seq<StixIndicator>>) -> Seq<StixIndicator>
    decreases bs.len(),
{
    if bs.len() == 0 {
        Seq::<StixIndicator>::empty()
    } else {
        flatten_indicators(bs.drop_last()) + bs.last()
    }
}

/// The patterns of a list of indicators.
pub open spec fn patterns_of(xs: Seq<StixIndicator>) -> Seq<Seq<char>> {
    xs.map_values(|i: StixIndicator| i.pattern@)
}

/// The first indicator of each pattern, in order.
pub open spec fn unique_by_pattern(xs: Seq<StixIndicator>) -> Seq<StixIndicator>
    decreases xs.len(),
{
    if xs.len() == 0 {
        Seq::<StixIndicator>::empty()
    } else {
        let prev = unique_by_pattern(xs.drop_last());
        if patterns_of(prev).contains(xs.last().pattern@) {
            prev
        } else {
            prev.push(xs.last())
        }
    }
}

/// Whether some indicator of `xs` has the pattern `p`.
fn has_pattern(xs: &Vec<StixIndicator>, p: &str) -> (r: bool)
    ensures
        r == patterns_of(xs@).contains(p@),
{
    let mut i: usize = 0;
    while i < xs.len()
        invariant
            i <= xs.len(),
            forall|k: int| 0 <= k < i ==> patterns_of(xs@)[k] != p@,
        decreases xs.len() - i,
    {
        if str_eq(xs[i].pattern.as_str(), p) {
            assert(patterns_of(xs@)[i as int] == p@);
            return true;
        }
        i = i + 1;
    }
    false
}

/// Merge lists of indicators, keeping the first indicator of each pattern.
///
/// The patterns seen are kept in a `Vec` searched from its start, so the time
/// grows with the square of the number of indicators; a `HashSet<String>`
/// would be linear, but its specification proves nothing of `String` keys.
pub fn merge_unique_by_pattern(batches: Vec<Vec<StixIndicator>>) -> (r: Vec<StixIndicator>)
    ensures
        r@ == unique_by_pattern(
            flatten_indicators(batches@.map_values(|b: Vec<StixIndicator>| b@)),
        ),
{
    let ghost all = batches@.map_values(|b: Vec<StixIndicator>| b@);
    let ghost total = batches@.len();
    assert(total == batches.len());
    let mut rest = batches;
    let mut out: Vec<StixIndicator> = Vec::new();
    let mut k: usize = 0;
    proof {
        assert(all.take(0) =~= Seq::<Seq<StixIndicator>>::empty());
    }
    while rest.len() > 0
        invariant
            k <= total,
            total <= usize::MAX,
            all.len() == total,
            rest@.len() == total - k,
            forall|j: int| 0 <= j < rest@.len() ==> #[trigger] rest@[j]@ == all[k + j],
            out@ == unique_by_pattern(flatten_indicators(all.take(k as int))),
        decreases rest@.len(),
    {
        let ghost old_rest = rest@;
        assert(old_rest[0]@ == all[k + 0]);
        let mut batch = rest.remove(0);
        assert(batch@ == all[k as int]);
        let ghost prefix = flatten_indicators(all.take(k as int));
        let ghost b = batch@;
        let ghost blen = b.len();
        assert(blen == batch.len());
        let mut m: usize = 0;
        proof {
            assert(b.take(0) =~= Seq::<StixIndicator>::empty());
            assert(prefix + b.take(0) =~= prefix);
        }
        while batch.len() > 0
            invariant
                m <= blen,
                blen <= usize::MAX,
                b.len() == blen,
                batch@ == b.skip(m as int),
                out@ == unique_by_pattern(prefix + b.take(m as int)),
            decreases batch@.len(),
        {
            let ind = batch.remove(0);
            proof {
                assert(ind == b[m as int]);
                assert((prefix + b.take(m + 1)).drop_last() =~= prefix + b.take(m as int));
                assert((prefix + b.take(m + 1)).last() == ind);
                assert(b.skip(m as int).remove(0) =~= b.skip(m + 1));
            }
            if !has_pattern(&out, ind.pattern.as_str()) {
                out.push(ind);
            }
            m = m + 1;
        }
        proof {
            assert(b.take(blen as int) =~= b);
            assert(all.take(k + 1).drop_last() =~= all.take(k as int));
            assert(all.take(k + 1).last() == b);
            assert forall|j: int| 0 <= j < rest@.len() implies #[trigger] rest@[j]@ == all[(k + 1)
                + j] by {
                assert(rest@[j] == old_rest[j + 1]);
                assert(old_rest[j + 1]@ == all[k + (j + 1)]);
            }
        }
        k = k + 1;
    }
    proof {
        assert(all.take(total as int) =~= all);
    }
    out
}


/// The TLP marking of an event (TLP:WHITE when it has no TLP tag or an unknown one).
fn event_marking(event: &MispEvent) -> (r: &'static str)
    ensures
        r@ == event_tlp(*event),
{
    match event.get_tlp() {
        Some(name) => match from_tag(name) {
            Some(m) => m,
            None => WHITE,
        },
        None => WHITE,
    }
}

impl Syncer {
    /// Convert one event at time `now`, skipping patterns already in `seen`
    /// and adding the new ones to it.
    pub fn convert_event_at(
        &self,
        event: &MispEvent,
        seen: &mut Vec<String>,
        now: Timestamp,
    ) -> (r: Vec<StixIndicator>)
        requires
            clock_secs_in_range(now),
        ensures
            final(seen).deep_view() == convert_attrs(
                self.config,
                event_actionable(*event),
                old(seen).deep_view(),
            ).0,
            indicators_for(
                self.config,
                tag_event(
                    *event,
                    convert_attrs(self.config, event_actionable(*event), old(seen).deep_view()).1,
                ),
                r@,
                now,
            ),
    {
        let cfg = &self.config;
        let tlp = event_marking(event);
        let threat = event.get_threat_type();
        let labels = event.get_labels(true);
        let attrs = event.get_actionable_attributes();
        let ghost acts = event_actionable(*event);
        let ghost seen0 = seen.deep_view();
        let ghost mut pairs = Seq::<(MispAttribute, Seq<char>)>::empty();
        let mut out: Vec<StixIndicator> = Vec::new();
        let mut i: usize = 0;
        proof {
            reveal_strlit("stix");
            assert(acts.take(0) =~= Seq::<MispAttribute>::empty());
            assert(tag_event(*event, pairs) =~= Seq::<(MispEvent, MispAttribute, Seq<char>)>::empty());
        }
        while i < attrs.len()
            invariant
                i <= attrs.len(),
                attrs@.map_values(|a: &MispAttribute| *a) == acts,
                acts == event_actionable(*event),
                clock_secs_in_range(now),
                tlp@ == event_tlp(*event),
                threat.deep_view() == threat_type_from_tags(event.tags@),
                labels.deep_view() == labels_of(event.tags@, true),
                "stix"@.len() == 4,
                convert_attrs(*cfg, acts.take(i as int), seen0) == (seen.deep_view(), pairs),
                indicators_for(*cfg, tag_event(*event, pairs), out@, now),
                cfg == &self.config,
            decreases attrs.len() - i,
        {
            let attr = attrs[i];
            proof {
                assert(acts[i as int] == *attr);
                assert(acts.take(i + 1).drop_last() =~= acts.take(i as int));
                assert(acts.take(i + 1).last() == *attr);
            }
            if self.should_include_type(attr.attr_type.as_str()) {
                if let Some(pattern) = self.create_pattern_for_attribute(attr) {
                    if !contains_string(seen, pattern.as_str()) {
                        let copy = pattern.clone();
                        let ghost p = pattern@;
                        let ghost before = seen.deep_view();
                        seen.push(copy);
                        assert(seen.deep_view() =~= before.push(p));
                        let ind = self.create_indicator_at(
                            event,
                            attr,
                            pattern,
                            tlp,
                            &threat,
                            &labels,
                            now,
                        );
                        let ghost days = expiration_days_for(cfg.sync, *attr);
                        proof {
                            if days > 0 {
                                lemma_plus_days_after(now, days as nat);
                            } else {
                                assert(ts_plus_days(now, 0) == now);
                            }
                        }
                        if self.validate_indicator(&ind, now).is_ok() {
                            let ghost old_out = out@;
                            let ghost old_pairs = pairs;
                            out.push(ind);
                            proof {
                                pairs = pairs.push((*attr, p));
                                assert(tag_event(*event, pairs) =~= tag_event(*event, old_pairs).push(
                                    (*event, *attr, p),
                                ));
                                assert forall|k: int| 0 <= k < out@.len() implies #[trigger] is_event_indicator(
                                    out@[k],
                                    *cfg,
                                    tag_event(*event, pairs)[k].0,
                                    tag_event(*event, pairs)[k].1,
                                    tag_event(*event, pairs)[k].2,
                                    now,
                                ) by {
                                    if k < old_out.len() {
                                        assert(out@[k] == old_out[k]);
                                        assert(tag_event(*event, pairs)[k] == tag_event(
                                            *event,
                                            old_pairs,
                                        )[k]);
                                    }
                                }
                            }
                        }
                    }
                }
            }
            i = i + 1;
        }
        proof {
            assert(acts.take(attrs.len() as int) =~= acts);
        }
        out
    }

    /// Convert one event at time `now` on its own, for work that is spread
    /// over several threads: patterns are deduplicated within the event only.
    pub fn convert_event_for_parallel(&self, event: &MispEvent, now: Timestamp) -> (r: Vec<
        StixIndicator,
    >)
        requires
            clock_secs_in_range(now),
        ensures
            indicators_for(
                self.config,
                tag_event(
                    *event,
                    convert_attrs(
                        self.config,
                        event_actionable(*event),
                        Seq::<Seq<char>>::empty(),
                    ).1,
                ),
                r@,
                now,
            ),
    {
        let mut seen: Vec<String> = Vec::new();
        proof {
            assert(seen.deep_view() =~= Seq::<Seq<char>>::empty());
        }
        self.convert_event_at(event, &mut seen, now)
    }

    /// Convert events one after the other at time `now`, skipping any pattern
    /// produced before (across all events).
    ///
    /// The patterns seen are kept in a `Vec` searched from its start, so the time
    /// grows with the square of the number of indicators; a `HashSet<String>`
    /// would be linear, but its specification proves nothing of `String` keys.
    pub fn convert_events_to_indicators_at(&self, events: &Vec<MispEvent>, now: Timestamp) -> (r:
        Vec<StixIndicator>)
        requires
            clock_secs_in_range(now),
        ensures
            indicators_for(
                self.config,
                convert_events_spec(self.config, events@, Seq::<Seq<char>>::empty()).1,
                r@,
                now,
            ),
    {
        let mut seen: Vec<String> = Vec::new();
        let mut out: Vec<StixIndicator> = Vec::new();
        let mut i: usize = 0;
        proof {
            assert(seen.deep_view() =~= Seq::<Seq<char>>::empty());
            assert(events@.take(0) =~= Seq::<MispEvent>::empty());
        }
        while i < events.len()
            invariant
                i <= events.len(),
                clock_secs_in_range(now),
                convert_events_spec(self.config, events@.take(i as int), Seq::<Seq<char>>::empty())
                    == (seen.deep_view(), convert_events_spec(
                    self.config,
                    events@.take(i as int),
                    Seq::<Seq<char>>::empty(),
                ).1),
                indicators_for(
                    self.config,
                    convert_events_spec(
                        self.config,
                        events@.take(i as int),
                        Seq::<Seq<char>>::empty(),
                    ).1,
                    out@,
                    now,
                ),
            decreases events.len() - i,
        {
            let event = &events[i];
            let ghost prev = convert_events_spec(
                self.config,
                events@.take(i as int),
                Seq::<Seq<char>>::empty(),
            );
            proof {
                assert(events@.take(i + 1).drop_last() =~= events@.take(i as int));
                assert(events@.take(i + 1).last() == *event);
            }
            let mut inds = self.convert_event_at(event, &mut seen, now);
            let ghost old_out = out@;
            let ghost added = inds@;
            out.append(&mut inds);
            proof {
                let o2 = tag_event(
                    *event,
                    convert_attrs(self.config, event_actionable(*event), prev.0).1,
                );
                let next = convert_events_spec(
                    self.config,
                    events@.take(i + 1),
                    Seq::<Seq<char>>::empty(),
                );
                assert(next.1 == prev.1 + o2);
                assert(out@ =~= old_out + added);
                assert forall|k: int| 0 <= k < out@.len() implies #[trigger] is_event_indicator(
                    out@[k],
                    self.config,
                    next.1[k].0,
                    next.1[k].1,
                    next.1[k].2,
                    now,
                ) by {
                    if k < old_out.len() {
                        assert(out@[k] == old_out[k]);
                        assert(next.1[k] == prev.1[k]);
                    } else {
                        let j = k - old_out.len();
                        assert(out@[k] == added[j]);
                        assert(next.1[k] == o2[j]);
                        assert(is_event_indicator(added[j], self.config, o2[j].0, o2[j].1, o2[j].2, now));
                    }
                }
            }
            i = i + 1;
        }
        proof {
            assert(events@.take(events.len() as int) =~= events@);
        }
        out
    }

    /// Convert events one after the other at the current time, skipping any
    /// pattern produced before (across all events). Fails only when the system
    /// clock cannot be read as a time after 1970.
    pub fn convert_events_to_indicators(&self, events: &Vec<MispEvent>) -> (r: Result<
        Vec<StixIndicator>,
        Error,
    >)
        ensures
            r matches Ok(v) ==> exists|now: Timestamp|
                clock_secs_in_range(now) && indicators_for(
                    self.config,
                    convert_events_spec(self.config, events@, Seq::<Seq<char>>::empty()).1,
                    v@,
                    now,
                ),
            r matches Err(e) ==> e matches Error::StixConversion(m) && m@ == CLOCK_ERROR@,
    {
        match utc_now() {
            Some(now) => {
                let r = self.convert_events_to_indicators_at(events, now);
                assert(clock_secs_in_range(now));
                Ok(r)
            },
            None => Err(Error::StixConversion(CLOCK_ERROR.to_string())),
        }
    }
}

} // verus!
