//! What holds of conversion as a whole: every pattern is uploaded once, and
//! converting events on several threads and merging gives the same
//! indicators, by identifier and pattern, as converting them one after the
//! other.

use crate::config::Config;
use crate::misp::{event_actionable, MispAttribute, MispEvent};
use crate::stix::{deterministic_id, StixIndicator};
use crate::sync::pattern::pattern_for;
use crate::sync::{
    convert_attrs, convert_events_spec, flatten_indicators, include_type, indicator_valid,
    indicators_for, is_event_indicator, patterns_of, tag_event, unique_by_pattern,
};
use vstd::prelude::*;

verus! {

// ---------------------------------------------------------------------------
// Definitions
// ---------------------------------------------------------------------------

/// The patterns of a list of (identifier, pattern) pairs.
pub open spec fn keys(ps: Seq<(Seq<char>, Seq<char>)>) -> Seq<Seq<char>> {
    ps.map_values(|x: (Seq<char>, Seq<char>)| x.1)
}

/// The (identifier, pattern) pairs of `ps` whose pattern is not in `seen`,
/// the first pair of each pattern, in order.
pub open spec fn dedup_from(ps: Seq<(Seq<char>, Seq<char>)>, seen: Seq<Seq<char>>) -> Seq<
    (Seq<char>, Seq<char>),
>
    decreases ps.len(),
{
    if ps.len() == 0 {
        Seq::<(Seq<char>, Seq<char>)>::empty()
    } else {
        let prev = dedup_from(ps.drop_last(), seen);
        if (seen + keys(prev)).contains(ps.last().1) {
            prev
        } else {
            prev.push(ps.last())
        }
    }
}

/// The identifier of the indicator made for an attribute.
pub open spec fn attr_id(a: MispAttribute) -> Seq<char> {
    deterministic_id("indicator"@, a.uuid@)
}

/// The (identifier, pattern) pairs of the attributes whose type is included
/// and that have a pattern, in order.
pub open spec fn candidates(cfg: Config, attrs: Seq<MispAttribute>) -> Seq<(Seq<char>, Seq<char>)>
    decreases attrs.len(),
{
    if attrs.len() == 0 {
        Seq::<(Seq<char>, Seq<char>)>::empty()
    } else {
        let prev = candidates(cfg, attrs.drop_last());
        let a = attrs.last();
        if include_type(cfg.sync, a.attr_type@) {
            match pattern_for(a.attr_type@, a.value@) {
                Some(p) => prev.push((attr_id(a), p)),
                None => prev,
            }
        } else {
            prev
        }
    }
}

/// The candidate pairs of a list of events, event after event.
pub open spec fn event_candidates(cfg: Config, events: Seq<MispEvent>) -> Seq<(Seq<char>, Seq<char>)>
    decreases events.len(),
{
    if events.len() == 0 {
        Seq::<(Seq<char>, Seq<char>)>::empty()
    } else {
        event_candidates(cfg, events.drop_last()) + candidates(cfg, event_actionable(events.last()))
    }
}

/// The indicator of an included attribute with a pattern would pass validation.
pub open spec fn attr_valid(cfg: Config, a: MispAttribute) -> bool {
    include_type(cfg.sync, a.attr_type@) ==> match pattern_for(a.attr_type@, a.value@) {
        Some(p) => indicator_valid(cfg, a, p),
        None => true,
    }
}

/// Every attribute of the list would give a valid indicator.
pub open spec fn attrs_all_valid(cfg: Config, attrs: Seq<MispAttribute>) -> bool {
    forall|j: int| 0 <= j < attrs.len() ==> #[trigger] attr_valid(cfg, attrs[j])
}

/// Every actionable attribute of the events would give a valid indicator.
pub open spec fn events_all_valid(cfg: Config, events: Seq<MispEvent>) -> bool {
    forall|i: int| 0 <= i < events.len() ==> attrs_all_valid(cfg, event_actionable(#[trigger] events[i]))
}

/// The patterns of (attribute, pattern) pairs.
pub open spec fn pair_patterns(out: Seq<(MispAttribute, Seq<char>)>) -> Seq<Seq<char>> {
    out.map_values(|x: (MispAttribute, Seq<char>)| x.1)
}

/// The patterns of (event, attribute, pattern) triples.
pub open spec fn triple_patterns(out: Seq<(MispEvent, MispAttribute, Seq<char>)>) -> Seq<Seq<char>> {
    out.map_values(|x: (MispEvent, MispAttribute, Seq<char>)| x.2)
}

/// The (identifier, pattern) pairs of (attribute, pattern) pairs.
pub open spec fn pair_keys(out: Seq<(MispAttribute, Seq<char>)>) -> Seq<(Seq<char>, Seq<char>)> {
    out.map_values(|x: (MispAttribute, Seq<char>)| (attr_id(x.0), x.1))
}

/// The (identifier, pattern) pairs of (event, attribute, pattern) triples.
pub open spec fn triple_keys(out: Seq<(MispEvent, MispAttribute, Seq<char>)>) -> Seq<
    (Seq<char>, Seq<char>),
> {
    out.map_values(|x: (MispEvent, MispAttribute, Seq<char>)| (attr_id(x.1), x.2))
}

/// The identifier and pattern of each indicator of a list.
pub open spec fn identities(xs: Seq<StixIndicator>) -> Seq<(Seq<char>, Seq<char>)> {
    xs.map_values(|i: StixIndicator| (i.id@, i.pattern@))
}

/// No item occurs twice.
pub open spec fn all_distinct(ps: Seq<Seq<char>>) -> bool {
    forall|i: int, j: int| 0 <= i < j < ps.len() ==> #[trigger] ps[i] != #[trigger] ps[j]
}

// ---------------------------------------------------------------------------
// Deduplication
// ---------------------------------------------------------------------------

proof fn lemma_push_contains(q: Seq<Seq<char>>, y: Seq<char>, k: Seq<char>)
    ensures
        q.push(y).contains(k) <==> (q.contains(k) || k == y),
{
    if q.contains(k) {
        let i = choose|i: int| 0 <= i < q.len() && q[i] == k;
        assert(q.push(y)[i] == k);
    }
    if k == y {
        assert(q.push(y)[q.len() as int] == y);
    }
    if q.push(y).contains(k) {
        let i = choose|i: int| 0 <= i < q.push(y).len() && q.push(y)[i] == k;
        if i < q.len() {
            assert(q[i] == k);
        }
    }
}

proof fn lemma_keys_add(a: Seq<(Seq<char>, Seq<char>)>, b: Seq<(Seq<char>, Seq<char>)>)
    ensures
        keys(a + b) == keys(a) + keys(b),
{
    assert(keys(a + b) =~= keys(a) + keys(b));
}

proof fn lemma_keys_push(a: Seq<(Seq<char>, Seq<char>)>, x: (Seq<char>, Seq<char>))
    ensures
        keys(a.push(x)) == keys(a).push(x.1),
{
    assert(keys(a.push(x)) =~= keys(a).push(x.1));
}

proof fn lemma_dedup_append(
    a: Seq<(Seq<char>, Seq<char>)>,
    b: Seq<(Seq<char>, Seq<char>)>,
    s: Seq<Seq<char>>,
)
    ensures
        dedup_from(a + b, s) == dedup_from(a, s) + dedup_from(b, s + keys(dedup_from(a, s))),
    decreases b.len(),
{
    if b.len() == 0 {
        assert(a + b =~= a);
        assert(dedup_from(a, s) + dedup_from(b, s + keys(dedup_from(a, s))) =~= dedup_from(a, s));
    } else {
        let b1 = b.drop_last();
        let x = b.last();
        lemma_dedup_append(a, b1, s);
        assert((a + b).drop_last() =~= a + b1);
        assert((a + b).last() == x);
        let da = dedup_from(a, s);
        let d1 = dedup_from(b1, s + keys(da));
        lemma_keys_add(da, d1);
        assert(s + keys(da + d1) =~= (s + keys(da)) + keys(d1));
        if !((s + keys(da)) + keys(d1)).contains(x.1) {
            assert((da + d1).push(x) =~= da + d1.push(x));
        }
    }
}

proof fn lemma_dedup_covers(c: Seq<(Seq<char>, Seq<char>)>, s: Seq<Seq<char>>)
    ensures
        forall|k: Seq<char>| keys(c).contains(k) ==> (s + keys(dedup_from(c, s))).contains(k),
        forall|k: Seq<char>| keys(dedup_from(c, s)).contains(k) ==> keys(c).contains(k),
    decreases c.len(),
{
    if c.len() > 0 {
        let c1 = c.drop_last();
        let x = c.last();
        lemma_dedup_covers(c1, s);
        let p = dedup_from(c1, s);
        assert(keys(c) =~= keys(c1).push(x.1));
        if (s + keys(p)).contains(x.1) {
            assert forall|k: Seq<char>| keys(c).contains(k) implies (s + keys(p)).contains(k) by {
                lemma_push_contains(keys(c1), x.1, k);
            }
            assert forall|k: Seq<char>| keys(p).contains(k) implies keys(c).contains(k) by {
                lemma_push_contains(keys(c1), x.1, k);
            }
        } else {
            lemma_keys_push(p, x);
            assert(s + keys(p).push(x.1) =~= (s + keys(p)).push(x.1));
            assert forall|k: Seq<char>| keys(c).contains(k) implies (s + keys(p)).push(x.1).contains(
                k,
            ) by {
                lemma_push_contains(keys(c1), x.1, k);
                lemma_push_contains(s + keys(p), x.1, k);
            }
            assert forall|k: Seq<char>| keys(p).push(x.1).contains(k) implies keys(c).contains(k) by {
                lemma_push_contains(keys(p), x.1, k);
                lemma_push_contains(keys(c1), x.1, k);
            }
        }
    }
}

proof fn lemma_dedup_twice(c: Seq<(Seq<char>, Seq<char>)>, s: Seq<Seq<char>>)
    ensures
        dedup_from(dedup_from(c, Seq::<Seq<char>>::empty()), s) == dedup_from(c, s),
    decreases c.len(),
{
    let e = Seq::<Seq<char>>::empty();
    if c.len() > 0 {
        let c1 = c.drop_last();
        let x = c.last();
        lemma_dedup_twice(c1, s);
        let d1 = dedup_from(c1, e);
        assert(e + keys(d1) =~= keys(d1));
        if keys(d1).contains(x.1) {
            lemma_dedup_covers(c1, e);
            lemma_dedup_covers(c1, s);
            assert(keys(c1).contains(x.1));
        } else {
            assert(d1.push(x).drop_last() =~= d1);
        }
    }
}

// ---------------------------------------------------------------------------
// Conversion and deduplication
// ---------------------------------------------------------------------------

proof fn lemma_convert_attrs_dedup(cfg: Config, attrs: Seq<MispAttribute>, seen: Seq<Seq<char>>)
    requires
        attrs_all_valid(cfg, attrs),
    ensures
        convert_attrs(cfg, attrs, seen).0 == seen + keys(dedup_from(candidates(cfg, attrs), seen)),
        pair_keys(convert_attrs(cfg, attrs, seen).1) == dedup_from(candidates(cfg, attrs), seen),
    decreases attrs.len(),
{
    if attrs.len() == 0 {
        assert(seen + keys(Seq::<(Seq<char>, Seq<char>)>::empty()) =~= seen);
        assert(pair_keys(Seq::<(MispAttribute, Seq<char>)>::empty()) =~= Seq::<
            (Seq<char>, Seq<char>),
        >::empty());
    } else {
        let a1 = attrs.drop_last();
        let a = attrs.last();
        assert(attrs_all_valid(cfg, a1)) by {
            assert forall|j: int| 0 <= j < a1.len() implies #[trigger] attr_valid(cfg, a1[j]) by {
                assert(a1[j] == attrs[j]);
            }
        }
        assert(attr_valid(cfg, attrs[attrs.len() - 1]));
        lemma_convert_attrs_dedup(cfg, a1, seen);
        let (s, out) = convert_attrs(cfg, a1, seen);
        let c1 = candidates(cfg, a1);
        if include_type(cfg.sync, a.attr_type@) {
            if let Some(p) = pattern_for(a.attr_type@, a.value@) {
                assert(c1.push((attr_id(a), p)).drop_last() =~= c1);
                if !s.contains(p) {
                    let d = dedup_from(c1, seen);
                    lemma_keys_push(d, (attr_id(a), p));
                    assert(s.push(p) =~= seen + keys(d).push(p));
                    assert(pair_keys(out.push((a, p))) =~= pair_keys(out).push((attr_id(a), p)));
                }
            }
        }
    }
}

proof fn lemma_tag_event_keys(e: MispEvent, pairs: Seq<(MispAttribute, Seq<char>)>)
    ensures
        triple_keys(tag_event(e, pairs)) == pair_keys(pairs),
{
    assert(triple_keys(tag_event(e, pairs)) =~= pair_keys(pairs));
}

proof fn lemma_convert_events_dedup(cfg: Config, events: Seq<MispEvent>, seen: Seq<Seq<char>>)
    requires
        events_all_valid(cfg, events),
    ensures
        convert_events_spec(cfg, events, seen).0 == seen + keys(
            dedup_from(event_candidates(cfg, events), seen),
        ),
        triple_keys(convert_events_spec(cfg, events, seen).1) == dedup_from(
            event_candidates(cfg, events),
            seen,
        ),
    decreases events.len(),
{
    if events.len() == 0 {
        assert(seen + keys(Seq::<(Seq<char>, Seq<char>)>::empty()) =~= seen);
        assert(triple_keys(Seq::<(MispEvent, MispAttribute, Seq<char>)>::empty()) =~= Seq::<
            (Seq<char>, Seq<char>),
        >::empty());
    } else {
        let ev1 = events.drop_last();
        let e = events.last();
        assert(events_all_valid(cfg, ev1)) by {
            assert forall|i: int| 0 <= i < ev1.len() implies attrs_all_valid(
                cfg,
                event_actionable(#[trigger] ev1[i]),
            ) by {
                assert(ev1[i] == events[i]);
            }
        }
        assert(attrs_all_valid(cfg, event_actionable(events[events.len() - 1])));
        lemma_convert_events_dedup(cfg, ev1, seen);
        let (s, out) = convert_events_spec(cfg, ev1, seen);
        let acts = event_actionable(e);
        lemma_convert_attrs_dedup(cfg, acts, s);
        let (s2, o2) = convert_attrs(cfg, acts, s);
        let ec1 = event_candidates(cfg, ev1);
        let ce = candidates(cfg, acts);
        lemma_dedup_append(ec1, ce, seen);
        let d1 = dedup_from(ec1, seen);
        lemma_keys_add(d1, dedup_from(ce, s));
        assert(s2 =~= seen + keys(d1 + dedup_from(ce, s)));
        lemma_tag_event_keys(e, o2);
        assert(triple_keys(out + tag_event(e, o2)) =~= triple_keys(out) + triple_keys(
            tag_event(e, o2),
        ));
    }
}

// ---------------------------------------------------------------------------
// Indicators and their identities
// ---------------------------------------------------------------------------

proof fn lemma_identities_patterns(xs: Seq<StixIndicator>)
    ensures
        keys(identities(xs)) == patterns_of(xs),
{
    assert(keys(identities(xs)) =~= patterns_of(xs));
}

proof fn lemma_indicator_identities(
    cfg: Config,
    out: Seq<(MispEvent, MispAttribute, Seq<char>)>,
    inds: Seq<StixIndicator>,
    now: crate::timestamp::Timestamp,
)
    requires
        indicators_for(cfg, out, inds, now),
    ensures
        identities(inds) == triple_keys(out),
        patterns_of(inds) == triple_patterns(out),
{
    assert forall|k: int| 0 <= k < inds.len() implies #[trigger] identities(inds)[k]
        == triple_keys(out)[k] by {
        assert(is_event_indicator(inds[k], cfg, out[k].0, out[k].1, out[k].2, now));
    }
    assert forall|k: int| 0 <= k < inds.len() implies #[trigger] patterns_of(inds)[k]
        == triple_patterns(out)[k] by {
        assert(is_event_indicator(inds[k], cfg, out[k].0, out[k].1, out[k].2, now));
    }
    assert(identities(inds) =~= triple_keys(out));
    assert(patterns_of(inds) =~= triple_patterns(out));
}

proof fn lemma_unique_by_pattern_dedup(xs: Seq<StixIndicator>)
    ensures
        identities(unique_by_pattern(xs)) == dedup_from(identities(xs), Seq::<Seq<char>>::empty()),
    decreases xs.len(),
{
    if xs.len() == 0 {
        assert(identities(xs) =~= Seq::<(Seq<char>, Seq<char>)>::empty());
        assert(identities(Seq::<StixIndicator>::empty()) =~= Seq::<(Seq<char>, Seq<char>)>::empty());
    } else {
        let x1 = xs.drop_last();
        lemma_unique_by_pattern_dedup(x1);
        let prev = unique_by_pattern(x1);
        assert(identities(xs).drop_last() =~= identities(x1));
        assert(identities(xs).last() == (xs.last().id@, xs.last().pattern@));
        lemma_identities_patterns(prev);
        assert(Seq::<Seq<char>>::empty() + keys(identities(prev)) =~= patterns_of(prev));
        assert(identities(prev.push(xs.last())) =~= identities(prev).push(
            (xs.last().id@, xs.last().pattern@),
        ));
    }
}

proof fn lemma_merge_matches_events(
    cfg: Config,
    events: Seq<MispEvent>,
    par: Seq<Seq<StixIndicator>>,
    s: Seq<Seq<char>>,
)
    requires
        par.len() == events.len(),
        forall|i: int|
            0 <= i < events.len() ==> identities(#[trigger] par[i]) == dedup_from(
                candidates(cfg, event_actionable(events[i])),
                Seq::<Seq<char>>::empty(),
            ),
    ensures
        dedup_from(identities(flatten_indicators(par)), s) == dedup_from(
            event_candidates(cfg, events),
            s,
        ),
    decreases events.len(),
{
    if events.len() == 0 {
        assert(identities(Seq::<StixIndicator>::empty()) =~= Seq::<(Seq<char>, Seq<char>)>::empty());
    } else {
        let ev1 = events.drop_last();
        let p1 = par.drop_last();
        let q = par.last();
        let e = events.last();
        assert forall|i: int| 0 <= i < ev1.len() implies identities(#[trigger] p1[i]) == dedup_from(
            candidates(cfg, event_actionable(ev1[i])),
            Seq::<Seq<char>>::empty(),
        ) by {
            assert(p1[i] == par[i]);
            assert(ev1[i] == events[i]);
        }
        lemma_merge_matches_events(cfg, ev1, p1, s);
        let f1 = identities(flatten_indicators(p1));
        let pq = identities(q);
        assert(identities(flatten_indicators(par)) =~= f1 + pq);
        lemma_dedup_append(f1, pq, s);
        let a = dedup_from(f1, s);
        let ce = candidates(cfg, event_actionable(e));
        assert(pq == dedup_from(ce, Seq::<Seq<char>>::empty())) by {
            assert(q == par[par.len() - 1]);
            assert(e == events[events.len() - 1]);
        }
        lemma_dedup_twice(ce, s + keys(a));
        lemma_dedup_append(event_candidates(cfg, ev1), ce, s);
    }
}

/// Converting events on separate threads and merging the results, keeping the
/// first indicator of each pattern, gives the same indicators, by identifier
/// and pattern, in the same order as converting them one after the other,
/// when every indicator would pass validation.
pub proof fn lemma_parallel_matches_sequential(
    cfg: Config,
    events: Seq<MispEvent>,
    sequential: Seq<StixIndicator>,
    parallel: Seq<Seq<StixIndicator>>,
    now: crate::timestamp::Timestamp,
    now_parallel: crate::timestamp::Timestamp,
)
    requires
        events_all_valid(cfg, events),
        indicators_for(
            cfg,
            convert_events_spec(cfg, events, Seq::<Seq<char>>::empty()).1,
            sequential,
            now,
        ),
        parallel.len() == events.len(),
        forall|i: int|
            0 <= i < events.len() ==> indicators_for(
                cfg,
                tag_event(
                    events[i],
                    convert_attrs(cfg, event_actionable(events[i]), Seq::<Seq<char>>::empty()).1,
                ),
                #[trigger] parallel[i],
                now_parallel,
            ),
    ensures
        identities(unique_by_pattern(flatten_indicators(parallel))) == identities(sequential),
        patterns_of(unique_by_pattern(flatten_indicators(parallel))) == patterns_of(sequential),
{
    let e = Seq::<Seq<char>>::empty();
    assert forall|i: int| 0 <= i < events.len() implies identities(#[trigger] parallel[i])
        == dedup_from(candidates(cfg, event_actionable(events[i])), e) by {
        let acts = event_actionable(events[i]);
        assert(attrs_all_valid(cfg, acts));
        lemma_convert_attrs_dedup(cfg, acts, e);
        let pairs = convert_attrs(cfg, acts, e).1;
        lemma_indicator_identities(cfg, tag_event(events[i], pairs), parallel[i], now_parallel);
        lemma_tag_event_keys(events[i], pairs);
    }
    lemma_merge_matches_events(cfg, events, parallel, e);
    lemma_unique_by_pattern_dedup(flatten_indicators(parallel));
    lemma_convert_events_dedup(cfg, events, e);
    lemma_indicator_identities(cfg, convert_events_spec(cfg, events, e).1, sequential, now);
    lemma_identities_patterns(unique_by_pattern(flatten_indicators(parallel)));
    lemma_identities_patterns(sequential);
}

// ---------------------------------------------------------------------------
// Each pattern once
// ---------------------------------------------------------------------------

proof fn lemma_convert_attrs_fresh(cfg: Config, attrs: Seq<MispAttribute>, seen: Seq<Seq<char>>)
    ensures
        seen.len() <= convert_attrs(cfg, attrs, seen).0.len(),
        convert_attrs(cfg, attrs, seen).0.subrange(0, seen.len() as int) == seen,
        forall|k: int|
            0 <= k < convert_attrs(cfg, attrs, seen).1.len() ==> convert_attrs(
                cfg,
                attrs,
                seen,
            ).0.contains(#[trigger] convert_attrs(cfg, attrs, seen).1[k].1) && !seen.contains(
                convert_attrs(cfg, attrs, seen).1[k].1,
            ),
        all_distinct(pair_patterns(convert_attrs(cfg, attrs, seen).1)),
    decreases attrs.len(),
{
    if attrs.len() == 0 {
        assert(seen.subrange(0, seen.len() as int) =~= seen);
    } else {
        let a1 = attrs.drop_last();
        let a = attrs.last();
        lemma_convert_attrs_fresh(cfg, a1, seen);
        let (s, out) = convert_attrs(cfg, a1, seen);
        if include_type(cfg.sync, a.attr_type@) {
            if let Some(p) = pattern_for(a.attr_type@, a.value@) {
                if !s.contains(p) {
                    assert(s.push(p).subrange(0, seen.len() as int) =~= s.subrange(
                        0,
                        seen.len() as int,
                    ));
                    assert(!seen.contains(p)) by {
                        if seen.contains(p) {
                            let i = choose|i: int| 0 <= i < seen.len() && seen[i] == p;
                            assert(s[i] == seen[i]);
                        }
                    }
                    let ghost o2 = if indicator_valid(cfg, a, p) {
                        out.push((a, p))
                    } else {
                        out
                    };
                    assert forall|k: int| 0 <= k < o2.len() implies s.push(p).contains(
                        #[trigger] o2[k].1,
                    ) && !seen.contains(o2[k].1) by {
                        if k < out.len() {
                            assert(o2[k] == out[k]);
                            let j = choose|j: int| 0 <= j < s.len() && s[j] == out[k].1;
                            assert(s.push(p)[j] == out[k].1);
                        } else {
                            assert(s.push(p)[s.len() as int] == p);
                        }
                    }
                    assert forall|i: int, j: int| 0 <= i < j < o2.len() implies #[trigger] pair_patterns(o2)[i]
                        != #[trigger] pair_patterns(o2)[j] by {
                        assert(pair_patterns(o2)[i] == o2[i].1);
                        assert(pair_patterns(o2)[j] == o2[j].1);
                        if j < out.len() {
                            assert(pair_patterns(out)[i] == out[i].1);
                            assert(pair_patterns(out)[j] == out[j].1);
                        } else {
                            assert(o2[i] == out[i]);
                            assert(s.contains(out[i].1));
                        }
                    }
                }
            }
        }
    }
}

proof fn lemma_convert_events_fresh(cfg: Config, events: Seq<MispEvent>, seen: Seq<Seq<char>>)
    ensures
        seen.len() <= convert_events_spec(cfg, events, seen).0.len(),
        convert_events_spec(cfg, events, seen).0.subrange(0, seen.len() as int) == seen,
        forall|k: int|
            0 <= k < convert_events_spec(cfg, events, seen).1.len() ==> convert_events_spec(
                cfg,
                events,
                seen,
            ).0.contains(#[trigger] convert_events_spec(cfg, events, seen).1[k].2)
                && !seen.contains(convert_events_spec(cfg, events, seen).1[k].2),
        all_distinct(triple_patterns(convert_events_spec(cfg, events, seen).1)),
    decreases events.len(),
{
    if events.len() == 0 {
        assert(seen.subrange(0, seen.len() as int) =~= seen);
    } else {
        let ev1 = events.drop_last();
        let e = events.last();
        lemma_convert_events_fresh(cfg, ev1, seen);
        let (s, out) = convert_events_spec(cfg, ev1, seen);
        let acts = event_actionable(e);
        lemma_convert_attrs_fresh(cfg, acts, s);
        let (s2, o2) = convert_attrs(cfg, acts, s);
        let t2 = tag_event(e, o2);
        let all = out + t2;
        assert(s2.subrange(0, seen.len() as int) =~= s.subrange(0, seen.len() as int)) by {
            assert forall|i: int| 0 <= i < seen.len() implies s2[i] == s[i] by {
                assert(s2.subrange(0, s.len() as int)[i] == s[i]);
            }
        }
        assert forall|x: Seq<char>| s.contains(x) implies s2.contains(x) by {
            let i = choose|i: int| 0 <= i < s.len() && s[i] == x;
            assert(s2.subrange(0, s.len() as int)[i] == s[i]);
        }
        assert forall|x: Seq<char>| seen.contains(x) implies s.contains(x) by {
            let i = choose|i: int| 0 <= i < seen.len() && seen[i] == x;
            assert(s.subrange(0, seen.len() as int)[i] == seen[i]);
        }
        assert forall|k: int| 0 <= k < all.len() implies s2.contains(#[trigger] all[k].2)
            && !seen.contains(all[k].2) by {
            if k < out.len() {
                assert(all[k] == out[k]);
            } else {
                let j = k - out.len();
                assert(all[k] == t2[j]);
                assert(t2[j].2 == o2[j].1);
            }
        }
        assert forall|i: int, j: int| 0 <= i < j < all.len() implies #[trigger] triple_patterns(all)[i]
            != #[trigger] triple_patterns(all)[j] by {
            assert(triple_patterns(all)[i] == all[i].2);
            assert(triple_patterns(all)[j] == all[j].2);
            if j < out.len() {
                assert(all[i] == out[i]);
                assert(all[j] == out[j]);
                assert(triple_patterns(out)[i] == out[i].2);
                assert(triple_patterns(out)[j] == out[j].2);
            } else if i < out.len() {
                assert(all[i] == out[i]);
                let jj = j - out.len();
                assert(all[j] == t2[jj]);
                assert(t2[jj].2 == o2[jj].1);
                assert(s.contains(out[i].2));
            } else {
                let ii = i - out.len();
                let jj = j - out.len();
                assert(all[i] == t2[ii]);
                assert(all[j] == t2[jj]);
                assert(t2[ii].2 == o2[ii].1);
                assert(t2[jj].2 == o2[jj].1);
                assert(pair_patterns(o2)[ii] == o2[ii].1);
                assert(pair_patterns(o2)[jj] == o2[jj].1);
            }
        }
    }
}

/// Converting events one after the other yields each pattern at most once.
pub proof fn lemma_sequential_patterns_distinct(
    cfg: Config,
    events: Seq<MispEvent>,
    indicators: Seq<StixIndicator>,
    now: crate::timestamp::Timestamp,
)
    requires
        indicators_for(
            cfg,
            convert_events_spec(cfg, events, Seq::<Seq<char>>::empty()).1,
            indicators,
            now,
        ),
    ensures
        all_distinct(patterns_of(indicators)),
{
    let e = Seq::<Seq<char>>::empty();
    lemma_convert_events_fresh(cfg, events, e);
    lemma_indicator_identities(cfg, convert_events_spec(cfg, events, e).1, indicators, now);
}

/// Merging lists of indicators keeps each pattern at most once.
pub proof fn lemma_merge_patterns_distinct(xs: Seq<StixIndicator>)
    ensures
        all_distinct(patterns_of(unique_by_pattern(xs))),
    decreases xs.len(),
{
    if xs.len() > 0 {
        let x1 = xs.drop_last();
        lemma_merge_patterns_distinct(x1);
        let prev = unique_by_pattern(x1);
        let y = xs.last();
        if !patterns_of(prev).contains(y.pattern@) {
            let r = prev.push(y);
            assert forall|i: int, j: int| 0 <= i < j < patterns_of(r).len() implies #[trigger] patterns_of(r)[i]
                != #[trigger] patterns_of(r)[j] by {
                assert(patterns_of(r)[i] == r[i].pattern@);
                assert(patterns_of(r)[j] == r[j].pattern@);
                if j < prev.len() {
                    assert(patterns_of(prev)[i] == prev[i].pattern@);
                    assert(patterns_of(prev)[j] == prev[j].pattern@);
                } else {
                    assert(patterns_of(prev)[i] == prev[i].pattern@);
                }
            }
        }
    }
}

// ---------------------------------------------------------------------------
// Stateless runs
// ---------------------------------------------------------------------------

/// Converting the same events in two runs, at any two times, gives the same
/// indicators in the same order as far as their identity goes: the same
/// identifiers (made from the MISP attribute UUIDs) and the same patterns.
pub proof fn lemma_runs_agree(
    cfg: Config,
    events: Seq<MispEvent>,
    first: Seq<StixIndicator>,
    second: Seq<StixIndicator>,
    now_first: crate::timestamp::Timestamp,
    now_second: crate::timestamp::Timestamp,
)
    requires
        indicators_for(
            cfg,
            convert_events_spec(cfg, events, Seq::<Seq<char>>::empty()).1,
            first,
            now_first,
        ),
        indicators_for(
            cfg,
            convert_events_spec(cfg, events, Seq::<Seq<char>>::empty()).1,
            second,
            now_second,
        ),
    ensures
        first.len() == second.len(),
        forall|k: int|
            0 <= k < first.len() ==> (#[trigger] first[k]).id@ == second[k].id@ && first[k].pattern@
                == second[k].pattern@,
{
    let out = convert_events_spec(cfg, events, Seq::<Seq<char>>::empty()).1;
    assert forall|k: int| 0 <= k < first.len() implies (#[trigger] first[k]).id@ == second[k].id@
        && first[k].pattern@ == second[k].pattern@ by {
        assert(is_event_indicator(first[k], cfg, out[k].0, out[k].1, out[k].2, now_first));
        assert(is_event_indicator(second[k], cfg, out[k].0, out[k].1, out[k].2, now_second));
    }
}

} // verus!
