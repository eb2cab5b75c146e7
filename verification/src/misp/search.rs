//! The body of a MISP `restSearch` request: which parameters the filters
//! give, and their values.

use crate::config::{CustomFilter, MispFilters};
use vstd::prelude::*;

verus! {

/// A parameter's value, as the request body carries it.
#[derive(Debug, Clone)]
pub enum RequestValue {
    Text(String),
    Number(u32),
    Flag(bool),
    Texts(Vec<String>),
    Numbers(Vec<u8>),
    /// A value given as JSON text, passed on as it is.
    Json(String),
}

/// What a parameter's value is.
pub enum ParamView {
    Text(Seq<char>),
    Number(nat),
    Flag(bool),
    Texts(Seq<Seq<char>>),
    Numbers(Seq<u8>),
    Json(Seq<char>),
}

impl View for RequestValue {
    type V = ParamView;

    open spec fn view(&self) -> ParamView {
        match self {
            RequestValue::Text(s) => ParamView::Text(s@),
            RequestValue::Number(n) => ParamView::Number(*n as nat),
            RequestValue::Flag(b) => ParamView::Flag(*b),
            RequestValue::Texts(v) => ParamView::Texts(v.deep_view()),
            RequestValue::Numbers(v) => ParamView::Numbers(v@),
            RequestValue::Json(s) => ParamView::Json(s@),
        }
    }
}

/// One parameter of the request.
#[derive(Debug, Clone)]
pub struct SearchParam {
    pub key: String,
    pub value: RequestValue,
}

/// The parameters of a search request, each key once.
#[derive(Debug, Clone)]
pub struct SearchRequest {
    pub params: Vec<SearchParam>,
}

/// The (key, value) pairs of a list of parameters.
pub open spec fn params_view(ps: Seq<SearchParam>) -> Seq<(Seq<char>, ParamView)> {
    ps.map_values(|p: SearchParam| (p.key@, p.value@))
}

impl View for SearchRequest {
    type V = Seq<(Seq<char>, ParamView)>;

    open spec fn view(&self) -> Seq<(Seq<char>, ParamView)> {
        params_view(self.params@)
    }
}

/// The keys of a list of parameters.
pub open spec fn keys_of(ps: Seq<(Seq<char>, ParamView)>) -> Seq<Seq<char>> {
    ps.map_values(|e: (Seq<char>, ParamView)| e.0)
}

/// No key occurs twice.
pub open spec fn keys_unique(ps: Seq<(Seq<char>, ParamView)>) -> bool {
    forall|i: int, j: int| 0 <= i < j < ps.len() ==> #[trigger] ps[i].0 != #[trigger] ps[j].0
}

/// Where a present key stands.
pub open spec fn key_index(ps: Seq<(Seq<char>, ParamView)>, k: Seq<char>) -> int {
    choose|i: int| 0 <= i < ps.len() && ps[i].0 == k
}

/// Set a parameter: its value is replaced where the key is present, else it is added last.
pub open spec fn put(
    ps: Seq<(Seq<char>, ParamView)>,
    k: Seq<char>,
    v: ParamView,
) -> Seq<(Seq<char>, ParamView)> {
    if keys_of(ps).contains(k) {
        ps.update(key_index(ps, k), (k, v))
    } else {
        ps.push((k, v))
    }
}

/// The custom filters, set one after another.
pub open spec fn put_custom(
    ps: Seq<(Seq<char>, ParamView)>,
    custom: Seq<CustomFilter>,
) -> Seq<(Seq<char>, ParamView)>
    decreases custom.len(),
{
    if custom.len() == 0 {
        ps
    } else {
        let c = custom.last();
        put(put_custom(ps, custom.drop_last()), c.key@, ParamView::Json(c.json@))
    }
}

/// Each item with `!` in front: the MISP form of an exclusion.
pub open spec fn negated(items: Seq<Seq<char>>) -> Seq<Seq<char>> {
    items.map_values(|t: Seq<char>| seq!['!'] + t)
}

/// Set a parameter when `cond` holds.
pub open spec fn put_if(
    ps: Seq<(Seq<char>, ParamView)>,
    cond: bool,
    k: Seq<char>,
    v: ParamView,
) -> Seq<(Seq<char>, ParamView)> {
    if cond {
        put(ps, k, v)
    } else {
        ps
    }
}

/// Set a text parameter when the setting is present.
pub open spec fn put_text(
    ps: Seq<(Seq<char>, ParamView)>,
    k: Seq<char>,
    v: Option<Seq<char>>,
) -> Seq<(Seq<char>, ParamView)> {
    match v {
        Some(t) => put(ps, k, ParamView::Text(t)),
        None => ps,
    }
}

/// The parameters the filters give, before the custom ones: paging first,
/// then each filter that is set, in this order. Excluded tags and organisations follow the
/// included ones in the same list, each with `!` in front.
pub open spec fn filter_params(f: MispFilters, page: u32, limit: u32) -> Seq<(Seq<char>, ParamView)> {
    let p0 = seq![
        ("returnFormat"@, ParamView::Text("json"@)),
        ("page"@, ParamView::Number(page as nat)),
        ("limit"@, ParamView::Number(limit as nat)),
    ];
    let p1 = put_if(p0, f.include_event_tags, "includeEventTags"@, ParamView::Flag(true));
    let p2 = put_if(p1, f.published, "published"@, ParamView::Number(1));
    let tags = f.tags.deep_view() + negated(f.not_tags.deep_view());
    let p3 = put_if(p2, tags.len() > 0, "tags"@, ParamView::Texts(tags));
    let orgs = f.orgs.deep_view() + negated(f.not_orgs.deep_view());
    let p4 = put_if(p3, orgs.len() > 0, "org"@, ParamView::Texts(orgs));
    let p5 = put_text(p4, "publish_timestamp"@, f.publish_timestamp.deep_view());
    let p6 = put_text(p5, "timestamp"@, f.timestamp.deep_view());
    let p7 = put_text(p6, "from"@, f.from.deep_view());
    let p8 = put_text(p7, "to"@, f.to.deep_view());
    let p9 = put_text(p8, "last"@, f.last.deep_view());
    let p10 = put_text(p9, "eventinfo"@, f.event_info.deep_view());
    let p11 = match f.threat_level_id {
        Some(levels) => put_if(
            p10,
            levels@.len() > 0,
            "threat_level_id"@,
            ParamView::Numbers(levels@),
        ),
        None => p10,
    };
    let p12 = put_if(p11, f.enforce_warninglist, "enforceWarninglist"@, ParamView::Flag(true));
    put_if(p12, f.to_ids, "to_ids"@, ParamView::Number(1))
}

/// The parameters of the search request for one page.
pub open spec fn search_params(f: MispFilters, page: u32, limit: u32) -> Seq<(Seq<char>, ParamView)> {
    put_custom(filter_params(f, page, limit), f.custom@)
}

/// Setting a parameter keeps every key once, and the key is then present with that value.
pub proof fn lemma_put_keeps_keys_unique(ps: Seq<(Seq<char>, ParamView)>, k: Seq<char>, v: ParamView)
    requires
        keys_unique(ps),
    ensures
        keys_unique(put(ps, k, v)),
        keys_of(put(ps, k, v)).contains(k),
        forall|i: int| 0 <= i < put(ps, k, v).len() && (#[trigger] put(ps, k, v)[i]).0 == k ==> put(ps, k, v)[i].1 == v,
{
    let r = put(ps, k, v);
    if keys_of(ps).contains(k) {
        let i = choose|i: int| 0 <= i < keys_of(ps).len() && keys_of(ps)[i] == k;
        assert(ps[i].0 == k);
        let c = key_index(ps, k);
        assert(r[c].0 == k);
        assert(keys_of(r)[c] == k);
        assert forall|a: int, b: int| 0 <= a < b < r.len() implies #[trigger] r[a].0 != #[trigger] r[b].0 by {
            assert(r[a].0 == ps[a].0);
            assert(r[b].0 == ps[b].0);
        }
    } else {
        assert(keys_of(r)[ps.len() as int] == k);
        assert forall|i: int, j: int| 0 <= i < j < r.len() implies #[trigger] r[i].0 != #[trigger] r[j].0 by {
            if j == ps.len() {
                assert(keys_of(ps)[i] == ps[i].0);
            }
        }
    }
}

impl SearchRequest {
    /// Set a parameter: replace its value where the key is present, else add it last.
    pub fn put(&mut self, key: String, value: RequestValue)
        requires
            keys_unique(old(self)@),
        ensures
            final(self)@ == put(old(self)@, key@, value@),
            keys_unique(final(self)@),
    {
        proof {
            lemma_put_keeps_keys_unique(self@, key@, value@);
        }
        let ghost ps = self@;
        let n = self.params.len();
        let mut i: usize = 0;
        while i < n
            invariant
                n == self.params.len(),
                i <= n,
                self@ == ps,
                ps == old(self)@,
                keys_unique(ps),
                forall|j: int| 0 <= j < i ==> #[trigger] keys_of(ps)[j] != key@,
            decreases n - i,
        {
            if crate::text::str_eq(self.params[i].key.as_str(), key.as_str()) {
                let ghost at = i as int;
                let ghost k = key@;
                let ghost v = value@;
                self.params.set(i, SearchParam { key, value });
                proof {
                    assert(keys_of(ps)[at] == k);
                    assert(keys_of(ps).contains(k));
                    let c = key_index(ps, k);
                    assert(ps[at].0 == k);
                    assert(0 <= c < ps.len() && ps[c].0 == k);
                    assert(c == at);
                    assert(self@ =~= ps.update(at, (k, v)));
                }
                return;
            }
            i = i + 1;
        }
        proof {
            assert forall|x: Seq<char>| keys_of(ps).contains(x) implies x != key@ by {
                let j = choose|j: int| 0 <= j < keys_of(ps).len() && keys_of(ps)[j] == x;
                assert(keys_of(ps)[j] != key@);
            }
        }
        self.params.push(SearchParam { key, value });
        assert(self@ =~= ps.push((key@, value@)));
    }
}

/// The included items, then the excluded ones with `!` in front.
fn with_negated(included: &Vec<String>, excluded: &Vec<String>) -> (r: Vec<String>)
    ensures
        r.deep_view() == included.deep_view() + negated(excluded.deep_view()),
{
    let mut r = crate::sync::copy_strings(included);
    let mut i: usize = 0;
    proof {
        reveal_strlit("!");
    }
    while i < excluded.len()
        invariant
            i <= excluded.len(),
            r.deep_view() == included.deep_view() + negated(excluded.deep_view().take(i as int)),
        decreases excluded.len() - i,
    {
        let mut t = String::from_str("!");
        t.append(excluded[i].as_str());
        let ghost before = r.deep_view();
        r.push(t);
        proof {
            reveal_strlit("!");
            assert("!"@ =~= seq!['!']);
            assert(t@ =~= seq!['!'] + excluded[i as int]@);
            assert(excluded.deep_view()[i as int] == excluded[i as int]@);
            assert(excluded.deep_view().take(i + 1) =~= excluded.deep_view().take(i as int).push(
                excluded[i as int]@,
            ));
            assert(negated(excluded.deep_view().take(i + 1)) =~= negated(
                excluded.deep_view().take(i as int),
            ).push(seq!['!'] + excluded[i as int]@));
            assert(r.deep_view() =~= before.push(t@));
            assert(r.deep_view() =~= included.deep_view() + negated(excluded.deep_view().take(i + 1)));
        }
        i = i + 1;
    }
    proof {
        assert(excluded.deep_view().take(excluded.len() as int) =~= excluded.deep_view());
    }
    r
}

/// Set a text parameter when the setting is present.
fn put_opt_text(req: &mut SearchRequest, key: &str, v: &Option<String>)
    requires
        keys_unique(old(req)@),
    ensures
        final(req)@ == put_text(old(req)@, key@, v.deep_view()),
        keys_unique(final(req)@),
{
    if let Some(t) = v {
        req.put(key.to_string(), RequestValue::Text(t.clone()));
    }
}

/// Build the search request body for one page.
pub fn build_search_request(filters: &MispFilters, page: u32, limit: u32) -> (r: SearchRequest)
    ensures
        r@ == search_params(*filters, page, limit),
        keys_unique(r@),
{
    let mut req = SearchRequest { params: Vec::new() };
    proof {
        assert(req@ =~= Seq::<(Seq<char>, ParamView)>::empty());
    }
    req.put("returnFormat".to_string(), RequestValue::Text("json".to_string()));
    let ghost s1 = req@;
    req.put("page".to_string(), RequestValue::Number(page));
    let ghost s2 = req@;
    req.put("limit".to_string(), RequestValue::Number(limit));
    let ghost p0 = req@;
    proof {
        reveal_strlit("returnFormat");
        reveal_strlit("page");
        reveal_strlit("limit");
        assert(s1 =~= seq![("returnFormat"@, ParamView::Text("json"@))]);
        assert(!keys_of(s1).contains("page"@)) by {
            assert(keys_of(s1) =~= seq!["returnFormat"@]);
            assert("page"@.len() != "returnFormat"@.len());
            assert(seq!["returnFormat"@][0] == "returnFormat"@);
        }
        assert(s2 =~= s1.push(("page"@, ParamView::Number(page as nat))));
        assert(!keys_of(s2).contains("limit"@)) by {
            assert(keys_of(s2) =~= seq!["returnFormat"@, "page"@]);
            assert("limit"@.len() != "returnFormat"@.len());
            assert("limit"@.len() != "page"@.len());
            assert(seq!["returnFormat"@, "page"@][0] == "returnFormat"@);
            assert(seq!["returnFormat"@, "page"@][1] == "page"@);
        }
        assert(p0 =~= s2.push(("limit"@, ParamView::Number(limit as nat))));
    }
    assert(p0 == seq![
        ("returnFormat"@, ParamView::Text("json"@)),
        ("page"@, ParamView::Number(page as nat)),
        ("limit"@, ParamView::Number(limit as nat)),
    ]);
    if filters.include_event_tags {
        req.put("includeEventTags".to_string(), RequestValue::Flag(true));
    }
    let ghost p1 = req@;
    if filters.published {
        req.put("published".to_string(), RequestValue::Number(1));
    }
    let ghost p2 = req@;
    assert(p2 == put_if(put_if(p0, filters.include_event_tags, "includeEventTags"@, ParamView::Flag(true)), filters.published, "published"@, ParamView::Number(1)));
    let tags = with_negated(&filters.tags, &filters.not_tags);
    assert(tags@.len() == tags.deep_view().len());
    if tags.len() > 0 {
        req.put("tags".to_string(), RequestValue::Texts(tags));
    }
    let ghost p3 = req@;
    let orgs = with_negated(&filters.orgs, &filters.not_orgs);
    assert(orgs@.len() == orgs.deep_view().len());
    if orgs.len() > 0 {
        req.put("org".to_string(), RequestValue::Texts(orgs));
    }
    let ghost p4 = req@;
    put_opt_text(&mut req, "publish_timestamp", &filters.publish_timestamp);
    put_opt_text(&mut req, "timestamp", &filters.timestamp);
    put_opt_text(&mut req, "from", &filters.from);
    put_opt_text(&mut req, "to", &filters.to);
    put_opt_text(&mut req, "last", &filters.last);
    put_opt_text(&mut req, "eventinfo", &filters.event_info);
    if let Some(levels) = &filters.threat_level_id {
        if levels.len() > 0 {
            let copy = levels.clone();
            assert(copy@ =~= levels@);
            req.put("threat_level_id".to_string(), RequestValue::Numbers(copy));
        }
    }
    if filters.enforce_warninglist {
        req.put("enforceWarninglist".to_string(), RequestValue::Flag(true));
    }
    if filters.to_ids {
        req.put("to_ids".to_string(), RequestValue::Number(1));
    }
    let ghost base = req@;
    assert(base == filter_params(*filters, page, limit));
    let mut i: usize = 0;
    while i < filters.custom.len()
        invariant
            i <= filters.custom.len(),
            keys_unique(req@),
            req@ == put_custom(base, filters.custom@.take(i as int)),
        decreases filters.custom.len() - i,
    {
        let c = &filters.custom[i];
        req.put(c.key.clone(), RequestValue::Json(c.json.clone()));
        proof {
            assert(filters.custom@.take(i + 1).drop_last() =~= filters.custom@.take(i as int));
        }
        i = i + 1;
    }
    proof {
        assert(filters.custom@.take(filters.custom.len() as int) =~= filters.custom@);
    }
    req
}

/// `ps` sends the parameter `k` with the value `v`.
pub open spec fn sends(ps: Seq<(Seq<char>, ParamView)>, k: Seq<char>, v: ParamView) -> bool {
    exists|i: int| 0 <= i < ps.len() && #[trigger] ps[i] == (k, v)
}

/// What is known of key `k` in `ps`: sent with the given value, or absent.
pub open spec fn key_state(ps: Seq<(Seq<char>, ParamView)>, k: Seq<char>, expect: Option<ParamView>) -> bool {
    match expect {
        Some(v) => sends(ps, k, v),
        None => !keys_of(ps).contains(k),
    }
}

proof fn lemma_put_sets(ps: Seq<(Seq<char>, ParamView)>, k: Seq<char>, v: ParamView)
    requires
        keys_unique(ps),
    ensures
        keys_unique(put(ps, k, v)),
        key_state(put(ps, k, v), k, Some(v)),
{
    lemma_put_keeps_keys_unique(ps, k, v);
    let r = put(ps, k, v);
    let i = choose|i: int| 0 <= i < keys_of(r).len() && keys_of(r)[i] == k;
    assert(r[i].0 == k);
    assert(r[i] == (k, v));
}

proof fn lemma_put_keeps(
    ps: Seq<(Seq<char>, ParamView)>,
    k: Seq<char>,
    v: ParamView,
    key: Seq<char>,
    expect: Option<ParamView>,
)
    requires
        keys_unique(ps),
        k != key,
        key_state(ps, key, expect),
    ensures
        keys_unique(put(ps, k, v)),
        key_state(put(ps, k, v), key, expect),
{
    lemma_put_keeps_keys_unique(ps, k, v);
    let r = put(ps, k, v);
    if keys_of(ps).contains(k) {
        let j = choose|j: int| 0 <= j < keys_of(ps).len() && keys_of(ps)[j] == k;
        assert(ps[j].0 == k);
    }
    match expect {
        Some(val) => {
            let i = choose|i: int| 0 <= i < ps.len() && #[trigger] ps[i] == (key, val);
            if keys_of(ps).contains(k) {
                let c = key_index(ps, k);
                assert(ps[c].0 == k);
                assert(r[i] == ps[i]);
            } else {
                assert(r[i] == ps[i]);
            }
        },
        None => {
            if keys_of(r).contains(key) {
                let j = choose|j: int| 0 <= j < keys_of(r).len() && keys_of(r)[j] == key;
                if keys_of(ps).contains(k) {
                    let c = key_index(ps, k);
                    assert(ps[c].0 == k);
                    if j != c {
                        assert(keys_of(ps)[j] == key);
                    }
                } else if j < ps.len() {
                    assert(keys_of(ps)[j] == key);
                }
            }
        },
    }
}

proof fn lemma_put_if_keeps(
    ps: Seq<(Seq<char>, ParamView)>,
    cond: bool,
    k: Seq<char>,
    v: ParamView,
    key: Seq<char>,
    expect: Option<ParamView>,
)
    requires
        keys_unique(ps),
        k != key,
        key_state(ps, key, expect),
    ensures
        keys_unique(put_if(ps, cond, k, v)),
        key_state(put_if(ps, cond, k, v), key, expect),
{
    if cond {
        lemma_put_keeps(ps, k, v, key, expect);
    }
}

proof fn lemma_put_text_keeps(
    ps: Seq<(Seq<char>, ParamView)>,
    k: Seq<char>,
    t: Option<Seq<char>>,
    key: Seq<char>,
    expect: Option<ParamView>,
)
    requires
        keys_unique(ps),
        k != key,
        key_state(ps, key, expect),
    ensures
        keys_unique(put_text(ps, k, t)),
        key_state(put_text(ps, k, t), key, expect),
{
    if let Some(x) = t {
        lemma_put_keeps(ps, k, ParamView::Text(x), key, expect);
    }
}

proof fn lemma_put_text_sets(ps: Seq<(Seq<char>, ParamView)>, k: Seq<char>, t: Option<Seq<char>>)
    requires
        keys_unique(ps),
        !keys_of(ps).contains(k),
    ensures
        keys_unique(put_text(ps, k, t)),
        key_state(put_text(ps, k, t), k, match t {
            Some(x) => Some(ParamView::Text(x)),
            None => None,
        }),
{
    if let Some(x) = t {
        lemma_put_sets(ps, k, ParamView::Text(x));
    }
}

proof fn lemma_put_custom_keeps(
    ps: Seq<(Seq<char>, ParamView)>,
    custom: Seq<CustomFilter>,
    key: Seq<char>,
    expect: Option<ParamView>,
)
    requires
        keys_unique(ps),
        key_state(ps, key, expect),
        forall|i: int| 0 <= i < custom.len() ==> (#[trigger] custom[i]).key@ != key,
    ensures
        keys_unique(put_custom(ps, custom)),
        key_state(put_custom(ps, custom), key, expect),
    decreases custom.len(),
{
    if custom.len() > 0 {
        let c = custom.last();
        assert(custom[custom.len() - 1] == c);
        lemma_put_custom_keeps(ps, custom.drop_last(), key, expect);
        lemma_put_keeps(put_custom(ps, custom.drop_last()), c.key@, ParamView::Json(c.json@), key, expect);
    }
}

/// The parameters a search always sends first, each key once, with neither
/// date parameter among them.
proof fn lemma_paging_params(page: u32, limit: u32)
    ensures
        ({
            let p0 = seq![
                ("returnFormat"@, ParamView::Text("json"@)),
                ("page"@, ParamView::Number(page as nat)),
                ("limit"@, ParamView::Number(limit as nat)),
            ];
            &&& keys_unique(p0)
            &&& !keys_of(p0).contains("from"@)
            &&& !keys_of(p0).contains("to"@)
        }),
{
    let p0 = seq![
        ("returnFormat"@, ParamView::Text("json"@)),
        ("page"@, ParamView::Number(page as nat)),
        ("limit"@, ParamView::Number(limit as nat)),
    ];
    reveal_strlit("returnFormat");
    assert("returnFormat"@.len() == 12);
    reveal_strlit("page");
    assert("page"@.len() == 4);
    reveal_strlit("limit");
    assert("limit"@.len() == 5);
    reveal_strlit("includeEventTags");
    assert("includeEventTags"@.len() == 16);
    reveal_strlit("published");
    assert("published"@.len() == 9);
    reveal_strlit("tags");
    assert("tags"@.len() == 4);
    reveal_strlit("org");
    assert("org"@.len() == 3);
    reveal_strlit("publish_timestamp");
    assert("publish_timestamp"@.len() == 17);
    reveal_strlit("timestamp");
    assert("timestamp"@.len() == 9);
    reveal_strlit("from");
    assert("from"@.len() == 4);
    reveal_strlit("to");
    assert("to"@.len() == 2);
    reveal_strlit("last");
    assert("last"@.len() == 4);
    reveal_strlit("eventinfo");
    assert("eventinfo"@.len() == 9);
    reveal_strlit("threat_level_id");
    assert("threat_level_id"@.len() == 15);
    reveal_strlit("enforceWarninglist");
    assert("enforceWarninglist"@.len() == 18);
    reveal_strlit("to_ids");
    assert("to_ids"@.len() == 6);
    assert("from"@[0] != "page"@[0]);
    assert("from"@[0] != "tags"@[0]);
    assert("from"@[0] != "last"@[0]);

    assert(keys_of(p0) =~= seq!["returnFormat"@, "page"@, "limit"@]);
    assert("page"@[0] != "limit"@[0]);
}

/// The date filters go out under their own names: `from` is sent, with the
/// `from` setting as its text, exactly when that setting is present, and
/// likewise `to` with the `to` setting, unless a custom filter sets the key.
#[verifier::rlimit(50)]
pub proof fn lemma_date_filters_sent(f: MispFilters, page: u32, limit: u32)
    requires
        forall|i: int| 0 <= i < f.custom@.len() ==> (#[trigger] f.custom@[i]).key@ != "from"@
            && f.custom@[i].key@ != "to"@,
    ensures
        f.from matches Some(x) ==> sends(search_params(f, page, limit), "from"@, ParamView::Text(x@)),
        f.from is None ==> !keys_of(search_params(f, page, limit)).contains("from"@),
        f.to matches Some(x) ==> sends(search_params(f, page, limit), "to"@, ParamView::Text(x@)),
        f.to is None ==> !keys_of(search_params(f, page, limit)).contains("to"@),
        keys_unique(search_params(f, page, limit)),
{
    reveal_strlit("returnFormat");
    assert("returnFormat"@.len() == 12);
    reveal_strlit("page");
    assert("page"@.len() == 4);
    reveal_strlit("limit");
    assert("limit"@.len() == 5);
    reveal_strlit("includeEventTags");
    assert("includeEventTags"@.len() == 16);
    reveal_strlit("published");
    assert("published"@.len() == 9);
    reveal_strlit("tags");
    assert("tags"@.len() == 4);
    reveal_strlit("org");
    assert("org"@.len() == 3);
    reveal_strlit("publish_timestamp");
    assert("publish_timestamp"@.len() == 17);
    reveal_strlit("timestamp");
    assert("timestamp"@.len() == 9);
    reveal_strlit("from");
    assert("from"@.len() == 4);
    reveal_strlit("to");
    assert("to"@.len() == 2);
    reveal_strlit("last");
    assert("last"@.len() == 4);
    reveal_strlit("eventinfo");
    assert("eventinfo"@.len() == 9);
    reveal_strlit("threat_level_id");
    assert("threat_level_id"@.len() == 15);
    reveal_strlit("enforceWarninglist");
    assert("enforceWarninglist"@.len() == 18);
    reveal_strlit("to_ids");
    assert("to_ids"@.len() == 6);
    assert("from"@[0] != "page"@[0]);
    assert("from"@[0] != "tags"@[0]);
    assert("from"@[0] != "last"@[0]);

    let a = "from"@;
    let b = "to"@;
    let ea = match f.from.deep_view() {
        Some(x) => Some(ParamView::Text(x)),
        None => None,
    };
    let eb = match f.to.deep_view() {
        Some(x) => Some(ParamView::Text(x)),
        None => None,
    };
    let p0 = seq![
        ("returnFormat"@, ParamView::Text("json"@)),
        ("page"@, ParamView::Number(page as nat)),
        ("limit"@, ParamView::Number(limit as nat)),
    ];
    lemma_paging_params(page, limit);
    let p1 = put_if(p0, f.include_event_tags, "includeEventTags"@, ParamView::Flag(true));
    lemma_put_if_keeps(p0, f.include_event_tags, "includeEventTags"@, ParamView::Flag(true), a, None);
    lemma_put_if_keeps(p0, f.include_event_tags, "includeEventTags"@, ParamView::Flag(true), b, None);
    let p2 = put_if(p1, f.published, "published"@, ParamView::Number(1));
    lemma_put_if_keeps(p1, f.published, "published"@, ParamView::Number(1), a, None);
    lemma_put_if_keeps(p1, f.published, "published"@, ParamView::Number(1), b, None);
    let tags = f.tags.deep_view() + negated(f.not_tags.deep_view());
    let p3 = put_if(p2, tags.len() > 0, "tags"@, ParamView::Texts(tags));
    lemma_put_if_keeps(p2, tags.len() > 0, "tags"@, ParamView::Texts(tags), a, None);
    lemma_put_if_keeps(p2, tags.len() > 0, "tags"@, ParamView::Texts(tags), b, None);
    let orgs = f.orgs.deep_view() + negated(f.not_orgs.deep_view());
    let p4 = put_if(p3, orgs.len() > 0, "org"@, ParamView::Texts(orgs));
    lemma_put_if_keeps(p3, orgs.len() > 0, "org"@, ParamView::Texts(orgs), a, None);
    lemma_put_if_keeps(p3, orgs.len() > 0, "org"@, ParamView::Texts(orgs), b, None);
    let p5 = put_text(p4, "publish_timestamp"@, f.publish_timestamp.deep_view());
    lemma_put_text_keeps(p4, "publish_timestamp"@, f.publish_timestamp.deep_view(), a, None);
    lemma_put_text_keeps(p4, "publish_timestamp"@, f.publish_timestamp.deep_view(), b, None);
    let p6 = put_text(p5, "timestamp"@, f.timestamp.deep_view());
    lemma_put_text_keeps(p5, "timestamp"@, f.timestamp.deep_view(), a, None);
    lemma_put_text_keeps(p5, "timestamp"@, f.timestamp.deep_view(), b, None);
    let p7 = put_text(p6, a, f.from.deep_view());
    lemma_put_text_sets(p6, a, f.from.deep_view());
    lemma_put_text_keeps(p6, a, f.from.deep_view(), b, None);
    let p8 = put_text(p7, b, f.to.deep_view());
    lemma_put_text_keeps(p7, b, f.to.deep_view(), a, ea);
    lemma_put_text_sets(p7, b, f.to.deep_view());
    let p9 = put_text(p8, "last"@, f.last.deep_view());
    lemma_put_text_keeps(p8, "last"@, f.last.deep_view(), a, ea);
    lemma_put_text_keeps(p8, "last"@, f.last.deep_view(), b, eb);
    let p10 = put_text(p9, "eventinfo"@, f.event_info.deep_view());
    lemma_put_text_keeps(p9, "eventinfo"@, f.event_info.deep_view(), a, ea);
    lemma_put_text_keeps(p9, "eventinfo"@, f.event_info.deep_view(), b, eb);
    let p11 = match f.threat_level_id {
        Some(levels) => put_if(p10, levels@.len() > 0, "threat_level_id"@, ParamView::Numbers(levels@)),
        None => p10,
    };
    if let Some(levels) = f.threat_level_id {
        lemma_put_if_keeps(p10, levels@.len() > 0, "threat_level_id"@, ParamView::Numbers(levels@), a, ea);
        lemma_put_if_keeps(p10, levels@.len() > 0, "threat_level_id"@, ParamView::Numbers(levels@), b, eb);
    }
    let p12 = put_if(p11, f.enforce_warninglist, "enforceWarninglist"@, ParamView::Flag(true));
    lemma_put_if_keeps(p11, f.enforce_warninglist, "enforceWarninglist"@, ParamView::Flag(true), a, ea);
    lemma_put_if_keeps(p11, f.enforce_warninglist, "enforceWarninglist"@, ParamView::Flag(true), b, eb);
    let p13 = put_if(p12, f.to_ids, "to_ids"@, ParamView::Number(1));
    lemma_put_if_keeps(p12, f.to_ids, "to_ids"@, ParamView::Number(1), a, ea);
    lemma_put_if_keeps(p12, f.to_ids, "to_ids"@, ParamView::Number(1), b, eb);
    assert(p13 == filter_params(f, page, limit));
    lemma_put_custom_keeps(p13, f.custom@, a, ea);
    lemma_put_custom_keeps(p13, f.custom@, b, eb);
}

} // verus!
