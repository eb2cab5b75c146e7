//! Configuration: MISP connection and filters, Sentinel connection, sync
//! behaviour and Key Vault secret names.

pub mod env;
pub mod load;

use crate::error::Error;
use crate::text::{
    parse_bool_spec, parse_u32, parse_u8, parse_unsigned, split_char, split_fields, str_eq, trim,
    trim_ws,
};
use vstd::prelude::*;

verus! {

/// Main configuration.
#[derive(Debug, Clone)]
pub struct Config {
    pub misp: MispConfig,
    pub sentinel: SentinelConfig,
    pub sync: SyncConfig,
    pub keyvault: Option<KeyVaultConfig>,
}

/// MISP server configuration.
#[derive(Debug, Clone)]
pub struct MispConfig {
    /// MISP server URL (e.g., https://misp.example.com)
    pub url: String,
    /// MISP API key (can be loaded from Key Vault)
    pub api_key: String,
    /// Verify TLS certificates
    pub verify_tls: bool,
    /// Event filters in MISP query format
    pub filters: MispFilters,
    /// Number of events per page
    pub page_limit: u32,
    /// Maximum number of events to fetch (None = unlimited)
    pub max_events: Option<u32>,
}

/// A filter passed to the MISP search as given: its key and its JSON value text.
#[derive(Debug, Clone)]
pub struct CustomFilter {
    pub key: String,
    pub json: String,
}

/// MISP event filters (the MISP restSearch parameters).
#[derive(Debug, Clone)]
pub struct MispFilters {
    pub published: bool,
    pub tags: Vec<String>,
    pub not_tags: Vec<String>,
    pub orgs: Vec<String>,
    pub not_orgs: Vec<String>,
    pub publish_timestamp: Option<String>,
    pub timestamp: Option<String>,
    pub from: Option<String>,
    pub to: Option<String>,
    pub last: Option<String>,
    pub event_info: Option<String>,
    pub threat_level_id: Option<Vec<u8>>,
    pub to_ids: bool,
    pub enforce_warninglist: bool,
    pub include_event_tags: bool,
    pub custom: Vec<CustomFilter>,
}

/// Microsoft Sentinel configuration.
#[derive(Debug, Clone)]
pub struct SentinelConfig {
    pub tenant_id: String,
    pub client_id: String,
    pub client_secret: String,
    pub workspace_id: String,
    pub source_system: String,
    pub api_version: String,
}

/// Days until expiry for one observable type.
#[derive(Debug, Clone)]
pub struct TypeExpiration {
    pub observable: String,
    pub days: u32,
}

/// Sync behaviour configuration.
#[derive(Debug, Clone)]
pub struct SyncConfig {
    pub days_to_expire: u32,
    pub days_to_expire_start: String,
    /// Per-type expiration overrides; a later entry for the same type wins.
    pub type_expiration: Vec<TypeExpiration>,
    pub default_confidence: u8,
    pub include_types: Vec<String>,
    pub exclude_types: Vec<String>,
    pub dry_run: bool,
    pub batch_size: usize,
    pub requests_per_minute: u32,
    pub concurrent_page_fetches: usize,
    pub concurrent_uploads: usize,
    pub parallel_conversion: bool,
    pub verbose: bool,
    pub flatten_attributes: bool,
    pub ignore_local_tags: bool,
    pub write_parsed_indicators: bool,
    pub write_parsed_event_ids: bool,
}

/// Azure Key Vault configuration for secret management.
#[derive(Debug, Clone)]
pub struct KeyVaultConfig {
    pub vault_url: String,
    pub misp_api_key_secret: Option<String>,
    pub sentinel_client_secret: Option<String>,
}


// ---------------------------------------------------------------------------
// Environment
// ---------------------------------------------------------------------------

/// One environment variable.
#[derive(Debug, Clone)]
pub struct EnvVar {
    pub name: String,
    pub value: String,
}

/// A snapshot of the process environment.
#[derive(Debug, Clone)]
pub struct Environment {
    pub vars: Vec<EnvVar>,
}

/// The value of the first variable called `name`.
pub open spec fn env_lookup(vars: Seq<EnvVar>, name: Seq<char>) -> Option<Seq<char>>
    decreases vars.len(),
{
    if vars.len() == 0 {
        None
    } else if vars[0].name@ == name {
        Some(vars[0].value@)
    } else {
        env_lookup(vars.drop_first(), name)
    }
}

impl Environment {
    /// The value of a variable in this environment.
    pub open spec fn get(self, name: Seq<char>) -> Option<Seq<char>> {
        env_lookup(self.vars@, name)
    }

    /// Look a variable up (`std::env::var`, with an unset variable as `None`).
    pub fn var(&self, name: &str) -> (r: Option<String>)
        ensures
            r.deep_view() == self.get(name@),
    {
        let n = self.vars.len();
        let mut i: usize = 0;
        proof {
            assert(self.vars@.skip(0) =~= self.vars@);
        }
        while i < n
            invariant
                n == self.vars@.len(),
                i <= n,
                env_lookup(self.vars@, name@) == env_lookup(self.vars@.skip(i as int), name@),
            decreases n - i,
        {
            proof {
                let rest = self.vars@.skip(i as int);
                assert(rest[0] == self.vars@[i as int]);
                assert(rest.drop_first() =~= self.vars@.skip(i + 1));
            }
            if str_eq(self.vars[i].name.as_str(), name) {
                return Some(self.vars[i].value.clone());
            }
            i = i + 1;
        }
        None
    }
}

// ---------------------------------------------------------------------------
// Reading values
// ---------------------------------------------------------------------------

/// A boolean setting: the parsed value, `d` when unset or not `true`/`false`.
pub open spec fn bool_or(v: Option<Seq<char>>, d: bool) -> bool {
    match v {
        Some(s) => match parse_bool_spec(s) {
            Some(b) => b,
            None => d,
        },
        None => d,
    }
}

/// An unsigned setting no larger than `max`: the parsed value, `d` when unset or unparsable.
pub open spec fn uint_or(v: Option<Seq<char>>, max: nat, d: nat) -> nat {
    match v {
        Some(s) => match parse_unsigned(s, max) {
            Some(n) => n,
            None => d,
        },
        None => d,
    }
}

/// A text setting: the value, `d` when unset.
pub open spec fn text_or(v: Option<Seq<char>>, d: Seq<char>) -> Seq<char> {
    match v {
        Some(s) => s,
        None => d,
    }
}

/// The non-empty trimmed items of a list of fields.
pub open spec fn nonempty_trimmed(fields: Seq<Seq<char>>) -> Seq<Seq<char>>
    decreases fields.len(),
{
    if fields.len() == 0 {
        Seq::<Seq<char>>::empty()
    } else {
        let prev = nonempty_trimmed(fields.drop_last());
        let t = trim_ws(fields.last());
        if t.len() > 0 {
            prev.push(t)
        } else {
            prev
        }
    }
}

/// A comma-separated list: trimmed items, empty ones dropped.
pub open spec fn csv_items(s: Seq<char>) -> Seq<Seq<char>> {
    nonempty_trimmed(split_fields(s, ','))
}

/// A comma-separated list: trimmed items, empty ones kept.
pub open spec fn csv_items_all(s: Seq<char>) -> Seq<Seq<char>> {
    split_fields(s, ',').map_values(|f: Seq<char>| trim_ws(f))
}

/// The items of a list of fields that are numbers from 0 to 255 once trimmed.
pub open spec fn u8_items(fields: Seq<Seq<char>>) -> Seq<u8>
    decreases fields.len(),
{
    if fields.len() == 0 {
        Seq::<u8>::empty()
    } else {
        let prev = u8_items(fields.drop_last());
        match parse_unsigned(trim_ws(fields.last()), 255) {
            Some(n) => prev.push(n as u8),
            None => prev,
        }
    }
}

/// A comma-separated list of threat levels: the items that are numbers from 0 to 255.
pub open spec fn csv_levels(s: Seq<char>) -> Seq<u8> {
    u8_items(split_fields(s, ','))
}

/// The type expiration entry one `type:days` item gives, if any.
pub open spec fn expiration_entry(item: Seq<char>) -> Option<(Seq<char>, u32)> {
    let parts = split_fields(item, ':');
    if parts.len() == 2 {
        match parse_unsigned(trim_ws(parts[1]), u32::MAX as nat) {
            Some(n) => Some((trim_ws(parts[0]), n as u32)),
            None => None,
        }
    } else {
        None
    }
}

/// The entries of a list of `type:days` items, in order.
pub open spec fn expiration_entries(items: Seq<Seq<char>>) -> Seq<(Seq<char>, u32)>
    decreases items.len(),
{
    if items.len() == 0 {
        Seq::<(Seq<char>, u32)>::empty()
    } else {
        let prev = expiration_entries(items.drop_last());
        match expiration_entry(items.last()) {
            Some(e) => prev.push(e),
            None => prev,
        }
    }
}

/// The (type, days) pairs of a list of type expirations.
pub open spec fn expirations_view(v: Seq<TypeExpiration>) -> Seq<(Seq<char>, u32)> {
    v.map_values(|e: TypeExpiration| (e.observable@, e.days))
}

/// The trimmed, non-empty items of a comma-separated list.
pub fn parse_csv(s: &str) -> (r: Vec<String>)
    ensures
        r.deep_view() == csv_items(s@),
{
    let fields = split_char(s, ',');
    let ghost fs = fields.deep_view();
    let mut out: Vec<String> = Vec::new();
    let mut i: usize = 0;
    proof {
        assert(fs.take(0) =~= Seq::<Seq<char>>::empty());
    }
    while i < fields.len()
        invariant
            i <= fields.len(),
            fs == fields.deep_view(),
            fs == split_fields(s@, ','),
            out.deep_view() == nonempty_trimmed(fs.take(i as int)),
        decreases fields.len() - i,
    {
        proof {
            assert(fs.take(i + 1).drop_last() =~= fs.take(i as int));
            assert(fs.take(i + 1).last() == fs[i as int]);
        }
        let t = trim(fields[i].as_str());
        if t.unicode_len() > 0 {
            let ghost before = out.deep_view();
            out.push(t.to_string());
            assert(out.deep_view() =~= before.push(t@));
        }
        i = i + 1;
    }
    proof {
        assert(fs.take(fields.len() as int) =~= fs);
    }
    out
}

/// The trimmed items of a comma-separated list, empty ones kept.
pub fn parse_csv_all(s: &str) -> (r: Vec<String>)
    ensures
        r.deep_view() == csv_items_all(s@),
{
    let fields = split_char(s, ',');
    let ghost fs = fields.deep_view();
    let mut out: Vec<String> = Vec::new();
    let mut i: usize = 0;
    while i < fields.len()
        invariant
            i <= fields.len(),
            fs == fields.deep_view(),
            fs == split_fields(s@, ','),
            out.deep_view() == fs.take(i as int).map_values(|f: Seq<char>| trim_ws(f)),
        decreases fields.len() - i,
    {
        let t = trim(fields[i].as_str());
        let ghost before = out.deep_view();
        out.push(t.to_string());
        assert(fields[i as int]@ == fs[i as int]);
        assert(out.deep_view() =~= before.push(t@));
        assert(out.deep_view() =~= fs.take(i + 1).map_values(|f: Seq<char>| trim_ws(f)));
        i = i + 1;
    }
    proof {
        assert(fs.take(fields.len() as int) =~= fs);
    }
    out
}

/// The threat levels of a comma-separated list: the items that are numbers from 0 to 255.
pub fn parse_levels(s: &str) -> (r: Vec<u8>)
    ensures
        r@ == csv_levels(s@),
{
    let fields = split_char(s, ',');
    let ghost fs = fields.deep_view();
    let mut out: Vec<u8> = Vec::new();
    let mut i: usize = 0;
    proof {
        assert(fs.take(0) =~= Seq::<Seq<char>>::empty());
    }
    while i < fields.len()
        invariant
            i <= fields.len(),
            fs == fields.deep_view(),
            fs == split_fields(s@, ','),
            out@ == u8_items(fs.take(i as int)),
        decreases fields.len() - i,
    {
        proof {
            assert(fs.take(i + 1).drop_last() =~= fs.take(i as int));
            assert(fs.take(i + 1).last() == fs[i as int]);
        }
        let t = trim(fields[i].as_str());
        if let Some(n) = parse_u8(t) {
            out.push(n);
        }
        i = i + 1;
    }
    proof {
        assert(fs.take(fields.len() as int) =~= fs);
    }
    out
}

/// Parse type expirations from the form `ipv4-addr:180,domain-name:365`;
/// items that are not `type:days` with a valid number are skipped.
pub fn parse_type_expiration(s: &str) -> (r: Vec<TypeExpiration>)
    ensures
        expirations_view(r@) == expiration_entries(split_fields(s@, ',')),
{
    let items = split_char(s, ',');
    let ghost its = items.deep_view();
    let mut out: Vec<TypeExpiration> = Vec::new();
    let mut i: usize = 0;
    proof {
        assert(its.take(0) =~= Seq::<Seq<char>>::empty());
        assert(expirations_view(out@) =~= Seq::<(Seq<char>, u32)>::empty());
    }
    while i < items.len()
        invariant
            i <= items.len(),
            its == items.deep_view(),
            its == split_fields(s@, ','),
            expirations_view(out@) == expiration_entries(its.take(i as int)),
        decreases items.len() - i,
    {
        proof {
            assert(its.take(i + 1).drop_last() =~= its.take(i as int));
            assert(its.take(i + 1).last() == its[i as int]);
        }
        let parts = split_char(items[i].as_str(), ':');
        if parts.len() == 2 {
            let days = trim(parts[1].as_str());
            if let Some(n) = parse_u32(days) {
                let key = trim(parts[0].as_str());
                let ghost before = out@;
                out.push(TypeExpiration { observable: key.to_string(), days: n });
                proof {
                    assert(expirations_view(out@) =~= expirations_view(before).push((key@, n)));
                }
            }
        }
        i = i + 1;
    }
    proof {
        assert(its.take(items.len() as int) =~= its);
    }
    out
}

// ---------------------------------------------------------------------------
// Defaults
// ---------------------------------------------------------------------------

/// Default for the boolean settings that are on unless configured.
pub fn default_true() -> (r: bool)
    ensures
        r,
{
    true
}

/// Default number of events per page.
pub fn default_page_limit() -> (r: u32)
    ensures
        r == 100,
{
    100
}

/// Default source system name of uploaded indicators.
pub fn default_source_system() -> (r: String)
    ensures
        r@ == "MISP"@,
{
    String::from_str("MISP")
}

/// Default Sentinel API version.
pub fn default_api_version() -> (r: String)
    ensures
        r@ == "2024-02-01-preview"@,
{
    String::from_str("2024-02-01-preview")
}

/// Default days until indicators expire.
pub fn default_days_to_expire() -> (r: u32)
    ensures
        r == 50,
{
    50
}

/// Default start of the expiration count.
pub fn default_days_to_expire_start() -> (r: String)
    ensures
        r@ == "current_date"@,
{
    String::from_str("current_date")
}

/// Default confidence level.
pub fn default_confidence() -> (r: u8)
    ensures
        r == 50,
{
    50
}

/// Default indicators per batch.
pub fn default_batch_size() -> (r: usize)
    ensures
        r == 100,
{
    100
}

/// Default requests per minute.
pub fn default_rate_limit() -> (r: u32)
    ensures
        r == 100,
{
    100
}

/// Default number of concurrent MISP page fetches.
pub fn default_concurrent_page_fetches() -> (r: usize)
    ensures
        r == 4,
{
    4
}

/// Default number of concurrent Sentinel uploads.
pub fn default_concurrent_uploads() -> (r: usize)
    ensures
        r == 4,
{
    4
}

/// Default publish timestamp filter (events published in the last 14 days).
pub fn default_publish_timestamp() -> (r: Option<String>)
    ensures
        r.deep_view() == Some("14d"@),
{
    Some(String::from_str("14d"))
}

/// The filters of `MispFilters::default()`: published events with IDS-flagged
/// attributes, event tags included, published in the last 14 days; no other filter.
pub open spec fn is_default_filters(f: MispFilters) -> bool {
    &&& f.published
    &&& f.tags@.len() == 0
    &&& f.not_tags@.len() == 0
    &&& f.orgs@.len() == 0
    &&& f.not_orgs@.len() == 0
    &&& f.publish_timestamp.deep_view() == Some("14d"@)
    &&& f.timestamp is None
    &&& f.from is None
    &&& f.to is None
    &&& f.last is None
    &&& f.event_info is None
    &&& f.threat_level_id is None
    &&& f.to_ids
    &&& !f.enforce_warninglist
    &&& f.include_event_tags
    &&& f.custom@.len() == 0
}

/// The MISP settings of `MispConfig::default()`.
pub open spec fn is_default_misp(m: MispConfig) -> bool {
    &&& m.url@.len() == 0
    &&& m.api_key@.len() == 0
    &&& m.verify_tls
    &&& is_default_filters(m.filters)
    &&& m.page_limit == 100
    &&& m.max_events is None
}

/// The Sentinel settings of `SentinelConfig::default()`.
pub open spec fn is_default_sentinel(s: SentinelConfig) -> bool {
    &&& s.tenant_id@.len() == 0
    &&& s.client_id@.len() == 0
    &&& s.client_secret@.len() == 0
    &&& s.workspace_id@.len() == 0
    &&& s.source_system@ == "MISP"@
    &&& s.api_version@ == "2024-02-01-preview"@
}

/// The sync settings of `SyncConfig::default()`.
pub open spec fn is_default_sync(s: SyncConfig) -> bool {
    &&& s.days_to_expire == 50
    &&& s.days_to_expire_start@ == "current_date"@
    &&& s.type_expiration@.len() == 0
    &&& s.default_confidence == 50
    &&& s.include_types@.len() == 0
    &&& s.exclude_types@.len() == 0
    &&& !s.dry_run
    &&& s.batch_size == 100
    &&& s.requests_per_minute == 100
    &&& s.concurrent_page_fetches == 4
    &&& s.concurrent_uploads == 4
    &&& s.parallel_conversion
    &&& !s.verbose
    &&& s.flatten_attributes
    &&& s.ignore_local_tags
    &&& !s.write_parsed_indicators
    &&& !s.write_parsed_event_ids
}

/// `Config::default()`.
pub open spec fn is_default_config(c: Config) -> bool {
    &&& is_default_misp(c.misp)
    &&& is_default_sentinel(c.sentinel)
    &&& is_default_sync(c.sync)
    &&& c.keyvault is None
}

impl Default for MispFilters {
    fn default() -> (r: Self)
        ensures
            is_default_filters(r),
    {
        MispFilters {
            published: default_true(),
            tags: Vec::new(),
            not_tags: Vec::new(),
            orgs: Vec::new(),
            not_orgs: Vec::new(),
            publish_timestamp: default_publish_timestamp(),
            timestamp: None,
            from: None,
            to: None,
            last: None,
            event_info: None,
            threat_level_id: None,
            to_ids: default_true(),
            enforce_warninglist: false,
            include_event_tags: default_true(),
            custom: Vec::new(),
        }
    }
}

impl Default for MispConfig {
    fn default() -> (r: Self)
        ensures
            is_default_misp(r),
    {
        MispConfig {
            url: String::new(),
            api_key: String::new(),
            verify_tls: true,
            filters: MispFilters::default(),
            page_limit: default_page_limit(),
            max_events: None,
        }
    }
}

impl Default for SentinelConfig {
    fn default() -> (r: Self)
        ensures
            is_default_sentinel(r),
    {
        SentinelConfig {
            tenant_id: String::new(),
            client_id: String::new(),
            client_secret: String::new(),
            workspace_id: String::new(),
            source_system: default_source_system(),
            api_version: default_api_version(),
        }
    }
}

impl Default for SyncConfig {
    fn default() -> (r: Self)
        ensures
            is_default_sync(r),
    {
        SyncConfig {
            days_to_expire: default_days_to_expire(),
            days_to_expire_start: default_days_to_expire_start(),
            type_expiration: Vec::new(),
            default_confidence: default_confidence(),
            include_types: Vec::new(),
            exclude_types: Vec::new(),
            dry_run: false,
            batch_size: default_batch_size(),
            requests_per_minute: default_rate_limit(),
            concurrent_page_fetches: default_concurrent_page_fetches(),
            concurrent_uploads: default_concurrent_uploads(),
            parallel_conversion: true,
            verbose: false,
            flatten_attributes: true,
            ignore_local_tags: true,
            write_parsed_indicators: false,
            write_parsed_event_ids: false,
        }
    }
}

impl Default for Config {
    fn default() -> (r: Self)
        ensures
            is_default_config(r),
    {
        Config {
            misp: MispConfig::default(),
            sentinel: SentinelConfig::default(),
            sync: SyncConfig::default(),
            keyvault: None,
        }
    }
}

// ---------------------------------------------------------------------------
// Validation
// ---------------------------------------------------------------------------

/// The first missing required setting's message, if any.
pub open spec fn validation_error(c: Config) -> Option<Seq<char>> {
    if c.misp.url@.len() == 0 {
        Some("MISP URL is required"@)
    } else if c.misp.api_key@.len() == 0 {
        Some("MISP API key is required"@)
    } else if c.sentinel.tenant_id@.len() == 0 {
        Some("Azure tenant ID is required"@)
    } else if c.sentinel.client_id@.len() == 0 {
        Some("Azure client ID is required"@)
    } else if c.sentinel.client_secret@.len() == 0 {
        Some("Azure client secret is required"@)
    } else if c.sentinel.workspace_id@.len() == 0 {
        Some("Sentinel workspace ID is required"@)
    } else {
        None
    }
}

/// A configuration error with the given message.
fn config_error(msg: &str) -> (r: Error)
    ensures
        r matches Error::Config(m) && m@ == msg@,
{
    Error::Config(msg.to_string())
}

impl Config {
    /// Validate the configuration: every required setting must be non-empty.
    pub fn validate(&self) -> (r: Result<(), Error>)
        ensures
            r is Ok <==> validation_error(*self) is None,
            r matches Err(e) ==> e matches Error::Config(m) && Some(m@) == validation_error(*self),
    {
        if self.misp.url.unicode_len() == 0 {
            return Err(config_error("MISP URL is required"));
        }
        if self.misp.api_key.unicode_len() == 0 {
            return Err(config_error("MISP API key is required"));
        }
        if self.sentinel.tenant_id.unicode_len() == 0 {
            return Err(config_error("Azure tenant ID is required"));
        }
        if self.sentinel.client_id.unicode_len() == 0 {
            return Err(config_error("Azure client ID is required"));
        }
        if self.sentinel.client_secret.unicode_len() == 0 {
            return Err(config_error("Azure client secret is required"));
        }
        if self.sentinel.workspace_id.unicode_len() == 0 {
            return Err(config_error("Sentinel workspace ID is required"));
        }
        Ok(())
    }
}

} // verus!
