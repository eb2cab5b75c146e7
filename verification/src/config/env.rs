//! Reading the configuration from the environment.

use crate::config::{
    bool_or, csv_items, csv_levels, expiration_entries, expirations_view, parse_csv, parse_levels,
    parse_type_expiration, text_or, uint_or, Config, Environment, KeyVaultConfig, MispConfig,
    MispFilters, SentinelConfig, SyncConfig, TypeExpiration,
};
use crate::error::Error;
use crate::text::{parse_bool, parse_u32, parse_u8, parse_usize, split_fields};
use vstd::prelude::*;

verus! {

// ---------------------------------------------------------------------------
// What a variable gives
// ---------------------------------------------------------------------------

/// A comma-separated list variable: its items, none when unset.
pub open spec fn csv_or_empty(v: Option<Seq<char>>) -> Seq<Seq<char>> {
    match v {
        Some(s) => csv_items(s),
        None => Seq::<Seq<char>>::empty(),
    }
}

/// A threat level list variable: its levels when set.
pub open spec fn levels_of(v: Option<Seq<char>>) -> Option<Seq<u8>> {
    match v {
        Some(s) => Some(csv_levels(s)),
        None => None,
    }
}

/// A type expiration variable: its entries, none when unset.
pub open spec fn expirations_of(v: Option<Seq<char>>) -> Seq<(Seq<char>, u32)> {
    match v {
        Some(s) => expiration_entries(split_fields(s, ',')),
        None => Seq::<(Seq<char>, u32)>::empty(),
    }
}

/// An optional `u32` variable: the number when it is set and parses.
pub open spec fn opt_u32_of(v: Option<Seq<char>>) -> Option<u32> {
    match v {
        Some(s) => match crate::text::parse_unsigned(s, u32::MAX as nat) {
            Some(n) => Some(n as u32),
            None => None,
        },
        None => None,
    }
}

/// `n`, but no more than `cap`.
pub open spec fn capped(n: nat, cap: nat) -> nat {
    if n > cap {
        cap
    } else {
        n
    }
}

// ---------------------------------------------------------------------------
// The configuration an environment gives
// ---------------------------------------------------------------------------

/// The message of the first required variable that is unset, if any.
pub open spec fn env_config_error(e: Environment) -> Option<Seq<char>> {
    if e.get("MISP_URL"@) is None {
        Some("MISP_URL not set"@)
    } else if e.get("AZURE_TENANT_ID"@) is None {
        Some("AZURE_TENANT_ID not set"@)
    } else if e.get("AZURE_CLIENT_ID"@) is None {
        Some("AZURE_CLIENT_ID not set"@)
    } else if e.get("SENTINEL_WORKSPACE_ID"@) is None {
        Some("SENTINEL_WORKSPACE_ID not set"@)
    } else {
        None
    }
}

/// The MISP filters an environment gives.
pub open spec fn filters_from_env(e: Environment, f: MispFilters) -> bool {
    &&& f.published == bool_or(e.get("MISP_FILTER_PUBLISHED"@), true)
    &&& f.tags.deep_view() == csv_or_empty(e.get("MISP_FILTER_TAGS"@))
    &&& f.not_tags.deep_view() == csv_or_empty(e.get("MISP_FILTER_NOT_TAGS"@))
    &&& f.orgs.deep_view() == csv_or_empty(e.get("MISP_FILTER_ORGS"@))
    &&& f.not_orgs.deep_view() == csv_or_empty(e.get("MISP_FILTER_NOT_ORGS"@))
    &&& f.publish_timestamp.deep_view() == Some(
        text_or(e.get("MISP_FILTER_PUBLISH_TIMESTAMP"@), "14d"@),
    )
    &&& f.timestamp.deep_view() == e.get("MISP_FILTER_TIMESTAMP"@)
    &&& f.from.deep_view() == e.get("MISP_FILTER_FROM"@)
    &&& f.to.deep_view() == e.get("MISP_FILTER_TO"@)
    &&& f.last.deep_view() == e.get("MISP_FILTER_LAST"@)
    &&& f.event_info.deep_view() == e.get("MISP_FILTER_EVENT_INFO"@)
    &&& f.threat_level_id.deep_view() == levels_of(e.get("MISP_FILTER_THREAT_LEVEL"@))
    &&& f.to_ids == bool_or(e.get("MISP_FILTER_TO_IDS"@), true)
    &&& f.enforce_warninglist == bool_or(e.get("MISP_FILTER_ENFORCE_WARNINGLIST"@), false)
    &&& f.include_event_tags == bool_or(e.get("MISP_FILTER_INCLUDE_EVENT_TAGS"@), true)
    &&& f.custom@.len() == 0
}

/// The MISP settings an environment with `MISP_URL` set gives.
pub open spec fn misp_from_env(e: Environment, m: MispConfig) -> bool {
    &&& Some(m.url@) == e.get("MISP_URL"@)
    &&& m.api_key@ == text_or(e.get("MISP_API_KEY"@), Seq::<char>::empty())
    &&& m.verify_tls == bool_or(e.get("MISP_VERIFY_TLS"@), true)
    &&& filters_from_env(e, m.filters)
    &&& m.page_limit == uint_or(e.get("MISP_PAGE_LIMIT"@), u32::MAX as nat, 100)
    &&& m.max_events == opt_u32_of(e.get("MISP_MAX_EVENTS"@))
}

/// The Sentinel settings an environment with the required variables set gives.
pub open spec fn sentinel_from_env(e: Environment, s: SentinelConfig) -> bool {
    &&& Some(s.tenant_id@) == e.get("AZURE_TENANT_ID"@)
    &&& Some(s.client_id@) == e.get("AZURE_CLIENT_ID"@)
    &&& s.client_secret@ == text_or(e.get("AZURE_CLIENT_SECRET"@), Seq::<char>::empty())
    &&& Some(s.workspace_id@) == e.get("SENTINEL_WORKSPACE_ID"@)
    &&& s.source_system@ == text_or(e.get("SENTINEL_SOURCE_SYSTEM"@), "MISP"@)
    &&& s.api_version@ == text_or(e.get("SENTINEL_API_VERSION"@), "2024-02-01-preview"@)
}

/// The sync settings an environment gives.
pub open spec fn sync_from_env(e: Environment, s: SyncConfig) -> bool {
    &&& s.days_to_expire == uint_or(e.get("SYNC_DAYS_TO_EXPIRE"@), u32::MAX as nat, 50)
    &&& s.days_to_expire_start@ == text_or(e.get("SYNC_DAYS_TO_EXPIRE_START"@), "current_date"@)
    &&& expirations_view(s.type_expiration@) == expirations_of(e.get("SYNC_TYPE_EXPIRATION"@))
    &&& s.default_confidence == uint_or(e.get("SYNC_DEFAULT_CONFIDENCE"@), u8::MAX as nat, 50)
    &&& s.include_types.deep_view() == match e.get("SYNC_INCLUDE_TYPES"@) {
        Some(v) => crate::config::csv_items_all(v),
        None => Seq::<Seq<char>>::empty(),
    }
    &&& s.exclude_types.deep_view() == match e.get("SYNC_EXCLUDE_TYPES"@) {
        Some(v) => crate::config::csv_items_all(v),
        None => Seq::<Seq<char>>::empty(),
    }
    &&& s.dry_run == bool_or(e.get("SYNC_DRY_RUN"@), false)
    &&& s.batch_size == capped(uint_or(e.get("SYNC_BATCH_SIZE"@), usize::MAX as nat, 100), 100)
    &&& s.requests_per_minute == capped(
        uint_or(e.get("SYNC_REQUESTS_PER_MINUTE"@), u32::MAX as nat, 100),
        100,
    )
    &&& s.concurrent_page_fetches == uint_or(
        e.get("SYNC_CONCURRENT_PAGE_FETCHES"@),
        usize::MAX as nat,
        4,
    )
    &&& s.concurrent_uploads == uint_or(e.get("SYNC_CONCURRENT_UPLOADS"@), usize::MAX as nat, 4)
    &&& s.parallel_conversion == bool_or(e.get("SYNC_PARALLEL_CONVERSION"@), true)
    &&& s.verbose == bool_or(e.get("SYNC_VERBOSE"@), false)
    &&& s.flatten_attributes == bool_or(e.get("SYNC_FLATTEN_ATTRIBUTES"@), true)
    &&& s.ignore_local_tags == bool_or(e.get("SYNC_IGNORE_LOCAL_TAGS"@), true)
    &&& s.write_parsed_indicators == bool_or(e.get("SYNC_WRITE_PARSED_INDICATORS"@), false)
    &&& s.write_parsed_event_ids == bool_or(e.get("SYNC_WRITE_PARSED_EVENT_IDS"@), false)
}

/// The Key Vault settings an environment gives: present when `AZURE_KEYVAULT_URL` is set.
pub open spec fn keyvault_from_env(e: Environment, k: Option<KeyVaultConfig>) -> bool {
    match e.get("AZURE_KEYVAULT_URL"@) {
        Some(u) => match k {
            Some(kv) => {
                &&& kv.vault_url@ == u
                &&& kv.misp_api_key_secret.deep_view() == e.get("KEYVAULT_MISP_API_KEY_SECRET"@)
                &&& kv.sentinel_client_secret.deep_view() == e.get(
                    "KEYVAULT_SENTINEL_CLIENT_SECRET"@,
                )
            },
            None => false,
        },
        None => k is None,
    }
}

/// The configuration an environment with the required variables set gives.
pub open spec fn config_from_env(e: Environment, c: Config) -> bool {
    &&& misp_from_env(e, c.misp)
    &&& sentinel_from_env(e, c.sentinel)
    &&& sync_from_env(e, c.sync)
    &&& keyvault_from_env(e, c.keyvault)
}

// ---------------------------------------------------------------------------
// Reading variables
// ---------------------------------------------------------------------------

fn env_bool(env: &Environment, name: &str, d: bool) -> (r: bool)
    ensures
        r == bool_or(env.get(name@), d),
{
    match env.var(name) {
        Some(v) => match parse_bool(v.as_str()) {
            Some(b) => b,
            None => d,
        },
        None => d,
    }
}

fn env_u32(env: &Environment, name: &str, d: u32) -> (r: u32)
    ensures
        r == uint_or(env.get(name@), u32::MAX as nat, d as nat),
{
    match env.var(name) {
        Some(v) => match parse_u32(v.as_str()) {
            Some(n) => n,
            None => d,
        },
        None => d,
    }
}

fn env_usize(env: &Environment, name: &str, d: usize) -> (r: usize)
    ensures
        r == uint_or(env.get(name@), usize::MAX as nat, d as nat),
{
    match env.var(name) {
        Some(v) => match parse_usize(v.as_str()) {
            Some(n) => n,
            None => d,
        },
        None => d,
    }
}

fn env_u8(env: &Environment, name: &str, d: u8) -> (r: u8)
    ensures
        r == uint_or(env.get(name@), u8::MAX as nat, d as nat),
{
    match env.var(name) {
        Some(v) => match parse_u8(v.as_str()) {
            Some(n) => n,
            None => d,
        },
        None => d,
    }
}

fn env_text(env: &Environment, name: &str, d: &str) -> (r: String)
    ensures
        r@ == text_or(env.get(name@), d@),
{
    match env.var(name) {
        Some(v) => v,
        None => d.to_string(),
    }
}

fn env_csv(env: &Environment, name: &str) -> (r: Vec<String>)
    ensures
        r.deep_view() == csv_or_empty(env.get(name@)),
{
    match env.var(name) {
        Some(v) => parse_csv(v.as_str()),
        None => {
            let r: Vec<String> = Vec::new();
            assert(r.deep_view() =~= Seq::<Seq<char>>::empty());
            r
        },
    }
}

fn env_csv_all(env: &Environment, name: &str) -> (r: Vec<String>)
    ensures
        r.deep_view() == match env.get(name@) {
            Some(v) => crate::config::csv_items_all(v),
            None => Seq::<Seq<char>>::empty(),
        },
{
    match env.var(name) {
        Some(v) => crate::config::parse_csv_all(v.as_str()),
        None => {
            let r: Vec<String> = Vec::new();
            assert(r.deep_view() =~= Seq::<Seq<char>>::empty());
            r
        },
    }
}

fn env_levels(env: &Environment, name: &str) -> (r: Option<Vec<u8>>)
    ensures
        r.deep_view() == levels_of(env.get(name@)),
{
    match env.var(name) {
        Some(v) => {
            let levels = parse_levels(v.as_str());
            assert(levels.deep_view() =~= levels@);
            Some(levels)
        },
        None => None,
    }
}

fn env_opt_u32(env: &Environment, name: &str) -> (r: Option<u32>)
    ensures
        r == opt_u32_of(env.get(name@)),
{
    match env.var(name) {
        Some(v) => parse_u32(v.as_str()),
        None => None,
    }
}

fn env_expirations(env: &Environment, name: &str) -> (r: Vec<TypeExpiration>)
    ensures
        expirations_view(r@) == expirations_of(env.get(name@)),
{
    match env.var(name) {
        Some(v) => parse_type_expiration(v.as_str()),
        None => {
            let r: Vec<TypeExpiration> = Vec::new();
            assert(expirations_view(r@) =~= Seq::<(Seq<char>, u32)>::empty());
            r
        },
    }
}

fn cap_usize(n: usize, cap: usize) -> (r: usize)
    ensures
        r == capped(n as nat, cap as nat),
{
    if n > cap {
        cap
    } else {
        n
    }
}

fn cap_u32(n: u32, cap: u32) -> (r: u32)
    ensures
        r == capped(n as nat, cap as nat),
{
    if n > cap {
        cap
    } else {
        n
    }
}

/// The MISP filters of an environment.
fn filters_of_env(env: &Environment) -> (f: MispFilters)
    ensures
        filters_from_env(*env, f),
{
    let publish_timestamp = env_text(env, "MISP_FILTER_PUBLISH_TIMESTAMP", "14d");
    let f = MispFilters {
        published: env_bool(env, "MISP_FILTER_PUBLISHED", true),
        tags: env_csv(env, "MISP_FILTER_TAGS"),
        not_tags: env_csv(env, "MISP_FILTER_NOT_TAGS"),
        orgs: env_csv(env, "MISP_FILTER_ORGS"),
        not_orgs: env_csv(env, "MISP_FILTER_NOT_ORGS"),
        publish_timestamp: Some(publish_timestamp),
        timestamp: env.var("MISP_FILTER_TIMESTAMP"),
        from: env.var("MISP_FILTER_FROM"),
        to: env.var("MISP_FILTER_TO"),
        last: env.var("MISP_FILTER_LAST"),
        event_info: env.var("MISP_FILTER_EVENT_INFO"),
        threat_level_id: env_levels(env, "MISP_FILTER_THREAT_LEVEL"),
        to_ids: env_bool(env, "MISP_FILTER_TO_IDS", true),
        enforce_warninglist: env_bool(env, "MISP_FILTER_ENFORCE_WARNINGLIST", false),
        include_event_tags: env_bool(env, "MISP_FILTER_INCLUDE_EVENT_TAGS", true),
        custom: Vec::new(),
    };
    f
}

/// The sync settings of an environment.
fn sync_of_env(env: &Environment) -> (s: SyncConfig)
    ensures
        sync_from_env(*env, s),
{
    let batch = env_usize(env, "SYNC_BATCH_SIZE", 100);
    let rpm = env_u32(env, "SYNC_REQUESTS_PER_MINUTE", 100);
    SyncConfig {
        days_to_expire: env_u32(env, "SYNC_DAYS_TO_EXPIRE", 50),
        days_to_expire_start: env_text(env, "SYNC_DAYS_TO_EXPIRE_START", "current_date"),
        type_expiration: env_expirations(env, "SYNC_TYPE_EXPIRATION"),
        default_confidence: env_u8(env, "SYNC_DEFAULT_CONFIDENCE", 50),
        include_types: env_csv_all(env, "SYNC_INCLUDE_TYPES"),
        exclude_types: env_csv_all(env, "SYNC_EXCLUDE_TYPES"),
        dry_run: env_bool(env, "SYNC_DRY_RUN", false),
        batch_size: cap_usize(batch, 100),
        requests_per_minute: cap_u32(rpm, 100),
        concurrent_page_fetches: env_usize(env, "SYNC_CONCURRENT_PAGE_FETCHES", 4),
        concurrent_uploads: env_usize(env, "SYNC_CONCURRENT_UPLOADS", 4),
        parallel_conversion: env_bool(env, "SYNC_PARALLEL_CONVERSION", true),
        verbose: env_bool(env, "SYNC_VERBOSE", false),
        flatten_attributes: env_bool(env, "SYNC_FLATTEN_ATTRIBUTES", true),
        ignore_local_tags: env_bool(env, "SYNC_IGNORE_LOCAL_TAGS", true),
        write_parsed_indicators: env_bool(env, "SYNC_WRITE_PARSED_INDICATORS", false),
        write_parsed_event_ids: env_bool(env, "SYNC_WRITE_PARSED_EVENT_IDS", false),
    }
}

/// The Key Vault settings of an environment.
fn keyvault_of_env(env: &Environment) -> (k: Option<KeyVaultConfig>)
    ensures
        keyvault_from_env(*env, k),
{
    match env.var("AZURE_KEYVAULT_URL") {
        Some(vault_url) => Some(
            KeyVaultConfig {
                vault_url,
                misp_api_key_secret: env.var("KEYVAULT_MISP_API_KEY_SECRET"),
                sentinel_client_secret: env.var("KEYVAULT_SENTINEL_CLIENT_SECRET"),
            },
        ),
        None => None,
    }
}

fn not_set(msg: &str) -> (r: Error)
    ensures
        r matches Error::Config(m) && m@ == msg@,
{
    Error::Config(msg.to_string())
}

impl Config {
    /// Load the configuration from environment variables.
    ///
    /// `MISP_URL`, `AZURE_TENANT_ID`, `AZURE_CLIENT_ID` and `SENTINEL_WORKSPACE_ID`
    /// are required; every other setting has a default.
    pub fn from_env(env: &Environment) -> (r: Result<Config, Error>)
        ensures
            r is Ok <==> env_config_error(*env) is None,
            r matches Ok(c) ==> config_from_env(*env, c),
            r matches Err(e) ==> e matches Error::Config(m) && Some(m@) == env_config_error(*env),
    {
        let url = match env.var("MISP_URL") {
            Some(u) => u,
            None => return Err(not_set("MISP_URL not set")),
        };
        let tenant_id = match env.var("AZURE_TENANT_ID") {
            Some(t) => t,
            None => return Err(not_set("AZURE_TENANT_ID not set")),
        };
        let client_id = match env.var("AZURE_CLIENT_ID") {
            Some(c) => c,
            None => return Err(not_set("AZURE_CLIENT_ID not set")),
        };
        let workspace_id = match env.var("SENTINEL_WORKSPACE_ID") {
            Some(w) => w,
            None => return Err(not_set("SENTINEL_WORKSPACE_ID not set")),
        };
        let misp = MispConfig {
            url,
            api_key: env_text(env, "MISP_API_KEY", ""),
            verify_tls: env_bool(env, "MISP_VERIFY_TLS", true),
            filters: filters_of_env(env),
            page_limit: env_u32(env, "MISP_PAGE_LIMIT", 100),
            max_events: env_opt_u32(env, "MISP_MAX_EVENTS"),
        };
        let sentinel = SentinelConfig {
            tenant_id,
            client_id,
            client_secret: env_text(env, "AZURE_CLIENT_SECRET", ""),
            workspace_id,
            source_system: env_text(env, "SENTINEL_SOURCE_SYSTEM", "MISP"),
            api_version: env_text(env, "SENTINEL_API_VERSION", "2024-02-01-preview"),
        };
        proof {
            reveal_strlit("");
            assert(""@ =~= Seq::<char>::empty());
        }
        assert(misp_from_env(*env, misp));
        assert(sentinel_from_env(*env, sentinel));
        Ok(Config { misp, sentinel, sync: sync_of_env(env), keyvault: keyvault_of_env(env) })
    }
}

} // verus!
