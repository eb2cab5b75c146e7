//! Loading the configuration: a file or the environment as the base, then
//! overrides from the environment, the command line and Key Vault.

use crate::config::env::{config_from_env, env_config_error, levels_of, opt_u32_of};
use crate::config::{
    bool_or, csv_items, is_default_config, parse_csv, parse_levels, text_or, uint_or, Config,
    Environment, KeyVaultConfig, MispConfig, MispFilters, SentinelConfig, SyncConfig,
};
use crate::text::{parse_bool, parse_u32, parse_usize};
use vstd::prelude::*;

verus! {

// ---------------------------------------------------------------------------
// Environment overrides
// ---------------------------------------------------------------------------

/// A boolean setting after an override: the variable's value (`d` when it does
/// not parse) when it is set, the old value otherwise.
pub open spec fn bool_override(v: Option<Seq<char>>, old: bool, d: bool) -> bool {
    match v {
        Some(s) => bool_or(Some(s), d),
        None => old,
    }
}

/// An unsigned setting after an override.
pub open spec fn uint_override(v: Option<Seq<char>>, old: nat, max: nat, d: nat) -> nat {
    match v {
        Some(s) => uint_or(Some(s), max, d),
        None => old,
    }
}

/// A text setting after an override.
pub open spec fn text_override(v: Option<Seq<char>>, old: Seq<char>) -> Seq<char> {
    text_or(v, old)
}

/// An optional text setting after an override.
pub open spec fn opt_override(v: Option<Seq<char>>, old: Option<Seq<char>>) -> Option<Seq<char>> {
    match v {
        Some(s) => Some(s),
        None => old,
    }
}

/// A list setting after an override.
pub open spec fn csv_override(v: Option<Seq<char>>, old: Seq<Seq<char>>) -> Seq<Seq<char>> {
    match v {
        Some(s) => csv_items(s),
        None => old,
    }
}

/// The MISP connection settings `n` that the environment's overrides make of `o`.
pub open spec fn misp_overrides(e: Environment, o: MispConfig, n: MispConfig) -> bool {
    &&& n.url@ == text_override(e.get("MISP_URL"@), o.url@)
    &&& n.api_key@ == text_override(e.get("MISP_API_KEY"@), o.api_key@)
    &&& n.verify_tls == bool_override(e.get("MISP_VERIFY_TLS"@), o.verify_tls, true)
    &&& n.page_limit == uint_override(
        e.get("MISP_PAGE_LIMIT"@),
        o.page_limit as nat,
        u32::MAX as nat,
        100,
    )
    &&& n.max_events == match e.get("MISP_MAX_EVENTS"@) {
        Some(s) => opt_u32_of(Some(s)),
        None => o.max_events,
    }
    &&& filter_overrides(e, o.filters, n.filters)
}

/// The MISP filters `n` that the environment's overrides make of `o`.
pub open spec fn filter_overrides(e: Environment, o: MispFilters, n: MispFilters) -> bool {
    &&& n.published == bool_override(
        e.get("MISP_FILTER_PUBLISHED"@),
        o.published,
        true,
    )
    &&& n.tags.deep_view() == csv_override(
        e.get("MISP_FILTER_TAGS"@),
        o.tags.deep_view(),
    )
    &&& n.not_tags.deep_view() == csv_override(
        e.get("MISP_FILTER_NOT_TAGS"@),
        o.not_tags.deep_view(),
    )
    &&& n.orgs.deep_view() == csv_override(
        e.get("MISP_FILTER_ORGS"@),
        o.orgs.deep_view(),
    )
    &&& n.not_orgs.deep_view() == csv_override(
        e.get("MISP_FILTER_NOT_ORGS"@),
        o.not_orgs.deep_view(),
    )
    &&& n.publish_timestamp.deep_view() == opt_override(
        e.get("MISP_FILTER_PUBLISH_TIMESTAMP"@),
        o.publish_timestamp.deep_view(),
    )
    &&& n.timestamp.deep_view() == opt_override(
        e.get("MISP_FILTER_TIMESTAMP"@),
        o.timestamp.deep_view(),
    )
    &&& n.from.deep_view() == opt_override(
        e.get("MISP_FILTER_FROM"@),
        o.from.deep_view(),
    )
    &&& n.to.deep_view() == opt_override(
        e.get("MISP_FILTER_TO"@),
        o.to.deep_view(),
    )
    &&& n.last.deep_view() == opt_override(
        e.get("MISP_FILTER_LAST"@),
        o.last.deep_view(),
    )
    &&& n.event_info.deep_view() == opt_override(
        e.get("MISP_FILTER_EVENT_INFO"@),
        o.event_info.deep_view(),
    )
    &&& n.threat_level_id.deep_view() == match e.get("MISP_FILTER_THREAT_LEVEL"@) {
        Some(s) => levels_of(Some(s)),
        None => o.threat_level_id.deep_view(),
    }
    &&& n.to_ids == bool_override(
        e.get("MISP_FILTER_TO_IDS"@),
        o.to_ids,
        true,
    )
    &&& n.enforce_warninglist == bool_override(
        e.get("MISP_FILTER_ENFORCE_WARNINGLIST"@),
        o.enforce_warninglist,
        true,
    )
    &&& n.include_event_tags == bool_override(
        e.get("MISP_FILTER_INCLUDE_EVENT_TAGS"@),
        o.include_event_tags,
        true,
    )
    &&& n.custom == o.custom
}

/// The Sentinel settings `n` that the environment's overrides make of `o`.
pub open spec fn sentinel_overrides(e: Environment, o: SentinelConfig, n: SentinelConfig) -> bool {
    &&& n.tenant_id@ == text_override(e.get("AZURE_TENANT_ID"@), o.tenant_id@)
    &&& n.client_id@ == text_override(e.get("AZURE_CLIENT_ID"@), o.client_id@)
    &&& n.client_secret@ == text_override(
        e.get("AZURE_CLIENT_SECRET"@),
        o.client_secret@,
    )
    &&& n.workspace_id@ == text_override(
        e.get("SENTINEL_WORKSPACE_ID"@),
        o.workspace_id@,
    )
    &&& n.source_system == o.source_system
    &&& n.api_version == o.api_version
}

/// The sync settings `n` that the environment's overrides make of `o`.
pub open spec fn sync_overrides(e: Environment, o: SyncConfig, n: SyncConfig) -> bool {
    &&& n.dry_run == bool_override(e.get("SYNC_DRY_RUN"@), o.dry_run, false)
    &&& n.batch_size == uint_override(
        e.get("SYNC_BATCH_SIZE"@),
        o.batch_size as nat,
        usize::MAX as nat,
        100,
    )
    &&& n.requests_per_minute == uint_override(
        e.get("SYNC_REQUESTS_PER_MINUTE"@),
        o.requests_per_minute as nat,
        u32::MAX as nat,
        100,
    )
    &&& n.concurrent_page_fetches == uint_override(
        e.get("SYNC_CONCURRENT_PAGE_FETCHES"@),
        o.concurrent_page_fetches as nat,
        usize::MAX as nat,
        4,
    )
    &&& n.concurrent_uploads == uint_override(
        e.get("SYNC_CONCURRENT_UPLOADS"@),
        o.concurrent_uploads as nat,
        usize::MAX as nat,
        4,
    )
    &&& n.parallel_conversion == bool_override(
        e.get("SYNC_PARALLEL_CONVERSION"@),
        o.parallel_conversion,
        true,
    )
    &&& n.days_to_expire == o.days_to_expire
    &&& n.days_to_expire_start == o.days_to_expire_start
    &&& n.type_expiration == o.type_expiration
    &&& n.default_confidence == o.default_confidence
    &&& n.include_types == o.include_types
    &&& n.exclude_types == o.exclude_types
    &&& n.verbose == o.verbose
    &&& n.flatten_attributes == o.flatten_attributes
    &&& n.ignore_local_tags == o.ignore_local_tags
    &&& n.write_parsed_indicators == o.write_parsed_indicators
    &&& n.write_parsed_event_ids == o.write_parsed_event_ids
}

/// The configuration `n` that the environment's overrides make of `o`.
pub open spec fn env_overrides(e: Environment, o: Config, n: Config) -> bool {
    &&& misp_overrides(e, o.misp, n.misp)
    &&& sentinel_overrides(e, o.sentinel, n.sentinel)
    &&& sync_overrides(e, o.sync, n.sync)
    &&& n.keyvault == o.keyvault
}

/// The configuration file's path: `CONFIG_PATH`, or `config.toml`.
pub open spec fn config_path_of(e: Environment) -> Seq<char> {
    text_or(e.get("CONFIG_PATH"@), "config.toml"@)
}

/// The base that `load` starts from: the file's configuration when there is
/// one, else the environment's, else the defaults.
pub open spec fn load_base(e: Environment, file: Option<Config>, b: Config) -> bool {
    match file {
        Some(f) => b == f,
        None => if env_config_error(e) is None {
            config_from_env(e, b)
        } else {
            is_default_config(b)
        },
    }
}

/// The path of the configuration file to read.
pub fn config_path(env: &Environment) -> (r: String)
    ensures
        r@ == config_path_of(*env),
{
    match env.var("CONFIG_PATH") {
        Some(p) => p,
        None => "config.toml".to_string(),
    }
}

/// Override a boolean setting when its variable is set.
fn override_bool(field: &mut bool, env: &Environment, name: &str, d: bool)
    ensures
        *final(field) == bool_override(env.get(name@), *old(field), d),
{
    if let Some(v) = env.var(name) {
        *field = match parse_bool(v.as_str()) {
            Some(b) => b,
            None => d,
        };
    }
}

/// Override a `u32` setting when its variable is set.
fn override_u32(field: &mut u32, env: &Environment, name: &str, d: u32)
    ensures
        *final(field) == uint_override(env.get(name@), *old(field) as nat, u32::MAX as nat, d as nat),
{
    if let Some(v) = env.var(name) {
        *field = match parse_u32(v.as_str()) {
            Some(n) => n,
            None => d,
        };
    }
}

/// Override a `usize` setting when its variable is set.
fn override_usize(field: &mut usize, env: &Environment, name: &str, d: usize)
    ensures
        *final(field) == uint_override(
            env.get(name@),
            *old(field) as nat,
            usize::MAX as nat,
            d as nat,
        ),
{
    if let Some(v) = env.var(name) {
        *field = match parse_usize(v.as_str()) {
            Some(n) => n,
            None => d,
        };
    }
}

/// Override a text setting when its variable is set.
fn override_text(field: &mut String, env: &Environment, name: &str)
    ensures
        final(field)@ == text_override(env.get(name@), old(field)@),
{
    if let Some(v) = env.var(name) {
        *field = v;
    }
}

/// Override an optional text setting when its variable is set.
fn override_opt(field: &mut Option<String>, env: &Environment, name: &str)
    ensures
        final(field).deep_view() == opt_override(env.get(name@), old(field).deep_view()),
{
    if let Some(v) = env.var(name) {
        *field = Some(v);
    }
}

/// Override a list setting when its variable is set.
fn override_csv(field: &mut Vec<String>, env: &Environment, name: &str)
    ensures
        final(field).deep_view() == csv_override(env.get(name@), old(field).deep_view()),
{
    if let Some(v) = env.var(name) {
        *field = parse_csv(v.as_str());
    }
}

/// Override the MISP connection settings that have a variable set.
fn apply_misp_overrides(m: &mut MispConfig, env: &Environment)
    ensures
        misp_overrides(*env, *old(m), *final(m)),
{
    override_text(&mut m.url, env, "MISP_URL");
    override_text(&mut m.api_key, env, "MISP_API_KEY");
    override_bool(&mut m.verify_tls, env, "MISP_VERIFY_TLS", true);
    override_u32(&mut m.page_limit, env, "MISP_PAGE_LIMIT", 100);
    if let Some(v) = env.var("MISP_MAX_EVENTS") {
        m.max_events = parse_u32(v.as_str());
    }
    apply_filter_overrides(&mut m.filters, env);
}

/// Override the MISP filters that have a variable set.
fn apply_filter_overrides(f: &mut MispFilters, env: &Environment)
    ensures
        filter_overrides(*env, *old(f), *final(f)),
{
    override_bool(&mut f.published, env, "MISP_FILTER_PUBLISHED", true);
    override_csv(&mut f.tags, env, "MISP_FILTER_TAGS");
    override_csv(&mut f.not_tags, env, "MISP_FILTER_NOT_TAGS");
    override_csv(&mut f.orgs, env, "MISP_FILTER_ORGS");
    override_csv(&mut f.not_orgs, env, "MISP_FILTER_NOT_ORGS");
    override_opt(&mut f.publish_timestamp, env, "MISP_FILTER_PUBLISH_TIMESTAMP");
    override_opt(&mut f.timestamp, env, "MISP_FILTER_TIMESTAMP");
    override_opt(&mut f.from, env, "MISP_FILTER_FROM");
    override_opt(&mut f.to, env, "MISP_FILTER_TO");
    override_opt(&mut f.last, env, "MISP_FILTER_LAST");
    override_opt(&mut f.event_info, env, "MISP_FILTER_EVENT_INFO");
    if let Some(v) = env.var("MISP_FILTER_THREAT_LEVEL") {
        let levels = parse_levels(v.as_str());
        assert(levels.deep_view() =~= levels@);
        f.threat_level_id = Some(levels);
    }
    override_bool(&mut f.to_ids, env, "MISP_FILTER_TO_IDS", true);
    override_bool(&mut f.enforce_warninglist, env, "MISP_FILTER_ENFORCE_WARNINGLIST", true);
    override_bool(&mut f.include_event_tags, env, "MISP_FILTER_INCLUDE_EVENT_TAGS", true);
}

/// Override the Sentinel settings that have a variable set.
fn apply_sentinel_overrides(s: &mut SentinelConfig, env: &Environment)
    ensures
        sentinel_overrides(*env, *old(s), *final(s)),
{
    override_text(&mut s.tenant_id, env, "AZURE_TENANT_ID");
    override_text(&mut s.client_id, env, "AZURE_CLIENT_ID");
    override_text(&mut s.client_secret, env, "AZURE_CLIENT_SECRET");
    override_text(&mut s.workspace_id, env, "SENTINEL_WORKSPACE_ID");
}

/// Override the sync settings that have a variable set.
fn apply_sync_overrides(s: &mut SyncConfig, env: &Environment)
    ensures
        sync_overrides(*env, *old(s), *final(s)),
{
    override_bool(&mut s.dry_run, env, "SYNC_DRY_RUN", false);
    override_usize(&mut s.batch_size, env, "SYNC_BATCH_SIZE", 100);
    override_u32(&mut s.requests_per_minute, env, "SYNC_REQUESTS_PER_MINUTE", 100);
    override_usize(&mut s.concurrent_page_fetches, env, "SYNC_CONCURRENT_PAGE_FETCHES", 4);
    override_usize(&mut s.concurrent_uploads, env, "SYNC_CONCURRENT_UPLOADS", 4);
    override_bool(&mut s.parallel_conversion, env, "SYNC_PARALLEL_CONVERSION", true);
}

impl Config {
    /// Override the settings that have an environment variable set.
    pub fn apply_env_overrides(&mut self, env: &Environment)
        ensures
            env_overrides(*env, *old(self), *final(self)),
    {
        apply_misp_overrides(&mut self.misp, env);
        apply_sentinel_overrides(&mut self.sentinel, env);
        apply_sync_overrides(&mut self.sync, env);
    }

    /// Load the configuration: `file` (the configuration file's contents, when
    /// that file exists) or else the environment, falling back to the defaults
    /// when a required variable is unset; then the environment's overrides.
    pub fn load(env: &Environment, file: Option<Config>) -> (r: Config)
        ensures
            exists|b: Config| load_base(*env, file, b) && #[trigger] env_overrides(*env, b, r),
    {
        let mut config = match file {
            Some(c) => c,
            None => match Config::from_env(env) {
                Ok(c) => c,
                Err(_) => Config::default(),
            },
        };
        let ghost base = config;
        config.apply_env_overrides(env);
        assert(load_base(*env, file, base) && env_overrides(*env, base, config));
        config
    }
}

// ---------------------------------------------------------------------------
// Command-line overrides
// ---------------------------------------------------------------------------

/// Name of the MISP API key secret when the vault comes from the command line.
pub const CLI_MISP_API_KEY_SECRET: &'static str = "misp-api-key";

/// Name of the Sentinel client secret when the vault comes from the command line.
pub const CLI_SENTINEL_CLIENT_SECRET: &'static str = "sentinel-client-secret";

/// The settings `n` that the command-line options make of `o`.
pub open spec fn cli_overrides(
    o: Config,
    n: Config,
    misp_url: Option<Seq<char>>,
    tenant_id: Option<Seq<char>>,
    client_id: Option<Seq<char>>,
    workspace_id: Option<Seq<char>>,
    keyvault_url: Option<Seq<char>>,
) -> bool {
    &&& n.misp.url@ == text_or(misp_url, o.misp.url@)
    &&& n.sentinel.tenant_id@ == text_or(tenant_id, o.sentinel.tenant_id@)
    &&& n.sentinel.client_id@ == text_or(client_id, o.sentinel.client_id@)
    &&& n.sentinel.workspace_id@ == text_or(workspace_id, o.sentinel.workspace_id@)
    &&& match keyvault_url {
        Some(u) => n.keyvault matches Some(kv) && kv.vault_url@ == u
            && kv.misp_api_key_secret.deep_view() == Some(CLI_MISP_API_KEY_SECRET@)
            && kv.sentinel_client_secret.deep_view() == Some(CLI_SENTINEL_CLIENT_SECRET@),
        None => n.keyvault == o.keyvault,
    }
    &&& n.misp.api_key == o.misp.api_key
    &&& n.misp.verify_tls == o.misp.verify_tls
    &&& n.misp.filters == o.misp.filters
    &&& n.misp.page_limit == o.misp.page_limit
    &&& n.misp.max_events == o.misp.max_events
    &&& n.sentinel.client_secret == o.sentinel.client_secret
    &&& n.sentinel.source_system == o.sentinel.source_system
    &&& n.sentinel.api_version == o.sentinel.api_version
    &&& n.sync == o.sync
}

fn replace_if_some(field: &mut String, v: Option<String>)
    ensures
        final(field)@ == text_or(v.deep_view(), old(field)@),
{
    if let Some(x) = v {
        *field = x;
    }
}

// ---------------------------------------------------------------------------
// Key Vault secrets
// ---------------------------------------------------------------------------

/// The setting a Key Vault secret fills.
#[derive(Debug, Clone, Copy, PartialEq, Eq)]
pub enum SecretSlot {
    MispApiKey,
    SentinelClientSecret,
}

/// A secret to read from the vault, and the setting it fills.
#[derive(Debug, Clone)]
pub struct SecretRequest {
    pub slot: SecretSlot,
    pub secret_name: String,
}

/// The secrets to read: for each setting that is empty and has a secret name
/// configured, that name; the MISP API key first.
pub open spec fn secret_plan(c: Config) -> Seq<(SecretSlot, Seq<char>)> {
    match c.keyvault {
        None => Seq::<(SecretSlot, Seq<char>)>::empty(),
        Some(kv) => {
            let misp = match kv.misp_api_key_secret {
                Some(n) => if c.misp.api_key@.len() == 0 {
                    seq![(SecretSlot::MispApiKey, n@)]
                } else {
                    Seq::<(SecretSlot, Seq<char>)>::empty()
                },
                None => Seq::<(SecretSlot, Seq<char>)>::empty(),
            };
            let sentinel = match kv.sentinel_client_secret {
                Some(n) => if c.sentinel.client_secret@.len() == 0 {
                    seq![(SecretSlot::SentinelClientSecret, n@)]
                } else {
                    Seq::<(SecretSlot, Seq<char>)>::empty()
                },
                None => Seq::<(SecretSlot, Seq<char>)>::empty(),
            };
            misp + sentinel
        },
    }
}

/// The (setting, name) pairs of a list of secret requests.
pub open spec fn requests_view(r: Seq<SecretRequest>) -> Seq<(SecretSlot, Seq<char>)> {
    r.map_values(|q: SecretRequest| (q.slot, q.secret_name@))
}

impl Config {
    /// Apply the command-line options: the connection settings given, and a
    /// vault given by URL with the default secret names.
    pub fn apply_cli_overrides(
        &mut self,
        misp_url: Option<String>,
        tenant_id: Option<String>,
        client_id: Option<String>,
        workspace_id: Option<String>,
        keyvault_url: Option<String>,
    )
        ensures
            cli_overrides(
                *old(self),
                *final(self),
                misp_url.deep_view(),
                tenant_id.deep_view(),
                client_id.deep_view(),
                workspace_id.deep_view(),
                keyvault_url.deep_view(),
            ),
    {
        replace_if_some(&mut self.misp.url, misp_url);
        replace_if_some(&mut self.sentinel.tenant_id, tenant_id);
        replace_if_some(&mut self.sentinel.client_id, client_id);
        replace_if_some(&mut self.sentinel.workspace_id, workspace_id);
        if let Some(vault_url) = keyvault_url {
            self.keyvault = Some(
                KeyVaultConfig {
                    vault_url,
                    misp_api_key_secret: Some(CLI_MISP_API_KEY_SECRET.to_string()),
                    sentinel_client_secret: Some(CLI_SENTINEL_CLIENT_SECRET.to_string()),
                },
            );
        }
    }

    /// The secrets to read from Key Vault, in order.
    pub fn secret_requests(&self) -> (r: Vec<SecretRequest>)
        ensures
            requests_view(r@) == secret_plan(*self),
    {
        let mut out: Vec<SecretRequest> = Vec::new();
        if let Some(kv) = &self.keyvault {
            if let Some(name) = &kv.misp_api_key_secret {
                if self.misp.api_key.unicode_len() == 0 {
                    out.push(SecretRequest { slot: SecretSlot::MispApiKey, secret_name: name.clone() });
                }
            }
            let ghost first = out@;
            if let Some(name) = &kv.sentinel_client_secret {
                if self.sentinel.client_secret.unicode_len() == 0 {
                    out.push(
                        SecretRequest {
                            slot: SecretSlot::SentinelClientSecret,
                            secret_name: name.clone(),
                        },
                    );
                }
            }
            proof {
                assert(requests_view(out@) =~= requests_view(first) + requests_view(
                    out@.skip(first.len() as int),
                ));
            }
        }
        proof {
            assert(requests_view(out@) =~= secret_plan(*self));
        }
        out
    }

    /// Store a secret read from Key Vault; a secret without a value stores
    /// an empty setting.
    pub fn store_secret(&mut self, slot: SecretSlot, value: Option<String>)
        ensures
            match slot {
                SecretSlot::MispApiKey => {
                    &&& final(self).misp.api_key@ == text_or(value.deep_view(), Seq::<char>::empty())
                    &&& final(self).sentinel == old(self).sentinel
                },
                SecretSlot::SentinelClientSecret => {
                    &&& final(self).sentinel.client_secret@ == text_or(
                        value.deep_view(),
                        Seq::<char>::empty(),
                    )
                    &&& final(self).misp == old(self).misp
                    &&& final(self).sentinel.tenant_id == old(self).sentinel.tenant_id
                    &&& final(self).sentinel.client_id == old(self).sentinel.client_id
                    &&& final(self).sentinel.workspace_id == old(self).sentinel.workspace_id
                    &&& final(self).sentinel.source_system == old(self).sentinel.source_system
                    &&& final(self).sentinel.api_version == old(self).sentinel.api_version
                },
            },
            match slot {
                SecretSlot::MispApiKey => {
                    &&& final(self).misp.url == old(self).misp.url
                    &&& final(self).misp.verify_tls == old(self).misp.verify_tls
                    &&& final(self).misp.filters == old(self).misp.filters
                    &&& final(self).misp.page_limit == old(self).misp.page_limit
                    &&& final(self).misp.max_events == old(self).misp.max_events
                },
                SecretSlot::SentinelClientSecret => true,
            },
            final(self).sync == old(self).sync,
            final(self).keyvault == old(self).keyvault,
    {
        let v = match value {
            Some(v) => v,
            None => String::new(),
        };
        match slot {
            SecretSlot::MispApiKey => {
                self.misp.api_key = v;
            },
            SecretSlot::SentinelClientSecret => {
                self.sentinel.client_secret = v;
            },
        }
    }
}

/// Command-line options take precedence over environment variables, which
/// take precedence over the configuration file: after loading with the
/// environment's overrides and then applying the command line, each connection
/// setting is the command line's value when given, else the environment's when
/// set, else the file's.
pub proof fn lemma_setting_precedence(
    e: Environment,
    file: Config,
    loaded: Config,
    result: Config,
    misp_url: Option<Seq<char>>,
    tenant_id: Option<Seq<char>>,
    client_id: Option<Seq<char>>,
    workspace_id: Option<Seq<char>>,
    keyvault_url: Option<Seq<char>>,
)
    requires
        env_overrides(e, file, loaded),
        cli_overrides(loaded, result, misp_url, tenant_id, client_id, workspace_id, keyvault_url),
    ensures
        result.misp.url@ == text_or(misp_url, text_or(e.get("MISP_URL"@), file.misp.url@)),
        result.sentinel.tenant_id@ == text_or(
            tenant_id,
            text_or(e.get("AZURE_TENANT_ID"@), file.sentinel.tenant_id@),
        ),
        result.sentinel.client_id@ == text_or(
            client_id,
            text_or(e.get("AZURE_CLIENT_ID"@), file.sentinel.client_id@),
        ),
        result.sentinel.workspace_id@ == text_or(
            workspace_id,
            text_or(e.get("SENTINEL_WORKSPACE_ID"@), file.sentinel.workspace_id@),
        ),
        result.misp.api_key@ == text_or(e.get("MISP_API_KEY"@), file.misp.api_key@),
        keyvault_url is None ==> result.keyvault == file.keyvault,
{
}

} // verus!
