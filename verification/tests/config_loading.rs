use misp2sentinel_core::config::load::{config_path, SecretSlot};
use misp2sentinel_core::config::{
    default_api_version, default_batch_size, default_concurrent_page_fetches,
    default_concurrent_uploads, default_confidence, default_days_to_expire,
    default_days_to_expire_start, default_page_limit, default_publish_timestamp,
    default_rate_limit, default_source_system, default_true, parse_csv, parse_csv_all,
    parse_levels, parse_type_expiration, Config, EnvVar, Environment, KeyVaultConfig,
};
use misp2sentinel_core::error::Error;

fn env(pairs: &[(&str, &str)]) -> Environment {
    Environment {
        vars: pairs
            .iter()
            .map(|(n, v)| EnvVar { name: n.to_string(), value: v.to_string() })
            .collect(),
    }
}

fn required() -> Vec<(&'static str, &'static str)> {
    vec![
        ("MISP_URL", "https://misp.example.com"),
        ("AZURE_TENANT_ID", "tenant"),
        ("AZURE_CLIENT_ID", "client"),
        ("SENTINEL_WORKSPACE_ID", "workspace"),
    ]
}

fn config_error(r: Result<Config, Error>) -> String {
    match r {
        Err(Error::Config(m)) => m,
        other => panic!("expected a configuration error, got {:?}", other.map(|_| ())),
    }
}

#[test]
fn default_values() {
    assert!(default_true());
    assert_eq!(default_page_limit(), 100);
    assert_eq!(default_source_system(), "MISP");
    assert_eq!(default_api_version(), "2024-02-01-preview");
    assert_eq!(default_days_to_expire(), 50);
    assert_eq!(default_days_to_expire_start(), "current_date");
    assert_eq!(default_confidence(), 50);
    assert_eq!(default_batch_size(), 100);
    assert_eq!(default_rate_limit(), 100);
    assert_eq!(default_concurrent_page_fetches(), 4);
    assert_eq!(default_concurrent_uploads(), 4);
    assert_eq!(default_publish_timestamp(), Some("14d".to_string()));
}

#[test]
fn default_config() {
    let c = Config::default();
    assert_eq!(c.misp.url, "");
    assert!(c.misp.verify_tls);
    assert_eq!(c.misp.page_limit, 100);
    assert!(c.misp.filters.published);
    assert!(c.misp.filters.to_ids);
    assert!(c.misp.filters.include_event_tags);
    assert!(!c.misp.filters.enforce_warninglist);
    assert_eq!(c.misp.filters.publish_timestamp.as_deref(), Some("14d"));
    assert_eq!(c.sentinel.source_system, "MISP");
    assert_eq!(c.sync.days_to_expire, 50);
    assert!(c.sync.parallel_conversion);
    assert!(c.sync.flatten_attributes);
    assert!(c.sync.ignore_local_tags);
    assert!(c.keyvault.is_none());
}

#[test]
fn validate_reports_first_missing_setting() {
    let mut c = Config::default();
    assert!(matches!(c.validate(), Err(Error::Config(m)) if m == "MISP URL is required"));
    c.misp.url = "u".to_string();
    assert!(matches!(c.validate(), Err(Error::Config(m)) if m == "MISP API key is required"));
    c.misp.api_key = "k".to_string();
    assert!(matches!(c.validate(), Err(Error::Config(m)) if m == "Azure tenant ID is required"));
    c.sentinel.tenant_id = "t".to_string();
    assert!(matches!(c.validate(), Err(Error::Config(m)) if m == "Azure client ID is required"));
    c.sentinel.client_id = "c".to_string();
    assert!(matches!(c.validate(), Err(Error::Config(m)) if m == "Azure client secret is required"));
    c.sentinel.client_secret = "s".to_string();
    assert!(matches!(c.validate(), Err(Error::Config(m)) if m == "Sentinel workspace ID is required"));
    c.sentinel.workspace_id = "w".to_string();
    assert!(c.validate().is_ok());
}

#[test]
fn from_env_requires_connection_variables_in_order() {
    assert_eq!(config_error(Config::from_env(&env(&[]))), "MISP_URL not set");
    assert_eq!(
        config_error(Config::from_env(&env(&[("MISP_URL", "u")]))),
        "AZURE_TENANT_ID not set"
    );
    assert_eq!(
        config_error(Config::from_env(&env(&[("MISP_URL", "u"), ("AZURE_TENANT_ID", "t")]))),
        "AZURE_CLIENT_ID not set"
    );
    assert_eq!(
        config_error(Config::from_env(&env(&[
            ("MISP_URL", "u"),
            ("AZURE_TENANT_ID", "t"),
            ("AZURE_CLIENT_ID", "c")
        ]))),
        "SENTINEL_WORKSPACE_ID not set"
    );
}

#[test]
fn from_env_defaults() {
    let c = Config::from_env(&env(&required())).unwrap();
    assert_eq!(c.misp.url, "https://misp.example.com");
    assert_eq!(c.misp.api_key, "");
    assert!(c.misp.verify_tls);
    assert_eq!(c.misp.page_limit, 100);
    assert_eq!(c.misp.max_events, None);
    assert!(c.misp.filters.published);
    assert!(c.misp.filters.to_ids);
    assert!(!c.misp.filters.enforce_warninglist);
    assert!(c.misp.filters.include_event_tags);
    assert_eq!(c.misp.filters.publish_timestamp.as_deref(), Some("14d"));
    assert!(c.misp.filters.threat_level_id.is_none());
    assert!(c.misp.filters.tags.is_empty());
    assert_eq!(c.sentinel.tenant_id, "tenant");
    assert_eq!(c.sentinel.client_secret, "");
    assert_eq!(c.sentinel.source_system, "MISP");
    assert_eq!(c.sentinel.api_version, "2024-02-01-preview");
    assert_eq!(c.sync.days_to_expire, 50);
    assert_eq!(c.sync.days_to_expire_start, "current_date");
    assert_eq!(c.sync.default_confidence, 50);
    assert_eq!(c.sync.batch_size, 100);
    assert_eq!(c.sync.requests_per_minute, 100);
    assert_eq!(c.sync.concurrent_page_fetches, 4);
    assert_eq!(c.sync.concurrent_uploads, 4);
    assert!(c.sync.parallel_conversion);
    assert!(c.sync.flatten_attributes);
    assert!(c.sync.ignore_local_tags);
    assert!(!c.sync.dry_run);
    assert!(c.keyvault.is_none());
}

#[test]
fn from_env_reads_settings() {
    let mut vars = required();
    vars.extend_from_slice(&[
        ("MISP_API_KEY", "secret"),
        ("MISP_VERIFY_TLS", "false"),
        ("MISP_PAGE_LIMIT", "abc"),
        ("MISP_MAX_EVENTS", "250"),
        ("MISP_FILTER_TAGS", " tlp:white , ,apt "),
        ("MISP_FILTER_THREAT_LEVEL", "1, 2,x,300"),
        ("MISP_FILTER_ENFORCE_WARNINGLIST", "true"),
        ("MISP_FILTER_LAST", "7d"),
        ("SYNC_BATCH_SIZE", "500"),
        ("SYNC_REQUESTS_PER_MINUTE", "60"),
        ("SYNC_TYPE_EXPIRATION", "ipv4-addr:180, domain-name : 365,bad,file:x"),
        ("SYNC_INCLUDE_TYPES", "ip-dst, ,domain"),
        ("SYNC_DEFAULT_CONFIDENCE", "999"),
        ("SYNC_FLATTEN_ATTRIBUTES", "false"),
        ("AZURE_KEYVAULT_URL", "https://vault"),
        ("KEYVAULT_MISP_API_KEY_SECRET", "misp-secret"),
    ]);
    let c = Config::from_env(&env(&vars)).unwrap();
    assert_eq!(c.misp.api_key, "secret");
    assert!(!c.misp.verify_tls);
    assert_eq!(c.misp.page_limit, 100);
    assert_eq!(c.misp.max_events, Some(250));
    assert_eq!(c.misp.filters.tags, vec!["tlp:white".to_string(), "apt".to_string()]);
    assert_eq!(c.misp.filters.threat_level_id, Some(vec![1, 2]));
    assert!(c.misp.filters.enforce_warninglist);
    assert_eq!(c.misp.filters.last.as_deref(), Some("7d"));
    assert_eq!(c.sync.batch_size, 100);
    assert_eq!(c.sync.requests_per_minute, 60);
    assert_eq!(c.sync.type_expiration.len(), 2);
    assert_eq!(c.sync.type_expiration[0].observable, "ipv4-addr");
    assert_eq!(c.sync.type_expiration[0].days, 180);
    assert_eq!(c.sync.type_expiration[1].observable, "domain-name");
    assert_eq!(c.sync.type_expiration[1].days, 365);
    assert_eq!(
        c.sync.include_types,
        vec!["ip-dst".to_string(), "".to_string(), "domain".to_string()]
    );
    assert_eq!(c.sync.default_confidence, 50);
    assert!(!c.sync.flatten_attributes);
    let kv = c.keyvault.unwrap();
    assert_eq!(kv.vault_url, "https://vault");
    assert_eq!(kv.misp_api_key_secret.as_deref(), Some("misp-secret"));
    assert_eq!(kv.sentinel_client_secret, None);
}

#[test]
fn first_variable_of_a_name_wins() {
    let mut vars = required();
    vars.push(("MISP_URL", "second"));
    let c = Config::from_env(&env(&vars)).unwrap();
    assert_eq!(c.misp.url, "https://misp.example.com");
}

#[test]
fn list_parsing() {
    assert_eq!(parse_csv(" a, b ,,c "), vec!["a", "b", "c"]);
    assert!(parse_csv("").is_empty());
    assert_eq!(parse_csv_all("a,,b"), vec!["a", "", "b"]);
    assert_eq!(parse_csv_all(""), vec![""]);
    assert_eq!(parse_levels("4,+3, 2 ,-1,256"), vec![4, 3, 2]);
    let te = parse_type_expiration("url:30,a:b:c,email-addr: 7 ");
    assert_eq!(te.len(), 2);
    assert_eq!((te[0].observable.as_str(), te[0].days), ("url", 30));
    assert_eq!((te[1].observable.as_str(), te[1].days), ("email-addr", 7));
}

#[test]
fn load_from_environment_with_overrides() {
    let mut vars = required();
    vars.extend_from_slice(&[
        ("MISP_FILTER_ENFORCE_WARNINGLIST", "maybe"),
        ("SYNC_BATCH_SIZE", "500"),
        ("MISP_FILTER_PUBLISH_TIMESTAMP", "30d"),
    ]);
    let c = Config::load(&env(&vars), None);
    // The override keeps the requested batch size; `from_env` capped it.
    assert_eq!(c.sync.batch_size, 500);
    // An unparsable value falls back to `true` in the overrides.
    assert!(c.misp.filters.enforce_warninglist);
    assert_eq!(c.misp.filters.publish_timestamp.as_deref(), Some("30d"));
}

#[test]
fn load_falls_back_to_defaults_without_required_variables() {
    let c = Config::load(&env(&[("AZURE_CLIENT_SECRET", "s")]), None);
    assert_eq!(c.misp.url, "");
    assert_eq!(c.sentinel.client_secret, "s");
    assert!(c.misp.filters.published);
}

#[test]
fn load_file_config_then_environment() {
    let mut file = Config::default();
    file.misp.url = "https://file".to_string();
    file.sentinel.tenant_id = "file-tenant".to_string();
    file.sync.days_to_expire = 7;
    let c = Config::load(
        &env(&[("AZURE_TENANT_ID", "env-tenant"), ("MISP_FILTER_INCLUDE_EVENT_TAGS", "false")]),
        Some(file),
    );
    assert!(!c.misp.filters.include_event_tags);
    assert_eq!(c.misp.url, "https://file");
    assert_eq!(c.sentinel.tenant_id, "env-tenant");
    assert_eq!(c.sync.days_to_expire, 7);
}

#[test]
fn config_file_path() {
    assert_eq!(config_path(&env(&[])), "config.toml");
    assert_eq!(config_path(&env(&[("CONFIG_PATH", "/etc/m.toml")])), "/etc/m.toml");
}

#[test]
fn command_line_wins_over_environment_and_file() {
    let mut file = Config::default();
    file.misp.url = "https://file".to_string();
    let mut c = Config::load(&env(&[("MISP_URL", "https://env")]), Some(file));
    assert_eq!(c.misp.url, "https://env");
    c.apply_cli_overrides(
        Some("https://cli".to_string()),
        None,
        Some("cli-client".to_string()),
        None,
        Some("https://cli-vault".to_string()),
    );
    assert_eq!(c.misp.url, "https://cli");
    assert_eq!(c.sentinel.client_id, "cli-client");
    let kv = c.keyvault.unwrap();
    assert_eq!(kv.vault_url, "https://cli-vault");
    assert_eq!(kv.misp_api_key_secret.as_deref(), Some("misp-api-key"));
    assert_eq!(kv.sentinel_client_secret.as_deref(), Some("sentinel-client-secret"));
}

#[test]
fn key_vault_secret_requests() {
    let mut c = Config::default();
    assert!(c.secret_requests().is_empty());
    c.keyvault = Some(KeyVaultConfig {
        vault_url: "v".to_string(),
        misp_api_key_secret: Some("mk".to_string()),
        sentinel_client_secret: Some("sk".to_string()),
    });
    let reqs = c.secret_requests();
    assert_eq!(reqs.len(), 2);
    assert_eq!(reqs[0].slot, SecretSlot::MispApiKey);
    assert_eq!(reqs[0].secret_name, "mk");
    assert_eq!(reqs[1].slot, SecretSlot::SentinelClientSecret);
    assert_eq!(reqs[1].secret_name, "sk");
    c.misp.api_key = "already".to_string();
    let reqs = c.secret_requests();
    assert_eq!(reqs.len(), 1);
    assert_eq!(reqs[0].slot, SecretSlot::SentinelClientSecret);
    c.store_secret(SecretSlot::SentinelClientSecret, Some("value".to_string()));
    assert_eq!(c.sentinel.client_secret, "value");
    assert!(c.secret_requests().is_empty());
    c.store_secret(SecretSlot::MispApiKey, None);
    assert_eq!(c.misp.api_key, "");
}
