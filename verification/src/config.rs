//! The runtime configuration: its defaults, how command-line arguments
//! override it, the domain names it lists, and when it is valid.

use vstd::prelude::*;
use crate::text::{comma_names, split_commas, split_names, trimmed, views};

verus! {

/// The smallest TTL, in seconds, that a record may have.
pub const MIN_TTL: u32 = 1;

/// The largest TTL, in seconds, that a record may have.
pub const MAX_TTL: u32 = 86400;

/// The seconds between two passes where the configuration names none.
pub const DEFAULT_UPDATE_INTERVAL: u64 = 300;

/// Why a configuration is refused.
#[derive(Debug, Clone, Copy, PartialEq, Eq, Structural)]
pub enum ConfigError {
    /// The API token is empty.
    MissingApiToken,
    /// The zone identifier is empty.
    MissingZoneId,
    /// The list of record names is empty.
    MissingRecordName,
    /// The list of record names holds commas and whitespace only.
    NoValidDomainNames,
    /// The TTL is below `MIN_TTL` or above `MAX_TTL`.
    TtlOutOfRange,
}

/// The settings of one run. Built once, validated once, then only read.
#[derive(Debug, Clone, PartialEq, Eq)]
pub struct AppConfig {
    /// Seconds between two passes; `None` stands for the default.
    pub update_interval: Option<u64>,
    /// The credential sent with every call to the provider.
    pub cf_api_token: String,
    /// The zone that holds the records.
    pub cf_zone_id: String,
    /// The record names, separated by commas.
    pub dns_record_name: String,
    /// The record type: `A` or `AAAA`.
    pub dns_record_type: String,
    /// Whether the provider proxies the records.
    pub proxy: bool,
    /// The TTL of the records, in seconds.
    pub ttl: u32,
    /// A free-form name of the network, shown with the configuration.
    pub network: Option<String>,
    /// A free-form name of the host, shown with the configuration.
    pub platform_identifier: String,
}

/// What the command line said. A setting that was not given is `None`, and
/// leaves the configuration's value.
#[derive(Debug, Clone, PartialEq, Eq)]
pub struct CliArgs {
    pub cf_api_token: Option<String>,
    pub cf_zone_id: Option<String>,
    pub dns_record_name: Option<String>,
    pub dns_record_type: Option<String>,
    pub proxy: Option<bool>,
    pub ttl: Option<u32>,
    pub network: Option<String>,
    pub update_interval: Option<u64>,
    pub once: bool,
    pub show_platform: bool,
    pub use_rustls: bool,
}

/// The record type of a configuration that names none.
pub fn default_record_type() -> (r: String)
    ensures
        r@ == "A"@,
{
    "A".to_owned()
}

/// Whether records are proxied where the configuration does not say.
pub fn default_proxy() -> (r: bool)
    ensures
        !r,
{
    false
}

/// The TTL, in seconds, of a configuration that names none.
pub fn default_ttl() -> (r: u32)
    ensures
        r == 120,
        MIN_TTL <= r <= MAX_TTL,
{
    120
}

impl ConfigError {
    /// The text shown for this error.
    pub open spec fn text(self) -> Seq<char> {
        match self {
            ConfigError::MissingApiToken => "CF_API_TOKEN must be set"@,
            ConfigError::MissingZoneId => "CF_ZONE_ID must be set"@,
            ConfigError::MissingRecordName => "DNS_RECORD_NAME must be set"@,
            ConfigError::NoValidDomainNames => "No valid domain names found in DNS_RECORD_NAME"@,
            ConfigError::TtlOutOfRange => "TTL must be between 1 and 86400 seconds"@,
        }
    }

    /// The text shown for this error.
    pub fn message(&self) -> (r: String)
        ensures
            r@ == self.text(),
    {
        match self {
            ConfigError::MissingApiToken => "CF_API_TOKEN must be set".to_owned(),
            ConfigError::MissingZoneId => "CF_ZONE_ID must be set".to_owned(),
            ConfigError::MissingRecordName => "DNS_RECORD_NAME must be set".to_owned(),
            ConfigError::NoValidDomainNames => "No valid domain names found in DNS_RECORD_NAME".to_owned(),
            ConfigError::TtlOutOfRange => "TTL must be between 1 and 86400 seconds".to_owned(),
        }
    }
}

/// A list without a character holds no name.
pub proof fn lemma_empty_list_has_no_name()
    ensures
        comma_names(Seq::<char>::empty()).len() == 0,
{
    let e = Seq::<char>::empty();
    let mapped = split_commas(e).map_values(|x: Seq<char>| trimmed(x));
    assert(mapped =~= seq![e]);
    reveal_with_fuel(Seq::filter, 2);
}

impl AppConfig {
    /// The domain names of this configuration, as mathematical texts.
    pub open spec fn domain_names(&self) -> Seq<Seq<char>> {
        comma_names(self.dns_record_name@)
    }

    /// The first fault of this configuration, if it has one. The faults are
    /// looked for in a fixed order: token, zone, record names, TTL.
    pub open spec fn validation(&self) -> Result<(), ConfigError> {
        if self.cf_api_token@.len() == 0 {
            Err(ConfigError::MissingApiToken)
        } else if self.cf_zone_id@.len() == 0 {
            Err(ConfigError::MissingZoneId)
        } else if self.dns_record_name@.len() == 0 {
            Err(ConfigError::MissingRecordName)
        } else if self.domain_names().len() == 0 {
            Err(ConfigError::NoValidDomainNames)
        } else if self.ttl < MIN_TTL || self.ttl > MAX_TTL {
            Err(ConfigError::TtlOutOfRange)
        } else {
            Ok(())
        }
    }

    /// Whether this configuration can be run: credential and zone are there,
    /// at least one domain name is listed, and the TTL is within its bounds.
    pub open spec fn is_valid(&self) -> bool {
        &&& self.cf_api_token@.len() > 0
        &&& self.cf_zone_id@.len() > 0
        &&& self.domain_names().len() > 0
        &&& MIN_TTL <= self.ttl <= MAX_TTL
    }

    /// This configuration with the command line laid over it: a setting
    /// that the command line gives replaces the value, and every other
    /// value stays. The command line is the last of the sources, so it wins
    /// where it speaks, and only there.
    pub open spec fn overridden(self, args: CliArgs) -> AppConfig {
        AppConfig {
            update_interval: match args.update_interval {
                Some(v) => Some(v),
                None => self.update_interval,
            },
            cf_api_token: match args.cf_api_token {
                Some(v) => v,
                None => self.cf_api_token,
            },
            cf_zone_id: match args.cf_zone_id {
                Some(v) => v,
                None => self.cf_zone_id,
            },
            dns_record_name: match args.dns_record_name {
                Some(v) => v,
                None => self.dns_record_name,
            },
            dns_record_type: match args.dns_record_type {
                Some(v) => v,
                None => self.dns_record_type,
            },
            proxy: match args.proxy {
                Some(v) => v,
                None => self.proxy,
            },
            ttl: match args.ttl {
                Some(v) => v,
                None => self.ttl,
            },
            network: match args.network {
                Some(v) => Some(v),
                None => self.network,
            },
            platform_identifier: self.platform_identifier,
        }
    }

    /// Lays the command line over this configuration.
    pub fn apply_cli(self, args: CliArgs) -> (r: AppConfig)
        ensures
            r == self.overridden(args),
    {
        let mut cfg = self;
        if let Some(token) = args.cf_api_token {
            cfg.cf_api_token = token;
        }
        if let Some(zone_id) = args.cf_zone_id {
            cfg.cf_zone_id = zone_id;
        }
        if let Some(record_name) = args.dns_record_name {
            cfg.dns_record_name = record_name;
        }
        if let Some(record_type) = args.dns_record_type {
            cfg.dns_record_type = record_type;
        }
        if let Some(network) = args.network {
            cfg.network = Some(network);
        }
        if let Some(interval) = args.update_interval {
            cfg.update_interval = Some(interval);
        }
        if let Some(proxy) = args.proxy {
            cfg.proxy = proxy;
        }
        if let Some(ttl) = args.ttl {
            cfg.ttl = ttl;
        }
        cfg
    }

    /// The domain names to reconcile, in the order in which the
    /// configuration lists them.
    pub fn get_domain_names(&self) -> (r: Vec<String>)
        ensures
            views(r@) == self.domain_names(),
            r@.len() == self.domain_names().len(),
    {
        let r = split_names(self.dns_record_name.as_str());
        r
    }

    /// Checks this configuration, and names its first fault.
    pub fn validate(&self) -> (r: Result<(), ConfigError>)
        ensures
            r == self.validation(),
            r is Ok <==> self.is_valid(),
    {
        proof {
            if self.dns_record_name@.len() == 0 {
                lemma_empty_list_has_no_name();
            }
        }
        if self.cf_api_token.as_str().is_empty() {
            return Err(ConfigError::MissingApiToken);
        }
        if self.cf_zone_id.as_str().is_empty() {
            return Err(ConfigError::MissingZoneId);
        }
        if self.dns_record_name.as_str().is_empty() {
            return Err(ConfigError::MissingRecordName);
        }
        let domains = self.get_domain_names();
        if domains.len() == 0 {
            return Err(ConfigError::NoValidDomainNames);
        }
        if self.ttl < MIN_TTL || self.ttl > MAX_TTL {
            return Err(ConfigError::TtlOutOfRange);
        }
        Ok(())
    }

    /// The seconds to wait between two passes.
    pub fn interval_secs(&self) -> (r: u64)
        ensures
            r == match self.update_interval {
                Some(v) => v,
                None => DEFAULT_UPDATE_INTERVAL,
            },
    {
        match self.update_interval {
            Some(v) => v,
            None => DEFAULT_UPDATE_INTERVAL,
        }
    }
}

} // verus!
