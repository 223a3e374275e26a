//! Client configuration and its builder.
use vstd::prelude::*;
use vstd::string::*;
use crate::error::{OddSocketsError, Result};
use crate::text::{owned, has_prefix, starts_with};
use crate::types::constants;
use crate::types::duration::Duration;

verus! {

/// Configuration of the client.
#[derive(Debug, Clone, PartialEq, Eq)]
pub struct OddSocketsConfig {
    /// API key for authentication
    pub api_key: String,
    /// Manager URL for worker assignment
    pub manager_url: String,
    /// Optional user ID
    pub user_id: Option<String>,
    /// Whether to automatically connect on client creation
    pub auto_connect: bool,
    /// Number of reconnection attempts before giving up
    pub reconnect_attempts: u32,
    /// Heartbeat interval
    pub heartbeat_interval: Duration,
    /// Request timeout
    pub timeout: Duration,
}

/// Whether `d` is a span of exactly `secs` seconds.
pub open spec fn is_secs(d: Duration, secs: u64) -> bool {
    d.secs_of() == secs && d.nanos_of() == 0
}

/// Whether `c` is the default configuration for API key `api_key`.
pub open spec fn is_default_config(c: OddSocketsConfig, api_key: Seq<char>) -> bool {
    &&& c.api_key@ == api_key
    &&& c.manager_url@ == constants::DEFAULT_MANAGER_URL@
    &&& c.user_id is None
    &&& c.auto_connect
    &&& c.reconnect_attempts == constants::DEFAULT_RECONNECT_ATTEMPTS
    &&& is_secs(c.heartbeat_interval, constants::DEFAULT_HEARTBEAT_INTERVAL_SECS)
    &&& is_secs(c.timeout, constants::DEFAULT_TIMEOUT_SECS)
}

/// Whether a configuration passes validation.
pub open spec fn config_valid(c: OddSocketsConfig) -> bool {
    &&& has_prefix(c.api_key@, "ak_"@)
    &&& c.manager_url@.len() > 0
    &&& c.timeout.total_nanos() > 0
    &&& c.heartbeat_interval.total_nanos() > 0
}

/// What validating `c` gives: the first check that fails decides the error.
pub open spec fn validation_of(c: OddSocketsConfig, r: Result<()>) -> bool {
    if c.api_key@.len() == 0 {
        r matches Err(OddSocketsError::InvalidConfiguration { message }) && message@
            == "API key is required"@
    } else if !has_prefix(c.api_key@, "ak_"@) {
        r matches Err(OddSocketsError::InvalidApiKey { message }) && message@
            == "Invalid API key format"@
    } else if c.manager_url@.len() == 0 {
        r matches Err(OddSocketsError::InvalidConfiguration { message }) && message@
            == "Manager URL is required"@
    } else if c.timeout.total_nanos() == 0 {
        r matches Err(OddSocketsError::InvalidConfiguration { message }) && message@
            == "Timeout must be greater than zero"@
    } else if c.heartbeat_interval.total_nanos() == 0 {
        r matches Err(OddSocketsError::InvalidConfiguration { message }) && message@
            == "Heartbeat interval must be greater than zero"@
    } else {
        r is Ok
    }
}

impl OddSocketsConfig {
    /// A configuration with the given API key and default values.
    pub fn new(api_key: &str) -> (c: OddSocketsConfig)
        ensures
            is_default_config(c, api_key@),
    {
        OddSocketsConfig {
            api_key: owned(api_key),
            manager_url: owned(constants::DEFAULT_MANAGER_URL),
            user_id: None,
            auto_connect: true,
            reconnect_attempts: constants::DEFAULT_RECONNECT_ATTEMPTS,
            heartbeat_interval: Duration::from_secs(constants::DEFAULT_HEARTBEAT_INTERVAL_SECS),
            timeout: Duration::from_secs(constants::DEFAULT_TIMEOUT_SECS),
        }
    }

    /// A builder starting from the default configuration for `api_key`.
    pub fn builder(api_key: &str) -> (b: OddSocketsConfigBuilder)
        ensures
            is_default_config(b.draft(), api_key@),
    {
        OddSocketsConfigBuilder::new(api_key)
    }

    /// Validates the configuration.
    pub fn validate(&self) -> (r: Result<()>)
        ensures
            validation_of(*self, r),
            (r is Ok) == config_valid(*self),
    {
        proof {
            reveal_strlit("ak_");
        }
        if self.api_key.as_str().is_empty() {
            return Err(
                OddSocketsError::InvalidConfiguration { message: owned("API key is required") },
            );
        }
        if !starts_with(self.api_key.as_str(), "ak_") {
            return Err(OddSocketsError::InvalidApiKey { message: owned("Invalid API key format") });
        }
        if self.manager_url.as_str().is_empty() {
            return Err(
                OddSocketsError::InvalidConfiguration { message: owned("Manager URL is required") },
            );
        }
        if self.timeout.is_zero() {
            return Err(
                OddSocketsError::InvalidConfiguration {
                    message: owned("Timeout must be greater than zero"),
                },
            );
        }
        if self.heartbeat_interval.is_zero() {
            return Err(
                OddSocketsError::InvalidConfiguration {
                    message: owned("Heartbeat interval must be greater than zero"),
                },
            );
        }
        Ok(())
    }
}

/// Builder for configurations.
#[derive(Debug, Clone)]
pub struct OddSocketsConfigBuilder {
    config: OddSocketsConfig,
}

impl OddSocketsConfigBuilder {
    /// The configuration built so far.
    pub closed spec fn draft(self) -> OddSocketsConfig {
        self.config
    }

    /// A builder starting from the default configuration for `api_key`.
    pub fn new(api_key: &str) -> (b: OddSocketsConfigBuilder)
        ensures
            is_default_config(b.draft(), api_key@),
    {
        OddSocketsConfigBuilder { config: OddSocketsConfig::new(api_key) }
    }

    /// Sets the manager URL.
    pub fn manager_url(self, url: &str) -> (b: OddSocketsConfigBuilder)
        ensures
            b.draft().manager_url@ == url@,
            b.draft() == (OddSocketsConfig { manager_url: b.draft().manager_url, ..self.draft() }),
    {
        let mut b = self;
        b.config.manager_url = owned(url);
        b
    }

    /// Sets the user ID.
    pub fn user_id(self, user_id: &str) -> (b: OddSocketsConfigBuilder)
        ensures
            b.draft().user_id matches Some(u) && u@ == user_id@,
            b.draft() == (OddSocketsConfig { user_id: b.draft().user_id, ..self.draft() }),
    {
        let mut b = self;
        b.config.user_id = Some(owned(user_id));
        b
    }

    /// Sets whether to auto-connect.
    pub fn auto_connect(self, auto_connect: bool) -> (b: OddSocketsConfigBuilder)
        ensures
            b.draft() == (OddSocketsConfig { auto_connect, ..self.draft() }),
    {
        let mut b = self;
        b.config.auto_connect = auto_connect;
        b
    }

    /// Sets the number of reconnection attempts.
    pub fn reconnect_attempts(self, attempts: u32) -> (b: OddSocketsConfigBuilder)
        ensures
            b.draft() == (OddSocketsConfig { reconnect_attempts: attempts, ..self.draft() }),
    {
        let mut b = self;
        b.config.reconnect_attempts = attempts;
        b
    }

    /// Sets the heartbeat interval.
    pub fn heartbeat_interval(self, interval: Duration) -> (b: OddSocketsConfigBuilder)
        ensures
            b.draft() == (OddSocketsConfig { heartbeat_interval: interval, ..self.draft() }),
    {
        let mut b = self;
        b.config.heartbeat_interval = interval;
        b
    }

    /// Sets the timeout duration.
    pub fn timeout(self, timeout: Duration) -> (b: OddSocketsConfigBuilder)
        ensures
            b.draft() == (OddSocketsConfig { timeout, ..self.draft() }),
    {
        let mut b = self;
        b.config.timeout = timeout;
        b
    }

    /// Configures for a local development manager: longer timeout, faster heartbeat.
    pub fn development(self) -> (b: OddSocketsConfigBuilder)
        ensures
            b.draft().manager_url@ == "http://localhost:3001"@,
            is_secs(b.draft().timeout, 30),
            is_secs(b.draft().heartbeat_interval, 10),
            b.draft() == (OddSocketsConfig {
                manager_url: b.draft().manager_url,
                timeout: b.draft().timeout,
                heartbeat_interval: b.draft().heartbeat_interval,
                ..self.draft()
            }),
    {
        let mut b = self;
        b.config.manager_url = owned("http://localhost:3001");
        b.config.timeout = Duration::from_secs(30);
        b.config.heartbeat_interval = Duration::from_secs(10);
        b
    }

    /// Configures for the production manager.
    pub fn production(self) -> (b: OddSocketsConfigBuilder)
        ensures
            b.draft().manager_url@ == constants::DEFAULT_MANAGER_URL@,
            is_secs(b.draft().timeout, 10),
            is_secs(b.draft().heartbeat_interval, 30),
            b.draft() == (OddSocketsConfig {
                manager_url: b.draft().manager_url,
                timeout: b.draft().timeout,
                heartbeat_interval: b.draft().heartbeat_interval,
                ..self.draft()
            }),
    {
        let mut b = self;
        b.config.manager_url = owned(constants::DEFAULT_MANAGER_URL);
        b.config.timeout = Duration::from_secs(10);
        b.config.heartbeat_interval = Duration::from_secs(30);
        b
    }

    /// Configures for high-performance scenarios.
    pub fn high_performance(self) -> (b: OddSocketsConfigBuilder)
        ensures
            is_secs(b.draft().heartbeat_interval, 60),
            is_secs(b.draft().timeout, 5),
            b.draft().reconnect_attempts == 3,
            b.draft() == (OddSocketsConfig {
                timeout: b.draft().timeout,
                heartbeat_interval: b.draft().heartbeat_interval,
                reconnect_attempts: 3,
                ..self.draft()
            }),
    {
        let mut b = self;
        b.config.heartbeat_interval = Duration::from_secs(60);
        b.config.timeout = Duration::from_secs(5);
        b.config.reconnect_attempts = 3;
        b
    }

    /// Builds the configuration, validating it first.
    pub fn build(self) -> (r: Result<OddSocketsConfig>)
        ensures
            match r {
                Ok(c) => c == self.draft() && config_valid(c),
                Err(e) => !config_valid(self.draft()) && validation_of(
                    self.draft(),
                    Err::<(), OddSocketsError>(e),
                ),
            },
    {
        match self.config.validate() {
            Ok(()) => Ok(self.config),
            Err(e) => Err(e),
        }
    }
}

/// The default configuration is valid exactly when the API key starts with
/// `ak_`.
pub proof fn lemma_default_config_valid(c: OddSocketsConfig, api_key: Seq<char>)
    requires
        is_default_config(c, api_key),
    ensures
        config_valid(c) == has_prefix(api_key, "ak_"@),
{
    reveal_strlit("https://manager1.oddsockets.tyga.network");
}

/// The development and production presets make a configuration valid
/// whenever its API key starts with `ak_`, whatever was set before.
pub proof fn lemma_presets_valid(before: OddSocketsConfig, after: OddSocketsConfig, production: bool)
    requires
        has_prefix(before.api_key@, "ak_"@),
        after.api_key == before.api_key,
        production ==> after.manager_url@ == constants::DEFAULT_MANAGER_URL@ && is_secs(after.timeout, 10)
            && is_secs(after.heartbeat_interval, 30),
        !production ==> after.manager_url@ == "http://localhost:3001"@ && is_secs(after.timeout, 30)
            && is_secs(after.heartbeat_interval, 10),
    ensures
        config_valid(after),
{
    reveal_strlit("https://manager1.oddsockets.tyga.network");
    reveal_strlit("http://localhost:3001");
}

} // verus!
