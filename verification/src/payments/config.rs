//! The configuration of the payments service.

use vstd::prelude::*;

use crate::orders::config::{host_and_port, join_host_and_port, join_postgres_url, postgres_url};
use crate::persistence::outbox::PublisherConfig;
use crate::retry::RetryConfig;
use crate::text::text_eq;
use crate::time::Span;

verus! {

/// The service's own settings.
#[derive(Debug)]
pub struct Config {
    pub bind_addr: String,
    pub port: u16,
    pub outbox_batch_size: i64,
    pub outbox_lease_seconds: i64,
    pub outbox_poll_interval_ms: u64,
    pub outbox_backoff_base_ms: u64,
    pub outbox_backoff_cap_ms: u64,
    pub consumer_max_wait_ms: i32,
    pub consumer_poll_interval_ms: u64,
    pub provider_retry_max_attempts: u32,
    pub provider_retry_max_elapsed_secs: u64,
    pub provider_retry_backoff_base_ms: u64,
    pub provider_retry_backoff_cap_ms: u64,
}

impl Default for Config {
    fn default() -> (r: Config)
        ensures
            r.bind_addr@ == "0.0.0.0"@,
            r.port == 8083,
            r.outbox_batch_size == 20,
            r.outbox_lease_seconds == 30,
            r.outbox_poll_interval_ms == 200,
            r.outbox_backoff_base_ms == 100,
            r.outbox_backoff_cap_ms == 30_000,
            r.consumer_max_wait_ms == 1_000,
            r.consumer_poll_interval_ms == 200,
            r.provider_retry_max_attempts == 8,
            r.provider_retry_max_elapsed_secs == 600,
            r.provider_retry_backoff_base_ms == 100,
            r.provider_retry_backoff_cap_ms == 30_000,
    {
        Config {
            bind_addr: "0.0.0.0".to_owned(),
            port: 8083,
            outbox_batch_size: 20,
            outbox_lease_seconds: 30,
            outbox_poll_interval_ms: 200,
            outbox_backoff_base_ms: 100,
            outbox_backoff_cap_ms: 30_000,
            consumer_max_wait_ms: 1_000,
            consumer_poll_interval_ms: 200,
            provider_retry_max_attempts: 8,
            provider_retry_max_elapsed_secs: 600,
            provider_retry_backoff_base_ms: 100,
            provider_retry_backoff_cap_ms: 30_000,
        }
    }
}

impl Config {
    /// The address to listen on.
    pub fn socket_addr(&self) -> (r: String)
        ensures
            r@ == host_and_port(self.bind_addr@, self.port),
    {
        join_host_and_port(self.bind_addr.as_str(), self.port)
    }

    /// The settings of the publisher.
    pub fn publisher_config(&self, claimed_by: String) -> (r: PublisherConfig)
        ensures
            r.claimed_by == claimed_by,
            r.batch_size == self.outbox_batch_size,
            r.lease_nanos == self.outbox_lease_seconds * 1_000_000_000,
            r.valid(),
            r.poll_interval.length() == self.outbox_poll_interval_ms * 1_000_000,
            r.backoff_base.length() == self.outbox_backoff_base_ms * 1_000_000,
            r.backoff_cap.length() == self.outbox_backoff_cap_ms * 1_000_000,
    {
        PublisherConfig {
            claimed_by,
            batch_size: self.outbox_batch_size,
            lease_nanos: self.outbox_lease_seconds as i128 * 1_000_000_000i128,
            poll_interval: Span::from_millis(self.outbox_poll_interval_ms),
            backoff_base: Span::from_millis(self.outbox_backoff_base_ms),
            backoff_cap: Span::from_millis(self.outbox_backoff_cap_ms),
        }
    }

    /// The budget of the calls to the provider.
    pub fn provider_retry_config(&self) -> (r: RetryConfig)
        ensures
            r.valid(),
            r.max_attempts == self.provider_retry_max_attempts,
            r.max_elapsed.length() == self.provider_retry_max_elapsed_secs * 1_000_000_000,
            r.backoff_base.length() == self.provider_retry_backoff_base_ms * 1_000_000,
            r.backoff_cap.length() == self.provider_retry_backoff_cap_ms * 1_000_000,
    {
        RetryConfig {
            max_attempts: self.provider_retry_max_attempts,
            max_elapsed: Span::from_secs(self.provider_retry_max_elapsed_secs),
            backoff_base: Span::from_millis(self.provider_retry_backoff_base_ms),
            backoff_cap: Span::from_millis(self.provider_retry_backoff_cap_ms),
        }
    }
}

/// Where the service's database is.
#[derive(Debug)]
pub struct DatabaseConfig {
    pub postgres_user: String,
    pub postgres_password: String,
    pub postgres_host: String,
    pub postgres_port: u16,
    pub postgres_payments_db: String,
}

impl DatabaseConfig {
    /// The URL of the service's database.
    pub fn database_url(&self) -> (r: String)
        ensures
            r@ == postgres_url(
                self.postgres_user@,
                self.postgres_password@,
                self.postgres_host@,
                self.postgres_port,
                self.postgres_payments_db@,
            ),
    {
        join_postgres_url(
            self.postgres_user.as_str(),
            self.postgres_password.as_str(),
            self.postgres_host.as_str(),
            self.postgres_port,
            self.postgres_payments_db.as_str(),
        )
    }
}

/// Where the broker is.
#[derive(Debug)]
pub struct MessagingConfig {
    pub redpanda_broker: String,
}

/// Whether deliberate faults can be set up from outside.
#[derive(Debug)]
pub struct FailureInjectionConfig {
    pub environment: String,
    pub failure_injection_enabled: bool,
    pub failure_injection_token: String,
}

impl Default for FailureInjectionConfig {
    fn default() -> (r: FailureInjectionConfig)
        ensures
            r.environment@ == "development"@,
            !r.failure_injection_enabled,
            r.failure_injection_token@ == Seq::<char>::empty(),
    {
        FailureInjectionConfig {
            environment: "development".to_owned(),
            failure_injection_enabled: false,
            failure_injection_token: String::new(),
        }
    }
}

/// Failure injection was asked for in production.
#[derive(Debug, Clone, Copy, PartialEq, Eq, Structural)]
pub struct FailureInjectionInProductionError;

impl FailureInjectionInProductionError {
    /// The error in words.
    pub fn message(&self) -> (r: String)
        ensures
            r@ == "FAILURE_INJECTION_ENABLED=true is refused when ENVIRONMENT=production"@,
    {
        "FAILURE_INJECTION_ENABLED=true is refused when ENVIRONMENT=production".to_owned()
    }
}

impl FailureInjectionConfig {
    /// Lets loaded settings through, unless they enable failure injection in
    /// production.
    pub fn accept(self) -> (r: Result<FailureInjectionConfig, FailureInjectionInProductionError>)
        ensures
            r is Err <==> self.failure_injection_enabled && self.environment@ == "production"@,
            r matches Ok(config) ==> config == self,
    {
        if self.failure_injection_enabled && text_eq(self.environment.as_str(), "production") {
            Err(FailureInjectionInProductionError)
        } else {
            Ok(self)
        }
    }

    /// Whether failure injection is enabled.
    pub fn enabled(&self) -> (r: bool)
        ensures
            r == self.failure_injection_enabled,
    {
        self.failure_injection_enabled
    }
}

/// Failure injection is let through everywhere but in production, as it was
/// asked for; nobody gets it unasked.
pub proof fn production_refuses_failure_injection(
    config: FailureInjectionConfig,
    r: Result<FailureInjectionConfig, FailureInjectionInProductionError>,
)
    ensures
        call_ensures(FailureInjectionConfig::accept, (config,), r) ==> {
            &&& r is Err <==> config.failure_injection_enabled && config.environment@
                == "production"@
            &&& r is Ok ==> r->Ok_0 == config
        },
{
}

/// The publisher and the calls to the provider work by the settings of the
/// service, their spans in milliseconds, the lease and the longest time for
/// the provider in seconds.
pub proof fn services_work_by_the_settings(
    config: &Config,
    by: String,
    publisher: PublisherConfig,
    retry: RetryConfig,
)
    ensures
        call_ensures(Config::publisher_config, (config, by), publisher) ==> {
            &&& publisher.claimed_by == by
            &&& publisher.batch_size == config.outbox_batch_size
            &&& publisher.lease_nanos == config.outbox_lease_seconds * 1_000_000_000
            &&& publisher.poll_interval.length() == config.outbox_poll_interval_ms * 1_000_000
            &&& publisher.backoff_base.length() == config.outbox_backoff_base_ms * 1_000_000
            &&& publisher.backoff_cap.length() == config.outbox_backoff_cap_ms * 1_000_000
        },
        call_ensures(Config::provider_retry_config, (config,), retry) ==> {
            &&& retry.max_attempts == config.provider_retry_max_attempts
            &&& retry.max_elapsed.length() == config.provider_retry_max_elapsed_secs
                * 1_000_000_000
            &&& retry.backoff_base.length() == config.provider_retry_backoff_base_ms * 1_000_000
            &&& retry.backoff_cap.length() == config.provider_retry_backoff_cap_ms * 1_000_000
        },
{
}

}
