//! The configuration of the orders service.

use vstd::prelude::*;
use vstd::string::*;

use crate::persistence::outbox::PublisherConfig;
use crate::text::{decimal, text_eq, u64_text};
use crate::time::Span;

verus! {

/// How an accepted order is announced.
#[derive(Debug, Clone, Copy, PartialEq, Eq, Structural)]
pub enum DeliveryMode {
    /// The order is committed first and announced after: two writes that can
    /// come apart.
    Naive,
    /// The announcement is committed together with the order.
    Outbox,
}

/// The service's own settings.
#[derive(Debug)]
pub struct Config {
    pub bind_addr: String,
    pub port: u16,
    pub delivery_mode: DeliveryMode,
    pub outbox_batch_size: i64,
    pub outbox_lease_seconds: i64,
    pub outbox_poll_interval_ms: u64,
    pub outbox_backoff_base_ms: u64,
    pub outbox_backoff_cap_ms: u64,
    pub consumer_max_wait_ms: i32,
    pub consumer_poll_interval_ms: u64,
}

impl Default for Config {
    fn default() -> (r: Config)
        ensures
            r.bind_addr@ == "0.0.0.0"@,
            r.port == 8081,
            r.delivery_mode is Outbox,
            r.outbox_batch_size == 20,
            r.outbox_lease_seconds == 30,
            r.outbox_poll_interval_ms == 200,
            r.outbox_backoff_base_ms == 100,
            r.outbox_backoff_cap_ms == 30_000,
            r.consumer_max_wait_ms == 1_000,
            r.consumer_poll_interval_ms == 200,
    {
        Config {
            bind_addr: "0.0.0.0".to_owned(),
            port: 8081,
            delivery_mode: DeliveryMode::Outbox,
            outbox_batch_size: 20,
            outbox_lease_seconds: 30,
            outbox_poll_interval_ms: 200,
            outbox_backoff_base_ms: 100,
            outbox_backoff_cap_ms: 30_000,
            consumer_max_wait_ms: 1_000,
            consumer_poll_interval_ms: 200,
        }
    }
}

/// An address and a port.
pub open spec fn host_and_port(host: Seq<char>, port: u16) -> Seq<char> {
    host + ":"@ + decimal(port as nat)
}

/// An address and a port.
pub fn join_host_and_port(host: &str, port: u16) -> (r: String)
    ensures
        r@ == host_and_port(host@, port),
{
    let mut out: String = host.to_owned();
    out.append(":");
    out.append(u64_text(port as u64).as_str());
    out
}

impl Config {
    /// The address to listen on.
    pub fn socket_addr(&self) -> (r: String)
        ensures
            r@ == host_and_port(self.bind_addr@, self.port),
    {
        join_host_and_port(self.bind_addr.as_str(), self.port)
    }

    /// The settings of the publisher.
    pub fn publisher_config(&self, claimed_by: String) -> (r: PublisherConfig)
        ensures
            r.claimed_by == claimed_by,
            r.batch_size == self.outbox_batch_size,
            r.lease_nanos == self.outbox_lease_seconds * 1_000_000_000,
            r.valid(),
            r.poll_interval.length() == self.outbox_poll_interval_ms * 1_000_000,
            r.backoff_base.length() == self.outbox_backoff_base_ms * 1_000_000,
            r.backoff_cap.length() == self.outbox_backoff_cap_ms * 1_000_000,
    {
        PublisherConfig {
            claimed_by,
            batch_size: self.outbox_batch_size,
            lease_nanos: self.outbox_lease_seconds as i128 * 1_000_000_000i128,
            poll_interval: Span::from_millis(self.outbox_poll_interval_ms),
            backoff_base: Span::from_millis(self.outbox_backoff_base_ms),
            backoff_cap: Span::from_millis(self.outbox_backoff_cap_ms),
        }
    }
}

/// The URL of a Postgres database.
pub open spec fn postgres_url(
    user: Seq<char>,
    password: Seq<char>,
    host: Seq<char>,
    port: u16,
    database: Seq<char>,
) -> Seq<char> {
    "postgres://"@ + user + ":"@ + password + "@"@ + host + ":"@ + decimal(port as nat) + "/"@
        + database
}

/// The URL of a Postgres database.
pub fn join_postgres_url(user: &str, password: &str, host: &str, port: u16, database: &str) -> (r:
    String)
    ensures
        r@ == postgres_url(user@, password@, host@, port, database@),
{
    let mut out: String = "postgres://".to_owned();
    out.append(user);
    out.append(":");
    out.append(password);
    out.append("@");
    out.append(host);
    out.append(":");
    out.append(u64_text(port as u64).as_str());
    out.append("/");
    out.append(database);
    out
}

/// Where the service's database is.
#[derive(Debug)]
pub struct DatabaseConfig {
    pub postgres_user: String,
    pub postgres_password: String,
    pub postgres_host: String,
    pub postgres_port: u16,
    pub postgres_orders_db: String,
}

impl DatabaseConfig {
    /// The URL of the service's database.
    pub fn database_url(&self) -> (r: String)
        ensures
            r@ == postgres_url(
                self.postgres_user@,
                self.postgres_password@,
                self.postgres_host@,
                self.postgres_port,
                self.postgres_orders_db@,
            ),
    {
        join_postgres_url(
            self.postgres_user.as_str(),
            self.postgres_password.as_str(),
            self.postgres_host.as_str(),
            self.postgres_port,
            self.postgres_orders_db.as_str(),
        )
    }
}

/// Where the broker is.
#[derive(Debug)]
pub struct MessagingConfig {
    pub redpanda_broker: String,
}

/// Whether deliberate faults can be set up from outside.
#[derive(Debug)]
pub struct FailureInjectionConfig {
    pub environment: String,
    pub failure_injection_enabled: bool,
    pub failure_injection_token: String,
}

impl Default for FailureInjectionConfig {
    fn default() -> (r: FailureInjectionConfig)
        ensures
            r.environment@ == "development"@,
            !r.failure_injection_enabled,
            r.failure_injection_token@ == Seq::<char>::empty(),
    {
        FailureInjectionConfig {
            environment: "development".to_owned(),
            failure_injection_enabled: false,
            failure_injection_token: String::new(),
        }
    }
}

/// Failure injection was asked for in production.
#[derive(Debug, Clone, Copy, PartialEq, Eq, Structural)]
pub struct FailureInjectionInProductionError;

impl FailureInjectionInProductionError {
    /// The error in words.
    pub fn message(&self) -> (r: String)
        ensures
            r@ == "FAILURE_INJECTION_ENABLED=true is refused when ENVIRONMENT=production"@,
    {
        "FAILURE_INJECTION_ENABLED=true is refused when ENVIRONMENT=production".to_owned()
    }
}

impl FailureInjectionConfig {
    /// Lets loaded settings through, unless they enable failure injection in
    /// production.
    pub fn accept(self) -> (r: Result<FailureInjectionConfig, FailureInjectionInProductionError>)
        ensures
            r is Err <==> self.failure_injection_enabled && self.environment@ == "production"@,
            r matches Ok(config) ==> config == self,
    {
        if self.failure_injection_enabled && text_eq(self.environment.as_str(), "production") {
            Err(FailureInjectionInProductionError)
        } else {
            Ok(self)
        }
    }

    /// Whether failure injection is enabled.
    pub fn enabled(&self) -> (r: bool)
        ensures
            r == self.failure_injection_enabled,
    {
        self.failure_injection_enabled
    }
}

/// An address is the host, a colon and the port in decimal; the URL of a
/// database names the user, the password, that address and the database.
pub proof fn addresses_name_host_and_port(
    user: Seq<char>,
    password: Seq<char>,
    host: Seq<char>,
    port: u16,
    database: Seq<char>,
)
    ensures
        host_and_port(host, port) == host + ":"@ + decimal(port as nat),
        postgres_url(user, password, host, port, database) == "postgres://"@ + user + ":"@
            + password + "@"@ + host_and_port(host, port) + "/"@ + database,
{
    assert(postgres_url(user, password, host, port, database) =~= "postgres://"@ + user + ":"@
        + password + "@"@ + host_and_port(host, port) + "/"@ + database);
}

/// Failure injection is let through everywhere but in production, as it was
/// asked for; nobody gets it unasked.
pub proof fn production_refuses_failure_injection(
    config: FailureInjectionConfig,
    r: Result<FailureInjectionConfig, FailureInjectionInProductionError>,
    enabled: bool,
)
    ensures
        call_ensures(FailureInjectionConfig::accept, (config,), r) ==> {
            &&& r is Err <==> config.failure_injection_enabled && config.environment@
                == "production"@
            &&& r is Ok ==> r->Ok_0 == config
        },
        call_ensures(FailureInjectionConfig::enabled, (&config,), enabled) ==> enabled
            == config.failure_injection_enabled,
        call_ensures(
            <FailureInjectionConfig as Default>::default,
            (),
            config,
        ) ==> !config.failure_injection_enabled && config.environment@ == "development"@
            && config.failure_injection_token@.len() == 0,
{
}

/// The publisher works by the settings of the service, its spans in
/// milliseconds and its lease in seconds.
pub proof fn publishers_work_by_the_settings(
    config: &Config,
    by: String,
    r: PublisherConfig,
    address: String,
)
    ensures
        call_ensures(Config::publisher_config, (config, by), r) ==> {
            &&& r.claimed_by == by
            &&& r.batch_size == config.outbox_batch_size
            &&& r.lease_nanos == config.outbox_lease_seconds * 1_000_000_000
            &&& r.poll_interval.secs * 1_000_000_000 + r.poll_interval.nanos
                == config.outbox_poll_interval_ms * 1_000_000
            &&& r.backoff_base.secs * 1_000_000_000 + r.backoff_base.nanos
                == config.outbox_backoff_base_ms * 1_000_000
            &&& r.backoff_cap.secs * 1_000_000_000 + r.backoff_cap.nanos
                == config.outbox_backoff_cap_ms * 1_000_000
        },
        call_ensures(Config::socket_addr, (config,), address) ==> address@ == config.bind_addr@
            + ":"@ + decimal(config.port as nat),
{
}

}
