//! What the payments API shows, and who may control its faults.

use vstd::prelude::*;
use vstd::string::*;

use crate::payments::errors::ApiError;
use crate::persistence::metrics::{append_sample, sample};
use crate::persistence::outbox::PublishMetrics;
use crate::test_support::fault::{FaultConfig, FaultConfigView, FaultInjector};
use crate::text::{decimal, i64_text, signed_decimal, text_eq};

verus! {

/// The publisher's gauges and counters as text. The age of the oldest waiting
/// message comes in as text.
pub open spec fn publisher_exposition(
    unpublished_count: i64,
    oldest_age: Seq<char>,
    metrics: PublishMetrics,
) -> Seq<char> {
    "# HELP outbox_unpublished_count Unpublished outbox rows.\n"@
        + "# TYPE outbox_unpublished_count gauge\n"@ + "outbox_unpublished_count "@ + signed_decimal(
        unpublished_count as int,
    ) + "\n"@
        + "# HELP outbox_oldest_unpublished_age_seconds Age of the oldest unpublished row.\n"@
        + "# TYPE outbox_oldest_unpublished_age_seconds gauge\n"@
        + "outbox_oldest_unpublished_age_seconds "@ + oldest_age + "\n"@
        + "# HELP outbox_publish_attempts_total Publish attempts made by this worker.\n"@
        + "# TYPE outbox_publish_attempts_total counter\n"@ + sample(
        "outbox_publish_attempts_total"@,
        metrics.attempts_total,
    ) + "# HELP outbox_publish_failures_total Publish attempts that failed.\n"@
        + "# TYPE outbox_publish_failures_total counter\n"@ + sample(
        "outbox_publish_failures_total"@,
        metrics.failures_total,
    ) + "# HELP outbox_publish_success_total Rows successfully marked published.\n"@
        + "# TYPE outbox_publish_success_total counter\n"@ + sample(
        "outbox_publish_success_total"@,
        metrics.published_total,
    ) + "# HELP outbox_lease_recoveries_total Rows reclaimed after a prior lease expired.\n"@
        + "# TYPE outbox_lease_recoveries_total counter\n"@ + sample(
        "outbox_lease_recoveries_total"@,
        metrics.lease_recoveries_total,
    )
}

/// The publisher's gauges and counters as text.
pub fn metrics(unpublished_count: i64, oldest_age: &str, counters: &PublishMetrics) -> (r: String)
    ensures
        r@ == publisher_exposition(unpublished_count, oldest_age@, *counters),
{
    let (attempts, failures, lease_recoveries, published) = counters.snapshot();
    let mut body: String = "# HELP outbox_unpublished_count Unpublished outbox rows.\n".to_owned();
    body.append("# TYPE outbox_unpublished_count gauge\n");
    body.append("outbox_unpublished_count ");
    body.append(i64_text(unpublished_count).as_str());
    body.append("\n");
    body.append(
        "# HELP outbox_oldest_unpublished_age_seconds Age of the oldest unpublished row.\n",
    );
    body.append("# TYPE outbox_oldest_unpublished_age_seconds gauge\n");
    body.append("outbox_oldest_unpublished_age_seconds ");
    body.append(oldest_age);
    body.append("\n");
    body.append("# HELP outbox_publish_attempts_total Publish attempts made by this worker.\n");
    body.append("# TYPE outbox_publish_attempts_total counter\n");
    append_sample(&mut body, "outbox_publish_attempts_total", attempts);
    body.append("# HELP outbox_publish_failures_total Publish attempts that failed.\n");
    body.append("# TYPE outbox_publish_failures_total counter\n");
    append_sample(&mut body, "outbox_publish_failures_total", failures);
    body.append("# HELP outbox_publish_success_total Rows successfully marked published.\n");
    body.append("# TYPE outbox_publish_success_total counter\n");
    append_sample(&mut body, "outbox_publish_success_total", published);
    body.append(
        "# HELP outbox_lease_recoveries_total Rows reclaimed after a prior lease expired.\n",
    );
    body.append("# TYPE outbox_lease_recoveries_total counter\n");
    append_sample(&mut body, "outbox_lease_recoveries_total", lease_recoveries);
    body
}

/// Lets only the holder of the test token control faults; an empty token is
/// nobody's.
pub fn check_test_token(token: &str, supplied: Option<&str>) -> (r: Result<(), ApiError>)
    ensures
        r is Ok <==> supplied is Some && supplied->0@.len() > 0 && supplied->0@ == token@,
        r matches Err(e) ==> e is FaultControlForbidden,
{
    match supplied {
        Some(text) => if !text.is_empty() && text_eq(text, token) {
            Ok(())
        } else {
            Err(ApiError::FaultControlForbidden)
        },
        None => Err(ApiError::FaultControlForbidden),
    }
}

/// Sets up a fault for the holder of the test token.
pub fn put_fault(
    faults: &mut FaultInjector,
    token: &str,
    supplied: Option<&str>,
    name: &str,
    config: FaultConfig,
) -> (r: Result<u16, ApiError>)
    ensures
        ({
            let allowed = supplied is Some && supplied->0@.len() > 0 && supplied->0@ == token@;
            match r {
                Ok(status) => allowed && status == 204 && final(faults)@ == old(faults)@.insert(
                    name@,
                    config@,
                ),
                Err(e) => !allowed && e is FaultControlForbidden && final(faults)@ == old(faults)@,
            }
        }),
{
    match check_test_token(token, supplied) {
        Ok(()) => {
            faults.configure(name, config);
            Ok(204)
        },
        Err(e) => Err(e),
    }
}

/// Removes every fault for the holder of the test token.
pub fn delete_faults(faults: &mut FaultInjector, token: &str, supplied: Option<&str>) -> (r: Result<
    u16,
    ApiError,
>)
    ensures
        ({
            let allowed = supplied is Some && supplied->0@.len() > 0 && supplied->0@ == token@;
            match r {
                Ok(status) => allowed && status == 204 && final(faults)@ == Map::<
                    Seq<char>,
                    FaultConfigView,
                >::empty(),
                Err(e) => !allowed && e is FaultControlForbidden && final(faults)@ == old(faults)@,
            }
        }),
{
    match check_test_token(token, supplied) {
        Ok(()) => {
            faults.clear();
            Ok(204)
        },
        Err(e) => Err(e),
    }
}

/// The exposition tells each gauge and each counter of the publisher under its
/// own name.
pub proof fn publishers_are_exposed_by_name(
    unpublished_count: i64,
    oldest_age: Seq<char>,
    metrics: PublishMetrics,
)
    ensures
        publisher_exposition(unpublished_count, oldest_age, metrics)
            == "# HELP outbox_unpublished_count Unpublished outbox rows.\n"@
            + "# TYPE outbox_unpublished_count gauge\n"@ + "outbox_unpublished_count "@
            + signed_decimal(unpublished_count as int) + "\n"@
            + "# HELP outbox_oldest_unpublished_age_seconds Age of the oldest unpublished row.\n"@
            + "# TYPE outbox_oldest_unpublished_age_seconds gauge\n"@
            + "outbox_oldest_unpublished_age_seconds "@ + oldest_age + "\n"@
            + "# HELP outbox_publish_attempts_total Publish attempts made by this worker.\n"@
            + "# TYPE outbox_publish_attempts_total counter\n"@ + (
        "outbox_publish_attempts_total"@ + " "@ + decimal(metrics.attempts_total as nat) + "\n"@)
            + "# HELP outbox_publish_failures_total Publish attempts that failed.\n"@
            + "# TYPE outbox_publish_failures_total counter\n"@ + (
        "outbox_publish_failures_total"@ + " "@ + decimal(metrics.failures_total as nat) + "\n"@)
            + "# HELP outbox_publish_success_total Rows successfully marked published.\n"@
            + "# TYPE outbox_publish_success_total counter\n"@ + (
        "outbox_publish_success_total"@ + " "@ + decimal(metrics.published_total as nat) + "\n"@)
            + "# HELP outbox_lease_recoveries_total Rows reclaimed after a prior lease expired.\n"@
            + "# TYPE outbox_lease_recoveries_total counter\n"@ + (
        "outbox_lease_recoveries_total"@ + " "@ + decimal(metrics.lease_recoveries_total as nat)
            + "\n"@),
{
}

/// Only the holder of the token sets faults up and takes them away, and
/// nobody else changes anything; an empty token is nobody's.
pub proof fn only_the_token_changes_faults(
    faults: &mut FaultInjector,
    token: &str,
    supplied: Option<&str>,
    name: &str,
    config: FaultConfig,
    checked: Result<(), ApiError>,
    put: Result<u16, ApiError>,
    deleted: Result<u16, ApiError>,
)
    ensures
        ({
            let held = supplied is Some && supplied->0@ == token@ && token@.len() > 0;
            &&& call_ensures(check_test_token, (token, supplied), checked) ==> (checked is Ok <==> held)
            &&& call_ensures(put_fault, (faults, token, supplied, name, config), put) ==> {
                &&& held ==> put == Ok::<u16, ApiError>(204) && final(faults)@
                    == old(faults)@.insert(name@, config@)
                &&& !held ==> put is Err && final(faults)@ == old(faults)@
            }
            &&& call_ensures(delete_faults, (faults, token, supplied), deleted) ==> {
                &&& held ==> deleted == Ok::<u16, ApiError>(204) && final(faults)@ == Map::<
                    Seq<char>,
                    FaultConfigView,
                >::empty()
                &&& !held ==> deleted is Err && final(faults)@ == old(faults)@
            }
        }),
{
}

}
