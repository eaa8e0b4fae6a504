//! Counters of a consumer, without labels that grow with the data.

use vstd::prelude::*;
use vstd::string::*;

use crate::persistence::outbox::{count, counted};
use crate::text::{decimal, text_eq, u64_text};

verus! {

/// The counters of a consumer.
#[derive(Debug, Clone, Copy, PartialEq, Eq, Structural)]
pub struct ConsumerMetrics {
    pub applied: u64,
    pub duplicate: u64,
    pub stale: u64,
    pub poison: u64,
    pub gaps: u64,
    pub dlq: u64,
    pub retries: u64,
    pub lag: u64,
}

impl Default for ConsumerMetrics {
    fn default() -> (r: ConsumerMetrics)
        ensures
            r == (ConsumerMetrics {
                applied: 0,
                duplicate: 0,
                stale: 0,
                poison: 0,
                gaps: 0,
                dlq: 0,
                retries: 0,
                lag: 0,
            }),
    {
        ConsumerMetrics {
            applied: 0,
            duplicate: 0,
            stale: 0,
            poison: 0,
            gaps: 0,
            dlq: 0,
            retries: 0,
            lag: 0,
        }
    }
}

/// The counters after a record was handled with `result`; an unknown result
/// counts nowhere.
pub open spec fn result_counted(metrics: ConsumerMetrics, result: Seq<char>) -> ConsumerMetrics {
    if result == "applied"@ {
        ConsumerMetrics { applied: counted(metrics.applied), ..metrics }
    } else if result == "duplicate"@ {
        ConsumerMetrics { duplicate: counted(metrics.duplicate), ..metrics }
    } else if result == "stale"@ {
        ConsumerMetrics { stale: counted(metrics.stale), ..metrics }
    } else if result == "poison"@ {
        ConsumerMetrics { poison: counted(metrics.poison), ..metrics }
    } else {
        metrics
    }
}

/// Counts a handled record.
pub fn record_result(metrics: &mut ConsumerMetrics, result: &str)
    ensures
        *final(metrics) == result_counted(*old(metrics), result@),
{
    if text_eq(result, "applied") {
        metrics.applied = count(metrics.applied);
    } else if text_eq(result, "duplicate") {
        metrics.duplicate = count(metrics.duplicate);
    } else if text_eq(result, "stale") {
        metrics.stale = count(metrics.stale);
    } else if text_eq(result, "poison") {
        metrics.poison = count(metrics.poison);
    }
}

/// Counts a version gap.
pub fn record_gap(metrics: &mut ConsumerMetrics)
    ensures
        *final(metrics) == (ConsumerMetrics {
            gaps: counted(old(metrics).gaps),
            ..*old(metrics)
        }),
{
    metrics.gaps = count(metrics.gaps);
}

/// Counts a dead letter.
pub fn record_dlq(metrics: &mut ConsumerMetrics)
    ensures
        *final(metrics) == (ConsumerMetrics {
            dlq: counted(old(metrics).dlq),
            ..*old(metrics)
        }),
{
    metrics.dlq = count(metrics.dlq);
}

/// Counts a retry of a dependency.
pub fn record_retry(metrics: &mut ConsumerMetrics)
    ensures
        *final(metrics) == (ConsumerMetrics {
            retries: counted(old(metrics).retries),
            ..*old(metrics)
        }),
{
    metrics.retries = count(metrics.retries);
}

/// Notes how far the consumer is behind; less than nothing counts as nothing.
pub fn set_consumer_lag(metrics: &mut ConsumerMetrics, value: i64)
    ensures
        *final(metrics) == (ConsumerMetrics {
            lag: if value < 0 {
                0
            } else {
                value as u64
            },
            ..*old(metrics)
        }),
{
    metrics.lag = if value < 0 {
        0
    } else {
        value as u64
    };
}

/// One line of the exposition: a name, a value and the end of the line.
pub open spec fn sample(name: Seq<char>, value: u64) -> Seq<char> {
    name + " "@ + decimal(value as nat) + "\n"@
}

/// The counters as text.
pub open spec fn exposition(metrics: ConsumerMetrics) -> Seq<char> {
    "# TYPE consumer_records_total counter\n"@ + sample(
        "consumer_records_total{result=\"applied\"}"@,
        metrics.applied,
    ) + sample("consumer_records_total{result=\"duplicate\"}"@, metrics.duplicate) + sample(
        "consumer_records_total{result=\"stale\"}"@,
        metrics.stale,
    ) + sample("consumer_records_total{result=\"poison\"}"@, metrics.poison)
        + "# TYPE consumer_version_gaps_total counter\n"@ + sample(
        "consumer_version_gaps_total"@,
        metrics.gaps,
    ) + "# TYPE dlq_published_total counter\n"@ + sample("dlq_published_total"@, metrics.dlq)
        + "# TYPE dependency_retries_total counter\n"@ + sample(
        "dependency_retries_total"@,
        metrics.retries,
    ) + "# TYPE consumer_lag_records gauge\n"@ + sample("consumer_lag_records"@, metrics.lag)
}

/// Appends a line.
pub fn append_sample(body: &mut String, name: &str, value: u64)
    ensures
        final(body)@ == old(body)@ + sample(name@, value),
{
    let mut line: String = name.to_owned();
    line.append(" ");
    line.append(u64_text(value).as_str());
    line.append("\n");
    body.append(line.as_str());
}

/// The counters as text.
pub fn prometheus(metrics: &ConsumerMetrics) -> (r: String)
    ensures
        r@ == exposition(*metrics),
{
    let mut body: String = String::new();
    body.append("# TYPE consumer_records_total counter\n");
    assert(body@ =~= "# TYPE consumer_records_total counter\n"@);
    append_sample(&mut body, "consumer_records_total{result=\"applied\"}", metrics.applied);
    append_sample(&mut body, "consumer_records_total{result=\"duplicate\"}", metrics.duplicate);
    append_sample(&mut body, "consumer_records_total{result=\"stale\"}", metrics.stale);
    append_sample(&mut body, "consumer_records_total{result=\"poison\"}", metrics.poison);
    body.append("# TYPE consumer_version_gaps_total counter\n");
    append_sample(&mut body, "consumer_version_gaps_total", metrics.gaps);
    body.append("# TYPE dlq_published_total counter\n");
    append_sample(&mut body, "dlq_published_total", metrics.dlq);
    body.append("# TYPE dependency_retries_total counter\n");
    append_sample(&mut body, "dependency_retries_total", metrics.retries);
    body.append("# TYPE consumer_lag_records gauge\n");
    append_sample(&mut body, "consumer_lag_records", metrics.lag);
    body
}

/// The exposition tells every counter under its own name, each on a line of
/// its own behind the line that names its kind.
pub proof fn counters_are_exposed_by_name(metrics: ConsumerMetrics)
    ensures
        exposition(metrics) == "# TYPE consumer_records_total counter\n"@ + (
        "consumer_records_total{result=\"applied\"}"@ + " "@ + decimal(metrics.applied as nat)
            + "\n"@) + ("consumer_records_total{result=\"duplicate\"}"@ + " "@ + decimal(
            metrics.duplicate as nat,
        ) + "\n"@) + ("consumer_records_total{result=\"stale\"}"@ + " "@ + decimal(
            metrics.stale as nat,
        ) + "\n"@) + ("consumer_records_total{result=\"poison\"}"@ + " "@ + decimal(
            metrics.poison as nat,
        ) + "\n"@) + "# TYPE consumer_version_gaps_total counter\n"@ + (
        "consumer_version_gaps_total"@ + " "@ + decimal(metrics.gaps as nat) + "\n"@)
            + "# TYPE dlq_published_total counter\n"@ + ("dlq_published_total"@ + " "@ + decimal(
            metrics.dlq as nat,
        ) + "\n"@) + "# TYPE dependency_retries_total counter\n"@ + ("dependency_retries_total"@
            + " "@ + decimal(metrics.retries as nat) + "\n"@)
            + "# TYPE consumer_lag_records gauge\n"@ + ("consumer_lag_records"@ + " "@ + decimal(
            metrics.lag as nat,
        ) + "\n"@),
{
}

}
