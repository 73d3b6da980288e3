//! Run metrics and service health.
use crate::text::{decimal, decimal_string};
use crate::vocabulary::now_seconds;
use vstd::prelude::*;

verus! {

/// The health of one service.
#[derive(Debug, Clone)]
pub enum ServiceStatus {
    Healthy,
    Degraded(String),
    Unhealthy(String),
}

impl ServiceStatus {
    /// Whether the service is fully healthy.
    pub fn is_healthy(&self) -> (r: bool)
        ensures
            r == (*self is Healthy),
    {
        match self {
            ServiceStatus::Healthy => true,
            _ => false,
        }
    }
}

/// The health of the whole system: healthy only if every service is.
#[derive(Debug, Clone)]
pub struct HealthStatus {
    pub healthy: bool,
    pub database_status: ServiceStatus,
    pub cache_status: ServiceStatus,
    pub api_status: ServiceStatus,
    pub python_bridge_status: ServiceStatus,
    pub last_check: i64,
}

impl HealthStatus {
    /// The overall status from the status of each service, checked at
    /// `last_check`.
    pub fn from_services(
        database_status: ServiceStatus,
        cache_status: ServiceStatus,
        api_status: ServiceStatus,
        python_bridge_status: ServiceStatus,
        last_check: i64,
    ) -> (r: Self)
        ensures
            r.healthy == (database_status is Healthy && cache_status is Healthy && api_status is Healthy
                && python_bridge_status is Healthy),
            r.last_check == last_check,
    {
        let healthy = database_status.is_healthy() && cache_status.is_healthy()
            && api_status.is_healthy() && python_bridge_status.is_healthy();
        HealthStatus {
            healthy,
            database_status,
            cache_status,
            api_status,
            python_bridge_status,
            last_check,
        }
    }
}

/// A snapshot of the system for operators. Times are in seconds.
#[derive(Debug, Clone)]
pub struct SystemStatus {
    pub database_healthy: bool,
    pub api_healthy: bool,
    pub cache_healthy: bool,
    pub queue_size: i64,
    pub cache_size: i64,
    pub last_error: Option<String>,
    pub uptime_secs: u64,
}

impl SystemStatus {
    /// Whether the store, the provider and the cache are all healthy.
    pub fn is_healthy(&self) -> (r: bool)
        ensures
            r == (self.database_healthy && self.api_healthy && self.cache_healthy),
    {
        self.database_healthy && self.api_healthy && self.cache_healthy
    }
}

/// The cost of a provider token, in millionths of a dollar ($10 per million).
pub const API_MICROS_PER_TOKEN: u128 = 10;

/// Counters of a run. Times are in milliseconds; the cost is in millionths
/// of a dollar.
#[derive(Debug, Clone, Copy)]
pub struct PipelineMetrics {
    pub start_time: i64,
    pub items_processed: usize,
    pub items_succeeded: usize,
    pub items_failed: usize,
    pub cache_hits: usize,
    pub cache_misses: usize,
    pub api_calls: usize,
    pub api_tokens_used: usize,
    pub api_errors: usize,
    pub rate_limit_hits: usize,
    pub total_processing_time_ms: u64,
    pub average_processing_time_ms: u64,
    pub estimated_cost_micros: u128,
}

/// `x + 1`, saturating.
pub open spec fn inc(x: usize) -> usize {
    if x < usize::MAX {
        (x + 1) as usize
    } else {
        x
    }
}

fn bump(x: usize) -> (r: usize)
    ensures
        r == inc(x),
{
    if x < usize::MAX {
        x + 1
    } else {
        x
    }
}

/// `part` out of `total`, in basis points rounded down; zero when `total`
/// is zero.
pub open spec fn rate_bp(part: int, total: int) -> int {
    if total > 0 {
        part * 10000 / total
    } else {
        0
    }
}

fn rate_bp_exec(part: usize, total: usize) -> (r: u128)
    ensures
        r == rate_bp(part as int, total as int),
{
    if total == 0 {
        0
    } else {
        assert((part as int) * 10000 <= 0xffff_ffff_ffff_ffffint * 10000) by (nonlinear_arith)
            requires
                part as int <= 0xffff_ffff_ffff_ffffint,
                part >= 0,
        ;
        (part as u128 * 10000) / total as u128
    }
}

/// The metrics of a run.
pub struct MetricsCollector {
    pub metrics: PipelineMetrics,
}

impl MetricsCollector {
    /// All counters zero, started now.
    pub fn new() -> (r: Self)
        ensures
            r.metrics.items_processed == 0,
            r.metrics.items_succeeded == 0,
            r.metrics.items_failed == 0,
            r.metrics.cache_hits == 0,
            r.metrics.cache_misses == 0,
            r.metrics.api_calls == 0,
            r.metrics.api_tokens_used == 0,
            r.metrics.api_errors == 0,
            r.metrics.rate_limit_hits == 0,
            r.metrics.total_processing_time_ms == 0,
            r.metrics.average_processing_time_ms == 0,
            r.metrics.estimated_cost_micros == 0,
    {
        MetricsCollector {
            metrics: PipelineMetrics {
                start_time: now_seconds(),
                items_processed: 0,
                items_succeeded: 0,
                items_failed: 0,
                cache_hits: 0,
                cache_misses: 0,
                api_calls: 0,
                api_tokens_used: 0,
                api_errors: 0,
                rate_limit_hits: 0,
                total_processing_time_ms: 0,
                average_processing_time_ms: 0,
                estimated_cost_micros: 0,
            },
        }
    }

    /// Counts a processed item and its time; the average is the total time
    /// over the items processed, rounded down.
    pub fn record_item_processed(&mut self, success: bool, processing_time_ms: u64)
        ensures
            final(self).metrics.items_processed == inc(old(self).metrics.items_processed),
            final(self).metrics.items_succeeded == if success {
                inc(old(self).metrics.items_succeeded)
            } else {
                old(self).metrics.items_succeeded
            },
            final(self).metrics.items_failed == if success {
                old(self).metrics.items_failed
            } else {
                inc(old(self).metrics.items_failed)
            },
            final(self).metrics.total_processing_time_ms == if old(self).metrics.total_processing_time_ms + processing_time_ms > u64::MAX {
                u64::MAX as int
            } else {
                old(self).metrics.total_processing_time_ms + processing_time_ms
            },
            final(self).metrics.average_processing_time_ms == final(self).metrics.total_processing_time_ms as int / final(self).metrics.items_processed as int,
            final(self).metrics.cache_hits == old(self).metrics.cache_hits,
            final(self).metrics.cache_misses == old(self).metrics.cache_misses,
            final(self).metrics.api_calls == old(self).metrics.api_calls,
    {
        self.metrics.items_processed = bump(self.metrics.items_processed);
        if success {
            self.metrics.items_succeeded = bump(self.metrics.items_succeeded);
        } else {
            self.metrics.items_failed = bump(self.metrics.items_failed);
        }
        let t = self.metrics.total_processing_time_ms;
        self.metrics.total_processing_time_ms = if t > u64::MAX - processing_time_ms {
            u64::MAX
        } else {
            t + processing_time_ms
        };
        self.metrics.average_processing_time_ms = self.metrics.total_processing_time_ms
            / self.metrics.items_processed as u64;
    }

    /// Counts a cache hit.
    pub fn record_cache_hit(&mut self)
        ensures
            final(self).metrics == (PipelineMetrics {
                cache_hits: inc(old(self).metrics.cache_hits),
                ..old(self).metrics
            }),
    {
        self.metrics.cache_hits = bump(self.metrics.cache_hits);
    }

    /// Counts a cache miss.
    pub fn record_cache_miss(&mut self)
        ensures
            final(self).metrics == (PipelineMetrics {
                cache_misses: inc(old(self).metrics.cache_misses),
                ..old(self).metrics
            }),
    {
        self.metrics.cache_misses = bump(self.metrics.cache_misses);
    }

    /// Counts a provider call and its tokens, and prices the tokens used.
    pub fn record_api_call(&mut self, tokens_used: usize)
        ensures
            final(self).metrics.api_calls == inc(old(self).metrics.api_calls),
            final(self).metrics.api_tokens_used == if old(self).metrics.api_tokens_used + tokens_used
                > usize::MAX {
                usize::MAX as int
            } else {
                old(self).metrics.api_tokens_used + tokens_used
            },
            final(self).metrics.estimated_cost_micros == final(self).metrics.api_tokens_used
                * API_MICROS_PER_TOKEN,
            final(self).metrics.cache_hits == old(self).metrics.cache_hits,
            final(self).metrics.cache_misses == old(self).metrics.cache_misses,
            final(self).metrics.items_processed == old(self).metrics.items_processed,
    {
        self.metrics.api_calls = bump(self.metrics.api_calls);
        let t = self.metrics.api_tokens_used;
        self.metrics.api_tokens_used = if t > usize::MAX - tokens_used {
            usize::MAX
        } else {
            t + tokens_used
        };
        self.metrics.estimated_cost_micros = self.metrics.api_tokens_used as u128 * API_MICROS_PER_TOKEN;
    }

    /// Counts a provider error.
    pub fn record_api_error(&mut self)
        ensures
            final(self).metrics == (PipelineMetrics {
                api_errors: inc(old(self).metrics.api_errors),
                ..old(self).metrics
            }),
    {
        self.metrics.api_errors = bump(self.metrics.api_errors);
    }

    /// Counts a rate-limit signal.
    pub fn record_rate_limit(&mut self)
        ensures
            final(self).metrics == (PipelineMetrics {
                rate_limit_hits: inc(old(self).metrics.rate_limit_hits),
                ..old(self).metrics
            }),
    {
        self.metrics.rate_limit_hits = bump(self.metrics.rate_limit_hits);
    }

    /// A snapshot of the counters.
    pub fn get_metrics(&self) -> (r: PipelineMetrics)
        ensures
            r == self.metrics,
    {
        self.metrics
    }

    /// Cache hits over lookups, in basis points; zero before any lookup.
    pub fn get_cache_hit_rate(&self) -> (r: u128)
        ensures
            r == rate_bp(
                self.metrics.cache_hits as int,
                self.metrics.cache_hits as int + self.metrics.cache_misses as int,
            ),
    {
        let h = self.metrics.cache_hits as u128;
        let total = h + self.metrics.cache_misses as u128;
        if total == 0 {
            0
        } else {
            assert((h as int) * 10000 <= 0xffff_ffff_ffff_ffffint * 10000) by (nonlinear_arith)
                requires
                    h as int <= 0xffff_ffff_ffff_ffffint,
                    h >= 0,
            ;
            (h * 10000) / total
        }
    }

    /// Succeeded items over processed items, in basis points; zero before
    /// any item.
    pub fn get_success_rate(&self) -> (r: u128)
        ensures
            r == rate_bp(self.metrics.items_succeeded as int, self.metrics.items_processed as int),
    {
        rate_bp_exec(self.metrics.items_succeeded, self.metrics.items_processed)
    }
}

/// One counter in the Prometheus text format.
pub open spec fn counter_block(name: Seq<char>, help: Seq<char>, kind: Seq<char>, value: nat) -> Seq<char> {
    "# HELP "@ + name + " "@ + help + "\n"@ + "# TYPE "@ + name + " "@ + kind + "\n"@ + name + " "@
        + decimal(value) + "\n"@
}

fn push_block(out: &mut String, name: &str, help: &str, kind: &str, value: u128)
    requires
        value <= u64::MAX,
    ensures
        final(out)@ == old(out)@ + counter_block(name@, help@, kind@, value as nat),
{
    out.append("# HELP ");
    out.append(name);
    out.append(" ");
    out.append(help);
    out.append("\n");
    out.append("# TYPE ");
    out.append(name);
    out.append(" ");
    out.append(kind);
    out.append("\n");
    out.append(name);
    out.append(" ");
    out.append(decimal_string(value as u64).as_str());
    out.append("\n");
    assert(final(out)@ =~= old(out)@ + counter_block(name@, help@, kind@, value as nat));
}

/// The clamp of a count to `u64`.
pub open spec fn clamp64(x: int) -> nat {
    if x > u64::MAX {
        u64::MAX as nat
    } else if x < 0 {
        0
    } else {
        x as nat
    }
}

fn clamp(x: u128) -> (r: u128)
    ensures
        r == clamp64(x as int),
        r <= u64::MAX,
{
    if x > u64::MAX as u128 {
        u64::MAX as u128
    } else {
        x
    }
}

/// The metrics in the Prometheus text format, values clamped to `u64`.
pub open spec fn prometheus_text(m: PipelineMetrics) -> Seq<char> {
    counter_block(
        "pipeline_items_processed"@,
        "Total number of items processed"@,
        "counter"@,
        clamp64(m.items_processed as int),
    ) + counter_block(
        "pipeline_items_succeeded"@,
        "Total number of items successfully processed"@,
        "counter"@,
        clamp64(m.items_succeeded as int),
    ) + counter_block(
        "pipeline_items_failed"@,
        "Total number of items that failed processing"@,
        "counter"@,
        clamp64(m.items_failed as int),
    ) + counter_block(
        "pipeline_cache_hits"@,
        "Total number of cache hits"@,
        "counter"@,
        clamp64(m.cache_hits as int),
    ) + counter_block(
        "pipeline_api_calls"@,
        "Total number of API calls made"@,
        "counter"@,
        clamp64(m.api_calls as int),
    ) + counter_block(
        "pipeline_api_tokens_used"@,
        "Total number of tokens used"@,
        "counter"@,
        clamp64(m.api_tokens_used as int),
    ) + counter_block(
        "pipeline_estimated_cost_micros"@,
        "Estimated cost in millionths of a dollar"@,
        "gauge"@,
        clamp64(m.estimated_cost_micros as int),
    ) + counter_block(
        "pipeline_average_processing_time_ms"@,
        "Average processing time per item in milliseconds"@,
        "gauge"@,
        clamp64(m.average_processing_time_ms as int),
    )
}

impl PipelineMetrics {
    /// The metrics in the Prometheus text format, values clamped to `u64`.
    pub fn to_prometheus_format(&self) -> (r: String)
        ensures
            r@ == prometheus_text(*self),
    {
        let mut out = String::new();
        push_block(&mut out, "pipeline_items_processed", "Total number of items processed", "counter", clamp(self.items_processed as u128));
        push_block(&mut out, "pipeline_items_succeeded", "Total number of items successfully processed", "counter", clamp(self.items_succeeded as u128));
        push_block(&mut out, "pipeline_items_failed", "Total number of items that failed processing", "counter", clamp(self.items_failed as u128));
        push_block(&mut out, "pipeline_cache_hits", "Total number of cache hits", "counter", clamp(self.cache_hits as u128));
        push_block(&mut out, "pipeline_api_calls", "Total number of API calls made", "counter", clamp(self.api_calls as u128));
        push_block(&mut out, "pipeline_api_tokens_used", "Total number of tokens used", "counter", clamp(self.api_tokens_used as u128));
        push_block(&mut out, "pipeline_estimated_cost_micros", "Estimated cost in millionths of a dollar", "gauge", clamp(self.estimated_cost_micros));
        push_block(&mut out, "pipeline_average_processing_time_ms", "Average processing time per item in milliseconds", "gauge", clamp(self.average_processing_time_ms as u128));
        assert(out@ =~= prometheus_text(*self));
        out
    }
}

} // verus!
