//! Derived metrics: usage percentages, network throughput rates, and the
//! severity classification used to color gauges.
//!
//! Percentages are carried in basis points (hundredths of a percent), and
//! throughput in KiB/s scaled by `10^7`, so that every derivation is exact
//! integer arithmetic.

use vstd::prelude::*;

verus! {

/// A usage ratio in basis points: `used / total * 10000`, with a zero total
/// deriving to 0 rather than a division error, and the result clamped to
/// `u64::MAX` where an outsized `used` would overflow it.
pub open spec fn percent_bp_spec(used: u64, total: u64) -> int {
    if total == 0 {
        0
    } else if used * 10000 / (total as int) > u64::MAX {
        u64::MAX as int
    } else {
        used * 10000 / (total as int)
    }
}

/// Computes a usage percentage in basis points. A zero total yields 0.
pub fn percent_bp(used: u64, total: u64) -> (r: u64)
    ensures
        r == percent_bp_spec(used, total),
{
    if total == 0 {
        0
    } else {
        let wide: u128 = (used as u128) * 10000 / (total as u128);
        if wide > u64::MAX as u128 {
            u64::MAX
        } else {
            wide as u64
        }
    }
}

/// The delta of a cumulative counter between two readings. A counter that
/// moved backwards (the interface was re-enumerated and the counter reset)
/// counts as no traffic at all, never as a negative amount.
pub open spec fn counter_delta_spec(now: u64, prev: u64) -> int {
    if now >= prev {
        now - prev
    } else {
        0
    }
}

/// Saturating counter delta: the bytes transferred since `prev`, or 0 after a
/// counter reset.
pub fn counter_delta(now: u64, prev: u64) -> (r: u64)
    ensures
        r == counter_delta_spec(now, prev),
{
    if now >= prev {
        now - prev
    } else {
        0
    }
}

/// A transfer rate in KiB/s scaled by `10^7`:
/// `delta_bytes / (elapsed_ms / 1000) / 1024 * 10^7`, rounded down, clamped to
/// `u64::MAX`. A zero elapsed time derives to a rate of 0 rather than a
/// division error.
pub open spec fn rate_kbps_e7_spec(delta_bytes: u64, elapsed_ms: u64) -> int {
    if elapsed_ms == 0 {
        0
    } else if delta_bytes * 10_000_000_000 / (elapsed_ms * 1024) > u64::MAX {
        u64::MAX as int
    } else {
        delta_bytes * 10_000_000_000 / (elapsed_ms * 1024)
    }
}

/// Computes a transfer rate in KiB/s scaled by `10^7` from a byte delta and
/// the wall time over which it accumulated.
pub fn rate_kbps_e7(delta_bytes: u64, elapsed_ms: u64) -> (r: u64)
    ensures
        r == rate_kbps_e7_spec(delta_bytes, elapsed_ms),
{
    if elapsed_ms == 0 {
        0
    } else {
        let wide: u128 = (delta_bytes as u128) * 10_000_000_000
            / ((elapsed_ms as u128) * 1024);
        if wide > u64::MAX as u128 {
            u64::MAX
        } else {
            wide as u64
        }
    }
}

/// How loaded a gauge is, for color-coding. The render side maps each level
/// to a concrete color.
#[derive(Clone, Copy, Debug, PartialEq, Eq, Structural)]
pub enum Severity {
    Low,
    MediumLow,
    MediumHigh,
    High,
}

/// Severity of a usage percentage given in basis points. The buckets are
/// half-open: `[0, 25)`, `[25, 50)`, `[50, 75)`, `[75, ..)` percent, so 25%
/// exactly already counts as `MediumLow`. Total over all inputs; anything at
/// or above 75% is `High`.
pub open spec fn severity_of(percent_bp: u64) -> Severity {
    if percent_bp < 2500 {
        Severity::Low
    } else if percent_bp < 5000 {
        Severity::MediumLow
    } else if percent_bp < 7500 {
        Severity::MediumHigh
    } else {
        Severity::High
    }
}

/// Classifies a usage percentage (in basis points) into its severity bucket.
pub fn severity_color(percent_bp: u64) -> (s: Severity)
    ensures
        s == severity_of(percent_bp),
{
    if percent_bp < 2500 {
        Severity::Low
    } else if percent_bp < 5000 {
        Severity::MediumLow
    } else if percent_bp < 7500 {
        Severity::MediumHigh
    } else {
        Severity::High
    }
}

/// One point-in-time reading of the sensors, already reduced to plain
/// integers: CPU usage in hundredths of a percent, sizes in bytes, network
/// counters cumulative since boot (they may reset to 0 when an interface is
/// re-enumerated).
#[derive(Clone, Copy, Debug, PartialEq, Eq, Structural)]
pub struct MetricSnapshot {
    pub cpu_centi_percent: u32,
    pub memory_used_bytes: u64,
    pub memory_total_bytes: u64,
    pub swap_used_bytes: u64,
    pub swap_total_bytes: u64,
    pub network_rx_total_bytes: u64,
    pub network_tx_total_bytes: u64,
}

/// Everything the dashboard derives from a pair of consecutive readings.
/// Percentages are in basis points; rates in KiB/s scaled by `10^7`. All
/// fields are unsigned, so every rate is trivially non-negative.
#[derive(Clone, Copy, Debug, PartialEq, Eq, Structural)]
pub struct DerivedMetrics {
    pub memory_percent_bp: u64,
    pub swap_percent_bp: u64,
    pub download_kbps_e7: u64,
    pub upload_kbps_e7: u64,
}

impl DerivedMetrics {
    /// The derivation of every field, as one spec-level statement: what a
    /// refresh owes given the previous counters, the current reading, and the
    /// elapsed wall time.
    pub open spec fn derived_from(
        self,
        prev_rx: u64,
        prev_tx: u64,
        cur: MetricSnapshot,
        elapsed_ms: u64,
    ) -> bool {
        &&& self.memory_percent_bp == percent_bp_spec(
            cur.memory_used_bytes,
            cur.memory_total_bytes,
        )
        &&& self.swap_percent_bp == percent_bp_spec(cur.swap_used_bytes, cur.swap_total_bytes)
        &&& self.download_kbps_e7 == rate_kbps_e7_spec(
            counter_delta_spec(cur.network_rx_total_bytes, prev_rx) as u64,
            elapsed_ms,
        )
        &&& self.upload_kbps_e7 == rate_kbps_e7_spec(
            counter_delta_spec(cur.network_tx_total_bytes, prev_tx) as u64,
            elapsed_ms,
        )
    }

    /// Metrics as seeded before any elapsed interval exists: percentages from
    /// the first reading, rates still 0.
    pub open spec fn seeded_from(self, initial: MetricSnapshot) -> bool {
        &&& self.memory_percent_bp == percent_bp_spec(
            initial.memory_used_bytes,
            initial.memory_total_bytes,
        )
        &&& self.swap_percent_bp == percent_bp_spec(
            initial.swap_used_bytes,
            initial.swap_total_bytes,
        )
        &&& self.download_kbps_e7 == 0
        &&& self.upload_kbps_e7 == 0
    }

    /// Derives all metrics from the previous network counters, the current
    /// reading, and the elapsed wall time in milliseconds.
    pub fn derive(prev_rx: u64, prev_tx: u64, cur: &MetricSnapshot, elapsed_ms: u64) -> (d:
        DerivedMetrics)
        ensures
            d.derived_from(prev_rx, prev_tx, *cur, elapsed_ms),
    {
        DerivedMetrics {
            memory_percent_bp: percent_bp(cur.memory_used_bytes, cur.memory_total_bytes),
            swap_percent_bp: percent_bp(cur.swap_used_bytes, cur.swap_total_bytes),
            download_kbps_e7: rate_kbps_e7(
                counter_delta(cur.network_rx_total_bytes, prev_rx),
                elapsed_ms,
            ),
            upload_kbps_e7: rate_kbps_e7(
                counter_delta(cur.network_tx_total_bytes, prev_tx),
                elapsed_ms,
            ),
        }
    }

    /// Metrics seeded from the very first reading: percentages are already
    /// meaningful, rates start at 0 because no interval has elapsed yet.
    pub fn seed(initial: &MetricSnapshot) -> (d: DerivedMetrics)
        ensures
            d.seeded_from(*initial),
    {
        DerivedMetrics {
            memory_percent_bp: percent_bp(initial.memory_used_bytes, initial.memory_total_bytes),
            swap_percent_bp: percent_bp(initial.swap_used_bytes, initial.swap_total_bytes),
            download_kbps_e7: 0,
            upload_kbps_e7: 0,
        }
    }
}

/// The mathematical sum of the received-byte counters of a list of
/// per-interface `(received, transmitted)` pairs.
pub open spec fn sum_rx(ifaces: Seq<(u64, u64)>) -> int
    decreases ifaces.len(),
{
    if ifaces.len() == 0 {
        0
    } else {
        sum_rx(ifaces.drop_last()) + ifaces.last().0
    }
}

/// The mathematical sum of the transmitted-byte counters.
pub open spec fn sum_tx(ifaces: Seq<(u64, u64)>) -> int
    decreases ifaces.len(),
{
    if ifaces.len() == 0 {
        0
    } else {
        sum_tx(ifaces.drop_last()) + ifaces.last().1
    }
}

/// An integer sum clamped to what a `u64` can hold.
pub open spec fn clamp_u64(x: int) -> int {
    if x > u64::MAX {
        u64::MAX as int
    } else {
        x
    }
}

/// Sums the cumulative `(received, transmitted)` byte counters of all network
/// interfaces into one pair of totals, saturating at `u64::MAX`.
pub fn total_network_counters(ifaces: &Vec<(u64, u64)>) -> (totals: (u64, u64))
    ensures
        totals.0 == clamp_u64(sum_rx(ifaces@)),
        totals.1 == clamp_u64(sum_tx(ifaces@)),
{
    let mut rx: u64 = 0;
    let mut tx: u64 = 0;
    let mut i: usize = 0;
    while i < ifaces.len()
        invariant
            i <= ifaces.len(),
            rx == clamp_u64(sum_rx(ifaces@.take(i as int))),
            tx == clamp_u64(sum_tx(ifaces@.take(i as int))),
        decreases ifaces.len() - i,
    {
        let (r, t) = ifaces[i];
        proof {
            assert(ifaces@.take(i + 1 as int).drop_last() =~= ifaces@.take(i as int));
            assert(ifaces@.take(i + 1 as int).last() == ifaces@[i as int]);
        }
        rx = if rx <= u64::MAX - r {
            rx + r
        } else {
            u64::MAX
        };
        tx = if tx <= u64::MAX - t {
            tx + t
        } else {
            u64::MAX
        };
        i = i + 1;
    }
    proof {
        assert(ifaces@.take(ifaces@.len() as int) =~= ifaces@);
    }
    (rx, tx)
}

/// A zero total derives a percentage of 0 — never a division error, for any
/// `used` value.
pub proof fn lemma_zero_total_percent_is_zero(used: u64)
    ensures
        percent_bp_spec(used, 0) == 0,
{
}

/// After a counter reset (the current cumulative counter is below the
/// previous one) the derived rate is exactly 0, never negative, whatever the
/// elapsed time.
pub proof fn lemma_counter_reset_rate_is_zero(now: u64, prev: u64, elapsed_ms: u64)
    requires
        now < prev,
    ensures
        counter_delta_spec(now, prev) == 0,
        rate_kbps_e7_spec(counter_delta_spec(now, prev) as u64, elapsed_ms) == 0,
{
}

/// Every derivable rate is non-negative: the rate formula never goes below 0
/// for any delta and elapsed time.
pub proof fn lemma_rate_nonnegative(delta_bytes: u64, elapsed_ms: u64)
    ensures
        rate_kbps_e7_spec(delta_bytes, elapsed_ms) >= 0,
{
}

} // verus!
