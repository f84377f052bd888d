//! Memory usage monitoring: counters of timers, tasks, channel depth,
//! processed messages and peak memory, with a health check.

use vstd::prelude::*;
use crate::text::{decimal, join, push_decimal, push_joined, string_views};
use std::sync::atomic::{AtomicU64, Ordering};
use std::sync::Arc;

verus! {

/// Memory usage statistics and monitoring. The counters are shared: a clone
/// of a monitor reads and updates the same counters as the monitor it was
/// cloned from, from any thread.
///
/// The counters are atomics whose values this library does not model, so
/// the methods that read or update them state nothing of the values; the
/// decisions taken on the values read (the health check) are verified on
/// the plain [`MemorySnapshot`].
#[derive(Debug, Clone)]
pub struct MemoryMonitor {
    /// Number of active timers
    pub active_timers: Arc<AtomicU64>,
    /// Number of spawned tasks
    pub active_tasks: Arc<AtomicU64>,
    /// Current channel buffer depth
    pub channel_depth: Arc<AtomicU64>,
    /// Total messages processed
    pub messages_processed: Arc<AtomicU64>,
    /// Peak memory usage (if available)
    pub peak_memory_bytes: Arc<AtomicU64>,
}

/// A snapshot of memory usage metrics at a point in time.
#[derive(Debug, Clone, Copy)]
pub struct MemorySnapshot {
    /// Number of currently active timers
    pub active_timers: u64,
    /// Number of currently active async tasks
    pub active_tasks: u64,
    /// Current message channel buffer depth
    pub channel_depth: u64,
    /// Total number of messages processed since startup
    pub messages_processed: u64,
    /// Peak memory usage recorded in bytes
    pub peak_memory_bytes: u64,
}

/// Health check result for memory usage.
#[derive(Debug, Clone)]
pub struct MemoryHealth {
    /// Whether the memory usage is within healthy thresholds
    pub is_healthy: bool,
    /// List of detected issues if any
    pub issues: Vec<String>,
    /// Current memory usage snapshot
    pub snapshot: MemorySnapshot,
}

impl MemoryMonitor {
    /// Create a new memory monitor, every counter at zero.
    pub fn new() -> (m: Self) {
        MemoryMonitor {
            active_timers: Arc::new(AtomicU64::new(0)),
            active_tasks: Arc::new(AtomicU64::new(0)),
            channel_depth: Arc::new(AtomicU64::new(0)),
            messages_processed: Arc::new(AtomicU64::new(0)),
            peak_memory_bytes: Arc::new(AtomicU64::new(0)),
        }
    }

    /// Increment the timer count (wrapping around at `u64::MAX`).
    pub fn timer_added(&self) {
        self.active_timers.fetch_add(1, Ordering::Relaxed);
    }

    /// Decrement the timer count (wrapping around at zero).
    pub fn timer_removed(&self) {
        self.active_timers.fetch_sub(1, Ordering::Relaxed);
    }

    /// Get the current number of active timers.
    pub fn get_active_timers(&self) -> (n: u64) {
        self.active_timers.load(Ordering::Relaxed)
    }

    /// Increment the task count (wrapping around at `u64::MAX`).
    pub fn task_spawned(&self) {
        self.active_tasks.fetch_add(1, Ordering::Relaxed);
    }

    /// Decrement the task count (wrapping around at zero).
    pub fn task_completed(&self) {
        self.active_tasks.fetch_sub(1, Ordering::Relaxed);
    }

    /// Get the current number of active tasks.
    pub fn get_active_tasks(&self) -> (n: u64) {
        self.active_tasks.load(Ordering::Relaxed)
    }

    /// Update the channel depth.
    pub fn set_channel_depth(&self, depth: u64) {
        self.channel_depth.store(depth, Ordering::Relaxed);
    }

    /// Get the current channel depth.
    pub fn get_channel_depth(&self) -> (n: u64) {
        self.channel_depth.load(Ordering::Relaxed)
    }

    /// Increment the message count (wrapping around at `u64::MAX`).
    pub fn message_processed(&self) {
        self.messages_processed.fetch_add(1, Ordering::Relaxed);
    }

    /// Get the total number of messages processed.
    pub fn get_messages_processed(&self) -> (n: u64) {
        self.messages_processed.load(Ordering::Relaxed)
    }

    /// Update peak memory usage: in one atomic step it becomes `bytes` if
    /// that is above the recorded peak, and stays as it was otherwise.
    pub fn update_peak_memory(&self, bytes: u64) {
        self.peak_memory_bytes.fetch_max(bytes, Ordering::Relaxed);
    }

    /// Get the peak memory usage.
    pub fn get_peak_memory_bytes(&self) -> (n: u64) {
        self.peak_memory_bytes.load(Ordering::Relaxed)
    }

    /// Get a snapshot of all current metrics, each counter read once.
    pub fn snapshot(&self) -> (s: MemorySnapshot) {
        MemorySnapshot {
            active_timers: self.get_active_timers(),
            active_tasks: self.get_active_tasks(),
            channel_depth: self.get_channel_depth(),
            messages_processed: self.get_messages_processed(),
            peak_memory_bytes: self.get_peak_memory_bytes(),
        }
    }

    /// Reset all counters to zero.
    pub fn reset(&self) {
        self.active_timers.store(0, Ordering::Relaxed);
        self.active_tasks.store(0, Ordering::Relaxed);
        self.channel_depth.store(0, Ordering::Relaxed);
        self.messages_processed.store(0, Ordering::Relaxed);
        self.peak_memory_bytes.store(0, Ordering::Relaxed);
    }
}

/// The issue reported for `n` active timers.
pub open spec fn timer_issue(n: u64) -> Seq<char> {
    "High timer count: "@ + decimal(n as nat)
}

/// The issue reported for `n` active tasks.
pub open spec fn task_issue(n: u64) -> Seq<char> {
    "High task count: "@ + decimal(n as nat)
}

/// The issue reported for a channel depth of `n`.
pub open spec fn channel_issue(n: u64) -> Seq<char> {
    "High channel depth: "@ + decimal(n as nat)
}

/// The issues that a health check reports for `s`, in order: more than 100
/// active timers, more than 50 active tasks, a channel depth above 1000.
pub open spec fn health_issues(s: MemorySnapshot) -> Seq<Seq<char>> {
    (if s.active_timers > 100 {
        seq![timer_issue(s.active_timers)]
    } else {
        Seq::empty()
    }) + (if s.active_tasks > 50 {
        seq![task_issue(s.active_tasks)]
    } else {
        Seq::empty()
    }) + (if s.channel_depth > 1000 {
        seq![channel_issue(s.channel_depth)]
    } else {
        Seq::empty()
    })
}

/// A new string holding `prefix` followed by the decimal notation of `n`.
fn labelled_number(prefix: &str, n: u64) -> (s: String)
    ensures
        s@ == prefix@ + decimal(n as nat),
{
    let mut s = String::new();
    s.append(prefix);
    push_decimal(&mut s, n);
    s
}

impl MemorySnapshot {
    /// The health of these metrics: an issue for each threshold exceeded
    /// (more than 100 timers, more than 50 tasks, a channel depth above
    /// 1000), healthy when there is none.
    pub fn health(&self) -> (h: MemoryHealth)
        ensures
            h.snapshot == *self,
            string_views(h.issues@) == health_issues(*self),
            h.is_healthy == (health_issues(*self).len() == 0),
    {
        let snapshot = *self;
        let mut issues: Vec<String> = Vec::new();
        let ghost expected = health_issues(snapshot);
        // Check for excessive timer accumulation
        if snapshot.active_timers > 100 {
            issues.push(labelled_number("High timer count: ", snapshot.active_timers));
        }
        // Check for excessive task accumulation
        if snapshot.active_tasks > 50 {
            issues.push(labelled_number("High task count: ", snapshot.active_tasks));
        }
        // Check for channel backlog
        if snapshot.channel_depth > 1000 {
            issues.push(labelled_number("High channel depth: ", snapshot.channel_depth));
        }
        assert(string_views(issues@) =~= expected);
        MemoryHealth { is_healthy: issues.len() == 0, issues, snapshot }
    }
}

impl MemoryMonitor {
    /// Check if any metrics indicate potential memory issues: the health of
    /// a snapshot of the counters (see [`MemorySnapshot::health`]). The
    /// values read depend on the shared counters, so the contract speaks of
    /// the snapshot that was taken, which the result carries.
    pub fn check_health(&self) -> (h: MemoryHealth)
        ensures
            string_views(h.issues@) == health_issues(h.snapshot),
            h.is_healthy == (health_issues(h.snapshot).len() == 0),
    {
        self.snapshot().health()
    }
}

/// The text of a snapshot.
pub open spec fn snapshot_text(s: MemorySnapshot) -> Seq<char> {
    "Memory Snapshot - Timers: "@ + decimal(s.active_timers as nat) + ", Tasks: "@ + decimal(
        s.active_tasks as nat,
    ) + ", Channel: "@ + decimal(s.channel_depth as nat) + ", Messages: "@ + decimal(
        s.messages_processed as nat,
    ) + ", Peak Memory: "@ + decimal(s.peak_memory_bytes as nat) + " bytes"@
}

/// The text of a health report.
pub open spec fn health_text(h: MemoryHealth) -> Seq<char> {
    if h.is_healthy {
        "Memory Health: HEALTHY\n"@ + snapshot_text(h.snapshot)
    } else {
        "Memory Health: ISSUES DETECTED\nIssues: "@ + join(string_views(h.issues@), ", "@) + "\n"@
            + snapshot_text(h.snapshot)
    }
}

impl MemorySnapshot {
    /// Appends the text of this snapshot to `s`.
    fn write_to(&self, s: &mut String)
        ensures
            final(s)@ == old(s)@ + snapshot_text(*self),
    {
        let ghost base = s@;
        s.append("Memory Snapshot - Timers: ");
        push_decimal(s, self.active_timers);
        s.append(", Tasks: ");
        push_decimal(s, self.active_tasks);
        s.append(", Channel: ");
        push_decimal(s, self.channel_depth);
        s.append(", Messages: ");
        push_decimal(s, self.messages_processed);
        s.append(", Peak Memory: ");
        push_decimal(s, self.peak_memory_bytes);
        s.append(" bytes");
        assert(s@ =~= base + snapshot_text(*self));
    }

    /// The text of this snapshot, for example
    /// `Memory Snapshot - Timers: 1, Tasks: 0, Channel: 0, Messages: 0, Peak Memory: 0 bytes`.
    pub fn to_string(&self) -> (s: String)
        ensures
            s@ == snapshot_text(*self),
    {
        let mut s = String::new();
        self.write_to(&mut s);
        assert(s@ =~= snapshot_text(*self));
        s
    }
}

impl MemoryHealth {
    /// The text of this health report: a `HEALTHY` line or the issues joined
    /// with `", "`, then the snapshot.
    pub fn to_string(&self) -> (s: String)
        ensures
            s@ == health_text(*self),
    {
        let mut s = String::new();
        if self.is_healthy {
            s.append("Memory Health: HEALTHY\n");
        } else {
            s.append("Memory Health: ISSUES DETECTED\nIssues: ");
            push_joined(&mut s, &self.issues, ", ");
            s.append("\n");
        }
        self.snapshot.write_to(&mut s);
        assert(s@ =~= health_text(*self));
        s
    }
}

/// A snapshot is healthy exactly when there are at most 100 active timers, at
/// most 50 active tasks and a channel depth of at most 1000.
pub proof fn law_health_thresholds(s: MemorySnapshot)
    ensures
        (health_issues(s).len() == 0) == (s.active_timers <= 100 && s.active_tasks <= 50
            && s.channel_depth <= 1000),
{
}

impl Default for MemoryMonitor {
    /// A new monitor, see [`MemoryMonitor::new`].
    fn default() -> (m: Self) {
        Self::new()
    }
}

} // verus!
