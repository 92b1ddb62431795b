//! The monitor's state: current and previous readings, derived metrics, the
//! bounded CPU history, the display mode, and the clock color selection —
//! together with the per-tick decisions of the refresh loop: elapsed-time
//! gating, mode-appropriate refresh, viewport resizes, and input handling.

use vstd::prelude::*;

verus! {

use crate::color::ClockColorSelection;
use crate::history::CpuHistory;
use crate::history::DEFAULT_HISTORY_CAPACITY;
use crate::metrics::DerivedMetrics;
use crate::metrics::MetricSnapshot;

/// Which view the dashboard shows: the performance gauges or the large clock.
#[derive(Clone, Copy, Debug, PartialEq, Eq, Structural)]
pub enum Mode {
    Perf,
    Clock,
}

/// The other mode: what one switch action selects.
pub open spec fn toggled(m: Mode) -> Mode {
    match m {
        Mode::Perf => Mode::Clock,
        Mode::Clock => Mode::Perf,
    }
}

/// A user input, already decoded from the terminal event stream.
#[derive(Clone, Copy, Debug, PartialEq, Eq, Structural)]
pub enum InputEvent {
    Quit,
    SwitchMode,
    PrevColor,
    NextColor,
    Other,
}

/// What the loop does after an input is handled.
#[derive(Clone, Copy, Debug, PartialEq, Eq, Structural)]
pub enum LoopAction {
    Continue,
    Exit,
}

/// The single owned state object the refresh loop threads through every
/// tick. Timestamps are wall-clock milliseconds from a monotonic origin.
pub struct Monitor {
    pub snapshot: MetricSnapshot,
    pub derived: DerivedMetrics,
    pub history: CpuHistory,
    pub mode: Mode,
    pub color: ClockColorSelection,
    pub prev_rx_total: u64,
    pub prev_tx_total: u64,
    pub last_update_ms: u64,
    pub refresh_interval_ms: u64,
}

impl Monitor {
    /// The monitor invariant: its history and color selection are well
    /// formed.
    pub open spec fn wf(&self) -> bool {
        &&& self.history.wf()
        &&& self.color.wf()
    }

    /// Whether a refresh is owed at `now_ms`: the configured interval has
    /// elapsed since the last update. A clock that appears to have moved
    /// backwards is never due.
    pub open spec fn refresh_due_spec(self, now_ms: u64) -> bool {
        now_ms >= self.last_update_ms && now_ms - self.last_update_ms >= self.refresh_interval_ms
    }

    /// Everything but the given monitor's identity: both monitors hold the
    /// same state, field for field.
    pub open spec fn unchanged(pre: Monitor, post: Monitor) -> bool {
        &&& post.snapshot == pre.snapshot
        &&& post.derived == pre.derived
        &&& post.history@ =~= pre.history@
        &&& post.history.capacity() == pre.history.capacity()
        &&& post.mode == pre.mode
        &&& post.color.index_spec() == pre.color.index_spec()
        &&& post.prev_rx_total == pre.prev_rx_total
        &&& post.prev_tx_total == pre.prev_tx_total
        &&& post.last_update_ms == pre.last_update_ms
        &&& post.refresh_interval_ms == pre.refresh_interval_ms
    }

    /// Seeds the monitor from the very first sensor reading: previous equals
    /// current, rates are 0, the history holds its default capacity of
    /// zero-valued samples, and the dashboard starts in the performance view
    /// with the first palette color.
    pub fn new(refresh_interval_ms: u64, initial: MetricSnapshot, now_ms: u64) -> (m: Monitor)
        ensures
            m.wf(),
            m.snapshot == initial,
            m.derived.seeded_from(initial),
            m.history.capacity() == DEFAULT_HISTORY_CAPACITY,
            m.history@ =~= Seq::new(DEFAULT_HISTORY_CAPACITY as nat, |i: int| 0u64),
            m.mode == Mode::Perf,
            m.color.index_spec() == 0,
            m.prev_rx_total == initial.network_rx_total_bytes,
            m.prev_tx_total == initial.network_tx_total_bytes,
            m.last_update_ms == now_ms,
            m.refresh_interval_ms == refresh_interval_ms,
    {
        Monitor {
            snapshot: initial,
            derived: DerivedMetrics::seed(&initial),
            history: CpuHistory::new(DEFAULT_HISTORY_CAPACITY),
            mode: Mode::Perf,
            color: ClockColorSelection::new(),
            prev_rx_total: initial.network_rx_total_bytes,
            prev_tx_total: initial.network_tx_total_bytes,
            last_update_ms: now_ms,
            refresh_interval_ms,
        }
    }

    /// Whether the loop should take a new sensor reading this tick.
    pub fn refresh_due(&self, now_ms: u64) -> (due: bool)
        ensures
            due == self.refresh_due_spec(now_ms),
    {
        now_ms >= self.last_update_ms && now_ms - self.last_update_ms >= self.refresh_interval_ms
    }

    /// The full refresh: a no-op unless the interval has elapsed. When due,
    /// derives all metrics over the *actual* elapsed wall time (so timer
    /// drift does not bias the rates), prepends the truncated CPU percent to
    /// the history, stores the reading and its counters, and restarts the
    /// interval at `now_ms`.
    pub fn maybe_refresh(&mut self, now_ms: u64, reading: MetricSnapshot)
        requires
            old(self).wf(),
        ensures
            final(self).wf(),
            !old(self).refresh_due_spec(now_ms) ==> Self::unchanged(*old(self), *final(self)),
            old(self).refresh_due_spec(now_ms) ==> {
                &&& final(self).snapshot == reading
                &&& final(self).derived.derived_from(
                    old(self).prev_rx_total,
                    old(self).prev_tx_total,
                    reading,
                    (now_ms - old(self).last_update_ms) as u64,
                )
                &&& final(self).history@ =~= CpuHistory::recorded(
                    old(self).history@,
                    (reading.cpu_centi_percent / 100) as u64,
                    old(self).history.capacity(),
                )
                &&& final(self).history.capacity() == old(self).history.capacity()
                &&& final(self).prev_rx_total == reading.network_rx_total_bytes
                &&& final(self).prev_tx_total == reading.network_tx_total_bytes
                &&& final(self).last_update_ms == now_ms
                &&& final(self).mode == old(self).mode
                &&& final(self).color.index_spec() == old(self).color.index_spec()
                &&& final(self).refresh_interval_ms == old(self).refresh_interval_ms
            },
    {
        if now_ms >= self.last_update_ms && now_ms - self.last_update_ms
            >= self.refresh_interval_ms {
            let elapsed_ms = now_ms - self.last_update_ms;
            self.derived = DerivedMetrics::derive(
                self.prev_rx_total,
                self.prev_tx_total,
                &reading,
                elapsed_ms,
            );
            self.history.record((reading.cpu_centi_percent / 100) as u64);
            self.prev_rx_total = reading.network_rx_total_bytes;
            self.prev_tx_total = reading.network_tx_total_bytes;
            self.snapshot = reading;
            self.last_update_ms = now_ms;
        }
    }

    /// The lite refresh used while only the clock is visible: the same
    /// elapsed-time gating, but only the CPU reading and its history entry
    /// are refreshed; derived metrics, counters and the rest of the snapshot
    /// keep their last values.
    pub fn maybe_refresh_lite(&mut self, now_ms: u64, cpu_centi_percent: u32)
        requires
            old(self).wf(),
        ensures
            final(self).wf(),
            !old(self).refresh_due_spec(now_ms) ==> Self::unchanged(*old(self), *final(self)),
            old(self).refresh_due_spec(now_ms) ==> {
                &&& final(self).snapshot == (MetricSnapshot {
                    cpu_centi_percent,
                    ..old(self).snapshot
                })
                &&& final(self).derived == old(self).derived
                &&& final(self).history@ =~= CpuHistory::recorded(
                    old(self).history@,
                    (cpu_centi_percent / 100) as u64,
                    old(self).history.capacity(),
                )
                &&& final(self).history.capacity() == old(self).history.capacity()
                &&& final(self).prev_rx_total == old(self).prev_rx_total
                &&& final(self).prev_tx_total == old(self).prev_tx_total
                &&& final(self).last_update_ms == now_ms
                &&& final(self).mode == old(self).mode
                &&& final(self).color.index_spec() == old(self).color.index_spec()
                &&& final(self).refresh_interval_ms == old(self).refresh_interval_ms
            },
    {
        if now_ms >= self.last_update_ms && now_ms - self.last_update_ms
            >= self.refresh_interval_ms {
            self.snapshot.cpu_centi_percent = cpu_centi_percent;
            self.history.record((cpu_centi_percent / 100) as u64);
            self.last_update_ms = now_ms;
        }
    }

    /// Re-bounds the CPU history to the viewport width, called at the start
    /// of a render pass whenever the width changed. Only the history is
    /// touched.
    pub fn resize_history(&mut self, width: usize)
        requires
            old(self).wf(),
        ensures
            final(self).wf(),
            final(self).history.capacity() == width,
            final(self).history@ =~= if old(self).history@.len() <= width {
                old(self).history@
            } else {
                old(self).history@.take(width as int)
            },
            final(self).snapshot == old(self).snapshot,
            final(self).derived == old(self).derived,
            final(self).mode == old(self).mode,
            final(self).color.index_spec() == old(self).color.index_spec(),
            final(self).prev_rx_total == old(self).prev_rx_total,
            final(self).prev_tx_total == old(self).prev_tx_total,
            final(self).last_update_ms == old(self).last_update_ms,
            final(self).refresh_interval_ms == old(self).refresh_interval_ms,
    {
        self.history.resize(width);
    }

    /// Handles one decoded input: quit exits the loop; switching modes
    /// toggles the view and touches nothing else (in particular the CPU
    /// history is preserved across every event); the color keys step the
    /// clock palette, and only while the clock is visible; anything else is
    /// ignored.
    pub fn on_event(&mut self, ev: InputEvent) -> (a: LoopAction)
        requires
            old(self).wf(),
        ensures
            final(self).wf(),
            final(self).history@ =~= old(self).history@,
            final(self).history.capacity() == old(self).history.capacity(),
            final(self).snapshot == old(self).snapshot,
            final(self).derived == old(self).derived,
            final(self).prev_rx_total == old(self).prev_rx_total,
            final(self).prev_tx_total == old(self).prev_tx_total,
            final(self).last_update_ms == old(self).last_update_ms,
            final(self).refresh_interval_ms == old(self).refresh_interval_ms,
            a == (if ev == InputEvent::Quit {
                LoopAction::Exit
            } else {
                LoopAction::Continue
            }),
            ev == InputEvent::Quit ==> Self::unchanged(*old(self), *final(self)),
            ev == InputEvent::Other ==> Self::unchanged(*old(self), *final(self)),
            ev == InputEvent::SwitchMode ==> final(self).mode == toggled(old(self).mode)
                && final(self).color.index_spec() == old(self).color.index_spec(),
            ev == InputEvent::NextColor ==> {
                &&& final(self).mode == old(self).mode
                &&& final(self).color.index_spec() == (if old(self).mode == Mode::Clock {
                    if old(self).color.index_spec() == crate::color::PALETTE_LEN - 1 {
                        0 as int
                    } else {
                        old(self).color.index_spec() + 1
                    }
                } else {
                    old(self).color.index_spec()
                })
            },
            ev == InputEvent::PrevColor ==> {
                &&& final(self).mode == old(self).mode
                &&& final(self).color.index_spec() == (if old(self).mode == Mode::Clock {
                    if old(self).color.index_spec() == 0 {
                        0 as int
                    } else {
                        old(self).color.index_spec() - 1
                    }
                } else {
                    old(self).color.index_spec()
                })
            },
    {
        match ev {
            InputEvent::Quit => LoopAction::Exit,
            InputEvent::SwitchMode => {
                self.mode = match self.mode {
                    Mode::Perf => Mode::Clock,
                    Mode::Clock => Mode::Perf,
                };
                LoopAction::Continue
            },
            InputEvent::NextColor => {
                if self.mode == Mode::Clock {
                    self.color.next();
                }
                LoopAction::Continue
            },
            InputEvent::PrevColor => {
                if self.mode == Mode::Clock {
                    self.color.prev();
                }
                LoopAction::Continue
            },
            InputEvent::Other => LoopAction::Continue,
        }
    }
}

} // verus!
