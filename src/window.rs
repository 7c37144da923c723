use vstd::prelude::*;

verus! {

/// Length of a progress-reporting window, in milliseconds.
pub const PROGRESS_INTERVAL_MS: u64 = 100;

/// Length of a stall-detection window, in milliseconds; the first window
/// closes this long after the monitor is built.
pub const STALL_INTERVAL_MS: u64 = 5000;

/// What a monitor does when one of its windows closes.
#[derive(Debug, Clone, Copy, PartialEq, Eq, Structural)]
pub enum WindowPolicy {
    /// Report the window's throughput, in bytes per second.
    Report,
    /// Fail the read when the window saw no bytes.
    AbortOnStall,
}

/// What the wrapped source did on one read attempt.
#[derive(Debug, Clone, Copy, PartialEq, Eq, Structural)]
pub enum ReadStatus {
    /// Not ready yet; the caller will be woken and poll again.
    Pending,
    /// Ready, with at least one new byte in the buffer.
    Filled,
    /// Ready, with no new byte and no error: the end of the stream.
    EndOfStream,
    /// Ready, with an error of the source.
    Failed,
}

/// What a monitor does with the inner read's result.
#[derive(Debug, Clone, Copy, PartialEq, Eq, Structural)]
pub enum WindowEvent {
    /// Hand the inner result back unchanged.
    Forward,
    /// Hand the inner result back unchanged, and report this rate in bytes per second.
    Report(u128),
    /// Replace the inner result by a timed-out failure caused by a stall.
    Stalled,
}

/// Bytes per second for a count observed over one progress window.
pub open spec fn rate_per_second(count: int) -> int {
    count * (1000int / PROGRESS_INTERVAL_MS as int)
}

/// The counter after adding `delta` bytes, pinned at the largest `u64`.
pub open spec fn counted(count: int, delta: int) -> int {
    if count + delta > u64::MAX {
        u64::MAX as int
    } else {
        count + delta
    }
}

/// What a window that closes with `count` bytes leads to.
pub open spec fn verdict(policy: WindowPolicy, count: int, status: ReadStatus) -> WindowEvent {
    match policy {
        WindowPolicy::Report => WindowEvent::Report(rate_per_second(count) as u128),
        WindowPolicy::AbortOnStall => if count == 0 && status != ReadStatus::EndOfStream {
            WindowEvent::Stalled
        } else {
            WindowEvent::Forward
        },
    }
}

/// One read attempt as a monitor sees it: the source's status, the bytes it
/// added to the buffer, and whether the window timer fired since the last check.
pub struct PollRecord {
    pub status: ReadStatus,
    pub delta: nat,
    pub ticked: bool,
}

/// Counter and event after one read attempt, from the counter before it.
pub open spec fn step(policy: WindowPolicy, count: int, p: PollRecord) -> (int, WindowEvent) {
    let total = counted(count, p.delta as int);
    if p.ticked {
        (0, verdict(policy, total, p.status))
    } else {
        (total, WindowEvent::Forward)
    }
}

/// The counter after a run of read attempts.
pub open spec fn count_after(policy: WindowPolicy, count: int, polls: Seq<PollRecord>) -> int
    decreases polls.len(),
{
    if polls.len() == 0 {
        count
    } else {
        count_after(policy, step(policy, count, polls[0]).0, polls.skip(1))
    }
}

/// The events of a run of read attempts, in order.
pub open spec fn events(policy: WindowPolicy, count: int, polls: Seq<PollRecord>) -> Seq<WindowEvent>
    decreases polls.len(),
{
    if polls.len() == 0 {
        Seq::empty()
    } else {
        let (next, e) = step(policy, count, polls[0]);
        seq![e].add(events(policy, next, polls.skip(1)))
    }
}

impl ReadStatus {
    /// Classifies a read attempt from whether it was ready, whether it failed,
    /// and the buffer's filled length before and after it.
    pub fn classify(ready: bool, failed: bool, filled_before: usize, filled_after: usize) -> (r: ReadStatus)
        ensures
            !ready ==> r == ReadStatus::Pending,
            ready && failed ==> r == ReadStatus::Failed,
            ready && !failed && filled_after > filled_before ==> r == ReadStatus::Filled,
            ready && !failed && filled_after <= filled_before ==> r == ReadStatus::EndOfStream,
    {
        if !ready {
            ReadStatus::Pending
        } else if failed {
            ReadStatus::Failed
        } else if filled_after > filled_before {
            ReadStatus::Filled
        } else {
            ReadStatus::EndOfStream
        }
    }
}

/// The windowed byte counter shared by the progress and stall monitors.
pub struct ByteWindow {
    pub policy: WindowPolicy,
    pub interval_bytes: u64,
}

impl ByteWindow {
    /// A counter for progress reports, empty.
    pub fn progress() -> (r: ByteWindow)
        ensures
            r.policy == WindowPolicy::Report,
            r.interval_bytes == 0,
    {
        ByteWindow { policy: WindowPolicy::Report, interval_bytes: 0 }
    }

    /// A counter for stall detection, empty.
    pub fn stall() -> (r: ByteWindow)
        ensures
            r.policy == WindowPolicy::AbortOnStall,
            r.interval_bytes == 0,
    {
        ByteWindow { policy: WindowPolicy::AbortOnStall, interval_bytes: 0 }
    }

    /// The window's length in milliseconds.
    pub fn interval_ms(&self) -> (r: u64)
        ensures
            self.policy == WindowPolicy::Report ==> r == PROGRESS_INTERVAL_MS,
            self.policy == WindowPolicy::AbortOnStall ==> r == STALL_INTERVAL_MS,
    {
        match self.policy {
            WindowPolicy::Report => PROGRESS_INTERVAL_MS,
            WindowPolicy::AbortOnStall => STALL_INTERVAL_MS,
        }
    }

    /// Delay from construction to the first firing of the window timer, in
    /// milliseconds: progress fires at once, stall detection a full window later.
    pub fn first_tick_ms(&self) -> (r: u64)
        ensures
            self.policy == WindowPolicy::Report ==> r == 0,
            self.policy == WindowPolicy::AbortOnStall ==> r == STALL_INTERVAL_MS,
    {
        match self.policy {
            WindowPolicy::Report => 0,
            WindowPolicy::AbortOnStall => STALL_INTERVAL_MS,
        }
    }

    /// Accounts one read attempt of the inner source and, where the window
    /// timer fired, closes the window: the counter restarts at zero and the
    /// policy decides the event.
    pub fn on_poll(&mut self, status: ReadStatus, filled_before: usize, filled_after: usize, ticked: bool) -> (r: WindowEvent)
        requires
            filled_before <= filled_after,
        ensures
            final(self).policy == old(self).policy,
            (final(self).interval_bytes as int, r) == step(
                old(self).policy,
                old(self).interval_bytes as int,
                PollRecord { status, delta: (filled_after - filled_before) as nat, ticked },
            ),
            ticked ==> final(self).interval_bytes == 0,
    {
        let delta = (filled_after - filled_before) as u64;
        self.interval_bytes = self.interval_bytes.saturating_add(delta);
        if !ticked {
            return WindowEvent::Forward;
        }
        let total = self.interval_bytes;
        self.interval_bytes = 0;
        assert(1000u64 / PROGRESS_INTERVAL_MS == 10);
        assert(total as int * 10 <= u128::MAX) by (nonlinear_arith)
            requires
                total <= u64::MAX,
        ;
        match self.policy {
            WindowPolicy::Report => WindowEvent::Report(
                total as u128 * (1000 / PROGRESS_INTERVAL_MS) as u128,
            ),
            WindowPolicy::AbortOnStall => if total == 0 && status != ReadStatus::EndOfStream {
                WindowEvent::Stalled
            } else {
                WindowEvent::Forward
            },
        }
    }
}

} // verus!
