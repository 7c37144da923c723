use vstd::prelude::*;

use crate::window::{
    PollRecord, ReadStatus, STALL_INTERVAL_MS, WindowEvent, WindowPolicy, count_after, counted,
    events, rate_per_second, step, verdict,
};

verus! {

/// Whether every window that a timer firing closes in `polls` saw at least one
/// byte; `seen` says whether the window open before the first attempt already did.
pub open spec fn windows_deliver(seen: bool, polls: Seq<PollRecord>) -> bool
    decreases polls.len(),
{
    if polls.len() == 0 {
        true
    } else {
        let seen_now = seen || polls[0].delta > 0;
        (polls[0].ticked ==> seen_now) && windows_deliver(
            if polls[0].ticked {
                false
            } else {
                seen_now
            },
            polls.skip(1),
        )
    }
}

proof fn lemma_events_len(policy: WindowPolicy, count: int, polls: Seq<PollRecord>)
    ensures
        events(policy, count, polls).len() == polls.len(),
    decreases polls.len(),
{
    if polls.len() > 0 {
        lemma_events_len(policy, step(policy, count, polls[0]).0, polls.skip(1));
    }
}

proof fn lemma_delivering_run_forwards(count: int, seen: bool, polls: Seq<PollRecord>)
    requires
        0 <= count <= u64::MAX,
        (count > 0) == seen,
        windows_deliver(seen, polls),
    ensures
        forall|i: int|
            0 <= i < polls.len() ==> events(WindowPolicy::AbortOnStall, count, polls)[i]
                == WindowEvent::Forward,
    decreases polls.len(),
{
    if polls.len() > 0 {
        let p = polls[0];
        let (next, e) = step(WindowPolicy::AbortOnStall, count, p);
        let seen_now = seen || p.delta > 0;
        let next_seen = if p.ticked {
            false
        } else {
            seen_now
        };
        lemma_delivering_run_forwards(next, next_seen, polls.skip(1));
        lemma_events_len(WindowPolicy::AbortOnStall, next, polls.skip(1));
        let rest = events(WindowPolicy::AbortOnStall, next, polls.skip(1));
        assert(events(WindowPolicy::AbortOnStall, count, polls) == seq![e].add(rest));
        assert forall|i: int| 0 <= i < polls.len() implies events(
            WindowPolicy::AbortOnStall,
            count,
            polls,
        )[i] == WindowEvent::Forward by {
            if i > 0 {
                assert(events(WindowPolicy::AbortOnStall, count, polls)[i] == rest[i - 1]);
            }
        }
    }
}

/// A stall monitor over a source that delivers at least one byte in every
/// window never fails a read: every attempt hands the inner result back
/// unchanged, however long the run.
pub proof fn lemma_no_false_stall(polls: Seq<PollRecord>)
    requires
        windows_deliver(false, polls),
    ensures
        forall|i: int|
            0 <= i < polls.len() ==> events(WindowPolicy::AbortOnStall, 0, polls)[i]
                == WindowEvent::Forward,
{
    lemma_delivering_run_forwards(0, false, polls);
}

/// A progress monitor never changes what a read returns: on any run every
/// event hands the inner result back, reporting at most a rate beside it.
pub proof fn lemma_progress_transparent(count: int, polls: Seq<PollRecord>)
    ensures
        forall|i: int|
            0 <= i < polls.len() ==> events(WindowPolicy::Report, count, polls)[i]
                != WindowEvent::Stalled,
    decreases polls.len(),
{
    if polls.len() > 0 {
        let (next, e) = step(WindowPolicy::Report, count, polls[0]);
        lemma_progress_transparent(next, polls.skip(1));
        lemma_events_len(WindowPolicy::Report, next, polls.skip(1));
        let rest = events(WindowPolicy::Report, next, polls.skip(1));
        assert(events(WindowPolicy::Report, count, polls) == seq![e].add(rest));
        assert forall|i: int| 0 <= i < polls.len() implies events(
            WindowPolicy::Report,
            count,
            polls,
        )[i] != WindowEvent::Stalled by {
            if i > 0 {
                assert(events(WindowPolicy::Report, count, polls)[i] == rest[i - 1]);
            }
        }
    }
}

/// After any run that ends on a timer firing, the counter is zero.
pub proof fn lemma_counter_reset(policy: WindowPolicy, count: int, polls: Seq<PollRecord>)
    requires
        polls.len() > 0,
        polls.last().ticked,
    ensures
        count_after(policy, count, polls) == 0,
    decreases polls.len(),
{
    if polls.len() > 1 {
        let next = step(policy, count, polls[0]).0;
        assert(polls.skip(1).last() == polls.last());
        lemma_counter_reset(policy, next, polls.skip(1));
    } else {
        assert(count_after(policy, 0, polls.skip(1)) == 0);
    }
}

/// A progress window that closes with `n` bytes reports exactly `n * 10` bytes
/// per second.
pub proof fn lemma_report_rate(n: u64, status: ReadStatus)
    ensures
        verdict(WindowPolicy::Report, n as int, status) == WindowEvent::Report((n * 10) as u128),
        rate_per_second(n as int) == n * 10,
{
}

/// The end of the stream is never taken for a stall: a read that ends the
/// stream is handed back unchanged, whatever the window counted.
pub proof fn lemma_end_of_stream_forwards(count: int, delta: nat, ticked: bool)
    ensures
        step(
            WindowPolicy::AbortOnStall,
            count,
            PollRecord { status: ReadStatus::EndOfStream, delta, ticked },
        ).1 == WindowEvent::Forward,
{
}

/// Time after construction, in milliseconds, at which the stall timer fires
/// for the `k`-th time (counting from zero).
pub open spec fn stall_tick_ms(k: nat) -> int {
    STALL_INTERVAL_MS * (k + 1)
}

/// Start of the window that the `k`-th firing closes.
pub open spec fn stall_window_start_ms(k: nat) -> int {
    STALL_INTERVAL_MS * k
}

/// The first window that holds no time after the last byte, which came
/// `last_ms` after construction.
pub open spec fn first_quiet_window(last_ms: nat) -> nat {
    if last_ms == 0 {
        1
    } else {
        ((last_ms - 1) as nat / STALL_INTERVAL_MS as nat + 1) as nat
    }
}

/// A source that delivers steadily and stops for good after `last_ms`: every
/// window before the first quiet one was open while data still came, the quiet
/// one sees no byte and so fails the read, and its firing comes at least one
/// and at most two windows after the last byte.
pub proof fn lemma_stall_detection_bound(last_ms: nat, status: ReadStatus)
    requires
        status != ReadStatus::EndOfStream,
    ensures
        stall_window_start_ms(first_quiet_window(last_ms)) >= last_ms,
        forall|j: nat|
            j < first_quiet_window(last_ms) ==> j == 0 || stall_window_start_ms(j) < last_ms,
        STALL_INTERVAL_MS <= stall_tick_ms(first_quiet_window(last_ms)) - last_ms <= 2
            * STALL_INTERVAL_MS,
        step(
            WindowPolicy::AbortOnStall,
            0,
            PollRecord { status, delta: 0, ticked: true },
        ).1 == WindowEvent::Stalled,
{
    let k = first_quiet_window(last_ms);
    if last_ms > 0 {
        let q = ((last_ms - 1) as nat / 5000) as int;
        assert(q * 5000 <= last_ms - 1 < q * 5000 + 5000);
    }
    assert(counted(0, 0) == 0);
}

} // verus!
