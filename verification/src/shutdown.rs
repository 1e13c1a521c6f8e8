//! Coordinated shutdown: after the shutdown broadcast, the orchestrator
//! waits on each unit in turn under an escalating policy — a warning
//! once the wait exceeds one second, giving up at three seconds — so the
//! whole teardown is bounded and the process always terminates. The exit
//! code reports whether every unit acknowledged in time.

use vstd::prelude::*;

verus! {

/// Milliseconds of waiting on one unit before the supervisor warns that
/// its shutdown takes longer than expected.
pub const WARN_AFTER_MS: u64 = 1000;

/// Milliseconds of total waiting on one unit after which the supervisor
/// marks its shutdown unsuccessful and moves on.
pub const GIVE_UP_AFTER_MS: u64 = 3000;

/// How long the supervisor waits on one unit and whether that unit's
/// shutdown counts as successful, given when (if ever) the unit's
/// status turns terminal: it waits until the terminal status or the
/// give-up bound, whichever comes first.
pub open spec fn spec_unit_wait(terminal_after_ms: Option<u64>) -> (u64, bool) {
    match terminal_after_ms {
        Some(t) => if t <= GIVE_UP_AFTER_MS {
            (t, true)
        } else {
            (GIVE_UP_AFTER_MS, false)
        },
        None => (GIVE_UP_AFTER_MS, false),
    }
}

/// Wait on one unit: `terminal_after_ms` is when the unit's status cell
/// turns terminal, or `None` for a unit that never observes its
/// cancellation signal. Returns the time spent waiting and whether the
/// unit shut down within the bound.
pub fn unit_wait(terminal_after_ms: Option<u64>) -> (r: (u64, bool))
    ensures
        r == spec_unit_wait(terminal_after_ms),
        r.0 <= GIVE_UP_AFTER_MS,
{
    match terminal_after_ms {
        Some(t) => if t <= GIVE_UP_AFTER_MS {
            (t, true)
        } else {
            (GIVE_UP_AFTER_MS, false)
        },
        None => (GIVE_UP_AFTER_MS, false),
    }
}

/// Total time the supervisor spends waiting over a fleet of units.
pub open spec fn spec_total_wait(ts: Seq<Option<u64>>) -> nat
    decreases ts.len(),
{
    if ts.len() == 0 {
        0
    } else {
        (spec_unit_wait(ts[0]).0 + spec_total_wait(ts.drop_first())) as nat
    }
}

/// Whether every unit's shutdown was acknowledged within the bound.
pub open spec fn spec_all_in_time(ts: Seq<Option<u64>>) -> bool {
    forall|j: int| 0 <= j < ts.len() ==> (#[trigger] spec_unit_wait(ts[j])).1
}

/// Appending one unit extends the total wait by that unit's wait.
proof fn lemma_total_wait_push(ts: Seq<Option<u64>>, x: Option<u64>)
    ensures
        spec_total_wait(ts.push(x)) == spec_total_wait(ts) + spec_unit_wait(x).0,
    decreases ts.len(),
{
    if ts.len() == 0 {
        assert(ts.push(x).drop_first() =~= Seq::<Option<u64>>::empty());
        assert(spec_total_wait(ts.push(x)) == spec_unit_wait(ts.push(x)[0]).0
            + spec_total_wait(ts.push(x).drop_first()));
    } else {
        lemma_total_wait_push(ts.drop_first(), x);
        assert(ts.push(x)[0] == ts[0]);
        assert(ts.push(x).drop_first() =~= ts.drop_first().push(x));
    }
}

/// What the shutdown supervision of the whole fleet reports.
#[derive(Debug, Clone, Copy, PartialEq, Eq, Structural)]
pub struct ShutdownReport {
    /// Total milliseconds spent waiting across all units.
    pub total_wait_ms: u64,
    /// Whether every unit acknowledged its shutdown within the bound.
    pub all_in_time: bool,
    /// Process exit code: zero exactly when every unit made the bound.
    pub exit_code: i32,
}

/// Supervise the fleet's shutdown: wait on each unit in turn under the
/// escalating policy, and report the total wait and the process exit
/// code — zero when every unit acknowledged in time, negative one
/// otherwise.
pub fn supervise_shutdown(terminal_after_ms: &Vec<Option<u64>>) -> (r: ShutdownReport)
    requires
        terminal_after_ms@.len() <= u32::MAX,
    ensures
        r.total_wait_ms == spec_total_wait(terminal_after_ms@),
        r.all_in_time == spec_all_in_time(terminal_after_ms@),
        r.exit_code == if r.all_in_time {
            0int
        } else {
            -1int
        },
{
    let n = terminal_after_ms.len();
    let mut total: u64 = 0;
    let mut all_ok = true;
    let mut i: usize = 0;
    while i < n
        invariant
            n == terminal_after_ms@.len(),
            n <= u32::MAX,
            i <= n,
            total == spec_total_wait(terminal_after_ms@.subrange(0, i as int)),
            total <= i * GIVE_UP_AFTER_MS,
            all_ok == spec_all_in_time(terminal_after_ms@.subrange(0, i as int)),
        decreases n - i,
    {
        let (waited, ok) = unit_wait(terminal_after_ms[i]);
        proof {
            lemma_total_wait_push(
                terminal_after_ms@.subrange(0, i as int),
                terminal_after_ms@[i as int],
            );
            assert(terminal_after_ms@.subrange(0, i as int).push(terminal_after_ms@[i as int])
                =~= terminal_after_ms@.subrange(0, i as int + 1));
            assert((i + 1) * GIVE_UP_AFTER_MS == i * GIVE_UP_AFTER_MS + GIVE_UP_AFTER_MS)
                by (nonlinear_arith);
        }
        total = total + waited;
        all_ok = all_ok && ok;
        i = i + 1;
        proof {
            let pre = terminal_after_ms@.subrange(0, i - 1);
            let cur = terminal_after_ms@.subrange(0, i as int);
            assert(forall|j: int| 0 <= j < i - 1 ==> cur[j] == pre[j]);
            assert(cur[i - 1] == terminal_after_ms@[i - 1]);
            if all_ok {
                assert forall|j: int| 0 <= j < cur.len() implies (#[trigger] spec_unit_wait(
                    cur[j],
                )).1 by {
                    if j < i - 1 {
                        assert(spec_unit_wait(pre[j]).1);
                    }
                }
            } else {
                if !spec_all_in_time(pre) {
                    assert(exists|j: int| 0 <= j < pre.len() && !(#[trigger] spec_unit_wait(
                        pre[j],
                    )).1);
                    let j = choose|j: int|
                        0 <= j < pre.len() && !(#[trigger] spec_unit_wait(pre[j])).1;
                    assert(!spec_unit_wait(cur[j]).1);
                } else {
                    assert(!spec_unit_wait(cur[i - 1]).1);
                }
            }
        }
    }
    proof {
        assert(terminal_after_ms@.subrange(0, n as int) =~= terminal_after_ms@);
    }
    ShutdownReport {
        total_wait_ms: total,
        all_in_time: all_ok,
        exit_code: if all_ok {
            0
        } else {
            -1
        },
    }
}

/// Shutdown bound: however the units behave — even when some never
/// observe their cancellation signal — the supervisor's total wait
/// stays within the give-up bound per unit, so the teardown always
/// terminates. A run counts as fully acknowledged exactly when every
/// unit turned terminal within the give-up bound, and so (by
/// `supervise_shutdown`'s contract) the exit code is zero exactly
/// then; in particular a unit that never turns terminal forces a
/// non-zero exit code.
pub proof fn lemma_shutdown_bound(ts: Seq<Option<u64>>)
    ensures
        spec_total_wait(ts) <= ts.len() * GIVE_UP_AFTER_MS,
        spec_all_in_time(ts) <==> (forall|j: int|
            #![trigger ts[j]]
            0 <= j < ts.len() ==> (ts[j] is Some && ts[j]->0 <= GIVE_UP_AFTER_MS)),
        (exists|j: int| 0 <= j < ts.len() && ts[j] is None) ==> !spec_all_in_time(ts),
    decreases ts.len(),
{
    if ts.len() == 0 {
    } else {
        lemma_shutdown_bound(ts.drop_first());
        assert(ts.len() * GIVE_UP_AFTER_MS == (ts.len() - 1) * GIVE_UP_AFTER_MS
            + GIVE_UP_AFTER_MS) by (nonlinear_arith);
    }
    if spec_all_in_time(ts) {
        assert forall|j: int| 0 <= j < ts.len() implies #[trigger] ts[j] is Some && ts[j]->0
            <= GIVE_UP_AFTER_MS by {
            assert(spec_unit_wait(ts[j]).1);
        }
    }
    if forall|j: int| #![trigger ts[j]] 0 <= j < ts.len() ==> (ts[j] is Some && ts[j]->0
        <= GIVE_UP_AFTER_MS) {
        assert forall|j: int| 0 <= j < ts.len() implies (#[trigger] spec_unit_wait(ts[j])).1 by {
            assert(ts[j] is Some && ts[j]->0 <= GIVE_UP_AFTER_MS);
        }
    }
    if exists|j: int| 0 <= j < ts.len() && ts[j] is None {
        let j = choose|j: int| 0 <= j < ts.len() && ts[j] is None;
        assert(!spec_unit_wait(ts[j]).1);
    }
}

/// The failure taxonomy of the host process.
#[derive(Debug, Clone, Copy, PartialEq, Eq, Structural)]
pub enum FailureKind {
    /// A service failed to initialize; never recovered.
    FatalInit,
    /// Connection establishment or handshake failed; surfaced to the
    /// caller, which decides whether to retry.
    Transport,
    /// An unknown opcode or malformed frame on one request stream.
    ProtocolDecode,
    /// A service's run phase returned an error after a successful init.
    RunFailure,
    /// A service did not acknowledge cancellation within the bound.
    ShutdownTimeout,
}

impl FailureKind {
    /// Only a fatal initialization failure terminates the process at
    /// once: a misconfigured subsystem must not run partially
    /// initialized.
    pub fn halts_process_immediately(self) -> (r: bool)
        ensures
            r == (self is FatalInit),
    {
        match self {
            FailureKind::FatalInit => true,
            _ => false,
        }
    }

    /// A protocol decode error aborts only the offending request
    /// stream; the connection and the listener keep running.
    pub fn aborts_only_one_request(self) -> (r: bool)
        ensures
            r == (self is ProtocolDecode),
    {
        match self {
            FailureKind::ProtocolDecode => true,
            _ => false,
        }
    }

    /// Whether this failure makes the final process exit code non-zero:
    /// a fatal initialization failure or a shutdown that exceeded the
    /// escalation bound.
    pub fn taints_exit_code(self) -> (r: bool)
        ensures
            r == (self is FatalInit || self is ShutdownTimeout),
    {
        match self {
            FailureKind::FatalInit => true,
            FailureKind::ShutdownTimeout => true,
            _ => false,
        }
    }
}

} // verus!
