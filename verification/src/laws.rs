//! Laws of the state machine: proofs that the command transitions keep the
//! record well-formed and behave as the command surface promises.

use vstd::prelude::*;

use crate::timer::PomodoroState;
use crate::timer::spec_expired;
use crate::timer::spec_pause;
use crate::timer::spec_poll;
use crate::timer::spec_reconcile;
use crate::timer::spec_reset;
use crate::timer::spec_set_time;
use crate::timer::spec_snapshot;
use crate::timer::spec_start;

verus! {

/// One foreground command, with the instant it is issued at where the
/// transition reads the clock.
pub enum TimerCommand {
    Start { now: u64 },
    Pause { now: u64 },
    Reset,
}

/// The stored record after one command.
pub open spec fn apply_command(s: PomodoroState, c: TimerCommand) -> PomodoroState {
    match c {
        TimerCommand::Start { now } => spec_start(s, now),
        TimerCommand::Pause { now } => spec_pause(s, now),
        TimerCommand::Reset => spec_reset(s),
    }
}

/// The stored record after a sequence of commands, applied left to right.
pub open spec fn apply_commands(s: PomodoroState, cs: Seq<TimerCommand>) -> PomodoroState
    decreases cs.len(),
{
    if cs.len() == 0 {
        s
    } else {
        apply_command(apply_commands(s, cs.drop_last()), cs.last())
    }
}

/// Each single Start, Pause or Reset keeps the record well-formed; in
/// particular `remaining_seconds <= total_seconds` still holds after it.
pub proof fn lemma_command_preserves_inv(s: PomodoroState, c: TimerCommand)
    requires
        s.inv(),
    ensures
        apply_command(s, c).inv(),
{
}

/// After any sequence of Start, Pause and Reset commands on a well-formed
/// record, the invariant — `remaining_seconds <= total_seconds` among it —
/// holds again, and it held after every prefix of the sequence.
pub proof fn lemma_commands_preserve_inv(s: PomodoroState, cs: Seq<TimerCommand>)
    requires
        s.inv(),
    ensures
        apply_commands(s, cs).inv(),
        forall|i: int| 0 <= i <= cs.len() ==> apply_commands(s, #[trigger] cs.take(i)).inv(),
    decreases cs.len(),
{
    if cs.len() == 0 {
        assert forall|i: int| 0 <= i <= cs.len() implies apply_commands(
            s,
            #[trigger] cs.take(i),
        ).inv() by {
            assert(cs.take(i) =~= cs);
        }
    } else {
        let prefix = cs.drop_last();
        lemma_commands_preserve_inv(s, prefix);
        lemma_command_preserves_inv(apply_commands(s, prefix), cs.last());
        assert forall|i: int| 0 <= i <= cs.len() implies apply_commands(
            s,
            #[trigger] cs.take(i),
        ).inv() by {
            if i == cs.len() {
                assert(cs.take(i) =~= cs);
            } else {
                assert(cs.take(i) =~= prefix.take(i));
            }
        }
    }
}

/// Start is idempotent: a second Start with no Pause or Reset in between
/// leaves the record exactly as the first left it — the start instant stays
/// set, the pause flag stays clear, and the remaining time is untouched —
/// whatever instants the two calls carry.
pub proof fn lemma_start_idempotent(s: PomodoroState, now1: u64, now2: u64)
    requires
        s.inv(),
    ensures
        spec_start(spec_start(s, now1), now2) == spec_start(s, now1),
        spec_start(s, now1).start_time is Some,
        !spec_start(s, now1).is_paused,
        spec_start(s, now1).remaining_seconds == s.remaining_seconds,
{
}

/// No time passes while paused: once a Pause has run, a query at any later
/// instant leaves the stored record alone and returns it unchanged as the
/// snapshot, so repeated queries all see the same snapshot.
pub proof fn lemma_paused_query_stable(s: PomodoroState, pause_now: u64, query_now: u64)
    ensures
        spec_reconcile(spec_pause(s, pause_now), query_now) == spec_pause(s, pause_now),
        spec_snapshot(spec_pause(s, pause_now), query_now) == spec_pause(s, pause_now),
{
}

/// Changing the duration while the timer is running — paused or not — is a
/// no-op: the record is identical before and after.
pub proof fn lemma_set_time_running_noop(s: PomodoroState, seconds: u64)
    requires
        s.is_running,
    ensures
        spec_set_time(s, seconds) == s,
{
}

/// The expiry transition is a one-shot edge: once a tick has taken it, no
/// later tick reports expiry again or moves the record, until the timer is
/// started anew.
pub proof fn lemma_expiry_one_shot(s: PomodoroState, now1: u64, now2: u64)
    requires
        spec_expired(s, now1),
    ensures
        !spec_expired(spec_poll(s, now1), now2),
        spec_poll(spec_poll(s, now1), now2) == spec_poll(s, now1),
{
}

/// Reconciliation consumes each elapsed interval exactly once: with a
/// monotonic clock, reconciling at `now1` and then at a later `now2` leaves
/// exactly the record that a single reconciliation at `now2` would.
pub proof fn lemma_reconcile_no_double_count(s: PomodoroState, now1: u64, now2: u64)
    requires
        now1 <= now2,
        s.start_time matches Some(start) ==> start <= now1,
    ensures
        spec_reconcile(spec_reconcile(s, now1), now2) == spec_reconcile(s, now2),
{
}

} // verus!
