//! Supervision policy for the helper processes (MediaMTX, FFmpeg, dns-sd):
//! what happens when a child exits, when it is restarted and when it is
//! declared to be crash-looping. Spawning and waiting stay with the caller,
//! which reports each exit here and asks when a restart is due.
use vstd::prelude::*;
use crate::redact::{redact_secrets, spec_redact};
use crate::text::opt_view;

verus! {

#[derive(Debug, Clone, Copy, PartialEq, Eq, Structural)]
pub enum RestartPolicy {
    Never,
    OnFailure,
    Always,
}

#[derive(Debug, Clone, Copy, PartialEq, Eq, Structural)]
pub enum ProcessStatus {
    Starting,
    Running,
    BackingOff,
    Stopped,
    Failed,
    CrashLoop,
}

#[derive(Debug, Clone)]
pub struct ProcessSnapshot {
    pub name: String,
    pub pid: Option<u32>,
    pub status: ProcessStatus,
    pub restart_policy: RestartPolicy,
    pub restart_count: u32,
    pub last_error: Option<String>,
}

/// A helper program to run: its name in the supervisor, the executable and
/// its arguments, and what to do when it exits.
#[derive(Debug, Clone)]
pub struct ProcessSpec {
    pub name: String,
    pub executable: String,
    pub args: Vec<String>,
    pub restart_policy: RestartPolicy,
}

/// Exits older than this many milliseconds no longer count towards a crash loop.
pub const EXIT_WINDOW_MS: u64 = 60_000;
/// This many exits inside the window make a crash loop.
pub const CRASH_LOOP_EXITS: usize = 5;
/// The restart delay doubles with each restart up to `2^MAX_BACKOFF_EXPONENT` seconds.
pub const MAX_BACKOFF_EXPONENT: u32 = 5;

/// What the supervisor knows about one managed process besides the child itself.
#[derive(Debug, Clone)]
pub struct Supervision {
    pub snapshot: ProcessSnapshot,
    /// Monotonic times (ms) of the recent exits, oldest first.
    pub exits: Vec<u64>,
    /// Monotonic time (ms) at which the process is to be started again.
    pub next_restart_ms: Option<u64>,
    /// The process is being stopped on purpose; its exit is no failure.
    pub stopping: bool,
}

pub open spec fn pow2(e: nat) -> nat
    decreases e,
{
    if e == 0 {
        1
    } else {
        2 * pow2((e - 1) as nat)
    }
}

/// Restart delay in seconds after `restart_count` restarts.
pub open spec fn backoff_seconds(restart_count: nat) -> nat {
    pow2(if restart_count < 5 { restart_count } else { 5 })
}

/// `policy` asks for a restart after an exit that did (`failed`) or did not fail.
pub open spec fn wants_restart(policy: RestartPolicy, failed: bool) -> bool {
    policy == RestartPolicy::Always || (failed && policy == RestartPolicy::OnFailure)
}

/// The exits of `exits` that lie within the window ending at `now`
/// (the oldest ones are dropped while they are out of it).
pub open spec fn prune_exits(exits: Seq<u64>, now: u64) -> Seq<u64>
    decreases exits.len(),
{
    if exits.len() > 0 && now > exits[0] && now - exits[0] > EXIT_WINDOW_MS {
        prune_exits(exits.drop_first(), now)
    } else {
        exits
    }
}

pub open spec fn exit_message(exit: Seq<char>) -> Seq<char> {
    seq!['p', 'r', 'o', 'c', 'e', 's', 's', ' ', 'e', 'x', 'i', 't', 'e', 'd', ' ', 'w', 'i', 't', 'h', ' ']
        + exit
}

/// "process exited with <status>", the reason given for an exit.
pub fn exit_reason_text(exit: &str) -> (r: String)
    ensures
        r@ == exit_message(exit@),
{
    let r = String::from_str("process exited with ").concat(exit);
    proof {
        reveal_strlit("process exited with ");
        assert(r@ =~= exit_message(exit@));
    }
    r
}

fn backoff_ms(restart_count: u32) -> (ms: u64)
    ensures
        ms == backoff_seconds(restart_count as nat) * 1000,
        ms <= 32_000,
{
    let exponent = if restart_count < 5 { restart_count } else { 5 };
    let mut seconds: u64 = 1;
    let mut i: u32 = 0;
    while i < exponent
        invariant
            i <= exponent <= 5,
            seconds == pow2(i as nat),
            seconds <= 32,
        decreases exponent - i,
    {
        proof {
            assert(pow2((i + 1) as nat) == 2 * pow2(i as nat));
            assert(i < 5);
            lemma_pow2_bound(i as nat);
        }
        seconds = seconds * 2;
        i = i + 1;
    }
    seconds * 1000
}

proof fn lemma_pow2_values()
    ensures
        pow2(0) == 1,
        pow2(1) == 2,
        pow2(2) == 4,
        pow2(3) == 8,
        pow2(4) == 16,
        pow2(5) == 32,
{
    reveal_with_fuel(pow2, 6);
}

proof fn lemma_pow2_bound(e: nat)
    requires
        e < 5,
    ensures
        pow2(e) * 2 <= 32,
{
    lemma_pow2_values();
}

/// A process whose policy is `Never` has no restart pending. Every record
/// starts so and every operation below keeps it so.
pub open spec fn never_scheduled(s: Supervision) -> bool {
    s.snapshot.restart_policy == RestartPolicy::Never ==> s.next_restart_ms is None
}

/// When the process is to be started again after an exit at `now`: a
/// process being stopped keeps what it had; a crash loop is never
/// restarted; a restart its policy asks for comes after the back-off;
/// otherwise nothing new is scheduled.
pub open spec fn next_after_exit(s: Supervision, now: u64, success: bool) -> Option<u64> {
    if s.stopping {
        s.next_restart_ms
    } else if prune_exits(s.exits@.push(now), now).len() >= CRASH_LOOP_EXITS {
        None
    } else if wants_restart(s.snapshot.restart_policy, !success) {
        Some((now + backoff_seconds(s.snapshot.restart_count as nat) * 1000) as u64)
    } else {
        s.next_restart_ms
    }
}

/// Whether a tick at `now` spawns the process again.
pub open spec fn respawn_spec(s: Supervision, has_child: bool, now: u64) -> bool {
    &&& !has_child
    &&& s.next_restart_ms matches Some(t) && t <= now
    &&& s.snapshot.restart_count < u32::MAX
}

impl Supervision {
    /// The record of a process that has just been spawned.
    pub fn started(name: String, pid: Option<u32>, restart_policy: RestartPolicy) -> (s: Self)
        ensures
            s.snapshot.name == name,
            s.snapshot.pid == pid,
            s.snapshot.status == ProcessStatus::Running,
            s.snapshot.restart_policy == restart_policy,
            s.snapshot.restart_count == 0,
            s.snapshot.last_error is None,
            s.exits@.len() == 0,
            s.next_restart_ms is None,
            !s.stopping,
            never_scheduled(s),
    {
        Supervision {
            snapshot: ProcessSnapshot {
                name,
                pid,
                status: ProcessStatus::Running,
                restart_policy,
                restart_count: 0,
                last_error: None,
            },
            exits: Vec::new(),
            next_restart_ms: None,
            stopping: false,
        }
    }

    /// The child has exited at `now_ms` with a status that did (`success`) or
    /// did not succeed; `exit` is that status as text.
    pub fn record_exit(&mut self, now_ms: u64, success: bool, exit: &str)
        requires
            now_ms <= u64::MAX - 32_000,
            forall|i: int| 0 <= i < old(self).exits@.len() ==> old(self).exits@[i] <= now_ms,
        ensures
            final(self).snapshot.pid is None,
            final(self).snapshot.name == old(self).snapshot.name,
            final(self).snapshot.restart_policy == old(self).snapshot.restart_policy,
            final(self).snapshot.restart_count == old(self).snapshot.restart_count,
            final(self).stopping == old(self).stopping,
            final(self).next_restart_ms == next_after_exit(*old(self), now_ms, success),
            never_scheduled(*old(self)) ==> never_scheduled(*final(self)),
            old(self).stopping ==> {
                &&& final(self).snapshot.status == ProcessStatus::Stopped
                &&& final(self).exits@ == old(self).exits@
                &&& final(self).next_restart_ms == old(self).next_restart_ms
                &&& final(self).snapshot.last_error == old(self).snapshot.last_error
            },
            !old(self).stopping ==> {
                let exits = prune_exits(old(self).exits@.push(now_ms), now_ms);
                &&& final(self).exits@ == exits
                &&& opt_view(final(self).snapshot.last_error) == Some(exit_message(exit@))
                &&& if exits.len() >= CRASH_LOOP_EXITS {
                    &&& final(self).snapshot.status == ProcessStatus::CrashLoop
                    &&& final(self).next_restart_ms is None
                } else if wants_restart(old(self).snapshot.restart_policy, !success) {
                    &&& final(self).snapshot.status == ProcessStatus::BackingOff
                    &&& final(self).next_restart_ms == Some(
                        (now_ms + backoff_seconds(old(self).snapshot.restart_count as nat)
                            * 1000) as u64,
                    )
                } else {
                    &&& final(self).snapshot.status == if success {
                        ProcessStatus::Stopped
                    } else {
                        ProcessStatus::Failed
                    }
                    &&& final(self).next_restart_ms == old(self).next_restart_ms
                }
            },
    {
        self.snapshot.pid = None;
        if self.stopping {
            self.snapshot.status = ProcessStatus::Stopped;
            return;
        }
        let mut exits: Vec<u64> = Vec::new();
        std::mem::swap(&mut exits, &mut self.exits);
        exits.push(now_ms);
        let ghost pushed = exits@;
        while exits.len() > 0 && now_ms > exits[0] && now_ms - exits[0] > EXIT_WINDOW_MS
            invariant
                prune_exits(exits@, now_ms) == prune_exits(pushed, now_ms),
            decreases exits@.len(),
        {
            let ghost before = exits@;
            exits.remove(0);
            assert(exits@ =~= before.drop_first());
        }
        self.exits = exits;
        let failed = !success;
        self.snapshot.last_error = Some(exit_reason_text(exit));
        let should_restart = matches!(self.snapshot.restart_policy, RestartPolicy::Always) || (
        failed && matches!(self.snapshot.restart_policy, RestartPolicy::OnFailure));
        if self.exits.len() >= CRASH_LOOP_EXITS {
            self.snapshot.status = ProcessStatus::CrashLoop;
            self.next_restart_ms = None;
        } else if should_restart {
            let delay = backoff_ms(self.snapshot.restart_count);
            self.snapshot.status = ProcessStatus::BackingOff;
            self.next_restart_ms = Some(now_ms + delay);
        } else {
            self.snapshot.status = if failed {
                ProcessStatus::Failed
            } else {
                ProcessStatus::Stopped
            };
        }
    }

    /// Waiting on the child failed with `error`.
    pub fn record_wait_error(&mut self, error: &str)
        ensures
            final(self).snapshot.status == ProcessStatus::Failed,
            opt_view(final(self).snapshot.last_error) == Some(spec_redact(error@)),
            final(self).snapshot.pid == old(self).snapshot.pid,
            final(self).snapshot.restart_policy == old(self).snapshot.restart_policy,
            never_scheduled(*old(self)) ==> never_scheduled(*final(self)),
            final(self).snapshot.restart_count == old(self).snapshot.restart_count,
            final(self).exits == old(self).exits,
            final(self).next_restart_ms == old(self).next_restart_ms,
            final(self).stopping == old(self).stopping,
    {
        self.snapshot.status = ProcessStatus::Failed;
        self.snapshot.last_error = Some(redact_secrets(error));
    }

    /// A process without a child is due to be started again at `now_ms`.
    pub fn restart_due(&self, now_ms: u64) -> (due: bool)
        ensures
            due == (self.next_restart_ms matches Some(t) && t <= now_ms),
    {
        match self.next_restart_ms {
            Some(t) => t <= now_ms,
            None => false,
        }
    }

    /// On a tick at `now_ms`, the process is spawned again: it has no child
    /// and its restart is due (and its restart count can still grow).
    pub fn respawn_due(&self, has_child: bool, now_ms: u64) -> (due: bool)
        ensures
            due == respawn_spec(*self, has_child, now_ms),
    {
        !has_child && self.restart_due(now_ms) && self.snapshot.restart_count < u32::MAX
    }

    /// The due restart spawned a new child with `pid`.
    pub fn record_restart(&mut self, pid: Option<u32>)
        requires
            old(self).snapshot.restart_count < u32::MAX,
        ensures
            final(self).snapshot.pid == pid,
            final(self).snapshot.status == ProcessStatus::Running,
            final(self).snapshot.restart_count == old(self).snapshot.restart_count + 1,
            final(self).snapshot.last_error is None,
            final(self).next_restart_ms is None,
            final(self).exits == old(self).exits,
            final(self).stopping == old(self).stopping,
            final(self).snapshot.name == old(self).snapshot.name,
            final(self).snapshot.restart_policy == old(self).snapshot.restart_policy,
            never_scheduled(*final(self)),
    {
        self.snapshot.pid = pid;
        self.snapshot.status = ProcessStatus::Running;
        self.snapshot.restart_count = self.snapshot.restart_count + 1;
        self.snapshot.last_error = None;
        self.next_restart_ms = None;
    }

    /// The due restart could not spawn a child: `error` says why.
    pub fn record_restart_failure(&mut self, error: &str)
        ensures
            final(self).snapshot.status == ProcessStatus::Failed,
            opt_view(final(self).snapshot.last_error) == Some(spec_redact(error@)),
            final(self).snapshot.restart_count == old(self).snapshot.restart_count,
            final(self).snapshot.restart_policy == old(self).snapshot.restart_policy,
            never_scheduled(*old(self)) ==> never_scheduled(*final(self)),
            final(self).next_restart_ms == old(self).next_restart_ms,
            final(self).exits == old(self).exits,
            final(self).stopping == old(self).stopping,
    {
        self.snapshot.status = ProcessStatus::Failed;
        self.snapshot.last_error = Some(redact_secrets(error));
    }
}

/// Laws of the exit window: it keeps the newest exit, and all it keeps lies
/// within the window.
pub proof fn lemma_prune_keeps_recent(exits: Seq<u64>, now: u64)
    requires
        exits.len() > 0,
        exits.last() == now,
    ensures
        prune_exits(exits, now).len() > 0,
        prune_exits(exits, now).last() == now,
        prune_exits(exits, now).len() <= exits.len(),
        forall|i: int|
            0 <= i < prune_exits(exits, now).len() ==> #[trigger] prune_exits(exits, now)[i]
                == exits[exits.len() - prune_exits(exits, now).len() + i],
    decreases exits.len(),
{
    if exits.len() > 0 && now > exits[0] && now - exits[0] > EXIT_WINDOW_MS {
        assert(exits.len() > 1);
        lemma_prune_keeps_recent(exits.drop_first(), now);
    }
}

/// A process whose policy is `Never` is never scheduled for a restart by an exit,
/// and no exit is ever delayed by more than 32 seconds.
pub proof fn law_restart_schedule(policy: RestartPolicy, failed: bool, restart_count: nat)
    ensures
        policy == RestartPolicy::Never ==> !wants_restart(policy, failed),
        1 <= backoff_seconds(restart_count) <= 32,
        restart_count < 5 ==> backoff_seconds(restart_count + 1) == 2 * backoff_seconds(restart_count),
{
    lemma_pow2_range(if restart_count < 5 { restart_count } else { 5 });
}

proof fn lemma_pow2_range(e: nat)
    requires
        e <= 5,
    ensures
        1 <= pow2(e) <= 32,
{
    lemma_pow2_values();
}


/// A process whose policy is `Never` (which, by `never_scheduled`, every
/// record keeps without a pending restart), or whose exit makes a crash
/// loop, is not started again by later ticks: after
/// that exit no restart is pending, so no later time makes one due, and its
/// pid stays empty and its restart count unchanged until it is started or
/// stopped anew.
pub proof fn law_no_respawn(s: Supervision, now: u64, success: bool, later: u64)
    requires
        (s.snapshot.restart_policy == RestartPolicy::Never && never_scheduled(s)) || (
        !s.stopping && prune_exits(s.exits@.push(now), now).len() >= CRASH_LOOP_EXITS),
    ensures
        next_after_exit(s, now, success) is None,
        !(next_after_exit(s, now, success) matches Some(t) && t <= later),
        !respawn_spec(Supervision { next_restart_ms: next_after_exit(s, now, success), ..s }, false, later),
{
}

/// No tick ever spawns again a process whose policy is `Never`: every
/// record of one keeps `never_scheduled`, so no restart of it is ever due.
pub proof fn law_never_respawned(s: Supervision, has_child: bool, now: u64)
    requires
        s.snapshot.restart_policy == RestartPolicy::Never,
        never_scheduled(s),
    ensures
        !respawn_spec(s, has_child, now),
{
}

} // verus!
