//! Deletions that are to happen later: each is scheduled with a due time and
//! a token by which it can be cancelled, and is handed out once when its
//! time has come.
use vstd::prelude::*;
use crate::time::{not_later, now, Timestamp};

verus! {

/// Seconds after which a closed commission channel is deleted.
pub const COMMISSION_CLOSE_DELAY: u64 = 10;

/// Seconds after which a closed ticket channel is deleted.
pub const TICKET_CLOSE_DELAY: u64 = 3;

/// Seconds after which a warning about filtered feedback is deleted.
pub const WARNING_DELAY: u64 = 10;

/// What is to be deleted.
#[derive(Debug, Clone, Copy, PartialEq, Eq, Structural)]
pub enum DeferredAction {
    DeleteChannel { channel_id: u64 },
    DeleteMessage { channel_id: u64, message_id: u64 },
}

/// One scheduled deletion.
#[derive(Debug, Clone, Copy, PartialEq, Eq, Structural)]
pub struct DeferredTask {
    pub token: u64,
    pub action: DeferredAction,
    pub due: Timestamp,
    pub cancelled: bool,
}

/// The instant `delay` seconds after `now`, or the latest instant of that
/// fraction of a second if that is earlier.
pub open spec fn due_time(now: Timestamp, delay: u64) -> Timestamp {
    Timestamp {
        secs: if now.secs + delay > i64::MAX {
            i64::MAX
        } else {
            (now.secs + delay) as i64
        },
        nanos: now.nanos,
    }
}

/// The token after `token`; after the last one the first comes again.
pub open spec fn next_after(token: u64) -> u64 {
    if token == u64::MAX {
        0
    } else {
        (token + 1) as u64
    }
}

/// A task is handed out at `now`: it is not cancelled and its time has come.
pub open spec fn is_ready(t: DeferredTask, now: Timestamp) -> bool {
    !t.cancelled && not_later(t.due, now)
}

/// A task stays in the queue at `now`: it is not cancelled and its time has
/// not come.
pub open spec fn is_waiting(t: DeferredTask, now: Timestamp) -> bool {
    !t.cancelled && !not_later(t.due, now)
}

/// The actions of the tasks among the first `n` that are handed out at
/// `now`, in the order scheduled.
pub open spec fn ready_actions(tasks: Seq<DeferredTask>, now: Timestamp, n: int) -> Seq<
    DeferredAction,
>
    decreases n,
{
    if n <= 0 {
        Seq::<DeferredAction>::empty()
    } else if is_ready(tasks[n - 1], now) {
        ready_actions(tasks, now, n - 1).push(tasks[n - 1].action)
    } else {
        ready_actions(tasks, now, n - 1)
    }
}

/// The tasks among the first `n` that stay in the queue at `now`, in the
/// order scheduled.
pub open spec fn waiting_tasks(tasks: Seq<DeferredTask>, now: Timestamp, n: int) -> Seq<
    DeferredTask,
>
    decreases n,
{
    if n <= 0 {
        Seq::<DeferredTask>::empty()
    } else if is_waiting(tasks[n - 1], now) {
        waiting_tasks(tasks, now, n - 1).push(tasks[n - 1])
    } else {
        waiting_tasks(tasks, now, n - 1)
    }
}

/// The tasks with every task of the given token cancelled.
pub open spec fn cancelled_in(tasks: Seq<DeferredTask>, token: u64) -> Seq<DeferredTask> {
    Seq::new(
        tasks.len(),
        |i: int|
            if tasks[i].token == token {
                DeferredTask { cancelled: true, ..tasks[i] }
            } else {
                tasks[i]
            },
    )
}

/// Some task that is not cancelled has the token.
pub open spec fn has_live_token(tasks: Seq<DeferredTask>, token: u64) -> bool {
    exists|i: int| 0 <= i < tasks.len() && (#[trigger] tasks[i]).token == token && !tasks[i].cancelled
}

/// The deletions that wait for their time.
#[derive(Debug)]
pub struct DeferredQueue {
    tasks: Vec<DeferredTask>,
    next_token: u64,
}

impl DeferredQueue {
    /// The scheduled tasks, in the order scheduled.
    pub closed spec fn tasks(&self) -> Seq<DeferredTask> {
        self.tasks@
    }

    /// The token that the next task gets.
    pub closed spec fn next_token(&self) -> u64 {
        self.next_token
    }

    /// An empty queue.
    pub fn new() -> (r: Self)
        ensures
            r.tasks().len() == 0,
            r.next_token() == 0,
    {
        DeferredQueue { tasks: Vec::new(), next_token: 0 }
    }

    /// Number of tasks in the queue.
    pub fn len(&self) -> (r: usize)
        ensures
            r == self.tasks().len(),
    {
        self.tasks.len()
    }

    /// Schedules an action for `delay` seconds after `now` and returns the
    /// token by which it can be cancelled.
    pub fn schedule_at(&mut self, action: DeferredAction, delay: u64, now: Timestamp) -> (token: u64)
        ensures
            token == old(self).next_token(),
            final(self).next_token() == next_after(token),
            final(self).tasks() == old(self).tasks().push(
                DeferredTask { token, action, due: due_time(now, delay), cancelled: false },
            ),
    {
        let token = self.next_token;
        let wide: i128 = now.secs as i128 + delay as i128;
        let secs: i64 = if wide > i64::MAX as i128 {
            i64::MAX
        } else {
            wide as i64
        };
        self.tasks.push(
            DeferredTask {
                token,
                action,
                due: Timestamp { secs, nanos: now.nanos },
                cancelled: false,
            },
        );
        self.next_token = if token == u64::MAX {
            0
        } else {
            token + 1
        };
        token
    }

    /// Schedules an action for `delay` seconds from now.
    pub fn schedule(&mut self, action: DeferredAction, delay: u64) -> (token: u64)
        ensures
            token == old(self).next_token(),
            final(self).next_token() == next_after(token),
            exists|now: Timestamp|
                final(self).tasks() == old(self).tasks().push(
                    DeferredTask {
                        token,
                        action,
                        due: #[trigger] due_time(now, delay),
                        cancelled: false,
                    },
                ),
    {
        let at = now();
        let token = self.schedule_at(action, delay, at);
        proof {
            assert(self.tasks() == old(self).tasks().push(
                DeferredTask { token, action, due: due_time(at, delay), cancelled: false },
            ));
        }
        token
    }

    /// Cancels the task of a token. The result says whether there was such a
    /// task that had not been cancelled before.
    pub fn cancel(&mut self, token: u64) -> (r: bool)
        ensures
            r == has_live_token(old(self).tasks(), token),
            final(self).tasks() == cancelled_in(old(self).tasks(), token),
            final(self).next_token() == old(self).next_token(),
    {
        let ghost before = self.tasks@;
        let mut found = false;
        let mut i: usize = 0;
        while i < self.tasks.len()
            invariant
                i <= self.tasks.len(),
                self.tasks@.len() == before.len(),
                self.next_token == old(self).next_token,
                forall|j: int| 0 <= j < i ==> self.tasks@[j] == cancelled_in(before, token)[j],
                forall|j: int| i <= j < before.len() ==> self.tasks@[j] == before[j],
                found == exists|j: int|
                    0 <= j < i && (#[trigger] before[j]).token == token && !before[j].cancelled,
            decreases self.tasks.len() - i,
        {
            let task = self.tasks[i];
            proof {
                assert(task == before[i as int]);
            }
            let ghost earlier = found;
            if task.token == token {
                if !task.cancelled {
                    found = true;
                }
                self.tasks[i] = DeferredTask { cancelled: true, ..task };
            }
            proof {
                if found && !earlier {
                    assert(before[i as int].token == token && !before[i as int].cancelled);
                }
                if !found {
                    assert forall|j: int| 0 <= j < i + 1 implies !((#[trigger] before[j]).token
                        == token && !before[j].cancelled) by {}
                }
            }
            i += 1;
        }
        proof {
            assert(self.tasks@ =~= cancelled_in(before, token));
        }
        found
    }

    /// Takes out what is to be done at `now`: the actions of the tasks whose
    /// time has come, in the order scheduled. Those tasks and the cancelled
    /// ones leave the queue; the others stay.
    pub fn take_due_at(&mut self, now: Timestamp) -> (r: Vec<DeferredAction>)
        ensures
            r@ == ready_actions(old(self).tasks(), now, old(self).tasks().len() as int),
            final(self).tasks() == waiting_tasks(
                old(self).tasks(),
                now,
                old(self).tasks().len() as int,
            ),
            final(self).next_token() == old(self).next_token(),
    {
        let mut actions: Vec<DeferredAction> = Vec::new();
        let mut rest: Vec<DeferredTask> = Vec::new();
        let mut i: usize = 0;
        while i < self.tasks.len()
            invariant
                i <= self.tasks.len(),
                self.tasks@ == old(self).tasks@,
                self.next_token == old(self).next_token,
                actions@ == ready_actions(self.tasks@, now, i as int),
                rest@ == waiting_tasks(self.tasks@, now, i as int),
            decreases self.tasks.len() - i,
        {
            let task = self.tasks[i];
            if !task.cancelled {
                if task.due.is_at_or_before(&now) {
                    actions.push(task.action);
                } else {
                    rest.push(task);
                }
            }
            i += 1;
        }
        self.tasks = rest;
        actions
    }

    /// Takes out what is to be done now.
    pub fn take_due(&mut self) -> (r: Vec<DeferredAction>)
        ensures
            exists|now: Timestamp|
                r@ == #[trigger] ready_actions(
                    old(self).tasks(),
                    now,
                    old(self).tasks().len() as int,
                ) && final(self).tasks() == waiting_tasks(
                    old(self).tasks(),
                    now,
                    old(self).tasks().len() as int,
                ),
            final(self).next_token() == old(self).next_token(),
    {
        let at = now();
        let r = self.take_due_at(at);
        proof {
            assert(r@ == ready_actions(old(self).tasks(), at, old(self).tasks().len() as int));
        }
        r
    }
}

/// A cancelled task is never handed out: after the cancellation of a token,
/// no task of that token is ready at any time.
pub proof fn lemma_cancelled_is_never_ready(
    tasks: Seq<DeferredTask>,
    token: u64,
    now: Timestamp,
    i: int,
)
    requires
        0 <= i < tasks.len(),
        tasks[i].token == token,
    ensures
        !is_ready(cancelled_in(tasks, token)[i], now),
{
}

/// A task is handed out once: what stays in the queue at `now` is not ready
/// at `now`, so taking again at the same time hands out nothing.
pub proof fn lemma_taken_once(tasks: Seq<DeferredTask>, now: Timestamp, n: int)
    requires
        0 <= n <= tasks.len(),
    ensures
        ready_actions(
            waiting_tasks(tasks, now, n),
            now,
            waiting_tasks(tasks, now, n).len() as int,
        ).len() == 0,
    decreases n,
{
    if n > 0 {
        lemma_taken_once(tasks, now, n - 1);
        let w = waiting_tasks(tasks, now, n);
        let prev = waiting_tasks(tasks, now, n - 1);
        if is_waiting(tasks[n - 1], now) {
            lemma_ready_prefix(w, prev, now, prev.len() as int);
        }
    }
}

/// What is ready among the first `n` tasks does not depend on the tasks
/// that follow.
pub proof fn lemma_ready_prefix(a: Seq<DeferredTask>, b: Seq<DeferredTask>, now: Timestamp, n: int)
    requires
        0 <= n <= a.len(),
        n <= b.len(),
        forall|i: int| 0 <= i < n ==> a[i] == b[i],
    ensures
        ready_actions(a, now, n) == ready_actions(b, now, n),
    decreases n,
{
    if n > 0 {
        lemma_ready_prefix(a, b, now, n - 1);
    }
}

} // verus!
