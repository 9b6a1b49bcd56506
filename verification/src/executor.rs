//! The executor state and its five operations.
//!
//! The registry is an index-stable vector: the task issued the identifier
//! `n` lives at index `n - 1`, and entries are never removed — termination only
//! flips the state. Mailboxes live in a parallel vector; a slot is `Some`
//! exactly while its task has not terminated.

use vstd::prelude::*;

verus! {

/// An opaque handle naming one task. Identifiers are issued by a
/// monotonically increasing counter and are never reused.
#[derive(Clone, Copy, Debug, PartialEq, Eq, Hash, Structural)]
pub struct TaskId(u32);

/// The lifecycle state of a task. Only `Ready` and `Terminated` are produced
/// or consumed by the operations here; `Running` and `Waiting` are kept
/// representable for a host that extends the scheduler.
#[derive(Clone, Copy, Debug, PartialEq, Eq, Structural)]
pub enum TaskState {
    Ready,
    Running,
    Waiting,
    Terminated,
}

/// One schedulable unit: its handle, its fixed priority, and its state.
#[derive(Clone, Copy)]
pub struct Task {
    id: TaskId,
    priority: u8,
    state: TaskState,
}

/// The executor: task registry, mailbox set, and the next-identifier counter.
pub struct Exec {
    tasks: Vec<Task>,
    next_id: u32,
    mailboxes: Vec<Option<Vec<Vec<u8>>>>,
}

impl Exec {
    /// Index of an issued identifier in the two parallel vectors.
    spec fn idx(self, id: TaskId) -> int {
        id.0 - 1
    }

    /// How many identifiers this executor has issued so far.
    pub closed spec fn issued_count(self) -> nat {
        self.tasks@.len()
    }

    /// Whether `id` was issued by this executor.
    pub closed spec fn is_issued(self, id: TaskId) -> bool {
        1 <= id.0 <= self.tasks@.len()
    }

    /// The priority `id`'s task was created with (meaningful when issued).
    pub closed spec fn priority_of(self, id: TaskId) -> u8 {
        self.tasks@[self.idx(id)].priority
    }

    /// The current lifecycle state of `id`'s task (meaningful when issued).
    pub closed spec fn state_of(self, id: TaskId) -> TaskState {
        self.tasks@[self.idx(id)].state
    }

    /// Whether a mailbox currently exists for `id`: issued and not yet
    /// terminated.
    pub closed spec fn has_mailbox(self, id: TaskId) -> bool {
        self.is_issued(id) && self.mailboxes@[self.idx(id)] is Some
    }

    /// The pending payloads of `id`'s mailbox, oldest first (meaningful when
    /// `has_mailbox(id)`).
    pub closed spec fn mailbox(self, id: TaskId) -> Seq<Seq<u8>> {
        match self.mailboxes@[self.idx(id)] {
            Some(queue) => queue.deep_view(),
            None => Seq::empty(),
        }
    }

    /// Structural well-formedness: the counter is one past the registry, the
    /// two vectors run in parallel, the task at index `i` carries identifier
    /// `i + 1`, and a mailbox slot is filled exactly while its task has not
    /// terminated.
    pub closed spec fn inv(self) -> bool {
        &&& self.next_id == self.tasks@.len() + 1
        &&& self.mailboxes@.len() == self.tasks@.len()
        &&& forall|i: int|
            0 <= i < self.tasks@.len() ==> (#[trigger] self.tasks@[i]).id.0 == i + 1
        &&& forall|i: int|
            0 <= i < self.tasks@.len()
                ==> ((#[trigger] self.mailboxes@[i]) is Some
                    <==> self.tasks@[i].state != TaskState::Terminated)
    }

    /// The registry observables — which identifiers are issued, and each
    /// task's state and priority — are the same in `pre` and `post`.
    pub open spec fn registry_unchanged(pre: Exec, post: Exec) -> bool {
        &&& post.issued_count() == pre.issued_count()
        &&& forall|x: TaskId| #[trigger] post.is_issued(x) == pre.is_issued(x)
        &&& forall|x: TaskId| #[trigger] post.state_of(x) == pre.state_of(x)
        &&& forall|x: TaskId| #[trigger] post.priority_of(x) == pre.priority_of(x)
    }

    /// Every mailbox still exists exactly where it did, and every mailbox
    /// other than `t`'s holds the same payloads.
    pub open spec fn other_mailboxes_unchanged(pre: Exec, post: Exec, t: TaskId) -> bool {
        &&& forall|x: TaskId| #[trigger] post.has_mailbox(x) == pre.has_mailbox(x)
        &&& forall|x: TaskId|
            x != t && pre.has_mailbox(x) ==> #[trigger] post.mailbox(x) == pre.mailbox(x)
    }

    /// What `create_task` does: the returned identifier is fresh, the new
    /// task starts `Ready` at the requested priority with an empty mailbox,
    /// and every previously issued task keeps its state, priority and
    /// mailbox.
    pub open spec fn create_post(pre: Exec, post: Exec, priority: u8, r: TaskId) -> bool {
        &&& !pre.is_issued(r)
        &&& post.is_issued(r)
        &&& post.issued_count() == pre.issued_count() + 1
        &&& post.state_of(r) == TaskState::Ready
        &&& post.priority_of(r) == priority
        &&& post.has_mailbox(r)
        &&& post.mailbox(r) == Seq::<Seq<u8>>::empty()
        &&& forall|x: TaskId| #[trigger] pre.is_issued(x) ==> post.is_issued(x)
        &&& forall|x: TaskId| #[trigger] post.is_issued(x) ==> pre.is_issued(x) || x == r
        &&& forall|x: TaskId|
            pre.is_issued(x)
                ==> #[trigger] post.state_of(x) == pre.state_of(x)
                    && post.priority_of(x) == pre.priority_of(x)
        &&& forall|x: TaskId|
            pre.is_issued(x) ==> #[trigger] post.has_mailbox(x) == pre.has_mailbox(x)
        &&& forall|x: TaskId|
            pre.has_mailbox(x) ==> #[trigger] post.mailbox(x) == pre.mailbox(x)
    }

    /// What `send_message` does: it succeeds exactly when a mailbox exists
    /// for `to` (the task is known and not terminated); on success the
    /// payload is appended at the end of that mailbox, and nothing else
    /// changes.
    pub open spec fn send_post(pre: Exec, post: Exec, to: TaskId, msg: Seq<u8>, ok: bool) -> bool {
        &&& ok == pre.has_mailbox(to)
        &&& Exec::registry_unchanged(pre, post)
        &&& Exec::other_mailboxes_unchanged(pre, post, to)
        &&& ok ==> post.mailbox(to) == pre.mailbox(to).push(msg)
        &&& !ok ==> forall|x: TaskId|
            pre.has_mailbox(x) ==> #[trigger] post.mailbox(x) == pre.mailbox(x)
    }

    /// What `receive_message` does: when a mailbox exists for `t` and holds
    /// at least one payload, the oldest one is removed and returned; an empty
    /// or absent mailbox yields the same empty result, and nothing changes.
    pub open spec fn receive_post(pre: Exec, post: Exec, t: TaskId, r: Option<Seq<u8>>) -> bool {
        &&& Exec::registry_unchanged(pre, post)
        &&& Exec::other_mailboxes_unchanged(pre, post, t)
        &&& if pre.has_mailbox(t) && pre.mailbox(t).len() > 0 {
                &&& r == Some(pre.mailbox(t)[0])
                &&& post.mailbox(t) == pre.mailbox(t).drop_first()
            } else {
                &&& r is None
                &&& pre.has_mailbox(t) ==> post.mailbox(t) == pre.mailbox(t)
            }
    }

    /// What `terminate_task` does: if `id` is known its state becomes
    /// `Terminated` (the registry entry is retained) and its mailbox is
    /// removed, discarding any pending payloads; an unknown `id` is a silent
    /// no-op. Either way `id` has no mailbox afterwards, and every other
    /// task is untouched.
    pub open spec fn terminate_post(pre: Exec, post: Exec, id: TaskId) -> bool {
        &&& post.issued_count() == pre.issued_count()
        &&& forall|x: TaskId| #[trigger] post.is_issued(x) == pre.is_issued(x)
        &&& forall|x: TaskId|
            pre.is_issued(x) ==> #[trigger] post.priority_of(x) == pre.priority_of(x)
        &&& forall|x: TaskId|
            pre.is_issued(x)
                ==> #[trigger] post.state_of(x) == if x == id {
                    TaskState::Terminated
                } else {
                    pre.state_of(x)
                }
        &&& forall|x: TaskId| #[trigger] post.has_mailbox(x) == (x != id && pre.has_mailbox(x))
        &&& forall|x: TaskId|
            x != id && pre.has_mailbox(x) ==> #[trigger] post.mailbox(x) == pre.mailbox(x)
    }

    /// What `schedule` may return: an empty result exactly when no task is
    /// `Ready`, and otherwise some `Ready` task of maximum priority. Which
    /// of several equally prioritised `Ready` tasks is named is deliberately
    /// left open: callers must not depend on a tie-break.
    pub open spec fn schedule_choice(e: Exec, r: Option<TaskId>) -> bool {
        match r {
            None => forall|x: TaskId|
                e.is_issued(x) ==> (#[trigger] e.state_of(x)) != TaskState::Ready,
            Some(c) => {
                &&& e.is_issued(c)
                &&& e.state_of(c) == TaskState::Ready
                &&& forall|x: TaskId|
                    e.is_issued(x) && (#[trigger] e.state_of(x)) == TaskState::Ready
                        ==> e.priority_of(x) <= e.priority_of(c)
            },
        }
    }

    /// A fresh executor: nothing issued, nothing pending.
    pub fn new() -> (e: Exec)
        ensures
            e.inv(),
            e.issued_count() == 0,
            forall|id: TaskId| !(#[trigger] e.is_issued(id)),
            forall|id: TaskId| !(#[trigger] e.has_mailbox(id)),
    {
        Exec { tasks: Vec::new(), next_id: 1, mailboxes: Vec::new() }
    }

    /// Allocates a fresh, never-before-issued identifier, registers a
    /// `Ready` task at the given priority, and gives it an empty mailbox.
    /// The bound on `issued_count` is the machine limit of the identifier
    /// counter; within it, creation cannot fail.
    pub fn create_task(&mut self, priority: u8) -> (r: TaskId)
        requires
            old(self).inv(),
            old(self).issued_count() + 1 < u32::MAX,
        ensures
            final(self).inv(),
            Exec::create_post(*old(self), *final(self), priority, r),
    {
        let id = TaskId(self.next_id);
        self.next_id = self.next_id + 1;
        self.tasks.push(Task { id, priority, state: TaskState::Ready });
        let empty_box: Vec<Vec<u8>> = Vec::new();
        proof {
            assert(empty_box.deep_view() =~= Seq::<Seq<u8>>::empty());
        }
        self.mailboxes.push(Some(empty_box));
        proof {
            assert forall|x: TaskId| old(self).has_mailbox(x) implies #[trigger] self
                .mailbox(x) == old(self).mailbox(x) by {
                assert(self.mailboxes@[self.idx(x)] == old(self).mailboxes@[self.idx(x)]);
            }
        }
        id
    }

    /// Appends `msg` to the mailbox of `to` and reports success, or reports
    /// failure when `to` is unknown or terminated. Failure is an ordinary
    /// outcome for the caller to check, not an error.
    pub fn send_message(&mut self, to: TaskId, msg: Vec<u8>) -> (r: bool)
        requires
            old(self).inv(),
        ensures
            final(self).inv(),
            Exec::send_post(*old(self), *final(self), to, msg@, r),
    {
        let v = to.0;
        if 1 <= v && (v as usize) <= self.tasks.len() {
            let idx = (v - 1) as usize;
            let ghost pre = *self;
            let ghost msg_val = msg;
            let ok = match &mut self.mailboxes[idx] {
                Some(queue) => {
                    queue.push(msg);
                    true
                },
                None => false,
            };
            proof {
                if ok {
                    assert(self.mailboxes@[idx as int] is Some);
                    assert(pre.mailboxes@[idx as int] is Some);
                    let q_pre = pre.mailboxes@[idx as int].unwrap();
                    let q_post = self.mailboxes@[idx as int].unwrap();
                    assert(q_post@ == q_pre@.push(msg_val));
                    assert(q_post.deep_view() =~~= q_pre.deep_view().push(msg_val@));
                    assert(self.mailbox(to) =~~= pre.mailbox(to).push(msg_val@));
                }
            }
            ok
        } else {
            false
        }
    }

    /// Removes and returns the oldest payload pending for `task`, in strict
    /// send order. An empty mailbox and an unknown or terminated task
    /// collapse to the same empty result; this is a non-blocking poll.
    pub fn receive_message(&mut self, task: TaskId) -> (r: Option<Vec<u8>>)
        requires
            old(self).inv(),
        ensures
            final(self).inv(),
            Exec::receive_post(*old(self), *final(self), task, r.deep_view()),
    {
        let v = task.0;
        if 1 <= v && (v as usize) <= self.tasks.len() {
            let idx = (v - 1) as usize;
            let ghost pre = *self;
            let r = match &mut self.mailboxes[idx] {
                Some(queue) => {
                    if queue.len() > 0 {
                        Some(queue.remove(0))
                    } else {
                        None
                    }
                },
                None => None,
            };
            proof {
                if pre.mailboxes@[idx as int] is Some {
                    let q_pre = pre.mailboxes@[idx as int].unwrap();
                    let q_post = self.mailboxes@[idx as int].unwrap();
                    if q_pre@.len() > 0 {
                        assert(q_post@ == q_pre@.remove(0));
                        assert(q_post.deep_view() =~~= q_pre.deep_view().drop_first());
                        assert(r.deep_view() == Some(pre.mailbox(task)[0]));
                    } else {
                        assert(q_post.deep_view() =~~= q_pre.deep_view());
                    }
                }
            }
            r
        } else {
            None
        }
    }

    /// Scans the registry for the `Ready` task of maximum priority and
    /// returns the index of the first one found, or nothing when no task is
    /// `Ready`.
    fn best_ready_index(&self) -> (r: Option<usize>)
        ensures
            match r {
                None => forall|i: int|
                    0 <= i < self.tasks@.len()
                        ==> (#[trigger] self.tasks@[i]).state != TaskState::Ready,
                Some(j) => {
                    &&& (j as int) < self.tasks@.len()
                    &&& self.tasks@[j as int].state == TaskState::Ready
                    &&& forall|i: int|
                        0 <= i < self.tasks@.len()
                            && (#[trigger] self.tasks@[i]).state == TaskState::Ready
                            ==> self.tasks@[i].priority <= self.tasks@[j as int].priority
                },
            },
    {
        let mut best: Option<usize> = None;
        let n = self.tasks.len();
        let mut i: usize = 0;
        while i < n
            invariant
                n == self.tasks@.len(),
                i <= n,
                match best {
                    None => forall|k: int|
                        0 <= k < i ==> (#[trigger] self.tasks@[k]).state != TaskState::Ready,
                    Some(j) => {
                        &&& (j as int) < i as int
                        &&& self.tasks@[j as int].state == TaskState::Ready
                        &&& forall|k: int|
                            0 <= k < i && (#[trigger] self.tasks@[k]).state == TaskState::Ready
                                ==> self.tasks@[k].priority <= self.tasks@[j as int].priority
                    },
                },
            decreases n - i,
        {
            let candidate = self.tasks[i];
            if candidate.state == TaskState::Ready {
                let replace = match best {
                    None => true,
                    Some(j) => self.tasks[j].priority < candidate.priority,
                };
                if replace {
                    best = Some(i);
                }
            }
            i = i + 1;
        }
        best
    }

    /// Names the `Ready` task with the maximum priority, or nothing when no
    /// task is `Ready`. The query has no side effect: the chosen task stays
    /// `Ready`, and consecutive calls may name the same task.
    pub fn schedule(&mut self) -> (r: Option<TaskId>)
        requires
            old(self).inv(),
        ensures
            final(self).inv(),
            *final(self) == *old(self),
            Exec::schedule_choice(*old(self), r),
    {
        let choice = self.best_ready_index();
        match choice {
            None => {
                proof {
                    assert forall|x: TaskId|
                        self.is_issued(x) implies (#[trigger] self.state_of(x))
                        != TaskState::Ready by {
                        assert(0 <= self.idx(x) < self.tasks@.len());
                    }
                }
                None
            },
            Some(j) => {
                let chosen = self.tasks[j];
                proof {
                    assert(self.is_issued(chosen.id));
                    assert(self.idx(chosen.id) == j as int);
                    assert forall|x: TaskId|
                        self.is_issued(x) && (#[trigger] self.state_of(x)) == TaskState::Ready
                        implies self.priority_of(x) <= self.priority_of(chosen.id) by {
                        assert(0 <= self.idx(x) < self.tasks@.len());
                    }
                }
                Some(chosen.id)
            },
        }
    }

    /// Marks `id`'s task `Terminated` — keeping its registry entry — and
    /// removes its mailbox together with any pending payloads. Terminating
    /// an unknown identifier is a silent no-op; `Terminated` is absorbing,
    /// so repeating the call changes nothing further.
    pub fn terminate_task(&mut self, id: TaskId)
        requires
            old(self).inv(),
        ensures
            final(self).inv(),
            Exec::terminate_post(*old(self), *final(self), id),
    {
        let v = id.0;
        if 1 <= v && (v as usize) <= self.tasks.len() {
            let idx = (v - 1) as usize;
            let task: Task = self.tasks[idx];
            self.tasks[idx] = Task { id: task.id, priority: task.priority, state: TaskState::Terminated };
            self.mailboxes[idx] = None;
        }
    }

    /// Whether `id` names a task this executor has created, terminated or
    /// not: registry entries are never removed.
    pub fn contains_task(&self, id: TaskId) -> (r: bool)
        ensures
            r == self.is_issued(id),
    {
        1 <= id.0 && (id.0 as usize) <= self.tasks.len()
    }

    /// How many tasks this executor has created over its lifetime.
    pub fn task_count(&self) -> (n: usize)
        ensures
            n == self.issued_count(),
    {
        self.tasks.len()
    }
}

/// A mailbox only ever exists for an issued identifier.
pub broadcast proof fn lemma_has_mailbox_is_issued(e: Exec, x: TaskId)
    ensures
        #[trigger] e.has_mailbox(x) ==> e.is_issued(x),
{
}

/// The mailbox-set invariant: a mailbox exists for `x` exactly while `x` is
/// issued and has not terminated.
pub proof fn lemma_mailbox_iff_live(e: Exec, x: TaskId)
    requires
        e.inv(),
    ensures
        e.has_mailbox(x) <==> (e.is_issued(x) && e.state_of(x) != TaskState::Terminated),
{
    if e.is_issued(x) {
        assert(e.mailboxes@[e.idx(x)] is Some <==> e.tasks@[e.idx(x)].state
            != TaskState::Terminated);
    }
}

} // verus!
