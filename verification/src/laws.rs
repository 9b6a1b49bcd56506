//! Library-wide laws, stated over the operation contracts of
//! [`crate::executor::Exec`] and proved from them alone. Each proof function
//! takes the states and results of a chain of operations, described by the
//! operations' own transition predicates, and derives the guarantee.

use vstd::prelude::*;

use crate::executor::Exec;
use crate::executor::TaskId;
use crate::executor::TaskState;

verus! {

broadcast use crate::executor::lemma_has_mailbox_is_issued;

/// Uniqueness of identifiers: `create_task` never returns an identifier that
/// was already issued, and every operation keeps issued identifiers issued
/// (`create_post` itself, `registry_unchanged` for sending and receiving,
/// and `terminate_post` all say so). Hence, for any two `create_task` calls
/// — the middle premise carries the issued identifiers from the first
/// call's post-state to the second call's pre-state — the returned
/// identifiers differ, so all identifiers returned across any sequence of
/// calls are pairwise distinct.
pub proof fn lemma_created_ids_distinct(
    e0: Exec,
    e1: Exec,
    p1: u8,
    r1: TaskId,
    e2: Exec,
    e3: Exec,
    p2: u8,
    r2: TaskId,
)
    requires
        Exec::create_post(e0, e1, p1, r1),
        forall|x: TaskId| e1.is_issued(x) ==> #[trigger] e2.is_issued(x),
        Exec::create_post(e2, e3, p2, r2),
    ensures
        r1 != r2,
{
    assert(e2.is_issued(r1));
}

/// FIFO per mailbox: when `m1`, `m2`, `m3` are sent to `t` in that order,
/// starting from an empty mailbox and with no intervening receive or
/// termination on `t`, the next four receives on `t` yield `m1`, then `m2`,
/// then `m3`, then nothing.
pub proof fn lemma_fifo_per_mailbox(
    e0: Exec,
    e1: Exec,
    e2: Exec,
    e3: Exec,
    e4: Exec,
    e5: Exec,
    e6: Exec,
    e7: Exec,
    t: TaskId,
    m1: Seq<u8>,
    m2: Seq<u8>,
    m3: Seq<u8>,
    r1: Option<Seq<u8>>,
    r2: Option<Seq<u8>>,
    r3: Option<Seq<u8>>,
    r4: Option<Seq<u8>>,
)
    requires
        e0.has_mailbox(t),
        e0.mailbox(t) == Seq::<Seq<u8>>::empty(),
        Exec::send_post(e0, e1, t, m1, true),
        Exec::send_post(e1, e2, t, m2, true),
        Exec::send_post(e2, e3, t, m3, true),
        Exec::receive_post(e3, e4, t, r1),
        Exec::receive_post(e4, e5, t, r2),
        Exec::receive_post(e5, e6, t, r3),
        Exec::receive_post(e6, e7, t, r4),
    ensures
        r1 == Some(m1),
        r2 == Some(m2),
        r3 == Some(m3),
        r4 is None,
{
    assert(e3.mailbox(t) =~= seq![m1, m2, m3]);
    assert(e4.mailbox(t) =~= seq![m2, m3]);
    assert(e5.mailbox(t) =~= seq![m3]);
    assert(e6.mailbox(t) =~= Seq::<Seq<u8>>::empty());
}

/// Termination clears the mailbox: once `terminate_task(t)` has run, a send
/// to `t` fails and a receive from `t` comes back empty, even if payloads
/// were pending before the termination.
pub proof fn lemma_terminate_clears_mailbox(
    e0: Exec,
    e1: Exec,
    t: TaskId,
    e2: Exec,
    msg: Seq<u8>,
    ok: bool,
    e3: Exec,
    r: Option<Seq<u8>>,
)
    requires
        Exec::terminate_post(e0, e1, t),
        Exec::send_post(e1, e2, t, msg, ok),
        Exec::receive_post(e1, e3, t, r),
    ensures
        !ok,
        r is None,
{
}

/// Idempotent termination: terminating `t` twice in a row leaves every
/// observable — issued identifiers, states, priorities, mailbox existence
/// and contents — exactly as the first termination left it.
pub proof fn lemma_terminate_idempotent(e0: Exec, e1: Exec, e2: Exec, t: TaskId)
    requires
        Exec::terminate_post(e0, e1, t),
        Exec::terminate_post(e1, e2, t),
    ensures
        e2.issued_count() == e1.issued_count(),
        forall|x: TaskId| #[trigger] e2.is_issued(x) == e1.is_issued(x),
        forall|x: TaskId| e1.is_issued(x) ==> #[trigger] e2.state_of(x) == e1.state_of(x),
        forall|x: TaskId| e1.is_issued(x) ==> #[trigger] e2.priority_of(x) == e1.priority_of(x),
        forall|x: TaskId| #[trigger] e2.has_mailbox(x) == e1.has_mailbox(x),
        forall|x: TaskId| e1.has_mailbox(x) ==> #[trigger] e2.mailbox(x) == e1.mailbox(x),
{
}

/// Terminating a never-issued identifier is a no-op: no error is signalled
/// and no observable of the executor changes.
pub proof fn lemma_terminate_unknown_noop(e0: Exec, e1: Exec, t: TaskId)
    requires
        Exec::terminate_post(e0, e1, t),
        !e0.is_issued(t),
    ensures
        e1.issued_count() == e0.issued_count(),
        forall|x: TaskId| #[trigger] e1.is_issued(x) == e0.is_issued(x),
        forall|x: TaskId| e0.is_issued(x) ==> #[trigger] e1.state_of(x) == e0.state_of(x),
        forall|x: TaskId| e0.is_issued(x) ==> #[trigger] e1.priority_of(x) == e0.priority_of(x),
        forall|x: TaskId| #[trigger] e1.has_mailbox(x) == e0.has_mailbox(x),
        forall|x: TaskId| e0.has_mailbox(x) ==> #[trigger] e1.mailbox(x) == e0.mailbox(x),
{
}

/// No `Ready` task, no choice: when every issued task is `Terminated` — in
/// particular in a freshly constructed executor, where nothing is issued at
/// all — `schedule` returns the empty result.
pub proof fn lemma_schedule_empty(e: Exec, r: Option<TaskId>)
    requires
        Exec::schedule_choice(e, r),
        forall|x: TaskId| e.is_issued(x) ==> #[trigger] e.state_of(x) == TaskState::Terminated,
    ensures
        r is None,
{
    if let Some(c) = r {
        assert(e.state_of(c) == TaskState::Terminated);
    }
}

} // verus!
