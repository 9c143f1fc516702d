//! What a whole session resolves to: the result extraction stated over every
//! course that a session can take.

use crate::error::ErrorView;
use crate::session::{
    record_spec, resolution, step_spec, ActionView, Phase, SessionEventView, SessionUpdateView,
    SessionView,
};
use vstd::prelude::*;

verus! {

/// One thing that happens to a running session: the caller reports an event
/// to the driver, or the agent invokes the completion tool with a value.
pub enum SessionOp<T> {
    Event(SessionEventView),
    ReturnResult(T),
}

/// The session after `op`, and what the invocation resolved to if `op` ended
/// it.
pub open spec fn apply_op<T>(s: SessionView<T>, op: SessionOp<T>) -> (
    SessionView<T>,
    Option<Result<T, ErrorView>>,
) {
    match op {
        SessionOp::Event(event) => {
            let (next, action) = step_spec(s, event);
            match action {
                ActionView::Finish(result) => (next, Some(result)),
                _ => (next, None),
            }
        },
        SessionOp::ReturnResult(value) => (record_spec(s, value).0, None),
    }
}

/// What the invocation resolves to over `ops`, taken in order from the state
/// `s`: the result handed out by the first of them that ends the session, and
/// nothing while the session still runs.
pub open spec fn resolve<T>(s: SessionView<T>, ops: Seq<SessionOp<T>>) -> Option<
    Result<T, ErrorView>,
>
    decreases ops.len(),
{
    if ops.len() == 0 {
        None
    } else {
        let (next, ended) = apply_op(s, ops[0]);
        match ended {
            Some(result) => Some(result),
            None => resolve(next, ops.drop_first()),
        }
    }
}

/// Whether the completion tool is invoked nowhere in `ops`.
pub open spec fn never_returns<T>(ops: Seq<SessionOp<T>>) -> bool {
    forall|i: int| 0 <= i < ops.len() ==> (#[trigger] ops[i]) is Event
}

/// A session that has come to rest resolves to nothing further, whatever
/// still happens to it.
pub proof fn lemma_rest_is_final<T>(s: SessionView<T>, ops: Seq<SessionOp<T>>)
    requires
        s.phase.terminal(),
    ensures
        resolve(s, ops) is None,
    decreases ops.len(),
{
    if ops.len() > 0 {
        lemma_rest_is_final(apply_op(s, ops[0]).0, ops.drop_first());
    }
}

/// The cell is read only where the session ends, and it is empty afterwards:
/// a step hands out a result exactly when it moves a running session to rest.
pub proof fn lemma_finish_iff_comes_to_rest<T>(s: SessionView<T>, event: SessionEventView)
    ensures
        step_spec(s, event).1 is Finish <==> !s.phase.terminal() && step_spec(
            s,
            event,
        ).0.phase.terminal(),
        step_spec(s, event).1 is Finish ==> step_spec(s, event).0.output is None,
        !(step_spec(s, event).1 is Finish) ==> step_spec(s, event).0.output == s.output,
        step_spec(s, event).0.prompt == s.prompt,
        step_spec(s, event).0.tools == s.tools,
{
}

/// The stop signal resolves by the cell alone: to the value in it, or to the
/// absence of a result when it is empty. The reason for stopping is recorded
/// and plays no part.
pub proof fn lemma_stop_reads_the_cell<T>(s: SessionView<T>, reason: crate::session::StopReason)
    requires
        s.phase == Phase::AwaitingUpdate,
    ensures
        step_spec(s, SessionEventView::Update(SessionUpdateView::Stop(reason))).1
            == ActionView::Finish(resolution(s.output)),
        step_spec(s, SessionEventView::Update(SessionUpdateView::Stop(reason))).0.phase
            == Phase::Stopped(reason),
        s.output matches Some(value) ==> resolution(s.output) == Ok::<T, ErrorView>(value),
        s.output is None ==> resolution(s.output) == Err::<T, ErrorView>(ErrorView::NoResult),
{
}

/// Every permission request gets exactly one answer, the one that the policy
/// chooses, and the driver reads no further update before the answer is
/// reported as sent.
pub proof fn lemma_request_is_answered_once<T>(
    s: SessionView<T>,
    options: Seq<crate::permission::PermissionOptionView>,
    event: SessionEventView,
)
    requires
        s.phase == Phase::AwaitingUpdate,
    ensures
        ({
            let asked = step_spec(
                s,
                SessionEventView::Update(SessionUpdateView::PermissionRequest(options)),
            );
            let then = step_spec(asked.0, event);
            &&& asked.1 == ActionView::<T>::Respond(crate::permission::decide(options))
            &&& asked.0.phase == Phase::ProcessingRequest
            &&& !(then.1 is Respond)
            &&& then.1 is ReadUpdate <==> event is Done
            &&& event is Done ==> then.0.phase == Phase::AwaitingUpdate
        }),
        step_spec(s, event).1 is Respond <==> event matches SessionEventView::Update(
            SessionUpdateView::PermissionRequest(_),
        ),
{
}

/// Once the cell holds a value, the session can only resolve to that value
/// or fail on the transport: no later invocation of the completion tool
/// replaces it.
pub proof fn lemma_first_value_stays<T>(s: SessionView<T>, ops: Seq<SessionOp<T>>, value: T)
    requires
        s.output == Some(value),
    ensures
        resolve(s, ops) matches Some(result) ==> result == Ok::<T, ErrorView>(value)
            || result matches Err(ErrorView::Transport(_)),
    decreases ops.len(),
{
    if ops.len() > 0 {
        let (next, ended) = apply_op(s, ops[0]);
        if s.phase.terminal() {
            lemma_rest_is_final(s, ops);
        } else if ended is None {
            match ops[0] {
                SessionOp::Event(event) => {
                    lemma_finish_iff_comes_to_rest(s, event);
                },
                SessionOp::ReturnResult(_) => {},
            }
            lemma_first_value_stays(next, ops.drop_first(), value);
        }
    }
}

/// A session in which the completion tool is never invoked does not resolve
/// to a value: when it stops, the invocation fails with the absence of a
/// result.
pub proof fn lemma_no_invocation_gives_no_result<T>(s: SessionView<T>, ops: Seq<SessionOp<T>>)
    requires
        s.output is None,
        never_returns(ops),
    ensures
        resolve(s, ops) matches Some(result) ==> result == Err::<T, ErrorView>(ErrorView::NoResult)
            || result matches Err(ErrorView::Transport(_)),
    decreases ops.len(),
{
    if ops.len() > 0 {
        let (next, ended) = apply_op(s, ops[0]);
        assert(ops[0] is Event);
        let event = ops[0]->Event_0;
        lemma_finish_iff_comes_to_rest(s, event);
        if ended is None {
            let rest = ops.drop_first();
            assert forall|i: int| 0 <= i < rest.len() implies (#[trigger] rest[i]) is Event by {
                assert(rest[i] == ops[i + 1]);
            }
            lemma_no_invocation_gives_no_result(next, rest);
        }
    }
}

/// The value of the first invocation of the completion tool is what the
/// invocation resolves to. If the tool is invoked with `value` at position
/// `k`, not before, and while the session still runs, then a session that
/// ends without a transport failure resolves to `value`; in particular so
/// when that invocation is the only one.
pub proof fn lemma_first_invocation_is_the_result<T>(
    s: SessionView<T>,
    ops: Seq<SessionOp<T>>,
    k: int,
    value: T,
)
    requires
        s.output is None,
        0 <= k < ops.len(),
        ops[k] == SessionOp::ReturnResult(value),
        never_returns(ops.take(k)),
        resolve(s, ops.take(k)) is None,
    ensures
        resolve(s, ops) matches Some(result) ==> result == Ok::<T, ErrorView>(value)
            || result matches Err(ErrorView::Transport(_)),
    decreases k,
{
    let (next, ended) = apply_op(s, ops[0]);
    let rest = ops.drop_first();
    if k == 0 {
        if s.phase.terminal() {
            lemma_rest_is_final(s, ops);
        } else {
            lemma_first_value_stays(next, rest, value);
        }
    } else {
        let before = ops.take(k);
        assert(before[0] == ops[0]);
        assert(ops[0] is Event);
        lemma_finish_iff_comes_to_rest(s, ops[0]->Event_0);
        assert(before.drop_first() =~= rest.take(k - 1));
        assert(ended is None);
        assert forall|i: int| 0 <= i < rest.take(k - 1).len() implies (#[trigger] rest.take(
            k - 1,
        )[i]) is Event by {
            assert(rest.take(k - 1)[i] == before[i + 1]);
        }
        lemma_first_invocation_is_the_result(next, rest, k - 1, value);
    }
}

/// Exactly one invocation, made while the session runs, decides the result:
/// when the completion tool is invoked once, with `value`, and the session
/// then stops, the invocation resolves to `value`.
pub proof fn lemma_single_invocation_is_the_result<T>(
    s: SessionView<T>,
    ops: Seq<SessionOp<T>>,
    k: int,
    value: T,
    result: Result<T, ErrorView>,
)
    requires
        s.output is None,
        0 <= k < ops.len(),
        ops[k] == SessionOp::ReturnResult(value),
        forall|i: int| 0 <= i < ops.len() && i != k ==> (#[trigger] ops[i]) is Event,
        resolve(s, ops.take(k)) is None,
        resolve(s, ops) == Some(result),
        !(result matches Err(ErrorView::Transport(_))),
    ensures
        result == Ok::<T, ErrorView>(value),
{
    assert forall|i: int| 0 <= i < ops.take(k).len() implies (#[trigger] ops.take(k)[i]) is Event by {
        assert(ops.take(k)[i] == ops[i]);
    }
    lemma_first_invocation_is_the_result(s, ops, k, value);
}

/// Without any invocation of the completion tool, a session that stops
/// resolves to the absence of a result.
pub proof fn lemma_stop_without_invocation_is_no_result<T>(
    s: SessionView<T>,
    ops: Seq<SessionOp<T>>,
    result: Result<T, ErrorView>,
)
    requires
        s.output is None,
        never_returns(ops),
        resolve(s, ops) == Some(result),
        !(result matches Err(ErrorView::Transport(_))),
    ensures
        result == Err::<T, ErrorView>(ErrorView::NoResult),
{
    lemma_no_invocation_gives_no_result(s, ops);
}

} // verus!
