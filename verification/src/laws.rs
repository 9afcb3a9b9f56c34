//! What holds of whole runs of the driver, stated over [`DriverModel`].
//!
//! A run is a driver followed through a sequence of bus completions. The
//! driver's methods are specified by the same model functions, so each law
//! holds of the driver itself.

use vstd::prelude::*;
use crate::frame::loaded;
use crate::panel::ErrorCode;
use crate::protocol::{sequence, StepModel, STEP_COUNT};
use crate::scheduler::{SchedulerModel, TransferState};
use crate::screen::{ActionModel, DriverModel};

verus! {

/// The driver after the completions `results`, taken in order.
pub open spec fn run<C>(m: DriverModel<C>, results: Seq<Result<(), ErrorCode>>) -> DriverModel<C>
    decreases results.len(),
{
    if results.len() == 0 {
        m
    } else {
        run(m, results.drop_last()).complete(results.last())
    }
}

/// What the driver asked for at each of the completions `results`.
pub open spec fn trace<C>(m: DriverModel<C>, results: Seq<Result<(), ErrorCode>>) -> Seq<
    Option<ActionModel>,
>
    decreases results.len(),
{
    if results.len() == 0 {
        Seq::empty()
    } else {
        trace(m, results.drop_last()).push(run(m, results.drop_last()).action(results.last()))
    }
}

/// Number of entries of `actions` that ask to notify the client.
pub open spec fn notifications(actions: Seq<Option<ActionModel>>) -> nat
    decreases actions.len(),
{
    if actions.len() == 0 {
        0
    } else {
        let rest = notifications(actions.drop_last());
        if actions.last() matches Some(ActionModel::Notify(_)) {
            rest + 1
        } else {
            rest
        }
    }
}

/// Actions that only issue steps notify nobody.
pub proof fn lemma_issues_notify_nobody(actions: Seq<Option<ActionModel>>)
    requires
        forall|i: int|
            0 <= i < actions.len() ==> (#[trigger] actions[i]) matches Some(
                ActionModel::Issue(_),
            ),
    ensures
        notifications(actions) == 0,
    decreases actions.len(),
{
    if actions.len() > 0 {
        let rest = actions.drop_last();
        assert forall|i: int| 0 <= i < rest.len() implies (#[trigger] rest[i]) matches Some(
            ActionModel::Issue(_),
        ) by {
            assert(rest[i] == actions[i]);
        }
        lemma_issues_notify_nobody(rest);
        assert(actions.last() == actions[actions.len() - 1]);
    }
}

/// Whether every completion of `results` is a success.
pub open spec fn all_ok(results: Seq<Result<(), ErrorCode>>) -> bool {
    forall|i: int| 0 <= i < results.len() ==> (#[trigger] results[i]) is Ok
}

/// Whether the driver awaits the completion of step `step`.
pub open spec fn awaiting<C>(m: DriverModel<C>, step: nat) -> bool {
    m.scheduler.state == TransferState::AwaitingBusCompletion && m.scheduler.step == step
}

/// The driver `m` moved on to step `step` of the sequence in flight.
pub open spec fn at_step<C>(m: DriverModel<C>, step: nat) -> DriverModel<C> {
    DriverModel { scheduler: SchedulerModel { step, ..m.scheduler }, ..m }
}

/// The driver `m` after the sequence in flight has ended.
pub open spec fn ended<C>(m: DriverModel<C>) -> DriverModel<C> {
    DriverModel { held: m.scheduler.in_flight, scheduler: SchedulerModel::idle(), ..m }
}

/// Every operation keeps the driver well formed.
pub proof fn lemma_wf_preserved<C>(
    m: DriverModel<C>,
    pixels: Seq<u8>,
    len: nat,
    result: Result<(), ErrorCode>,
    client: Option<C>,
)
    requires
        m.wf(),
    ensures
        m.write(pixels, len).wf(),
        m.complete(result).wf(),
        m.set_client(client).wf(),
{
}

/// A driver is in exactly one transfer state, so at most one sequence
/// awaits a completion; while one does, a write of a full frame is turned
/// down with `Busy`, and a write that is turned down changes nothing.
pub proof fn lemma_busy_while_outstanding<C>(m: DriverModel<C>, pixels: Seq<u8>, len: nat)
    requires
        m.wf(),
    ensures
        m.scheduler.state == TransferState::AwaitingBusCompletion && DriverModel::<
            C,
        >::valid_write(pixels, len) ==> m.write_outcome(pixels, len) == Err::<StepModel, ErrorCode>(
            ErrorCode::Busy,
        ),
        m.scheduler.state == TransferState::AwaitingBusCompletion ==> m.write(pixels, len) == m,
        m.write_outcome(pixels, len) is Err ==> m.write(pixels, len) == m,
{
}

/// The frame buffer has exactly one owner: the manager while the driver is
/// idle, the scheduler while a completion is awaited. An accepted write
/// moves it to the scheduler with the pixels loaded, and it stays there over
/// every completion that does not end the sequence.
pub proof fn lemma_single_owner<C>(
    m: DriverModel<C>,
    pixels: Seq<u8>,
    len: nat,
    result: Result<(), ErrorCode>,
)
    requires
        m.wf(),
    ensures
        (m.held is Some) != (m.scheduler.in_flight is Some),
        m.held is Some <==> m.scheduler.state == TransferState::Idle,
        m.write_outcome(pixels, len) is Ok ==> m.write(pixels, len).held is None && m.write(
            pixels,
            len,
        ).scheduler.in_flight == Some(loaded(m.held.unwrap(), pixels, len)),
        m.scheduler.state == TransferState::AwaitingBusCompletion && !m.ends_sequence(result)
            ==> m.complete(result).held is None && m.complete(result).scheduler.in_flight
            == m.scheduler.in_flight,
{
}

/// An accepted write issues the first step of the sequence and leaves the
/// driver awaiting its completion.
pub proof fn lemma_write_issues_first_step<C>(m: DriverModel<C>, pixels: Seq<u8>, len: nat)
    requires
        m.wf(),
        m.scheduler.state == TransferState::Idle,
        DriverModel::<C>::valid_write(pixels, len),
    ensures
        m.write_outcome(pixels, len) == Ok::<StepModel, ErrorCode>(sequence()[0]),
        awaiting(m.write(pixels, len), 0),
{
}

/// While the sequence does not end, each success issues the step that
/// follows the one in flight: after `results.len()` successes from step
/// `step`, the driver awaits step `step + results.len()`, nothing else has
/// changed, and the completion at index `i` asked for step `step + i + 1`.
pub proof fn lemma_steps_in_order<C>(
    m: DriverModel<C>,
    step: nat,
    results: Seq<Result<(), ErrorCode>>,
)
    requires
        m.wf(),
        awaiting(m, step),
        all_ok(results),
        step + results.len() < STEP_COUNT,
    ensures
        run(m, results) == at_step(m, step + results.len()),
        run(m, results).wf(),
        trace(m, results).len() == results.len(),
        forall|i: int|
            0 <= i < results.len() ==> (#[trigger] trace(m, results)[i]) == Some(
                ActionModel::Issue(sequence()[step + i + 1]),
            ),
        notifications(trace(m, results)) == 0,
    decreases results.len(),
{
    if results.len() > 0 {
        let before = results.drop_last();
        lemma_steps_in_order(m, step, before);
        assert(results.last() is Ok);
        let t = trace(m, before);
        assert forall|i: int| 0 <= i < results.len() implies (#[trigger] trace(m, results)[i])
            == Some(ActionModel::Issue(sequence()[step + i + 1])) by {
            if i < before.len() {
                assert(trace(m, results)[i] == t[i]);
            }
        }
        lemma_issues_notify_nobody(trace(m, results));
    }
}

/// A sequence whose every step succeeds notifies the client exactly once,
/// with success, at the last completion: every earlier completion issued a
/// step. The driver is then idle, the buffer is back with the manager, and
/// a write of a full frame is accepted again.
pub proof fn lemma_success_notifies_once<C>(
    m: DriverModel<C>,
    step: nat,
    results: Seq<Result<(), ErrorCode>>,
    pixels: Seq<u8>,
    len: nat,
)
    requires
        m.wf(),
        awaiting(m, step),
        all_ok(results),
        step + results.len() == STEP_COUNT,
        DriverModel::<C>::valid_write(pixels, len),
    ensures
        run(m, results) == ended(m),
        run(m, results).wf(),
        run(m, results).scheduler.state == TransferState::Idle,
        run(m, results).held == m.scheduler.in_flight,
        trace(m, results).len() == results.len(),
        trace(m, results).last() == Some(ActionModel::Notify(Ok(()))),
        notifications(trace(m, results)) == 1,
        forall|i: int|
            0 <= i < results.len() - 1 ==> (#[trigger] trace(m, results)[i]) == Some(
                ActionModel::Issue(sequence()[step + i + 1]),
            ),
        run(m, results).write_outcome(pixels, len) is Ok,
{
    let before = results.drop_last();
    lemma_steps_in_order(m, step, before);
    assert(results.last() is Ok);
    assert(results.last()->Ok_0 == ());
    assert(results.last() == Ok::<(), ErrorCode>(()));
    let t = trace(m, before);
    assert forall|i: int| 0 <= i < results.len() - 1 implies (#[trigger] trace(m, results)[i])
        == Some(ActionModel::Issue(sequence()[step + i + 1])) by {
        assert(trace(m, results)[i] == t[i]);
    }
    assert(trace(m, results).drop_last() =~= t);
}

/// A bus failure after `oks.len()` successes notifies the client exactly
/// once, with that failure: every earlier completion issued a step. The
/// driver is then idle, the buffer is back with the manager, and a write of
/// a full frame is accepted again.
pub proof fn lemma_failure_notifies_once<C>(
    m: DriverModel<C>,
    step: nat,
    oks: Seq<Result<(), ErrorCode>>,
    error: ErrorCode,
    pixels: Seq<u8>,
    len: nat,
)
    requires
        m.wf(),
        awaiting(m, step),
        all_ok(oks),
        step + oks.len() < STEP_COUNT,
        DriverModel::<C>::valid_write(pixels, len),
    ensures
        run(m, oks.push(Err(error))) == ended(m),
        run(m, oks.push(Err(error))).wf(),
        run(m, oks.push(Err(error))).scheduler.state == TransferState::Idle,
        run(m, oks.push(Err(error))).held == m.scheduler.in_flight,
        trace(m, oks.push(Err(error))).len() == oks.len() + 1,
        trace(m, oks.push(Err(error))).last() == Some(ActionModel::Notify(Err(error))),
        notifications(trace(m, oks.push(Err(error)))) == 1,
        forall|i: int|
            0 <= i < oks.len() ==> (#[trigger] trace(m, oks.push(Err(error)))[i]) == Some(
                ActionModel::Issue(sequence()[step + i + 1]),
            ),
        run(m, oks.push(Err(error))).write_outcome(pixels, len) is Ok,
{
    let results = oks.push(Err(error));
    assert(results.drop_last() =~= oks);
    assert(results.last() == Err::<(), ErrorCode>(error));
    lemma_steps_in_order(m, step, oks);
    let t = trace(m, oks);
    assert forall|i: int| 0 <= i < oks.len() implies (#[trigger] trace(m, results)[i]) == Some(
        ActionModel::Issue(sequence()[step + i + 1]),
    ) by {
        assert(trace(m, results)[i] == t[i]);
    }
    assert(trace(m, results).drop_last() =~= t);
}

/// The driver `m` after a sequence on the first `len` bytes of `pixels` has
/// ended: `m` itself, the pixels loaded into its frame.
pub open spec fn written<C>(m: DriverModel<C>, pixels: Seq<u8>, len: nat) -> DriverModel<C> {
    DriverModel { held: Some(loaded(m.held.unwrap(), pixels, len)), ..m }
}

/// A write of a full frame to an idle driver, every step of which succeeds:
/// the write issues the first step; each completion but the last issues the
/// step that follows, in the order of the sequence; the last completion
/// notifies the client with success, and nothing else does. The driver ends
/// idle, the manager holding the frame with the pixels loaded.
pub proof fn lemma_accepted_write_succeeds<C>(
    m: DriverModel<C>,
    pixels: Seq<u8>,
    len: nat,
    results: Seq<Result<(), ErrorCode>>,
)
    requires
        m.wf(),
        m.scheduler.state == TransferState::Idle,
        DriverModel::<C>::valid_write(pixels, len),
        all_ok(results),
        results.len() == STEP_COUNT,
    ensures
        m.write_outcome(pixels, len) == Ok::<StepModel, ErrorCode>(sequence()[0]),
        forall|i: int|
            0 <= i < STEP_COUNT - 1 ==> (#[trigger] trace(m.write(pixels, len), results)[i])
                == Some(ActionModel::Issue(sequence()[i + 1])),
        trace(m.write(pixels, len), results)[STEP_COUNT - 1] == Some(
            ActionModel::Notify(Ok(())),
        ),
        notifications(trace(m.write(pixels, len), results)) == 1,
        run(m.write(pixels, len), results) == written(m, pixels, len),
        written(m, pixels, len).wf(),
{
    lemma_wf_preserved(m, pixels, len, Ok(()), None);
    lemma_success_notifies_once(m.write(pixels, len), 0, results, pixels, len);
}

/// A write of a full frame to an idle driver that meets a bus failure after
/// `oks.len()` successes: each success issued the step that follows, the
/// failure notifies the client with that failure, and nothing else does.
/// The driver ends idle, the manager holding the frame with the pixels
/// loaded.
pub proof fn lemma_accepted_write_fails<C>(
    m: DriverModel<C>,
    pixels: Seq<u8>,
    len: nat,
    oks: Seq<Result<(), ErrorCode>>,
    error: ErrorCode,
)
    requires
        m.wf(),
        m.scheduler.state == TransferState::Idle,
        DriverModel::<C>::valid_write(pixels, len),
        all_ok(oks),
        oks.len() < STEP_COUNT,
    ensures
        m.write_outcome(pixels, len) == Ok::<StepModel, ErrorCode>(sequence()[0]),
        forall|i: int|
            0 <= i < oks.len() ==> (#[trigger] trace(m.write(pixels, len), oks.push(Err(error)))[i])
                == Some(ActionModel::Issue(sequence()[i + 1])),
        trace(m.write(pixels, len), oks.push(Err(error)))[oks.len() as int] == Some(
            ActionModel::Notify(Err(error)),
        ),
        notifications(trace(m.write(pixels, len), oks.push(Err(error)))) == 1,
        run(m.write(pixels, len), oks.push(Err(error))) == written(m, pixels, len),
        written(m, pixels, len).wf(),
{
    lemma_wf_preserved(m, pixels, len, Ok(()), None);
    lemma_failure_notifies_once(m.write(pixels, len), 0, oks, error, pixels, len);
}

/// Once the driver is idle, completions change nothing and ask for nothing.
pub proof fn lemma_idle_ignores_completions<C>(m: DriverModel<C>, result: Result<(), ErrorCode>)
    requires
        m.scheduler.state == TransferState::Idle,
    ensures
        m.complete(result) == m,
        m.action(result) is None,
{
}

} // verus!
