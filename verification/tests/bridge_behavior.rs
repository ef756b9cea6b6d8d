use napi_sandbox::bridge::{create, Action, Target};
use napi_sandbox::errors::{ErrorStrategy, MarshalError, QueueStatus};
use napi_sandbox::marshal::WorkItem;
use napi_sandbox::pending::{SettleState, Settlement};

#[test]
fn fulfill_settles_with_the_delivered_value() {
    let mut b = create::<i32>(1, 2, ErrorStrategy::Fatal).unwrap();
    let status = b.fulfill(WorkItem::Raw(42));
    assert_eq!(status, QueueStatus::Queued);
    let action = b.step_fulfill();
    assert_eq!(action, Action::Settled);
    assert_eq!(b.value.state, SettleState::Fulfilled(42));
}

#[test]
fn reject_settles_with_the_delivered_value() {
    let mut b = create::<String>(1, 2, ErrorStrategy::Fatal).unwrap();
    let status = b.reject(WorkItem::Raw(String::from("Hi")));
    assert_eq!(status, QueueStatus::Queued);
    let action = b.step_reject();
    assert_eq!(action, Action::Settled);
    assert_eq!(
        b.value.state,
        SettleState::Rejected(Settlement::Value(String::from("Hi")))
    );
}

#[test]
fn fulfill_returns_before_anything_settles() {
    let mut b = create::<i32>(1, 2, ErrorStrategy::Fatal).unwrap();
    b.fulfill(WorkItem::Raw(5));
    // fulfill has returned; the work item is queued but not executed
    assert_eq!(b.value.state, SettleState::Pending);
    assert_eq!(b.handle.fulfill_channel.queue.len(), 1);
    b.reject(WorkItem::Raw(6));
    assert_eq!(b.value.state, SettleState::Pending);
    assert_eq!(b.handle.reject_channel.queue.len(), 1);
}

#[test]
fn two_bridges_settle_independently() {
    let mut first = create::<i32>(1, 2, ErrorStrategy::Fatal).unwrap();
    let mut second = create::<i32>(3, 4, ErrorStrategy::Fatal).unwrap();
    first.fulfill(WorkItem::Raw(1));
    second.fulfill(WorkItem::Raw(2));
    first.step_fulfill();
    assert_eq!(first.value.state, SettleState::Fulfilled(1));
    assert_eq!(second.value.state, SettleState::Pending);
    second.step_fulfill();
    assert_eq!(first.value.state, SettleState::Fulfilled(1));
    assert_eq!(second.value.state, SettleState::Fulfilled(2));
}

#[test]
fn race_fulfill_executed_first_wins() {
    let mut b = create::<String>(1, 2, ErrorStrategy::Fatal).unwrap();
    b.fulfill(WorkItem::Raw(String::from("10")));
    b.reject(WorkItem::Raw(String::from("err")));
    // the runtime thread happens to service the fulfill channel first
    b.step_fulfill();
    b.step_reject();
    assert_eq!(b.value.state, SettleState::Fulfilled(String::from("10")));
}

#[test]
fn race_reject_executed_first_wins() {
    let mut b = create::<String>(1, 2, ErrorStrategy::Fatal).unwrap();
    b.fulfill(WorkItem::Raw(String::from("10")));
    b.reject(WorkItem::Raw(String::from("err")));
    // the runtime thread happens to service the reject channel first
    b.step_reject();
    b.step_fulfill();
    assert_eq!(
        b.value.state,
        SettleState::Rejected(Settlement::Value(String::from("err")))
    );
}

#[test]
fn one_channel_executes_in_submission_order() {
    let mut b = create::<i32>(1, 2, ErrorStrategy::Fatal).unwrap();
    b.fulfill(WorkItem::Raw(1));
    b.fulfill(WorkItem::Raw(2));
    b.step_fulfill();
    b.step_fulfill();
    // FIFO: the first submission settled first, and settlement is terminal
    assert_eq!(b.value.state, SettleState::Fulfilled(1));
}

#[test]
fn producer_runs_only_on_the_runtime_thread_and_once() {
    let mut b = create::<i32>(1, 2, ErrorStrategy::Fatal).unwrap();
    b.fulfill(WorkItem::Producer(7));
    // enqueueing did not run the producer
    assert_eq!(b.value.state, SettleState::Pending);
    // the runtime thread dequeues the item and is told to run producer 7
    let action = b.step_fulfill();
    assert_eq!(action, Action::RunProducer(7));
    assert_eq!(b.value.state, SettleState::Pending);
    // the item left the queue with that step: nothing asks for it again
    assert_eq!(b.step_fulfill(), Action::Idle);
    // the host ran the producer and hands its result back
    let action = b.deliver(Target::Fulfill, Ok(42));
    assert_eq!(action, Action::Settled);
    assert_eq!(b.value.state, SettleState::Fulfilled(42));
}

#[test]
fn producer_result_can_reject() {
    let mut b = create::<i32>(1, 2, ErrorStrategy::Fatal).unwrap();
    b.reject(WorkItem::Producer(3));
    let action = b.step_reject();
    assert_eq!(action, Action::RunProducer(3));
    let action = b.deliver(Target::Reject, Ok(9));
    assert_eq!(action, Action::Settled);
    assert_eq!(b.value.state, SettleState::Rejected(Settlement::Value(9)));
}

#[test]
fn payload_is_converted_on_the_runtime_thread() {
    let mut b = create::<i32>(1, 2, ErrorStrategy::Fatal).unwrap();
    b.fulfill(WorkItem::Payload(vec![1, 2, 3]));
    assert_eq!(b.value.state, SettleState::Pending);
    let action = b.step_fulfill();
    assert_eq!(action, Action::ConvertPayload(vec![1, 2, 3]));
    let action = b.deliver(Target::Fulfill, Ok(123));
    assert_eq!(action, Action::Settled);
    assert_eq!(b.value.state, SettleState::Fulfilled(123));
}

#[test]
fn marshal_failure_is_fatal_by_default() {
    let mut b = create::<i32>(1, 2, ErrorStrategy::Fatal).unwrap();
    b.fulfill(WorkItem::Producer(1));
    b.step_fulfill();
    let action = b.deliver(
        Target::Fulfill,
        Err(MarshalError::ProducerFailed(String::from("boom"))),
    );
    assert_eq!(
        action,
        Action::Abort(MarshalError::ProducerFailed(String::from("boom")))
    );
    // the pending value is untouched; the host terminates instead
    assert_eq!(b.value.state, SettleState::Pending);
}

#[test]
fn marshal_failure_can_propagate_as_rejection() {
    let mut b = create::<i32>(1, 2, ErrorStrategy::PropagateAsRejection).unwrap();
    b.fulfill(WorkItem::Payload(vec![255]));
    b.step_fulfill();
    let action = b.deliver(
        Target::Fulfill,
        Err(MarshalError::PayloadConversionFailed(String::from("bad payload"))),
    );
    assert_eq!(action, Action::Settled);
    assert_eq!(
        b.value.state,
        SettleState::Rejected(Settlement::DeliveryFailure(
            MarshalError::PayloadConversionFailed(String::from("bad payload"))
        ))
    );
}

#[test]
fn marshal_failure_can_be_ignored() {
    let mut b = create::<i32>(1, 2, ErrorStrategy::Ignore).unwrap();
    b.fulfill(WorkItem::Producer(1));
    b.step_fulfill();
    let action = b.deliver(
        Target::Fulfill,
        Err(MarshalError::ProducerFailed(String::from("boom"))),
    );
    assert_eq!(action, Action::Discarded);
    // the bridge is still pending, so a later delivery can settle it
    b.fulfill(WorkItem::Raw(5));
    b.step_fulfill();
    assert_eq!(b.value.state, SettleState::Fulfilled(5));
}

#[test]
fn closed_channel_refuses_new_work() {
    let mut b = create::<i32>(1, 2, ErrorStrategy::Fatal).unwrap();
    b.handle.fulfill_channel.close();
    let status = b.fulfill(WorkItem::Raw(1));
    assert_eq!(status, QueueStatus::Closed);
    assert_eq!(b.step_fulfill(), Action::Idle);
    assert_eq!(b.value.state, SettleState::Pending);
    // the reject channel is its own primitive and is still open
    let status = b.reject(WorkItem::Raw(2));
    assert_eq!(status, QueueStatus::Queued);
}

#[test]
fn settled_bridge_ignores_every_later_attempt() {
    let mut b = create::<i32>(1, 2, ErrorStrategy::Fatal).unwrap();
    b.fulfill(WorkItem::Raw(1));
    b.step_fulfill();
    assert_eq!(b.value.state, SettleState::Fulfilled(1));
    b.fulfill(WorkItem::Raw(2));
    b.reject(WorkItem::Raw(3));
    b.step_fulfill();
    b.step_reject();
    assert_eq!(b.value.state, SettleState::Fulfilled(1));
    let action = b.deliver(Target::Reject, Ok(4));
    assert_eq!(action, Action::Settled);
    assert_eq!(b.value.state, SettleState::Fulfilled(1));
}
