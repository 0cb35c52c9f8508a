use std::collections::HashMap;

use dnet::rpc::consumer::{
    handle_new_no_ack_request, handle_new_request, handle_new_stream_request, handle_producer_message,
    handle_response, handle_stream_response, on_timeout_elapsed, shutdown_ordered_by, take_requests, Message,
    Payload, ProducerMessageAction, RequestIdGenerator, ResultSender, StreamDelivery, ConsumerState, handle_message,
};
use dnet::rpc::producer::{
    self, handle_response as producer_handle_response, Aborted, ProducerAction, ProducerEvent, ProducerLoop,
    ProducerTask, StreamResponse, TaskEvent, TaskKind, TaskReply,
};
use dnet::rpc::request::{Phase, RequestAction, RequestEvent, RequestState, ResultStreamState};
use dnet::rpc::{Error, ShutdownType};
use dnet::transport::Poll;

type Sender = ResultSender<&'static str, &'static str, &'static str>;

#[test]
fn shutdown_types_become_errors() {
    assert_eq!(Error::from(ShutdownType::Closed), Error::Closed);
    assert_eq!(Error::from(ShutdownType::Aborted), Error::Aborted);
    assert_eq!(Error::from(ShutdownType::Shutdown), Error::Shutdown);
    assert_eq!(Error::from(ShutdownType::Timeout), Error::Timeout);
    assert_eq!(Aborted, Aborted);
}

#[test]
fn value_requests_are_pending_until_answered() {
    let mut requests: HashMap<u64, &str> = HashMap::new();
    let mut pending = 0usize;
    let sender: Sender = ResultSender::Value("v1");
    assert!(handle_new_request(1, true, sender, &mut requests, &mut pending).is_none());
    assert_eq!(pending, 1);
    assert_eq!(requests.get(&1), Some(&"v1"));
    assert_eq!(handle_response(1, &mut requests, &mut pending), Some("v1"));
    assert_eq!(pending, 0);
    assert_eq!(handle_response(1, &mut requests, &mut pending), None);
}

#[test]
fn value_request_that_could_not_be_sent_fails_closed() {
    let mut requests: HashMap<u64, &str> = HashMap::new();
    let mut pending = 0usize;
    let sender: Sender = ResultSender::Value("v1");
    assert_eq!(handle_new_request(1, false, sender, &mut requests, &mut pending), Some(("v1", Error::Closed)));
    assert_eq!(pending, 0);
    assert!(requests.is_empty());
}

#[test]
fn aborted_value_request_is_no_longer_pending() {
    let mut requests: HashMap<u64, &str> = HashMap::new();
    let mut pending = 0usize;
    handle_new_request(4, true, ResultSender::<&str, &str, &str>::Value("v"), &mut requests, &mut pending);
    assert!(handle_new_request(4, true, ResultSender::<&str, &str, &str>::Abort, &mut requests, &mut pending).is_none());
    assert_eq!(pending, 0);
    assert!(requests.is_empty());
}

#[test]
fn no_ack_requests() {
    let sender: Sender = ResultSender::Value("v");
    assert_eq!(handle_new_no_ack_request(true, sender), Some(("v", Ok(()))));
    let sender: Sender = ResultSender::Value("v");
    assert_eq!(handle_new_no_ack_request(false, sender), Some(("v", Err(Error::Closed))));
    let sender: Sender = ResultSender::Abort;
    assert_eq!(handle_new_no_ack_request(true, sender), None);
}

#[test]
fn stream_requests_are_pending_until_opened() {
    let mut requests: HashMap<u64, (Option<&str>, &str)> = HashMap::new();
    let mut pending = 0usize;
    let sender: Sender = ResultSender::Stream { result_sender: "open", values_sender: "values" };
    assert!(handle_new_stream_request(9, true, sender, &mut requests, &mut pending).is_none());
    assert_eq!(pending, 1);
    let delivery = handle_stream_response(StreamResponse::<u8>::Open, 9, &mut requests, &mut pending);
    assert!(matches!(delivery, StreamDelivery::Opened("open")));
    assert_eq!(pending, 0);
    assert_eq!(requests.get(&9), Some(&(None, "values")));
    let delivery = handle_stream_response(StreamResponse::Item(5u8), 9, &mut requests, &mut pending);
    assert!(matches!(delivery, StreamDelivery::Item(5)));
    let delivery = handle_stream_response(StreamResponse::<u8>::Closed, 9, &mut requests, &mut pending);
    assert!(matches!(delivery, StreamDelivery::Nothing));
    assert!(requests.is_empty());
    let delivery = handle_stream_response(StreamResponse::Item(6u8), 9, &mut requests, &mut pending);
    assert!(matches!(delivery, StreamDelivery::Nothing));
}

#[test]
fn producer_messages_for_the_consumer_loop() {
    assert!(matches!(
        handle_producer_message::<u8, &str>(None),
        ProducerMessageAction::Shutdown(ShutdownType::Closed)
    ));
    assert!(matches!(handle_producer_message::<u8, &str>(Some(Err("e"))), ProducerMessageAction::Break));
    let message = producer::Message::Response { id: 1, response: 2u8 };
    assert!(matches!(
        handle_producer_message::<u8, &str>(Some(Ok(message))),
        ProducerMessageAction::Handle(producer::Message::Response { id: 1, response: 2 })
    ));
    assert_eq!(shutdown_ordered_by(&producer::Message::<u8>::Aborted), Some(ShutdownType::Aborted));
    assert_eq!(shutdown_ordered_by(&producer::Message::<u8>::Shutdown), Some(ShutdownType::Shutdown));
    assert_eq!(shutdown_ordered_by(&producer::Message::Response { id: 0, response: 1u8 }), None);
}

#[test]
fn consumer_times_out_only_when_idle() {
    assert_eq!(on_timeout_elapsed(true, 0), Some(ShutdownType::Timeout));
    assert_eq!(on_timeout_elapsed(true, 2), None);
    assert_eq!(on_timeout_elapsed(false, 0), None);
}

#[test]
fn shutdown_takes_every_waiting_request() {
    let mut requests: HashMap<u64, &str> = HashMap::new();
    requests.insert(1, "a");
    requests.insert(2, "b");
    let taken = take_requests(&mut requests);
    assert_eq!(taken.len(), 2);
    assert!(requests.is_empty());
}

#[test]
fn request_ids_count_from_zero() {
    let generator = RequestIdGenerator::new();
    assert_eq!(generator.id(), 0);
    assert_eq!(generator.id(), 1);
    assert_eq!(generator.id(), 2);
}

#[test]
fn consumer_messages() {
    let message = Message { id: 3, payload: Payload::Request("add") };
    assert_eq!(message.id, 3);
    assert!(matches!(message.payload, Payload::Request("add")));
}

#[test]
fn value_request_future_sends_once_then_waits() {
    let mut state = RequestState::new(7, "request");
    assert_eq!(state.id(), 7);
    assert!(!state.is_terminated());
    assert!(state.aborts_on_drop());
    let action = state.step::<u8>(RequestEvent::Poll);
    assert!(matches!(action, RequestAction::Send("request")));
    let action = state.step::<u8>(RequestEvent::Sent(true));
    assert!(matches!(action, RequestAction::PollReply));
    let action = state.step::<u8>(RequestEvent::NoReply);
    assert!(matches!(action, RequestAction::Pending));
    let action = state.step::<u8>(RequestEvent::Poll);
    assert!(matches!(action, RequestAction::PollReply));
    let action = state.step::<u8>(RequestEvent::Reply(Some(Ok(42))));
    assert!(matches!(action, RequestAction::Ready(Ok(42))));
    assert!(state.is_terminated());
    assert!(!state.aborts_on_drop());
    let action = state.step::<u8>(RequestEvent::Poll);
    assert!(matches!(action, RequestAction::Pending));
}

#[test]
fn request_future_errors() {
    let mut state = RequestState::new(1, ());
    state.step::<u8>(RequestEvent::Poll);
    let action = state.step::<u8>(RequestEvent::Sent(false));
    assert!(matches!(action, RequestAction::Ready(Err(Error::Shutdown))));

    let mut state = RequestState::new(2, ());
    state.step::<u8>(RequestEvent::Poll);
    state.step::<u8>(RequestEvent::Sent(true));
    let action = state.step::<u8>(RequestEvent::Reply(None));
    assert!(matches!(action, RequestAction::Ready(Err(Error::Dropped))));

    let mut state = RequestState::new(3, ());
    assert!(state.make_abortable());
    assert!(!state.make_abortable());
    assert!(state.is_abortable());
    let action = state.step::<u8>(RequestEvent::Abort);
    assert!(matches!(action, RequestAction::Ready(Err(Error::Aborted))));
    assert!(state.is_terminated());
}

#[test]
fn request_phases() {
    let state = RequestState::new(1, 5u8);
    assert!(matches!(Phase::Unsent(5u8), Phase::Unsent(_)));
    assert!(!state.is_abortable());
}

#[test]
fn result_stream_ends_on_channel_end_or_abort() {
    let mut stream = ResultStreamState::new();
    assert_eq!(stream.on_values(Poll::Ready(Some(1u8)), false), Poll::Ready(Some(1)));
    assert_eq!(stream.on_values(Poll::<Option<u8>>::Pending, false), Poll::Pending);
    assert!(stream.aborts_on_drop());
    assert_eq!(stream.on_values(Poll::<Option<u8>>::Pending, true), Poll::Ready(None));
    assert!(stream.is_terminated());
    assert_eq!(stream.on_values(Poll::Ready(Some(2u8)), false), Poll::Ready(None));

    let mut stream = ResultStreamState::new();
    assert_eq!(stream.on_values(Poll::<Option<u8>>::Ready(None), false), Poll::Ready(None));
    assert!(!stream.aborts_on_drop());
}

#[test]
fn producer_reply_failures_stop_the_producer_once() {
    let mut stop = Some("stop");
    let message = producer::Message::Response { id: 1, response: () };
    assert_eq!(producer_handle_response(&message, true, &mut stop), None);
    assert_eq!(producer_handle_response(&message, false, &mut stop), Some(("stop", ShutdownType::Closed)));
    assert_eq!(stop, None);
    assert_eq!(producer_handle_response(&message, false, &mut stop), None);
    let mut stop = Some("stop");
    assert_eq!(producer_handle_response(&producer::Message::<()>::Shutdown, false, &mut stop), None);
    assert_eq!(stop, Some("stop"));
}

fn request(id: u64, request: &'static str) -> ProducerEvent<&'static str, &'static str> {
    ProducerEvent::Received(Some(Ok(Message { id, payload: Payload::Request(request) })))
}

#[test]
fn producer_loop_starts_and_aborts_requests() {
    let mut producer: ProducerLoop<&str> = ProducerLoop::new(true);
    let (action, restart) = producer.step::<&str, u8, &str>(request(1, "add"));
    assert!(matches!(action, ProducerAction::Start(1, "add")));
    assert!(restart);
    assert_eq!(producer.register(1, "aborter-1"), None);
    let (action, _) = producer.step::<&str, u8, &str>(ProducerEvent::Received(Some(Ok(Message { id: 1, payload: Payload::Abort }))));
    assert!(matches!(action, ProducerAction::Abort("aborter-1")));
    let (action, _) = producer.step::<&str, u8, &str>(ProducerEvent::Received(Some(Ok(Message { id: 1, payload: Payload::Abort }))));
    assert!(matches!(action, ProducerAction::Continue));
}

#[test]
fn producer_loop_times_out_only_when_idle() {
    let mut producer: ProducerLoop<&str> = ProducerLoop::new(true);
    producer.step::<&str, u8, &str>(request(1, "add"));
    producer.register(1, "aborter");
    let (action, restart) = producer.step::<&str, u8, &str>(ProducerEvent::TimeoutElapsed);
    assert!(matches!(action, ProducerAction::Continue));
    assert!(restart);
    producer.step::<&str, u8, &str>(ProducerEvent::TaskDone(Some(1)));
    let (action, _) = producer.step::<&str, u8, &str>(ProducerEvent::TimeoutElapsed);
    assert!(matches!(action, ProducerAction::Finish(None)));
    assert!(producer.is_finished());
    assert_eq!(producer.result(), ShutdownType::Timeout);
}

#[test]
fn producer_loop_without_timeout_ignores_the_timer() {
    let mut producer: ProducerLoop<&str> = ProducerLoop::new(false);
    let (action, restart) = producer.step::<&str, u8, &str>(ProducerEvent::TimeoutElapsed);
    assert!(matches!(action, ProducerAction::Continue));
    assert!(!restart);
    assert!(!producer.is_finished());
}

#[test]
fn producer_loop_shutdowns_notify_the_consumer() {
    let mut producer: ProducerLoop<&str> = ProducerLoop::new(false);
    producer.register(5, "a");
    let (action, _) = producer.step::<&str, u8, &str>(ProducerEvent::Shutdown(ShutdownType::Shutdown));
    assert!(matches!(action, ProducerAction::Finish(Some(producer::Message::Shutdown))));
    assert_eq!(producer.result(), ShutdownType::Shutdown);
    let left = producer.take_aborters();
    assert_eq!(left.get(&5), Some(&"a"));

    let mut producer: ProducerLoop<&str> = ProducerLoop::new(false);
    let (action, _) = producer.step::<&str, u8, &str>(ProducerEvent::StopSignal(Some(ShutdownType::Aborted)));
    assert!(matches!(action, ProducerAction::Finish(Some(producer::Message::Aborted))));

    let mut producer: ProducerLoop<&str> = ProducerLoop::new(false);
    let (action, _) = producer.step::<&str, u8, &str>(ProducerEvent::StopSignal(None));
    assert!(matches!(action, ProducerAction::Continue));
    let (action, _) = producer.step::<&str, u8, &str>(ProducerEvent::Received(None));
    assert!(matches!(action, ProducerAction::Finish(None)));
    assert_eq!(producer.result(), ShutdownType::Closed);
}

#[test]
fn producer_value_task_replies_and_releases() {
    let mut task = ProducerTask::new(TaskKind::Value, false);
    let step = task.step::<u8, ()>(TaskEvent::Completed(Some(3)));
    assert!(matches!(step.reply, Some(TaskReply::Value(3))));
    assert!(step.release && step.done && !step.cancel);
    assert!(task.is_done());
}

#[test]
fn producer_stream_task_opens_forwards_and_closes() {
    let mut task = ProducerTask::new(TaskKind::Stream, true);
    let step = task.step::<(), u8>(TaskEvent::Completed(Some(())));
    assert!(matches!(step.reply, Some(TaskReply::Stream(StreamResponse::Open))));
    assert!(task.is_streaming() && !step.release);
    let step = task.step::<(), u8>(TaskEvent::StreamItem(Some(1)));
    assert!(matches!(step.reply, Some(TaskReply::Stream(StreamResponse::Item(1)))));
    let step = task.step::<(), u8>(TaskEvent::StreamItem(None));
    assert!(matches!(step.reply, Some(TaskReply::Stream(StreamResponse::Closed))));
    assert!(step.release && step.done);
}

#[test]
fn producer_aborted_task_cancels_without_release() {
    let mut task = ProducerTask::new(TaskKind::NoAck, true);
    let step = task.step::<(), ()>(TaskEvent::Aborted);
    assert!(step.cancel && !step.release && step.done && step.reply.is_none());
    let mut task = ProducerTask::new(TaskKind::Value, false);
    let step = task.step::<u8, ()>(TaskEvent::Aborted);
    assert!(!step.cancel && !step.release);
    let mut task = ProducerTask::new(TaskKind::Value, true);
    let step = task.step::<u8, ()>(TaskEvent::Completed(None));
    assert!(step.release && step.reply.is_none());
}

#[test]
fn consumer_state_starts_idle_and_counts_through_the_handlers() {
    let mut state = ConsumerState::new();
    assert_eq!(state.pending(), 0);
    assert!(state.idle());
    let mut requests: HashMap<u64, &str> = HashMap::new();
    let failed = handle_new_request(3, true, ResultSender::<&str, (), ()>::Value("waiter"), &mut requests, state.pending_mut());
    assert!(failed.is_none());
    assert_eq!(state.pending(), 1);
    assert!(!state.idle());
    assert_eq!(handle_response(3, &mut requests, state.pending_mut()), Some("waiter"));
    assert!(state.idle());
}

#[test]
fn consumer_messages_are_routed_or_shut_down() {
    let response = handle_message(producer::Message::Response { id: 4, response: "r" });
    assert_eq!(response, Ok((4, "r")));
    assert_eq!(handle_message(producer::Message::<&str>::Aborted), Err(ShutdownType::Aborted));
    assert_eq!(handle_message(producer::Message::<&str>::Shutdown), Err(ShutdownType::Shutdown));
}
