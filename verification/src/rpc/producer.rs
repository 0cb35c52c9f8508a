//! Producer side of RPC: messages a producer sends and its decisions.
use vstd::prelude::*;

use std::collections::HashMap;

use super::ShutdownType;
use super::consumer::{self, Payload, RequestId};

verus! {

broadcast use vstd::std_specs::hash::group_hash_axioms;

/// Producer message.
#[derive(Debug)]
pub enum Message<Response> {
    /// Response to request.
    Response {
        /// Request id.
        id: u64,
        /// Response value.
        response: Response,
    },
    /// Producer was shut down with [`ShutdownType::Aborted`].
    Aborted,
    /// Producer was shut down with [`ShutdownType::Shutdown`].
    Shutdown,
}

/// Stream response wrapper.
#[derive(Debug)]
pub enum StreamResponse<T> {
    /// Stream open.
    Open,
    /// Next stream item.
    Item(T),
    /// Stream closed (has no more items).
    Closed,
}

/// Result type of abortable request handlers: the value, or [`Aborted`].
pub type AbortableResult<T> = Result<T, Aborted>;

/// Returned by abortable request handlers that were aborted.
#[derive(Debug, Clone, Copy, PartialEq, Eq, Structural)]
pub struct Aborted;

/// Decide what follows sending `message` to the consumer: when a response could not be
/// sent (`sent` is false), the producer is told to stop because the transport is closed,
/// through the stop signal if it is still there. Other messages are sent without such
/// consequence.
pub fn handle_response<Response, Stop>(
    message: &Message<Response>,
    sent: bool,
    stop_sender: &mut Option<Stop>,
) -> (r: Option<(Stop, ShutdownType)>)
    ensures
        (*message is Response && !sent && *old(stop_sender) is Some) ==> {
            &&& r == Some((old(stop_sender)->0, ShutdownType::Closed))
            &&& *final(stop_sender) is None
        },
        !(*message is Response && !sent && *old(stop_sender) is Some) ==> {
            &&& r is None
            &&& *final(stop_sender) == *old(stop_sender)
        },
{
    match message {
        Message::Response { .. } => {
            if !sent {
                match stop_sender.take() {
                    Some(stop) => Some((stop, ShutdownType::Closed)),
                    None => None,
                }
            } else {
                None
            }
        },
        _ => None,
    }
}

/// What happened, as seen by one iteration of a producer's loop.
pub enum ProducerEvent<Request, E> {
    /// The transport yielded a consumer message, an error, or ended (`None`).
    Received(Option<Result<consumer::Message<Request>, E>>),
    /// A request task finished and its id came back to be forgotten.
    TaskDone(Option<RequestId>),
    /// The inactivity timer elapsed.
    TimeoutElapsed,
    /// The internal stop signal completed: with a shutdown type, or `None` when it was
    /// dropped without one.
    StopSignal(Option<ShutdownType>),
    /// The configured shutdown future completed.
    Shutdown(ShutdownType),
}

/// What a producer's runtime should do next.
pub enum ProducerAction<Request, Response, A> {
    /// Wait for the next event.
    Continue,
    /// Start handling this request (its aborter is then registered with
    /// [`ProducerLoop::register`]).
    Start(RequestId, Request),
    /// The consumer aborted a request: signal its task through this aborter.
    Abort(A),
    /// Stop: send this message to the consumer, if any, then signal every aborter left
    /// (see [`ProducerLoop::take_aborters`]) and return [`ProducerLoop::result`].
    Finish(Option<Message<Response>>),
}

/// Mathematical content of a [`ProducerLoop`].
pub struct ProducerLoopView<A> {
    /// Aborters of the requests being handled, by request id.
    pub aborters: Map<RequestId, A>,
    /// Is an inactivity timeout configured.
    pub timeout: bool,
    /// Why the producer stopped (or will report stopping, if it has not stopped yet).
    pub result: ShutdownType,
    /// Has the loop finished.
    pub finished: bool,
}

/// Decisions of a producer's loop.
pub struct ProducerLoop<A> {
    aborters: HashMap<RequestId, A>,
    timeout: bool,
    result: ShutdownType,
    finished: bool,
}

impl<A> View for ProducerLoop<A> {
    type V = ProducerLoopView<A>;

    closed spec fn view(&self) -> ProducerLoopView<A> {
        ProducerLoopView { aborters: self.aborters@, timeout: self.timeout, result: self.result, finished: self.finished }
    }
}

/// Message the consumer gets when the producer shuts down for `shutdown_type`, if any.
pub open spec fn shutdown_notice<Response>(shutdown_type: ShutdownType) -> Option<Message<Response>> {
    match shutdown_type {
        ShutdownType::Shutdown => Some(Message::Shutdown),
        ShutdownType::Aborted => Some(Message::Aborted),
        _ => None,
    }
}

/// Why the loop stops on `event` in state `s`, if it does.
pub open spec fn stops_for<Request, E, A>(s: ProducerLoopView<A>, event: ProducerEvent<Request, E>) -> Option<ShutdownType> {
    match event {
        ProducerEvent::Received(Some(Ok(_))) => None,
        ProducerEvent::Received(_) => Some(ShutdownType::Closed),
        ProducerEvent::TaskDone(_) => None,
        ProducerEvent::TimeoutElapsed =>
            if s.timeout && s.aborters.dom().len() == 0 { Some(ShutdownType::Timeout) } else { None },
        ProducerEvent::StopSignal(signal) => signal,
        ProducerEvent::Shutdown(shutdown_type) => Some(shutdown_type),
    }
}

/// Aborters after `event` in state `s` (registering a started request's aborter comes after).
pub open spec fn next_aborters<Request, E, A>(s: ProducerLoopView<A>, event: ProducerEvent<Request, E>) -> Map<RequestId, A> {
    match event {
        ProducerEvent::Received(Some(Ok(message))) => match message.payload {
            Payload::Abort => s.aborters.remove(message.id),
            Payload::Request(_) => s.aborters,
        },
        ProducerEvent::TaskDone(Some(id)) => s.aborters.remove(id),
        _ => s.aborters,
    }
}

/// Is `action` what the loop does on `event` in state `s`.
pub open spec fn producer_action<Request, Response, E, A>(
    s: ProducerLoopView<A>,
    event: ProducerEvent<Request, E>,
    action: ProducerAction<Request, Response, A>,
) -> bool {
    match stops_for(s, event) {
        Some(shutdown_type) => action == ProducerAction::<Request, Response, A>::Finish(shutdown_notice(shutdown_type)),
        None => match event {
            ProducerEvent::Received(Some(Ok(message))) => match message.payload {
                Payload::Request(request) => action == ProducerAction::<Request, Response, A>::Start(message.id, request),
                Payload::Abort => if s.aborters.dom().contains(message.id) {
                    action == ProducerAction::<Request, Response, A>::Abort(s.aborters[message.id])
                } else {
                    action is Continue
                },
            },
            _ => action is Continue,
        },
    }
}

/// Is the inactivity timer restarted on `event` in state `s`: on every message, and when it
/// elapses while requests are being handled.
pub open spec fn restarts_timer<Request, E, A>(s: ProducerLoopView<A>, event: ProducerEvent<Request, E>) -> bool {
    match event {
        ProducerEvent::Received(_) => s.timeout,
        ProducerEvent::TimeoutElapsed => s.timeout && s.aborters.dom().len() != 0,
        _ => false,
    }
}

impl<A> ProducerLoop<A> {
    /// A loop handling no request, with an inactivity timeout when `timeout` is set.
    pub fn new(timeout: bool) -> (r: Self)
        ensures
            r@ == (ProducerLoopView::<A> { aborters: Map::empty(), timeout, result: ShutdownType::Closed, finished: false }),
    {
        ProducerLoop { aborters: HashMap::new(), timeout, result: ShutdownType::Closed, finished: false }
    }

    /// Why the producer stopped.
    pub fn result(&self) -> (r: ShutdownType)
        ensures
            r == self@.result,
    {
        self.result
    }

    /// Has the loop finished.
    pub fn is_finished(&self) -> (r: bool)
        ensures
            r == self@.finished,
    {
        self.finished
    }

    /// Register the aborter of a request being started; an aborter registered before for
    /// the same id is returned (dropping it ends that earlier task's wait for an abort).
    pub fn register(&mut self, id: RequestId, aborter: A) -> (previous: Option<A>)
        ensures
            final(self)@ == (ProducerLoopView { aborters: old(self)@.aborters.insert(id, aborter), ..old(self)@ }),
            old(self)@.aborters.dom().contains(id) ==> previous == Some(old(self)@.aborters[id]),
            !old(self)@.aborters.dom().contains(id) ==> previous is None,
    {
        self.aborters.insert(id, aborter)
    }

    /// Hand over every aborter left, leaving none: done when the loop finishes, so that
    /// every task still running is told to stop.
    pub fn take_aborters(&mut self) -> (r: HashMap<RequestId, A>)
        ensures
            r@ == old(self)@.aborters,
            final(self)@ == (ProducerLoopView { aborters: Map::empty(), ..old(self)@ }),
    {
        let mut taken = HashMap::new();
        std::mem::swap(&mut taken, &mut self.aborters);
        taken
    }

    fn finish<Response>(&mut self, shutdown_type: ShutdownType) -> (r: Option<Message<Response>>)
        ensures
            final(self)@ == (ProducerLoopView { result: shutdown_type, finished: true, ..old(self)@ }),
            r == shutdown_notice::<Response>(shutdown_type),
    {
        self.result = shutdown_type;
        self.finished = true;
        match shutdown_type {
            ShutdownType::Shutdown => Some(Message::Shutdown),
            ShutdownType::Aborted => Some(Message::Aborted),
            _ => None,
        }
    }

    /// Take one step of the loop on `event`; the second result says whether the inactivity
    /// timer is to be restarted.
    ///
    /// A request is started, an abort signals the aborted request's task, a finished task
    /// is forgotten. The loop stops when the transport fails or ends ([`ShutdownType::Closed`]),
    /// when the timer elapses while no request is being handled ([`ShutdownType::Timeout`]),
    /// or when a stop or shutdown is requested; the consumer is told about a shutdown or an
    /// abort.
    pub fn step<Request, Response, E>(&mut self, event: ProducerEvent<Request, E>) -> (r: (ProducerAction<Request, Response, A>, bool))
        requires
            !old(self)@.finished,
        ensures
            producer_action(old(self)@, event, r.0),
            r.1 == restarts_timer(old(self)@, event),
            final(self)@.aborters == next_aborters(old(self)@, event),
            final(self)@.timeout == old(self)@.timeout,
            final(self)@.finished == stops_for(old(self)@, event) is Some,
            final(self)@.result == match stops_for(old(self)@, event) {
                Some(shutdown_type) => shutdown_type,
                None => old(self)@.result,
            },
    {
        match event {
            ProducerEvent::Received(received) => {
                let restart = self.timeout;
                match received {
                    Some(Ok(message)) => {
                        let consumer::Message { id, payload } = message;
                        match payload {
                            Payload::Request(request) => (ProducerAction::Start(id, request), restart),
                            Payload::Abort => match self.aborters.remove(&id) {
                                Some(aborter) => (ProducerAction::Abort(aborter), restart),
                                None => (ProducerAction::Continue, restart),
                            },
                        }
                    },
                    _ => (ProducerAction::Finish(self.finish(ShutdownType::Closed)), restart),
                }
            },
            ProducerEvent::TaskDone(done) => {
                match done {
                    Some(id) => {
                        self.aborters.remove(&id);
                    },
                    None => {},
                }
                (ProducerAction::Continue, false)
            },
            ProducerEvent::TimeoutElapsed => {
                if self.timeout {
                    if self.aborters.len() == 0 {
                        (ProducerAction::Finish(self.finish(ShutdownType::Timeout)), false)
                    } else {
                        (ProducerAction::Continue, true)
                    }
                } else {
                    (ProducerAction::Continue, false)
                }
            },
            ProducerEvent::StopSignal(signal) => match signal {
                Some(shutdown_type) => (ProducerAction::Finish(self.finish(shutdown_type)), false),
                None => (ProducerAction::Continue, false),
            },
            ProducerEvent::Shutdown(shutdown_type) => (ProducerAction::Finish(self.finish(shutdown_type)), false),
        }
    }
}

/// Timeout law: a producer stops for inactivity only when a timeout is configured and no
/// request is being handled; while requests are being handled, an elapsed timer is restarted.
pub proof fn lemma_timeout_only_when_idle<Request, E, A>(s: ProducerLoopView<A>, event: ProducerEvent<Request, E>)
    ensures
        stops_for(s, event) == Some(ShutdownType::Timeout) && !(event is StopSignal) && !(event is Shutdown)
            ==> s.timeout && s.aborters.dom().len() == 0,
        (event is TimeoutElapsed && s.timeout && s.aborters.dom().len() != 0)
            ==> stops_for(s, event) is None && restarts_timer(s, event),
{
}

/// How a producer answers a request.
#[derive(Debug, Clone, Copy, PartialEq, Eq, Structural)]
pub enum TaskKind {
    /// With one value.
    Value,
    /// Not at all.
    NoAck,
    /// With a stream of values.
    Stream,
}

/// What happened to a producer's request task.
pub enum TaskEvent<O, I> {
    /// The handler finished: with its output, or `None` when it reports being aborted.
    Completed(Option<O>),
    /// The consumer aborted the request.
    Aborted,
    /// The stream of a stream request yielded an item, or ended (`None`).
    StreamItem(Option<I>),
}

/// What a request task sends to the consumer.
pub enum TaskReply<O, I> {
    /// The value answering a value request.
    Value(O),
    /// A message of a stream request.
    Stream(StreamResponse<I>),
}

/// What a request task does after an event.
pub struct TaskStep<O, I> {
    /// Reply to send to the consumer, if any.
    pub reply: Option<TaskReply<O, I>>,
    /// Is the task's id handed back to the producer, to forget the task's aborter.
    pub release: bool,
    /// Is the running handler told to stop.
    pub cancel: bool,
    /// Has the task ended.
    pub done: bool,
}

/// Life of a producer's request task: it runs the handler, then (for a stream request)
/// forwards the stream, until it ends or the consumer aborts it.
pub struct ProducerTask {
    kind: TaskKind,
    abortable: bool,
    streaming: bool,
    done: bool,
}

/// Mathematical content of a [`ProducerTask`].
pub struct ProducerTaskView {
    /// How the request is answered.
    pub kind: TaskKind,
    /// Can the handler be told to stop.
    pub abortable: bool,
    /// Is the task forwarding a stream.
    pub streaming: bool,
    /// Has the task ended.
    pub done: bool,
}

impl View for ProducerTask {
    type V = ProducerTaskView;

    closed spec fn view(&self) -> ProducerTaskView {
        ProducerTaskView { kind: self.kind, abortable: self.abortable, streaming: self.streaming, done: self.done }
    }
}

/// Can `event` happen to a task in state `t`: only to running tasks; stream items only while
/// forwarding a stream, completion only before; an abort is noticed while the handler runs
/// (value and no-ack requests) or while the stream is forwarded.
pub open spec fn task_expects<O, I>(t: ProducerTaskView, event: TaskEvent<O, I>) -> bool {
    &&& !t.done
    &&& match event {
        TaskEvent::Completed(_) => !t.streaming,
        TaskEvent::StreamItem(_) => t.streaming,
        TaskEvent::Aborted => t.kind != TaskKind::Stream || t.streaming,
    }
}

/// Is `step` what a task in state `t` does on `event`, ending in state `u`.
pub open spec fn task_step<O, I>(t: ProducerTaskView, event: TaskEvent<O, I>, step: TaskStep<O, I>, u: ProducerTaskView) -> bool {
    &&& u.kind == t.kind
    &&& u.abortable == t.abortable
    &&& match event {
        TaskEvent::Aborted => {
            &&& step.reply is None && !step.release && step.cancel == t.abortable && step.done
            &&& u.done && u.streaming == t.streaming
        },
        TaskEvent::Completed(output) => match output {
            Some(o) => if t.kind == TaskKind::Stream {
                &&& step.reply matches Some(TaskReply::Stream(StreamResponse::Open))
                &&& !step.release && !step.cancel && !step.done
                &&& u.streaming && !u.done
            } else {
                &&& (t.kind == TaskKind::Value ==> step.reply == Some(TaskReply::<O, I>::Value(o)))
                &&& (t.kind == TaskKind::NoAck ==> step.reply is None)
                &&& step.release && !step.cancel && step.done
                &&& u.done && u.streaming == t.streaming
            },
            None => {
                &&& step.reply is None && step.release && !step.cancel && step.done
                &&& u.done && u.streaming == t.streaming
            },
        },
        TaskEvent::StreamItem(item) => match item {
            Some(i) => {
                &&& step.reply == Some(TaskReply::<O, I>::Stream(StreamResponse::Item(i)))
                &&& !step.release && !step.cancel && !step.done
                &&& u == t
            },
            None => {
                &&& step.reply matches Some(TaskReply::Stream(StreamResponse::Closed))
                &&& step.release && !step.cancel && step.done
                &&& u.done && u.streaming
            },
        },
    }
}

impl ProducerTask {
    /// A task of the given kind, running its handler.
    pub fn new(kind: TaskKind, abortable: bool) -> (r: Self)
        ensures
            r@ == (ProducerTaskView { kind, abortable, streaming: false, done: false }),
    {
        ProducerTask { kind, abortable, streaming: false, done: false }
    }

    /// Is the task forwarding a stream.
    pub fn is_streaming(&self) -> (r: bool)
        ensures
            r == self@.streaming,
    {
        self.streaming
    }

    /// Has the task ended.
    pub fn is_done(&self) -> (r: bool)
        ensures
            r == self@.done,
    {
        self.done
    }

    /// Take one step on `event`. A value request answers with the handler's output; a stream
    /// request answers `Open`, then every item, then `Closed`. The id is handed back when the
    /// task ends by itself, not when it was aborted (the producer forgot it then already); an
    /// abort stops an abortable handler.
    pub fn step<O, I>(&mut self, event: TaskEvent<O, I>) -> (r: TaskStep<O, I>)
        requires
            task_expects(old(self)@, event),
        ensures
            task_step(old(self)@, event, r, final(self)@),
    {
        match event {
            TaskEvent::Aborted => {
                self.done = true;
                TaskStep { reply: None, release: false, cancel: self.abortable, done: true }
            },
            TaskEvent::Completed(output) => match output {
                Some(o) => match self.kind {
                    TaskKind::Stream => {
                        self.streaming = true;
                        TaskStep { reply: Some(TaskReply::Stream(StreamResponse::Open)), release: false, cancel: false, done: false }
                    },
                    TaskKind::Value => {
                        self.done = true;
                        TaskStep { reply: Some(TaskReply::Value(o)), release: true, cancel: false, done: true }
                    },
                    TaskKind::NoAck => {
                        self.done = true;
                        TaskStep { reply: None, release: true, cancel: false, done: true }
                    },
                },
                None => {
                    self.done = true;
                    TaskStep { reply: None, release: true, cancel: false, done: true }
                },
            },
            TaskEvent::StreamItem(item) => match item {
                Some(i) => TaskStep { reply: Some(TaskReply::Stream(StreamResponse::Item(i))), release: false, cancel: false, done: false },
                None => {
                    self.done = true;
                    TaskStep { reply: Some(TaskReply::Stream(StreamResponse::Closed)), release: true, cancel: false, done: true }
                },
            },
        }
    }
}

/// Release law: a task that ends hands its id back exactly when it was not aborted, and a
/// handler is told to stop only on an abort.
pub proof fn lemma_release_unless_aborted<O, I>(t: ProducerTaskView, event: TaskEvent<O, I>, step: TaskStep<O, I>, u: ProducerTaskView)
    requires
        task_expects(t, event),
        task_step(t, event, step, u),
    ensures
        step.done ==> (step.release <==> !(event is Aborted)),
        step.cancel ==> event is Aborted,
        step.done <==> u.done,
{
}

/// Is `(ts, events, steps)` a run of a task: `steps[i]` is what the task does on
/// `events[i]` in state `ts[i]`, ending in state `ts[i + 1]`.
pub open spec fn is_task_run<O, I>(ts: Seq<ProducerTaskView>, events: Seq<TaskEvent<O, I>>, steps: Seq<TaskStep<O, I>>) -> bool {
    &&& ts.len() == events.len() + 1
    &&& steps.len() == events.len()
    &&& forall|i: int| 0 <= i < events.len() ==> #[trigger] is_run_step(ts, events, steps, i)
}

/// Does step `i` of `(ts, events, steps)` follow the task's rules.
pub open spec fn is_run_step<O, I>(ts: Seq<ProducerTaskView>, events: Seq<TaskEvent<O, I>>, steps: Seq<TaskStep<O, I>>, i: int) -> bool {
    task_expects(ts[i], events[i]) && task_step(ts[i], events[i], steps[i], ts[i + 1])
}

proof fn lemma_stream_run_state<O, I>(ts: Seq<ProducerTaskView>, events: Seq<TaskEvent<O, I>>, steps: Seq<TaskStep<O, I>>, i: int)
    requires
        is_task_run(ts, events, steps),
        ts[0].kind == TaskKind::Stream,
        !ts[0].streaming,
        0 < i <= events.len(),
    ensures
        ts[i].kind == TaskKind::Stream,
        ts[i].done || ts[i].streaming,
        ts[i].streaming ==> steps[0].reply matches Some(TaskReply::Stream(StreamResponse::Open)),
    decreases i,
{
    assert(is_run_step(ts, events, steps, 0));
    if i > 1 {
        lemma_stream_run_state(ts, events, steps, i - 1);
        assert(is_run_step(ts, events, steps, i - 1));
    }
}

/// Is `reply` the `Open` message of a stream.
pub open spec fn is_open_reply<O, I>(reply: Option<TaskReply<O, I>>) -> bool {
    reply matches Some(TaskReply::Stream(StreamResponse::Open))
}

/// Is `reply` an item or the `Closed` message of a stream.
pub open spec fn is_later_stream_reply<O, I>(reply: Option<TaskReply<O, I>>) -> bool {
    reply matches Some(TaskReply::Stream(r)) && !(r is Open)
}

/// Is `reply` a single value.
pub open spec fn is_value_reply<O, I>(reply: Option<TaskReply<O, I>>) -> bool {
    reply matches Some(TaskReply::Value(_))
}

/// Stream law: a stream request's task answers with `Open` first (exactly when its handler
/// produced a stream), then with items, then with `Closed`, and never with a single value;
/// the step that ends the task is its last.
pub proof fn lemma_stream_replies_in_order<O, I>(ts: Seq<ProducerTaskView>, events: Seq<TaskEvent<O, I>>, steps: Seq<TaskStep<O, I>>)
    requires
        is_task_run(ts, events, steps),
        ts[0].kind == TaskKind::Stream,
        !ts[0].streaming,
    ensures
        forall|i: int| 0 <= i < steps.len() ==> (is_open_reply(#[trigger] steps[i].reply)
            <==> i == 0 && events[0] matches TaskEvent::Completed(Some(_))),
        forall|i: int| 0 <= i < steps.len() && is_later_stream_reply(#[trigger] steps[i].reply)
            ==> 0 < i && is_open_reply(steps[0].reply),
        forall|i: int| 0 <= i < steps.len() ==> !is_value_reply(#[trigger] steps[i].reply),
        forall|i: int| 0 <= i < steps.len() && #[trigger] steps[i].done ==> i == steps.len() - 1,
{
    assert forall|i: int| #![trigger steps[i]] 0 <= i < steps.len() implies {
        &&& (is_open_reply(steps[i].reply) <==> i == 0 && events[0] matches TaskEvent::Completed(Some(_)))
        &&& is_later_stream_reply(steps[i].reply) ==> 0 < i && is_open_reply(steps[0].reply)
        &&& !is_value_reply(steps[i].reply)
        &&& steps[i].done ==> i == steps.len() - 1
    } by {
        assert(is_run_step(ts, events, steps, i));
        if i > 0 {
            lemma_stream_run_state(ts, events, steps, i);
        }
        if steps[i].done && i + 1 < steps.len() {
            assert(is_run_step(ts, events, steps, i + 1));
        }
    }
}

} // verus!
