use dnet::pipe::{
    DefaultReceiveErrorCallback, DefaultSendErrorCallback, ErrorHandlingStrategy, PipeAction, PipeEvent, PipeHandle,
    PipeLoop, ReceiveErrorCallback, SendErrorCallback,
};
use dnet::transport::{receive_outcome, Error, MessageStep, MessageStream};

#[test]
fn closed_errors() {
    assert!(Error::<u8>::Closed.closed());
    assert!(!Error::Other(3u8).closed());
}

#[test]
fn error_texts() {
    assert_eq!(Error::<String>::Closed.text(), "transport closed");
    assert_eq!(Error::Other("timeout".to_string()).text(), "timeout");
}

#[test]
fn receive_outcomes() {
    assert_eq!(receive_outcome::<u8, String>(None), Err(Error::Closed));
    assert_eq!(receive_outcome::<u8, String>(Some(Ok(5))), Ok(5));
    assert_eq!(receive_outcome::<u8, String>(Some(Err("x".to_string()))), Err(Error::Other("x".to_string())));
}

#[test]
fn message_stream_skips_errors_and_ends() {
    let mut stream = MessageStream::new((), ());
    assert!(!stream.is_terminated());
    assert_eq!(stream.on_next::<u8, &str>(Some(Ok(1))), MessageStep::Yield(1));
    assert_eq!(stream.on_next::<u8, &str>(Some(Err("bad"))), MessageStep::Skip("bad"));
    assert!(!stream.is_terminated());
    assert_eq!(stream.on_next::<u8, &str>(None), MessageStep::End);
    assert!(stream.is_terminated());
}

#[test]
fn default_strategy_is_ignore() {
    assert_eq!(ErrorHandlingStrategy::default(), ErrorHandlingStrategy::Ignore);
}

#[test]
fn default_callbacks() {
    let mut send = DefaultSendErrorCallback;
    assert_eq!(
        SendErrorCallback::<u8, &str>::on_send_error(&mut send, &1, Error::Closed),
        ErrorHandlingStrategy::Close
    );
    assert_eq!(
        SendErrorCallback::<u8, &str>::on_send_error(&mut send, &1, Error::Other("x")),
        ErrorHandlingStrategy::Ignore
    );
    let mut receive = DefaultReceiveErrorCallback;
    assert_eq!(ReceiveErrorCallback::<&str>::on_receive_error(&mut receive, "x"), ErrorHandlingStrategy::Ignore);
}

#[test]
fn pipe_forwards_and_keeps_open_after_sending() {
    let mut pipe: PipeLoop<u32> = PipeLoop::new();
    let action = pipe.step::<&str, &str>(PipeEvent::Received(Some(Ok(7))));
    assert!(matches!(action, PipeAction::Send));
    assert_eq!(pipe.forwarding(), Some(&7));
    let action = pipe.step::<&str, &str>(PipeEvent::Sent(Ok(())));
    assert!(matches!(action, PipeAction::Wait));
    assert!(!pipe.is_forwarding());
}

#[test]
fn pipe_send_errors_follow_the_callback() {
    let mut pipe: PipeLoop<u32> = PipeLoop::new();
    pipe.step::<&str, &str>(PipeEvent::Received(Some(Ok(7))));
    let action = pipe.step::<&str, &str>(PipeEvent::Sent(Err(Error::Other("full"))));
    assert!(matches!(action, PipeAction::HandleSendError(Error::Other("full"))));
    let action = pipe.step::<&str, &str>(PipeEvent::SendErrorHandled(ErrorHandlingStrategy::Retry));
    assert!(matches!(action, PipeAction::Send));
    assert_eq!(pipe.forwarding(), Some(&7));
    pipe.step::<&str, &str>(PipeEvent::Sent(Err(Error::Closed)));
    let action = pipe.step::<&str, &str>(PipeEvent::SendErrorHandled(ErrorHandlingStrategy::Close));
    assert!(matches!(action, PipeAction::Finish));
    assert!(!pipe.is_forwarding());
}

#[test]
fn pipe_ignored_send_error_drops_the_message() {
    let mut pipe: PipeLoop<u32> = PipeLoop::new();
    pipe.step::<&str, &str>(PipeEvent::Received(Some(Ok(7))));
    pipe.step::<&str, &str>(PipeEvent::Sent(Err(Error::Other("x"))));
    let action = pipe.step::<&str, &str>(PipeEvent::SendErrorHandled(ErrorHandlingStrategy::Ignore));
    assert!(matches!(action, PipeAction::Wait));
    assert_eq!(pipe.forwarding(), None);
}

#[test]
fn pipe_closes_when_a_transport_ends() {
    let mut pipe: PipeLoop<u32> = PipeLoop::new();
    let action = pipe.step::<&str, &str>(PipeEvent::Received(None));
    assert!(matches!(action, PipeAction::Finish));
}

#[test]
fn pipe_receive_errors_follow_the_callback() {
    let mut pipe: PipeLoop<u32> = PipeLoop::new();
    let action = pipe.step::<&str, &str>(PipeEvent::Received(Some(Err("bad"))));
    assert!(matches!(action, PipeAction::HandleReceiveError("bad")));
    let action = pipe.step::<&str, &str>(PipeEvent::ReceiveErrorHandled(ErrorHandlingStrategy::Ignore));
    assert!(matches!(action, PipeAction::Wait));
    pipe.step::<&str, &str>(PipeEvent::Received(Some(Err("worse"))));
    let action = pipe.step::<&str, &str>(PipeEvent::ReceiveErrorHandled(ErrorHandlingStrategy::Close));
    assert!(matches!(action, PipeAction::Finish));
}

#[test]
fn pipe_stops_on_request_only() {
    let mut pipe: PipeLoop<u32> = PipeLoop::new();
    let action = pipe.step::<&str, &str>(PipeEvent::StopSignal(false));
    assert!(matches!(action, PipeAction::Wait));
    let action = pipe.step::<&str, &str>(PipeEvent::StopSignal(true));
    assert!(matches!(action, PipeAction::Finish));
}

#[test]
fn pipe_handle_keep_open_and_break() {
    let mut handle = PipeHandle::new();
    assert!(handle.stops_on_drop());
    handle.keep_open();
    assert!(!handle.stops_on_drop());
    handle.break_pipe();
    assert!(handle.stops_on_drop());
}
