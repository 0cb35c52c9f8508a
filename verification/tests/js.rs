use dnet::js::{classify, close_envelope, Context, Envelope, FieldValue, Handshake, Incoming, Received, State, Wrapper, WrapperError};
use dnet::number::Unwrap;
use dnet::transport::Poll;

fn envelope(kind: FieldValue, name: Option<&str>, payload: FieldValue) -> Envelope {
    Envelope { kind, name: name.map(String::from), payload }
}

fn text(s: &str) -> FieldValue {
    FieldValue::Text(s.to_string())
}

#[test]
fn state_yields_in_order_then_ends_after_close() {
    let mut state: State<u8, &str> = State::new();
    assert!(state.message(1));
    assert!(state.error("e"));
    assert!(state.message(2));
    assert!(state.close());
    assert!(!state.close());
    assert!(!state.is_terminated());
    assert_eq!(state.poll_next(), Poll::Ready(Some(Ok(1))));
    assert_eq!(state.poll_next(), Poll::Ready(Some(Err("e"))));
    assert_eq!(state.poll_next(), Poll::Ready(Some(Ok(2))));
    assert!(state.is_terminated());
    assert_eq!(state.poll_next(), Poll::Ready(None));
}

#[test]
fn open_state_without_messages_is_pending() {
    let mut state: State<u8, &str> = State::new();
    assert_eq!(state.poll_next(), Poll::Pending);
    assert!(!state.is_terminated());
}

#[test]
fn envelopes_of_the_transport() {
    let name = Some("worker".to_string());
    let kind = || text("transport-message");
    assert_eq!(classify(&envelope(kind(), Some("worker"), text("open")), &name), Incoming::Open);
    assert_eq!(classify(&envelope(kind(), Some("worker"), text("close")), &name), Incoming::Close);
    assert_eq!(classify(&envelope(kind(), Some("worker"), FieldValue::Object), &name), Incoming::Message);
    assert_eq!(classify(&envelope(kind(), Some("worker"), text("hello")), &name), Incoming::Malformed);
    assert_eq!(classify(&envelope(kind(), Some("worker"), FieldValue::Other), &name), Incoming::Malformed);
    assert_eq!(classify(&envelope(kind(), Some("worker"), FieldValue::Unreadable), &name), Incoming::Malformed);
}

#[test]
fn envelopes_of_other_transports_are_ignored() {
    let name = Some("worker".to_string());
    assert_eq!(
        classify(&envelope(text("transport-message"), Some("other"), FieldValue::Object), &name),
        Incoming::Ignore
    );
    assert_eq!(classify(&envelope(text("transport-message"), None, FieldValue::Object), &name), Incoming::Ignore);
    assert_eq!(classify(&envelope(text("event"), Some("worker"), FieldValue::Object), &name), Incoming::Ignore);
    assert_eq!(classify(&envelope(FieldValue::Other, Some("worker"), FieldValue::Object), &name), Incoming::Ignore);
    assert_eq!(classify(&envelope(text("transport-message"), None, FieldValue::Object), &None), Incoming::Message);
}

#[test]
fn wrapper_error_texts() {
    assert_eq!(WrapperError::<String, String>::WrongType.text(), "unexpected JS value type");
    assert_eq!(
        WrapperError::<String, String>::SerializationError("bad".to_string()).text(),
        "failed to serialize message: bad"
    );
    assert_eq!(
        WrapperError::<String, String>::DeserializationError("eof".to_string()).text(),
        "failed to deserialize message: eof"
    );
}

#[test]
fn context_and_wrapper() {
    let context = Context::new("codec");
    assert_eq!(context.codec, "codec");
    assert!(context.buffer.is_empty());
    let wrapper: Wrapper<(), u32> = Wrapper::new(7);
    assert_eq!(wrapper.message, 7);
    assert_eq!(wrapper.unwrap(), 7);
}

#[test]
fn handshake_posts_open_and_opens_once() {
    let name = Some("worker".to_string());
    let (mut handshake, open) = Handshake::start(&name);
    assert!(!handshake.is_open());
    assert_eq!(classify(&open, &name), Incoming::Open);
    assert_eq!(classify(&open, &None), Incoming::Ignore);
    let mut state: State<u8, &str> = State::new();
    assert_eq!(handshake.receive(&mut state, Incoming::Ignore, 0, "bad"), (Received::Ignored, false));
    assert_eq!(handshake.receive(&mut state, Incoming::Open, 0, "bad"), (Received::Opened, false));
    assert!(handshake.is_open());
    assert_eq!(handshake.receive(&mut state, Incoming::Open, 0, "bad"), (Received::OpenedTwice, false));
    assert_eq!(handshake.receive(&mut state, Incoming::Message, 7, "bad"), (Received::Queued, true));
    assert_eq!(handshake.receive(&mut state, Incoming::Malformed, 0, "bad"), (Received::Malformed, true));
    assert_eq!(handshake.receive(&mut state, Incoming::Close, 0, "bad"), (Received::Closed, true));
    assert_eq!(handshake.receive(&mut state, Incoming::Close, 0, "bad"), (Received::Closed, false));
    assert_eq!(state.poll_next(), Poll::Ready(Some(Ok(7))));
    assert_eq!(state.poll_next(), Poll::Ready(Some(Err("bad"))));
    assert_eq!(state.poll_next(), Poll::Ready(None));
}

#[test]
fn close_envelope_reads_as_close() {
    let name = Some("worker".to_string());
    assert_eq!(classify(&close_envelope(&name), &name), Incoming::Close);
    assert_eq!(classify(&close_envelope(&None), &None), Incoming::Close);
}
