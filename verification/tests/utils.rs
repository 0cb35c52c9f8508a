use std::convert::Infallible;

use dnet::latest::{on_pending, Latest};
use dnet::logging::{Level, Logging};
use dnet::number::{Error as NumberError, MessageNumber, Number, Numbered, Unwrap};
use dnet::split::{map_error as split_map_error, Error as SplitError, Message, Routed, SplitState};
use dnet::transport::{Error, Poll};
use dnet::void::Void;
use dnet::wall::{Error as WallError, Wall};
use dnet::wrappers::{map_send_error, send_error, ChannelError, Filtering, Mapping, Merged};

type M = Message<u8, String, (), (), ()>;

#[test]
fn numbered_sends_consecutive_numbers() {
    let mut numbered: Numbered<u32> = Numbered::new_u32();
    let first = numbered.wrap("a").unwrap();
    assert_eq!(first.number, 0);
    assert!(numbered.sent::<&str>(Ok(())).is_ok());
    let second = numbered.wrap("b").unwrap();
    assert_eq!(second.number, 1);
    assert_eq!(second.number(), 1);
    assert_eq!(second.unwrap(), "b");
    assert_eq!(numbered.current_number(), 1);
}

#[test]
fn numbered_failed_send_keeps_the_number() {
    let mut numbered: Numbered<u64> = Numbered::new_u64();
    let result = numbered.sent::<&str>(Err(Error::Other("x")));
    assert!(matches!(result, Err(Error::Other(NumberError::Transport("x")))));
    assert_eq!(numbered.current_number(), 0);
    let result = numbered.sent::<&str>(Err(Error::Closed));
    assert!(matches!(result, Err(Error::Closed)));
}

#[test]
fn numbered_maximum() {
    let result = Numbered::<u32>::maximum_reached::<&str>();
    assert!(matches!(result, Err(Error::Other(NumberError::MaximumNumberReached))));
    assert!(u32::MAX.is_max());
    assert!(!0u128.is_max());
    assert_eq!(5u32.successor(), 6);
    assert!(6u64.greater_than(&5));
}

#[test]
fn latest_keeps_only_newer_numbers() {
    let mut latest: Latest<u32> = Latest::new();
    let (accepted, log) = latest.offer(5, "u32");
    assert!(accepted);
    assert!(log.is_none());
    let (accepted, _) = latest.offer(3, "u32");
    assert!(!accepted);
    let (accepted, _) = latest.offer(5, "u32");
    assert!(!accepted);
    let (accepted, _) = latest.offer(9, "u32");
    assert!(accepted);
}

#[test]
fn latest_logs_filtered_offers_when_enabled() {
    let mut latest: Latest<u32> = Latest::new();
    latest.enable_logging();
    latest.offer(1, "u32");
    let (_, log) = latest.offer(0, "u32");
    let record = log.unwrap();
    assert_eq!(record.level, Level::Trace);
    assert_eq!(record.text, "incoming message filtered out");
}

#[test]
fn latest_selection_and_pending() {
    let mut latest: Latest<usize> = Latest::new();
    let wrapper = |n: usize, s: &'static str| dnet::number::Wrapper { number: n, wrapped: s };
    let (selected, _) = latest.on_item(None, wrapper(2, "two"), "str");
    let (selected, _) = latest.on_item(selected, wrapper(1, "one"), "str");
    let (selected, _) = latest.on_item(selected, wrapper(4, "four"), "str");
    assert_eq!(selected, Some(wrapper(4, "four")));
    assert_eq!(on_pending::<_, Infallible>(selected), Poll::Ready(Some(Ok(wrapper(4, "four")))));
    assert_eq!(on_pending::<dnet::number::Wrapper<usize, &str>, Infallible>(None), Poll::Pending);
}

#[test]
fn split_messages_unwrap_by_variant() {
    let message: M = Message::Variant2("x".to_string());
    assert_eq!(message.variant(), 1);
    let message = message.unwrap1().unwrap_err();
    assert_eq!(message.unwrap2(), Ok("x".to_string()));
}

#[test]
fn split_routes_messages_to_their_part() {
    let mut state: SplitState<u8, String, (), (), ()> = SplitState::new(2);
    assert_eq!(state.parts(), 2);
    assert!(matches!(state.route(0, Message::Variant1(1)), Routed::Deliver(Message::Variant1(1))));
    assert!(matches!(state.route(0, Message::Variant2("a".to_string())), Routed::Buffered));
    assert!(matches!(state.route(0, Message::Variant2("b".to_string())), Routed::Buffered));
    assert!(matches!(state.route(1, Message::Variant3(())), Routed::Unexpected(2)));
    assert_eq!(state.pop_buffered(1), Some(Message::Variant2("a".to_string())));
    assert_eq!(state.pop_buffered(1), Some(Message::Variant2("b".to_string())));
    assert_eq!(state.pop_buffered(1), None);
    assert_eq!(state.pop_buffered(0), None);
}

#[test]
fn split_shared_polls() {
    let mut state: SplitState<u8, String, (), (), ()> = SplitState::new(2);
    let r = state.on_shared::<&str>(1, Poll::Ready(Some(Ok(Message::Variant1(3)))));
    assert!(r.is_none());
    let r = state.on_shared::<&str>(1, Poll::Ready(Some(Ok(Message::Variant2("s".to_string())))));
    assert_eq!(r, Some(Poll::Ready(Some(Ok(Message::Variant2("s".to_string()))))));
    let r = state.on_shared::<&str>(1, Poll::Ready(Some(Err("e"))));
    assert_eq!(r, Some(Poll::Ready(Some(Err(SplitError::Transport("e"))))));
    let r = state.on_shared::<&str>(0, Poll::Ready(Some(Ok(Message::Variant4(())))));
    assert_eq!(r, Some(Poll::Ready(Some(Err(SplitError::UnexpectedVariantReceived(3))))));
    assert_eq!(state.on_shared::<&str>(0, Poll::Ready(None)), Some(Poll::Ready(None)));
    assert_eq!(state.on_shared::<&str>(0, Poll::Pending), Some(Poll::Pending));
    assert_eq!(state.pop_buffered(0), Some(Message::Variant1(3)));
}

#[test]
fn split_error_mapping() {
    assert!(matches!(split_map_error::<u8>(Error::Closed), Error::Closed));
    assert!(matches!(split_map_error(Error::Other(4u8)), Error::Other(SplitError::Transport(4))));
}

#[test]
fn void_accepts_everything_and_never_receives() {
    let mut void: Void<i32, &str> = Void::default();
    void.enable_logging();
    let (result, log) = void.start_send("Hello", "&str");
    assert_eq!(result, Ok(()));
    assert_eq!(log.unwrap().text, "message sent");
    assert_eq!(void.poll_ready().0, Poll::Ready(Ok(())));
    assert_eq!(void.poll_flush().0, Poll::Ready(Ok(())));
    assert_eq!(void.poll_close().0, Poll::Ready(Ok(())));
    let (polled, log) = void.poll_next();
    assert_eq!(polled, Poll::Pending);
    assert_eq!(log.unwrap().level, Level::Warn);
    assert!(!void.is_terminated());
}

#[test]
fn wall_send_error() {
    let wall: Wall<i32, &str> = Wall::default();
    assert_eq!(wall.start_send("Hello").0, Err(Error::Other(WallError::Send)));
}

#[test]
fn wall_flush_error() {
    let wall: Wall<i32, &str> = Wall::default();
    assert_eq!(wall.poll_flush().0, Poll::Ready(Err(Error::Other(WallError::Flush))));
}

#[test]
fn wall_close_error() {
    let wall: Wall<i32, &str> = Wall::default();
    assert_eq!(wall.poll_close().0, Poll::Ready(Err(Error::Other(WallError::Close))));
}

#[test]
fn wall_receive_error() {
    let wall: Wall<i32, &str> = Wall::default();
    assert_eq!(wall.poll_next().0, Poll::Ready(Some(Err(WallError::Receive))));
}

#[test]
fn wall_logs_error_texts() {
    let mut wall: Wall<i32, &str> = Wall::default();
    wall.enable_logging();
    assert_eq!(wall.start_send("x").1.unwrap().text, "failed to send message: attempted to send message into the wall");
    assert_eq!(
        wall.poll_next().1.unwrap().text,
        "failed to receive message: attempted to receive message from the wall"
    );
    assert_eq!(wall.poll_flush().1.unwrap().text, "failed to flush outgoing messages: attempted to flush the wall");
    assert_eq!(wall.poll_close().1.unwrap().text, "failed to close transport: attempted to close the wall");
    assert_eq!(wall.poll_ready().0, Poll::Ready(Ok(())));
}

#[test]
fn filtering_decisions() {
    let mut filtering = Filtering::new();
    filtering.enable_logging();
    let (forward, log) = filtering.outgoing(true, "String");
    assert!(forward);
    assert!(log.is_none());
    let (forward, log) = filtering.outgoing(false, "String");
    assert!(!forward);
    assert_eq!(log.unwrap().text, "outgoing message filtered out");
    let (r, _) = filtering.incoming::<u32, &str>(Poll::Ready(Some(Ok(2))), true, "u32");
    assert_eq!(r, Some(Poll::Ready(Some(Ok(2)))));
    let (r, log) = filtering.incoming::<u32, &str>(Poll::Ready(Some(Ok(3))), false, "u32");
    assert_eq!(r, None);
    assert_eq!(log.unwrap().text, "incoming message filtered out");
    let (r, _) = filtering.incoming::<u32, &str>(Poll::Ready(Some(Err("e"))), false, "u32");
    assert_eq!(r, Some(Poll::Ready(Some(Err("e")))));
}

#[test]
fn wrapper_kinds() {
    assert_eq!(Filtering::new().logger().span().kind, "Filtering");
    assert_eq!(Mapping::new().logger().span().kind, "Map");
    assert_eq!(Mapping::unwrapping().logger().span().kind, "Unwrapping");
    assert_eq!(Merged::new().logger().span().kind, "Merged");
    assert_eq!(Merged::channel().logger().span().kind, "Channel");
}

#[test]
fn channel_errors() {
    assert_eq!(send_error(true), Error::Other(ChannelError::ChannelIsFull));
    assert_eq!(send_error(false), Error::Closed);
    assert_eq!(ChannelError::ChannelIsFull.text(), "channel is full");
}

#[test]
fn channel_send_error_of_a_dropped_receiver_is_closed() {
    let (mut sender, receiver) = futures::channel::mpsc::unbounded::<u8>();
    drop(receiver);
    let error = sender.start_send(1).unwrap_err();
    assert_eq!(map_send_error(error), Error::Closed);
}

#[test]
fn channel_send_error_of_a_full_channel() {
    let (mut sender, _receiver) = futures::channel::mpsc::channel::<u8>(0);
    sender.try_send(1).unwrap();
    let error = sender.try_send(2).unwrap_err().into_send_error();
    assert_eq!(map_send_error(error), Error::Other(ChannelError::ChannelIsFull));
}

#[test]
fn filtering_keeps_the_messages_the_filters_accept() {
    let filtering = Filtering::new();
    let incoming: Vec<u32> = (1..=5)
        .filter_map(|n| filtering.incoming::<u32, &str>(Poll::Ready(Some(Ok(n))), n % 2 == 0, "u32").0)
        .map(|polled| match polled {
            Poll::Ready(Some(Ok(n))) => n,
            _ => unreachable!(),
        })
        .collect();
    assert_eq!(incoming, vec![2, 4]);
    let outgoing: Vec<&str> = vec!["Anna", "Tom", "Albert", "Robert"]
        .into_iter()
        .filter(|name| filtering.outgoing(!name.starts_with('A'), "String").0)
        .collect();
    assert_eq!(outgoing, vec!["Tom", "Robert"]);
}
