use lrcall::channel::Channel;
use lrcall::channel::Compressed;
use lrcall::channel::Received;
use lrcall::compression::CompressedMessage;
use lrcall::compression::CompressionError;
use lrcall::compression::Payload;
use lrcall::error::RpcError;

#[test]
fn messages_are_received_in_the_order_of_their_arrival() {
    let mut channel: Channel<u32, u32> = Channel::new();
    assert!(channel.deliver(1));
    assert!(channel.deliver(2));
    assert!(channel.deliver(3));
    assert_eq!(channel.recv(), Received::Message(1));
    assert_eq!(channel.recv(), Received::Message(2));
    assert!(channel.deliver(4));
    assert_eq!(channel.recv(), Received::Message(3));
    assert_eq!(channel.recv(), Received::Message(4));
    assert_eq!(channel.recv(), Received::Pending);
}

#[test]
fn messages_are_written_in_the_order_of_their_sending() {
    let mut channel: Channel<u32, &str> = Channel::new();
    assert_eq!(channel.send("a"), Ok(()));
    assert_eq!(channel.send("b"), Ok(()));
    assert_eq!(channel.flush(), vec!["a", "b"]);
    assert_eq!(channel.send("c"), Ok(()));
    assert_eq!(channel.flush(), vec!["c"]);
    assert_eq!(channel.flush(), Vec::<&str>::new());
}

#[test]
fn the_end_of_the_stream_is_reported_after_the_messages_before_it() {
    let mut channel: Channel<u32, u32> = Channel::new();
    assert!(channel.deliver(1));
    channel.end_of_stream();
    assert!(!channel.deliver(2));
    assert_eq!(channel.recv(), Received::Message(1));
    assert_eq!(channel.recv(), Received::EndOfStream);
    assert_eq!(channel.recv(), Received::EndOfStream);
    assert_eq!(channel.send(9), Ok(()));
}

#[test]
fn a_closed_channel_receives_nothing_and_refuses_to_send() {
    let mut channel: Channel<u32, u32> = Channel::new();
    assert!(channel.deliver(1));
    assert_eq!(channel.send(10), Ok(()));
    assert_eq!(channel.send(11), Ok(()));
    assert!(!channel.is_closed());
    assert_eq!(channel.close(), vec![10, 11]);
    assert!(channel.is_closed());
    assert_eq!(channel.recv(), Received::EndOfStream);
    assert_eq!(channel.send(12), Err(RpcError::ChannelClosed));
    assert!(!channel.deliver(2));
    assert_eq!(channel.flush(), Vec::<u32>::new());
    assert_eq!(channel.close(), Vec::<u32>::new());
}

#[test]
fn the_compression_layer_is_symmetric() {
    let mut client: Compressed<String> = Compressed::new(Channel::new());
    assert_eq!(client.send(&b"first request".to_vec()), Ok(()));
    assert_eq!(client.send(&b"second request".to_vec()), Ok(()));
    let mut below_client = client.into_inner();
    let mut below_server = Channel::new();
    for message in below_client.flush() {
        assert!(matches!(message, CompressedMessage::Compressed { algorithm: 0, .. }));
        assert!(below_server.deliver(message));
    }
    let mut server: Compressed<String> = Compressed::new(below_server);
    assert_eq!(server.recv(), Received::Message(Ok(Payload::Serialized(b"first request".to_vec()))));
    assert_eq!(server.recv(), Received::Message(Ok(Payload::Serialized(b"second request".to_vec()))));
    assert_eq!(server.recv(), Received::Pending);
}

#[test]
fn a_message_that_cannot_be_decompressed_does_not_affect_the_next() {
    let mut below = Channel::new();
    assert!(below.deliver(CompressedMessage::Compressed { algorithm: 9, payload: vec![1, 2, 3] }));
    assert!(below.deliver(CompressedMessage::Uncompressed(String::from("plain"))));
    assert!(below.deliver(CompressedMessage::Compressed { algorithm: 0, payload: vec![0xff; 8] }));
    below.end_of_stream();
    let mut layer: Compressed<String> = Compressed::new(below);
    assert_eq!(layer.recv(), Received::Message(Err(CompressionError::UnsupportedAlgorithm(9))));
    assert_eq!(layer.recv(), Received::Message(Ok(Payload::Message(String::from("plain")))));
    assert_eq!(layer.recv(), Received::Message(Err(CompressionError::Malformed)));
    assert_eq!(layer.recv(), Received::EndOfStream);
}

#[test]
fn the_compression_layer_refuses_to_send_on_a_closed_channel() {
    let mut layer: Compressed<()> = Compressed::new(Channel::new());
    assert_eq!(layer.send(&vec![1, 2, 3]), Ok(()));
    assert_eq!(layer.close().len(), 1);
    assert_eq!(layer.send(&vec![1, 2, 3]), Err(RpcError::ChannelClosed));
    assert_eq!(layer.recv(), Received::EndOfStream);
}
