//! A channel: the two-way conduit of whole messages between a driver and a
//! raw transport, and the compression layer around it.
//!
//! A channel does not look into messages. Messages that the transport has
//! delivered wait in the order of their arrival until they are received;
//! messages that have been sent wait in the order of their sending until the
//! transport takes them. To close a channel hands over what is still to be
//! written and lets go of the rest: from then on there is nothing to
//! receive, and to send fails.
//!
//! One side owns a channel, the client's stub or the server's dispatch loop;
//! every change goes through a unique reference.

use crate::compression::compress;
use crate::compression::decompress;
use crate::compression::decompressed;
use crate::compression::deflated;
use crate::compression::CompressedMessage;
use crate::compression::CompressionError;
use crate::compression::Payload;
use crate::compression::DEFLATE_TAG;
use crate::error::RpcError;
use vstd::prelude::*;

verus! {

/// What a channel holds.
pub struct ChannelState<In, Out> {
    /// Delivered by the transport and not received yet, oldest first.
    pub inbound: Seq<In>,
    /// Sent and not taken by the transport yet, oldest first.
    pub outbound: Seq<Out>,
    /// Whether the transport has reported the end of its stream.
    pub ended: bool,
    /// Whether the channel has been closed.
    pub closed: bool,
}

/// Whether the message `message` comes out of the compression layer as
/// `outcome`: an uncompressed message as it is, a compressed one as the
/// serialized message it decompresses to, or as the reason why it does not.
pub open spec fn arrives_as<T>(
    message: CompressedMessage<T>,
    outcome: Result<Payload<T>, CompressionError>,
) -> bool {
    match message {
        CompressedMessage::Uncompressed(inner) => outcome == Ok::<Payload<T>, CompressionError>(
            Payload::Message(inner),
        ),
        CompressedMessage::Compressed { algorithm, payload } => match decompressed(
            algorithm,
            payload@,
        ) {
            Ok(bytes) => outcome matches Ok(Payload::Serialized(out)) && out@ == bytes,
            Err(error) => outcome == Err::<Payload<T>, CompressionError>(error),
        },
    }
}

/// What an attempt to receive yields.
#[derive(Debug, PartialEq, Eq)]
pub enum Received<In> {
    /// The next message.
    Message(In),
    /// No message has arrived yet: the receiver is to wait for the
    /// transport.
    Pending,
    /// No message will arrive any more.
    EndOfStream,
}

/// A channel of incoming messages `In` and outgoing messages `Out`.
pub struct Channel<In, Out> {
    inbound: Vec<In>,
    outbound: Vec<Out>,
    ended: bool,
    closed: bool,
}

impl<In, Out> View for Channel<In, Out> {
    type V = ChannelState<In, Out>;

    closed spec fn view(&self) -> ChannelState<In, Out> {
        ChannelState {
            inbound: self.inbound@,
            outbound: self.outbound@,
            ended: self.ended,
            closed: self.closed,
        }
    }
}

impl<In, Out> Channel<In, Out> {
    /// An open channel that holds no messages.
    pub fn new() -> (channel: Self)
        ensures
            channel@.inbound.len() == 0,
            channel@.outbound.len() == 0,
            !channel@.ended,
            !channel@.closed,
    {
        Channel { inbound: Vec::new(), outbound: Vec::new(), ended: false, closed: false }
    }

    /// Whether the channel has been closed.
    pub fn is_closed(&self) -> (closed: bool)
        ensures
            closed == self@.closed,
    {
        self.closed
    }

    /// The transport hands over a message that has arrived. It joins the
    /// messages that wait to be received, behind them; a closed channel and
    /// one whose stream has ended drop it. Returns whether it was taken.
    pub fn deliver(&mut self, message: In) -> (taken: bool)
        ensures
            taken == (!old(self)@.closed && !old(self)@.ended),
            final(self)@ == if taken {
                ChannelState { inbound: old(self)@.inbound.push(message), ..old(self)@ }
            } else {
                old(self)@
            },
    {
        if self.closed || self.ended {
            false
        } else {
            self.inbound.push(message);
            true
        }
    }

    /// The transport reports that its stream has ended.
    pub fn end_of_stream(&mut self)
        ensures
            final(self)@ == (ChannelState { ended: true, ..old(self)@ }),
    {
        self.ended = true;
    }

    /// Receives the message that has waited longest. Where none waits, the
    /// receiver is to wait, unless the stream has ended or the channel has
    /// been closed: then there is nothing to wait for.
    pub fn recv(&mut self) -> (received: Received<In>)
        ensures
            received == if old(self)@.inbound.len() > 0 {
                Received::Message(old(self)@.inbound[0])
            } else if old(self)@.ended || old(self)@.closed {
                Received::EndOfStream
            } else {
                Received::Pending
            },
            final(self)@ == if old(self)@.inbound.len() > 0 {
                ChannelState { inbound: old(self)@.inbound.drop_first(), ..old(self)@ }
            } else {
                old(self)@
            },
    {
        if self.inbound.len() > 0 {
            let message = self.inbound.remove(0);
            Received::Message(message)
        } else if self.ended || self.closed {
            Received::EndOfStream
        } else {
            Received::Pending
        }
    }

    /// Sends a message: it joins the messages that wait for the transport,
    /// behind them. A closed channel refuses it.
    pub fn send(&mut self, message: Out) -> (sent: Result<(), RpcError>)
        ensures
            sent == if old(self)@.closed {
                Err::<(), RpcError>(RpcError::ChannelClosed)
            } else {
                Ok::<(), RpcError>(())
            },
            final(self)@ == if old(self)@.closed {
                old(self)@
            } else {
                ChannelState { outbound: old(self)@.outbound.push(message), ..old(self)@ }
            },
    {
        if self.closed {
            Err(RpcError::ChannelClosed)
        } else {
            self.outbound.push(message);
            Ok(())
        }
    }

    /// The transport takes the messages that wait for it, in the order in
    /// which they were sent.
    pub fn flush(&mut self) -> (written: Vec<Out>)
        ensures
            written@ == old(self)@.outbound,
            final(self)@ == (ChannelState { outbound: Seq::<Out>::empty(), ..old(self)@ }),
    {
        let mut written: Vec<Out> = Vec::new();
        std::mem::swap(&mut written, &mut self.outbound);
        written
    }

    /// Closes the channel. The messages that still wait for the transport
    /// come back, in the order in which they were sent, to be written as far
    /// as the transport will take them; the messages that wait to be
    /// received are dropped.
    pub fn close(&mut self) -> (written: Vec<Out>)
        ensures
            written@ == old(self)@.outbound,
            final(self)@ == (ChannelState {
                inbound: Seq::<In>::empty(),
                outbound: Seq::<Out>::empty(),
                ended: old(self)@.ended,
                closed: true,
            }),
    {
        let written = self.flush();
        self.inbound.clear();
        self.closed = true;
        written
    }
}

/// The compression layer around a channel: serialized messages go in and
/// come out above it, compressed messages travel below it.
pub struct Compressed<T> {
    inner: Channel<CompressedMessage<T>, CompressedMessage<T>>,
}

impl<T> Compressed<T> {
    /// The channel below the layer.
    pub closed spec fn below(self) -> ChannelState<CompressedMessage<T>, CompressedMessage<T>> {
        self.inner@
    }

    /// Puts the layer around `channel`.
    pub fn new(channel: Channel<CompressedMessage<T>, CompressedMessage<T>>) -> (layer: Self)
        ensures
            layer.below() == channel@,
    {
        Compressed { inner: channel }
    }

    /// Takes the layer off again.
    pub fn into_inner(self) -> (channel: Channel<CompressedMessage<T>, CompressedMessage<T>>)
        ensures
            channel@ == self.below(),
    {
        self.inner
    }

    /// Sends the serialized message `serialized`, compressed.
    ///
    /// The message is sent if and only if the channel is open and the
    /// compressor yields a stream. A closed channel refuses the message, and
    /// so does a compressor that gives up; either way the channel stays as
    /// it is. Otherwise one message has joined the messages that wait for
    /// the transport: it holds the compressor's stream under the tag of
    /// DEFLATE and decompresses to `serialized`.
    pub fn send(&mut self, serialized: &Vec<u8>) -> (sent: Result<(), RpcError>)
        ensures
            sent is Ok <==> !old(self).below().closed && deflated(serialized@) is Some,
            old(self).below().closed ==> sent == Err::<(), RpcError>(RpcError::ChannelClosed),
            sent matches Err(error) ==> final(self).below() == old(self).below() && error == (
            if old(self).below().closed {
                RpcError::ChannelClosed
            } else {
                RpcError::Serialization
            }),
            sent is Ok ==> {
                &&& !old(self).below().closed
                &&& final(self).below().outbound.len() == old(self).below().outbound.len() + 1
                &&& final(self).below().outbound.drop_last() == old(self).below().outbound
                &&& final(self).below().inbound == old(self).below().inbound
                &&& final(self).below().ended == old(self).below().ended
                &&& final(self).below().closed == old(self).below().closed
                &&& final(self).below().outbound.last() matches CompressedMessage::Compressed {
                    algorithm,
                    payload,
                }
                &&& algorithm == DEFLATE_TAG
                &&& deflated(serialized@) == Some(payload@)
                &&& decompressed(algorithm, payload@) == Ok::<Seq<u8>, CompressionError>(
                    serialized@,
                )
            },
    {
        if self.inner.is_closed() {
            return Err(RpcError::ChannelClosed);
        }
        match compress::<T>(serialized) {
            Ok(message) => self.inner.send(message),
            Err(error) => Err(RpcError::from_compression(error)),
        }
    }

    /// Receives the message that has waited longest and undoes its
    /// compression. A message that cannot be decompressed is lost, with the
    /// reason in its place; the messages behind it are not affected.
    pub fn recv(&mut self) -> (received: Received<Result<Payload<T>, CompressionError>>)
        ensures
            final(self).below() == if old(self).below().inbound.len() > 0 {
                ChannelState {
                    inbound: old(self).below().inbound.drop_first(),
                    ..old(self).below()
                }
            } else {
                old(self).below()
            },
            old(self).below().inbound.len() == 0 ==> received == if old(self).below().ended
                || old(self).below().closed {
                Received::<Result<Payload<T>, CompressionError>>::EndOfStream
            } else {
                Received::<Result<Payload<T>, CompressionError>>::Pending
            },
            old(self).below().inbound.len() > 0 ==> received is Message && arrives_as(
                old(self).below().inbound[0],
                received->Message_0,
            ),
    {
        match self.inner.recv() {
            Received::Message(message) => Received::Message(decompress(message)),
            Received::Pending => Received::Pending,
            Received::EndOfStream => Received::EndOfStream,
        }
    }

    /// Closes the channel below the layer and returns the messages that
    /// still wait for the transport.
    pub fn close(&mut self) -> (written: Vec<CompressedMessage<T>>)
        ensures
            written@ == old(self).below().outbound,
            final(self).below() == (ChannelState {
                inbound: Seq::<CompressedMessage<T>>::empty(),
                outbound: Seq::<CompressedMessage<T>>::empty(),
                ended: old(self).below().ended,
                closed: true,
            }),
    {
        self.inner.close()
    }
}

} // verus!
