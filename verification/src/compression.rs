//! Compression of message payloads.
//!
//! A payload that has been serialized is deflated and wrapped with the tag
//! of the algorithm; the other side reads the tag, inflates and hands the
//! bytes on to be deserialized. A message may also travel as it is: to
//! compress is a choice of the sender. A tag that is not known is refused,
//! never passed through.

use std::io::Read;
use std::io::Write;
use vstd::prelude::*;

verus! {

/// The tag of [`CompressionAlgorithm::Deflate`] on the wire.
pub const DEFLATE_TAG: u8 = 0;

/// The algorithms that payloads can be compressed with.
#[derive(Clone, Copy, Debug, PartialEq, Eq, Hash, Structural)]
pub enum CompressionAlgorithm {
    /// DEFLATE, as a raw stream.
    Deflate,
}

/// A message as it travels below the compression layer.
#[derive(Clone, Debug, PartialEq, Eq)]
pub enum CompressedMessage<T> {
    /// The message itself.
    Uncompressed(T),
    /// The serialized message, compressed.
    Compressed {
        /// Tag of the algorithm that `payload` was compressed with.
        algorithm: u8,
        /// The compressed bytes.
        payload: Vec<u8>,
    },
}

/// What the compression layer hands upwards for a message it has received.
#[derive(Clone, Debug, PartialEq, Eq)]
pub enum Payload<T> {
    /// The message itself: it had not been compressed.
    Message(T),
    /// The serialized message, still to be deserialized.
    Serialized(Vec<u8>),
}

/// Why a message could not be compressed or decompressed.
#[derive(Clone, Copy, Debug, PartialEq, Eq, Hash, Structural)]
pub enum CompressionError {
    /// The message names an algorithm that is not known here.
    UnsupportedAlgorithm(u8),
    /// The payload is not what the named algorithm produces.
    Malformed,
    /// The compressor gave up.
    Compressor,
}

/// The algorithm that the tag `tag` stands for.
pub open spec fn algorithm_of(tag: u8) -> Option<CompressionAlgorithm> {
    if tag == DEFLATE_TAG {
        Some(CompressionAlgorithm::Deflate)
    } else {
        None
    }
}

/// The raw DEFLATE stream that the compressor makes of `input` at its
/// default level; `None` where the compressor gives up.
pub uninterp spec fn deflated(input: Seq<u8>) -> Option<Seq<u8>>;

/// The bytes that a raw DEFLATE stream decompresses to; `None` where the
/// bytes are no such stream.
pub uninterp spec fn inflated(stream: Seq<u8>) -> Option<Seq<u8>>;

/// The serialized message that a payload with the tag `algorithm` stands
/// for.
pub open spec fn decompressed(algorithm: u8, payload: Seq<u8>) -> Result<
    Seq<u8>,
    CompressionError,
> {
    match algorithm_of(algorithm) {
        None => Err(CompressionError::UnsupportedAlgorithm(algorithm)),
        Some(CompressionAlgorithm::Deflate) => match inflated(payload) {
            Some(bytes) => Ok(bytes),
            None => Err(CompressionError::Malformed),
        },
    }
}

/// `flate2::write::DeflateEncoder` at the default level, fed with `input`
/// and finished: the raw DEFLATE stream that flate2 makes of `input`, which
/// depends on `input` alone, or `None` where flate2 reports a failure.
/// DEFLATE loses nothing, so the stream inflates to `input` again.
#[verifier::external_body]
fn deflate(input: &Vec<u8>) -> (stream: Option<Vec<u8>>)
    ensures
        match stream {
            Some(bytes) => deflated(input@) == Some(bytes@),
            None => deflated(input@).is_none(),
        },
        stream matches Some(bytes) ==> inflated(bytes@) == Some(input@),
{
    let mut encoder = flate2::write::DeflateEncoder::new(
        Vec::new(),
        flate2::Compression::default(),
    );
    match encoder.write_all(input) {
        Ok(()) => encoder.finish().ok(),
        Err(_) => None,
    }
}

/// `flate2::read::DeflateDecoder`, read to its end: the bytes that the raw
/// DEFLATE stream `stream` decompresses to, or `None` where flate2 reports
/// that it is no such stream.
#[verifier::external_body]
fn inflate(stream: &Vec<u8>) -> (bytes: Option<Vec<u8>>)
    ensures
        match bytes {
            Some(out) => inflated(stream@) == Some(out@),
            None => inflated(stream@).is_none(),
        },
{
    let mut decoder = flate2::read::DeflateDecoder::new(stream.as_slice());
    let mut out = Vec::new();
    match decoder.read_to_end(&mut out) {
        Ok(_) => Some(out),
        Err(_) => None,
    }
}

impl CompressionAlgorithm {
    /// The tag of the algorithm on the wire.
    pub fn tag(&self) -> (tag: u8)
        ensures
            algorithm_of(tag) == Some(*self),
    {
        match self {
            CompressionAlgorithm::Deflate => DEFLATE_TAG,
        }
    }

    /// The algorithm with the tag `tag`; `None` for a tag that is not known.
    pub fn from_tag(tag: u8) -> (algorithm: Option<CompressionAlgorithm>)
        ensures
            algorithm == algorithm_of(tag),
    {
        if tag == DEFLATE_TAG {
            Some(CompressionAlgorithm::Deflate)
        } else {
            None
        }
    }
}

/// Wraps what the compressor made of a serialized message: the stream with
/// the tag of DEFLATE, or the compressor's failure.
pub fn seal<T>(stream: Option<Vec<u8>>) -> (message: Result<CompressedMessage<T>, CompressionError>)
    ensures
        match stream {
            Some(bytes) => message == Ok::<CompressedMessage<T>, CompressionError>(
                CompressedMessage::Compressed { algorithm: DEFLATE_TAG, payload: bytes },
            ),
            None => message == Err::<CompressedMessage<T>, CompressionError>(
                CompressionError::Compressor,
            ),
        },
{
    match stream {
        Some(bytes) => Ok(CompressedMessage::Compressed { algorithm: DEFLATE_TAG, payload: bytes }),
        None => Err(CompressionError::Compressor),
    }
}

/// Hands on what the decompressor made of a payload: the serialized message,
/// or the finding that the payload was malformed.
pub fn unseal<T>(bytes: Option<Vec<u8>>) -> (payload: Result<Payload<T>, CompressionError>)
    ensures
        match bytes {
            Some(out) => payload == Ok::<Payload<T>, CompressionError>(Payload::Serialized(out)),
            None => payload == Err::<Payload<T>, CompressionError>(CompressionError::Malformed),
        },
{
    match bytes {
        Some(out) => Ok(Payload::Serialized(out)),
        None => Err(CompressionError::Malformed),
    }
}

/// Compresses the serialized message `serialized`. A message comes back
/// wherever the compressor yields a stream, and holds that stream as its
/// payload; where the compressor gives up, its failure comes back. What
/// comes back is never an uncompressed message, and a message that comes
/// back decompresses to `serialized` again.
pub fn compress<T>(serialized: &Vec<u8>) -> (message: Result<CompressedMessage<T>, CompressionError>)
    ensures
        match deflated(serialized@) {
            Some(bytes) => message matches Ok(CompressedMessage::Compressed { algorithm, payload })
                && algorithm == DEFLATE_TAG && payload@ == bytes,
            None => message == Err::<CompressedMessage<T>, CompressionError>(
                CompressionError::Compressor,
            ),
        },
        match message {
            Ok(CompressedMessage::Compressed { algorithm, payload }) => algorithm == DEFLATE_TAG
                && decompressed(algorithm, payload@) == Ok::<Seq<u8>, CompressionError>(
                serialized@,
            ),
            Ok(CompressedMessage::Uncompressed(_)) => false,
            Err(error) => error == CompressionError::Compressor,
        },
{
    seal(deflate(serialized))
}

/// Undoes the compression of a received message. An uncompressed message is
/// handed on as it is. A compressed one is refused where its tag is not
/// known, before its payload is looked at, and where its payload is
/// malformed; otherwise the serialized message comes back.
pub fn decompress<T>(message: CompressedMessage<T>) -> (payload: Result<
    Payload<T>,
    CompressionError,
>)
    ensures
        match message {
            CompressedMessage::Uncompressed(inner) => payload == Ok::<
                Payload<T>,
                CompressionError,
            >(Payload::Message(inner)),
            CompressedMessage::Compressed { algorithm, payload: stream } => match decompressed(
                algorithm,
                stream@,
            ) {
                Ok(bytes) => payload matches Ok(Payload::Serialized(out)) && out@ == bytes,
                Err(error) => payload == Err::<Payload<T>, CompressionError>(error),
            },
        },
{
    match message {
        CompressedMessage::Uncompressed(inner) => Ok(Payload::Message(inner)),
        CompressedMessage::Compressed { algorithm, payload } => {
            match CompressionAlgorithm::from_tag(algorithm) {
                None => Err(CompressionError::UnsupportedAlgorithm(algorithm)),
                Some(CompressionAlgorithm::Deflate) => unseal(inflate(&payload)),
            }
        },
    }
}

/// A tag other than that of DEFLATE is refused whatever the payload holds.
pub proof fn lemma_unknown_tag_is_refused(algorithm: u8, payload: Seq<u8>)
    requires
        algorithm != DEFLATE_TAG,
    ensures
        decompressed(algorithm, payload) == Err::<Seq<u8>, CompressionError>(
            CompressionError::UnsupportedAlgorithm(algorithm),
        ),
{
}

} // verus!
