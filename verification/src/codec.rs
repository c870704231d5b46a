//! Compression of a payload as a raw DEFLATE stream.
//!
//! The compressor and the decompressor are flate2's.  Their outputs are not
//! spelled out here: each is given a name, and what is proved is proved for
//! whatever those names stand for.  Whether the compressor accepts a payload
//! is part of its answer, so success is stated over the name too.
use vstd::prelude::*;
use std::io::Read;
use std::io::Write;
use flate2::read::DeflateDecoder;
use flate2::write::DeflateEncoder;
use flate2::Compression;

verus! {

/// What flate2's encoder makes of `data` at its default level: the finished
/// raw DEFLATE stream, or nothing where the encoder fails on `data`.
pub uninterp spec fn deflated(data: Seq<u8>) -> Option<Seq<u8>>;

/// What flate2's decoder reads out of `stream`: the decompressed bytes, or
/// nothing where the stream is corrupt or ends too early.
pub uninterp spec fn inflated(stream: Seq<u8>) -> Option<Seq<u8>>;

/// `flate2::write::DeflateEncoder` over an empty vector: `data` is written
/// to it and the stream is finished.
///
/// Trusted: the encoder works on the data and the fixed level alone, into
/// memory, so whether it succeeds and what it writes are both what the name
/// `deflated(data)` has; the decoder reads `data` out of a finished stream
/// again; and, since the decoder refuses an empty stream as incomplete, a
/// finished stream is not empty.  Nothing is claimed about which payloads,
/// if any, the encoder fails on.
#[verifier::external_body]
fn deflate(data: &[u8]) -> (r: Result<Vec<u8>, std::io::Error>)
    ensures
        match r {
            Ok(stream) => deflated(data@) == Some(stream@) && inflated(stream@) == Some(data@)
                && stream@.len() > 0,
            Err(_) => deflated(data@) is None,
        },
{
    let mut encoder = DeflateEncoder::new(Vec::new(), Compression::default());
    encoder.write_all(data)?;
    encoder.finish()
}

/// `flate2::read::DeflateDecoder` over `stream`, read to its end.
///
/// Trusted: the bytes that come back are the ones named `inflated(stream)`,
/// and an error comes back exactly where that name has none.
#[verifier::external_body]
fn inflate(stream: &[u8]) -> (r: Result<Vec<u8>, std::io::Error>)
    ensures
        match r {
            Ok(data) => inflated(stream@) == Some(data@),
            Err(_) => inflated(stream@) is None,
        },
{
    let mut decoded = Vec::new();
    let mut decoder = DeflateDecoder::new(stream);
    decoder.read_to_end(&mut decoded)?;
    Ok(decoded)
}

/// Appends to `writer` the stream that the compressor gave, or hands on its
/// failure and appends nothing.
pub fn write_stream(writer: &mut Vec<u8>, packed: Result<Vec<u8>, std::io::Error>) -> (r: Result<
    (),
    std::io::Error,
>)
    ensures
        match packed {
            Ok(stream) => r is Ok && final(writer)@ == old(writer)@ + stream@,
            Err(cause) => r == Err::<(), std::io::Error>(cause) && final(writer)@ == old(writer)@,
        },
{
    match packed {
        Ok(stream) => {
            writer.extend_from_slice(stream.as_slice());
            Ok(())
        },
        Err(cause) => Err(cause),
    }
}

/// Compresses `data` and appends the finished stream to `writer`.
///
/// Succeeds exactly where the compressor accepts `data`.  The stream that is
/// appended is never empty and decompresses to `data`.  On failure nothing is
/// appended.
pub fn encode(writer: &mut Vec<u8>, data: &[u8]) -> (r: Result<(), std::io::Error>)
    ensures
        match r {
            Ok(()) => deflated(data@) matches Some(stream) && final(writer)@ == old(writer)@
                + stream && inflated(stream) == Some(data@) && stream.len() > 0,
            Err(_) => deflated(data@) is None && final(writer)@ == old(writer)@,
        },
{
    write_stream(writer, deflate(data))
}

/// Decompresses `data` to its end.
///
/// The output is as long as the stream says; callers bound the input.
pub fn decode(data: &[u8]) -> (r: Result<Vec<u8>, std::io::Error>)
    ensures
        match r {
            Ok(decoded) => inflated(data@) == Some(decoded@),
            Err(_) => inflated(data@) is None,
        },
{
    inflate(data)
}

} // verus!
