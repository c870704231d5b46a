//! Saved blobs: a header followed by the compressed payload.
//!
//! The payload is a run of bytes.  Turning a typed value into that run, and
//! back, is the caller's part.
use vstd::prelude::*;
use crate::codec::decode;
use crate::codec::deflated;
use crate::codec::encode;
use crate::codec::inflated;
use crate::error::Error;
use crate::header::header_bytes;
use crate::header::header_fault;
use crate::header::lemma_mutated_header_is_invalid;
use crate::header::lemma_written_header_is_valid;
use crate::header::validate_header;
use crate::header::push_header;
use crate::header::HEADER_LEN;

verus! {

/// The blob that holds `data`: the header, then the compressed payload.
/// There is none where the compressor fails on `data`.
pub open spec fn saved(data: Seq<u8>) -> Option<Seq<u8>> {
    match deflated(data) {
        Some(stream) => Some(header_bytes() + stream),
        None => None,
    }
}

/// The payload that `blob` holds, if it opens with a valid header and the
/// rest of it decompresses.
pub open spec fn loaded(blob: Seq<u8>) -> Option<Seq<u8>> {
    if header_fault(blob) is None {
        inflated(blob.skip(9))
    } else {
        None
    }
}

/// What a blob with a valid header holds is what the decompressor reads out
/// of the bytes behind the header, and nothing where the decompressor fails:
/// a load never makes up a payload of its own.
pub proof fn lemma_loaded_is_inflated_payload(payload: Seq<u8>)
    ensures
        loaded(header_bytes() + payload) == inflated(payload),
{
    lemma_written_header_is_valid(payload);
    assert((header_bytes() + payload).skip(9) =~= payload);
}

/// A blob that loads no longer loads once any byte of its header is changed.
pub proof fn lemma_changed_header_never_loads(blob: Seq<u8>, at: int, byte: u8)
    requires
        loaded(blob) is Some,
        0 <= at < 9,
        byte != blob[at],
    ensures
        loaded(blob.update(at, byte)) is None,
{
    lemma_mutated_header_is_invalid(blob, at, byte);
}

/// What a save returns once the compressor has answered: the buffer where it
/// succeeded, its failure as `EncodingFailed` where it did not.
pub fn finish_save(buf: Vec<u8>, encoded: Result<(), std::io::Error>) -> (r: Result<Vec<u8>, Error>)
    ensures
        match encoded {
            Ok(()) => r == Ok::<Vec<u8>, Error>(buf),
            Err(cause) => r == Err::<Vec<u8>, Error>(Error::EncodingFailed(cause)),
        },
{
    match encoded {
        Ok(()) => Ok(buf),
        Err(cause) => Err(Error::EncodingFailed(cause)),
    }
}

/// What a load returns once the decompressor has answered: the payload where
/// it succeeded, its failure as `DecodingFailed` where it did not.
pub fn finish_load(decoded: Result<Vec<u8>, std::io::Error>) -> (r: Result<Vec<u8>, Error>)
    ensures
        match decoded {
            Ok(data) => r == Ok::<Vec<u8>, Error>(data),
            Err(cause) => r == Err::<Vec<u8>, Error>(Error::DecodingFailed(cause)),
        },
{
    match decoded {
        Ok(data) => Ok(data),
        Err(cause) => Err(Error::DecodingFailed(cause)),
    }
}

/// Saves `data` into a blob in memory: the header, then the compressed payload.
///
/// Succeeds exactly where the compressor accepts `data`, and fails with
/// `EncodingFailed` where it does not.  A blob that comes back is longer than
/// its header and loads as `data` again.
pub fn save_out(data: &[u8]) -> (r: Result<Vec<u8>, Error>)
    ensures
        match r {
            Ok(blob) => saved(data@) == Some(blob@) && loaded(blob@) == Some(data@) && blob@.len()
                > 9,
            Err(error) => error is EncodingFailed && saved(data@) is None,
        },
{
    let mut buf: Vec<u8> = Vec::new();
    push_header(&mut buf);
    let encoded = encode(&mut buf, data);
    proof {
        if deflated(data@) is Some {
            let stream = deflated(data@)->Some_0;
            lemma_written_header_is_valid(stream);
            assert((header_bytes() + stream).skip(9) =~= stream);
        }
    }
    finish_save(buf, encoded)
}

/// Loads the payload out of a blob in memory: the header is checked, then the
/// rest is decompressed.
pub fn load_bytes(bytes: &[u8]) -> (r: Result<Vec<u8>, Error>)
    ensures
        match r {
            Ok(data) => loaded(bytes@) == Some(data@),
            Err(Error::InvalidHeader(text)) => header_fault(bytes@) == Some(text@),
            Err(Error::DecodingFailed(_)) => header_fault(bytes@) is None && inflated(
                bytes@.skip(9),
            ) is None,
            Err(_) => false,
        },
{
    let mut reader: &[u8] = bytes;
    match validate_header(&mut reader) {
        Ok(()) => finish_load(decode(reader)),
        Err(error) => Err(error),
    }
}

/// How far the writing of a blob to a sink has come.
#[derive(Debug, Clone, Copy, PartialEq, Eq, Structural)]
pub enum SaveStage {
    /// Nothing has been written.
    Start,
    /// The header has been written.
    HeaderWritten,
    /// The compressed payload has been written.
    PayloadEncoded,
    /// The sink has been flushed: the save is done.
    Flushed,
}

/// The stage that follows `stage` when its step went through.
pub open spec fn stage_after(stage: SaveStage) -> SaveStage {
    match stage {
        SaveStage::Start => SaveStage::HeaderWritten,
        SaveStage::HeaderWritten => SaveStage::PayloadEncoded,
        SaveStage::PayloadEncoded => SaveStage::Flushed,
        SaveStage::Flushed => SaveStage::Flushed,
    }
}

/// The part of `blob` that the step at `stage` hands to the sink: the header
/// at the start, the payload once the header is written, and nothing where
/// the step is to flush.
pub open spec fn part_at(stage: SaveStage, blob: Seq<u8>) -> Option<Seq<u8>> {
    let split = if blob.len() < 9 {
        blob.len() as int
    } else {
        9
    };
    match stage {
        SaveStage::Start => Some(blob.take(split)),
        SaveStage::HeaderWritten => Some(blob.skip(split)),
        _ => None,
    }
}

/// Whether `error` is what a save reports when the step at `stage` fails with `cause`.
pub open spec fn is_failure_at(error: Error, stage: SaveStage, cause: std::io::Error) -> bool {
    match stage {
        SaveStage::Start => error == Error::WriteHeaderFailed(cause),
        SaveStage::HeaderWritten => error == Error::EncodingFailed(cause),
        _ => error matches Error::Io { source, context } && source == cause && context@
            == "failed to save data"@,
    }
}

/// The bytes to write at `stage`, or nothing where the sink is to be flushed.
pub fn save_part<'a>(stage: SaveStage, blob: &'a [u8]) -> (part: Option<&'a [u8]>)
    ensures
        match part {
            Some(bytes) => part_at(stage, blob@) == Some(bytes@),
            None => part_at(stage, blob@) is None,
        },
{
    let len = blob.len();
    let split = if len < HEADER_LEN {
        len
    } else {
        HEADER_LEN
    };
    match stage {
        SaveStage::Start => Some(vstd::slice::slice_subrange(blob, 0, split)),
        SaveStage::HeaderWritten => Some(vstd::slice::slice_subrange(blob, split, len)),
        _ => None,
    }
}

/// Takes a save one step on: to the next stage where the sink accepted the
/// step, and to the error of that stage where it did not.  A save that fails
/// is given up; nothing is taken back from the sink.
pub fn save_step(stage: SaveStage, outcome: Result<(), std::io::Error>) -> (r: Result<
    SaveStage,
    Error,
>)
    ensures
        match outcome {
            Ok(()) => r == Ok::<SaveStage, Error>(stage_after(stage)),
            Err(cause) => r matches Err(error) && is_failure_at(error, stage, cause),
        },
{
    match outcome {
        Ok(()) => Ok(
            match stage {
                SaveStage::Start => SaveStage::HeaderWritten,
                SaveStage::HeaderWritten => SaveStage::PayloadEncoded,
                SaveStage::PayloadEncoded => SaveStage::Flushed,
                SaveStage::Flushed => SaveStage::Flushed,
            },
        ),
        Err(cause) => Err(
            match stage {
                SaveStage::Start => Error::WriteHeaderFailed(cause),
                SaveStage::HeaderWritten => Error::EncodingFailed(cause),
                _ => Error::io(cause, "failed to save data"),
            },
        ),
    }
}

/// The name to show for a file: its own, or `??` where it has none that is text.
pub fn filename<'a>(name: Option<&'a str>) -> (shown: &'a str)
    ensures
        shown@ == match name {
            Some(text) => text@,
            None => "??"@,
        },
{
    match name {
        Some(text) => text,
        None => "??",
    }
}

} // verus!
