//! The nine bytes that open every saved blob: an eight-byte magic token and a
//! one-byte format version.
//!
//! A blob is accepted only if both fields match exactly.  A reader is modelled
//! as a byte slice that shrinks from the front as bytes are read from it.
use vstd::prelude::*;
use vstd::string::StringExecFns;
use crate::error::Error;
use crate::text::byte_list;
use crate::text::push_byte_list;

verus! {

/// Length of the magic token.
pub const SAVE_FILE_MAGIC_LEN: usize = 8;

/// The magic token: `TETANES` followed by the substitute character.
pub const SAVE_FILE_MAGIC: [u8; 8] = [0x54, 0x45, 0x54, 0x41, 0x4E, 0x45, 0x53, 0x1A];

/// The format version, the ASCII digit `1`.  It is kept apart from the
/// crate's own version: a change of API need not change the format.
pub const SAVE_VERSION: u8 = 0x31;

/// Length of the whole header.
pub const HEADER_LEN: usize = 9;

/// The header, byte for byte.
pub open spec fn header_bytes() -> Seq<u8> {
    SAVE_FILE_MAGIC@.push(SAVE_VERSION)
}

/// What is reported when the source ends inside a field.
pub open spec fn truncated_text() -> Seq<char> {
    "failed to fill whole buffer"@
}

/// What is reported when the magic token is `found` instead.
pub open spec fn magic_mismatch_text(found: Seq<u8>) -> Seq<char> {
    "invalid magic (expected "@ + byte_list(SAVE_FILE_MAGIC@) + ", found: "@ + byte_list(found)
}

/// What is reported when the version byte is `found` instead.
pub open spec fn version_mismatch_text(found: u8) -> Seq<char> {
    "invalid version (expected \"1\", found: "@ + byte_list(seq![found])
}

/// The complaint about the header that `bytes` opens with, if there is one.
/// The fields are looked at in order and the first fault is the one reported.
pub open spec fn header_fault(bytes: Seq<u8>) -> Option<Seq<char>> {
    if bytes.len() < 8 {
        Some(truncated_text())
    } else if bytes.take(8) != SAVE_FILE_MAGIC@ {
        Some(magic_mismatch_text(bytes.take(8)))
    } else if bytes.len() < 9 {
        Some(truncated_text())
    } else if bytes[8] != SAVE_VERSION {
        Some(version_mismatch_text(bytes[8]))
    } else {
        None
    }
}

/// How many bytes are taken from a source that holds `bytes` while its header
/// is looked at: a field is taken whole, and a source too short for a field
/// is drained.
pub open spec fn header_bytes_read(bytes: Seq<u8>) -> int {
    if bytes.len() < 8 {
        bytes.len() as int
    } else if bytes.take(8) != SAVE_FILE_MAGIC@ {
        8
    } else if bytes.len() < 9 {
        8
    } else {
        9
    }
}

/// A header is accepted exactly when the source opens with the nine header bytes.
pub proof fn lemma_header_fault_none(bytes: Seq<u8>)
    ensures
        header_fault(bytes) is None <==> bytes.len() >= 9 && bytes.take(9) == header_bytes(),
{
    if bytes.len() >= 9 {
        if bytes.take(9) == header_bytes() {
            assert(bytes.take(8) =~= bytes.take(9).take(8));
            assert(header_bytes().take(8) =~= SAVE_FILE_MAGIC@);
            assert(bytes[8] == bytes.take(9)[8]);
        }
        if header_fault(bytes) is None {
            assert(bytes.take(9) =~= bytes.take(8).push(bytes[8]));
        }
    }
}

/// A header that has just been written is accepted, whatever follows it.
pub proof fn lemma_written_header_is_valid(rest: Seq<u8>)
    ensures
        header_fault(header_bytes() + rest) is None,
        header_bytes_read(header_bytes() + rest) == 9,
{
    let bytes = header_bytes() + rest;
    assert(bytes.take(9) =~= header_bytes());
    lemma_header_fault_none(bytes);
}

/// Changing any one byte of an accepted header, in the magic token or in the
/// version, makes it a header that is refused.
pub proof fn lemma_mutated_header_is_invalid(bytes: Seq<u8>, at: int, byte: u8)
    requires
        header_fault(bytes) is None,
        0 <= at < 9,
        byte != bytes[at],
    ensures
        header_fault(bytes.update(at, byte)) is Some,
{
    let mutated = bytes.update(at, byte);
    lemma_header_fault_none(bytes);
    lemma_header_fault_none(mutated);
}

/// Appends the magic token and then the version byte to `f`.
///
/// A sink in memory takes every byte, so the write cannot fail.
pub fn write_header(f: &mut Vec<u8>) -> (r: Result<(), std::io::Error>)
    ensures
        r is Ok,
        final(f)@ == old(f)@ + header_bytes(),
{
    push_header(f);
    Ok(())
}

/// Appends the magic token and then the version byte to `f`.
pub fn push_header(f: &mut Vec<u8>)
    ensures
        final(f)@ == old(f)@ + header_bytes(),
{
    let mut i: usize = 0;
    while i < SAVE_FILE_MAGIC_LEN
        invariant
            i <= 8,
            f@ == old(f)@ + SAVE_FILE_MAGIC@.take(i as int),
        decreases 8 - i,
    {
        f.push(SAVE_FILE_MAGIC[i]);
        assert(SAVE_FILE_MAGIC@.take(i + 1) =~= SAVE_FILE_MAGIC@.take(i as int).push(
            SAVE_FILE_MAGIC@[i as int],
        ));
        i += 1;
    }
    f.push(SAVE_VERSION);
}

/// The complaint about a source that ends inside a field.
fn truncated() -> (error: Error)
    ensures
        error matches Error::InvalidHeader(text) && text@ == truncated_text(),
{
    Error::InvalidHeader(String::from_str("failed to fill whole buffer"))
}

/// Reads the header from the front of `f` and checks it.
///
/// Succeeds exactly when `f` opens with the magic token and the version byte,
/// and then leaves `f` at the first byte after them.  Otherwise the error says
/// which field was at fault, with the expected and the found bytes.
pub fn validate_header(f: &mut &[u8]) -> (r: Result<(), Error>)
    ensures
        match r {
            Ok(()) => header_fault(old(f)@) is None,
            Err(Error::InvalidHeader(text)) => header_fault(old(f)@) == Some(text@),
            Err(_) => false,
        },
        final(f)@ == old(f)@.skip(header_bytes_read(old(f)@)),
{
    let bytes: &[u8] = *f;
    let len = bytes.len();
    if len < SAVE_FILE_MAGIC_LEN {
        *f = vstd::slice::slice_subrange(bytes, len, len);
        return Err(truncated());
    }
    let magic = vstd::slice::slice_subrange(bytes, 0, SAVE_FILE_MAGIC_LEN);
    let mut i: usize = 0;
    let mut same = true;
    while i < SAVE_FILE_MAGIC_LEN
        invariant
            i <= 8,
            magic@.len() == 8,
            same <==> forall|k: int| 0 <= k < i ==> magic@[k] == SAVE_FILE_MAGIC@[k],
        decreases 8 - i,
    {
        if magic[i] != SAVE_FILE_MAGIC[i] {
            same = false;
        }
        i += 1;
    }
    if !same {
        *f = vstd::slice::slice_subrange(bytes, SAVE_FILE_MAGIC_LEN, len);
        let mut text = String::from_str("invalid magic (expected ");
        push_byte_list(&mut text, &SAVE_FILE_MAGIC);
        text.append(", found: ");
        push_byte_list(&mut text, magic);
        return Err(Error::InvalidHeader(text));
    }
    assert(magic@ =~= SAVE_FILE_MAGIC@);
    if len < HEADER_LEN {
        *f = vstd::slice::slice_subrange(bytes, len, len);
        return Err(truncated());
    }
    *f = vstd::slice::slice_subrange(bytes, HEADER_LEN, len);
    let version = vstd::slice::slice_subrange(bytes, SAVE_FILE_MAGIC_LEN, HEADER_LEN);
    if version[0] != SAVE_VERSION {
        let mut text = String::from_str("invalid version (expected \"1\", found: ");
        push_byte_list(&mut text, version);
        return Err(Error::InvalidHeader(text));
    }
    Ok(())
}

} // verus!
