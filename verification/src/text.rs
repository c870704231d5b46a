//! Building and searching text, character by character.
//!
//! Everything here is stated over `Seq<char>`, the view of `str` and `String`.
use vstd::prelude::*;

verus! {

/// The sixteen digits, upper case.
pub const DIGITS: [char; 16] = [
    '0', '1', '2', '3', '4', '5', '6', '7', '8', '9', 'A', 'B', 'C', 'D', 'E', 'F',
];

/// `String::push`: the character is appended and nothing else changes.
#[verifier::external_body]
fn push_char(text: &mut String, c: char)
    ensures
        final(text)@ == old(text)@.push(c),
{
    text.push(c);
}

/// What `{:?}` prints for a string: the text between double quotes, with the
/// characters that cannot stand there escaped.
pub uninterp spec fn debug_quoted(text: Seq<char>) -> Seq<char>;

/// The `Debug` form of a `str`, as `format!` writes it.
#[verifier::external_body]
pub(crate) fn quote(text: &str) -> (quoted: String)
    ensures
        quoted@ == debug_quoted(text@),
{
    format!("{:?}", text)
}

/// The characters of `text`, in order.
pub fn chars_of(text: &str) -> (chars: Vec<char>)
    ensures
        chars@ == text@,
{
    let mut chars: Vec<char> = Vec::new();
    let walk = text.chars();
    for c in it: walk
        invariant
            it.seq() == text@,
            chars@ == it.seq().take(it.index()),
    {
        chars.push(c);
    }
    chars
}

/// Appends `chars[..end]` to `out`.
pub fn push_chars(out: &mut String, chars: &[char], end: usize)
    requires
        end <= chars@.len(),
    ensures
        final(out)@ == old(out)@ + chars@.take(end as int),
{
    let mut i: usize = 0;
    while i < end
        invariant
            i <= end <= chars@.len(),
            out@ == old(out)@ + chars@.take(i as int),
        decreases end - i,
    {
        push_char(out, chars[i]);
        i += 1;
    }
}

/// Whether `pattern` stands in `text` at offset `at`.
pub open spec fn occurs_at(text: Seq<char>, pattern: Seq<char>, at: int) -> bool {
    &&& 0 <= at
    &&& at + pattern.len() <= text.len()
    &&& text.subrange(at, at + pattern.len()) == pattern
}

/// Whether `pattern` stands somewhere in `text`.
pub open spec fn contains(text: Seq<char>, pattern: Seq<char>) -> bool {
    exists|at: int| occurs_at(text, pattern, at)
}

/// Whether `text` ends with `suffix`.
pub open spec fn ends_with(text: Seq<char>, suffix: Seq<char>) -> bool {
    occurs_at(text, suffix, text.len() - suffix.len())
}

/// `text` without any run of `suffix` at its end.
pub open spec fn trim_end(text: Seq<char>, suffix: Seq<char>) -> Seq<char>
    decreases text.len(),
{
    if suffix.len() > 0 && ends_with(text, suffix) {
        trim_end(text.take(text.len() - suffix.len()), suffix)
    } else {
        text
    }
}

/// Whether `pattern` stands in `text[..end]` at offset `at`.
pub fn matches_at(text: &[char], end: usize, pattern: &[char], at: usize) -> (found: bool)
    requires
        end <= text@.len(),
    ensures
        found == occurs_at(text@.take(end as int), pattern@, at as int),
{
    let n = pattern.len();
    if at > end || n > end - at {
        return false;
    }
    let ghost window = text@.take(end as int).subrange(at as int, at + n);
    let mut k: usize = 0;
    while k < n
        invariant
            k <= n,
            n == pattern@.len(),
            at + n <= end <= text@.len(),
            window == text@.take(end as int).subrange(at as int, at + n),
            forall|j: int| 0 <= j < k ==> text@[at + j] == pattern@[j],
        decreases n - k,
    {
        if text[at + k] != pattern[k] {
            return false;
        }
        k += 1;
    }
    assert(window =~= pattern@);
    true
}

/// Whether `text` and `other` are the same text.
pub fn same_chars(text: &[char], other: &[char]) -> (same: bool)
    ensures
        same == (text@ == other@),
{
    let len = text.len();
    if other.len() != len {
        return false;
    }
    assert(text@.take(len as int) =~= text@);
    assert(text@.subrange(0, len as int) =~= text@);
    matches_at(text, len, other, 0)
}

/// Whether `pattern` stands somewhere in `text`.
pub fn contains_chars(text: &[char], pattern: &[char]) -> (found: bool)
    ensures
        found == contains(text@, pattern@),
{
    let len = text.len();
    let mut at: usize = 0;
    while at < len
        invariant
            at <= len,
            len == text@.len(),
            text@.take(len as int) == text@,
            forall|j: int| 0 <= j < at ==> !occurs_at(text@, pattern@, j),
        decreases len - at,
    {
        if matches_at(text, len, pattern, at) {
            return true;
        }
        at += 1;
    }
    matches_at(text, len, pattern, len)
}

/// The length of `text` once every run of `suffix` at its end is cut off.
pub fn trimmed_len(text: &[char], suffix: &[char]) -> (end: usize)
    ensures
        end <= text@.len(),
        text@.take(end as int) == trim_end(text@, suffix@),
{
    let n = suffix.len();
    let mut end = text.len();
    assert(text@.take(end as int) =~= text@);
    if n == 0 {
        return end;
    }
    while end >= n && matches_at(text, end, suffix, end - n)
        invariant
            n == suffix@.len(),
            n > 0,
            end <= text@.len(),
            trim_end(text@.take(end as int), suffix@) == trim_end(text@, suffix@),
        decreases end,
    {
        assert(text@.take(end as int).take(end - n) =~= text@.take(end - n));
        end = end - n;
    }
    end
}

/// The decimal digit `d`.
pub open spec fn digit(d: int) -> char {
    DIGITS[d]
}

/// `n` in decimal, without leading zeros.
pub open spec fn decimal(n: nat) -> Seq<char>
    decreases n,
{
    if n < 10 {
        seq![digit(n as int)]
    } else {
        decimal(n / 10).push(digit((n % 10) as int))
    }
}

/// Appends `n` in decimal.
pub fn push_decimal(out: &mut String, n: u64)
    ensures
        final(out)@ == old(out)@ + decimal(n as nat),
    decreases n,
{
    if n >= 10 {
        push_decimal(out, n / 10);
    }
    push_char(out, DIGITS[(n % 10) as usize]);
}

/// The hexadecimal digit of `value` that stands `shift` bits up.
pub open spec fn hex_digit(value: u32, shift: u32) -> char {
    DIGITS[((value >> shift) & 0xF) as int]
}

/// `value` as eight upper-case hexadecimal digits, zeros included.
pub open spec fn hex8(value: u32) -> Seq<char> {
    seq![
        hex_digit(value, 28),
        hex_digit(value, 24),
        hex_digit(value, 20),
        hex_digit(value, 16),
        hex_digit(value, 12),
        hex_digit(value, 8),
        hex_digit(value, 4),
        hex_digit(value, 0),
    ]
}

fn push_hex_digit(out: &mut String, value: u32, shift: u32)
    requires
        shift < 32,
    ensures
        final(out)@ == old(out)@.push(hex_digit(value, shift)),
{
    let nibble = (value >> shift) & 0xF;
    assert(nibble < 16) by (bit_vector)
        requires
            nibble == (value >> shift) & 0xF,
    ;
    push_char(out, DIGITS[nibble as usize]);
}

/// Appends `value` as eight upper-case hexadecimal digits.
pub fn push_hex8(out: &mut String, value: u32)
    ensures
        final(out)@ == old(out)@ + hex8(value),
{
    push_hex_digit(out, value, 28);
    push_hex_digit(out, value, 24);
    push_hex_digit(out, value, 20);
    push_hex_digit(out, value, 16);
    push_hex_digit(out, value, 12);
    push_hex_digit(out, value, 8);
    push_hex_digit(out, value, 4);
    push_hex_digit(out, value, 0);
}

/// The items of a byte list, in decimal, with `, ` between them.
pub open spec fn byte_items(bytes: Seq<u8>) -> Seq<char>
    decreases bytes.len(),
{
    if bytes.len() == 0 {
        Seq::<char>::empty()
    } else if bytes.len() == 1 {
        decimal(bytes[0] as nat)
    } else {
        byte_items(bytes.drop_last()) + seq![',', ' '] + decimal(bytes.last() as nat)
    }
}

/// A byte list between square brackets, as `{:?}` prints a slice of bytes.
pub open spec fn byte_list(bytes: Seq<u8>) -> Seq<char> {
    seq!['['] + byte_items(bytes) + seq![']']
}

/// Appends `bytes` as a list between square brackets.
pub fn push_byte_list(out: &mut String, bytes: &[u8])
    ensures
        final(out)@ == old(out)@ + byte_list(bytes@),
{
    push_char(out, '[');
    let len = bytes.len();
    let mut i: usize = 0;
    while i < len
        invariant
            i <= len,
            len == bytes@.len(),
            out@ == old(out)@ + seq!['['] + byte_items(bytes@.take(i as int)),
        decreases len - i,
    {
        if i > 0 {
            push_char(out, ',');
            push_char(out, ' ');
        }
        push_decimal(out, bytes[i] as u64);
        assert(bytes@.take(i + 1).drop_last() =~= bytes@.take(i as int));
        i += 1;
    }
    assert(bytes@.take(len as int) =~= bytes@);
    push_char(out, ']');
}

} // verus!
