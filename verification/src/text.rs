//! Text in fixed buffers, and the few strings the library composes itself.

use vstd::prelude::*;
use vstd::string::*;
use vstd::utf8::*;
use crate::error::{failure, text_outcome, Error, ErrorKind, ErrorView, Result};

verus! {

/// Calls `String::from_utf8`. The standard library documents that it
/// succeeds exactly on well-formed UTF-8 and that the string then consists
/// of the given bytes; here the outcome is a string whose characters are
/// the decoding of `bytes`, or nothing where `bytes` is ill-formed.
#[verifier::external_body]
fn utf8_text(bytes: Vec<u8>) -> (text: Option<String>)
    ensures
        match text {
            Some(text) => valid_utf8(bytes@) && text@ == decode_utf8(bytes@),
            None => !valid_utf8(bytes@),
        },
{
    String::from_utf8(bytes).ok()
}

/// Calls `String::push`, which the standard library documents as appending
/// the character to the end of the string.
#[verifier::external_body]
fn push_char(text: &mut String, c: char)
    ensures
        final(text)@ == old(text)@.push(c),
{
    text.push(c);
}

/// The part of a buffer that a field of `capacity` bytes covers.
pub open spec fn field(buffer: Seq<u8>, capacity: nat) -> Seq<u8> {
    if buffer.len() <= capacity {
        buffer
    } else {
        buffer.take(capacity as int)
    }
}

/// `end` is where the text in `bytes` ends: at the first zero byte, or at
/// the end of `bytes` if there is none.
pub open spec fn is_text_end(bytes: Seq<u8>, end: int) -> bool {
    &&& 0 <= end <= bytes.len()
    &&& forall|i: int| 0 <= i < end ==> bytes[i] != 0
    &&& end < bytes.len() ==> bytes[end] == 0
}

/// Where the text in `bytes` ends.
pub open spec fn text_end(bytes: Seq<u8>) -> int
    decreases bytes.len(),
{
    if bytes.len() == 0 || bytes[0] == 0 {
        0
    } else {
        1 + text_end(bytes.drop_first())
    }
}

/// The bytes of the text that a field of `capacity` bytes holds at the
/// start of `buffer`: those before the first terminator, and none from
/// beyond the field.
pub open spec fn text_bytes(buffer: Seq<u8>, capacity: nat) -> Seq<u8> {
    field(buffer, capacity).take(text_end(field(buffer, capacity)))
}

/// The message of the failure to decode a buffer.
pub open spec fn ill_formed() -> Seq<char> {
    "text from the driver is not valid UTF-8"@
}

/// What decoding a field gives: its text, or a local failure where the
/// bytes before the terminator are not well-formed UTF-8.
pub open spec fn decoded(buffer: Seq<u8>, capacity: nat) -> std::result::Result<
    Seq<char>,
    ErrorView,
> {
    if valid_utf8(text_bytes(buffer, capacity)) {
        Ok(decode_utf8(text_bytes(buffer, capacity)))
    } else {
        Err(failure(ErrorKind::LocalError, ill_formed()))
    }
}

/// `text_end` gives the one place where the text ends.
pub proof fn lemma_text_end(bytes: Seq<u8>)
    ensures
        is_text_end(bytes, text_end(bytes)),
    decreases bytes.len(),
{
    if bytes.len() == 0 || bytes[0] == 0 {
    } else {
        let rest = bytes.drop_first();
        lemma_text_end(rest);
        assert forall|i: int| 0 <= i < text_end(bytes) implies bytes[i] != 0 by {
            if i > 0 {
                assert(bytes[i] == rest[i - 1]);
            }
        }
    }
}

/// No other place than `text_end` is the end of the text.
pub proof fn lemma_text_end_unique(bytes: Seq<u8>, end: int)
    requires
        is_text_end(bytes, end),
    ensures
        end == text_end(bytes),
{
    lemma_text_end(bytes);
}

/// A buffer of zeros holds the empty text, under any capacity: a call that
/// wrote nothing leaves nothing to read.
pub proof fn lemma_zeroed_is_empty(buffer: Seq<u8>, capacity: nat)
    requires
        forall|i: int| 0 <= i < buffer.len() ==> buffer[i] == 0,
    ensures
        text_bytes(buffer, capacity) =~= Seq::<u8>::empty(),
        decoded(buffer, capacity) == Ok::<Seq<char>, ErrorView>(Seq::<char>::empty()),
{
    lemma_text_end_unique(field(buffer, capacity), 0);
}

/// The text never reaches beyond the field's capacity, nor beyond the
/// buffer, and holds no terminator.
pub proof fn lemma_text_within_capacity(buffer: Seq<u8>, capacity: nat)
    ensures
        text_bytes(buffer, capacity).len() <= capacity,
        text_bytes(buffer, capacity).len() <= buffer.len(),
        text_bytes(buffer, capacity) =~= buffer.take(text_bytes(buffer, capacity).len() as int),
        forall|i: int|
            0 <= i < text_bytes(buffer, capacity).len() ==> text_bytes(buffer, capacity)[i] != 0,
{
    lemma_text_end(field(buffer, capacity));
}

/// A buffer of `capacity` zero bytes, to hand to a driver call that fills
/// it.
pub fn zeroed(capacity: usize) -> (buffer: Vec<u8>)
    ensures
        buffer@.len() == capacity,
        forall|i: int| 0 <= i < capacity ==> buffer@[i] == 0,
{
    vec![0u8; capacity]
}

/// Decodes the text of a field of `capacity` bytes at the start of
/// `buffer`.
pub fn decode(buffer: &[u8], capacity: usize) -> (result: Result<String>)
    ensures
        text_outcome(result) == decoded(buffer@, capacity as nat),
{
    let limit: usize = if buffer.len() <= capacity {
        buffer.len()
    } else {
        capacity
    };
    let ghost covered = field(buffer@, capacity as nat);
    let mut bytes: Vec<u8> = Vec::new();
    let mut i: usize = 0;
    while i < limit && buffer[i] != 0
        invariant
            i <= limit,
            limit == covered.len(),
            limit <= buffer@.len(),
            covered == field(buffer@, capacity as nat),
            bytes@ == covered.take(i as int),
            forall|j: int| 0 <= j < i ==> covered[j] != 0,
        decreases limit - i,
    {
        bytes.push(buffer[i]);
        i += 1;
    }
    proof {
        lemma_text_end_unique(covered, i as int);
    }
    match utf8_text(bytes) {
        Some(text) => Ok(text),
        None => Err(Error::new("text from the driver is not valid UTF-8")),
    }
}

/// The character of a decimal digit.
pub open spec fn digit(value: nat) -> char
    recommends
        value < 10,
{
    (48 + value) as char
}

/// A natural number in decimal, without sign or leading zeros.
pub open spec fn decimal(value: nat) -> Seq<char>
    decreases value,
{
    if value < 10 {
        seq![digit(value)]
    } else {
        decimal(value / 10).push(digit(value % 10))
    }
}

/// Appends `value` in decimal to `text`.
pub fn push_decimal(text: &mut String, value: u64)
    ensures
        final(text)@ == old(text)@ + decimal(value as nat),
    decreases value,
{
    if value >= 10 {
        push_decimal(text, value / 10);
    }
    let last: u8 = (value % 10) as u8;
    push_char(text, (48 + last) as char);
}

/// A character with the letters `A` to `Z` turned into `a` to `z`; any
/// other character, the letters outside ASCII among them, is left as it is.
pub open spec fn lowered_char(c: char) -> char {
    if 'A' <= c <= 'Z' {
        ((c as u8) + 32) as char
    } else {
        c
    }
}

/// A text with each character lowered.
pub open spec fn lowered(text: Seq<char>) -> Seq<char> {
    Seq::new(text.len(), |i: int| lowered_char(text[i]))
}

/// Appends `source`, lowered, to `text`.
pub fn push_lowered(text: &mut String, source: &str)
    ensures
        final(text)@ == old(text)@ + lowered(source@),
{
    let ghost before = text@;
    let length: usize = source.unicode_len();
    let mut i: usize = 0;
    while i < length
        invariant
            i <= length,
            length == source@.len(),
            text@ == before + lowered(source@).take(i as int),
        decreases length - i,
    {
        let c: char = source.get_char(i);
        let low: char = if 'A' <= c && c <= 'Z' {
            ((c as u8) + 32) as char
        } else {
            c
        };
        push_char(text, low);
        i += 1;
    }
}

} // verus!
