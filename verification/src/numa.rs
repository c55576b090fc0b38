//! The NUMA node of a device, as the operating system publishes it.
//!
//! The node is read from a small text file that is named after the device's
//! PCI bus id. Reading the file is the caller's business; naming it and
//! reading the number in it are done here.
//!
//! The file holds one integer in decimal: an optional sign and digits,
//! with blanks such as the line end around them. The system writes -1 for
//! a device that is next to no node in particular.

use vstd::prelude::*;
use vstd::string::*;
use crate::error::{failure, outcome, Error, ErrorKind, ErrorView, Result};
use crate::text::{lowered, push_lowered};

verus! {

/// The path of the file that holds the node of the device with the given
/// bus id: the bus id, lowered, between a fixed directory and a fixed name.
pub open spec fn node_path(bus_id: Seq<char>) -> Seq<char> {
    "/sys/bus/pci/devices/"@ + lowered(bus_id) + "/numa_node"@
}

/// Names the file that holds the node of the device with the given bus id.
pub fn numa_path(bus_id: &str) -> (path: String)
    ensures
        path@ == node_path(bus_id@),
{
    let mut path = String::from_str("/sys/bus/pci/devices/");
    push_lowered(&mut path, bus_id);
    path.append("/numa_node");
    path
}

/// Space, tab, line feed and carriage return.
pub open spec fn is_blank(c: char) -> bool {
    c == ' ' || c == '\t' || c == '\n' || c == '\r'
}

/// The digits `0` to `9`.
pub open spec fn is_digit(c: char) -> bool {
    '0' <= c <= '9'
}

/// The first position at or after `from` that holds no blank.
pub open spec fn skip_blanks(text: Seq<char>, from: int) -> int
    decreases text.len() - from,
{
    if 0 <= from < text.len() && is_blank(text[from]) {
        skip_blanks(text, from + 1)
    } else {
        from
    }
}

/// The last position at or before `to` that no blank precedes.
pub open spec fn drop_blanks(text: Seq<char>, to: int) -> int
    decreases to,
{
    if 0 < to <= text.len() && is_blank(text[to - 1]) {
        drop_blanks(text, to - 1)
    } else {
        to
    }
}

/// The text without the blanks at its two ends.
pub open spec fn trimmed(text: Seq<char>) -> Seq<char> {
    let start = skip_blanks(text, 0);
    if start >= text.len() {
        Seq::<char>::empty()
    } else {
        text.subrange(start, drop_blanks(text, text.len() as int))
    }
}

/// Whether the text consists of digits.
pub open spec fn all_digits(text: Seq<char>) -> bool {
    forall|i: int| 0 <= i < text.len() ==> is_digit(#[trigger] text[i])
}

/// The number that a text of digits denotes in decimal.
pub open spec fn digits_value(text: Seq<char>) -> nat
    decreases text.len(),
{
    if text.len() == 0 {
        0
    } else {
        (digits_value(text.drop_last()) * 10 + (text.last() as int - 48)) as nat
    }
}

/// The integer that the text denotes, where it is an optional sign followed
/// by one digit or more and by nothing else.
pub open spec fn number(text: Seq<char>) -> Option<int> {
    if text.len() == 0 {
        None
    } else {
        let digits = if text[0] == '-' || text[0] == '+' {
            text.drop_first()
        } else {
            text
        };
        if digits.len() == 0 || !all_digits(digits) {
            None
        } else if text[0] == '-' {
            Some(-(digits_value(digits) as int))
        } else {
            Some(digits_value(digits) as int)
        }
    }
}

/// The message of the failure to read a node.
pub open spec fn not_a_node() -> Seq<char> {
    "the NUMA node file does not hold a node number"@
}

/// The node that the content of the file gives. A negative number, which
/// stands for "no node", gives 0. A content that is not a number, or a
/// number beyond the range of the result, is a local failure.
pub open spec fn node_of(content: Seq<char>) -> std::result::Result<u64, ErrorView> {
    match number(trimmed(content)) {
        Some(value) => if value < 0 {
            Ok(0)
        } else if value <= u64::MAX {
            Ok(value as u64)
        } else {
            Err(failure(ErrorKind::LocalError, not_a_node()))
        },
        None => Err(failure(ErrorKind::LocalError, not_a_node())),
    }
}

/// The node of a device, given the content of its file, or nothing where
/// the file could not be read: the node in the file, and 0 where there is
/// no file or no node in it.
pub open spec fn resolved(content: Option<Seq<char>>) -> u64 {
    match content {
        Some(text) => match node_of(text) {
            Ok(node) => node,
            Err(_) => 0,
        },
        None => 0,
    }
}

proof fn lemma_skip_blanks(text: Seq<char>, from: int)
    requires
        0 <= from <= text.len(),
    ensures
        from <= skip_blanks(text, from) <= text.len(),
        skip_blanks(text, from) < text.len() ==> !is_blank(text[skip_blanks(text, from)]),
        forall|i: int| from <= i < skip_blanks(text, from) ==> is_blank(text[i]),
    decreases text.len() - from,
{
    if from < text.len() && is_blank(text[from]) {
        lemma_skip_blanks(text, from + 1);
    }
}

proof fn lemma_drop_blanks(text: Seq<char>, to: int)
    requires
        0 <= to <= text.len(),
    ensures
        0 <= drop_blanks(text, to) <= to,
        drop_blanks(text, to) > 0 ==> !is_blank(text[drop_blanks(text, to) - 1]),
        forall|i: int| drop_blanks(text, to) <= i < to ==> is_blank(text[i]),
    decreases to,
{
    if 0 < to && is_blank(text[to - 1]) {
        lemma_drop_blanks(text, to - 1);
    }
}

/// A character outside ASCII is no part of a number: a content that holds
/// one denotes none.
proof fn lemma_ascii_only(content: Seq<char>, at: int)
    requires
        0 <= at < content.len(),
        !('\0' <= content[at] <= '\u{7f}'),
    ensures
        number(trimmed(content)) is None,
{
    let start = skip_blanks(content, 0);
    let end = drop_blanks(content, content.len() as int);
    lemma_skip_blanks(content, 0);
    lemma_drop_blanks(content, content.len() as int);
    let text = trimmed(content);
    assert(text[at - start] == content[at]);
    if text[0] == '-' || text[0] == '+' {
        assert(text.drop_first()[at - start - 1] == content[at]);
    }
}

/// Whether a byte is one of the blanks.
fn blank(byte: u8) -> (yes: bool)
    ensures
        yes == is_blank(byte as char),
{
    byte == 32 || byte == 9 || byte == 10 || byte == 13
}

/// The failure to read a node.
fn refused() -> (error: Error)
    ensures
        error@ == failure(ErrorKind::LocalError, not_a_node()),
{
    Error::new("the NUMA node file does not hold a node number")
}

/// Reads the node from the content of the file.
pub fn parse_node(content: &str) -> (result: Result<u64>)
    ensures
        outcome(result) == node_of(content@),
{
    let ghost text = content@;
    if !content.is_ascii() {
        proof {
            let at = choose|i: int|
                0 <= i < text.len() && !('\0' <= #[trigger] text[i] <= '\u{7f}');
            lemma_ascii_only(text, at);
        }
        return Err(refused());
    }
    let bytes = content.as_bytes();
    proof {
        is_ascii_spec_bytes(content);
        lemma_skip_blanks(text, 0);
        lemma_drop_blanks(text, text.len() as int);
    }
    let length: usize = bytes.len();
    let mut start: usize = 0;
    while start < length && blank(bytes[start])
        invariant
            start <= length,
            length == text.len(),
            bytes@.len() == length,
            forall|i: int| 0 <= i < length ==> bytes@[i] == text[i] as u8,
            forall|i: int| 0 <= i < length ==> '\0' <= #[trigger] text[i] <= '\u{7f}',
            skip_blanks(text, 0) == skip_blanks(text, start as int),
        decreases length - start,
    {
        start += 1;
    }
    if start == length {
        return Err(refused());
    }
    let mut end: usize = length;
    while end > start + 1 && blank(bytes[end - 1])
        invariant
            start < end <= length,
            length == text.len(),
            bytes@.len() == length,
            forall|i: int| 0 <= i < length ==> bytes@[i] == text[i] as u8,
            forall|i: int| 0 <= i < length ==> '\0' <= #[trigger] text[i] <= '\u{7f}',
            drop_blanks(text, length as int) == drop_blanks(text, end as int),
        decreases end,
    {
        end -= 1;
    }
    let ghost word = text.subrange(start as int, end as int);
    let first: u8 = bytes[start];
    let negative: bool = first == 45;
    let from: usize = if first == 45 || first == 43 {
        start + 1
    } else {
        start
    };
    let ghost digits = text.subrange(from as int, end as int);
    assert(digits =~= if word[0] == '-' || word[0] == '+' {
        word.drop_first()
    } else {
        word
    });
    if from == end {
        return Err(refused());
    }
    let mut value: u64 = 0;
    let mut fits: bool = true;
    let mut i: usize = from;
    while i < end
        invariant
            from <= i <= end <= length,
            length == text.len(),
            bytes@.len() == length,
            forall|i: int| 0 <= i < length ==> bytes@[i] == text[i] as u8,
            forall|i: int| 0 <= i < length ==> '\0' <= #[trigger] text[i] <= '\u{7f}',
            digits == text.subrange(from as int, end as int),
            text == content@,
            !all_digits(digits) ==> number(trimmed(text)) is None,
            all_digits(digits.take(i - from)),
            fits ==> value == digits_value(digits.take(i - from)),
            !fits ==> digits_value(digits.take(i - from)) > u64::MAX,
        decreases end - i,
    {
        let byte: u8 = bytes[i];
        if byte < 48 || byte > 57 {
            assert(!is_digit(digits[i - from]));
            return Err(refused());
        }
        let ghost shorter = digits.take(i - from);
        let ghost longer = digits.take(i - from + 1);
        assert(longer.drop_last() =~= shorter);
        let low: u64 = (byte - 48) as u64;
        if fits {
            if value > (u64::MAX - low) / 10 {
                fits = false;
            } else {
                value = value * 10 + low;
            }
        }
        i += 1;
    }
    assert(digits.take(i - from) =~= digits);
    if negative {
        Ok(0)
    } else if fits {
        Ok(value)
    } else {
        Err(refused())
    }
}

/// Resolves the node of a device from the content of its file, or from
/// nothing where the file could not be read.
pub fn numa_node(content: Option<&str>) -> (node: u64)
    ensures
        node == resolved(
            match content {
                Some(text) => Some(text@),
                None => None,
            },
        ),
{
    match content {
        Some(text) => match parse_node(text) {
            Ok(node) => node,
            Err(_) => 0,
        },
        None => 0,
    }
}

/// Without a file the node is 0.
pub proof fn lemma_absent_is_zero()
    ensures
        resolved(None) == 0,
{
}

/// A content that denotes no number gives node 0.
pub proof fn lemma_unparsable_is_zero(content: Seq<char>)
    requires
        number(trimmed(content)) is None,
    ensures
        resolved(Some(content)) == 0,
{
}

/// A content that denotes a negative number gives node 0.
pub proof fn lemma_negative_is_zero(content: Seq<char>)
    requires
        number(trimmed(content)) is Some,
        number(trimmed(content))->Some_0 < 0,
    ensures
        resolved(Some(content)) == 0,
{
}

/// A content that denotes a number from 0 to the largest `u64` gives that
/// number.
pub proof fn lemma_node_is_kept(content: Seq<char>)
    requires
        number(trimmed(content)) is Some,
        0 <= number(trimmed(content))->Some_0 <= u64::MAX,
    ensures
        resolved(Some(content)) == number(trimmed(content))->Some_0,
{
}

} // verus!
