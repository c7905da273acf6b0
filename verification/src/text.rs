//! Small pieces of text in the form that `{:?}` gives them.

use crate::packet;
use vstd::prelude::*;
use vstd::string::StringExecFns;

verus! {

/// The decimal digit of a number below ten.
pub open spec fn digit(n: u64) -> Seq<char> {
    match n {
        0 => "0"@,
        1 => "1"@,
        2 => "2"@,
        3 => "3"@,
        4 => "4"@,
        5 => "5"@,
        6 => "6"@,
        7 => "7"@,
        8 => "8"@,
        _ => "9"@,
    }
}

/// A number in decimal, without leading zeros.
pub open spec fn decimal(n: nat) -> Seq<char>
    decreases n,
{
    if n < 10 {
        digit(n as u64)
    } else {
        decimal(n / 10) + digit((n % 10) as u64)
    }
}

/// Writes a number in decimal.
pub fn write_decimal(n: u64) -> (text: String)
    ensures
        text@ == decimal(n as nat),
    decreases n,
{
    let last = match n % 10 {
        0 => "0",
        1 => "1",
        2 => "2",
        3 => "3",
        4 => "4",
        5 => "5",
        6 => "6",
        7 => "7",
        8 => "8",
        _ => "9",
    };
    if n < 10 {
        last.to_owned()
    } else {
        write_decimal(n / 10).concat(last)
    }
}

/// A number in decimal, with a minus sign where it is negative.
pub open spec fn signed_decimal(n: int) -> Seq<char> {
    if n < 0 {
        "-"@ + decimal((-n) as nat)
    } else {
        decimal(n as nat)
    }
}

/// Writes a number in decimal, with a minus sign where it is negative.
pub fn write_signed_decimal(n: i64) -> (text: String)
    ensures
        text@ == signed_decimal(n as int),
{
    if n < 0 {
        let magnitude: u64 = (-(n + 1)) as u64 + 1;
        "-".to_owned().concat(write_decimal(magnitude).as_str())
    } else {
        write_decimal(n as u64)
    }
}

/// The name of a truth value.
pub open spec fn bool_name(value: bool) -> Seq<char> {
    if value {
        "true"@
    } else {
        "false"@
    }
}

/// A name in front of something in round brackets.
pub open spec fn enclosed(name: Seq<char>, inner: Seq<char>) -> Seq<char> {
    name + "("@ + inner + ")"@
}

/// Writes a name in front of something in round brackets, as a variant with one field reads.
pub fn enclose(name: &str, inner: String) -> (text: String)
    ensures
        text@ == enclosed(name@, inner@),
{
    name.to_owned().concat("(").concat(inner.as_str()).concat(")")
}

/// How something reads that may be absent.
pub open spec fn optional(inner: Option<Seq<char>>) -> Seq<char> {
    match inner {
        Some(text) => enclosed("Some"@, text),
        None => "None"@,
    }
}

/// Writes something that may be absent.
pub fn write_optional(inner: Option<String>) -> (text: String)
    ensures
        text@ == optional(packet::optional_text(inner)),
{
    match inner {
        Some(text) => enclose("Some", text),
        None => "None".to_owned(),
    }
}

/// Several texts with commas between them.
pub open spec fn listed(items: Seq<Seq<char>>) -> Seq<char>
    decreases items.len(),
{
    if items.len() == 0 {
        Seq::empty()
    } else if items.len() == 1 {
        items[0]
    } else {
        listed(items.drop_last()) + ", "@ + items.last()
    }
}

/// How a sequence of bytes reads: the numbers in decimal, as a list in square brackets.
pub open spec fn bytes_debug(bytes: Seq<u8>) -> Seq<char> {
    "["@ + listed(bytes.map_values(|byte: u8| decimal(byte as nat))) + "]"@
}

/// Writes a sequence of bytes.
pub fn write_bytes(bytes: &Vec<u8>) -> (text: String)
    ensures
        text@ == bytes_debug(bytes@),
{
    let ghost items = bytes@.map_values(|byte: u8| decimal(byte as nat));
    let mut list = String::new();
    let mut i: usize = 0;
    while i < bytes.len()
        invariant
            i <= bytes.len(),
            items == bytes@.map_values(|byte: u8| decimal(byte as nat)),
            list@ == listed(items.take(i as int)),
        decreases bytes.len() - i,
    {
        let item = write_decimal(bytes[i] as u64);
        assert(items.take(i + 1).drop_last() == items.take(i as int));
        assert(items.take(i + 1).last() == item@);
        if i > 0 {
            list.append(", ");
        }
        list.append(item.as_str());
        i += 1;
    }
    assert(items.take(i as int) == items);
    "[".to_owned().concat(list.as_str()).concat("]")
}

/// How a string reads in quotes, with what needs it escaped.
pub uninterp spec fn quoted(text: Seq<char>) -> Seq<char>;

/// Formats a string with `{:?}` of std. Claims that the text depends on the characters alone.
/// Which of them are escaped, and how, is left unsaid.
#[verifier::external_body]
pub(crate) fn quote(s: &str) -> (text: String)
    ensures
        text@ == quoted(s@),
{
    format!("{:?}", s)
}

} // verus!
