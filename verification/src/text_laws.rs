//! How numbers and small pieces of text read.

use crate::text::{
    self, enclose, write_bytes, write_decimal, write_optional, write_signed_decimal,
};
use vstd::prelude::*;

verus! {

/// The number that a row of decimal digits stands for.
pub open spec fn value_of(digits: Seq<char>) -> int
    decreases digits.len(),
{
    if digits.len() == 0 {
        0
    } else {
        value_of(digits.drop_last()) * 10 + (digits.last() as int - '0' as int)
    }
}

/// `digits` stands for `n`: there are decimal digits and nothing else, none too many in front.
pub open spec fn is_numeral(digits: Seq<char>, n: nat) -> bool {
    &&& digits.len() > 0
    &&& forall|i: int| 0 <= i < digits.len() ==> '0' <= #[trigger] digits[i] <= '9'
    &&& digits.len() > 1 ==> digits[0] != '0'
    &&& value_of(digits) == n
}

/// Some texts in a row, with a comma and a space between two of them.
pub open spec fn joined(parts: Seq<Seq<char>>) -> Seq<char>
    decreases parts.len(),
{
    if parts.len() == 0 {
        Seq::empty()
    } else if parts.len() == 1 {
        parts[0]
    } else {
        parts[0] + ", "@ + joined(parts.drop_first())
    }
}

proof fn lemma_digit(n: u64)
    requires
        n < 10,
    ensures
        text::digit(n).len() == 1,
        text::digit(n)[0] as int == '0' as int + n,
{
    reveal_strlit("0");
    reveal_strlit("1");
    reveal_strlit("2");
    reveal_strlit("3");
    reveal_strlit("4");
    reveal_strlit("5");
    reveal_strlit("6");
    reveal_strlit("7");
    reveal_strlit("8");
    reveal_strlit("9");
}

/// A number in decimal stands for that number.
pub proof fn law_decimal_is_numeral(n: nat)
    ensures
        is_numeral(text::decimal(n), n),
        n > 0 ==> text::decimal(n)[0] != '0',
    decreases n,
{
    reveal_with_fuel(value_of, 2);
    let last = text::digit((n % 10) as u64);
    lemma_digit((n % 10) as u64);
    if n >= 10 {
        law_decimal_is_numeral(n / 10);
        let front = text::decimal(n / 10);
        assert(text::decimal(n).drop_last() =~= front);
        assert(text::decimal(n).last() == last[0]);
    }
}

/// A numeral stands for one number only, and a number has one numeral only.
pub proof fn law_numerals_are_unique(first: Seq<char>, second: Seq<char>, n: nat, m: nat)
    requires
        is_numeral(first, n),
        is_numeral(second, m),
    ensures
        first == second <==> n == m,
{
    if n == m {
        lemma_numeral_is_decimal(first, n);
        lemma_numeral_is_decimal(second, n);
    }
}

proof fn lemma_numeral_is_decimal(digits: Seq<char>, n: nat)
    requires
        is_numeral(digits, n),
    ensures
        digits == text::decimal(n),
    decreases digits.len(),
{
    reveal_with_fuel(value_of, 2);
    let d = digits.last() as int - '0' as int;
    let front = digits.drop_last();
    assert(digits.last() == digits[digits.len() - 1]);
    lemma_digit(d as u64);
    if digits.len() == 1 {
        assert(front.len() == 0);
        assert(digits =~= text::digit(d as u64));
    } else {
        lemma_value_is_positive(front);
        assert forall|i: int| 0 <= i < front.len() implies '0' <= #[trigger] front[i] <= '9' by {
            assert(front[i] == digits[i]);
        }
        assert(front[0] == digits[0]);
        let m = value_of(front) as nat;
        assert(n == m * 10 + d);
        lemma_numeral_is_decimal(front, m);
        assert(digits =~= front + text::digit(d as u64));
    }
}

proof fn lemma_value_is_positive(digits: Seq<char>)
    requires
        digits.len() > 0,
        digits[0] != '0',
        forall|i: int| 0 <= i < digits.len() ==> '0' <= #[trigger] digits[i] <= '9',
    ensures
        value_of(digits) > 0,
    decreases digits.len(),
{
    reveal_with_fuel(value_of, 2);
    let front = digits.drop_last();
    assert(digits.last() == digits[digits.len() - 1]);
    if digits.len() > 1 {
        assert(front[0] == digits[0]);
        assert forall|i: int| 0 <= i < front.len() implies '0' <= #[trigger] front[i] <= '9' by {
            assert(front[i] == digits[i]);
        }
        lemma_value_is_positive(front);
    } else {
        assert(front.len() == 0);
    }
}

/// What is written for a number stands for that number.
pub proof fn law_write_decimal(n: u64, written: String)
    requires
        call_ensures(write_decimal, (n,), written),
    ensures
        is_numeral(written@, n as nat),
{
    law_decimal_is_numeral(n as nat);
}

/// What is written for a negative number is a minus sign and what stands for the number without
/// it; for every other number, what stands for it.
pub proof fn law_write_signed_decimal(n: i64, written: String)
    requires
        call_ensures(write_signed_decimal, (n,), written),
    ensures
        n >= 0 ==> is_numeral(written@, n as nat),
        n < 0 ==> written@.len() > 0 && written@[0] == '-' && is_numeral(
            written@.drop_first(),
            (-n) as nat,
        ),
{
    reveal_strlit("-");
    if n < 0 {
        law_decimal_is_numeral((-n) as nat);
        assert(written@.drop_first() =~= text::decimal((-n) as nat));
    } else {
        law_decimal_is_numeral(n as nat);
    }
}

/// The name comes first, then round brackets around the rest.
pub proof fn law_enclose(name: &str, inner: String, written: String)
    requires
        call_ensures(enclose, (name, inner), written),
    ensures
        written@ == name@ + seq!['('] + inner@ + seq![')'],
{
    reveal_strlit("(");
    reveal_strlit(")");
    assert("("@ =~= seq!['(']);
    assert(")"@ =~= seq![')']);
}

/// Something that is there stands in round brackets behind `Some`, and what is not there is
/// `None`.
pub proof fn law_write_optional(inner: Option<String>, written: String)
    requires
        call_ensures(write_optional, (inner,), written),
    ensures
        inner matches Some(there) ==> written@ == "Some"@ + seq!['('] + there@ + seq![')'],
        inner is None ==> written@ == "None"@,
{
    reveal_strlit("(");
    reveal_strlit(")");
    assert("("@ =~= seq!['(']);
    assert(")"@ =~= seq![')']);
}

proof fn lemma_joined_push(parts: Seq<Seq<char>>, part: Seq<char>)
    requires
        parts.len() > 0,
    ensures
        joined(parts.push(part)) == joined(parts) + ", "@ + part,
    decreases parts.len(),
{
    let all = parts.push(part);
    if parts.len() == 1 {
        assert(all.drop_first() =~= seq![part]);
        assert(joined(all.drop_first()) == part);
    } else {
        assert(all.drop_first() =~= parts.drop_first().push(part));
        lemma_joined_push(parts.drop_first(), part);
        assert(joined(all) =~= joined(parts) + ", "@ + part);
    }
}

/// A list is its items in their order, with a comma and a space between two of them.
pub proof fn law_list_is_joined(items: Seq<Seq<char>>)
    ensures
        text::listed(items) == joined(items),
    decreases items.len(),
{
    if items.len() > 1 {
        law_list_is_joined(items.drop_last());
        lemma_joined_push(items.drop_last(), items.last());
        assert(items.drop_last().push(items.last()) =~= items);
    }
}

/// `written` is a list of the bytes in square brackets, each as its numeral and in their order.
pub open spec fn is_byte_list(written: Seq<char>, bytes: Seq<u8>) -> bool {
    exists|parts: Seq<Seq<char>>|
        {
            &&& written == "["@ + #[trigger] joined(parts) + "]"@
            &&& parts.len() == bytes.len()
            &&& forall|i: int|
                0 <= i < bytes.len() ==> is_numeral(#[trigger] parts[i], bytes[i] as nat)
        }
}

pub(crate) proof fn lemma_bytes(bytes: Seq<u8>)
    ensures
        is_byte_list(text::bytes_debug(bytes), bytes),
{
    let parts = bytes.map_values(|byte: u8| text::decimal(byte as nat));
    law_list_is_joined(parts);
    assert forall|i: int| 0 <= i < bytes.len() implies is_numeral(
        #[trigger] parts[i],
        bytes[i] as nat,
    ) by {
        law_decimal_is_numeral(bytes[i] as nat);
    }
}

/// What is written for some bytes is a list of them.
pub proof fn law_write_bytes(bytes: Vec<u8>, written: String)
    requires
        call_ensures(write_bytes, (&bytes,), written),
    ensures
        is_byte_list(written@, bytes@),
{
    lemma_bytes(bytes@);
}

} // verus!
