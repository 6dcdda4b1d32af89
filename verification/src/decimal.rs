//! Unsigned integers in decimal notation, as ASCII bytes and as text.

use vstd::prelude::*;
use vstd::string::StringExecFns;

verus! {

/// The ASCII byte of a digit.
pub open spec fn digit(d: nat) -> u8
    recommends
        d < 10,
{
    (48 + d) as u8
}

/// Whether a byte is an ASCII digit.
pub open spec fn is_digit(b: u8) -> bool {
    48 <= b <= 57
}

/// The decimal notation of a number: most significant digit first, no
/// leading zero, `0` for zero.
pub open spec fn decimal(n: nat) -> Seq<u8>
    decreases n,
{
    if n < 10 {
        seq![digit(n)]
    } else {
        decimal(n / 10).push(digit(n % 10))
    }
}

/// The decimal notation of a number as characters.
pub open spec fn decimal_text(n: nat) -> Seq<char> {
    decimal(n).map_values(|b: u8| b as char)
}

/// The number that a sequence of digits denotes.
pub open spec fn value(s: Seq<u8>) -> nat
    decreases s.len(),
{
    if s.len() == 0 {
        0
    } else {
        value(s.drop_last()) * 10 + (s.last() - 48) as nat
    }
}

/// Whether a sequence of bytes is the decimal notation of some number: it
/// is not empty, holds digits only, and starts with a zero only if it is
/// the single digit `0`.
pub open spec fn canonical(s: Seq<u8>) -> bool {
    &&& s.len() > 0
    &&& forall|i: int| 0 <= i < s.len() ==> is_digit(#[trigger] s[i])
    &&& s.len() > 1 ==> s[0] != 48
}

/// Where the digits that start at `start` end: the index of the first byte
/// at or after `start` that is no digit, or the length of the sequence.
pub open spec fn digits_end(s: Seq<u8>, start: int) -> int
    decreases s.len() - start,
{
    if 0 <= start < s.len() && is_digit(s[start]) {
        digits_end(s, start + 1)
    } else {
        start
    }
}

/// What reading a number at `start` gives: its value and the index behind
/// its last digit, if the digits there are the notation of a number that
/// fits in 64 bits.
pub open spec fn read(s: Seq<u8>, start: int) -> Option<(nat, int)> {
    let end = digits_end(s, start);
    let run = s.subrange(start, end);
    if canonical(run) && value(run) <= u64::MAX {
        Some((value(run), end))
    } else {
        None
    }
}

/// The notation of a positive number does not start with a zero.
proof fn lemma_leading_digit(n: nat)
    requires
        n >= 1,
    ensures
        decimal(n).len() >= 1,
        decimal(n)[0] != 48,
    decreases n,
{
    if n >= 10 {
        lemma_leading_digit(n / 10);
    }
}

/// The decimal notation of every number is canonical.
pub proof fn lemma_decimal_canonical(n: nat)
    ensures
        canonical(decimal(n)),
    decreases n,
{
    if n >= 10 {
        lemma_decimal_canonical(n / 10);
        lemma_leading_digit(n / 10);
        let head = decimal(n / 10);
        assert forall|i: int| 0 <= i < decimal(n).len() implies is_digit(
            #[trigger] decimal(n)[i],
        ) by {
            if i < head.len() {
                assert(decimal(n)[i] == head[i]);
            }
        }
    }
}

/// A notation denotes the number it was made from.
pub proof fn lemma_value_of_decimal(n: nat)
    ensures
        value(decimal(n)) == n,
    decreases n,
{
    if n < 10 {
        assert(decimal(n).drop_last().len() == 0);
        assert(value(decimal(n).drop_last()) == 0);
    } else {
        lemma_value_of_decimal(n / 10);
        assert(decimal(n).drop_last() =~= decimal(n / 10));
        assert(decimal(n).last() == digit(n % 10));
    }
}

/// Two numbers with the same notation are the same number.
pub proof fn lemma_decimal_injective(a: nat, b: nat)
    requires
        decimal(a) == decimal(b),
    ensures
        a == b,
{
    lemma_value_of_decimal(a);
    lemma_value_of_decimal(b);
}

/// Digits that do not start with a zero denote a positive number.
proof fn lemma_value_positive(s: Seq<u8>)
    requires
        s.len() > 0,
        forall|i: int| 0 <= i < s.len() ==> is_digit(#[trigger] s[i]),
        s[0] != 48,
    ensures
        value(s) >= 1,
    decreases s.len(),
{
    if s.len() > 1 {
        lemma_value_positive(s.drop_last());
    } else {
        assert(s.last() == s[0]);
        assert(value(s.drop_last()) == 0);
    }
}

/// A canonical sequence of digits is the notation of the number it denotes.
pub proof fn lemma_decimal_of_value(s: Seq<u8>)
    requires
        canonical(s),
    ensures
        decimal(value(s)) == s,
    decreases s.len(),
{
    let head = s.drop_last();
    let last = (s.last() - 48) as nat;
    assert(is_digit(s.last()));
    if s.len() == 1 {
        assert(head.len() == 0);
        assert(value(head) == 0);
        assert(value(s) == last);
        assert(decimal(value(s)) =~= s);
    } else {
        assert(head[0] == s[0]);
        assert(canonical(head));
        lemma_value_positive(head);
        lemma_decimal_of_value(head);
        let v = value(s);
        assert(v == value(head) * 10 + last);
        assert(v / 10 == value(head) && v % 10 == last);
        assert(decimal(v) =~= s);
    }
}

/// The digits that start at `start` reach up to `digits_end`, and the byte
/// there, if there is one, is no digit.
pub proof fn lemma_digits_end(s: Seq<u8>, start: int)
    requires
        0 <= start <= s.len(),
    ensures
        start <= digits_end(s, start) <= s.len(),
        forall|i: int| start <= i < digits_end(s, start) ==> is_digit(#[trigger] s[i]),
        digits_end(s, start) < s.len() ==> !is_digit(s[digits_end(s, start)]),
    decreases s.len() - start,
{
    if start < s.len() && is_digit(s[start]) {
        lemma_digits_end(s, start + 1);
    }
}

/// Digits that are followed by a byte that is no digit, or by nothing, end
/// right there.
pub proof fn lemma_digits_end_at(s: Seq<u8>, start: int, end: int)
    requires
        0 <= start <= end <= s.len(),
        forall|i: int| start <= i < end ==> is_digit(#[trigger] s[i]),
        end < s.len() ==> !is_digit(s[end]),
    ensures
        digits_end(s, start) == end,
    decreases end - start,
{
    if start < end {
        lemma_digits_end_at(s, start + 1, end);
    }
}

/// Appends the decimal notation of `n` to `out`.
pub fn push_decimal(out: &mut Vec<u8>, n: u64)
    ensures
        final(out)@ == old(out)@ + decimal(n as nat),
    decreases n,
{
    if n >= 10 {
        push_decimal(out, n / 10);
    }
    out.push(48 + (n % 10) as u8);
    assert(out@ =~= old(out)@ + decimal(n as nat));
}

/// The text of one digit.
fn digit_text(d: u8) -> (text: &'static str)
    requires
        d < 10,
    ensures
        text@ == seq![digit(d as nat) as char],
{
    proof {
        reveal_strlit("0");
        reveal_strlit("1");
        reveal_strlit("2");
        reveal_strlit("3");
        reveal_strlit("4");
        reveal_strlit("5");
        reveal_strlit("6");
        reveal_strlit("7");
        reveal_strlit("8");
        reveal_strlit("9");
    }
    let text = match d {
        0 => "0",
        1 => "1",
        2 => "2",
        3 => "3",
        4 => "4",
        5 => "5",
        6 => "6",
        7 => "7",
        8 => "8",
        _ => "9",
    };
    assert(text@ =~= seq![digit(d as nat) as char]);
    text
}

/// Appends the decimal notation of `n` to `out`.
pub fn append_decimal(out: &mut String, n: u64)
    ensures
        final(out)@ == old(out)@ + decimal_text(n as nat),
    decreases n,
{
    if n >= 10 {
        append_decimal(out, n / 10);
    }
    out.append(digit_text((n % 10) as u8));
    assert(out@ =~= old(out)@ + decimal_text(n as nat));
}

/// Reads the number whose notation starts at `start`.
///
/// The digits are taken as far as they go. The result is `None` if there is
/// no digit, if there is a leading zero before another digit, or if the
/// number does not fit in 64 bits.
pub fn read_decimal(bytes: &[u8], start: usize) -> (number: Option<(u64, usize)>)
    requires
        start <= bytes.len(),
    ensures
        match number {
            Some((v, end)) => read(bytes@, start as int) == Some((v as nat, end as int)) && start
                < end <= bytes.len(),
            None => read(bytes@, start as int).is_none(),
        },
{
    let len = bytes.len();
    let mut i = start;
    let mut v: u64 = 0;
    let mut overflow = false;
    assert(bytes@.subrange(start as int, i as int) =~= Seq::<u8>::empty());
    while i < len && 48 <= bytes[i] && bytes[i] <= 57
        invariant
            len == bytes.len(),
            start <= i <= len,
            digits_end(bytes@, start as int) == digits_end(bytes@, i as int),
            forall|k: int| start <= k < i ==> is_digit(#[trigger] bytes@[k]),
            !overflow ==> v == value(bytes@.subrange(start as int, i as int)),
            overflow ==> value(bytes@.subrange(start as int, i as int)) > u64::MAX,
        decreases len - i,
    {
        let d = (bytes[i] - 48) as u64;
        proof {
            let before = bytes@.subrange(start as int, i as int);
            let after = bytes@.subrange(start as int, i + 1);
            assert(after.drop_last() =~= before);
            assert(after.last() == bytes@[i as int]);
            assert(value(after) == value(before) * 10 + d);
        }
        if !overflow {
            match v.checked_mul(10) {
                Some(tens) => match tens.checked_add(d) {
                    Some(sum) => {
                        v = sum;
                    },
                    None => {
                        overflow = true;
                    },
                },
                None => {
                    overflow = true;
                },
            }
        }
        i = i + 1;
    }
    proof {
        lemma_digits_end(bytes@, i as int);
        assert(digits_end(bytes@, i as int) == i);
    }
    let ghost run = bytes@.subrange(start as int, i as int);
    if i == start {
        None
    } else if i - start > 1 && bytes[start] == 48 {
        assert(run[0] == 48);
        None
    } else if overflow {
        None
    } else {
        assert(run[0] == bytes@[start as int]);
        assert(canonical(run));
        Some((v, i))
    }
}

} // verus!
