//! Decimal text of integers, and reading it back.

use vstd::prelude::*;
use vstd::string::*;

verus! {

/// The character for a digit value below ten.
pub open spec fn digit_char(d: nat) -> char {
    if d == 0 { '0' }
    else if d == 1 { '1' }
    else if d == 2 { '2' }
    else if d == 3 { '3' }
    else if d == 4 { '4' }
    else if d == 5 { '5' }
    else if d == 6 { '6' }
    else if d == 7 { '7' }
    else if d == 8 { '8' }
    else { '9' }
}

pub open spec fn is_digit(c: char) -> bool {
    '0' <= c && c <= '9'
}

/// The value of a digit character.
pub open spec fn digit_value(c: char) -> nat {
    (c as nat - '0' as nat) as nat
}

/// The shortest decimal text of a natural number.
pub open spec fn nat_text(n: nat) -> Seq<char>
    decreases n,
{
    if n < 10 {
        seq![digit_char(n)]
    } else {
        nat_text(n / 10).push(digit_char(n % 10))
    }
}

/// The decimal text of an integer, with a leading `-` when negative.
pub open spec fn int_text(n: int) -> Seq<char> {
    if n < 0 {
        seq!['-'] + nat_text((-n) as nat)
    } else {
        nat_text(n as nat)
    }
}

/// A non-empty run of decimal digits.
pub open spec fn is_decimal(s: Seq<char>) -> bool {
    s.len() > 0 && forall|i: int| 0 <= i < s.len() ==> is_digit(#[trigger] s[i])
}

/// The number that a run of decimal digits denotes.
pub open spec fn digits_value(s: Seq<char>) -> nat
    decreases s.len(),
{
    if s.len() == 0 {
        0
    } else {
        10 * digits_value(s.drop_last()) + digit_value(s.last())
    }
}

/// What reading `s` as an unsigned 32-bit decimal gives.
pub open spec fn u32_of_text(s: Seq<char>) -> Option<u32> {
    if is_decimal(s) && digits_value(s) <= u32::MAX {
        Some(digits_value(s) as u32)
    } else {
        None
    }
}

/// The text `"true"` or `"false"`.
pub open spec fn bool_text(b: bool) -> Seq<char> {
    if b { "true"@ } else { "false"@ }
}

proof fn lemma_digit_char(d: nat)
    requires
        d < 10,
    ensures
        is_digit(digit_char(d)),
        digit_value(digit_char(d)) == d,
{
}

/// The text of a number is made of digits only.
pub proof fn lemma_nat_text_is_decimal(n: nat)
    ensures
        is_decimal(nat_text(n)),
        digits_value(nat_text(n)) == n,
    decreases n,
{
    if n < 10 {
        lemma_digit_char(n);
        let s = nat_text(n);
        assert(s.drop_last() =~= Seq::<char>::empty());
        assert(digits_value(s.drop_last()) == 0);
        assert(digits_value(s) == n);
    } else {
        lemma_nat_text_is_decimal(n / 10);
        lemma_digit_char(n % 10);
        let s = nat_text(n);
        let p = nat_text(n / 10);
        assert(s.drop_last() =~= p);
        assert forall|i: int| 0 <= i < s.len() implies is_digit(#[trigger] s[i]) by {
            if i < p.len() {
                assert(s[i] == p[i]);
            }
        }
        assert(s.last() == digit_char(n % 10));
        assert(digits_value(s) == 10 * digits_value(p) + n % 10);
        assert(n == 10 * (n / 10) + n % 10);
    }
}

/// Reading back the text of a 32-bit number gives the number.
pub proof fn lemma_u32_text_round_trip(n: u32)
    ensures
        u32_of_text(nat_text(n as nat)) == Some(n),
{
    lemma_nat_text_is_decimal(n as nat);
}

proof fn lemma_prefix_value_bounded(s: Seq<char>, j: int)
    requires
        0 <= j <= s.len(),
    ensures
        digits_value(s.take(j)) <= digits_value(s),
    decreases s.len(),
{
    if j < s.len() {
        assert(s.drop_last().take(j) =~= s.take(j));
        lemma_prefix_value_bounded(s.drop_last(), j);
    } else {
        assert(s.take(j) =~= s);
    }
}

fn digit_str(d: u64) -> (r: &'static str)
    requires
        d < 10,
    ensures
        r@ == seq![digit_char(d as nat)],
{
    proof {
        reveal_strlit("0");
        reveal_strlit("1");
        reveal_strlit("2");
        reveal_strlit("3");
        reveal_strlit("4");
        reveal_strlit("5");
        reveal_strlit("6");
        reveal_strlit("7");
        reveal_strlit("8");
        reveal_strlit("9");
    }
    if d == 0 {
        "0"
    } else if d == 1 {
        "1"
    } else if d == 2 {
        "2"
    } else if d == 3 {
        "3"
    } else if d == 4 {
        "4"
    } else if d == 5 {
        "5"
    } else if d == 6 {
        "6"
    } else if d == 7 {
        "7"
    } else if d == 8 {
        "8"
    } else {
        "9"
    }
}

/// The decimal text of `n`.
pub fn u64_text(n: u64) -> (r: String)
    ensures
        r@ == nat_text(n as nat),
    decreases n,
{
    if n < 10 {
        String::from_str(digit_str(n))
    } else {
        let mut s = u64_text(n / 10);
        s.append(digit_str(n % 10));
        s
    }
}

/// The decimal text of `n`, signed.
pub fn i64_text(n: i64) -> (r: String)
    ensures
        r@ == int_text(n as int),
{
    if n < 0 {
        let m: u64 = ((-(n + 1)) as u64) + 1;
        let digits = u64_text(m);
        proof {
            reveal_strlit("-");
        }
        let r = String::from_str("-").concat(digits.as_str());
        r
    } else {
        u64_text(n as u64)
    }
}

/// `"true"` or `"false"`.
pub fn bool_str(b: bool) -> (r: &'static str)
    ensures
        r@ == bool_text(b),
{
    if b {
        "true"
    } else {
        "false"
    }
}

/// Reads `s` as an unsigned 32-bit decimal; `None` unless it is a
/// non-empty run of digits whose value fits.
pub fn parse_u32(s: &str) -> (r: Option<u32>)
    ensures
        r == u32_of_text(s@),
{
    let len = s.unicode_len();
    if len == 0 {
        return None;
    }
    let mut i: usize = 0;
    while i < len
        invariant
            len == s@.len(),
            i <= len,
            forall|k: int| 0 <= k < i ==> is_digit(#[trigger] s@[k]),
        decreases len - i,
    {
        let c = s.get_char(i);
        if !('0' <= c && c <= '9') {
            assert(!is_decimal(s@));
            return None;
        }
        i = i + 1;
    }
    assert(is_decimal(s@));
    let mut acc: u64 = 0;
    let mut j: usize = 0;
    while j < len
        invariant
            len == s@.len(),
            j <= len,
            is_decimal(s@),
            acc as nat == digits_value(s@.take(j as int)),
            acc <= u32::MAX,
        decreases len - j,
    {
        let c = s.get_char(j);
        assert(is_digit(s@[j as int]));
        let d: u64 = (c as u64) - ('0' as u64);
        assert(s@.take(j + 1).drop_last() =~= s@.take(j as int));
        acc = acc * 10 + d;
        j = j + 1;
        if acc > u32::MAX as u64 {
            proof {
                lemma_prefix_value_bounded(s@, j as int);
            }
            return None;
        }
    }
    assert(s@.take(len as int) =~= s@);
    Some(acc as u32)
}

} // verus!
