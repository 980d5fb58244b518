//! Amounts as text in decimal digits, as the remote services write them.

use vstd::prelude::*;
use vstd::string::{StrSliceExecFns, StringExecFns};

verus! {

/// The character of the digit `d`.
pub open spec fn digit_char(d: nat) -> char {
    (48 + d) as char
}

/// The digit that `c` stands for, if it is one of `0` to `9`.
pub open spec fn digit_of(c: char) -> Option<nat> {
    if 48 <= c as nat && c as nat <= 57 {
        Some((c as nat - 48) as nat)
    } else {
        None
    }
}

/// `n` in decimal digits, without leading zeros; `0` for zero.
pub open spec fn decimal_text(n: nat) -> Seq<char>
    decreases n,
{
    if n < 10 {
        seq![digit_char(n)]
    } else {
        decimal_text(n / 10).push(digit_char(n % 10))
    }
}

/// Every character of `s` is a digit.
pub open spec fn all_digits(s: Seq<char>) -> bool {
    forall|i: int| 0 <= i < s.len() ==> digit_of(#[trigger] s[i]) is Some
}

/// The number that the digits `s` spell, most significant first.
pub open spec fn digits_value(s: Seq<char>) -> nat
    decreases s.len(),
{
    if s.len() == 0 {
        0
    } else {
        digits_value(s.drop_last()) * 10 + digit_of(s.last()).unwrap()
    }
}

/// `s` without the plus sign that may stand before its digits.
pub open spec fn unsigned_part(s: Seq<char>) -> Seq<char> {
    if s.len() > 0 && s[0] == '+' {
        s.subrange(1, s.len() as int)
    } else {
        s
    }
}

/// The number that `s` spells: one digit or more, a plus sign before them or
/// none, and nothing else; `None` for any other text and for a number that
/// does not fit in 128 bits.
pub open spec fn decimal_value(s: Seq<char>) -> Option<u128> {
    let body = unsigned_part(s);
    if body.len() > 0 && all_digits(body) && digits_value(body) <= u128::MAX {
        Some(digits_value(body) as u128)
    } else {
        None
    }
}

/// The digits of a number spell that number.
pub proof fn lemma_decimal_text(n: nat)
    ensures
        decimal_text(n).len() > 0,
        all_digits(decimal_text(n)),
        digits_value(decimal_text(n)) == n,
        digit_of(decimal_text(n)[0]) is Some,
    decreases n,
{
    let text = decimal_text(n);
    if n < 10 {
        assert(text.drop_last() =~= Seq::<char>::empty());
        assert(digit_of(text[0]) == Some(n));
        assert(digits_value(text.drop_last()) == 0);
    } else {
        lemma_decimal_text(n / 10);
        let head = decimal_text(n / 10);
        assert(text.drop_last() =~= head);
        assert(digit_of(text.last()) == Some(n % 10));
        assert(text[0] == head[0]);
        assert forall|i: int| 0 <= i < text.len() implies digit_of(#[trigger] text[i]) is Some by {
            if i < head.len() {
                assert(text[i] == head[i]);
            }
        }
    }
}

/// Writing an amount and reading it back gives the amount.
pub proof fn lemma_decimal_round_trip(n: u128)
    ensures
        decimal_value(decimal_text(n as nat)) == Some(n),
{
    lemma_decimal_text(n as nat);
}

/// A number is no less than what its first digits spell.
pub proof fn lemma_digits_prefix(s: Seq<char>, k: int)
    requires
        0 <= k <= s.len(),
        all_digits(s),
    ensures
        digits_value(s.take(k)) <= digits_value(s),
    decreases s.len(),
{
    if k == s.len() {
        assert(s.take(k) =~= s);
    } else {
        let rest = s.drop_last();
        assert(rest.take(k) =~= s.take(k));
        assert forall|i: int| 0 <= i < rest.len() implies digit_of(#[trigger] rest[i]) is Some by {
            assert(rest[i] == s[i]);
        }
        lemma_digits_prefix(rest, k);
    }
}

/// The text of one digit.
fn digit_text(d: u128) -> (text: &'static str)
    requires
        d < 10,
    ensures
        text@ == seq![digit_char(d as nat)],
{
    proof {
        reveal_strlit("0");
        reveal_strlit("1");
        reveal_strlit("2");
        reveal_strlit("3");
        reveal_strlit("4");
        reveal_strlit("5");
        reveal_strlit("6");
        reveal_strlit("7");
        reveal_strlit("8");
        reveal_strlit("9");
    }
    let text = if d == 0 {
        "0"
    } else if d == 1 {
        "1"
    } else if d == 2 {
        "2"
    } else if d == 3 {
        "3"
    } else if d == 4 {
        "4"
    } else if d == 5 {
        "5"
    } else if d == 6 {
        "6"
    } else if d == 7 {
        "7"
    } else if d == 8 {
        "8"
    } else {
        "9"
    };
    assert(text@ =~= seq![digit_char(d as nat)]);
    text
}

/// `amount` in decimal digits.
pub fn amount_text(amount: u128) -> (text: String)
    ensures
        text@ == decimal_text(amount as nat),
    decreases amount,
{
    if amount < 10 {
        String::from_str(digit_text(amount))
    } else {
        let mut text = amount_text(amount / 10);
        text.append(digit_text(amount % 10));
        assert(text@ =~= decimal_text(amount as nat));
        text
    }
}

/// The digit that `c` stands for, if it is one.
fn digit_value(c: char) -> (digit: Option<u128>)
    ensures
        match digit {
            Some(d) => digit_of(c) == Some(d as nat) && d < 10,
            None => digit_of(c) is None,
        },
{
    let code: u32 = c as u32;
    if 48 <= code && code <= 57 {
        Some((code - 48) as u128)
    } else {
        None
    }
}

/// The number that `text` spells in decimal digits, if it spells one that
/// fits in 128 bits.
pub fn parse_amount(text: &String) -> (amount: Option<u128>)
    ensures
        amount == decimal_value(text@),
{
    let chars = text.as_str();
    let len: usize = chars.unicode_len();
    let start: usize = if len > 0 && chars.get_char(0) == '+' {
        1
    } else {
        0
    };
    if start == len {
        return None;
    }
    let ghost body = unsigned_part(text@);
    assert(body.len() == len - start);
    assert(forall|k: int| 0 <= k < body.len() ==> body[k] == text@[k + start]);
    let mut value: u128 = 0;
    let mut i: usize = start;
    proof {
        assert(body.take(0) =~= Seq::<char>::empty());
    }
    while i < len
        invariant
            start <= i <= len,
            len == chars@.len(),
            chars@ == text@,
            body == unsigned_part(text@),
            body.len() == len - start,
            forall|k: int| 0 <= k < body.len() ==> body[k] == text@[k + start],
            all_digits(body.take(i - start)),
            value == digits_value(body.take(i - start)),
        decreases len - i,
    {
        let ghost head = body.take(i - start);
        let ghost next = body.take(i - start + 1);
        proof {
            assert(next.drop_last() =~= head);
            assert(next.last() == body[i - start]);
        }
        let digit: u128 = match digit_value(chars.get_char(i)) {
            Some(d) => d,
            None => {
                assert(digit_of(body[i - start]) is None);
                return None;
            },
        };
        proof {
            assert forall|k: int| 0 <= k < next.len() implies digit_of(#[trigger] next[k]) is Some by {
                if k < head.len() {
                    assert(next[k] == head[k]);
                }
            }
            if all_digits(body) {
                lemma_digits_prefix(body, i - start + 1);
            }
        }
        if value > (u128::MAX - digit) / 10 {
            assert(digits_value(next) > u128::MAX);
            return None;
        }
        value = value * 10 + digit;
        i += 1;
    }
    proof {
        assert(body.take(len - start) =~= body);
    }
    Some(value)
}

} // verus!
