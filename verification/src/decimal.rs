//! Base-ten text of natural numbers.

use vstd::prelude::*;

verus! {

/// The character that writes the single digit `d`.
pub open spec fn digit_char(d: nat) -> char
    recommends
        d < 10,
{
    (48 + d) as char
}

/// The base-ten text of `n`: most significant digit first, no sign, no
/// leading zero except for zero itself.
pub open spec fn decimal_text(n: nat) -> Seq<char>
    decreases n,
{
    if n < 10 {
        seq![digit_char(n)]
    } else {
        decimal_text(n / 10).push(digit_char(n % 10))
    }
}

/// The natural number that `text` writes in base ten, if there is one.
pub open spec fn decimal_value(text: Seq<char>) -> Option<nat> {
    if exists|n: nat| decimal_text(n) == text {
        Some(choose|n: nat| decimal_text(n) == text)
    } else {
        None
    }
}

/// Two numbers with the same base-ten text are the same number.
pub proof fn lemma_decimal_text_injective(a: nat, b: nat)
    requires
        decimal_text(a) == decimal_text(b),
    ensures
        a == b,
    decreases a,
{
    if a < 10 && b < 10 {
        assert(decimal_text(a)[0] == digit_char(a));
        assert(decimal_text(b)[0] == digit_char(b));
        lemma_digit_chars_differ(a, b);
    } else if a < 10 {
        lemma_decimal_text_nonempty(b / 10);
        assert(decimal_text(b).len() >= 2);
    } else if b < 10 {
        lemma_decimal_text_nonempty(a / 10);
        assert(decimal_text(a).len() >= 2);
    } else {
        let high_a = decimal_text(a / 10);
        let high_b = decimal_text(b / 10);
        let low_a = digit_char(a % 10);
        let low_b = digit_char(b % 10);
        assert(high_a.push(low_a).last() == low_a);
        assert(high_b.push(low_b).last() == low_b);
        assert(high_a.push(low_a).drop_last() =~= high_a);
        assert(high_b.push(low_b).drop_last() =~= high_b);
        lemma_digit_chars_differ(a % 10, b % 10);
        lemma_decimal_text_injective(a / 10, b / 10);
    }
}

/// Different digits are written with different characters.
pub proof fn lemma_digit_chars_differ(a: nat, b: nat)
    requires
        a < 10,
        b < 10,
    ensures
        digit_char(a) == digit_char(b) ==> a == b,
{
    assert(digit_char(a) as int == 48 + a);
    assert(digit_char(b) as int == 48 + b);
}

/// The base-ten text of a number is never empty.
pub proof fn lemma_decimal_text_nonempty(n: nat)
    ensures
        decimal_text(n).len() >= 1,
    decreases n,
{
    if n >= 10 {
        lemma_decimal_text_nonempty(n / 10);
    }
}

/// Reading back the base-ten text of `n` gives `n`.
pub proof fn lemma_decimal_value_of_text(n: nat)
    ensures
        decimal_value(decimal_text(n)) == Some(n),
{
    let m = choose|m: nat| decimal_text(m) == decimal_text(n);
    lemma_decimal_text_injective(m, n);
}

/// Decides whether `text` is exactly the base-ten text of `n`.
pub fn is_decimal_of(text: &str, n: usize) -> (same: bool)
    ensures
        same == (text@ == decimal_text(n as nat)),
{
    let len: usize = text.unicode_len();
    let mut k: usize = len;
    let mut rest: usize = n;
    assert(text@.subrange(0, len as int) =~= text@);
    loop
        invariant
            k <= len,
            len == text@.len(),
            (text@ == decimal_text(n as nat)) == (text@.subrange(0, k as int) == decimal_text(
                rest as nat,
            )),
        decreases k,
    {
        if k == 0 {
            return false;
        }
        let c: char = text.get_char(k - 1);
        let d: usize = rest % 10;
        proof {
            let head = text@.subrange(0, k as int);
            assert(head.last() == c);
            assert(head.drop_last() =~= text@.subrange(0, k - 1));
            if rest >= 10 {
                assert(decimal_text(rest as nat).last() == digit_char(d as nat));
                assert(decimal_text(rest as nat).drop_last() =~= decimal_text((rest / 10) as nat));
                assert(head =~= head.drop_last().push(c));
            }
        }
        if c as u32 != 48 + d as u32 {
            return false;
        }
        if rest < 10 {
            proof {
                if k == 1 {
                    assert(text@.subrange(0, k as int) =~= seq![c]);
                }
            }
            return k == 1;
        }
        rest = rest / 10;
        k = k - 1;
    }
}

} // verus!
