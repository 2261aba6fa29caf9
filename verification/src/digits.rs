//! ASCII digit strings and their base-10 value.
//!
//! The popup constrains its buffer to at most six ASCII digits, so the
//! confirmed line number is parsed here by a loop that can neither fail nor
//! overflow: six digits reach at most 999999.

use vstd::prelude::*;

verus! {

/// Is `c` an ASCII digit, `'0'` through `'9'`?
pub open spec fn is_digit(c: char) -> bool {
    48 <= c as u32 && c as u32 <= 57
}

/// Decide whether `c` is an ASCII digit: the executable counterpart of
/// [`is_digit`].
pub fn is_ascii_digit(c: char) -> (r: bool)
    ensures
        r == is_digit(c),
{
    c as u32 >= 48 && c as u32 <= 57
}

/// The numeric value of one ASCII digit.
pub open spec fn digit_val(c: char) -> nat
    recommends
        is_digit(c),
{
    (c as u32 - 48) as nat
}

/// The base-10 value of a digit string, most significant digit first.
pub open spec fn digits_val(s: Seq<char>) -> nat
    decreases s.len(),
{
    if s.len() == 0 {
        0
    } else {
        digits_val(s.drop_last()) * 10 + digit_val(s.last())
    }
}

/// Ten to the `n`th power.
pub open spec fn pow10(n: nat) -> nat
    decreases n,
{
    if n == 0 {
        1
    } else {
        10 * pow10((n - 1) as nat)
    }
}

proof fn lemma_pow10_mono(a: nat, b: nat)
    requires
        a <= b,
    ensures
        pow10(a) <= pow10(b),
    decreases b,
{
    if a < b {
        lemma_pow10_mono(a, (b - 1) as nat);
    }
}

proof fn lemma_pow10_6()
    ensures
        pow10(5) == 100000,
        pow10(6) == 1000000,
{
    assert(pow10(0) == 1);
    assert(pow10(1) == 10);
    assert(pow10(2) == 100);
    assert(pow10(3) == 1000);
    assert(pow10(4) == 10000);
    assert(pow10(5) == 100000);
    assert(pow10(6) == 1000000);
}

/// A string of `n` digits is worth less than ten to the `n`.
pub proof fn lemma_digits_val_bound(s: Seq<char>)
    requires
        forall|i: int| 0 <= i < s.len() ==> is_digit(s[i]),
    ensures
        digits_val(s) < pow10(s.len()),
    decreases s.len(),
{
    if s.len() > 0 {
        assert forall|i: int| 0 <= i < s.drop_last().len() implies is_digit(
            s.drop_last()[i],
        ) by {
            assert(s.drop_last()[i] == s[i]);
        }
        lemma_digits_val_bound(s.drop_last());
        assert(is_digit(s.last()));
        assert(pow10(s.len()) == 10 * pow10((s.len() - 1) as nat));
    }
}

/// A digit string of at most six digits is worth at most 999999.
pub proof fn lemma_digits_val_max(s: Seq<char>)
    requires
        s.len() <= 6,
        forall|i: int| 0 <= i < s.len() ==> is_digit(s[i]),
    ensures
        digits_val(s) <= 999999,
{
    lemma_digits_val_bound(s);
    lemma_pow10_mono(s.len(), 6);
    lemma_pow10_6();
}

/// Parse a string of ASCII digits as a base-10 number.
///
/// The popup caps its buffer at six digits, so the value fits comfortably in
/// `usize` and no failure path exists.
pub fn parse_digits(line: &Vec<char>) -> (n: usize)
    requires
        line@.len() <= 6,
        forall|i: int| 0 <= i < line@.len() ==> is_digit(line@[i]),
    ensures
        n == digits_val(line@),
        n <= 999999,
{
    let mut n: usize = 0;
    let mut i: usize = 0;
    proof {
        lemma_pow10_6();
    }
    while i < line.len()
        invariant
            i <= line@.len() <= 6,
            forall|j: int| 0 <= j < line@.len() ==> is_digit(line@[j]),
            n == digits_val(line@.take(i as int)),
            n < pow10(i as nat),
            pow10(6) == 1000000,
        decreases line@.len() - i,
    {
        let c = line[i];
        proof {
            lemma_pow10_mono(i as nat, 5);
            assert(pow10(5) == 100000) by {
                lemma_pow10_6();
            }
            assert(pow10((i + 1) as nat) == 10 * pow10(i as nat));
            assert(line@.take(i + 1).drop_last() =~= line@.take(i as int));
            assert(line@.take(i + 1).last() == line@[i as int]);
        }
        n = n * 10 + (c as u32 - 48) as usize;
        i += 1;
    }
    proof {
        assert(line@.take(line@.len() as int) =~= line@);
        lemma_pow10_mono(line@.len(), 6);
    }
    n
}

} // verus!
