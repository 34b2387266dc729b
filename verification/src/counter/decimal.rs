//! Decimal text of integers, as `Display` writes them.

use vstd::prelude::*;
use crate::text::push_char;

verus! {

/// The digit character for `d`, where `d < 10`.
pub open spec fn digit_char(d: nat) -> char {
    (48 + d) as char
}

/// The decimal digits of `n`, without leading zeros (`0` for zero).
pub open spec fn digits(n: nat) -> Seq<char>
    decreases n,
{
    if n < 10 {
        seq![digit_char(n)]
    } else {
        digits(n / 10).push(digit_char(n % 10))
    }
}

/// The decimal text of `v`: a minus sign for negative numbers, then the
/// digits of its magnitude.
pub open spec fn decimal_text(v: int) -> Seq<char> {
    if v < 0 {
        seq!['-'] + digits((-v) as nat)
    } else {
        digits(v as nat)
    }
}

fn digit(d: u64) -> (c: char)
    requires
        d < 10,
    ensures
        c == digit_char(d as nat),
{
    let b: u8 = 48u8 + (d as u8);
    b as char
}

/// Appends the digits of `n`.
fn push_digits(s: &mut String, n: u64)
    ensures
        final(s)@ == old(s)@ + digits(n as nat),
    decreases n,
{
    if n >= 10 {
        push_digits(s, n / 10);
    }
    push_char(s, digit(n % 10));
    assert(digits(n as nat) =~= if n < 10 {
        seq![digit_char(n as nat)]
    } else {
        digits((n / 10) as nat).push(digit_char((n % 10) as nat))
    });
}

/// The decimal text of `v`.
pub fn format_i32(v: i32) -> (r: String)
    ensures
        r@ == decimal_text(v as int),
{
    let mut s = String::new();
    let magnitude: u64 = if v < 0 {
        push_char(&mut s, '-');
        (0i64 - (v as i64)) as u64
    } else {
        v as u64
    };
    push_digits(&mut s, magnitude);
    s
}

/// The number a text of decimal digits denotes, most significant digit
/// first (each character counts as its code minus that of `'0'`).
pub open spec fn decimal_value(s: Seq<char>) -> int
    decreases s.len(),
{
    if s.len() == 0 {
        0
    } else {
        decimal_value(s.drop_last()) * 10 + ((s.last() as int) - ('0' as int))
    }
}

/// Whether every character is a decimal digit.
pub open spec fn all_digits(s: Seq<char>) -> bool {
    forall|i: int| 0 <= i < s.len() ==> '0' <= #[trigger] s[i] <= '9'
}

proof fn lemma_digit_char_value(d: nat)
    requires
        d < 10,
    ensures
        (digit_char(d) as int) - ('0' as int) == d,
{
}

proof fn lemma_digits_value(n: nat)
    ensures
        decimal_value(digits(n)) == n,
        digits(n)[0] == '0' ==> n == 0,
    decreases n,
{
    lemma_digit_char_value(n % 10);
    if n >= 10 {
        lemma_digits_value(n / 10);
        lemma_digits_are_digits(n / 10);
        let s = digits(n);
        assert(s.drop_last() =~= digits(n / 10));
        assert(s.last() == digit_char(n % 10));
        assert(s[0] == digits(n / 10)[0]);
        assert(decimal_value(s) == decimal_value(s.drop_last()) * 10 + ((s.last() as int) - ('0' as int)));
        assert(decimal_value(s) == (n / 10) * 10 + n % 10);
    } else {
        let s = digits(n);
        assert(s =~= seq![digit_char(n)]);
        assert(s.drop_last() =~= Seq::<char>::empty());
        assert(decimal_value(s.drop_last()) == 0);
        assert(s.last() == digit_char(n));
        assert(decimal_value(s) == decimal_value(s.drop_last()) * 10 + ((s.last() as int) - ('0' as int)));
    }
}

/// The decimal text of any integer reads back as that integer: a
/// non-negative number is shown as digits only, most significant first, with
/// no leading zero (except `0` itself), and their value is the number; a
/// negative number is shown as `-` followed by such digits for its
/// magnitude.
pub proof fn law_decimal_text_reads_back(v: int)
    ensures
        v >= 0 ==> {
            let t = decimal_text(v);
            &&& t.len() >= 1
            &&& all_digits(t)
            &&& decimal_value(t) == v
            &&& (t[0] == '0' ==> v == 0)
        },
        v < 0 ==> {
            let t = decimal_text(v);
            &&& t.len() >= 2
            &&& t[0] == '-'
            &&& all_digits(t.drop_first())
            &&& decimal_value(t.drop_first()) == -v
            &&& t[1] != '0'
        },
{
    if v >= 0 {
        lemma_digits_are_digits(v as nat);
        lemma_digits_value(v as nat);
    } else {
        let m = (-v) as nat;
        lemma_digits_are_digits(m);
        lemma_digits_value(m);
        let t = decimal_text(v);
        assert(t.drop_first() =~= digits(m));
        assert(t[1] == digits(m)[0]);
    }
}

/// Every digit of `digits(n)` is a decimal digit character.
proof fn lemma_digits_are_digits(n: nat)
    ensures
        digits(n).len() >= 1,
        forall|i: int| 0 <= i < digits(n).len() ==> '0' <= #[trigger] digits(n)[i] <= '9',
    decreases n,
{
    if n >= 10 {
        lemma_digits_are_digits(n / 10);
    }
}

/// Different numbers have different digits.
proof fn lemma_digits_injective(n: nat, m: nat)
    requires
        digits(n) == digits(m),
    ensures
        n == m,
    decreases n,
{
    lemma_digits_are_digits(n);
    lemma_digits_are_digits(m);
    if n < 10 && m < 10 {
        assert(digits(n) == seq![digit_char(n)]);
        assert(digits(m) == seq![digit_char(m)]);
        assert(seq![digit_char(n)][0] == digit_char(n));
        assert(digit_char(n) == digit_char(m));
    } else if n < 10 {
        lemma_digits_are_digits(m / 10);
        assert(digits(m).len() >= 2);
    } else if m < 10 {
        lemma_digits_are_digits(n / 10);
        assert(digits(n).len() >= 2);
    } else {
        let dn = digits(n);
        let dm = digits(m);
        assert(dn.last() == digit_char(n % 10));
        assert(dm.last() == digit_char(m % 10));
        assert(dn.drop_last() =~= digits(n / 10));
        assert(dm.drop_last() =~= digits(m / 10));
        lemma_digits_injective(n / 10, m / 10);
        assert(digit_char(n % 10) == digit_char(m % 10));
        assert(n % 10 == m % 10);
    }
}

/// Distinct integers have distinct decimal texts, and the text starts with a
/// minus sign exactly for negative integers: a shown count names one count.
pub proof fn law_decimal_text_is_faithful(a: int, b: int)
    ensures
        decimal_text(a).len() >= 1,
        (decimal_text(a)[0] == '-') <==> a < 0,
        decimal_text(a) == decimal_text(b) ==> a == b,
{
    lemma_digits_are_digits(if a < 0 { (-a) as nat } else { a as nat });
    lemma_digits_are_digits(if b < 0 { (-b) as nat } else { b as nat });
    if a < 0 {
        assert(decimal_text(a)[0] == '-');
    } else {
        assert('0' <= decimal_text(a)[0] <= '9');
    }
    if decimal_text(a) == decimal_text(b) {
        if a < 0 && b < 0 {
            assert(decimal_text(a).drop_first() =~= digits((-a) as nat));
            assert(decimal_text(b).drop_first() =~= digits((-b) as nat));
            lemma_digits_injective((-a) as nat, (-b) as nat);
        } else if a >= 0 && b >= 0 {
            lemma_digits_injective(a as nat, b as nat);
        } else if a < 0 {
            assert(decimal_text(a)[0] == '-');
            assert('0' <= decimal_text(b)[0] <= '9');
        } else {
            assert(decimal_text(b)[0] == '-');
            assert('0' <= decimal_text(a)[0] <= '9');
        }
    }
}

} // verus!
