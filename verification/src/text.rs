use vstd::prelude::*;

verus! {

/// The decimal digit character for `d` (0 to 9).
pub open spec fn digit_char(d: int) -> char {
    if d == 0 { '0' }
    else if d == 1 { '1' }
    else if d == 2 { '2' }
    else if d == 3 { '3' }
    else if d == 4 { '4' }
    else if d == 5 { '5' }
    else if d == 6 { '6' }
    else if d == 7 { '7' }
    else if d == 8 { '8' }
    else { '9' }
}

/// The decimal notation of a natural number, without leading zeros.
pub open spec fn decimal_nat(n: nat) -> Seq<char>
    decreases n,
{
    if n < 10 {
        seq![digit_char(n as int)]
    } else {
        decimal_nat(n / 10) + seq![digit_char((n % 10) as int)]
    }
}

/// The decimal notation of an integer, with a leading `-` when negative.
pub open spec fn decimal_int(n: int) -> Seq<char> {
    if n < 0 {
        seq!['-'] + decimal_nat((-n) as nat)
    } else {
        decimal_nat(n as nat)
    }
}

/// The number a string of decimal digits stands for.
pub open spec fn digits_value(s: Seq<char>) -> int
    decreases s.len(),
{
    if s.len() == 0 {
        0
    } else {
        digits_value(s.drop_last()) * 10 + (s.last() as int - '0' as int)
    }
}

proof fn lemma_digit_char(k: int)
    requires
        0 <= k < 10,
    ensures
        digit_char(k) as int - '0' as int == k,
        '0' <= digit_char(k) <= '9',
{
}

/// The decimal notation of `n` is made of digits only, does not start with
/// a zero unless it is the single digit of zero, and stands for `n`.
pub proof fn law_decimal_nat(n: nat)
    ensures
        decimal_nat(n).len() > 0,
        forall|i: int| 0 <= i < decimal_nat(n).len() ==>
            '0' <= #[trigger] decimal_nat(n)[i] && decimal_nat(n)[i] <= '9',
        n > 0 ==> decimal_nat(n)[0] != '0',
        digits_value(decimal_nat(n)) == n,
    decreases n,
{
    lemma_digit_char((n % 10) as int);
    if n < 10 {
        let s = decimal_nat(n);
        assert(s.drop_last() =~= Seq::<char>::empty());
        assert(digits_value(s.drop_last()) == 0);
        assert(n % 10 == n);
        assert(s.last() == digit_char(n as int));
        assert(digits_value(s) == n);
    } else {
        law_decimal_nat(n / 10);
        let d = decimal_nat(n / 10);
        let s = decimal_nat(n);
        assert(s == d + seq![digit_char((n % 10) as int)]);
        assert(s.drop_last() =~= d);
        assert(s[0] == d[0]);
        assert(digits_value(s) == digits_value(d) * 10 + (n % 10));
        assert((n / 10) * 10 + n % 10 == n);
    }
}

fn digit_str(d: u64) -> (res: &'static str)
    requires
        d < 10,
    ensures
        res@ == seq![digit_char(d as int)],
{
    if d == 0 {
        proof { reveal_strlit("0"); }
        "0"
    } else if d == 1 {
        proof { reveal_strlit("1"); }
        "1"
    } else if d == 2 {
        proof { reveal_strlit("2"); }
        "2"
    } else if d == 3 {
        proof { reveal_strlit("3"); }
        "3"
    } else if d == 4 {
        proof { reveal_strlit("4"); }
        "4"
    } else if d == 5 {
        proof { reveal_strlit("5"); }
        "5"
    } else if d == 6 {
        proof { reveal_strlit("6"); }
        "6"
    } else if d == 7 {
        proof { reveal_strlit("7"); }
        "7"
    } else if d == 8 {
        proof { reveal_strlit("8"); }
        "8"
    } else {
        proof { reveal_strlit("9"); }
        "9"
    }
}

/// Appends the decimal notation of `n` to `s`.
pub fn push_decimal_u64(s: &mut String, n: u64)
    ensures
        final(s)@ == old(s)@ + decimal_nat(n as nat),
    decreases n,
{
    if n >= 10 {
        push_decimal_u64(s, n / 10);
    }
    let d = digit_str(n % 10);
    s.append(d);
    proof {
        if n >= 10 {
            assert(decimal_nat(n as nat) == decimal_nat((n / 10) as nat) + seq![digit_char((n % 10) as int)]);
        }
    }
}

/// Appends the decimal notation of `n` to `s`, with a `-` for negative numbers.
pub fn push_decimal_i64(s: &mut String, n: i64)
    ensures
        final(s)@ == old(s)@ + decimal_int(n as int),
{
    if n < 0 {
        proof { reveal_strlit("-"); }
        s.append("-");
        let m: u64 = if n == i64::MIN { 9223372036854775808u64 } else { (-n) as u64 };
        push_decimal_u64(s, m);
    } else {
        push_decimal_u64(s, n as u64);
    }
}

} // verus!
