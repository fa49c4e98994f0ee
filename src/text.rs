//! Decimal rendering of counters and nesting levels.
use vstd::prelude::*;

verus! {

/// The character of a decimal digit.
pub open spec fn digit_char(d: nat) -> char {
    if d == 0 { '0' }
    else if d == 1 { '1' }
    else if d == 2 { '2' }
    else if d == 3 { '3' }
    else if d == 4 { '4' }
    else if d == 5 { '5' }
    else if d == 6 { '6' }
    else if d == 7 { '7' }
    else if d == 8 { '8' }
    else { '9' }
}

/// Whether a character is one of `0`..`9`.
pub open spec fn is_digit(c: char) -> bool {
    '0' <= c && c <= '9'
}

/// The decimal representation of `n`, without leading zeros.
pub open spec fn dec(n: nat) -> Seq<char>
    decreases n,
{
    if n < 10 {
        seq![digit_char(n)]
    } else {
        dec(n / 10).push(digit_char(n % 10))
    }
}

/// The decimal representation of `n`, zero-padded to at least two digits.
pub open spec fn pad2(n: nat) -> Seq<char> {
    if n < 10 {
        seq!['0', digit_char(n)]
    } else {
        dec(n)
    }
}

proof fn lemma_digit_char(d: nat)
    requires
        d < 10,
    ensures
        is_digit(digit_char(d)),
        d != 0 ==> digit_char(d) != '0',
        forall|e: nat| e < 10 && digit_char(e) == digit_char(d) ==> e == d,
{
}

/// Every character of `dec(n)` is a digit, and only `n < 10` has one digit.
pub proof fn lemma_dec_digits(n: nat)
    ensures
        forall|i: int| 0 <= i < dec(n).len() ==> is_digit(#[trigger] dec(n)[i]),
        dec(n).len() >= 1,
        (dec(n).len() == 1) == (n < 10),
        n >= 1 ==> dec(n)[0] != '0',
    decreases n,
{
    lemma_digit_char(n % 10);
    if n >= 10 {
        lemma_dec_digits(n / 10);
        assert(dec(n)[0] == dec(n / 10)[0]);
    } else {
        lemma_digit_char(n);
    }
}

/// `dec` is injective.
pub proof fn lemma_dec_injective(n: nat, m: nat)
    requires
        dec(n) == dec(m),
    ensures
        n == m,
    decreases n,
{
    lemma_dec_digits(n);
    lemma_dec_digits(m);
    if n < 10 {
        lemma_digit_char(n);
        lemma_digit_char(m);
    } else {
        let dn = dec(n);
        assert(dn.drop_last() == dec(n / 10));
        assert(dec(m).drop_last() == dec(m / 10));
        lemma_dec_injective(n / 10, m / 10);
        lemma_digit_char(n % 10);
        lemma_digit_char(m % 10);
        assert(dn.last() == digit_char(n % 10));
        assert(dec(m).last() == digit_char(m % 10));
    }
}

/// Every character of `pad2(n)` is a digit, and `pad2` is injective.
pub proof fn lemma_pad2(n: nat, m: nat)
    ensures
        forall|i: int| 0 <= i < pad2(n).len() ==> is_digit(#[trigger] pad2(n)[i]),
        pad2(n) == pad2(m) ==> n == m,
{
    lemma_dec_digits(n);
    lemma_dec_digits(m);
    lemma_digit_char(n % 10);
    if n < 10 {
        lemma_digit_char(n);
    }
    if pad2(n) == pad2(m) {
        if n < 10 && m < 10 {
            lemma_digit_char(m);
            assert(pad2(n)[1] == pad2(m)[1]);
        } else if n < 10 {
            assert(pad2(n)[0] == pad2(m)[0]);
        } else if m < 10 {
            assert(pad2(n)[0] == pad2(m)[0]);
        } else {
            lemma_dec_injective(n, m);
        }
    }
}

fn digit_str(d: u128) -> (r: &'static str)
    requires
        d < 10,
    ensures
        r@ == seq![digit_char(d as nat)],
{
    proof {
        reveal_strlit("0");
        reveal_strlit("1");
        reveal_strlit("2");
        reveal_strlit("3");
        reveal_strlit("4");
        reveal_strlit("5");
        reveal_strlit("6");
        reveal_strlit("7");
        reveal_strlit("8");
        reveal_strlit("9");
    }
    if d == 0 {
        "0"
    } else if d == 1 {
        "1"
    } else if d == 2 {
        "2"
    } else if d == 3 {
        "3"
    } else if d == 4 {
        "4"
    } else if d == 5 {
        "5"
    } else if d == 6 {
        "6"
    } else if d == 7 {
        "7"
    } else if d == 8 {
        "8"
    } else {
        "9"
    }
}

/// Appends the decimal representation of `n` to `s`.
pub fn push_decimal(s: &mut String, n: u128)
    ensures
        final(s)@ == old(s)@ + dec(n as nat),
    decreases n,
{
    if n >= 10 {
        push_decimal(s, n / 10);
    }
    s.append(digit_str(n % 10));
    assert(final(s)@ =~= old(s)@ + dec(n as nat));
}

/// Appends `n` zero-padded to two digits.
pub fn push_padded2(s: &mut String, n: usize)
    ensures
        final(s)@ == old(s)@ + pad2(n as nat),
{
    proof {
        reveal_strlit("0");
    }
    if n < 10 {
        s.append("0");
        s.append(digit_str(n as u128));
        assert(final(s)@ =~= old(s)@ + pad2(n as nat));
    } else {
        push_decimal(s, n as u128);
    }
}


/// The decimal representation of a signed integer.
pub open spec fn signed_dec(i: int) -> Seq<char> {
    if i < 0 {
        seq!['-'] + dec((-i) as nat)
    } else {
        dec(i as nat)
    }
}

/// Appends the decimal representation of `i`, with a minus sign when negative.
pub fn push_signed_decimal(s: &mut String, i: i128)
    requires
        i > i128::MIN,
    ensures
        final(s)@ == old(s)@ + signed_dec(i as int),
{
    proof {
        reveal_strlit("-");
    }
    if i < 0 {
        s.append("-");
        push_decimal(s, (-i) as u128);
        assert(final(s)@ =~= old(s)@ + signed_dec(i as int));
    } else {
        push_decimal(s, i as u128);
    }
}

} // verus!
