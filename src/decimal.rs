use vstd::prelude::*;
use vstd::math::abs;
use vstd::utf8::is_ascii_chars;

verus! {

/// The ASCII digit for `d < 10`.
pub open spec fn digit_char(d: nat) -> char {
    seq!['0', '1', '2', '3', '4', '5', '6', '7', '8', '9'][d as int]
}

/// The decimal digits of `n`, most significant first, with no leading zero.
pub open spec fn digits(n: nat) -> Seq<char>
    decreases n,
{
    if n < 10 {
        seq![digit_char(n)]
    } else {
        digits(n / 10).push(digit_char(n % 10))
    }
}

/// The decimal form of an integer: a `-` in front of a negative one.
pub open spec fn decimal(n: int) -> Seq<char> {
    if n < 0 {
        seq!['-'] + digits((-n) as nat)
    } else {
        digits(n as nat)
    }
}

pub proof fn lemma_digits_ascii(n: nat)
    ensures
        is_ascii_chars(digits(n)),
        1 <= digits(n).len() <= 1 + n / 10,
        forall|i: int| 0 <= i < digits(n).len() ==> '0' <= #[trigger] digits(n)[i] <= '9',
    decreases n,
{
    if n >= 10 {
        lemma_digits_ascii(n / 10);
        assert(n / 10 / 10 + 1 <= n / 10) by (nonlinear_arith)
            requires
                n >= 10,
        ;
    }
}

pub proof fn lemma_decimal_ascii(n: int)
    ensures
        is_ascii_chars(decimal(n)),
        1 <= decimal(n).len() <= 2 + abs(n) / 10,
{
    lemma_digits_ascii(abs(n) as nat);
    if n < 0 {
        let d = digits((-n) as nat);
        assert forall|i: int| 0 <= i < decimal(n).len() implies '\0' <= #[trigger] decimal(n)[i]
            <= '\u{7f}' by {
            if i > 0 {
                assert(decimal(n)[i] == d[i - 1]);
            }
        }
    }
}

proof fn lemma_digits_injective(a: nat, b: nat)
    requires
        digits(a) == digits(b),
    ensures
        a == b,
    decreases a,
{
    lemma_digits_ascii(a / 10);
    lemma_digits_ascii(b / 10);
    if a < 10 && b < 10 {
        assert(digits(a)[0] == digit_char(a));
    } else if a >= 10 && b >= 10 {
        let (da, db) = (digits(a), digits(b));
        assert(da.last() == digit_char(a % 10));
        assert(db.last() == digit_char(b % 10));
        assert(digits(a / 10) =~= da.drop_last());
        assert(digits(b / 10) =~= db.drop_last());
        lemma_digits_injective(a / 10, b / 10);
    } else if a < 10 {
        assert(digits(a).len() == 1);
        assert(digits(b).len() == digits(b / 10).len() + 1);
    } else {
        assert(digits(b).len() == 1);
        assert(digits(a).len() == digits(a / 10).len() + 1);
    }
}

/// Different integers have different decimal forms.
pub proof fn lemma_decimal_injective(a: int, b: int)
    requires
        decimal(a) == decimal(b),
    ensures
        a == b,
{
    lemma_digits_ascii(abs(a) as nat);
    lemma_digits_ascii(abs(b) as nat);
    if a < 0 && b < 0 {
        assert(digits((-a) as nat) =~= decimal(a).drop_first());
        assert(digits((-b) as nat) =~= decimal(b).drop_first());
        lemma_digits_injective((-a) as nat, (-b) as nat);
    } else if a >= 0 && b >= 0 {
        lemma_digits_injective(a as nat, b as nat);
    } else if a < 0 {
        assert(decimal(a)[0] == '-');
        assert('0' <= digits(b as nat)[0] <= '9');
    } else {
        assert(decimal(b)[0] == '-');
        assert('0' <= digits(a as nat)[0] <= '9');
    }
}

fn digit_str(d: u64) -> (r: &'static str)
    requires
        d < 10,
    ensures
        r@ == seq![digit_char(d as nat)],
{
    proof {
        reveal_strlit("0");
        reveal_strlit("1");
        reveal_strlit("2");
        reveal_strlit("3");
        reveal_strlit("4");
        reveal_strlit("5");
        reveal_strlit("6");
        reveal_strlit("7");
        reveal_strlit("8");
        reveal_strlit("9");
    }
    match d {
        0 => "0",
        1 => "1",
        2 => "2",
        3 => "3",
        4 => "4",
        5 => "5",
        6 => "6",
        7 => "7",
        8 => "8",
        _ => "9",
    }
}

fn append_digits(s: &mut String, n: u64)
    ensures
        final(s)@ == old(s)@ + digits(n as nat),
    decreases n,
{
    if n >= 10 {
        append_digits(s, n / 10);
    }
    s.append(digit_str(n % 10));
    proof {
        assert(final(s)@ =~= old(s)@ + digits(n as nat));
    }
}

/// The decimal form of `n`, as `i64`'s `to_string` writes it.
pub fn decimal_text(n: i64) -> (r: String)
    ensures
        r@ == decimal(n as int),
{
    let mut s = String::new();
    if n < 0 {
        s.append("-");
        proof {
            reveal_strlit("-");
        }
    }
    let m: u64 = if n < 0 {
        (-(n as i128)) as u64
    } else {
        n as u64
    };
    append_digits(&mut s, m);
    proof {
        assert(s@ =~= decimal(n as int));
    }
    s
}

} // verus!
