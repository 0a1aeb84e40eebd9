use vstd::prelude::*;

verus! {

/// Decimal digit characters.
pub open spec fn is_digit(c: char) -> bool {
    '0' <= c && c <= '9'
}

pub open spec fn all_digits(s: Seq<char>) -> bool {
    forall|i: int| 0 <= i < s.len() ==> is_digit(#[trigger] s[i])
}

/// The numeric value of a digit character.
pub open spec fn digit_val(c: char) -> int {
    c as int - '0' as int
}

/// The digit character for a value below ten.
pub open spec fn spec_digit(d: int) -> char {
    if d == 0 {
        '0'
    } else if d == 1 {
        '1'
    } else if d == 2 {
        '2'
    } else if d == 3 {
        '3'
    } else if d == 4 {
        '4'
    } else if d == 5 {
        '5'
    } else if d == 6 {
        '6'
    } else if d == 7 {
        '7'
    } else if d == 8 {
        '8'
    } else {
        '9'
    }
}

/// The decimal representation of a number, most significant digit first.
pub open spec fn spec_u64_string(n: nat) -> Seq<char>
    decreases n,
{
    if n < 10 {
        seq![spec_digit(n as int)]
    } else {
        spec_u64_string(n / 10).push(spec_digit((n % 10) as int))
    }
}

/// The number a sequence of digit characters denotes.
pub open spec fn digits_value(s: Seq<char>) -> int
    decreases s.len(),
{
    if s.len() == 0 {
        0
    } else {
        digits_value(s.drop_last()) * 10 + digit_val(s.last())
    }
}

pub proof fn lemma_u64_string_digits(n: nat)
    ensures
        spec_u64_string(n).len() >= 1,
        all_digits(spec_u64_string(n)),
    decreases n,
{
    if n >= 10 {
        lemma_u64_string_digits(n / 10);
        let s = spec_u64_string(n);
        assert forall|i: int| 0 <= i < s.len() implies is_digit(#[trigger] s[i]) by {
            if i < s.len() - 1 {
                assert(s[i] == spec_u64_string(n / 10)[i]);
            }
        }
    }
}

/// Formatting a number and reading the digits back yields the number.
pub proof fn lemma_u64_string_value(n: nat)
    ensures
        digits_value(spec_u64_string(n)) == n,
    decreases n,
{
    if n < 10 {
        let s = spec_u64_string(n);
        assert(s.drop_last() =~= Seq::<char>::empty());
        assert(digits_value(Seq::<char>::empty()) == 0);
        assert(s.last() == spec_digit(n as int));
        assert(digit_val(spec_digit(n as int)) == n);
    } else {
        lemma_u64_string_value(n / 10);
        let s = spec_u64_string(n);
        assert(s.drop_last() =~= spec_u64_string(n / 10));
        assert(digit_val(s.last()) == n % 10);
        vstd::arithmetic::div_mod::lemma_fundamental_div_mod(n as int, 10);
    }
}

pub proof fn lemma_digits_value_nonneg(s: Seq<char>)
    requires
        all_digits(s),
    ensures
        digits_value(s) >= 0,
    decreases s.len(),
{
    if s.len() > 0 {
        assert forall|i: int| 0 <= i < s.drop_last().len() implies is_digit(
            #[trigger] s.drop_last()[i],
        ) by {
            assert(s.drop_last()[i] == s[i]);
        }
        lemma_digits_value_nonneg(s.drop_last());
        assert(is_digit(s[s.len() - 1]));
    }
}

/// Reading more digits never shrinks the denoted number.
pub proof fn lemma_digits_value_take_le(s: Seq<char>, m: int)
    requires
        all_digits(s),
        0 <= m <= s.len(),
    ensures
        digits_value(s.take(m)) <= digits_value(s),
    decreases s.len() - m,
{
    if m < s.len() {
        let t = s.take(m + 1);
        assert(t.drop_last() =~= s.take(m));
        assert(t.last() == s[m]);
        assert(is_digit(s[m]));
        assert forall|i: int| 0 <= i < t.len() implies is_digit(#[trigger] t[i]) by {
            assert(t[i] == s[i]);
        }
        assert forall|i: int| 0 <= i < s.take(m).len() implies is_digit(
            #[trigger] s.take(m)[i],
        ) by {
            assert(s.take(m)[i] == s[i]);
        }
        lemma_digits_value_nonneg(s.take(m));
        assert(digits_value(t) == digits_value(s.take(m)) * 10 + digit_val(s[m]));
        assert(digits_value(s.take(m)) * 10 >= digits_value(s.take(m))) by (nonlinear_arith)
            requires
                digits_value(s.take(m)) >= 0,
        ;
        lemma_digits_value_take_le(s, m + 1);
    } else {
        assert(s.take(m) =~= s);
    }
}

/// A run of digits closed off by a non-digit determines itself: if two such
/// runs make the same sequence, they are the same run.
pub proof fn lemma_digit_run_unique(a1: Seq<char>, c1: char, r1: Seq<char>, a2: Seq<char>, c2: char, r2: Seq<char>)
    requires
        all_digits(a1),
        all_digits(a2),
        !is_digit(c1),
        !is_digit(c2),
        a1 + seq![c1] + r1 == a2 + seq![c2] + r2,
    ensures
        a1 == a2,
        c1 == c2,
        r1 == r2,
    decreases a1.len(),
{
    let s1 = a1 + seq![c1] + r1;
    let s2 = a2 + seq![c2] + r2;
    if a1.len() == 0 {
        if a2.len() > 0 {
            assert(s1[0] == c1);
            assert(s2[0] == a2[0]);
            assert(is_digit(a2[0]));
            assert(false);
        }
        assert(a1 =~= a2);
        assert(s1[0] == c1 && s2[0] == c2);
        assert(s1.len() == s2.len());
        assert(r1.len() == r2.len());
        assert(r1 =~= r2) by {
            assert forall|i: int| 0 <= i < r1.len() implies r1[i] == r2[i] by {
                assert(s1[1 + i] == r1[i]);
                assert(s2[1 + i] == r2[i]);
            }
        }
    } else {
        if a2.len() == 0 {
            assert(s2[0] == c2);
            assert(s1[0] == a1[0]);
            assert(is_digit(a1[0]));
            assert(false);
        }
        assert(s1[0] == a1[0] && s2[0] == a2[0]);
        let b1 = a1.subrange(1, a1.len() as int);
        let b2 = a2.subrange(1, a2.len() as int);
        assert(b1 + seq![c1] + r1 =~= s1.subrange(1, s1.len() as int));
        assert(b2 + seq![c2] + r2 =~= s2.subrange(1, s2.len() as int));
        assert(all_digits(b1));
        assert(all_digits(b2));
        lemma_digit_run_unique(b1, c1, r1, b2, c2, r2);
        assert(a1 =~= seq![a1[0]] + b1);
        assert(a2 =~= seq![a2[0]] + b2);
    }
}

/// The digit character for a value below ten.
fn digit_str(d: u64) -> (r: &'static str)
    requires
        d < 10,
    ensures
        r@ =~= seq![spec_digit(d as int)],
{
    proof {
        reveal_strlit("0");
        reveal_strlit("1");
        reveal_strlit("2");
        reveal_strlit("3");
        reveal_strlit("4");
        reveal_strlit("5");
        reveal_strlit("6");
        reveal_strlit("7");
        reveal_strlit("8");
        reveal_strlit("9");
    }
    if d == 0 {
        "0"
    } else if d == 1 {
        "1"
    } else if d == 2 {
        "2"
    } else if d == 3 {
        "3"
    } else if d == 4 {
        "4"
    } else if d == 5 {
        "5"
    } else if d == 6 {
        "6"
    } else if d == 7 {
        "7"
    } else if d == 8 {
        "8"
    } else {
        "9"
    }
}

/// Format a number in decimal.
pub fn u64_to_string(n: u64) -> (r: String)
    ensures
        r@ == spec_u64_string(n as nat),
    decreases n,
{
    if n < 10 {
        String::from_str(digit_str(n))
    } else {
        let mut s = u64_to_string(n / 10);
        s.append(digit_str(n % 10));
        proof {
            assert(s@ =~= spec_u64_string(n as nat));
        }
        s
    }
}

} // verus!
