//! Text helpers: decimal numerals and ASCII case-insensitive comparison.
use vstd::prelude::*;

verus! {

/// The character of a decimal digit.
pub open spec fn digit_char(d: nat) -> char {
    (48 + d) as char
}

/// The decimal numeral of `n`, most significant digit first, without leading zeros.
pub open spec fn decimal_text(n: nat) -> Seq<char>
    decreases n,
{
    if n < 10 {
        seq![digit_char(n)]
    } else {
        decimal_text(n / 10).push(digit_char(n % 10))
    }
}

/// Distinct numbers have distinct numerals.
pub proof fn lemma_decimal_text_injective(a: nat, b: nat)
    requires
        decimal_text(a) == decimal_text(b),
    ensures
        a == b,
    decreases a,
{
    lemma_decimal_text_len(a);
    lemma_decimal_text_len(b);
    let last_a = decimal_text(a).last();
    let last_b = decimal_text(b).last();
    assert(last_a == digit_char(a % 10));
    assert(last_b == digit_char(b % 10));
    assert(a % 10 == b % 10);
    if a >= 10 && b >= 10 {
        assert(decimal_text(a).drop_last() =~= decimal_text(a / 10));
        assert(decimal_text(b).drop_last() =~= decimal_text(b / 10));
        lemma_decimal_text_injective(a / 10, b / 10);
    } else if a >= 10 {
        lemma_decimal_text_len(a / 10);
        assert(decimal_text(a).len() >= 2);
    } else if b >= 10 {
        lemma_decimal_text_len(b / 10);
        assert(decimal_text(b).len() >= 2);
    }
}

/// The number that a row of decimal digits stands for.
pub open spec fn numeral_value(numeral: Seq<char>) -> int
    decreases numeral.len(),
{
    if numeral.len() == 0 {
        0
    } else {
        10 * numeral_value(numeral.drop_last()) + (numeral.last() as int - '0' as int)
    }
}

/// A numeral reads back as its number. It is made of digits, and it starts with a zero only where
/// it is the numeral of zero.
pub proof fn lemma_decimal_text_reads_back(n: nat)
    ensures
        numeral_value(decimal_text(n)) == n,
        decimal_text(n).len() >= 1,
        forall|k: int|
            0 <= k < decimal_text(n).len() ==> '0' <= #[trigger] decimal_text(n)[k] <= '9',
        decimal_text(n)[0] == '0' ==> n == 0 && decimal_text(n).len() == 1,
    decreases n,
{
    reveal_with_fuel(numeral_value, 2);
    let numeral = decimal_text(n);
    if n >= 10 {
        lemma_decimal_text_reads_back(n / 10);
        assert(numeral.drop_last() =~= decimal_text(n / 10));
        assert(numeral[0] == decimal_text(n / 10)[0]);
        assert forall|k: int| 0 <= k < numeral.len() implies '0' <= #[trigger] numeral[k]
            <= '9' by {
            if k < numeral.len() - 1 {
                assert(numeral[k] == decimal_text(n / 10)[k]);
            }
        }
    } else {
        assert(numeral.drop_last() =~= Seq::empty());
    }
}

proof fn lemma_decimal_text_len(n: nat)
    ensures
        decimal_text(n).len() >= 1,
{
}

/// The numeral of a single digit.
fn digit(d: usize) -> (res: &'static str)
    requires
        d < 10,
    ensures
        res@ == seq![digit_char(d as nat)],
{
    proof {
        reveal_strlit("0");
        reveal_strlit("1");
        reveal_strlit("2");
        reveal_strlit("3");
        reveal_strlit("4");
        reveal_strlit("5");
        reveal_strlit("6");
        reveal_strlit("7");
        reveal_strlit("8");
        reveal_strlit("9");
    }
    if d == 0 {
        "0"
    } else if d == 1 {
        "1"
    } else if d == 2 {
        "2"
    } else if d == 3 {
        "3"
    } else if d == 4 {
        "4"
    } else if d == 5 {
        "5"
    } else if d == 6 {
        "6"
    } else if d == 7 {
        "7"
    } else if d == 8 {
        "8"
    } else {
        "9"
    }
}

/// Writes `n` as a decimal numeral.
pub fn decimal(n: usize) -> (res: String)
    ensures
        res@ == decimal_text(n as nat),
        numeral_value(res@) == n,
    decreases n,
{
    let mut res = if n < 10 {
        String::new()
    } else {
        decimal(n / 10)
    };
    res.append(digit(n % 10));
    proof {
        assert(res@ =~= decimal_text(n as nat));
        lemma_decimal_text_reads_back(n as nat);
    }
    res
}

/// `c` with an ASCII capital letter turned into its small letter.
pub open spec fn ascii_lower(c: char) -> char {
    if 'A' <= c && c <= 'Z' {
        (c as int + 32) as char
    } else {
        c
    }
}

/// Whether `a` and `b` are the same text up to the case of ASCII letters.
pub open spec fn same_ignoring_ascii_case(a: Seq<char>, b: Seq<char>) -> bool {
    a.map_values(|c: char| ascii_lower(c)) == b.map_values(|c: char| ascii_lower(c))
}

/// `a` is an ASCII capital letter, and `b` its small letter.
pub open spec fn is_capital_of(a: char, b: char) -> bool {
    'A' <= a <= 'Z' && b as int == a as int + 32
}

/// The two characters are the same, or the two cases of one ASCII letter.
pub open spec fn same_letter(a: char, b: char) -> bool {
    a == b || is_capital_of(a, b) || is_capital_of(b, a)
}

/// Two texts are the same up to the case of ASCII letters exactly when they are equally long and
/// at each place have the same character, or the two cases of one ASCII letter.
pub proof fn lemma_same_ignoring_ascii_case(a: Seq<char>, b: Seq<char>)
    ensures
        same_ignoring_ascii_case(a, b) <==> a.len() == b.len() && forall|k: int|
            0 <= k < a.len() ==> same_letter(#[trigger] a[k], b[k]),
{
    let lower_a = a.map_values(|c: char| ascii_lower(c));
    let lower_b = b.map_values(|c: char| ascii_lower(c));
    if lower_a == lower_b {
        assert(lower_a.len() == lower_b.len());
        assert forall|k: int| 0 <= k < a.len() implies same_letter(#[trigger] a[k], b[k]) by {
            assert(lower_a[k] == lower_b[k]);
            lemma_same_letter(a[k], b[k]);
        }
    }
    if a.len() == b.len() && forall|k: int|
        0 <= k < a.len() ==> same_letter(#[trigger] a[k], b[k]) {
        assert forall|k: int| 0 <= k < a.len() implies lower_a[k] == lower_b[k] by {
            lemma_same_letter(a[k], b[k]);
        }
        assert(lower_a =~= lower_b);
    }
}

proof fn lemma_same_letter(a: char, b: char)
    ensures
        ascii_lower(a) == ascii_lower(b) <==> same_letter(a, b),
{
}

/// The code of `ascii_lower(c)`.
fn lower_code(c: char) -> (code: u32)
    ensures
        code == ascii_lower(c) as u32,
{
    if 'A' <= c && c <= 'Z' {
        c as u32 + 32
    } else {
        c as u32
    }
}

/// Compares two texts, taking an ASCII letter and its other case as the same.
pub fn eq_ignore_ascii_case(a: &str, b: &str) -> (res: bool)
    ensures
        res == same_ignoring_ascii_case(a@, b@),
        res <==> a@.len() == b@.len() && forall|k: int|
            0 <= k < a@.len() ==> same_letter(#[trigger] a@[k], b@[k]),
{
    proof {
        lemma_same_ignoring_ascii_case(a@, b@);
    }
    let ghost lower_a = a@.map_values(|c: char| ascii_lower(c));
    let ghost lower_b = b@.map_values(|c: char| ascii_lower(c));
    let len: usize = a.unicode_len();
    if len != b.unicode_len() {
        assert(lower_a.len() != lower_b.len());
        return false;
    }
    let mut i: usize = 0;
    while i < len
        invariant
            i <= len,
            len == a@.len(),
            len == b@.len(),
            lower_a == a@.map_values(|c: char| ascii_lower(c)),
            lower_b == b@.map_values(|c: char| ascii_lower(c)),
            forall|k: int| 0 <= k < i ==> #[trigger] lower_a[k] == lower_b[k],
        decreases len - i,
    {
        if lower_code(a.get_char(i)) != lower_code(b.get_char(i)) {
            assert(lower_a[i as int] != lower_b[i as int]);
            return false;
        }
        assert(lower_a[i as int] == lower_b[i as int]);
        i = i + 1;
    }
    assert(lower_a =~= lower_b);
    true
}

} // verus!
