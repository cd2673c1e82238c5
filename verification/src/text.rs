//! Small text builders: decimal numerals and the query-string form of a title.

use vstd::prelude::*;

verus! {

/// Appends one character. Calls `String::push`, which appends `c` to the
/// end of the string; the contract says so of the characters.
#[verifier::external_body]
pub(crate) fn push_char(s: &mut String, c: char)
    ensures
        final(s)@ == old(s)@.push(c),
{
    s.push(c)
}

/// The character of a decimal digit.
pub open spec fn digit_char(d: nat) -> char {
    if d == 0 { '0' }
    else if d == 1 { '1' }
    else if d == 2 { '2' }
    else if d == 3 { '3' }
    else if d == 4 { '4' }
    else if d == 5 { '5' }
    else if d == 6 { '6' }
    else if d == 7 { '7' }
    else if d == 8 { '8' }
    else { '9' }
}

/// The decimal numeral of `n`, without sign or leading zeros (`"0"` for zero).
pub open spec fn decimal(n: nat) -> Seq<char>
    decreases n,
{
    if n < 10 {
        seq![digit_char(n)]
    } else {
        decimal(n / 10).push(digit_char(n % 10))
    }
}

fn digit(d: u64) -> (c: char)
    requires
        d < 10,
    ensures
        c == digit_char(d as nat),
{
    match d {
        0 => '0',
        1 => '1',
        2 => '2',
        3 => '3',
        4 => '4',
        5 => '5',
        6 => '6',
        7 => '7',
        8 => '8',
        _ => '9',
    }
}

/// Appends the decimal numeral of `n`.
pub fn push_decimal(s: &mut String, n: u64)
    ensures
        final(s)@ == old(s)@ + decimal(n as nat),
    decreases n,
{
    if n >= 10 {
        push_decimal(s, n / 10);
    }
    push_char(s, digit(n % 10));
    assert(decimal(n as nat) == if n < 10 {
        seq![digit_char(n as nat)]
    } else {
        decimal((n / 10) as nat).push(digit_char((n % 10) as nat))
    });
}

/// A character with every space turned into a plus sign.
pub open spec fn plus_for_space(c: char) -> char {
    if c == ' ' { '+' } else { c }
}

/// A text with every space turned into a plus sign, as a query string
/// writes it.
pub open spec fn spaces_to_plus(s: Seq<char>) -> Seq<char> {
    s.map_values(|c: char| plus_for_space(c))
}

/// Appends `src` with every space turned into a plus sign.
pub fn push_spaces_to_plus(dst: &mut String, src: &str)
    ensures
        final(dst)@ == old(dst)@ + spaces_to_plus(src@),
{
    let ghost start = dst@;
    let n = src.unicode_len();
    let mut i: usize = 0;
    while i < n
        invariant
            n == src@.len(),
            i <= n,
            dst@ == start + spaces_to_plus(src@.take(i as int)),
        decreases n - i,
    {
        let c = src.get_char(i);
        push_char(dst, if c == ' ' { '+' } else { c });
        assert(src@.take(i + 1) =~= src@.take(i as int).push(c));
        assert(spaces_to_plus(src@.take(i + 1)) =~= spaces_to_plus(src@.take(i as int)).push(
            plus_for_space(c),
        ));
        i = i + 1;
    }
    assert(src@.take(n as int) =~= src@);
}

/// Turning spaces into plus signs keeps the length, leaves no space, and
/// changes no other character.
pub proof fn lemma_spaces_to_plus(s: Seq<char>)
    ensures
        spaces_to_plus(s).len() == s.len(),
        forall|i: int| 0 <= i < s.len() ==> #[trigger] spaces_to_plus(s)[i] != ' ',
        forall|i: int| 0 <= i < s.len() && s[i] != ' ' ==> #[trigger] spaces_to_plus(s)[i] == s[i],
        forall|i: int| 0 <= i < s.len() && s[i] == ' ' ==> #[trigger] spaces_to_plus(s)[i] == '+',
{
}

/// The number that a sequence of decimal digits reads, most significant first.
pub open spec fn digits_value(s: Seq<char>) -> int
    decreases s.len(),
{
    if s.len() == 0 {
        0
    } else {
        digits_value(s.drop_last()) * 10 + (s.last() as int - '0' as int)
    }
}

/// The numeral of `n` is made of decimal digits, reads `n` back, and starts
/// with a zero only where `n` is zero (and is then the single digit `0`).
pub proof fn lemma_decimal_reads_back(n: nat)
    ensures
        decimal(n).len() >= 1,
        forall|i: int| 0 <= i < decimal(n).len() ==> '0' <= #[trigger] decimal(n)[i] <= '9',
        digits_value(decimal(n)) == n,
        decimal(n)[0] == '0' ==> n == 0 && decimal(n).len() == 1,
    decreases n,
{
    if n >= 10 {
        lemma_decimal_reads_back(n / 10);
        let prev = decimal(n / 10);
        let d = digit_char(n % 10);
        assert(decimal(n) == prev.push(d));
        assert(decimal(n).drop_last() =~= prev);
        assert(d as int - '0' as int == n % 10);
        assert(decimal(n).last() == d);
        assert(digits_value(decimal(n)) == digits_value(prev) * 10 + (n % 10));
        assert((n / 10) * 10 + n % 10 == n);
        assert forall|i: int| 0 <= i < decimal(n).len() implies '0' <= #[trigger] decimal(n)[i] <= '9' by {
            if i < prev.len() {
                assert(decimal(n)[i] == prev[i]);
            }
        }
        assert(decimal(n)[0] == prev[0]);
    } else {
        let one = seq![digit_char(n)];
        assert(decimal(n) == one);
        assert(one.drop_last() =~= Seq::<char>::empty());
        assert(one.last() == digit_char(n));
        assert(digit_char(n) as int - '0' as int == n);
        assert(digits_value(one) == digits_value(one.drop_last()) * 10 + (one.last() as int - '0' as int));
    }
}

} // verus!
