//! Characters, decimal numbers and the few string operations that the other modules build on.

use vstd::prelude::*;
use vstd::string::*;

verus! {

/// `String::push` appends one character to the text.
pub assume_specification[ String::push ](s: &mut String, c: char)
    ensures
        final(s)@ == old(s)@.push(c),
;

/// Whether `c` is one of the ten ASCII digits.
pub open spec fn is_digit(c: char) -> bool {
    '0' <= c && c <= '9'
}

/// The ASCII digit of a number below ten.
pub open spec fn digit_char(d: nat) -> char {
    ('0' as int + d) as char
}

/// The decimal numeral of `n`, without sign and without leading zeros.
pub open spec fn decimal(n: nat) -> Seq<char>
    decreases n,
{
    if n < 10 {
        seq![digit_char(n)]
    } else {
        decimal(n / 10).push(digit_char(n % 10))
    }
}

/// The number that a run of digits denotes.
pub open spec fn digits_value(s: Seq<char>) -> nat
    decreases s.len(),
{
    if s.len() == 0 {
        0
    } else {
        (digits_value(s.drop_last()) * 10 + (s.last() as int - '0' as int)) as nat
    }
}

/// Whether every character of `s` is an ASCII digit.
pub open spec fn all_digits(s: Seq<char>) -> bool {
    forall|i: int| 0 <= i < s.len() ==> is_digit(#[trigger] s[i])
}

/// The number that `s` denotes: an optional plus sign followed by one or more digits.
pub open spec fn number_value(s: Seq<char>) -> Option<nat> {
    let digits = if s.len() > 0 && s[0] == '+' {
        s.skip(1)
    } else {
        s
    };
    if digits.len() > 0 && all_digits(digits) {
        Some(digits_value(digits))
    } else {
        None
    }
}

/// The number that `s` denotes, where it fits in 64 bits.
pub open spec fn u64_value(s: Seq<char>) -> Option<u64> {
    match number_value(s) {
        Some(n) => if n <= u64::MAX {
            Some(n as u64)
        } else {
            None
        },
        None => None,
    }
}

/// The lower-case hexadecimal digit of a number below sixteen.
pub open spec fn hex_digit(d: int) -> char {
    if d < 10 {
        ('0' as int + d) as char
    } else {
        ('a' as int + d - 10) as char
    }
}

/// The lower-case hexadecimal text of a byte string, two digits for each byte.
pub open spec fn hex_text(bytes: Seq<u8>) -> Seq<char> {
    Seq::new(
        bytes.len() * 2,
        |i: int|
            if i % 2 == 0 {
                hex_digit(bytes[i / 2] as int / 16)
            } else {
                hex_digit(bytes[i / 2] as int % 16)
            },
    )
}

/// `s` with every occurrence of `c` taken out.
pub open spec fn without(s: Seq<char>, c: char) -> Seq<char> {
    s.filter(differs_from(c))
}

/// The test for being another character than `c`.
pub open spec fn differs_from(c: char) -> spec_fn(char) -> bool {
    |d: char| d != c
}

/// The decimal numeral of a number holds only digits, at least one, and denotes that number.
pub proof fn lemma_decimal_digits(n: nat)
    ensures
        decimal(n).len() > 0,
        all_digits(decimal(n)),
        digits_value(decimal(n)) == n,
    decreases n,
{
    if n < 10 {
        let s = decimal(n);
        assert(s.drop_last() =~= Seq::<char>::empty());
        assert(digits_value(s.drop_last()) == 0);
    } else {
        lemma_decimal_digits(n / 10);
        let s = decimal(n);
        assert(s.drop_last() =~= decimal(n / 10));
    }
}

/// Reading the decimal numeral of a number gives the number back.
pub proof fn lemma_number_of_decimal(n: nat)
    ensures
        number_value(decimal(n)) == Some(n),
{
    lemma_decimal_digits(n);
    let s = decimal(n);
    assert(is_digit(s[0]));
}

/// Digits in front make a number no smaller.
proof fn lemma_digits_value_prefix(s: Seq<char>, k: int)
    requires
        0 <= k <= s.len(),
        all_digits(s),
    ensures
        digits_value(s.take(k)) <= digits_value(s),
    decreases s.len(),
{
    if k == s.len() {
        assert(s.take(k) =~= s);
    } else {
        assert(s.drop_last().take(k) =~= s.take(k));
        assert(forall|i: int| 0 <= i < s.drop_last().len() ==> s.drop_last()[i] == s[i]);
        lemma_digits_value_prefix(s.drop_last(), k);
        assert(is_digit(s[s.len() - 1]));
    }
}

/// Taking a character out drops each occurrence of it and keeps all other characters in order.
pub proof fn law_without_keeps_the_rest(s: Seq<char>, d: char, c: char)
    ensures
        without(Seq::empty(), c).len() == 0,
        without(s.push(c), c) == without(s, c),
        d != c ==> without(s.push(d), c) == without(s, c).push(d),
{
    reveal(Seq::filter);
    assert(s.push(c).drop_last() =~= s);
    assert(s.push(d).drop_last() =~= s);
}

/// A text that holds a character nowhere is left as it is when the character is taken out, and
/// nothing is left of the character when it is taken out of any text.
pub proof fn law_without_leaves_none(s: Seq<char>, c: char)
    ensures
        !without(s, c).contains(c),
        without(s, c).len() <= s.len(),
        !s.contains(c) ==> without(s, c) == s,
    decreases s.len(),
{
    reveal(Seq::filter);
    if s.len() > 0 {
        law_without_leaves_none(s.drop_last(), c);
        let front = without(s.drop_last(), c);
        let last = s.last();
        if without(s, c).contains(c) {
            let i = choose|i: int| 0 <= i < without(s, c).len() && without(s, c)[i] == c;
            if i < front.len() {
                assert(front[i] == c);
            }
        }
        if !s.contains(c) {
            assert(s[s.len() - 1] != c);
            if s.drop_last().contains(c) {
                let i = choose|i: int| 0 <= i < s.drop_last().len() && s.drop_last()[i] == c;
                assert(s[i] == c);
            }
            assert(s.drop_last().push(last) =~= s);
        }
    } else {
        assert(without(s, c) =~= s);
    }
}

/// A number is read back from its numeral, with a plus sign in front or without, and the numeral of
/// a number above zero does not begin with a zero.
pub proof fn law_numeral_reads_back(n: u64)
    ensures
        u64_value(decimal(n as nat)) == Some(n),
        u64_value(seq!['+'] + decimal(n as nat)) == Some(n),
        n > 0 ==> decimal(n as nat)[0] != '0',
        n < 10 ==> decimal(n as nat).len() == 1,
        n >= 10 ==> decimal(n as nat).len() == decimal(n as nat / 10).len() + 1,
{
    lemma_number_of_decimal(n as nat);
    lemma_decimal_digits(n as nat);
    let s = seq!['+'] + decimal(n as nat);
    assert(s.skip(1) =~= decimal(n as nat));
    lemma_no_leading_zero(n as nat);
}

proof fn lemma_no_leading_zero(n: nat)
    ensures
        n > 0 ==> decimal(n)[0] != '0',
        decimal(n).len() > 0,
    decreases n,
{
    if n >= 10 {
        lemma_no_leading_zero(n / 10);
        assert(decimal(n)[0] == decimal(n / 10)[0]);
    }
}

/// A text without the plus sign that may stand in front.
pub open spec fn without_plus(s: Seq<char>) -> Seq<char> {
    if s.len() > 0 && s[0] == '+' {
        s.subrange(1, s.len() as int)
    } else {
        s
    }
}

/// A text denotes a number exactly where it is one or more of the ten digits, with a plus sign in
/// front or without, and the number fits in 64 bits.
pub proof fn law_what_is_a_number(s: Seq<char>)
    ensures
        u64_value(s) is Some ==> without_plus(s).len() > 0 && u64_value(s)->0 == digits_value(
            without_plus(s),
        ),
        u64_value(s) is Some ==> forall|i: int|
            0 <= i < without_plus(s).len() ==> 48 <= (#[trigger] without_plus(s)[i]) as int <= 57,
        u64_value(s) is None ==> without_plus(s).len() == 0 || digits_value(without_plus(s))
            > 0xffff_ffff_ffff_ffff || exists|i: int|
            0 <= i < without_plus(s).len() && !(48 <= (#[trigger] without_plus(s)[i]) as int <= 57),
{
    let d = without_plus(s);
    if s.len() > 0 && s[0] == '+' {
        assert(d =~= s.skip(1));
    }
    if all_digits(d) {
        assert forall|i: int| 0 <= i < d.len() implies 48 <= (#[trigger] d[i]) as int <= 57 by {
            assert(is_digit(d[i]));
        }
    } else {
        let i = choose|i: int| 0 <= i < d.len() && !is_digit(#[trigger] d[i]);
        assert(!(48 <= d[i] as int <= 57));
    }
}

/// Each further digit of a number counts ten times the number so far.
pub proof fn law_digits_count_by_tens(s: Seq<char>, c: char)
    requires
        48 <= c as int <= 57,
    ensures
        digits_value(Seq::empty()) == 0,
        digits_value(s.push(c)) == 10 * digits_value(s) + (c as int - 48),
{
    assert(s.push(c).drop_last() =~= s);
}

/// The text of a byte string shows each byte by its two lower-case hexadecimal digits, in order.
pub proof fn law_hex_text_shows_each_byte(bytes: Seq<u8>, i: int)
    requires
        0 <= i < bytes.len(),
    ensures
        hex_text(bytes).len() == 2 * bytes.len(),
        hex_text(bytes)[2 * i] == "0123456789abcdef"@[bytes[i] as int / 16],
        hex_text(bytes)[2 * i + 1] == "0123456789abcdef"@[bytes[i] as int % 16],
{
    reveal_strlit("0123456789abcdef");
    assert((2 * i) / 2 == i && (2 * i) % 2 == 0);
    assert((2 * i + 1) / 2 == i && (2 * i + 1) % 2 == 1);
    lemma_hex_digit(bytes[i] as int / 16);
    lemma_hex_digit(bytes[i] as int % 16);
}

proof fn lemma_hex_digit(d: int)
    requires
        0 <= d < 16,
    ensures
        hex_digit(d) == "0123456789abcdef"@[d],
{
    reveal_strlit("0123456789abcdef");
}

/// The characters of a string.
pub fn chars_of(s: &str) -> (r: Vec<char>)
    ensures
        r@ == s@,
{
    let mut r: Vec<char> = Vec::new();
    for c in it: s.chars()
        invariant
            r@ == it.seq().take(it.index()),
            it.seq() == s@,
    {
        r.push(c);
    }
    assert(s@.take(s@.len() as int) =~= s@);
    r
}

/// `s` with every occurrence of `c` taken out.
pub fn remove_char(s: &str, c: char) -> (r: String)
    ensures
        r@ == without(s@, c),
{
    let mut r: String = String::new();
    let ghost keep = differs_from(c);
    for d in it: s.chars()
        invariant
            it.seq() == s@,
            keep == differs_from(c),
            r@ == it.seq().take(it.index()).filter(keep),
    {
        proof {
            let i = it.index();
            assert(s@.take(i + 1).drop_last() =~= s@.take(i));
            reveal(Seq::filter);
        }
        if d != c {
            r.push(d);
        }
    }
    assert(s@.take(s@.len() as int) =~= s@);
    r
}

fn digit(d: u64) -> (r: char)
    requires
        d < 10,
    ensures
        r == digit_char(d as nat),
{
    if d == 0 {
        '0'
    } else if d == 1 {
        '1'
    } else if d == 2 {
        '2'
    } else if d == 3 {
        '3'
    } else if d == 4 {
        '4'
    } else if d == 5 {
        '5'
    } else if d == 6 {
        '6'
    } else if d == 7 {
        '7'
    } else if d == 8 {
        '8'
    } else {
        '9'
    }
}

/// Appends the decimal numeral of `n` to `out`.
pub fn push_decimal(out: &mut String, n: u64)
    ensures
        final(out)@ == old(out)@ + decimal(n as nat),
    decreases n,
{
    if n < 10 {
        out.push(digit(n));
    } else {
        push_decimal(out, n / 10);
        out.push(digit(n % 10));
    }
    assert(out@ =~= old(out)@ + decimal(n as nat));
}

/// The decimal numeral of `n`.
pub fn decimal_string(n: u64) -> (r: String)
    ensures
        r@ == decimal(n as nat),
{
    let mut r: String = String::new();
    push_decimal(&mut r, n);
    assert(r@ =~= decimal(n as nat));
    r
}

/// Reads an unsigned 64-bit number: an optional plus sign and one or more digits, nothing else.
pub fn parse_u64(cs: &Vec<char>) -> (r: Option<u64>)
    ensures
        r == u64_value(cs@),
{
    let start: usize = if cs.len() > 0 && cs[0] == '+' {
        1
    } else {
        0
    };
    let ghost digits = if cs@.len() > 0 && cs@[0] == '+' {
        cs@.skip(1)
    } else {
        cs@
    };
    assert(digits =~= cs@.skip(start as int));
    if start == cs.len() {
        return None;
    }
    let mut value: u64 = 0;
    let mut i: usize = start;
    while i < cs.len()
        invariant
            start <= i <= cs.len(),
            digits == cs@.skip(start as int),
            digits.len() > 0,
            number_value(cs@) == (if all_digits(digits) {
                Some(digits_value(digits))
            } else {
                None
            }),
            forall|k: int| 0 <= k < i - start ==> is_digit(#[trigger] digits[k]),
            value == digits_value(digits.take(i - start)),
        decreases cs.len() - i,
    {
        let c = cs[i];
        assert(digits[i - start] == c);
        if !('0' <= c && c <= '9') {
            return None;
        }
        let d: u64 = (c as u32 - '0' as u32) as u64;
        let ghost next = digits.take(i - start + 1);
        proof {
            assert(next.drop_last() =~= digits.take(i - start));
            assert(digits_value(next) == value * 10 + d);
            if all_digits(digits) {
                lemma_digits_value_prefix(digits, i - start + 1);
            }
        }
        if value > (u64::MAX - d) / 10 {
            return None;
        }
        value = value * 10 + d;
        i = i + 1;
    }
    assert(digits.take(digits.len() as int) =~= digits);
    Some(value)
}

} // verus!
