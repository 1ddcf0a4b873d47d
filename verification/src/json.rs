//! JSON values as the node hands them over, seen through their compact text.

use crate::text::{
    decimal, differs_from, hex_digit, is_digit, law_without_leaves_none, lemma_decimal_digits,
    remove_char, without,
};
use vstd::prelude::*;
use vstd::string::*;

verus! {

/// `serde_json::Value`, a JSON value.
#[verifier::external_type_specification]
#[verifier::external_body]
pub struct ExValue(serde_json::Value);

/// The compact JSON text of a value, which holds all that the value holds.
pub uninterp spec fn json_text(v: serde_json::Value) -> Seq<char>;

/// The members of the object that a compact JSON text denotes, each with its own compact text;
/// empty where the text is not that of an object.
pub uninterp spec fn json_members(text: Seq<char>) -> Map<Seq<char>, Seq<char>>;

/// The elements of the array that a compact JSON text denotes, each as its own compact text;
/// empty where the text is not that of an array.
pub uninterp spec fn json_elements(text: Seq<char>) -> Seq<Seq<char>>;

/// How a character stands inside a JSON string.
pub open spec fn escaped(c: char) -> Seq<char> {
    if c == '"' {
        seq!['\\', '"']
    } else if c == '\\' {
        seq!['\\', '\\']
    } else if c == '\u{8}' {
        seq!['\\', 'b']
    } else if c == '\t' {
        seq!['\\', 't']
    } else if c == '\n' {
        seq!['\\', 'n']
    } else if c == '\u{c}' {
        seq!['\\', 'f']
    } else if c == '\r' {
        seq!['\\', 'r']
    } else if (c as int) < 0x20 {
        seq!['\\', 'u', '0', '0', hex_digit(c as int / 16), hex_digit(c as int % 16)]
    } else {
        seq![c]
    }
}

/// A text with each character as it stands inside a JSON string.
pub open spec fn escaped_all(s: Seq<char>) -> Seq<char>
    decreases s.len(),
{
    if s.len() == 0 {
        Seq::empty()
    } else {
        escaped(s.first()) + escaped_all(s.drop_first())
    }
}

/// The JSON text of a string.
pub open spec fn quoted(s: Seq<char>) -> Seq<char> {
    seq!['"'] + escaped_all(s) + seq!['"']
}

/// Whether `s` stands in a JSON string as it is, and holds no quote.
pub open spec fn is_plain(s: Seq<char>) -> bool {
    forall|i: int|
        0 <= i < s.len() ==> (#[trigger] s[i]) as int >= 0x20 && s[i] != '"' && s[i] != '\\'
}

/// The member of an object under a key; nothing where there is no such member or no object.
pub open spec fn member(text: Option<Seq<char>>, key: Seq<char>) -> Option<Seq<char>> {
    match text {
        Some(t) => if json_members(t).contains_key(key) {
            Some(json_members(t)[key])
        } else {
            None
        },
        None => None,
    }
}

/// The element of an array at an index; nothing where there is no such element or no array.
pub open spec fn element(text: Seq<char>, i: int) -> Option<Seq<char>> {
    if 0 <= i < json_elements(text).len() {
        Some(json_elements(text)[i])
    } else {
        None
    }
}

/// The text that is shown for what may be missing: a missing value shows as null. Quotes are left
/// out.
pub open spec fn bare_text(text: Option<Seq<char>>) -> Seq<char> {
    match text {
        Some(t) => without(t, '"'),
        None => seq!['n', 'u', 'l', 'l'],
    }
}

/// A compact JSON text as a string: the string that it denotes.
pub open spec fn string_in(text: Option<Seq<char>>) -> Option<Seq<char>> {
    if text is Some && exists|s: Seq<char>| text->0 == #[trigger] quoted(s) {
        Some(choose|s: Seq<char>| text->0 == #[trigger] quoted(s))
    } else {
        None
    }
}

/// A compact JSON text as a number: the unsigned 64-bit number that it denotes.
pub open spec fn u64_in(text: Option<Seq<char>>) -> Option<u64> {
    if text is Some && exists|n: u64| text->0 == #[trigger] decimal(n as nat) {
        Some(choose|n: u64| text->0 == #[trigger] decimal(n as nat))
    } else {
        None
    }
}

/// The compact text of a value.
pub open spec fn text_of(v: Option<&serde_json::Value>) -> Option<Seq<char>> {
    match v {
        Some(v) => Some(json_text(*v)),
        None => None,
    }
}

/// `serde_json::Value::get` with a key: the member of an object, nothing for a missing key or a
/// value that is not an object.
#[verifier::external_body]
fn json_get<'a>(v: &'a serde_json::Value, key: &str) -> (r: Option<&'a serde_json::Value>)
    ensures
        match r {
            Some(m) => json_members(json_text(*v)).contains_key(key@) && json_text(*m)
                == json_members(json_text(*v))[key@],
            None => !json_members(json_text(*v)).contains_key(key@),
        },
{
    v.get(key)
}

/// `serde_json::Value::get` with a position: the element of an array, nothing beyond its end or
/// for a value that is not an array.
#[verifier::external_body]
fn json_at(v: &serde_json::Value, i: usize) -> (r: Option<&serde_json::Value>)
    ensures
        match r {
            Some(e) => i < json_elements(json_text(*v)).len() && json_text(*e) == json_elements(
                json_text(*v),
            )[i as int],
            None => i >= json_elements(json_text(*v)).len(),
        },
{
    v.get(i)
}

/// `serde_json::Value::as_str`: the string that a value is, nothing for any other value. The
/// compact text of a value is that of a string exactly where the value is that string.
#[verifier::external_body]
fn json_str(v: &serde_json::Value) -> (r: Option<&str>)
    ensures
        match r {
            Some(s) => json_text(*v) == quoted(s@),
            None => forall|s: Seq<char>| json_text(*v) != #[trigger] quoted(s),
        },
{
    v.as_str()
}

/// `serde_json::Value::as_u64`: the unsigned 64-bit integer that a value is, nothing for any other
/// value. The compact text of a value is a numeral without sign, point or exponent exactly where
/// the value is that integer.
#[verifier::external_body]
fn json_u64(v: &serde_json::Value) -> (r: Option<u64>)
    ensures
        match r {
            Some(n) => json_text(*v) == decimal(n as nat),
            None => forall|n: u64| json_text(*v) != #[trigger] decimal(n as nat),
        },
{
    v.as_u64()
}

/// `to_string` of a `serde_json::Value`, which is also what `serde_json::to_string` gives: the
/// compact text.
#[verifier::external_body]
fn json_to_string(v: &serde_json::Value) -> (r: String)
    ensures
        r@ == json_text(*v),
{
    v.to_string()
}

/// Two strings never share a JSON text.
pub proof fn law_quoted_injective(a: Seq<char>, b: Seq<char>)
    requires
        quoted(a) == quoted(b),
    ensures
        a == b,
{
    assert(escaped_all(a) =~= quoted(a).subrange(1, quoted(a).len() - 1));
    assert(escaped_all(b) =~= quoted(b).subrange(1, quoted(b).len() - 1));
    lemma_escaped_injective(a, b);
}

proof fn lemma_control_escape(c: char, d: char)
    requires
        (c as int) < 0x20,
        (d as int) < 0x20,
        hex_digit(c as int / 16) == hex_digit(d as int / 16),
        hex_digit(c as int % 16) == hex_digit(d as int % 16),
    ensures
        c == d,
{
}

proof fn lemma_escaped_injective(a: Seq<char>, b: Seq<char>)
    requires
        escaped_all(a) == escaped_all(b),
    ensures
        a == b,
    decreases a.len(),
{
    if a.len() == 0 || b.len() == 0 {
        if a.len() > 0 {
            assert(escaped_all(a)[0] == escaped(a.first())[0]);
        }
        if b.len() > 0 {
            assert(escaped_all(b)[0] == escaped(b.first())[0]);
        }
        assert(a =~= b);
    } else {
        let ea = escaped(a.first());
        let eb = escaped(b.first());
        let t = escaped_all(a);
        assert(ea =~= t.take(ea.len() as int));
        assert(eb =~= t.take(eb.len() as int));
        assert(ea[0] == t[0] && eb[0] == t[0]);
        if t[0] == '\\' {
            assert(ea[1] == t[1] && eb[1] == t[1]);
            if t[1] == 'u' {
                assert(ea[4] == t[4] && eb[4] == t[4] && ea[5] == t[5] && eb[5] == t[5]);
                lemma_control_escape(a.first(), b.first());
            }
        }
        assert(a.first() == b.first());
        assert(escaped_all(a.drop_first()) =~= t.skip(ea.len() as int));
        assert(escaped_all(b.drop_first()) =~= t.skip(eb.len() as int));
        lemma_escaped_injective(a.drop_first(), b.drop_first());
        assert(a =~= seq![a.first()] + a.drop_first());
        assert(b =~= seq![b.first()] + b.drop_first());
    }
}

/// Two numbers never share a numeral.
pub proof fn law_decimal_injective(a: nat, b: nat)
    requires
        decimal(a) == decimal(b),
    ensures
        a == b,
{
    lemma_decimal_digits(a);
    lemma_decimal_digits(b);
}

/// A string without quotes, backslashes and control characters is what is left of its JSON text
/// when the quotes are taken out.
pub proof fn law_bare_text_of_plain_string(s: Seq<char>)
    requires
        is_plain(s),
    ensures
        bare_text(Some(quoted(s))) == s,
{
    lemma_escaped_plain(s);
    let keep = differs_from('"');
    let q = seq!['"'];
    Seq::filter_distributes_over_add(q + s, q, keep);
    Seq::filter_distributes_over_add(q, s, keep);
    lemma_filter_all(s, keep);
    reveal_with_fuel(Seq::filter, 2);
    assert(q.drop_last() =~= Seq::<char>::empty());
    assert(q.filter(keep) =~= Seq::<char>::empty());
    assert(without(quoted(s), '"') =~= s);
}

proof fn lemma_escaped_plain(s: Seq<char>)
    requires
        is_plain(s),
    ensures
        escaped_all(s) == s,
    decreases s.len(),
{
    if s.len() > 0 {
        assert forall|i: int| 0 <= i < s.drop_first().len() implies (
        #[trigger] s.drop_first()[i]) as int >= 0x20 && s.drop_first()[i] != '"'
            && s.drop_first()[i] != '\\' by {
            assert(s.drop_first()[i] == s[i + 1]);
        }
        lemma_escaped_plain(s.drop_first());
        assert(s[0] == s.first());
        assert(escaped(s.first()) + s.drop_first() =~= s);
    }
}

proof fn lemma_filter_all(s: Seq<char>, keep: spec_fn(char) -> bool)
    requires
        forall|i: int| 0 <= i < s.len() ==> keep(#[trigger] s[i]),
    ensures
        s.filter(keep) == s,
    decreases s.len(),
{
    reveal(Seq::filter);
    if s.len() > 0 {
        assert(forall|i: int| 0 <= i < s.drop_last().len() ==> s.drop_last()[i] == s[i]);
        lemma_filter_all(s.drop_last(), keep);
        assert(keep(s[s.len() - 1]));
        assert(s.drop_last().push(s.last()) =~= s);
    }
}

/// A number shows as its numeral.
pub proof fn law_bare_text_of_number(n: u64)
    ensures
        bare_text(Some(decimal(n as nat))) == decimal(n as nat),
{
    lemma_decimal_digits(n as nat);
    let s = decimal(n as nat);
    assert forall|i: int| 0 <= i < s.len() implies differs_from('"')(#[trigger] s[i]) by {
        assert(is_digit(s[i]));
    }
    lemma_filter_all(s, differs_from('"'));
}

/// What is held of a value is its compact text, and nothing of one that is missing.
pub proof fn law_text_of_a_value(v: serde_json::Value)
    ensures
        text_of(Some(&v)) == Some(json_text(v)),
        text_of(None) is None,
{
}

/// A member is the one that the object holds under the key, and missing exactly where the object
/// holds none or there is no object; an element likewise.
pub proof fn law_members_and_elements(text: Seq<char>, key: Seq<char>, i: int)
    ensures
        json_members(text).contains_key(key) ==> member(Some(text), key) == Some(
            json_members(text)[key],
        ),
        !json_members(text).contains_key(key) ==> member(Some(text), key) is None,
        member(None, key) is None,
        0 <= i < json_elements(text).len() ==> element(text, i) == Some(json_elements(text)[i]),
        i < 0 || i >= json_elements(text).len() ==> element(text, i) is None,
{
}

/// The JSON text of a string reads as that string and of a number as that number; what reads as a
/// string or a number is the JSON text of it; what is missing reads as neither.
pub proof fn law_strings_and_numbers_read_back(s: Seq<char>, n: u64, text: Seq<char>)
    ensures
        string_in(Some(quoted(s))) == Some(s),
        u64_in(Some(decimal(n as nat))) == Some(n),
        string_in(Some(text)) matches Some(t) ==> text == quoted(t),
        u64_in(Some(text)) matches Some(m) ==> text == decimal(m as nat),
        string_in(None) is None,
        u64_in(None) is None,
{
    let t = choose|t: Seq<char>| quoted(s) == #[trigger] quoted(t);
    law_quoted_injective(s, t);
    let m = choose|m: u64| decimal(n as nat) == #[trigger] decimal(m as nat);
    law_decimal_injective(n as nat, m as nat);
}

/// What is missing shows as null, and what is there shows as its text with the quotes taken out and
/// all else kept.
pub proof fn law_bare_text_takes_out_quotes_only(text: Seq<char>)
    ensures
        bare_text(None) == "null"@,
        !bare_text(Some(text)).contains('"'),
        !text.contains('"') ==> bare_text(Some(text)) == text,
        bare_text(Some(text)) == without(text, '"'),
{
    reveal_strlit("null");
    assert(bare_text(None) =~= "null"@);
    law_without_leaves_none(text, '"');
}

/// The JSON text of a string without quotes, backslashes and control characters is the string
/// between two quotes.
pub proof fn law_plain_string_stands_between_quotes(s: Seq<char>)
    requires
        is_plain(s),
    ensures
        quoted(s) == seq!['"'] + s + seq!['"'],
{
    lemma_escaped_plain(s);
}

/// The member of what may be an object.
pub fn get_member<'a>(v: Option<&'a serde_json::Value>, key: &str) -> (r: Option<
    &'a serde_json::Value,
>)
    ensures
        text_of(r) == member(text_of(v), key@),
{
    match v {
        Some(v) => json_get(v, key),
        None => None,
    }
}

/// The element of what may be an array.
pub fn get_element(v: &serde_json::Value, i: usize) -> (r: Option<&serde_json::Value>)
    ensures
        text_of(r) == element(json_text(*v), i as int),
{
    json_at(v, i)
}

/// The string that a value is, if it is one.
pub fn get_string<'a>(v: Option<&'a serde_json::Value>) -> (r: Option<&'a str>)
    ensures
        match r {
            Some(s) => string_in(text_of(v)) == Some(s@),
            None => string_in(text_of(v)) is None,
        },
{
    match v {
        Some(v) => {
            let r = json_str(v);
            proof {
                if let Some(s) = r {
                    let t = choose|t: Seq<char>| json_text(*v) == #[trigger] quoted(t);
                    law_quoted_injective(s@, t);
                }
            }
            r
        },
        None => None,
    }
}

/// The unsigned integer that a value is, if it is one.
pub fn get_u64(v: Option<&serde_json::Value>) -> (r: Option<u64>)
    ensures
        r == u64_in(text_of(v)),
{
    match v {
        Some(v) => {
            let r = json_u64(v);
            proof {
                if let Some(n) = r {
                    let m = choose|m: u64| json_text(*v) == #[trigger] decimal(m as nat);
                    law_decimal_injective(n as nat, m as nat);
                }
            }
            r
        },
        None => None,
    }
}

/// The compact text of what may be missing, without its quotes; a missing value shows as null.
pub fn get_bare_text(v: Option<&serde_json::Value>) -> (r: String)
    ensures
        r@ == bare_text(text_of(v)),
{
    match v {
        Some(v) => {
            let t = json_to_string(v);
            remove_char(t.as_str(), '"')
        },
        None => {
            proof {
                reveal_strlit("null");
            }
            let r = "null".to_owned();
            assert(r@ =~= seq!['n', 'u', 'l', 'l']);
            r
        },
    }
}

} // verus!
