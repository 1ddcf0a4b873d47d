//! Short channel ids: the number that the router works with and the text that the node speaks.

use crate::text::{
    chars_of, decimal, is_digit, lemma_decimal_digits, lemma_number_of_decimal, parse_u64,
    push_decimal, u64_value,
};
use vstd::prelude::*;
use vstd::string::*;

verus! {

/// The pieces of `s` between the occurrences of `sep`: one more than there are occurrences.
pub open spec fn split(s: Seq<char>, sep: char) -> Seq<Seq<char>>
    decreases s.len(),
{
    if s.len() == 0 {
        seq![Seq::empty()]
    } else {
        let front = split(s.drop_last(), sep);
        if s.last() == sep {
            front.push(Seq::empty())
        } else {
            front.drop_last().push(front.last().push(s.last()))
        }
    }
}

/// The block height that a short channel id holds.
pub open spec fn block_of(scid: u64) -> u64 {
    scid >> 40
}

/// The index of the transaction that a short channel id holds.
pub open spec fn tx_of(scid: u64) -> u64 {
    scid >> 16 & 0xFFFFFF
}

/// The index of the output that a short channel id holds.
pub open spec fn output_of(scid: u64) -> u64 {
    scid & 0xFFFF
}

/// The short channel id of an output of a transaction in a block.
pub open spec fn pack(block: u64, tx: u64, output: u64) -> u64 {
    block << 40 | tx << 16 | output
}

/// Three numbers joined by the letter x.
pub open spec fn joined(block: u64, tx: u64, output: u64) -> Seq<char> {
    decimal(block as nat).push('x') + decimal(tx as nat).push('x') + decimal(output as nat)
}

/// The text of a short channel id: block, transaction and output, joined by the letter x.
pub open spec fn scid_text(scid: u64) -> Seq<char> {
    joined(block_of(scid), tx_of(scid), output_of(scid))
}

/// The short channel id that a text denotes: its first three pieces between the letters x are
/// 64-bit numbers. Further pieces do not matter.
pub open spec fn scid_value(s: Seq<char>) -> Option<u64> {
    let parts = split(s, 'x');
    if parts.len() >= 3 {
        match (u64_value(parts[0]), u64_value(parts[1]), u64_value(parts[2])) {
            (Some(block), Some(tx), Some(output)) => Some(pack(block, tx, output)),
            _ => None,
        }
    } else {
        None
    }
}

/// A text has at least one piece.
proof fn lemma_split_nonempty(s: Seq<char>, sep: char)
    ensures
        split(s, sep).len() > 0,
    decreases s.len(),
{
    if s.len() > 0 {
        lemma_split_nonempty(s.drop_last(), sep);
    }
}

/// A text without the separator extends the last piece.
proof fn lemma_split_extend(s: Seq<char>, t: Seq<char>, sep: char)
    requires
        !t.contains(sep),
    ensures
        split(s + t, sep) == split(s, sep).drop_last().push(split(s, sep).last() + t),
    decreases t.len(),
{
    lemma_split_nonempty(s, sep);
    let parts = split(s, sep);
    if t.len() == 0 {
        assert(s + t =~= s);
        assert(parts.last() + t =~= parts.last());
        assert(parts.drop_last().push(parts.last()) =~= parts);
    } else {
        assert((s + t).drop_last() =~= s + t.drop_last());
        assert((s + t).last() == t.last());
        assert(t.contains(t.last()));
        assert forall|c: char| t.drop_last().contains(c) implies t.contains(c) by {
            let i = choose|i: int| 0 <= i < t.drop_last().len() && t.drop_last()[i] == c;
            assert(t[i] == c);
        }
        lemma_split_extend(s, t.drop_last(), sep);
        let front = split(s + t.drop_last(), sep);
        assert(front.last() == parts.last() + t.drop_last());
        assert(front.last().push(t.last()) =~= parts.last() + t);
        assert(front.drop_last() =~= parts.drop_last());
    }
}

/// The separator opens a new piece.
proof fn lemma_split_separator(s: Seq<char>, sep: char)
    ensures
        split(s.push(sep), sep) == split(s, sep).push(Seq::empty()),
{
    assert(s.push(sep).drop_last() =~= s);
}

/// A numeral holds no letter.
proof fn lemma_decimal_without_x(n: nat)
    ensures
        !decimal(n).contains('x'),
{
    lemma_decimal_digits(n);
    if decimal(n).contains('x') {
        let i = choose|i: int| 0 <= i < decimal(n).len() && decimal(n)[i] == 'x';
        assert(is_digit(decimal(n)[i]));
    }
}

/// Three joined numbers split into their three numerals.
proof fn lemma_split_joined(block: u64, tx: u64, output: u64)
    ensures
        split(joined(block, tx, output), 'x') == seq![
            decimal(block as nat),
            decimal(tx as nat),
            decimal(output as nat),
        ],
{
    let b = decimal(block as nat);
    let t = decimal(tx as nat);
    let o = decimal(output as nat);
    lemma_decimal_without_x(block as nat);
    lemma_decimal_without_x(tx as nat);
    lemma_decimal_without_x(output as nat);
    let e = Seq::<char>::empty();
    lemma_split_extend(e, b, 'x');
    assert(e + b =~= b);
    assert(split(b, 'x') =~= seq![b]);
    lemma_split_separator(b, 'x');
    assert(split(b.push('x'), 'x') =~= seq![b, e]);
    lemma_split_extend(b.push('x'), t, 'x');
    assert(split(b.push('x') + t, 'x') =~= seq![b, t]);
    lemma_split_separator(b.push('x') + t, 'x');
    assert(b.push('x') + t.push('x') =~= (b.push('x') + t).push('x'));
    assert(split(b.push('x') + t.push('x'), 'x') =~= seq![b, t, e]);
    lemma_split_extend(b.push('x') + t.push('x'), o, 'x');
    assert(split(joined(block, tx, output), 'x') =~= seq![b, t, o]);
}

/// The text of three joined numbers denotes the channel id packed from them.
pub proof fn law_joined_denotes_pack(block: u64, tx: u64, output: u64)
    ensures
        scid_value(joined(block, tx, output)) == Some(pack(block, tx, output)),
{
    lemma_split_joined(block, tx, output);
    lemma_number_of_decimal(block as nat);
    lemma_number_of_decimal(tx as nat);
    lemma_number_of_decimal(output as nat);
}

/// A channel id survives the way to text and back: `cl_to_int` undoes `u64_cl`.
pub proof fn law_text_round_trip(scid: u64)
    ensures
        scid_value(scid_text(scid)) == Some(scid),
{
    law_joined_denotes_pack(block_of(scid), tx_of(scid), output_of(scid));
    assert((scid >> 40) << 40 | (scid >> 16 & 0xFFFFFF) << 16 | (scid & 0xFFFF) == scid)
        by (bit_vector);
}

/// The text of a real channel survives the way to a number and back: `u64_cl` undoes `cl_to_int`
/// wherever block and transaction fit in three bytes and the output in two.
pub proof fn law_number_round_trip(block: u64, tx: u64, output: u64)
    requires
        block < 0x1000000,
        tx < 0x1000000,
        output < 0x10000,
    ensures
        scid_value(joined(block, tx, output)) is Some,
        scid_text(scid_value(joined(block, tx, output))->0) == joined(block, tx, output),
{
    law_joined_denotes_pack(block, tx, output);
    let p = pack(block, tx, output);
    assert(p == block << 40 | tx << 16 | output);
    assert(p >> 40 == block && (p >> 16 & 0xFFFFFF) == tx && (p & 0xFFFF) == output)
        by (bit_vector)
        requires
            p == block << 40 | tx << 16 | output,
            block < 0x1000000,
            tx < 0x1000000,
            output < 0x10000,
    ;
}

/// Two channels never share a text.
pub proof fn law_text_injective(a: u64, b: u64)
    requires
        scid_text(a) == scid_text(b),
    ensures
        a == b,
{
    law_text_round_trip(a);
    law_text_round_trip(b);
}

/// Pieces put together again, with a separator between them.
pub open spec fn put_together(pieces: Seq<Seq<char>>, sep: char) -> Seq<char>
    decreases pieces.len(),
{
    if pieces.len() == 0 {
        Seq::empty()
    } else if pieces.len() == 1 {
        pieces[0]
    } else {
        put_together(pieces.drop_last(), sep).push(sep) + pieces.last()
    }
}

/// The pieces of a text hold no separator, and put together again they are the text.
pub proof fn law_split_pieces_make_up_the_text(s: Seq<char>, sep: char)
    ensures
        split(s, sep).len() >= 1,
        put_together(split(s, sep), sep) == s,
        forall|i: int| 0 <= i < split(s, sep).len() ==> !(#[trigger] split(s, sep)[i]).contains(sep),
    decreases s.len(),
{
    if s.len() == 0 {
        assert(put_together(split(s, sep), sep) =~= s);
    } else {
        law_split_pieces_make_up_the_text(s.drop_last(), sep);
        let front = split(s.drop_last(), sep);
        let all = split(s, sep);
        assert(s.drop_last().push(s.last()) =~= s);
        if s.last() == sep {
            assert(all.drop_last() =~= front);
            assert(put_together(all, sep) =~= s);
        } else {
            assert(all.drop_last() =~= front.drop_last());
            assert(front.last() == front[front.len() - 1]);
            assert(put_together(all, sep) =~= s);
            assert forall|i: int| 0 <= i < all.len() implies !(#[trigger] all[i]).contains(
                sep,
            ) by {
                if i < front.len() - 1 {
                    assert(all[i] == front[i]);
                } else if all[i].contains(sep) {
                    let k = choose|k: int| 0 <= k < all[i].len() && all[i][k] == sep;
                    assert(k < front.last().len());
                    assert(front.last()[k] == sep);
                }
            }
        }
    }
}

/// A text denotes a channel exactly where its first three pieces between the letters x are numbers:
/// the block from the fortieth bit on, the transaction from the sixteenth, and the output.
pub proof fn law_what_a_channel_text_denotes(s: Seq<char>)
    ensures
        ({
            let p = split(s, 'x');
            &&& scid_value(s) is Some <==> p.len() >= 3 && u64_value(p[0]) is Some && u64_value(
                p[1],
            ) is Some && u64_value(p[2]) is Some
            &&& scid_value(s) is Some ==> scid_value(s)->0 == u64_value(p[0])->0 << 40 | u64_value(
                p[1],
            )->0 << 16 | u64_value(p[2])->0
        }),
{
}

/// The text of a channel id stands in a JSON string as it is.
pub proof fn lemma_scid_text_plain(scid: u64)
    ensures
        forall|i: int|
            0 <= i < scid_text(scid).len() ==> is_digit(#[trigger] scid_text(scid)[i]) || scid_text(
                scid,
            )[i] == 'x',
{
    let b = decimal(block_of(scid) as nat);
    let t = decimal(tx_of(scid) as nat);
    let o = decimal(output_of(scid) as nat);
    lemma_decimal_digits(block_of(scid) as nat);
    lemma_decimal_digits(tx_of(scid) as nat);
    lemma_decimal_digits(output_of(scid) as nat);
    let s = scid_text(scid);
    assert forall|i: int| 0 <= i < s.len() implies is_digit(#[trigger] s[i]) || s[i] == 'x' by {
        if i < b.len() {
            assert(s[i] == b[i]);
        } else if i == b.len() {
            assert(s[i] == 'x');
        } else if i < b.len() + 1 + t.len() {
            assert(s[i] == t[i - b.len() - 1]);
        } else if i == b.len() + 1 + t.len() {
            assert(s[i] == 'x');
        } else {
            assert(s[i] == o[i - b.len() - t.len() - 2]);
        }
    }
}

/// The texts that a list of character vectors holds.
spec fn pieces(v: Seq<Vec<char>>) -> Seq<Seq<char>> {
    v.map_values(|p: Vec<char>| p@)
}

/// The pieces of `s` between the occurrences of `sep`.
fn split_chars(s: &str, sep: char) -> (r: Vec<Vec<char>>)
    ensures
        pieces(r@) == split(s@, sep),
{
    let cs = chars_of(s);
    let mut done: Vec<Vec<char>> = Vec::new();
    let mut piece: Vec<char> = Vec::new();
    assert(cs@.take(0) =~= Seq::<char>::empty());
    assert(pieces(done@).push(piece@) =~= split(cs@.take(0), sep));
    for i in 0..cs.len()
        invariant
            pieces(done@).push(piece@) == split(cs@.take(i as int), sep),
    {
        let c = cs[i];
        let ghost front = pieces(done@);
        let ghost old_piece = piece@;
        proof {
            assert(cs@.take(i + 1).drop_last() =~= cs@.take(i as int));
            assert(front.push(old_piece).drop_last() =~= front);
        }
        if c == sep {
            done.push(piece);
            piece = Vec::new();
            assert(pieces(done@) =~= front.push(old_piece));
            assert(piece@ =~= Seq::<char>::empty());
        } else {
            piece.push(c);
        }
    }
    let ghost front = pieces(done@);
    let ghost last = piece@;
    done.push(piece);
    assert(pieces(done@) =~= front.push(last));
    assert(cs@.take(cs@.len() as int) =~= s@);
    done
}

/// The channel id that a text in the node's format denotes, or nothing where the text is not three
/// numbers joined by the letter x.
pub fn cl_to_int_checked(scid: &str) -> (r: Option<u64>)
    ensures
        r == scid_value(scid@),
{
    let parts = split_chars(scid, 'x');
    assert(pieces(parts@).len() == parts.len());
    if parts.len() < 3 {
        return None;
    }
    assert(pieces(parts@)[0] == parts@[0]@);
    assert(pieces(parts@)[1] == parts@[1]@);
    assert(pieces(parts@)[2] == parts@[2]@);
    match (parse_u64(&parts[0]), parse_u64(&parts[1]), parse_u64(&parts[2])) {
        (Some(block), Some(tx), Some(output)) => Some(block << 40 | tx << 16 | output),
        _ => None,
    }
}

/// Converts a short channel id from the node's text format to the number that the router uses.
pub fn cl_to_int(scid: &str) -> (r: u64)
    requires
        scid_value(scid@) is Some,
    ensures
        Some(r) == scid_value(scid@),
{
    cl_to_int_checked(scid).unwrap()
}

/// Converts a short channel id from the number that the router uses to the node's text format.
pub fn u64_cl(scid: u64) -> (r: String)
    ensures
        r@ == scid_text(scid),
{
    let block: u64 = scid >> 40;
    let tx: u64 = scid >> 16 & 0xFFFFFF;
    let output: u64 = scid & 0xFFFF;
    let mut r: String = String::new();
    push_decimal(&mut r, block);
    r.push('x');
    push_decimal(&mut r, tx);
    r.push('x');
    push_decimal(&mut r, output);
    assert(r@ =~= scid_text(scid));
    r
}

/// The channel id that the node's own parser reads from a text: exactly three 64-bit numbers
/// joined by the letter x.
pub open spec fn rpc_scid(s: Seq<char>) -> Option<u64> {
    if split(s, 'x').len() == 3 {
        scid_value(s)
    } else {
        None
    }
}

/// `cln_rpc::primitives::ShortChannelId::from_str` followed by `to_string`, the form in which the
/// id goes over the wire. The parser takes exactly three numbers joined by the letter x and packs
/// them into one word; the text is made of the block, transaction and output of that word.
#[verifier::external_body]
fn rpc_channel(text: &str) -> (r: Option<String>)
    ensures
        match r {
            Some(t) => rpc_scid(text@) is Some && t@ == scid_text(rpc_scid(text@)->0),
            None => rpc_scid(text@) is None,
        },
{
    <cln_rpc::primitives::ShortChannelId as std::str::FromStr>::from_str(text)
        .ok()
        .map(|id| id.to_string())
}

/// The channel field of a hop that is sent to the node. The node's parser accepts the text of
/// every channel id and reads the same channel from it.
pub fn sendpay_channel(scid: u64) -> (r: String)
    ensures
        r@ == scid_text(scid),
{
    let text = u64_cl(scid);
    proof {
        lemma_split_joined(block_of(scid), tx_of(scid), output_of(scid));
        law_text_round_trip(scid);
    }
    rpc_channel(text.as_str()).unwrap()
}

} // verus!
