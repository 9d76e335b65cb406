//! The metadata wire convention: a flattened key/value text block in
//! which keys and values alternate line by line.
//!
//! `<key1>\n<value1>\n<key2>\n<value2>` carries two entries.  No escaping
//! of the separator is defined: keys and values must not contain a
//! newline, and a trailing line without a partner is ignored.  The parser
//! is specified against a line-splitting function that matches splitting
//! text on the newline byte.

use vstd::prelude::*;
use vstd::utf8::decode_utf8;
use vstd::utf8::valid_utf8;
use crate::buffers::decode_text;
use crate::strmap::StringMap;
use crate::strmap::map_add;
use crate::strmap::map_new;

verus! {

/// The newline byte that separates lines of the block.
pub const SEPARATOR: u8 = 10;

/// The position of the first separator at or after `i`, or the length
/// of the sequence when there is none.
pub open spec fn find_sep(s: Seq<u8>, i: int) -> int
    decreases s.len() - i,
{
    if i >= s.len() {
        s.len() as int
    } else if s[i] == SEPARATOR {
        i
    } else {
        find_sep(s, i + 1)
    }
}

/// A separator at `j`, with none before it from `i`, is exactly where
/// `find_sep` points.
pub proof fn lemma_find_sep_at(s: Seq<u8>, i: int, j: int)
    requires
        0 <= i <= j < s.len(),
        s[j] == SEPARATOR,
        forall|l: int| i <= l < j ==> s[l] != SEPARATOR,
    ensures
        find_sep(s, i) == j,
    decreases j - i,
{
    if i < j {
        lemma_find_sep_at(s, i + 1, j);
    }
}

/// With no separator from `i` on, `find_sep` points at the end.
pub proof fn lemma_find_sep_none(s: Seq<u8>, i: int)
    requires
        0 <= i <= s.len(),
        forall|l: int| i <= l < s.len() ==> s[l] != SEPARATOR,
    ensures
        find_sep(s, i) == s.len(),
    decreases s.len() - i,
{
    if i < s.len() {
        lemma_find_sep_none(s, i + 1);
    }
}

/// The lines of a byte block: the (possibly empty) stretches between
/// separators, including the stretch after the last separator.
pub open spec fn lines_of(s: Seq<u8>) -> Seq<Seq<u8>>
    decreases s.len(),
{
    let k = find_sep(s, 0);
    if 0 <= k < s.len() {
        seq![s.take(k)] + lines_of(s.skip(k + 1))
    } else {
        seq![s]
    }
}

/// Consecutive lines paired up in order; a trailing line without a
/// partner is dropped.
pub open spec fn pairs_of(ls: Seq<Seq<u8>>) -> Seq<(Seq<u8>, Seq<u8>)> {
    Seq::new((ls.len() / 2) as nat, |i: int| (ls[2 * i], ls[2 * i + 1]))
}

/// The key/value pairs a metadata block carries.
pub open spec fn metadata_pairs(s: Seq<u8>) -> Seq<(Seq<u8>, Seq<u8>)> {
    pairs_of(lines_of(s))
}

/// Splits a byte block into its lines, exactly as [`lines_of`] states:
/// splitting `a\nb` yields `a` and `b`, a trailing separator yields a
/// final empty line, and an empty block yields one empty line.
pub fn split_lines(bytes: &Vec<u8>) -> (r: Vec<Vec<u8>>)
    ensures
        r.deep_view() == lines_of(bytes@),
{
    let ghost s = bytes@;
    let mut out: Vec<Vec<u8>> = Vec::new();
    let mut cur: Vec<u8> = Vec::new();
    let ghost mut start: int = 0;
    let mut i: usize = 0;
    proof {
        assert(s.skip(0) =~= s);
        assert(out.deep_view() =~~= Seq::<Seq<u8>>::empty());
        assert(Seq::<Seq<u8>>::empty() + lines_of(s) =~~= lines_of(s));
    }
    while i < bytes.len()
        invariant
            s == bytes@,
            0 <= start <= i <= s.len(),
            cur@ == s.subrange(start, i as int),
            forall|l: int| start <= l < i ==> s[l] != SEPARATOR,
            lines_of(s) == out.deep_view() + lines_of(s.skip(start)),
        decreases s.len() - i,
    {
        let b = bytes[i];
        if b == SEPARATOR {
            proof {
                let t = s.skip(start);
                let j = i - start;
                assert(t[j] == s[i as int]);
                assert(forall|l: int| 0 <= l < j ==> t[l] == s[start + l] && s[start + l]
                    != SEPARATOR);
                lemma_find_sep_at(t, 0, j);
                assert(lines_of(t) == seq![t.take(j)] + lines_of(t.skip(j + 1)));
                assert(t.take(j) =~= cur@);
                assert(t.skip(j + 1) =~= s.skip(i + 1));
            }
            let ghost prior = out.deep_view();
            out.push(cur);
            cur = Vec::new();
            proof {
                assert(out.deep_view() =~~= prior.push(s.skip(start).take(i - start)));
                start = i as int + 1;
                assert(lines_of(s) =~~= out.deep_view() + lines_of(s.skip(start)));
            }
        } else {
            cur.push(b);
            proof {
                assert(cur@ =~= s.subrange(start, i as int + 1));
            }
        }
        i += 1;
    }
    proof {
        let t = s.skip(start);
        assert(forall|l: int| 0 <= l < t.len() ==> t[l] == s[start + l] && s[start + l]
            != SEPARATOR);
        lemma_find_sep_none(t, 0);
        assert(lines_of(t) == seq![t]);
        assert(t =~= cur@);
    }
    let ghost prior = out.deep_view();
    out.push(cur);
    proof {
        assert(out.deep_view() =~~= prior.push(s.skip(start)));
        assert(out.deep_view() =~~= lines_of(s));
    }
    out
}

/// Parses a metadata block into its key/value pairs of raw bytes, in
/// order, dropping a trailing line without a partner.
pub fn to_pairs_on_newlines(bytes: &Vec<u8>) -> (r: Vec<(Vec<u8>, Vec<u8>)>)
    ensures
        r@.len() == metadata_pairs(bytes@).len(),
        forall|i: int|
            0 <= i < r@.len() ==> (r@[i].0@, r@[i].1@) == metadata_pairs(bytes@)[i],
{
    let lines = split_lines(bytes);
    let ghost ls = lines.deep_view();
    let mut r: Vec<(Vec<u8>, Vec<u8>)> = Vec::new();
    let mut j: usize = 0;
    while j + 1 < lines.len()
        invariant
            ls == lines.deep_view(),
            j == 2 * r@.len(),
            j <= ls.len(),
            forall|i: int| 0 <= i < r@.len() ==> (r@[i].0@, r@[i].1@) == (ls[2 * i], ls[2 * i + 1]),
        decreases lines@.len() - j,
    {
        let key = lines[j].clone();
        let value = lines[j + 1].clone();
        r.push((key, value));
        j += 2;
    }
    proof {
        assert(r@.len() == ls.len() / 2);
        assert(forall|i: int|
            0 <= i < r@.len() ==> (r@[i].0@, r@[i].1@) == pairs_of(ls)[i]);
    }
    r
}

/// Whether every key and value of the block's pairs is valid text.
pub open spec fn pairs_decodable(ps: Seq<(Seq<u8>, Seq<u8>)>) -> bool {
    forall|i: int| #![trigger ps[i]] 0 <= i < ps.len() ==> valid_utf8(ps[i].0) && valid_utf8(ps[i].1)
}

/// Parses a metadata block into a string map: each line pair becomes an
/// entry, decoded as text, with a later pair for the same key replacing
/// an earlier one.  A key or value that is not valid UTF-8 fails the
/// whole block.
pub fn to_string_map_on_newlines(bytes: &Vec<u8>) -> (r: Option<StringMap>)
    ensures
        r is Some <==> pairs_decodable(metadata_pairs(bytes@)),
        r matches Some(m) ==> {
            &&& m.pairs().len() == metadata_pairs(bytes@).len()
            &&& forall|i: int|
                0 <= i < m.pairs().len() ==> m.pairs()[i] == (
                    decode_utf8(metadata_pairs(bytes@)[i].0),
                    decode_utf8(metadata_pairs(bytes@)[i].1),
                )
        },
{
    let ghost ps = metadata_pairs(bytes@);
    let pairs = to_pairs_on_newlines(bytes);
    let mut m = map_new(pairs.len());
    let mut i: usize = 0;
    while i < pairs.len()
        invariant
            ps == metadata_pairs(bytes@),
            pairs@.len() == ps.len(),
            forall|l: int| 0 <= l < ps.len() ==> (pairs@[l].0@, pairs@[l].1@) == ps[l],
            i <= ps.len(),
            forall|l: int| 0 <= l < i ==> valid_utf8(ps[l].0) && valid_utf8(ps[l].1),
            m.pairs().len() == i,
            forall|l: int|
                0 <= l < i ==> m.pairs()[l] == (decode_utf8(ps[l].0), decode_utf8(ps[l].1)),
        decreases pairs@.len() - i,
    {
        let key = match decode_text(&pairs[i].0) {
            Some(k) => k,
            None => {
                proof {
                    assert((pairs@[i as int].0@, pairs@[i as int].1@) == ps[i as int]);
                    assert(!valid_utf8(ps[i as int].0));
                    assert(!pairs_decodable(ps));
                }
                return None;
            },
        };
        let value = match decode_text(&pairs[i].1) {
            Some(v) => v,
            None => {
                proof {
                    assert((pairs@[i as int].0@, pairs@[i as int].1@) == ps[i as int]);
                    assert(!valid_utf8(ps[i as int].1));
                    assert(!pairs_decodable(ps));
                }
                return None;
            },
        };
        map_add(&mut m, key, value);
        i += 1;
    }
    Some(m)
}

} // verus!
