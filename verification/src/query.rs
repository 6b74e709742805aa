//! Request parameter lists and their form-urlencoded serialization: the
//! `key=value&key=value` query strings that every signing protocol covers
//! with its digest, and the stable lexicographic key sort that the Huobi
//! protocol applies before signing.

use vstd::prelude::*;

verus! {

use crate::codec::{bytes_of, form_encoded_of, form_urlencode, str_bytes};

/// One request parameter, as raw bytes.
#[derive(Debug)]
pub struct Param {
    pub key: Vec<u8>,
    pub value: Vec<u8>,
}

/// The mathematical view of a parameter list: a sequence of key/value byte
/// strings.
pub open spec fn pview(ps: Seq<Param>) -> Seq<(Seq<u8>, Seq<u8>)> {
    ps.map_values(|p: Param| (p.key@, p.value@))
}

/// Build a parameter from string pieces.
pub fn param(key: &str, value: &str) -> (r: Param)
    ensures
        r.key@ == bytes_of(key@),
        r.value@ == bytes_of(value@),
{
    Param { key: str_bytes(key), value: str_bytes(value) }
}

/// Build a parameter whose value is already a byte string.
pub fn param_bytes(key: &str, value: Vec<u8>) -> (r: Param)
    ensures
        r.key@ == bytes_of(key@),
        r.value@ == value@,
{
    Param { key: str_bytes(key), value }
}

/// `key=value` with both sides form-urlencoded.
pub open spec fn pair_encoded(p: (Seq<u8>, Seq<u8>)) -> Seq<u8> {
    form_encoded_of(p.0) + seq![0x3du8] + form_encoded_of(p.1)
}

/// The whole query string: encoded pairs joined by `&`, in list order.
pub open spec fn query_encoded(ps: Seq<(Seq<u8>, Seq<u8>)>) -> Seq<u8>
    decreases ps.len(),
{
    if ps.len() == 0 {
        Seq::empty()
    } else if ps.len() == 1 {
        pair_encoded(ps[0])
    } else {
        query_encoded(ps.drop_last()) + seq![0x26u8] + pair_encoded(ps.last())
    }
}

/// Encode one parameter as `key=value`.
pub fn encode_pair(p: &Param) -> (r: Vec<u8>)
    ensures
        r@ == pair_encoded((p.key@, p.value@)),
{
    let mut r = form_urlencode(p.key.as_slice());
    r.push(0x3d);
    let ev = form_urlencode(p.value.as_slice());
    r.extend_from_slice(ev.as_slice());
    proof {
        assert(r@ =~= pair_encoded((p.key@, p.value@)));
    }
    r
}

/// Serialize a parameter list into a query string, in list order.
pub fn encode_query(ps: &Vec<Param>) -> (r: Vec<u8>)
    ensures
        r@ == query_encoded(pview(ps@)),
{
    let mut r: Vec<u8> = Vec::new();
    let mut i: usize = 0;
    proof {
        assert(pview(ps@).take(0) =~= Seq::<(Seq<u8>, Seq<u8>)>::empty());
    }
    while i < ps.len()
        invariant
            0 <= i <= ps@.len(),
            r@ == query_encoded(pview(ps@).take(i as int)),
        decreases ps@.len() - i,
    {
        if i > 0 {
            r.push(0x26);
        }
        let e = encode_pair(&ps[i]);
        r.extend_from_slice(e.as_slice());
        proof {
            let pv = pview(ps@);
            assert(pv.take(i as int + 1).drop_last() =~= pv.take(i as int));
            assert(pv.take(i as int + 1).last() == pv[i as int]);
            assert(pv[i as int] == (ps@[i as int].key@, ps@[i as int].value@));
            assert(r@ =~= query_encoded(pv.take(i as int + 1)));
        }
        i = i + 1;
    }
    proof {
        assert(pview(ps@).take(ps@.len() as int) =~= pview(ps@));
    }
    r
}

/// An encoded pair is ASCII.
pub proof fn lemma_pair_encoded_ascii(p: (Seq<u8>, Seq<u8>))
    ensures
        crate::codec::ascii_bytes(pair_encoded(p)),
{
    crate::codec::lemma_form_encoded_ascii(p.0);
    crate::codec::lemma_form_encoded_ascii(p.1);
}

/// An encoded query string is ASCII.
pub proof fn lemma_query_encoded_ascii(ps: Seq<(Seq<u8>, Seq<u8>)>)
    ensures
        crate::codec::ascii_bytes(query_encoded(ps)),
    decreases ps.len(),
{
    if ps.len() == 1 {
        lemma_pair_encoded_ascii(ps[0]);
    } else if ps.len() > 1 {
        lemma_query_encoded_ascii(ps.drop_last());
        lemma_pair_encoded_ascii(ps.last());
    }
}

/// Lexicographic order on byte strings; a proper prefix comes first.  This
/// is the order `sort_by` on keys gives a parameter list.
pub open spec fn lex_le(a: Seq<u8>, b: Seq<u8>) -> bool
    decreases a.len(),
{
    if a.len() == 0 {
        true
    } else if b.len() == 0 {
        false
    } else if a[0] < b[0] {
        true
    } else if a[0] > b[0] {
        false
    } else {
        lex_le(a.drop_first(), b.drop_first())
    }
}

/// Lexicographic order is total.
pub proof fn lemma_lex_le_total(a: Seq<u8>, b: Seq<u8>)
    ensures
        lex_le(a, b) || lex_le(b, a),
    decreases a.len(),
{
    if a.len() > 0 && b.len() > 0 && a[0] == b[0] {
        lemma_lex_le_total(a.drop_first(), b.drop_first());
    }
}

/// Compare two byte strings lexicographically.
pub fn bytes_le(a: &[u8], b: &[u8]) -> (r: bool)
    ensures
        r == lex_le(a@, b@),
{
    let an = a.len();
    let bn = b.len();
    let mut i: usize = 0;
    proof {
        assert(a@.skip(0) =~= a@);
        assert(b@.skip(0) =~= b@);
    }
    while i < an && i < bn
        invariant
            0 <= i <= an == a@.len(),
            i <= bn == b@.len(),
            lex_le(a@, b@) == lex_le(a@.skip(i as int), b@.skip(i as int)),
        decreases an - i,
    {
        let x = *vstd::slice::slice_index_get(a, i);
        let y = *vstd::slice::slice_index_get(b, i);
        proof {
            assert(a@.skip(i as int)[0] == a@[i as int]);
            assert(b@.skip(i as int)[0] == b@[i as int]);
            assert(a@.skip(i as int).drop_first() =~= a@.skip(i as int + 1));
            assert(b@.skip(i as int).drop_first() =~= b@.skip(i as int + 1));
        }
        if x < y {
            return true;
        }
        if x > y {
            return false;
        }
        i = i + 1;
    }
    proof {
        if i == an {
            assert(a@.skip(i as int) =~= Seq::<u8>::empty());
        } else {
            assert(b@.skip(i as int) =~= Seq::<u8>::empty());
            assert(a@.skip(i as int).len() > 0);
        }
    }
    an <= bn
}

/// Stable insertion of a pair into a key-sorted list: the new pair goes
/// after every pair whose key is less than or equal to its own.
pub open spec fn insert_sorted(p: (Seq<u8>, Seq<u8>), ps: Seq<(Seq<u8>, Seq<u8>)>) -> Seq<
    (Seq<u8>, Seq<u8>),
>
    decreases ps.len(),
{
    if ps.len() == 0 {
        seq![p]
    } else if lex_le(ps[0].0, p.0) {
        seq![ps[0]] + insert_sorted(p, ps.drop_first())
    } else {
        seq![p] + ps
    }
}

/// Stable insertion sort of a parameter list by key.  Pins the result of
/// sorting exactly, equal keys keeping their original order.
pub open spec fn sort_pairs(ps: Seq<(Seq<u8>, Seq<u8>)>) -> Seq<(Seq<u8>, Seq<u8>)>
    decreases ps.len(),
{
    if ps.len() == 0 {
        Seq::empty()
    } else {
        insert_sorted(ps.last(), sort_pairs(ps.drop_last()))
    }
}

/// Adjacent keys are in lexicographic order.
pub open spec fn keys_sorted(ps: Seq<(Seq<u8>, Seq<u8>)>) -> bool {
    forall|i: int| 0 <= i && i + 1 < ps.len() ==> lex_le(#[trigger] ps[i].0, ps[i + 1].0)
}

/// Inserting where the scan stopped is the stable insertion.
proof fn lemma_insert_at(ps: Seq<(Seq<u8>, Seq<u8>)>, p: (Seq<u8>, Seq<u8>), j: int)
    requires
        0 <= j <= ps.len(),
        forall|m: int| 0 <= m < j ==> lex_le(#[trigger] ps[m].0, p.0),
        j < ps.len() ==> !lex_le(ps[j].0, p.0),
    ensures
        insert_sorted(p, ps) =~= ps.subrange(0, j) + seq![p] + ps.subrange(j, ps.len() as int),
    decreases j,
{
    if j == 0 {
        if ps.len() == 0 {
            assert(insert_sorted(p, ps) =~= seq![p]);
        } else {
            assert(!lex_le(ps[0].0, p.0));
        }
        assert(ps.subrange(0, 0) =~= Seq::<(Seq<u8>, Seq<u8>)>::empty());
        assert(ps.subrange(0, ps.len() as int) =~= ps);
    } else {
        assert(lex_le(ps[0].0, p.0));
        let tail = ps.drop_first();
        assert(forall|m: int| 0 <= m < j - 1 ==> lex_le(#[trigger] tail[m].0, p.0)) by {
            assert(forall|m: int| 0 <= m < j - 1 ==> tail[m] == ps[m + 1]);
        }
        assert(j - 1 < tail.len() ==> !lex_le(tail[j - 1].0, p.0));
        lemma_insert_at(tail, p, j - 1);
        assert(insert_sorted(p, ps) =~= seq![ps[0]] + insert_sorted(p, tail));
        assert(seq![ps[0]] + (tail.subrange(0, j - 1) + seq![p] + tail.subrange(
            j - 1,
            tail.len() as int,
        )) =~= ps.subrange(0, j) + seq![p] + ps.subrange(j, ps.len() as int));
    }
}

/// Insert one parameter into a key-sorted vector, keeping it stable.
fn insert_param(out: Vec<Param>, p: Param) -> (r: Vec<Param>)
    ensures
        pview(r@) == insert_sorted((p.key@, p.value@), pview(out@)),
{
    let mut j: usize = 0;
    while j < out.len() && bytes_le(out[j].key.as_slice(), p.key.as_slice())
        invariant
            0 <= j <= out@.len(),
            forall|m: int| 0 <= m < j ==> lex_le(#[trigger] pview(out@)[m].0, p.key@),
        decreases out@.len() - j,
    {
        j = j + 1;
    }
    proof {
        assert(j < out@.len() ==> !lex_le(pview(out@)[j as int].0, p.key@));
        lemma_insert_at(pview(out@), (p.key@, p.value@), j as int);
    }
    let ghost before = pview(out@);
    let mut r = out;
    r.insert(j, p);
    proof {
        assert(pview(r@) =~= before.subrange(0, j as int) + seq![(p.key@, p.value@)]
            + before.subrange(j as int, before.len() as int));
    }
    r
}

/// Sort a parameter list by key, stably: exactly the `sort_pairs` of its
/// view.
pub fn sort_params(ps: Vec<Param>) -> (r: Vec<Param>)
    ensures
        pview(r@) == sort_pairs(pview(ps@)),
{
    let ghost all = pview(ps@);
    let mut rest = ps;
    let mut out: Vec<Param> = Vec::new();
    let ghost mut k: int = 0;
    proof {
        assert(all.take(0) =~= Seq::<(Seq<u8>, Seq<u8>)>::empty());
        assert(pview(rest@) =~= all.skip(0));
    }
    while rest.len() > 0
        invariant
            0 <= k <= all.len(),
            pview(out@) == sort_pairs(all.take(k)),
            pview(rest@) =~= all.skip(k),
        decreases rest@.len(),
    {
        let ghost prev = rest@;
        let p = rest.remove(0);
        proof {
            assert(prev.len() > 0);
            assert(rest@ =~= prev.subrange(1, prev.len() as int));
            assert(pview(prev)[0] == (prev[0].key@, prev[0].value@));
            assert(pview(prev) == all.skip(k));
            assert(pview(prev).len() == prev.len());
            assert(all.skip(k).len() == all.len() - k);
            assert(k < all.len());
            assert(all.skip(k)[0] == all[k + 0]);
            assert((p.key@, p.value@) == all[k]);
            assert forall|i: int| 0 <= i < rest@.len() implies pview(rest@)[i] == all.skip(k + 1)[i]
                by {
                assert(rest@[i] == prev[i + 1]);
                assert(pview(rest@)[i] == (prev[i + 1].key@, prev[i + 1].value@));
                assert(pview(prev)[i + 1] == (prev[i + 1].key@, prev[i + 1].value@));
                assert(all.skip(k)[i + 1] == all[k + 1 + i]);
                assert(all.skip(k + 1)[i] == all[k + 1 + i]);
            }
            assert(pview(rest@).len() == all.skip(k + 1).len());
            assert(pview(rest@) =~= all.skip(k + 1));
        }
        out = insert_param(out, p);
        proof {
            assert(all.take(k + 1).drop_last() =~= all.take(k));
            assert(all.take(k + 1).last() == all[k]);
            assert(pview(out@) =~= sort_pairs(all.take(k + 1)));
            k = k + 1;
        }
    }
    proof {
        assert(all.take(all.len() as int) =~= all);
        assert(all.skip(k) =~= pview(rest@));
    }
    out
}

/// The law behind the Huobi parameter ordering: a stably-sorted parameter
/// list carries its keys in lexicographic order, whatever the input order
/// was.
pub proof fn lemma_sort_pairs_sorted(ps: Seq<(Seq<u8>, Seq<u8>)>)
    ensures
        keys_sorted(sort_pairs(ps)),
    decreases ps.len(),
{
    if ps.len() > 0 {
        lemma_sort_pairs_sorted(ps.drop_last());
        lemma_insert_preserves_sorted(ps.last(), sort_pairs(ps.drop_last()));
    }
}

/// Stable insertion into a key-sorted list keeps it key-sorted.
pub proof fn lemma_insert_preserves_sorted(p: (Seq<u8>, Seq<u8>), ps: Seq<(Seq<u8>, Seq<u8>)>)
    requires
        keys_sorted(ps),
    ensures
        keys_sorted(insert_sorted(p, ps)),
    decreases ps.len(),
{
    if ps.len() == 0 {
    } else if lex_le(ps[0].0, p.0) {
        let tail = ps.drop_first();
        assert(keys_sorted(tail)) by {
            assert(forall|i: int| 0 <= i && i + 1 < tail.len() ==> #[trigger] tail[i] == ps[i + 1]
                && tail[i + 1] == ps[i + 2]);
        }
        lemma_insert_preserves_sorted(p, tail);
        let r = insert_sorted(p, ps);
        let rt = insert_sorted(p, tail);
        assert(r =~= seq![ps[0]] + rt);
        assert(lex_le(r[0].0, r[1].0)) by {
            if tail.len() == 0 {
                assert(rt =~= seq![p]);
            } else if lex_le(tail[0].0, p.0) {
                assert(rt[0] == tail[0]);
                assert(lex_le(ps[0].0, ps[1].0));
            } else {
                assert(rt[0] == p);
            }
        }
        assert forall|i: int| 0 <= i && i + 1 < r.len() implies lex_le(
            #[trigger] r[i].0,
            r[i + 1].0,
        ) by {
            if i > 0 {
                assert(r[i] == rt[i - 1]);
                assert(r[i + 1] == rt[i]);
                assert(lex_le(rt[i - 1].0, rt[i].0));
            }
        }
    } else {
        lemma_lex_le_total(ps[0].0, p.0);
        let r = insert_sorted(p, ps);
        assert(r =~= seq![p] + ps);
        assert forall|i: int| 0 <= i && i + 1 < r.len() implies lex_le(
            #[trigger] r[i].0,
            r[i + 1].0,
        ) by {
            if i == 0 {
                assert(lex_le(p.0, ps[0].0));
            } else {
                assert(r[i] == ps[i - 1]);
                assert(r[i + 1] == ps[i]);
                assert(lex_le(ps[i - 1].0, ps[i].0));
            }
        }
    }
}

} // verus!
