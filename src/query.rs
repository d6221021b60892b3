//! Query strings: reading the query component of a URL and turning its
//! pairs into a mapping where the last value of a key wins.
use vstd::prelude::*;
use crate::text::{before_char, lemma_before_char_absent, lemma_before_char_split, pairs_view};

verus! {

#[verifier::external_type_specification]
#[verifier::external_body]
pub struct ExParseError(url::ParseError);

/// What `url::Url::parse` makes of an absolute URL: the URL's query
/// component, if it has one, or the error's message where it is refused.
pub uninterp spec fn url_query(s: Seq<char>) -> Result<Option<Seq<char>>, Seq<char>>;

/// The pairs that `form_urlencoded::parse` decodes from a query.
pub uninterp spec fn form_pairs(q: Seq<char>) -> Seq<(Seq<char>, Seq<char>)>;

/// Relies on `url::Url::parse` and `Url::query`: the URL's query component,
/// or the parse error's message. Only a `?` in the input opens a query.
#[verifier::external_body]
pub(crate) fn parse_url_query(s: &str) -> (r: Result<Option<String>, String>)
    ensures
        match r {
            Ok(q) => url_query(s@) == Ok::<_, Seq<char>>(
                match q {
                    Some(t) => Some(t@),
                    None => None,
                },
            ),
            Err(e) => url_query(s@) == Err::<Option<Seq<char>>, _>(e@),
        },
        !s@.contains('?') ==> (r matches Ok(q) ==> q is None),
{
    url::Url::parse(s).map(|u| u.query().map(|q| q.to_string())).map_err(|e| e.to_string())
}

/// The pair that one piece of a query gives: the text before the first `=`,
/// and the text after it, or nothing where there is no `=`.
pub open spec fn piece_pair(piece: Seq<char>) -> (Seq<char>, Seq<char>) {
    let k = before_char(piece, '=');
    if k.len() < piece.len() {
        (k, piece.subrange(k.len() as int + 1, piece.len() as int))
    } else {
        (k, Seq::empty())
    }
}

/// The pairs of a query that needs no decoding: one for each non-empty piece
/// between `&`s, in order.
pub open spec fn plain_pairs(q: Seq<char>) -> Seq<(Seq<char>, Seq<char>)>
    decreases q.len(),
{
    let piece = before_char(q, '&');
    let tail = if piece.len() < q.len() {
        plain_pairs(q.subrange(piece.len() as int + 1, q.len() as int))
    } else {
        Seq::empty()
    };
    if piece.len() == 0 {
        tail
    } else {
        seq![piece_pair(piece)] + tail
    }
}

/// A query without `%` or `+`, in which decoding changes nothing.
pub open spec fn needs_no_decoding(q: Seq<char>) -> bool {
    !q.contains('%') && !q.contains('+')
}

/// Relies on `form_urlencoded::parse`: the decoded pairs, in order. It splits
/// on `&`, skips empty pieces, splits each on its first `=`, and then only
/// replaces `+` and percent-escapes.
#[verifier::external_body]
pub(crate) fn decode_pairs(q: &str) -> (r: Vec<(String, String)>)
    ensures
        pairs_view(r@) == form_pairs(q@),
        needs_no_decoding(q@) ==> pairs_view(r@) == plain_pairs(q@),
{
    url::form_urlencoded::parse(q.as_bytes()).into_owned().collect()
}

/// The mapping that a sequence of pairs gives when a later value of a key
/// replaces an earlier one.
pub open spec fn pairs_map(s: Seq<(Seq<char>, Seq<char>)>) -> Map<Seq<char>, Seq<char>>
    decreases s.len(),
{
    if s.len() == 0 {
        Map::empty()
    } else {
        pairs_map(s.drop_last()).insert(s.last().0, s.last().1)
    }
}

/// No key occurs twice.
pub open spec fn keys_unique(s: Seq<(Seq<char>, Seq<char>)>) -> bool {
    forall|i: int, j: int| 0 <= i < j < s.len() ==> s[i].0 != s[j].0
}

/// The query parameters of a URL's query component: `None` where the URL has
/// no query.
pub open spec fn query_params_of(query: Option<Seq<char>>) -> Option<Map<Seq<char>, Seq<char>>> {
    match query {
        Some(q) => Some(pairs_map(form_pairs(q))),
        None => None,
    }
}

proof fn lemma_pairs_map_update(s: Seq<(Seq<char>, Seq<char>)>, j: int, v: Seq<char>)
    requires
        keys_unique(s),
        0 <= j < s.len(),
    ensures
        pairs_map(s.update(j, (s[j].0, v))) == pairs_map(s).insert(s[j].0, v),
    decreases s.len(),
{
    let t = s.update(j, (s[j].0, v));
    if j == s.len() - 1 {
        assert(t.drop_last() =~= s.drop_last());
        assert(pairs_map(s).insert(s[j].0, v) =~= pairs_map(s.drop_last()).insert(s[j].0, v));
    } else {
        assert(t.drop_last() =~= s.drop_last().update(j, (s[j].0, v)));
        lemma_pairs_map_update(s.drop_last(), j, v);
        assert(pairs_map(t) =~= pairs_map(s).insert(s[j].0, v));
    }
}

/// Collects `pairs` into unique keys, each with the last value given for it,
/// in the order in which the keys first occur.
pub fn collect_last_wins(pairs: Vec<(String, String)>) -> (r: Vec<(String, String)>)
    ensures
        keys_unique(pairs_view(r@)),
        pairs_map(pairs_view(r@)) == pairs_map(pairs_view(pairs@)),
{
    let mut out: Vec<(String, String)> = Vec::new();
    let n = pairs.len();
    let ghost all = pairs_view(pairs@);
    let mut i: usize = 0;
    while i < n
        invariant
            n == pairs@.len(),
            all == pairs_view(pairs@),
            i <= n,
            keys_unique(pairs_view(out@)),
            pairs_map(pairs_view(out@)) == pairs_map(all.subrange(0, i as int)),
        decreases n - i,
    {
        let k = pairs[i].0.clone();
        let v = pairs[i].1.clone();
        proof {
            assert(all.subrange(0, i as int + 1).drop_last() =~= all.subrange(0, i as int));
        }
        let mut j: usize = 0;
        let mut found = false;
        while j < out.len()
            invariant_except_break
                !found,
            invariant
                j <= out.len(),
                forall|m: int| 0 <= m < j ==> out@[m].0@ != k@,
            ensures
                found ==> j < out.len() && out@[j as int].0@ == k@,
                !found ==> forall|m: int| 0 <= m < out.len() ==> out@[m].0@ != k@,
            decreases out.len() - j,
        {
            if out[j].0 == k {
                found = true;
                break;
            }
            j = j + 1;
        }
        let ghost before = pairs_view(out@);
        if found {
            let (old_k, _) = out.remove(j);
            out.insert(j, (old_k, v));
            proof {
                assert(pairs_view(out@) =~= before.update(j as int, (before[j as int].0, v@)));
                lemma_pairs_map_update(before, j as int, v@);
            }
        } else {
            out.push((k, v));
            proof {
                assert(pairs_view(out@) =~= before.push((k@, v@)));
                assert(pairs_view(out@).drop_last() =~= before);
            }
        }
        i = i + 1;
    }
    proof {
        assert(all.subrange(0, n as int) =~= all);
    }
    out
}

/// The mapping that optional pairs give.
pub open spec fn opt_pairs_map(o: Option<Vec<(String, String)>>) -> Option<Map<Seq<char>, Seq<char>>> {
    match o {
        Some(v) => Some(pairs_map(pairs_view(v@))),
        None => None,
    }
}

/// What reading the parameters of a query component gives.
pub open spec fn query_params_outcome(query: Option<Seq<char>>, r: Option<Vec<(String, String)>>) -> bool {
    &&& opt_pairs_map(r) == query_params_of(query)
    &&& (r matches Some(v) ==> keys_unique(pairs_view(v@)))
    &&& match query {
        Some(q) => needs_no_decoding(q) ==> opt_pairs_map(r) == Some(pairs_map(plain_pairs(q))),
        None => true,
    }
}

/// The query parameters of a query component: `None` where there is no
/// query; else each key once, with the last value given for it.
pub fn query_params(query: Option<&str>) -> (r: Option<Vec<(String, String)>>)
    ensures
        query_params_outcome(
            match query {
                Some(q) => Some(q@),
                None => None,
            },
            r,
        ),
{
    match query {
        Some(q) => Some(collect_last_wins(decode_pairs(q))),
        None => None,
    }
}

/// Text that stands for itself inside a query pair.
pub open spec fn is_plain_text(s: Seq<char>) -> bool {
    !s.contains('&') && !s.contains('=') && needs_no_decoding(s)
}

pub proof fn lemma_concat_lacks(a: Seq<char>, b: Seq<char>, c: char)
    requires
        !a.contains(c),
        !b.contains(c),
    ensures
        !(a + b).contains(c),
{
    if (a + b).contains(c) {
        let k = choose|k: int| 0 <= k < (a + b).len() && (a + b)[k] == c;
        if k < a.len() {
            assert(a[k] == c);
        } else {
            assert(b[k - a.len()] == c);
        }
    }
}

proof fn lemma_plain_piece(k: Seq<char>, v: Seq<char>)
    requires
        is_plain_text(k),
        is_plain_text(v),
    ensures
        piece_pair(k + seq!['='] + v) == (k, v),
{
    lemma_before_char_split(k, v, '=');
    assert((k + seq!['='] + v).subrange(k.len() as int + 1, (k + seq!['='] + v).len() as int) =~= v);
}

/// A query `k1=v1&k2=v2` of plain text gives the
/// parameters `{k1: v1, k2: v2}` (`v2` alone where the keys are equal).
pub proof fn lemma_two_pair_query(
    k1: Seq<char>,
    v1: Seq<char>,
    k2: Seq<char>,
    v2: Seq<char>,
    r: Option<Vec<(String, String)>>,
)
    requires
        is_plain_text(k1),
        is_plain_text(v1),
        is_plain_text(k2),
        is_plain_text(v2),
        query_params_outcome(Some(k1 + seq!['='] + v1 + seq!['&'] + k2 + seq!['='] + v2), r),
    ensures
        opt_pairs_map(r) == Some(Map::<Seq<char>, Seq<char>>::empty().insert(k1, v1).insert(k2, v2)),
{
    let p1 = k1 + seq!['='] + v1;
    let p2 = k2 + seq!['='] + v2;
    let q = p1 + seq!['&'] + p2;
    assert(q =~= k1 + seq!['='] + v1 + seq!['&'] + k2 + seq!['='] + v2);
    assert(!seq!['='].contains('&') && !seq!['='].contains('%') && !seq!['='].contains('+')) by {
        assert(seq!['='][0] == '=');
    }
    assert(!seq!['&'].contains('%') && !seq!['&'].contains('+')) by {
        assert(seq!['&'][0] == '&');
    }
    lemma_concat_lacks(k1, seq!['='], '&');
    lemma_concat_lacks(k1 + seq!['='], v1, '&');
    lemma_concat_lacks(k2, seq!['='], '&');
    lemma_concat_lacks(k2 + seq!['='], v2, '&');
    assert forall|c: char| c == '%' || c == '+' implies !q.contains(c) by {
        lemma_concat_lacks(k1, seq!['='], c);
        lemma_concat_lacks(k1 + seq!['='], v1, c);
        lemma_concat_lacks(p1, seq!['&'], c);
        lemma_concat_lacks(p1 + seq!['&'], k2, c);
        lemma_concat_lacks(p1 + seq!['&'] + k2, seq!['='], c);
        lemma_concat_lacks(p1 + seq!['&'] + k2 + seq!['='], v2, c);
        assert(p1 + seq!['&'] + k2 + seq!['='] + v2 =~= q);
    }
    assert(needs_no_decoding(q));
    lemma_before_char_split(p1, p2, '&');
    assert(q.subrange(p1.len() as int + 1, q.len() as int) =~= p2);
    lemma_before_char_absent(p2, '&');
    lemma_plain_piece(k1, v1);
    lemma_plain_piece(k2, v2);
    assert(plain_pairs(p2) =~= seq![(k2, v2)]);
    assert(plain_pairs(q) =~= seq![(k1, v1), (k2, v2)]);
    assert(seq![(k1, v1), (k2, v2)].drop_last() =~= seq![(k1, v1)]);
    assert(seq![(k1, v1)].drop_last() =~= Seq::<(Seq<char>, Seq<char>)>::empty());
    let one = seq![(k1, v1)];
    let two = seq![(k1, v1), (k2, v2)];
    assert(one.last() == (k1, v1));
    assert(pairs_map(one.drop_last()) == Map::<Seq<char>, Seq<char>>::empty());
    assert(pairs_map(one) == Map::<Seq<char>, Seq<char>>::empty().insert(k1, v1));
    assert(two.last() == (k2, v2));
    assert(two.drop_last() == one);
    assert(pairs_map(two) == Map::<Seq<char>, Seq<char>>::empty().insert(k1, v1).insert(k2, v2));
    assert(opt_pairs_map(r) == Some(pairs_map(plain_pairs(q))));
}

} // verus!
