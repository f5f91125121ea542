//! Joining the target of a request with the rewritten one.
//!
//! The two queries are joined as maps are: each key stands once in the result,
//! with the value of the rewritten target where both have it. The pairs are
//! kept in a sequence, in the order in which their keys first stand, so that
//! the text of the joined query is the same for the same two targets.

use vstd::prelude::*;
use crate::rewrite::error::{RewriteError, RewriteErrorKind};
use crate::uri::{
    accepts_path_and_query, is_path_and_query, uri_from_parts, uri_path, uri_query, Uri, UriView,
};

verus! {

/// The pairs of key and value that `serde_urlencoded::from_str` reads from the
/// text of a query, in the order of the text; `None` where it reports an error.
pub uninterp spec fn query_pairs(query: Seq<char>) -> Option<Seq<(Seq<char>, Seq<char>)>>;

/// The text that `serde_urlencoded::to_string` writes for pairs of key and
/// value; `None` where it reports an error.
pub uninterp spec fn query_text(pairs: Seq<(Seq<char>, Seq<char>)>) -> Option<Seq<char>>;

/// Trusted: `serde_urlencoded::from_str`, read as a sequence of pairs of strings.
/// The parser reads nothing but its argument.
#[verifier::external_body]
pub(crate) fn parse_query(query: &str) -> (r: Result<
    Vec<(String, String)>,
    serde_urlencoded::de::Error,
>)
    ensures
        match r {
            Ok(pairs) => query_pairs(query@) == Some(pairs.deep_view()),
            Err(_) => query_pairs(query@) is None,
        },
{
    serde_urlencoded::from_str::<Vec<(String, String)>>(query)
}

/// Trusted: `serde_urlencoded::to_string` on a sequence of pairs of strings. The
/// writer reads nothing but its argument.
#[verifier::external_body]
pub(crate) fn encode_query(pairs: &Vec<(String, String)>) -> (r: Result<
    String,
    serde_urlencoded::ser::Error,
>)
    ensures
        match r {
            Ok(text) => query_text(pairs.deep_view()) == Some(text@),
            Err(_) => query_text(pairs.deep_view()) is None,
        },
{
    serde_urlencoded::to_string(pairs)
}

/// The pairs with `value` under `key`: in the place of the pair that had the
/// key, or behind all pairs where none had it.
pub open spec fn put(pairs: Seq<(Seq<char>, Seq<char>)>, key: Seq<char>, value: Seq<char>) -> Seq<
    (Seq<char>, Seq<char>),
>
    decreases pairs.len(),
{
    if pairs.len() == 0 {
        seq![(key, value)]
    } else if pairs[0].0 == key {
        seq![(key, value)] + pairs.skip(1)
    } else {
        seq![pairs[0]] + put(pairs.skip(1), key, value)
    }
}

/// The pairs `base` with each pair of `more` put in, one after the other.
pub open spec fn merge(base: Seq<(Seq<char>, Seq<char>)>, more: Seq<(Seq<char>, Seq<char>)>) -> Seq<
    (Seq<char>, Seq<char>),
>
    decreases more.len(),
{
    if more.len() == 0 {
        base
    } else {
        merge(put(base, more[0].0, more[0].1), more.skip(1))
    }
}

/// Pairs in which each key stands once: the pairs put one by one into none.
pub open spec fn unique(pairs: Seq<(Seq<char>, Seq<char>)>) -> Seq<(Seq<char>, Seq<char>)> {
    merge(Seq::empty(), pairs)
}

/// The value that stands under a key in the pairs, where the key stands in them.
pub open spec fn lookup(pairs: Seq<(Seq<char>, Seq<char>)>, key: Seq<char>) -> Option<Seq<char>>
    decreases pairs.len(),
{
    if pairs.len() == 0 {
        None
    } else if pairs[0].0 == key {
        Some(pairs[0].1)
    } else {
        lookup(pairs.skip(1), key)
    }
}

/// `put` acts at the first pair with the key.
proof fn put_at_first(
    pairs: Seq<(Seq<char>, Seq<char>)>,
    key: Seq<char>,
    value: Seq<char>,
    at: int,
)
    requires
        0 <= at <= pairs.len(),
        forall|j: int| 0 <= j < at ==> pairs[j].0 != key,
        at < pairs.len() ==> pairs[at].0 == key,
    ensures
        put(pairs, key, value) == if at < pairs.len() {
            pairs.update(at, (key, value))
        } else {
            pairs.push((key, value))
        },
    decreases pairs.len(),
{
    if pairs.len() == 0 {
        assert(pairs.push((key, value)) =~= seq![(key, value)]);
    } else if at == 0 {
        assert(pairs.update(0, (key, value)) =~= seq![(key, value)] + pairs.skip(1));
    } else {
        let rest = pairs.skip(1);
        assert(pairs[0].0 != key);
        assert forall|j: int| 0 <= j < at - 1 implies rest[j].0 != key by {
            assert(rest[j] == pairs[j + 1]);
        }
        put_at_first(rest, key, value, at - 1);
        if at < pairs.len() {
            assert(pairs.update(at, (key, value)) =~= seq![pairs[0]] + rest.update(
                at - 1,
                (key, value),
            ));
        } else {
            assert(pairs.push((key, value)) =~= seq![pairs[0]] + rest.push((key, value)));
        }
    }
}

/// Whether each key stands once in the pairs, as in a map.
pub open spec fn distinct_keys(pairs: Seq<(Seq<char>, Seq<char>)>) -> bool {
    forall|i: int, j: int| 0 <= i < j < pairs.len() ==> pairs[i].0 != pairs[j].0
}

/// The position of the first pair with a key, or the number of pairs where none
/// has it.
pub open spec fn position(pairs: Seq<(Seq<char>, Seq<char>)>, key: Seq<char>) -> int
    decreases pairs.len(),
{
    if pairs.len() == 0 || pairs[0].0 == key {
        0
    } else {
        1 + position(pairs.skip(1), key)
    }
}

/// `position` is where the key first stands.
proof fn position_is_first(pairs: Seq<(Seq<char>, Seq<char>)>, key: Seq<char>)
    ensures
        0 <= position(pairs, key) <= pairs.len(),
        forall|j: int| 0 <= j < position(pairs, key) ==> pairs[j].0 != key,
        position(pairs, key) < pairs.len() ==> pairs[position(pairs, key)].0 == key,
    decreases pairs.len(),
{
    if pairs.len() > 0 && pairs[0].0 != key {
        let rest = pairs.skip(1);
        position_is_first(rest, key);
        assert forall|j: int| 0 <= j < position(pairs, key) implies pairs[j].0 != key by {
            if j > 0 {
                assert(pairs[j] == rest[j - 1]);
            }
        }
        if position(pairs, key) < pairs.len() {
            assert(pairs[position(pairs, key)] == rest[position(rest, key)]);
        }
    }
}

/// Pairs in which each key stands once stay so under `put`: the pair is
/// replaced where the key stands, and added where it does not.
pub proof fn put_keeps_keys_distinct(
    pairs: Seq<(Seq<char>, Seq<char>)>,
    key: Seq<char>,
    value: Seq<char>,
)
    requires
        distinct_keys(pairs),
    ensures
        distinct_keys(put(pairs, key, value)),
{
    position_is_first(pairs, key);
    put_at_first(pairs, key, value, position(pairs, key));
}

/// Pairs in which each key stands once stay so under `merge`.
pub proof fn merge_keeps_keys_distinct(
    base: Seq<(Seq<char>, Seq<char>)>,
    more: Seq<(Seq<char>, Seq<char>)>,
)
    requires
        distinct_keys(base),
    ensures
        distinct_keys(merge(base, more)),
    decreases more.len(),
{
    if more.len() > 0 {
        put_keeps_keys_distinct(base, more[0].0, more[0].1);
        merge_keeps_keys_distinct(put(base, more[0].0, more[0].1), more.skip(1));
    }
}

/// The pairs of a joined query are those of a map: whatever the two queries
/// hold, each key stands once in what is written.
pub proof fn joined_pairs_are_a_map(
    before: Seq<(Seq<char>, Seq<char>)>,
    after: Seq<(Seq<char>, Seq<char>)>,
)
    ensures
        distinct_keys(unique(before)),
        distinct_keys(merge(unique(before), unique(after))),
{
    merge_keeps_keys_distinct(Seq::empty(), before);
    merge_keeps_keys_distinct(unique(before), unique(after));
}

/// After `put`, the key has the new value and every other key has what it had.
pub proof fn put_sets_one_key(
    pairs: Seq<(Seq<char>, Seq<char>)>,
    key: Seq<char>,
    value: Seq<char>,
    other: Seq<char>,
)
    ensures
        lookup(put(pairs, key, value), key) == Some(value),
        other != key ==> lookup(put(pairs, key, value), other) == lookup(pairs, other),
    decreases pairs.len(),
{
    let after = put(pairs, key, value);
    if pairs.len() == 0 {
        assert(after[0] == (key, value));
        assert(after.skip(1) =~= Seq::empty());
        assert(lookup(after.skip(1), other) is None);
    } else if pairs[0].0 == key {
        assert(after[0] == (key, value));
        assert(after.skip(1) =~= pairs.skip(1));
    } else {
        put_sets_one_key(pairs.skip(1), key, value, other);
        assert(after[0] == pairs[0]);
        assert(after.skip(1) =~= put(pairs.skip(1), key, value));
    }
}

/// After `merge`, a key of `more` has the value of its last pair in `more`, and
/// every other key has what it had in `base`.
pub proof fn merge_prefers_later(
    base: Seq<(Seq<char>, Seq<char>)>,
    more: Seq<(Seq<char>, Seq<char>)>,
    key: Seq<char>,
)
    ensures
        lookup(merge(base, more), key) == match lookup(more.reverse(), key) {
            Some(value) => Some(value),
            None => lookup(base, key),
        },
    decreases more.len(),
{
    if more.len() > 0 {
        let first = more[0];
        let rest = more.skip(1);
        put_sets_one_key(base, first.0, first.1, key);
        merge_prefers_later(put(base, first.0, first.1), rest, key);
        lookup_behind(rest.reverse(), seq![first], key);
        assert(rest.reverse() + seq![first] =~= more.reverse());
        assert(seq![first][0] == first);
        assert(seq![first].skip(1) =~= Seq::<(Seq<char>, Seq<char>)>::empty());
        assert(lookup(seq![first].skip(1), key) is None);
    } else {
        assert(more.reverse().len() == 0);
    }
}

/// In pairs that stand one behind the other, the first ones are asked first.
proof fn lookup_behind(
    head: Seq<(Seq<char>, Seq<char>)>,
    tail: Seq<(Seq<char>, Seq<char>)>,
    key: Seq<char>,
)
    ensures
        lookup(head + tail, key) == match lookup(head, key) {
            Some(value) => Some(value),
            None => lookup(tail, key),
        },
    decreases head.len(),
{
    if head.len() == 0 {
        assert(head + tail =~= tail);
    } else {
        lookup_behind(head.skip(1), tail, key);
        assert((head + tail).skip(1) =~= head.skip(1) + tail);
    }
}

/// Puts `value` under `key` into the pairs.
pub fn put_pair(pairs: &mut Vec<(String, String)>, key: String, value: String)
    ensures
        final(pairs).deep_view() == put(old(pairs).deep_view(), key@, value@),
        distinct_keys(old(pairs).deep_view()) ==> distinct_keys(final(pairs).deep_view()),
{
    proof {
        if distinct_keys(pairs.deep_view()) {
            put_keeps_keys_distinct(pairs.deep_view(), key@, value@);
        }
    }
    let ghost before = pairs.deep_view();
    let mut at: usize = 0;
    while at < pairs.len()
        invariant
            at <= pairs.len(),
            pairs.deep_view() == before,
            before == old(pairs).deep_view(),
            forall|j: int| 0 <= j < at ==> before[j].0 != key@,
        decreases pairs.len() - at,
    {
        assert(before[at as int] == pairs@[at as int].deep_view());
        if crate::text::same(pairs[at].0.as_str(), key.as_str()) {
            proof {
                put_at_first(before, key@, value@, at as int);
            }
            pairs[at] = (key, value);
            assert(pairs.deep_view() =~= before.update(at as int, (key@, value@)));
            return ;
        }
        at += 1;
    }
    proof {
        put_at_first(before, key@, value@, at as int);
    }
    pairs.push((key, value));
    assert(pairs.deep_view() =~= before.push((key@, value@)));
}

/// Puts each pair of `more` into `base`, one after the other.
pub fn merge_pairs(base: &mut Vec<(String, String)>, more: Vec<(String, String)>)
    ensures
        final(base).deep_view() == merge(old(base).deep_view(), more.deep_view()),
        distinct_keys(old(base).deep_view()) ==> distinct_keys(final(base).deep_view()),
{
    proof {
        if distinct_keys(base.deep_view()) {
            merge_keeps_keys_distinct(base.deep_view(), more.deep_view());
        }
    }
    let ghost all = more.deep_view();
    let ghost start = base.deep_view();
    let ghost items = more@;
    assert(all.skip(0) =~= all);
    for pair in it: more
        invariant
            it.seq() == items,
            all.len() == items.len(),
            forall|j: int| 0 <= j < items.len() ==> all[j] == #[trigger] items[j].deep_view(),
            merge(start, all) == merge(base.deep_view(), all.skip(it.index() as int)),
    {
        let ghost rest = all.skip(it.index() as int);
        assert(rest[0] == pair.deep_view());
        assert(rest.skip(1) =~= all.skip(it.index() + 1));
        put_pair(base, pair.0, pair.1);
    }
    assert(all.skip(all.len() as int) =~= Seq::empty());
}

/// The joined target, or the kind of error that keeps the two from being joined.
///
/// The query holds the keys of both, each once, with the value of the rewritten
/// target where both have the key. Scheme and authority are those of the
/// rewritten target where it has them, else those of the request, and the scheme
/// `http` where neither has one. The path is that of the rewritten target.
pub open spec fn joined(before: UriView, after: UriView) -> Result<UriView, RewriteErrorKind> {
    let query_before = uri_query(before).unwrap_or(Seq::empty());
    let query_after = uri_query(after).unwrap_or(Seq::empty());
    match (query_pairs(query_before), query_pairs(query_after)) {
        (Some(pairs_before), Some(pairs_after)) => {
            match query_text(merge(unique(pairs_before), unique(pairs_after))) {
                Some(query) => {
                    let scheme = match (after.scheme, before.scheme) {
                        (Some(s), _) => s,
                        (None, Some(s)) => s,
                        (None, None) => "http"@,
                    };
                    let authority = match after.authority {
                        Some(a) => Some(a),
                        None => before.authority,
                    };
                    let text = uri_path(after) + seq!['?'] + query;
                    if !is_path_and_query(text) {
                        Err(RewriteErrorKind::PathAndQuery)
                    } else {
                        match uri_from_parts(Some(scheme), authority, Some(text)) {
                            Ok(uri) => Ok(uri),
                            Err(e) => Err(RewriteErrorKind::Parts(e)),
                        }
                    }
                },
                None => Err(RewriteErrorKind::QueryEncode),
            }
        },
        _ => Err(RewriteErrorKind::QueryDecode),
    }
}

/// Reads the query of a target as pairs in which each key stands once.
fn get_query(uri: &Uri) -> (r: Result<Vec<(String, String)>, RewriteError>)
    ensures
        match r {
            Ok(pairs) => query_pairs(uri_query(uri@).unwrap_or(Seq::empty())) matches Some(read)
                && pairs.deep_view() == unique(read),
            Err(e) => e.kind() == RewriteErrorKind::QueryDecode && query_pairs(
                uri_query(uri@).unwrap_or(Seq::empty()),
            ) is None,
        },
{
    let query = match uri.query() {
        Some(q) => q,
        None => String::new(),
    };
    match parse_query(query.as_str()) {
        Ok(read) => {
            let mut pairs: Vec<(String, String)> = Vec::new();
            assert(pairs.deep_view() =~= Seq::empty());
            merge_pairs(&mut pairs, read);
            Ok(pairs)
        },
        Err(e) => Err(RewriteError::QueryDecode(e)),
    }
}

/// Joins the target of a request with the one that the rules made of it.
pub fn join_uri(before: &Uri, after: &Uri) -> (r: Result<Uri, RewriteError>)
    ensures
        match r {
            Ok(uri) => Ok(uri@),
            Err(e) => Err(e.kind()),
        } == joined(before@, after@),
{
    let mut query = get_query(before)?;
    let more = get_query(after)?;
    merge_pairs(&mut query, more);
    let query = match encode_query(&query) {
        Ok(text) => text,
        Err(e) => return Err(RewriteError::QueryEncode(e)),
    };
    let scheme = match after.scheme() {
        Some(s) => s.clone(),
        None => match before.scheme() {
            Some(s) => s.clone(),
            None => "http".to_owned(),
        },
    };
    let authority = match after.authority() {
        Some(a) => Some(a.clone()),
        None => before.authority().clone(),
    };
    let mut text = after.path();
    text.append("?");
    text.append(query.as_str());
    proof {
        reveal_strlit("?");
        assert("?"@ =~= seq!['?']);
    }
    if !accepts_path_and_query(text.as_str()) {
        return Err(RewriteError::PathAndQuery);
    }
    match Uri::from_parts(Some(scheme), authority, Some(text)) {
        Ok(uri) => Ok(uri),
        Err(e) => Err(RewriteError::Parts(e)),
    }
}

} // verus!
