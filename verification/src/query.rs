//! The query string of a request.
//!
//! An endpoint hands over its optional parameters as pairs of a name and a
//! value. A parameter whose value is empty is left out; the others are written
//! as `name=value`, in the order given, with `&` between one and the next.

use vstd::prelude::*;
use vstd::string::*;

verus! {

/// One parameter as it stands in the query: `name=value`.
pub open spec fn pair(name: Seq<char>, value: Seq<char>) -> Seq<char> {
    name + seq!['='] + value
}

/// The parameters that are written: those whose value is not empty.
pub open spec fn present(params: Seq<(Seq<char>, Seq<char>)>) -> Seq<(Seq<char>, Seq<char>)> {
    params.filter(|p: (Seq<char>, Seq<char>)| p.1.len() > 0)
}

/// The parts with `&` between each two neighbours: nothing before the first
/// and nothing after the last.
pub open spec fn joined(parts: Seq<Seq<char>>) -> Seq<char>
    decreases parts.len(),
{
    if parts.len() == 0 {
        Seq::empty()
    } else if parts.len() == 1 {
        parts[0]
    } else {
        joined(parts.drop_last()) + seq!['&'] + parts.last()
    }
}

/// The query string for the given parameters.
pub open spec fn query_of(params: Seq<(Seq<char>, Seq<char>)>) -> Seq<char> {
    joined(present(params).map_values(|p: (Seq<char>, Seq<char>)| pair(p.0, p.1)))
}

/// The names and values of the parameters as texts.
pub open spec fn texts(params: Seq<(&str, &str)>) -> Seq<(Seq<char>, Seq<char>)> {
    params.map_values(|p: (&str, &str)| (p.0@, p.1@))
}

/// What one more parameter at the end does to the query.
pub proof fn lemma_query_push(params: Seq<(Seq<char>, Seq<char>)>, name: Seq<char>, value: Seq<char>)
    ensures
        query_of(params.push((name, value))) == if value.len() == 0 {
            query_of(params)
        } else if present(params).len() == 0 {
            pair(name, value)
        } else {
            query_of(params) + seq!['&'] + pair(name, value)
        },
        present(params.push((name, value))).len() == if value.len() == 0 {
            present(params).len()
        } else {
            present(params).len() + 1
        },
{
    let keep = |p: (Seq<char>, Seq<char>)| p.1.len() > 0;
    let write = |p: (Seq<char>, Seq<char>)| pair(p.0, p.1);
    params.lemma_filter_push((name, value), keep);
    if value.len() > 0 {
        let before = present(params);
        let after = present(params.push((name, value)));
        assert(after == before.push((name, value)));
        assert(after.map_values(write) =~= before.map_values(write).push(pair(name, value)));
        assert(after.map_values(write).drop_last() =~= before.map_values(write));
    }
}

/// A parameter with an empty value leaves no trace: the query is the same as
/// if the parameter had not been given.
pub proof fn lemma_empty_value_is_left_out(params: Seq<(Seq<char>, Seq<char>)>, i: int)
    requires
        0 <= i < params.len(),
        params[i].1.len() == 0,
    ensures
        query_of(params.remove(i)) == query_of(params),
{
    let keep = |p: (Seq<char>, Seq<char>)| p.1.len() > 0;
    let before = params.subrange(0, i);
    let after = params.subrange(i + 1, params.len() as int);
    before.lemma_filter_push(params[i], keep);
    Seq::filter_distributes_over_add(before.push(params[i]), after, keep);
    Seq::filter_distributes_over_add(before, after, keep);
    assert(before.push(params[i]) + after =~= params);
}

/// With no parameter to write, the query is empty.
pub proof fn lemma_nothing_present_gives_empty_query(params: Seq<(Seq<char>, Seq<char>)>)
    requires
        forall|i: int| 0 <= i < params.len() ==> params[i].1.len() == 0,
    ensures
        query_of(params) == Seq::<char>::empty(),
{
    let keep = |p: (Seq<char>, Seq<char>)| p.1.len() > 0;
    params.lemma_all_neg_filter_empty(keep);
}

/// The joined text starts with the first part and ends with the last one, and
/// holds one separator less than it has parts: no separator stands before the
/// first part or after the last.
pub proof fn lemma_joined_has_no_outer_separator(parts: Seq<Seq<char>>)
    requires
        parts.len() > 0,
    ensures
        parts.first().is_prefix_of(joined(parts)),
        parts.last().is_suffix_of(joined(parts)),
        joined(parts).len() == parts.flatten().len() + parts.len() - 1,
    decreases parts.len(),
{
    if parts.len() == 1 {
        parts.lemma_flatten_singleton();
    } else {
        let front = parts.drop_last();
        lemma_joined_has_no_outer_separator(front);
        front.lemma_flatten_push(parts.last());
        assert(front.push(parts.last()) =~= parts);
    }
}

/// A query that is not empty ends with the last parameter that has a value,
/// written as `name=value`, and starts with the first such parameter.
pub proof fn lemma_query_has_no_outer_separator(params: Seq<(Seq<char>, Seq<char>)>)
    requires
        present(params).len() > 0,
    ensures
        pair(present(params).first().0, present(params).first().1).is_prefix_of(query_of(params)),
        pair(present(params).last().0, present(params).last().1).is_suffix_of(query_of(params)),
{
    let write = |p: (Seq<char>, Seq<char>)| pair(p.0, p.1);
    lemma_joined_has_no_outer_separator(present(params).map_values(write));
}

/// Builds the query string of a request from its optional parameters.
pub fn query_string(params: &[(&str, &str)]) -> (query: String)
    ensures
        query@ == query_of(texts(params@)),
{
    let mut query = String::new();
    let mut written: bool = false;
    let mut i: usize = 0;
    while i < params.len()
        invariant
            i <= params.len(),
            query@ == query_of(texts(params@.take(i as int))),
            written == (present(texts(params@.take(i as int))).len() > 0),
        decreases params.len() - i,
    {
        let (name, value) = params[i];
        proof {
            lemma_query_push(texts(params@.take(i as int)), name@, value@);
            assert(texts(params@.take(i + 1)) =~= texts(params@.take(i as int)).push(
                (name@, value@),
            ));
        }
        if !value.is_empty() {
            if written {
                query.push('&');
            }
            query.append(name);
            query.push('=');
            query.append(value);
            written = true;
            assert(query@ =~= query_of(texts(params@.take(i + 1))));
        }
        i += 1;
    }
    assert(params@.take(i as int) =~= params@);
    query
}

} // verus!
