//! The query evaluation engine. A query tree denotes a set of record
//! identifiers: a leaf denotes the identifiers of the records it
//! matches, an AND node the intersection of its children's sets, an OR
//! node their union. [`evaluate`] computes that set, each identifier
//! exactly once.

use crate::query::{CompoundQuery, Query, QueryType};
use crate::store::{matching_ids, Record, Store};
use vstd::prelude::*;

verus! {

/// A failure of the query engine's storage collaborator. Escalated to
/// terminating the connection, unlike insertion failures.
#[derive(Clone, Copy, PartialEq, Eq, Structural, Debug)]
pub enum QueryError {
    StorageFailure,
}

/// The result set of a query tree over the records `recs`.
///
/// An AND over no sub-queries is defined as the empty set — the
/// defensive reading, so that a degenerate query can never match the
/// whole store — and an OR over no sub-queries is empty as well, the
/// identity of union.
pub open spec fn eval(q: Query, recs: Seq<Record>) -> Set<u64>
    decreases q, 1int,
{
    match q {
        Query::Single(s) => matching_ids(recs, s.collection@, s.usecase@),
        Query::Compound(c) => match c.query_type {
            QueryType::And => if c.queries@.len() == 0 {
                Set::empty()
            } else {
                and_upto(c.queries@, recs, c.queries@.len() as int)
            },
            QueryType::Or => or_upto(c.queries@, recs, c.queries@.len() as int),
        },
    }
}

/// The union of the result sets of the first `i` queries of `qs`.
pub open spec fn or_upto(qs: Seq<Query>, recs: Seq<Record>, i: int) -> Set<u64>
    decreases qs, i,
{
    if i <= 0 || i > qs.len() {
        Set::empty()
    } else {
        or_upto(qs, recs, i - 1).union(eval(qs[i - 1], recs))
    }
}

/// The intersection of the result sets of the first `i` queries of
/// `qs`, for `i` at least 1.
pub open spec fn and_upto(qs: Seq<Query>, recs: Seq<Record>, i: int) -> Set<u64>
    decreases qs, i,
{
    if i <= 0 || i > qs.len() {
        Set::empty()
    } else if i == 1 {
        eval(qs[0], recs)
    } else {
        and_upto(qs, recs, i - 1).intersect(eval(qs[i - 1], recs))
    }
}

/// Whether `v` holds the identifier `x`.
pub fn contains_id(v: &Vec<u64>, x: u64) -> (r: bool)
    ensures
        r == v@.contains(x),
{
    let mut i: usize = 0;
    while i < v.len()
        invariant
            i <= v@.len(),
            forall|j: int| 0 <= j < i ==> v@[j] != x,
        decreases v@.len() - i,
    {
        if v[i] == x {
            return true;
        }
        i = i + 1;
    }
    false
}

proof fn lemma_push_to_set(s: Seq<u64>, x: u64)
    ensures
        s.push(x).to_set() =~= s.to_set().insert(x),
{
    assert forall|y: u64| #[trigger] s.push(x).contains(y) implies s.contains(y) || y == x by {
        let i = choose|i: int| 0 <= i < s.push(x).len() && s.push(x)[i] == y;
        if i < s.len() {
            assert(s[i] == y);
        }
    }
    assert forall|y: u64| s.contains(y) implies #[trigger] s.push(x).contains(y) by {
        let i = choose|i: int| 0 <= i < s.len() && s[i] == y;
        assert(s.push(x)[i] == y);
    }
    assert(s.push(x)[s.len() as int] == x);
}

/// Appends to `acc` the identifiers of `other` that it does not hold
/// yet: the union of the two, each identifier exactly once.
pub fn union_ids(acc: Vec<u64>, other: &Vec<u64>) -> (r: Vec<u64>)
    requires
        acc@.no_duplicates(),
    ensures
        r@.to_set() == acc@.to_set().union(other@.to_set()),
        r@.no_duplicates(),
{
    let mut out = acc;
    let mut i: usize = 0;
    while i < other.len()
        invariant
            i <= other@.len(),
            out@.to_set() == acc@.to_set().union(other@.take(i as int).to_set()),
            out@.no_duplicates(),
        decreases other@.len() - i,
    {
        let ghost prev = out@;
        let x = other[i];
        if !contains_id(&out, x) {
            out.push(x);
        }
        proof {
            lemma_push_to_set(prev, x);
            lemma_push_to_set(other@.take(i as int), x);
            assert(other@.take(i + 1) =~= other@.take(i as int).push(x));
            if prev.contains(x) {
                assert(out@.to_set() =~= acc@.to_set().union(other@.take(i + 1).to_set()));
            } else {
                assert(out@.to_set() =~= acc@.to_set().union(other@.take(i + 1).to_set()));
            }
        }
        i = i + 1;
    }
    proof {
        assert(other@.take(other@.len() as int) =~= other@);
    }
    out
}

/// Keeps the identifiers of `a` that `b` holds too: the intersection of
/// the two, each identifier exactly once.
pub fn intersect_ids(a: &Vec<u64>, b: &Vec<u64>) -> (r: Vec<u64>)
    requires
        a@.no_duplicates(),
    ensures
        r@.to_set() == a@.to_set().intersect(b@.to_set()),
        r@.no_duplicates(),
{
    let mut out: Vec<u64> = Vec::new();
    let mut i: usize = 0;
    while i < a.len()
        invariant
            i <= a@.len(),
            a@.no_duplicates(),
            out@.to_set() == a@.take(i as int).to_set().intersect(b@.to_set()),
            out@.no_duplicates(),
        decreases a@.len() - i,
    {
        let ghost prev = out@;
        let x = a[i];
        if contains_id(b, x) {
            proof {
                assert(!prev.contains(x)) by {
                    if prev.contains(x) {
                        assert(prev.to_set().contains(x));
                        assert(a@.take(i as int).to_set().contains(x));
                        assert(a@.take(i as int).contains(x));
                        let j = choose|j: int| 0 <= j < i && a@.take(i as int)[j] == x;
                        assert(a@[j] == a@[i as int]);
                    }
                }
            }
            out.push(x);
        }
        proof {
            lemma_push_to_set(prev, x);
            lemma_push_to_set(a@.take(i as int), x);
            assert(a@.take(i + 1) =~= a@.take(i as int).push(x));
            assert(out@.to_set() =~= a@.take(i + 1).to_set().intersect(b@.to_set()));
        }
        i = i + 1;
    }
    proof {
        assert(a@.take(a@.len() as int) =~= a@);
    }
    out
}

proof fn lemma_compound_child_decreases(q: Query, j: int)
    requires
        q is Compound,
        0 <= j < q->Compound_0.queries@.len(),
    ensures
        decreases_to!(q => q->Compound_0.queries@[j]),
{
    assert(decreases_to!(q => q->Compound_0));
    assert(decreases_to!(q->Compound_0 => q->Compound_0.queries));
    assert(decreases_to!(q->Compound_0.queries => q->Compound_0.queries@));
    assert(decreases_to!(q->Compound_0.queries@ => q->Compound_0.queries@[j]));
}

/// Evaluates a query tree over the store: returns the identifiers of
/// its result set, each exactly once. Children are evaluated left to
/// right; an AND over no sub-queries matches nothing, as does an OR
/// over none.
pub fn evaluate(query: &Query, store: &Store) -> (r: Vec<u64>)
    requires
        store.wf(),
    ensures
        r@.to_set() == eval(*query, store.records@),
        r@.no_duplicates(),
    decreases *query,
{
    match query {
        Query::Single(s) => store.find(&s.collection, &s.usecase),
        Query::Compound(c) => {
            match c.query_type {
                QueryType::Or => {
                    let mut acc: Vec<u64> = Vec::new();
                    let mut j: usize = 0;
                    proof {
                        assert(acc@.to_set() =~= Set::<u64>::empty());
                    }
                    while j < c.queries.len()
                        invariant
                            store.wf(),
                            j <= c.queries@.len(),
                            c.query_type == QueryType::Or,
                            *query == Query::Compound(*c),
                            acc@.to_set() == or_upto(c.queries@, store.records@, j as int),
                            acc@.no_duplicates(),
                        decreases c.queries@.len() - j,
                    {
                        proof {
                            lemma_compound_child_decreases(*query, j as int);
                        }
                        let child = evaluate(&c.queries[j], store);
                        acc = union_ids(acc, &child);
                        j = j + 1;
                    }
                    acc
                },
                QueryType::And => {
                    if c.queries.len() == 0 {
                        let empty_ids: Vec<u64> = Vec::new();
                        proof {
                            assert(empty_ids@.to_set() =~= Set::<u64>::empty());
                        }
                        empty_ids
                    } else {
                        let mut acc = evaluate(&c.queries[0], store);
                        let mut j: usize = 1;
                        while j < c.queries.len()
                            invariant
                                store.wf(),
                                1 <= j <= c.queries@.len(),
                                c.query_type == QueryType::And,
                                *query == Query::Compound(*c),
                                c.queries@.len() > 0,
                                acc@.to_set() == and_upto(c.queries@, store.records@, j as int),
                                acc@.no_duplicates(),
                            decreases c.queries@.len() - j,
                        {
                            proof {
                                lemma_compound_child_decreases(*query, j as int);
                            }
                            let child = evaluate(&c.queries[j], store);
                            acc = intersect_ids(&acc, &child);
                            j = j + 1;
                        }
                        acc
                    }
                },
            }
        },
    }
}

/// Law: a duplicated OR operand changes nothing. An OR of a sub-query
/// with itself yields the same result set as that sub-query alone —
/// duplicate identifiers are suppressed.
pub proof fn lemma_or_duplicate_child(c: CompoundQuery, recs: Seq<Record>)
    requires
        c.query_type == QueryType::Or,
        c.queries@.len() == 2,
        c.queries@[1] == c.queries@[0],
    ensures
        eval(Query::Compound(c), recs) == eval(c.queries@[0], recs),
{
    reveal_with_fuel(eval, 4);
    reveal_with_fuel(or_upto, 5);
    assert(eval(Query::Compound(c), recs) =~= eval(c.queries@[0], recs));
}

/// Law: an AND is a refinement of each of its operands. The result set
/// of an AND of two sub-queries is a subset of either sub-query's own
/// result set.
pub proof fn lemma_and_subset(c: CompoundQuery, recs: Seq<Record>)
    requires
        c.query_type == QueryType::And,
        c.queries@.len() == 2,
    ensures
        eval(Query::Compound(c), recs).subset_of(eval(c.queries@[0], recs)),
        eval(Query::Compound(c), recs).subset_of(eval(c.queries@[1], recs)),
{
    reveal_with_fuel(and_upto, 3);
    assert(eval(Query::Compound(c), recs) == and_upto(c.queries@, recs, 2));
}

/// Law: OR is associative. Grouping three sub-queries as
/// `Or(a, Or(b, cq))` or as `Or(Or(a, b), cq)` yields the same result
/// set.
pub proof fn lemma_or_associative(
    left: CompoundQuery,
    left_inner: CompoundQuery,
    right: CompoundQuery,
    right_inner: CompoundQuery,
    recs: Seq<Record>,
)
    requires
        left.query_type == QueryType::Or,
        left_inner.query_type == QueryType::Or,
        right.query_type == QueryType::Or,
        right_inner.query_type == QueryType::Or,
        left.queries@.len() == 2,
        left_inner.queries@.len() == 2,
        right.queries@.len() == 2,
        right_inner.queries@.len() == 2,
        left.queries@[0] == right_inner.queries@[0],
        left.queries@[1] == Query::Compound(left_inner),
        left_inner.queries@[0] == right_inner.queries@[1],
        right.queries@[0] == Query::Compound(right_inner),
        right.queries@[1] == left_inner.queries@[1],
    ensures
        eval(Query::Compound(left), recs) == eval(Query::Compound(right), recs),
{
    reveal_with_fuel(eval, 3);
    reveal_with_fuel(or_upto, 4);
    let a = eval(left.queries@[0], recs);
    let b = eval(left_inner.queries@[0], recs);
    let cq = eval(left_inner.queries@[1], recs);
    assert(eval(Query::Compound(left_inner), recs) =~= b.union(cq));
    assert(eval(Query::Compound(right_inner), recs) =~= a.union(b));
    assert(eval(Query::Compound(left), recs) =~= a.union(b.union(cq)));
    assert(eval(Query::Compound(right), recs) =~= a.union(b).union(cq));
    assert(eval(Query::Compound(left), recs) =~= eval(Query::Compound(right), recs));
}

/// Evaluates a query and returns the command that drives the connection
/// loop on. The in-process storage collaborator cannot fail, so the
/// result is always the identifiers of the query's result set together
/// with [`crate::connection::Command::Continue`]; a storage failure
/// would instead surface as a [`QueryError`], which callers escalate to
/// terminating the connection.
pub fn handle_query(query: &Query, store: &Store) -> (r: Result<
    (crate::connection::Command, Vec<u64>),
    QueryError,
>)
    requires
        store.wf(),
    ensures
        r is Ok,
        r->Ok_0.0 is Continue,
        r->Ok_0.1@.to_set() == eval(*query, store.records@),
        r->Ok_0.1@.no_duplicates(),
{
    let ids = evaluate(query, store);
    Ok((crate::connection::Command::Continue, ids))
}

} // verus!
