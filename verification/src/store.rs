//! The insertion pipeline and the in-process storage it fills: records
//! tagged with a collection, an access-control list and usecase tags,
//! each under an identifier that is never reused.

use vstd::prelude::*;

verus! {

/// An insertion request: a payload for a collection, with its
/// access-control list and its usecase tags. An empty collection name is
/// accepted and stands for the default, unscoped collection.
#[derive(Clone, Debug)]
pub struct Insertion {
    pub collection: String,
    pub data: Vec<u8>,
    pub acl: Vec<String>,
    pub usecases: Vec<String>,
}

/// A stored record: an insertion plus the identifier assigned to it.
#[derive(Clone, Debug)]
pub struct Record {
    pub id: u64,
    pub collection: String,
    pub data: Vec<u8>,
    pub acl: Vec<String>,
    pub usecases: Vec<String>,
}

/// Why an insertion was refused: the store has no fresh identifier left.
#[derive(Clone, Copy, PartialEq, Eq, Structural, Debug)]
pub enum InsertError {
    IdentifiersExhausted,
}

/// Whether a list of strings contains one that reads `needle`.
pub open spec fn contains_str(haystack: Seq<String>, needle: Seq<char>) -> bool {
    exists|i: int| 0 <= i < haystack.len() && #[trigger] haystack[i]@ == needle
}

/// Whether a record matches a leaf predicate: its collection equals
/// `collection` — or `collection` is empty, the wildcard — and its
/// usecase tags contain `usecase`.
pub open spec fn record_matches(r: Record, collection: Seq<char>, usecase: Seq<char>) -> bool {
    (collection.len() == 0 || r.collection@ == collection) && contains_str(r.usecases@, usecase)
}

/// The identifiers of the records in `recs` that match a leaf predicate.
pub open spec fn matching_ids(recs: Seq<Record>, collection: Seq<char>, usecase: Seq<char>) -> Set<
    u64,
> {
    Set::new(
        |id: u64|
            exists|i: int|
                0 <= i < recs.len() && (#[trigger] recs[i]).id == id && record_matches(
                    recs[i],
                    collection,
                    usecase,
                ),
    )
}

/// The identifiers of the records in `recs` that match a leaf predicate,
/// in the order the records stand in `recs`.
pub open spec fn matching_id_seq(
    recs: Seq<Record>,
    collection: Seq<char>,
    usecase: Seq<char>,
) -> Seq<u64>
    decreases recs.len(),
{
    if recs.len() == 0 {
        Seq::empty()
    } else {
        let rest = matching_id_seq(recs.drop_last(), collection, usecase);
        if record_matches(recs.last(), collection, usecase) {
            rest.push(recs.last().id)
        } else {
            rest
        }
    }
}

/// The storage collaborator: the records inserted so far and the next
/// identifier to hand out.
pub struct Store {
    pub records: Vec<Record>,
    pub next_id: u64,
}

impl Store {
    /// Every stored record's identifier was handed out earlier than
    /// `next_id`, and no identifier is carried by two records.
    pub open spec fn wf(self) -> bool {
        &&& forall|i: int|
            0 <= i < self.records@.len() ==> (#[trigger] self.records@[i]).id < self.next_id
        &&& forall|i: int, j: int|
            0 <= i < j < self.records@.len() ==> (#[trigger] self.records@[i]).id != (
            #[trigger] self.records@[j]).id
    }

    /// An empty store.
    pub fn new() -> (r: Store)
        ensures
            r.wf(),
            r.records@ == Seq::<Record>::empty(),
            r.next_id == 0,
    {
        Store { records: Vec::new(), next_id: 0 }
    }

    /// Accepts an insertion: assigns it the next fresh identifier,
    /// persists it, and returns the identifier. The identifier is never
    /// one handed out before. An empty collection name is accepted.
    /// Fails only when the identifier space is exhausted, leaving the
    /// store unchanged.
    pub fn insert(&mut self, insertion: Insertion) -> (r: Result<u64, InsertError>)
        requires
            old(self).wf(),
        ensures
            final(self).wf(),
            old(self).next_id < u64::MAX ==> r is Ok,
            old(self).next_id == u64::MAX ==> r is Err && *final(self) == *old(self),
            r is Ok ==> r->Ok_0 == old(self).next_id && final(self).next_id == old(self).next_id
                + 1 && final(self).records@ == old(self).records@.push(
                (Record {
                    id: old(self).next_id,
                    collection: insertion.collection,
                    data: insertion.data,
                    acl: insertion.acl,
                    usecases: insertion.usecases,
                }),
            ),
            r is Ok ==> forall|i: int|
                0 <= i < old(self).records@.len() ==> (#[trigger] old(self).records@[i]).id != r->Ok_0,
    {
        if self.next_id == u64::MAX {
            return Err(InsertError::IdentifiersExhausted);
        }
        let id = self.next_id;
        let record = Record {
            id,
            collection: insertion.collection,
            data: insertion.data,
            acl: insertion.acl,
            usecases: insertion.usecases,
        };
        self.records.push(record);
        self.next_id = self.next_id + 1;
        Ok(id)
    }

    /// Returns the identifiers of the records that match a leaf
    /// predicate, each exactly once, in insertion order.
    pub fn find(&self, collection: &String, usecase: &String) -> (r: Vec<u64>)
        requires
            self.wf(),
        ensures
            r@ == matching_id_seq(self.records@, collection@, usecase@),
            r@.to_set() == matching_ids(self.records@, collection@, usecase@),
            r@.no_duplicates(),
    {
        let mut out: Vec<u64> = Vec::new();
        let mut k: usize = 0;
        while k < self.records.len()
            invariant
                self.wf(),
                k <= self.records@.len(),
                forall|id: u64| #[trigger]
                    out@.contains(id) <==> exists|i: int|
                        0 <= i < k && (#[trigger] self.records@[i]).id == id && record_matches(
                            self.records@[i],
                            collection@,
                            usecase@,
                        ),
                out@.no_duplicates(),
                out@ == matching_id_seq(self.records@.take(k as int), collection@, usecase@),
            decreases self.records@.len() - k,
        {
            let ghost prev = out@;
            let matched = record_matches_exec(&self.records[k], collection, usecase);
            if matched {
                let id = self.records[k].id;
                proof {
                    assert(!prev.contains(id)) by {
                        if prev.contains(id) {
                            let i = choose|i: int|
                                0 <= i < k && (#[trigger] self.records@[i]).id == id
                                    && record_matches(self.records@[i], collection@, usecase@);
                            assert(self.records@[i].id != self.records@[k as int].id);
                        }
                    }
                }
                out.push(id);
            }
            proof {
                assert forall|id: u64| #[trigger] out@.contains(id) implies exists|i: int|
                    0 <= i < k + 1 && (#[trigger] self.records@[i]).id == id && record_matches(
                        self.records@[i],
                        collection@,
                        usecase@,
                    ) by {
                    if prev.contains(id) {
                        let i = choose|i: int|
                            0 <= i < k && (#[trigger] self.records@[i]).id == id
                                && record_matches(self.records@[i], collection@, usecase@);
                        assert(0 <= i < k + 1 && self.records@[i].id == id && record_matches(
                            self.records@[i],
                            collection@,
                            usecase@,
                        ));
                    } else {
                        let idx = choose|idx: int| 0 <= idx < out@.len() && out@[idx] == id;
                        assert(idx == prev.len());
                        assert(self.records@[k as int].id == id);
                    }
                }
                assert forall|id: u64|
                    (exists|i: int|
                        0 <= i < k + 1 && (#[trigger] self.records@[i]).id == id
                            && record_matches(
                            self.records@[i],
                            collection@,
                            usecase@,
                        )) implies #[trigger] out@.contains(id) by {
                    let i = choose|i: int|
                        0 <= i < k + 1 && (#[trigger] self.records@[i]).id == id
                            && record_matches(self.records@[i], collection@, usecase@);
                    if i < k {
                        assert(prev.contains(id));
                        assert(out@.contains(id)) by {
                            if matched {
                                let idx = choose|idx: int|
                                    0 <= idx < prev.len() && prev[idx] == id;
                                assert(out@[idx] == id);
                            }
                        }
                    } else {
                        assert(matched);
                        assert(out@[out@.len() - 1] == id);
                    }
                }
                assert(self.records@.take(k + 1).drop_last() =~= self.records@.take(k as int));
                assert(self.records@.take(k + 1).last() == self.records@[k as int]);
            }
            k = k + 1;
        }
        proof {
            assert forall|id: u64| #[trigger]
                out@.to_set().contains(id) == matching_ids(
                self.records@,
                collection@,
                usecase@,
            ).contains(id) by {
                assert(out@.to_set().contains(id) == out@.contains(id));
            }
            assert(out@.to_set() =~= matching_ids(self.records@, collection@, usecase@));
            assert(self.records@.take(self.records@.len() as int) =~= self.records@);
        }
        out
    }
}

/// Whether `haystack` holds a string that reads `needle`.
pub fn contains_str_exec(haystack: &Vec<String>, needle: &String) -> (r: bool)
    ensures
        r == contains_str(haystack@, needle@),
{
    let mut i: usize = 0;
    while i < haystack.len()
        invariant
            i <= haystack@.len(),
            forall|j: int| 0 <= j < i ==> #[trigger] haystack@[j]@ != needle@,
        decreases haystack@.len() - i,
    {
        if crate::message_type::string_eq(&haystack[i], needle) {
            return true;
        }
        i = i + 1;
    }
    false
}

/// Whether a record matches a leaf predicate.
pub fn record_matches_exec(r: &Record, collection: &String, usecase: &String) -> (b: bool)
    ensures
        b == record_matches(*r, collection@, usecase@),
{
    let in_collection = collection.as_str().unicode_len() == 0
        || crate::message_type::string_eq(&r.collection, collection);
    in_collection && contains_str_exec(&r.usecases, usecase)
}

} // verus!
