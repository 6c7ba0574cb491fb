//! The recursive query model: a leaf predicate over collection and
//! usecase, or an AND/OR composition of sub-queries to arbitrary depth.

use vstd::prelude::*;

verus! {

/// How a compound query combines the result sets of its children:
/// intersection (`And`) or union (`Or`).
#[derive(Clone, Copy, PartialEq, Eq, Structural, Debug)]
pub enum QueryType {
    And,
    Or,
}

/// A leaf predicate. It matches the records whose collection equals
/// `collection` — every collection, if `collection` is empty — and whose
/// usecase tags contain `usecase`.
#[derive(Clone, Debug)]
pub struct SingleQuery {
    pub collection: String,
    pub usecase: String,
}

/// An AND/OR composition of an ordered list of sub-queries.
#[derive(Debug)]
pub struct CompoundQuery {
    pub query_type: QueryType,
    pub queries: Vec<Query>,
}

/// A query tree: a single predicate, or a compound of sub-queries.
#[derive(Debug)]
pub enum Query {
    Single(SingleQuery),
    Compound(CompoundQuery),
}

/// Builds a [`SingleQuery`], starting from empty collection and usecase.
#[derive(Clone, Debug)]
pub struct SingleQueryBuilder {
    pub collection: String,
    pub usecase: String,
}

/// Builds a [`CompoundQuery`], starting from an OR of no sub-queries.
#[derive(Debug)]
pub struct CompoundQueryBuilder {
    pub query_type: QueryType,
    pub queries: Vec<Query>,
}

impl SingleQueryBuilder {
    /// A builder for the predicate that matches every record of every
    /// collection that carries the empty usecase tag.
    pub fn new() -> (r: SingleQueryBuilder)
        ensures
            r.collection@ == Seq::<char>::empty(),
            r.usecase@ == Seq::<char>::empty(),
    {
        SingleQueryBuilder { collection: String::new(), usecase: String::new() }
    }

    /// Sets the collection the predicate matches.
    pub fn with_collection(self, collection: String) -> (r: SingleQueryBuilder)
        ensures
            r.collection == collection,
            r.usecase == self.usecase,
    {
        SingleQueryBuilder { collection, usecase: self.usecase }
    }

    /// Sets the usecase tag the predicate requires.
    pub fn with_usecase(self, usecase: String) -> (r: SingleQueryBuilder)
        ensures
            r.collection == self.collection,
            r.usecase == usecase,
    {
        SingleQueryBuilder { collection: self.collection, usecase }
    }

    /// Finishes the predicate.
    pub fn build(self) -> (r: SingleQuery)
        ensures
            r.collection == self.collection,
            r.usecase == self.usecase,
    {
        SingleQuery { collection: self.collection, usecase: self.usecase }
    }
}

impl CompoundQueryBuilder {
    /// A builder for a compound query of no sub-queries, combined by OR.
    pub fn new() -> (r: CompoundQueryBuilder)
        ensures
            r.query_type == QueryType::Or,
            r.queries@ == Seq::<Query>::empty(),
    {
        CompoundQueryBuilder { query_type: QueryType::Or, queries: Vec::new() }
    }

    /// Sets how the sub-queries are combined.
    pub fn with_query_type(self, query_type: QueryType) -> (r: CompoundQueryBuilder)
        ensures
            r.query_type == query_type,
            r.queries == self.queries,
    {
        CompoundQueryBuilder { query_type, queries: self.queries }
    }

    /// Appends one sub-query.
    pub fn with_query(self, query: Query) -> (r: CompoundQueryBuilder)
        ensures
            r.query_type == self.query_type,
            r.queries@ == self.queries@.push(query),
    {
        let mut queries = self.queries;
        queries.push(query);
        CompoundQueryBuilder { query_type: self.query_type, queries }
    }

    /// Finishes the compound query.
    pub fn build(self) -> (r: CompoundQuery)
        ensures
            r.query_type == self.query_type,
            r.queries == self.queries,
    {
        CompoundQuery { query_type: self.query_type, queries: self.queries }
    }
}


impl Default for SingleQueryBuilder {
    /// The same starting point as [`SingleQueryBuilder::new`].
    fn default() -> (r: SingleQueryBuilder)
        ensures
            r.collection@ == Seq::<char>::empty(),
            r.usecase@ == Seq::<char>::empty(),
    {
        SingleQueryBuilder::new()
    }
}

impl Default for CompoundQueryBuilder {
    /// The same starting point as [`CompoundQueryBuilder::new`].
    fn default() -> (r: CompoundQueryBuilder)
        ensures
            r.query_type == QueryType::Or,
            r.queries@ == Seq::<Query>::empty(),
    {
        CompoundQueryBuilder::new()
    }
}

} // verus!

