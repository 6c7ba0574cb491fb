use cryptstore::connection::{
    ClientAuthentication, ClientSetupSecureConnection, Command, Connection, ConnectionState,
    Message,
};
use cryptstore::engine::{evaluate, handle_query};
use cryptstore::query::{CompoundQueryBuilder, Query, QueryType, SingleQueryBuilder};
use cryptstore::store::{InsertError, Insertion, Store};

fn to_string_vec(items: &[&str]) -> Vec<String> {
    items.iter().map(|item| item.to_string()).collect()
}

fn insertion(collection: &str, data: &[u8], acl: &[&str], usecases: &[&str]) -> Insertion {
    Insertion {
        collection: collection.to_string(),
        data: data.to_vec(),
        acl: to_string_vec(acl),
        usecases: to_string_vec(usecases),
    }
}

fn single(collection: &str, usecase: &str) -> Query {
    Query::Single(
        SingleQueryBuilder::new()
            .with_collection(collection.to_owned())
            .with_usecase(usecase.to_owned())
            .build(),
    )
}

fn insert_some_data(store: &mut Store) -> Vec<u64> {
    let mut ids = Vec::new();
    let rows: &[(&str, &[u8], &[&str], &[&str])] = &[
        ("users", &[12, 112, 29, 176], &["read", "write"], &["authentification", "authorization"]),
        ("users", &[12, 1, 2, 178, 76, 23, 145], &["read"], &["search"]),
        ("", &[12, 122, 221, 234, 178, 76, 23, 178, 97, 23, 18, 7, 6, 23, 145], &["read"], &["logging"]),
        ("posts", &[76, 231, 15, 13, 42, 54, 78], &[], &[]),
        ("documents", &[1, 2, 3, 4, 65, 68, 67], &["read", "write", "delete"], &["storage", "search"]),
        ("users", &[1, 2, 3, 4], &["read:all", "write:all"], &["filter", "another_usecase"]),
        ("products", &[5, 6, 7, 8], &["read:all", "write:all"], &["filter", "yet_another_usecase"]),
        ("orders", &[9, 10, 11, 12], &["read:all", "write:all"], &["filter", "different_usecase"]),
    ];
    for (collection, data, acl, usecases) in rows {
        ids.push(store.insert(insertion(collection, data, acl, usecases)).unwrap());
    }
    ids
}

#[test]
fn test_insert() {
    let mut store = Store::new();
    let id = store
        .insert(insertion(
            "table",
            &[12, 1, 2, 178, 4, 4, 12, 47, 31, 24, 1, 243, 12, 4, 124, 76, 234, 1, 76, 23, 145],
            &[],
            &["Tomate"],
        ))
        .unwrap();
    assert_eq!(id, 0);
    assert_eq!(store.records.len(), 1);
    assert_eq!(store.records[0].usecases, to_string_vec(&["Tomate"]));
}

#[test]
fn identifiers_are_never_reused() {
    let mut store = Store::new();
    let a = store.insert(insertion("users", &[1], &[], &["filter"])).unwrap();
    let b = store.insert(insertion("users", &[2], &[], &["filter"])).unwrap();
    let c = store.insert(insertion("", &[3], &[], &[])).unwrap();
    assert_ne!(a, b);
    assert_ne!(a, c);
    assert_ne!(b, c);
}

#[test]
fn insert_fails_when_identifiers_run_out() {
    let mut store = Store { records: Vec::new(), next_id: u64::MAX };
    assert_eq!(
        store.insert(insertion("users", &[1], &[], &[])),
        Err(InsertError::IdentifiersExhausted)
    );
    assert!(store.records.is_empty());
}

#[test]
fn test_simple_query() {
    let mut store = Store::new();
    let ids = insert_some_data(&mut store);
    let result = evaluate(&single("users", "filter"), &store);
    assert_eq!(result, vec![ids[5]]);
}

#[test]
fn empty_collection_is_a_wildcard() {
    let mut store = Store::new();
    let ids = insert_some_data(&mut store);
    let result = evaluate(&single("", "filter"), &store);
    assert_eq!(result, vec![ids[5], ids[6], ids[7]]);
    let logging = evaluate(&single("", "logging"), &store);
    assert_eq!(logging, vec![ids[2]]);
}

#[test]
fn test_insert_and_query() {
    let mut store = Store::new();
    let ids = insert_some_data(&mut store);
    let sub_query = CompoundQueryBuilder::new()
        .with_query_type(QueryType::Or)
        .with_query(single("users", "filter"))
        .with_query(single("products", "filter"))
        .build();
    let main_query = CompoundQueryBuilder::new()
        .with_query_type(QueryType::And)
        .with_query(single("orders", "filter"))
        .with_query(Query::Compound(sub_query))
        .build();
    let result = evaluate(&Query::Compound(main_query), &store);
    assert!(result.is_empty());

    let either = CompoundQueryBuilder::new()
        .with_query_type(QueryType::Or)
        .with_query(single("users", "filter"))
        .with_query(single("products", "filter"))
        .build();
    assert_eq!(evaluate(&Query::Compound(either), &store), vec![ids[5], ids[6]]);
}

#[test]
fn or_of_a_query_with_itself_adds_nothing() {
    let mut store = Store::new();
    insert_some_data(&mut store);
    let twice = CompoundQueryBuilder::new()
        .with_query_type(QueryType::Or)
        .with_query(single("users", "filter"))
        .with_query(single("users", "filter"))
        .build();
    assert_eq!(
        evaluate(&Query::Compound(twice), &store),
        evaluate(&single("users", "filter"), &store)
    );
}

#[test]
fn and_result_is_a_subset_of_both_operands() {
    let mut store = Store::new();
    insert_some_data(&mut store);
    let both = CompoundQueryBuilder::new()
        .with_query_type(QueryType::And)
        .with_query(single("", "filter"))
        .with_query(single("users", "filter"))
        .build();
    let result = evaluate(&Query::Compound(both), &store);
    let left = evaluate(&single("", "filter"), &store);
    let right = evaluate(&single("users", "filter"), &store);
    for id in &result {
        assert!(left.contains(id));
        assert!(right.contains(id));
    }
    assert_eq!(result, right);
}

#[test]
fn or_grouping_does_not_matter() {
    let mut store = Store::new();
    insert_some_data(&mut store);
    let inner_right = CompoundQueryBuilder::new()
        .with_query_type(QueryType::Or)
        .with_query(single("products", "filter"))
        .with_query(single("orders", "filter"))
        .build();
    let left_leaning = CompoundQueryBuilder::new()
        .with_query_type(QueryType::Or)
        .with_query(single("users", "filter"))
        .with_query(Query::Compound(inner_right))
        .build();
    let inner_left = CompoundQueryBuilder::new()
        .with_query_type(QueryType::Or)
        .with_query(single("users", "filter"))
        .with_query(single("products", "filter"))
        .build();
    let right_leaning = CompoundQueryBuilder::new()
        .with_query_type(QueryType::Or)
        .with_query(Query::Compound(inner_left))
        .with_query(single("orders", "filter"))
        .build();
    let left_ids: std::collections::BTreeSet<u64> =
        evaluate(&Query::Compound(left_leaning), &store).into_iter().collect();
    let right_ids: std::collections::BTreeSet<u64> =
        evaluate(&Query::Compound(right_leaning), &store).into_iter().collect();
    assert_eq!(left_ids, right_ids);
}

#[test]
fn empty_compounds_match_nothing() {
    let mut store = Store::new();
    insert_some_data(&mut store);
    let empty_and =
        CompoundQueryBuilder::new().with_query_type(QueryType::And).build();
    let empty_or = CompoundQueryBuilder::new().with_query_type(QueryType::Or).build();
    assert!(evaluate(&Query::Compound(empty_and), &store).is_empty());
    assert!(evaluate(&Query::Compound(empty_or), &store).is_empty());
}

#[test]
fn insert_then_query_returns_exactly_that_record() {
    let mut store = Store::new();
    let id = store
        .insert(insertion("users", &[1, 2, 3], &["read"], &["filter"]))
        .unwrap();
    let (command, ids) = handle_query(&single("users", "filter"), &store).unwrap();
    assert_eq!(command, Command::Continue);
    assert_eq!(ids, vec![id]);
}

#[test]
fn or_over_two_collections_returns_each_identifier_once() {
    let mut store = Store::new();
    let users_id = store
        .insert(insertion("users", &[1], &[], &["filter"]))
        .unwrap();
    let products_id = store
        .insert(insertion("products", &[2], &[], &["filter"]))
        .unwrap();
    let query = CompoundQueryBuilder::new()
        .with_query_type(QueryType::Or)
        .with_query(single("users", "filter"))
        .with_query(single("products", "filter"))
        .build();
    let ids = evaluate(&Query::Compound(query), &store);
    assert_eq!(ids, vec![users_id, products_id]);
}

#[test]
fn test_authentification() {
    let mut store = Store::new();
    let mut connection = Connection::new("Bob".to_string(), "Pomme".to_string());
    assert!(matches!(connection.state, ConnectionState::Unauthenticated));

    let (command, _) = connection.handle_message(
        Message::ClientSetup(ClientSetupSecureConnection {
            protocol_version: "1".to_string(),
        }),
        &mut store,
    );
    assert_eq!(command, Command::Continue);
    assert!(matches!(connection.state, ConnectionState::Unauthenticated));

    let (command, _) = connection.handle_message(
        Message::ClientAuthentification(ClientAuthentication {
            username: "Bob".to_string(),
            password: "Wrong".to_string(),
        }),
        &mut store,
    );
    assert_eq!(command, Command::Continue);
    assert!(matches!(connection.state, ConnectionState::Unauthenticated));

    let (command, _) = connection.handle_message(
        Message::ClientAuthentification(ClientAuthentication {
            username: "Bob".to_string(),
            password: "Pomme".to_string(),
        }),
        &mut store,
    );
    assert_eq!(command, Command::Continue);
    assert!(matches!(connection.state, ConnectionState::Authenticated));
}

#[test]
fn query_before_authentication_is_processed() {
    // The permissive pre-authentication behavior, pinned as a regression
    // guard: a fresh connection answers queries before any credentials
    // were presented.
    let mut store = Store::new();
    let id = store
        .insert(insertion("users", &[9], &[], &["filter"]))
        .unwrap();
    let mut connection = Connection::new("Bob".to_string(), "Pomme".to_string());
    let (command, ids) =
        connection.handle_message(Message::Query(single("users", "filter")), &mut store);
    assert_eq!(command, Command::Continue);
    assert_eq!(ids, vec![id]);
    assert!(matches!(connection.state, ConnectionState::Unauthenticated));
}

#[test]
fn end_of_communication_terminates_from_any_state() {
    let mut store = Store::new();
    let mut connection = Connection::new("Bob".to_string(), "Pomme".to_string());
    let (command, _) = connection.handle_message(Message::EndOfCommunication, &mut store);
    assert_eq!(command, Command::Exit);
    assert!(matches!(connection.state, ConnectionState::Terminated));

    // No further message is processed: the store stays as it is.
    let (command, ids) = connection.handle_message(
        Message::Insert(insertion("users", &[1], &[], &["filter"])),
        &mut store,
    );
    assert_eq!(command, Command::Exit);
    assert!(ids.is_empty());
    assert!(store.records.is_empty());
}

#[test]
fn insert_failure_does_not_end_the_connection() {
    let mut store = Store { records: Vec::new(), next_id: u64::MAX };
    let mut connection = Connection::new("Bob".to_string(), "Pomme".to_string());
    let (command, _) = connection.handle_message(
        Message::Insert(insertion("users", &[1], &[], &[])),
        &mut store,
    );
    assert_eq!(command, Command::Continue);
    assert!(store.records.is_empty());
}
