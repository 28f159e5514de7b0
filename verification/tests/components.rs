use cosmwasm_std::testing::{MockApi, MockStorage};
use cosmwasm_std::{Addr, Order, StdError, Storage};
use permissioned_registry::contract::query_writers;
use permissioned_registry::gate::{assert_owner, assert_writer};
use permissioned_registry::writers::collect_writers;
use permissioned_registry::{
    AddressApi, Config, ContractError, ErrorKind, Identity, InstantiateMsg, Message, Store,
};

fn id(text: &str) -> Identity {
    Identity::unchecked(text)
}

#[test]
fn identity_keeps_its_text() {
    let alice = Identity::unchecked("alice");
    assert_eq!(alice.as_str(), "alice");
    assert_eq!(alice.clone().into_string(), "alice".to_string());
    assert_eq!(alice.clone(), alice);
    assert_ne!(alice, Identity::unchecked("Alice"));
    assert_ne!(alice, Identity::unchecked("alice "));
}

#[test]
fn validate_accepts_and_returns_the_same_text() {
    let host = MockApi::default();
    let api = AddressApi::new(&host);
    assert_eq!(api.validate("alice").unwrap(), id("alice"));
    assert_eq!(api.validate("writer-a").unwrap().as_str(), "writer-a");
    assert_eq!(api.validate("bob").unwrap().into_string(), "bob".to_string());
}

#[test]
fn validate_rejects_malformed_addresses() {
    let host = MockApi::default();
    let api = AddressApi::new(&host);
    let too_long = "a".repeat(91);
    for bad in ["", "a", "ab", "Bob", "ALICE", too_long.as_str()] {
        let refused = api.validate(bad).unwrap_err();
        assert!(matches!(refused, ContractError::InvalidIdentity(_)), "{:?}", bad);
    }
    assert!(api.validate(&"a".repeat(90)).is_ok());
}

#[test]
fn gate_tells_owner_and_writers() {
    let mut storage = MockStorage::new();
    let host = MockApi::default();
    let api = AddressApi::new(&host);
    let mut store = Store::new(&mut storage);

    // before setup nobody is the owner, and the owner check cannot read the configuration
    assert!(!store.is_owner(&id("creator")));
    let refused = assert_owner(&store, &id("creator")).unwrap_err();
    assert!(matches!(refused, ContractError::Std(_)));

    permissioned_registry::instantiate(
        &mut store,
        &api,
        &id("creator"),
        InstantiateMsg { owner: None },
    )
    .unwrap();
    store.add_writer(&id("alice")).unwrap();

    assert!(store.is_owner(&id("creator")));
    assert!(!store.is_owner(&id("alice")));
    assert!(store.is_writer(&id("alice")));
    assert!(!store.is_writer(&id("creator")));

    assert!(assert_owner(&store, &id("creator")).is_ok());
    let refused = assert_owner(&store, &id("alice")).unwrap_err();
    assert!(matches!(refused, ContractError::Unauthorized {}));
    assert!(assert_writer(&store, &id("alice")).is_ok());
    let refused = assert_writer(&store, &id("creator")).unwrap_err();
    assert!(matches!(refused, ContractError::NotAWriter {}));
}

#[test]
fn writer_registry_adds_removes_and_lists() {
    let mut storage = MockStorage::new();
    let mut store = Store::new(&mut storage);

    assert_eq!(store.list_writers().unwrap(), Vec::<Identity>::new());
    store.add_writer(&id("carol")).unwrap();
    store.add_writer(&id("alice")).unwrap();
    store.add_writer(&id("bob")).unwrap();
    store.add_writer(&id("alice")).unwrap();
    assert!(store.contains_writer(&id("alice")));
    assert!(!store.contains_writer(&id("dave")));
    assert_eq!(store.list_writers().unwrap(), vec![id("alice"), id("bob"), id("carol")]);

    store.remove_writer(&id("bob"));
    store.remove_writer(&id("dave"));
    assert!(!store.contains_writer(&id("bob")));
    assert_eq!(store.list_writers().unwrap(), vec![id("alice"), id("carol")]);
}

#[test]
fn writers_are_ordered_by_their_bytes() {
    let mut storage = MockStorage::new();
    let mut store = Store::new(&mut storage);
    for name in ["b", "a", "B", "ab", "", "é", "z", "a\u{0}", "10", "9"] {
        store.add_writer(&id(name)).unwrap();
    }
    let listed: Vec<String> =
        store.list_writers().unwrap().into_iter().map(|w| w.into_string()).collect();
    assert_eq!(listed, vec!["", "10", "9", "B", "a", "a\u{0}", "ab", "b", "z", "é"]);
}

#[test]
fn message_registry_writes_once() {
    let mut storage = MockStorage::new();
    let mut store = Store::new(&mut storage);

    assert_eq!(store.get_message(&id("alice")).unwrap(), None);
    let stored = store.register_message(&id("alice"), "hello".to_string()).unwrap();
    assert_eq!(stored, Message { author: id("alice"), content: "hello".to_string() });
    assert_eq!(store.get_message(&id("alice")).unwrap(), Some(stored.clone()));

    let refused = store.register_message(&id("alice"), "other".to_string()).unwrap_err();
    assert!(matches!(refused, ContractError::MessageAlreadyExists {}));
    assert_eq!(store.get_message(&id("alice")).unwrap(), Some(stored));

    // the registry itself does not ask whether the author is a writer
    assert!(!store.contains_writer(&id("bob")));
    store.register_message(&id("bob"), "hi".to_string()).unwrap();
    assert_eq!(
        store.get_message(&id("bob")).unwrap(),
        Some(Message { author: id("bob"), content: "hi".to_string() })
    );
    assert_eq!(store.get_message(&id("carol")).unwrap(), None);
}

#[test]
fn collect_writers_keeps_order_or_gives_first_failure() {
    assert_eq!(collect_writers(vec![]).unwrap(), Vec::<Identity>::new());
    assert_eq!(
        collect_writers(vec![Ok(id("bob")), Ok(id("alice"))]).unwrap(),
        vec![id("bob"), id("alice")]
    );
    let failed = collect_writers(vec![
        Ok(id("alice")),
        Err(StdError::generic_err("first")),
        Ok(id("bob")),
        Err(StdError::generic_err("second")),
    ])
    .unwrap_err();
    match failed {
        ContractError::Std(e) => assert_eq!(e, StdError::generic_err("first")),
        other => panic!("unexpected error: {:?}", other),
    }
}

#[test]
fn unreadable_message_exists_but_cannot_be_read() {
    let mut storage = MockStorage::new();
    storage.set(b"\x00\x08messagesalice", b"not json");
    let mut store = Store::new(&mut storage);

    let refused = store.get_message(&id("alice")).unwrap_err();
    assert_eq!(refused.kind(), ErrorKind::Std);
    let refused = store.register_message(&id("alice"), "hello".to_string()).unwrap_err();
    assert!(matches!(refused, ContractError::MessageAlreadyExists {}));
    let refused = store.get_message(&id("alice")).unwrap_err();
    assert_eq!(refused.kind(), ErrorKind::Std);
}

fn first_failure_of_the_walk(storage: &MockStorage) -> StdError {
    cw_storage_plus::Map::<&Addr, ()>::new("writers")
        .keys(storage, None, None, Order::Ascending)
        .find_map(|key| key.err())
        .unwrap()
}

#[test]
fn unreadable_writer_entry_fails_the_listing() {
    let mut storage = MockStorage::new();
    storage.set(b"\x00\x07writers\xff\xfe", b"null");
    let expected = first_failure_of_the_walk(&storage);
    let mut store = Store::new(&mut storage);
    store.add_writer(&id("alice")).unwrap();

    assert!(store.contains_writer(&id("alice")));
    match store.list_writers().unwrap_err() {
        ContractError::Std(e) => assert_eq!(e, expected),
        other => panic!("unexpected error: {:?}", other),
    }
    match query_writers(&store).unwrap_err() {
        ContractError::Std(e) => assert_eq!(e, expected),
        other => panic!("unexpected error: {:?}", other),
    }
}

#[test]
fn listing_fails_with_the_first_failure_of_the_storage() {
    let mut storage = MockStorage::new();
    storage.set(b"\x00\x07writersbob", b"not null");
    storage.set(b"\x00\x07writers\xff", b"null");
    storage.set(b"\x00\x07writersalice", b"null");
    let expected = first_failure_of_the_walk(&storage);
    assert!(matches!(expected, StdError::ParseErr { .. }));
    let store = Store::new(&mut storage);
    match store.list_writers().unwrap_err() {
        ContractError::Std(e) => assert_eq!(e, expected),
        other => panic!("unexpected error: {:?}", other),
    }
}

#[test]
fn rewriting_an_unreadable_writer_entry_mends_the_listing() {
    let mut storage = MockStorage::new();
    storage.set(b"\x00\x07writersbob", b"not null");
    let mut store = Store::new(&mut storage);
    assert!(store.list_writers().is_err());
    store.add_writer(&id("bob")).unwrap();
    store.add_writer(&id("alice")).unwrap();
    assert_eq!(store.list_writers().unwrap(), vec![id("alice"), id("bob")]);
    store.remove_writer(&id("alice"));
    assert_eq!(store.list_writers().unwrap(), vec![id("bob")]);
}

#[test]
fn storage_failures_are_handed_on_unchanged() {
    let mut storage = MockStorage::new();
    storage.set(b"\x00\x08messagesalice", b"not json");
    let no_owner = cw_storage_plus::Item::<Addr>::new("config").load(&storage).unwrap_err();
    let no_record = cw_storage_plus::Map::<&Addr, (Addr, String)>::new("messages")
        .may_load(&storage, &Addr::unchecked("alice"))
        .unwrap_err();
    assert!(matches!(no_owner, StdError::NotFound { .. }));
    assert!(matches!(no_record, StdError::ParseErr { .. }));

    let host = MockApi::default();
    let api = AddressApi::new(&host);
    let mut store = Store::new(&mut storage);
    match assert_owner(&store, &id("creator")).unwrap_err() {
        ContractError::Std(e) => assert_eq!(e, no_owner),
        other => panic!("unexpected error: {:?}", other),
    }
    let msg = permissioned_registry::ExecuteMsg::AddWriter { writer: "alice".to_string() };
    match permissioned_registry::execute(&mut store, &api, &id("creator"), msg).unwrap_err() {
        ContractError::Std(e) => assert_eq!(e, no_owner),
        other => panic!("unexpected error: {:?}", other),
    }
    match store.get_message(&id("alice")).unwrap_err() {
        ContractError::Std(e) => assert_eq!(e, no_record),
        other => panic!("unexpected error: {:?}", other),
    }
    let query = permissioned_registry::QueryMsg::GetMessage { writer: "alice".to_string() };
    match permissioned_registry::query(&store, &api, query).unwrap_err() {
        ContractError::Std(e) => assert_eq!(e, no_record),
        other => panic!("unexpected error: {:?}", other),
    }
}

#[test]
fn unreadable_owner_is_no_owner() {
    let mut storage = MockStorage::new();
    storage.set(b"config", b"{}");
    let store = Store::new(&mut storage);
    assert!(!store.is_owner(&id("creator")));
    let refused = assert_owner(&store, &id("creator")).unwrap_err();
    assert!(matches!(refused, ContractError::Std(_)));
}

#[test]
fn config_and_message_compare_by_value() {
    assert_eq!(Config { owner: id("creator") }, Config { owner: id("creator") });
    assert_ne!(Config { owner: id("creator") }, Config { owner: id("admin") });
    let message = Message { author: id("alice"), content: "hello".to_string() };
    assert_eq!(message.clone(), message);
    assert_ne!(message, Message { author: id("alice"), content: "hello!".to_string() });
    assert_ne!(message, Message { author: id("bob"), content: "hello".to_string() });
}
