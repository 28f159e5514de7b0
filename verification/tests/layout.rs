use cosmwasm_std::testing::{MockApi, MockStorage};
use cosmwasm_std::{Addr, Order, Storage};
use cw_storage_plus::Item;
use permissioned_registry::state::{CONFIG, MESSAGES, WRITERS};
use permissioned_registry::{AddressApi, ExecuteMsg, Identity, InstantiateMsg, Store};

fn id(text: &str) -> Identity {
    Identity::unchecked(text)
}

fn filled() -> MockStorage {
    let mut storage = MockStorage::new();
    let host = MockApi::default();
    let api = AddressApi::new(&host);
    {
        let mut store = Store::new(&mut storage);
        permissioned_registry::instantiate(
            &mut store,
            &api,
            &id("creator"),
            InstantiateMsg { owner: None },
        )
        .unwrap();
        for writer in ["bob", "alice"] {
            let msg = ExecuteMsg::AddWriter { writer: writer.to_string() };
            permissioned_registry::execute(&mut store, &api, &id("creator"), msg).unwrap();
        }
        let msg = ExecuteMsg::RegisterMessage { content: "hello".to_string() };
        permissioned_registry::execute(&mut store, &api, &id("alice"), msg).unwrap();
    }
    storage
}

#[test]
fn namespaces() {
    assert_eq!(CONFIG, "config");
    assert_eq!(WRITERS, "writers");
    assert_eq!(MESSAGES, "messages");
}

#[test]
fn three_collections_hold_the_state() {
    let storage = filled();
    let owner: Item<Addr> = Item::new(CONFIG);
    let writers: cw_storage_plus::Map<&Addr, ()> = cw_storage_plus::Map::new(WRITERS);
    let messages: cw_storage_plus::Map<&Addr, (Addr, String)> =
        cw_storage_plus::Map::new(MESSAGES);

    assert_eq!(owner.load(&storage).unwrap(), Addr::unchecked("creator"));
    let listed: Vec<Addr> = writers
        .keys(&storage, None, None, Order::Ascending)
        .map(|key| key.unwrap())
        .collect();
    assert_eq!(listed, vec![Addr::unchecked("alice"), Addr::unchecked("bob")]);
    let stored: Vec<(Addr, (Addr, String))> = messages
        .range(&storage, None, None, Order::Ascending)
        .map(|entry| entry.unwrap())
        .collect();
    assert_eq!(
        stored,
        vec![(Addr::unchecked("alice"), (Addr::unchecked("alice"), "hello".to_string()))]
    );
}

#[test]
fn stored_bytes() {
    let storage = filled();
    let entries: Vec<(Vec<u8>, Vec<u8>)> = storage.range(None, None, Order::Ascending).collect();
    assert_eq!(
        entries,
        vec![
            (b"\x00\x07writersalice".to_vec(), b"null".to_vec()),
            (b"\x00\x07writersbob".to_vec(), b"null".to_vec()),
            (b"\x00\x08messagesalice".to_vec(), b"[\"alice\",\"hello\"]".to_vec()),
            (b"config".to_vec(), b"\"creator\"".to_vec()),
        ]
    );
}

#[test]
fn entries_written_directly_are_seen_by_the_registry() {
    let mut storage = MockStorage::new();
    Item::<Addr>::new(CONFIG).save(&mut storage, &Addr::unchecked("creator")).unwrap();
    cw_storage_plus::Map::<&Addr, ()>::new(WRITERS)
        .save(&mut storage, &Addr::unchecked("alice"), &())
        .unwrap();
    cw_storage_plus::Map::<&Addr, (Addr, String)>::new(MESSAGES)
        .save(
            &mut storage,
            &Addr::unchecked("alice"),
            &(Addr::unchecked("alice"), "hello".to_string()),
        )
        .unwrap();

    let store = Store::new(&mut storage);
    assert!(store.is_owner(&id("creator")));
    assert!(store.is_writer(&id("alice")));
    assert_eq!(store.list_writers().unwrap(), vec![id("alice")]);
    let found = store.get_message(&id("alice")).unwrap().unwrap();
    assert_eq!(found.author, id("alice"));
    assert_eq!(found.content, "hello");
}

fn snapshot(storage: &MockStorage) -> Vec<(Vec<u8>, Vec<u8>)> {
    storage.range(None, None, Order::Ascending).collect()
}

#[test]
fn failed_requests_leave_the_storage_untouched() {
    let mut storage = filled();
    let before = snapshot(&storage);
    let host = MockApi::default();
    let api = AddressApi::new(&host);
    {
        let mut store = Store::new(&mut storage);
        let requests = [
            ("mallory", ExecuteMsg::AddWriter { writer: "mallory".to_string() }),
            ("mallory", ExecuteMsg::RemoveWriter { writer: "alice".to_string() }),
            ("creator", ExecuteMsg::AddWriter { writer: "x".to_string() }),
            ("creator", ExecuteMsg::RemoveWriter { writer: "Alice".to_string() }),
            ("mallory", ExecuteMsg::RegisterMessage { content: "hi".to_string() }),
            ("alice", ExecuteMsg::RegisterMessage { content: "again".to_string() }),
        ];
        for (caller, msg) in requests {
            assert!(permissioned_registry::execute(&mut store, &api, &id(caller), msg).is_err());
        }
        let refused = permissioned_registry::instantiate(
            &mut store,
            &api,
            &id("mallory"),
            InstantiateMsg { owner: Some("x".to_string()) },
        );
        assert!(refused.is_err());
    }
    assert_eq!(snapshot(&storage), before);
}

#[test]
fn each_request_changes_its_own_collection_only() {
    let mut storage = filled();
    let host = MockApi::default();
    let api = AddressApi::new(&host);

    let before = snapshot(&storage);
    {
        let mut store = Store::new(&mut storage);
        let msg = ExecuteMsg::AddWriter { writer: "carol".to_string() };
        permissioned_registry::execute(&mut store, &api, &id("creator"), msg).unwrap();
    }
    let mut expected = before.clone();
    expected.insert(2, (b"\x00\x07writerscarol".to_vec(), b"null".to_vec()));
    assert_eq!(snapshot(&storage), expected);

    {
        let mut store = Store::new(&mut storage);
        let msg = ExecuteMsg::RegisterMessage { content: "hi".to_string() };
        permissioned_registry::execute(&mut store, &api, &id("carol"), msg).unwrap();
    }
    expected.insert(4, (b"\x00\x08messagescarol".to_vec(), b"[\"carol\",\"hi\"]".to_vec()));
    assert_eq!(snapshot(&storage), expected);

    {
        let mut store = Store::new(&mut storage);
        let msg = ExecuteMsg::RemoveWriter { writer: "alice".to_string() };
        permissioned_registry::execute(&mut store, &api, &id("creator"), msg).unwrap();
    }
    expected.remove(0);
    assert_eq!(snapshot(&storage), expected);
}
