use cosmwasm_std::testing::MockApi;
use cosmwasm_std::StdError;
use permissioned_registry::error::from_storage;
use permissioned_registry::{AddressApi, ContractError, ErrorKind, Response};

#[test]
fn error_messages() {
    assert_eq!(ContractError::Unauthorized {}.message(), "Unauthorized");
    assert_eq!(ContractError::NotAWriter {}.message(), "Address is not an approved writer");
    assert_eq!(
        ContractError::MessageAlreadyExists {}.message(),
        "Message already exists for this writer"
    );
    assert_eq!(
        ContractError::Std(StdError::generic_err("boom")).message(),
        "Generic error: boom"
    );
    assert_eq!(
        ContractError::Std(StdError::not_found("owner")).message(),
        "owner not found"
    );
    assert_eq!(
        ContractError::InvalidIdentity(StdError::generic_err("bad address")).message(),
        "Generic error: bad address"
    );
}

#[test]
fn invalid_identity_keeps_the_reason_of_the_host() {
    let host = MockApi::default();
    let api = AddressApi::new(&host);
    let refused = api.validate("ab").unwrap_err();
    assert_eq!(
        refused.message(),
        "Generic error: Invalid input: human address too short for this mock implementation \
         (must be >= 3)."
    );
    let refused = api.validate("Alice").unwrap_err();
    assert_eq!(refused.message(), "Generic error: Invalid input: address not normalized");
}

#[test]
fn error_kinds() {
    assert_eq!(ContractError::Std(StdError::generic_err("boom")).kind(), ErrorKind::Std);
    assert_eq!(
        ContractError::InvalidIdentity(StdError::generic_err("boom")).kind(),
        ErrorKind::InvalidIdentity
    );
    assert_eq!(ContractError::Unauthorized {}.kind(), ErrorKind::Unauthorized);
    assert_eq!(ContractError::NotAWriter {}.kind(), ErrorKind::NotAWriter);
    assert_eq!(ContractError::MessageAlreadyExists {}.kind(), ErrorKind::MessageAlreadyExists);
}

#[test]
fn storage_error_converts_to_std() {
    let converted = ContractError::from(StdError::generic_err("boom"));
    match converted {
        ContractError::Std(e) => assert_eq!(e, StdError::generic_err("boom")),
        other => panic!("unexpected error: {:?}", other),
    }
}

#[test]
fn response_collects_attributes_in_order() {
    let empty = Response::new();
    assert!(empty.attributes.is_empty());
    let response = empty.add_attribute("action", "one").add_attribute("action", "two");
    let pairs: Vec<(&str, &str)> =
        response.attributes.iter().map(|a| (a.key.as_str(), a.value.as_str())).collect();
    assert_eq!(pairs, vec![("action", "one"), ("action", "two")]);
}

#[test]
fn storage_outcome_keeps_value_or_failure() {
    assert_eq!(from_storage(Ok(7u32)).unwrap(), 7);
    assert_eq!(from_storage(Ok("kept".to_string())).unwrap(), "kept");
    let failed = from_storage::<u32>(Err(StdError::not_found("owner"))).unwrap_err();
    match failed {
        ContractError::Std(e) => assert_eq!(e, StdError::not_found("owner")),
        other => panic!("unexpected error: {:?}", other),
    }
}
