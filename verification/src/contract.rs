//! The request handlers: one entry for each kind of request.
//!
//! A handler validates the addresses that it was given, checks that the caller may make
//! the request, delegates to the writer registry or the message registry, and builds the
//! answer. A request that fails leaves the registry as it was.

use crate::error::{from_storage, ContractError, Failure};
use crate::gate::{assert_owner, assert_writer};
use crate::identity::{AddressApi, Identity};
use crate::model::{attributes_of, MessageView, RegistryState};
use crate::msg::{ExecuteMsg, InstantiateMsg, QueryMsg, QueryResponse};
use crate::order::{lists, texts_of};
use crate::response::Response;
use crate::state::{all_read, walks, Config, Message, Store};
use crate::writers::listing_of;
use cosmwasm_std::StdError;
use vstd::prelude::*;

verus! {

/// Whether a handler did what the model expects of it, where it found the registry in the
/// state `before`, left it in the state `after` and returned `outcome`.
///
/// The handler succeeds exactly where the model does. On success `after` is the state
/// that the model names and the response carries the attributes of `report`. On failure
/// nothing has changed, and the error is the one that the model names: a refusal of the
/// registry, or the failure of the storage as the storage gave it.
pub open spec fn carries_out(
    outcome: Result<Response, ContractError>,
    expected: Result<RegistryState, Failure>,
    report: Seq<(Seq<char>, Seq<char>)>,
    before: RegistryState,
    after: RegistryState,
) -> bool {
    match outcome {
        Ok(response) => expected == Ok::<_, Failure>(after) && response@ == report,
        Err(e) => expected == Err::<RegistryState, _>(e.failure()) && after == before,
    }
}

/// What a request does to the walk over the keys of the writer set, where it found the
/// storage as `before`, left it as `after` and returned `outcome`: a writer set of which
/// every entry could be read stays one, and a request that fails leaves the walk as it
/// was.
pub open spec fn keeps_walk(
    outcome: Result<Response, ContractError>,
    before: Store,
    after: Store,
) -> bool {
    &&& before.writers_readable() ==> after.writers_readable()
    &&& outcome is Err ==> after.walk() == before.walk()
}

/// The record that a found message stands for.
pub open spec fn record_of(found: Option<Message>) -> Option<MessageView> {
    match found {
        Some(message) => Some(message@),
        None => None,
    }
}

/// The texts of `list`, in its order.
pub open spec fn strings_of(list: Seq<String>) -> Seq<Seq<char>> {
    list.map_values(|text: String| text@)
}

/// Whether `answer` is the answer to a query for the message of `writer`: the stored
/// record or its absence where `writer` is a valid address, and else the failure.
pub open spec fn answers_message(
    answer: Result<Option<Message>, ContractError>,
    state: RegistryState,
    valid: Set<Seq<char>>,
    writer: Seq<char>,
) -> bool {
    match answer {
        Ok(found) => state.query_message(valid, writer) == Ok::<_, Failure>(record_of(found)),
        Err(e) => state.query_message(valid, writer) == Err::<Option<MessageView>, _>(e.failure()),
    }
}

/// Whether `answer` is the answer to a query for the writers, where `walk` is what the
/// storage hands out for the keys of the writer set: all writers in ascending order if
/// every key was read, and the failure of the first key that was not, unchanged,
/// otherwise. The walk is one over the writers of `state`.
pub open spec fn answers_writers(
    answer: Result<Vec<String>, ContractError>,
    state: RegistryState,
    walk: Seq<Result<Seq<char>, StdError>>,
) -> bool {
    &&& walks(walk, state.writers)
    &&& match answer {
        Ok(list) => {
            &&& all_read(walk)
            &&& listing_of(walk) == Ok::<_, StdError>(strings_of(list@))
            &&& lists(strings_of(list@), state.writers)
        },
        Err(e) => {
            &&& !all_read(walk)
            &&& listing_of(walk) matches Err(failure) && e == ContractError::Std(failure)
        },
    }
}

/// Sets up the registry: stores the owner, which is the address that `msg` names, once
/// validated, or else the sender. The writers and the messages are not touched.
pub fn instantiate(
    store: &mut Store,
    api: &AddressApi,
    sender: &Identity,
    msg: InstantiateMsg,
) -> (r: Result<Response, ContractError>)
    ensures
        carries_out(
            r,
            old(store)@.instantiate(api.valid(), sender@, msg),
            seq![("action"@, "instantiate"@)],
            old(store)@,
            final(store)@,
        ),
        final(store).walk() == old(store).walk(),
{
    let owner = match &msg.owner {
        Some(owner) => api.validate(owner.as_str())?,
        None => sender.clone(),
    };
    let config = Config { owner };
    from_storage(store.save_config(&config))?;
    Ok(Response::new().add_attribute("action", "instantiate"))
}

/// Handles a request that changes the registry.
pub fn execute(store: &mut Store, api: &AddressApi, sender: &Identity, msg: ExecuteMsg) -> (r:
    Result<Response, ContractError>)
    ensures
        carries_out(
            r,
            old(store)@.execute(api.valid(), sender@, msg),
            attributes_of(msg),
            old(store)@,
            final(store)@,
        ),
        old(store)@.steps_to(final(store)@, api.valid(), sender@, msg),
        keeps_walk(r, *old(store), *final(store)),
        msg is RegisterMessage ==> final(store).walk() == old(store).walk(),
{
    match msg {
        ExecuteMsg::AddWriter { writer } => execute_add_writer(store, api, sender, writer),
        ExecuteMsg::RemoveWriter { writer } => execute_remove_writer(store, api, sender, writer),
        ExecuteMsg::RegisterMessage { content } => execute_register_message(
            store,
            sender,
            content,
        ),
    }
}

/// Answers a request that only reads. Anyone may ask.
pub fn query(store: &Store, api: &AddressApi, msg: QueryMsg) -> (r: Result<
    QueryResponse,
    ContractError,
>)
    ensures
        match msg {
            QueryMsg::GetMessage { writer } => match r {
                Ok(QueryResponse::Message(found)) => answers_message(
                    Ok(found),
                    store@,
                    api.valid(),
                    writer@,
                ),
                Ok(QueryResponse::Writers(_)) => false,
                Err(e) => answers_message(Err(e), store@, api.valid(), writer@),
            },
            QueryMsg::GetWriters {  } => match r {
                Ok(QueryResponse::Writers(list)) => answers_writers(Ok(list), store@, store.walk()),
                Ok(QueryResponse::Message(_)) => false,
                Err(e) => answers_writers(Err(e), store@, store.walk()),
            },
        },
{
    match msg {
        QueryMsg::GetMessage { writer } => match query_message(store, api, writer) {
            Ok(found) => Ok(QueryResponse::Message(found)),
            Err(e) => Err(e),
        },
        QueryMsg::GetWriters {  } => match query_writers(store) {
            Ok(list) => Ok(QueryResponse::Writers(list)),
            Err(e) => Err(e),
        },
    }
}

/// Adds `writer` to the writer set, for the owner.
pub fn execute_add_writer(
    store: &mut Store,
    api: &AddressApi,
    sender: &Identity,
    writer: String,
) -> (r: Result<Response, ContractError>)
    ensures
        carries_out(
            r,
            old(store)@.execute_add_writer(api.valid(), sender@, writer@),
            seq![("action"@, "add_writer"@), ("writer"@, writer@)],
            old(store)@,
            final(store)@,
        ),
        keeps_walk(r, *old(store), *final(store)),
        old(store).writers_readable() && old(store)@.is_writer(writer@) ==> final(store).walk()
            == old(store).walk(),
{
    let writer_id = api.validate(writer.as_str())?;
    assert_owner(store, sender)?;
    store.add_writer(&writer_id)?;
    let response = Response::new().add_attribute("action", "add_writer").add_attribute(
        "writer",
        writer.as_str(),
    );
    assert(response@ =~= seq![("action"@, "add_writer"@), ("writer"@, writer@)]);
    Ok(response)
}

/// Removes `writer` from the writer set, for the owner. A message that `writer` has
/// registered stays.
pub fn execute_remove_writer(
    store: &mut Store,
    api: &AddressApi,
    sender: &Identity,
    writer: String,
) -> (r: Result<Response, ContractError>)
    ensures
        carries_out(
            r,
            old(store)@.execute_remove_writer(api.valid(), sender@, writer@),
            seq![("action"@, "remove_writer"@), ("writer"@, writer@)],
            old(store)@,
            final(store)@,
        ),
        keeps_walk(r, *old(store), *final(store)),
        !old(store)@.is_writer(writer@) ==> final(store).walk() == old(store).walk(),
{
    let writer_id = api.validate(writer.as_str())?;
    assert_owner(store, sender)?;
    store.remove_writer(&writer_id);
    let response = Response::new().add_attribute("action", "remove_writer").add_attribute(
        "writer",
        writer.as_str(),
    );
    assert(response@ =~= seq![("action"@, "remove_writer"@), ("writer"@, writer@)]);
    Ok(response)
}

/// Registers `content` as the message of the sender, who must be a writer and must not
/// have a message yet.
pub fn execute_register_message(store: &mut Store, sender: &Identity, content: String) -> (r:
    Result<Response, ContractError>)
    ensures
        carries_out(
            r,
            old(store)@.execute_register_message(sender@, content@),
            seq![("action"@, "register_message"@)],
            old(store)@,
            final(store)@,
        ),
        final(store).walk() == old(store).walk(),
{
    assert_writer(store, sender)?;
    store.register_message(sender, content)?;
    Ok(Response::new().add_attribute("action", "register_message"))
}

/// The message of `writer`, if there is one.
pub fn query_message(store: &Store, api: &AddressApi, writer: String) -> (r: Result<
    Option<Message>,
    ContractError,
>)
    ensures
        answers_message(r, store@, api.valid(), writer@),
{
    let writer_id = api.validate(writer.as_str())?;
    store.get_message(&writer_id)
}

/// The addresses of all writers, in ascending order.
pub fn query_writers(store: &Store) -> (r: Result<Vec<String>, ContractError>)
    ensures
        answers_writers(r, store@, store.walk()),
{
    match store.list_writers() {
        Ok(list) => Ok(addresses_of(list)),
        Err(e) => Err(e),
    }
}

/// The addresses of `writers` as strings, in the same order.
pub fn addresses_of(writers: Vec<Identity>) -> (addresses: Vec<String>)
    ensures
        strings_of(addresses@) == texts_of(writers@),
{
    let ghost all = writers@;
    let mut addresses: Vec<String> = Vec::new();
    for writer in it: writers
        invariant
            it.seq() == all,
            addresses.len() == it.index(),
            forall|i: int| 0 <= i < addresses.len() ==> addresses[i]@ == all[i]@,
    {
        addresses.push(writer.into_string());
    }
    assert(strings_of(addresses@) =~= texts_of(all));
    addresses
}

} // verus!
