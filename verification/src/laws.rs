//! The laws of the registry, proved of its model.
//!
//! The request handlers state what they do in terms of the model, and `execute` states
//! that the registry passes from its old state to its new one by the step of the model. So
//! what is proved here of single steps and of histories holds of every run of the
//! registry.

use crate::error::Failure;
use crate::model::{MessageView, RegistryState, Request};
use crate::msg::{ExecuteMsg, InstantiateMsg};
use crate::order::{listing_is_unique, lists};
use crate::state::{all_read, walks};
use crate::writers::{
    addresses_in, listing_of, no_failure_means_all_read, read_walk_lists_the_members,
};
use cosmwasm_std::StdError;
use vstd::prelude::*;

verus! {

/// Whether `states` is a history of the registry under the requests `requests`: the
/// registry starts in `states[0]`, and handling `requests[i]` takes it from `states[i]` to
/// `states[i + 1]`.
pub open spec fn history(
    states: Seq<RegistryState>,
    valid: Set<Seq<char>>,
    requests: Seq<Request>,
) -> bool {
    &&& states.len() == requests.len() + 1
    &&& forall|i: int|
        0 <= i < requests.len() ==> (#[trigger] states[i]).steps_to(
            states[i + 1],
            valid,
            requests[i].caller,
            requests[i].msg,
        )
}

/// Whether `request` asks to add `id` to the writers.
pub open spec fn asks_to_add(request: Request, id: Seq<char>) -> bool {
    request.msg matches ExecuteMsg::AddWriter { writer } && writer@ == id
}

/// Whether what is stored for `id` can be read and names `id` as its author.
pub open spec fn names_its_key(state: RegistryState, id: Seq<char>) -> bool {
    state.messages[id] matches Ok(message) && message.author == id
}

/// Whether every stored message can be read and names as its author the identity that it
/// is stored under.
pub open spec fn authors_are_keys(state: RegistryState) -> bool {
    forall|id: Seq<char>| #[trigger] state.has_message(id) ==> names_its_key(state, id)
}

/// What is allowed succeeds: setting up with a valid owner or none, the owner adding
/// or removing any valid address, and a writer without a message registering any content.
pub proof fn allowed_requests_succeed(
    state: RegistryState,
    valid: Set<Seq<char>>,
    caller: Seq<char>,
    writer: Seq<char>,
    content: Seq<char>,
    msg: InstantiateMsg,
)
    ensures
        msg.owner is None ==> state.instantiate(valid, caller, msg) == Ok::<_, Failure>(
            state.with_owner(caller),
        ),
        msg.owner is Some && valid.contains(msg.owner->Some_0@) ==> state.instantiate(
            valid,
            caller,
            msg,
        ) == Ok::<_, Failure>(state.with_owner(msg.owner->Some_0@)),
        state.is_owner(caller) && valid.contains(writer) ==> state.execute_add_writer(
            valid,
            caller,
            writer,
        ) == Ok::<_, Failure>(state.with_writer(writer)),
        state.is_owner(caller) && valid.contains(writer) ==> state.execute_remove_writer(
            valid,
            caller,
            writer,
        ) == Ok::<_, Failure>(state.without_writer(writer)),
        state.is_writer(caller) && !state.has_message(caller) ==> state.execute_register_message(
            caller,
            content,
        ) == Ok::<_, Failure>(state.with_message(caller, content)),
{
}

/// A writer that was added is contained in the writer set at once, and one that was
/// removed is not: this holds of the writer registry and of the requests that succeed.
pub proof fn membership_follows_the_last_change(
    state: RegistryState,
    valid: Set<Seq<char>>,
    caller: Seq<char>,
    writer: Seq<char>,
)
    ensures
        state.with_writer(writer).is_writer(writer),
        !state.without_writer(writer).is_writer(writer),
        state.execute_add_writer(valid, caller, writer) matches Ok(next) ==> next.is_writer(
            writer,
        ),
        state.execute_remove_writer(valid, caller, writer) matches Ok(next) ==> !next.is_writer(
            writer,
        ),
{
}

/// Adding or removing a writer changes the membership of no other identity.
pub proof fn other_writers_are_untouched(
    state: RegistryState,
    writer: Seq<char>,
    other: Seq<char>,
)
    requires
        other != writer,
    ensures
        state.with_writer(writer).is_writer(other) == state.is_writer(other),
        state.without_writer(writer).is_writer(other) == state.is_writer(other),
{
}

/// Adding a writer twice is the same as adding it once, adding one that is a writer
/// already changes nothing, and removing an identity that is no writer changes nothing.
pub proof fn writer_changes_are_idempotent(state: RegistryState, writer: Seq<char>)
    ensures
        state.with_writer(writer).with_writer(writer) == state.with_writer(writer),
        state.is_writer(writer) ==> state.with_writer(writer) == state,
        !state.is_writer(writer) ==> state.without_writer(writer) == state,
        state.without_writer(writer).without_writer(writer) == state.without_writer(writer),
{
    assert(state.writers.insert(writer).insert(writer) =~= state.writers.insert(writer));
    assert(state.writers.remove(writer).remove(writer) =~= state.writers.remove(writer));
    if !state.is_writer(writer) {
        assert(state.writers.remove(writer) =~= state.writers);
    } else {
        assert(state.writers.insert(writer) =~= state.writers);
    }
}

/// The writer set does not depend on the order in which writers were added.
pub proof fn insertion_order_is_immaterial(state: RegistryState, a: Seq<char>, b: Seq<char>)
    ensures
        state.with_writer(a).with_writer(b) == state.with_writer(b).with_writer(a),
{
    assert(state.writers.insert(a).insert(b) =~= state.writers.insert(b).insert(a));
}

/// The listing of the writers does not depend on the order in which they were added:
/// whichever of two writers was added first, the ascending list of the writers is the
/// same.
pub proof fn listing_ignores_insertion_order(
    state: RegistryState,
    a: Seq<char>,
    b: Seq<char>,
    first: Seq<Seq<char>>,
    second: Seq<Seq<char>>,
)
    requires
        lists(first, state.with_writer(a).with_writer(b).writers),
        lists(second, state.with_writer(b).with_writer(a).writers),
    ensures
        first == second,
{
    insertion_order_is_immaterial(state, a, b);
    listing_is_unique(first, second, state.with_writer(a).with_writer(b).writers);
}

/// Two registries with the same writers list them alike, whatever their histories: where
/// every key of both writer sets can be read, the two walks come to the same listing.
pub proof fn same_writers_same_listing(
    first: Seq<Result<Seq<char>, StdError>>,
    second: Seq<Result<Seq<char>, StdError>>,
    members: Set<Seq<char>>,
)
    requires
        walks(first, members),
        walks(second, members),
        all_read(first),
        all_read(second),
    ensures
        listing_of(first) == listing_of(second),
        listing_of(first) is Ok,
{
    no_failure_means_all_read(first);
    no_failure_means_all_read(second);
    read_walk_lists_the_members(first, members);
    read_walk_lists_the_members(second, members);
    listing_is_unique(addresses_in(first), addresses_in(second), members);
}

/// A request leaves the registry in one state only: what the registry is after a request
/// depends on what it was before, on the caller and on the request, and on nothing else.
pub proof fn requests_are_deterministic(
    before: RegistryState,
    first: RegistryState,
    second: RegistryState,
    valid: Set<Seq<char>>,
    caller: Seq<char>,
    msg: ExecuteMsg,
)
    requires
        before.steps_to(first, valid, caller, msg),
        before.steps_to(second, valid, caller, msg),
    ensures
        first == second,
{
}

/// An identity that is no writer cannot register a message: the request fails with
/// `NotAWriter`, whatever the content.
pub proof fn only_writers_register(state: RegistryState, caller: Seq<char>, content: Seq<char>)
    requires
        !state.is_writer(caller),
    ensures
        state.execute_register_message(caller, content) == Err::<RegistryState, _>(
            Failure::NotAWriter,
        ),
{
}

/// An identity that was never added is no writer: if it was none at the start, and every
/// request to add it failed, then it is none in any state of the history, and a message
/// that it submits in such a state is refused with `NotAWriter`.
pub proof fn never_added_is_no_writer(
    states: Seq<RegistryState>,
    valid: Set<Seq<char>>,
    requests: Seq<Request>,
    id: Seq<char>,
    k: int,
    content: Seq<char>,
)
    requires
        history(states, valid, requests),
        !states[0].is_writer(id),
        forall|i: int|
            0 <= i < requests.len() && asks_to_add(#[trigger] requests[i], id)
                ==> states[i].execute(valid, requests[i].caller, requests[i].msg) is Err,
        0 <= k < states.len(),
    ensures
        !states[k].is_writer(id),
        states[k].execute_register_message(id, content) == Err::<RegistryState, _>(
            Failure::NotAWriter,
        ),
    decreases k,
{
    if k > 0 {
        never_added_is_no_writer(states, valid, requests, id, k - 1, content);
        let before = states[k - 1];
        let request = requests[k - 1];
        assert(before.steps_to(states[k], valid, request.caller, request.msg));
        if states[k] != before {
            assert(!asks_to_add(request, id));
        }
    }
}

/// After a message was registered, a second registration by the same identity fails with
/// `MessageAlreadyExists`, whatever its content, and the stored message is the first one.
pub proof fn second_registration_is_rejected(
    state: RegistryState,
    caller: Seq<char>,
    first: Seq<char>,
    second: Seq<char>,
)
    requires
        state.execute_register_message(caller, first) is Ok,
    ensures
        ({
            let next = state.execute_register_message(caller, first)->Ok_0;
            &&& next.message_of(caller) == Some(MessageView { author: caller, content: first })
            &&& next.execute_register_message(caller, second) == Err::<RegistryState, _>(
                Failure::MessageAlreadyExists,
            )
        }),
{
}

/// No request changes or removes a stored message: whatever is stored for an identity
/// before a step is stored for it after the step.
pub proof fn stored_messages_stay(
    before: RegistryState,
    after: RegistryState,
    valid: Set<Seq<char>>,
    caller: Seq<char>,
    msg: ExecuteMsg,
    id: Seq<char>,
)
    requires
        before.steps_to(after, valid, caller, msg),
        before.has_message(id),
    ensures
        after.has_message(id),
        after.messages[id] == before.messages[id],
{
}

/// The write-once invariant: once something is stored as the message of an identity, it
/// is what is stored for that identity in every later state of the history.
pub proof fn messages_are_written_once(
    states: Seq<RegistryState>,
    valid: Set<Seq<char>>,
    requests: Seq<Request>,
    id: Seq<char>,
    i: int,
    j: int,
)
    requires
        history(states, valid, requests),
        0 <= i <= j < states.len(),
        states[i].has_message(id),
    ensures
        states[j].has_message(id),
        states[j].messages[id] == states[i].messages[id],
    decreases j - i,
{
    if i < j {
        messages_are_written_once(states, valid, requests, id, i, j - 1);
        let request = requests[j - 1];
        assert(states[j - 1].steps_to(states[j], valid, request.caller, request.msg));
        stored_messages_stay(states[j - 1], states[j], valid, request.caller, request.msg, id);
    }
}

/// Removing a writer removes no message: the messages after the removal are those
/// before it, and a query gives what it gave before.
pub proof fn removal_touches_no_message(
    state: RegistryState,
    valid: Set<Seq<char>>,
    caller: Seq<char>,
    writer: Seq<char>,
    asked: Seq<char>,
)
    requires
        state.execute_remove_writer(valid, caller, writer) is Ok,
    ensures
        ({
            let next = state.execute_remove_writer(valid, caller, writer)->Ok_0;
            &&& next.messages == state.messages
            &&& next.query_message(valid, asked) == state.query_message(valid, asked)
        }),
{
}

/// Removing a writer who has registered a message does not remove the message: a query
/// for it still gives the record that was registered.
pub proof fn removal_keeps_the_message(
    state: RegistryState,
    valid: Set<Seq<char>>,
    author: Seq<char>,
    content: Seq<char>,
    caller: Seq<char>,
)
    requires
        state.execute_register_message(author, content) is Ok,
        state.execute_register_message(author, content)->Ok_0.execute_remove_writer(
            valid,
            caller,
            author,
        ) is Ok,
    ensures
        ({
            let registered = state.execute_register_message(author, content)->Ok_0;
            let removed = registered.execute_remove_writer(valid, caller, author)->Ok_0;
            &&& !removed.is_writer(author)
            &&& removed.query_message(valid, author) == Ok::<_, Failure>(
                Some(MessageView { author, content }),
            )
        }),
{
}

/// A caller who is not the owner can neither add nor remove a writer: for a valid
/// address the request fails with `Unauthorized`, and the step leaves the registry, and
/// with it the writer set, as it was.
pub proof fn only_the_owner_changes_writers(
    state: RegistryState,
    after: RegistryState,
    valid: Set<Seq<char>>,
    caller: Seq<char>,
    msg: ExecuteMsg,
)
    requires
        state.owner is Ok,
        !state.is_owner(caller),
        match msg {
            ExecuteMsg::AddWriter { writer } => valid.contains(writer@),
            ExecuteMsg::RemoveWriter { writer } => valid.contains(writer@),
            ExecuteMsg::RegisterMessage { content } => false,
        },
        state.steps_to(after, valid, caller, msg),
    ensures
        state.execute(valid, caller, msg) == Err::<RegistryState, _>(Failure::Unauthorized),
        after == state,
        after.writers == state.writers,
{
}

/// No request changes the owner.
pub proof fn owner_is_fixed(
    before: RegistryState,
    after: RegistryState,
    valid: Set<Seq<char>>,
    caller: Seq<char>,
    msg: ExecuteMsg,
)
    requires
        before.steps_to(after, valid, caller, msg),
    ensures
        after.owner == before.owner,
{
}

/// The owner is the same in every state of a history.
pub proof fn owner_never_changes(
    states: Seq<RegistryState>,
    valid: Set<Seq<char>>,
    requests: Seq<Request>,
    k: int,
)
    requires
        history(states, valid, requests),
        0 <= k < states.len(),
    ensures
        states[k].owner == states[0].owner,
    decreases k,
{
    if k > 0 {
        owner_never_changes(states, valid, requests, k - 1);
        let request = requests[k - 1];
        assert(states[k - 1].steps_to(states[k], valid, request.caller, request.msg));
    }
}

/// A request that fails changes nothing.
pub proof fn failure_has_no_effect(
    before: RegistryState,
    after: RegistryState,
    valid: Set<Seq<char>>,
    caller: Seq<char>,
    msg: ExecuteMsg,
)
    requires
        before.steps_to(after, valid, caller, msg),
        before.execute(valid, caller, msg) is Err,
    ensures
        after == before,
{
}

/// Requests keep the messages well formed: if every stored message can be read and
/// names its key as its author before a step, the same holds after it.
pub proof fn authors_stay_keys(
    before: RegistryState,
    after: RegistryState,
    valid: Set<Seq<char>>,
    caller: Seq<char>,
    msg: ExecuteMsg,
)
    requires
        before.steps_to(after, valid, caller, msg),
        authors_are_keys(before),
    ensures
        authors_are_keys(after),
{
    assert forall|id: Seq<char>| #[trigger] after.has_message(id) implies names_its_key(
        after,
        id,
    ) by {
        if before.has_message(id) {
            assert(names_its_key(before, id));
        }
    }
}

/// Where every stored message can be read, a query for the message of a valid address
/// never fails, and gives `None` exactly where nothing is stored for the address.
pub proof fn readable_messages_are_found(
    state: RegistryState,
    valid: Set<Seq<char>>,
    writer: Seq<char>,
)
    requires
        authors_are_keys(state),
        valid.contains(writer),
    ensures
        state.query_message(valid, writer) == Ok::<_, Failure>(state.message_of(writer)),
        state.message_of(writer) is None <==> !state.has_message(writer),
{
    if state.has_message(writer) {
    }
}

} // verus!
