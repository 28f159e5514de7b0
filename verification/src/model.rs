//! The registry as a mathematical object: its state, and what each request does to it.
//!
//! Every function of the crate that reads or changes the storage states its effect in
//! terms of this model, and the laws of the registry are proved of the model.

use crate::error::Failure;
use cosmwasm_std::StdError;
use crate::msg::{ExecuteMsg, InstantiateMsg};
use vstd::prelude::*;

verus! {

/// A message record: who wrote it, and what it says.
pub struct MessageView {
    pub author: Seq<char>,
    pub content: Seq<char>,
}

/// The state of the registry: three collections that do not refer to one another.
pub struct RegistryState {
    /// What reading the owner configuration gives: the owner, once the registry has been
    /// set up, and else the failure to read it.
    pub owner: Result<Seq<char>, StdError>,
    /// The identities that may register a message at present.
    pub writers: Set<Seq<char>>,
    /// For every identity under which something is stored, what reading it gives: the
    /// record that it decodes to, or the failure to decode it.
    pub messages: Map<Seq<char>, Result<MessageView, StdError>>,
}

/// A request that changes the registry, with the caller who makes it.
pub struct Request {
    pub caller: Seq<char>,
    pub msg: ExecuteMsg,
}

impl RegistryState {
    /// Whether `id` is the owner.
    pub open spec fn is_owner(self, id: Seq<char>) -> bool {
        self.owner == Ok::<Seq<char>, StdError>(id)
    }

    /// Whether `id` is a writer at present.
    pub open spec fn is_writer(self, id: Seq<char>) -> bool {
        self.writers.contains(id)
    }

    /// Whether anything is stored as the message of `id`.
    pub open spec fn has_message(self, id: Seq<char>) -> bool {
        self.messages.contains_key(id)
    }

    /// The message of `id`, if one is stored and can be read.
    pub open spec fn message_of(self, id: Seq<char>) -> Option<MessageView> {
        if self.messages.contains_key(id) {
            match self.messages[id] {
                Ok(message) => Some(message),
                Err(_) => None,
            }
        } else {
            None
        }
    }

    /// This state with `owner` as its owner.
    pub open spec fn with_owner(self, owner: Seq<char>) -> RegistryState {
        RegistryState { owner: Ok(owner), ..self }
    }

    /// This state with `writer` among the writers.
    pub open spec fn with_writer(self, writer: Seq<char>) -> RegistryState {
        RegistryState { writers: self.writers.insert(writer), ..self }
    }

    /// This state with `writer` not among the writers.
    pub open spec fn without_writer(self, writer: Seq<char>) -> RegistryState {
        RegistryState { writers: self.writers.remove(writer), ..self }
    }

    /// This state with `content` stored as the message of `author`.
    pub open spec fn with_message(self, author: Seq<char>, content: Seq<char>) -> RegistryState {
        RegistryState {
            messages: self.messages.insert(author, Ok(MessageView { author, content })),
            ..self
        }
    }

    /// The owner check: passes for the owner alone. Where the owner cannot be read, the
    /// check fails with the failure to read it.
    pub open spec fn assert_owner(self, caller: Seq<char>) -> Result<(), Failure> {
        match self.owner {
            Err(failure) => Err(Failure::Std(failure)),
            Ok(owner) => if owner == caller {
                Ok(())
            } else {
                Err(Failure::Unauthorized)
            },
        }
    }

    /// The writer check: passes for the current writers alone.
    pub open spec fn assert_writer(self, caller: Seq<char>) -> Result<(), Failure> {
        if self.is_writer(caller) {
            Ok(())
        } else {
            Err(Failure::NotAWriter)
        }
    }

    /// The write-once insertion: `author` gets a message only if nothing is stored for it.
    pub open spec fn register_message(self, author: Seq<char>, content: Seq<char>) -> Result<
        RegistryState,
        Failure,
    > {
        if self.has_message(author) {
            Err(Failure::MessageAlreadyExists)
        } else {
            Ok(self.with_message(author, content))
        }
    }

    /// What setting up the registry does, where `valid` says which address strings the
    /// host accepts: the named owner, or else the sender, becomes the owner.
    pub open spec fn instantiate(
        self,
        valid: Set<Seq<char>>,
        sender: Seq<char>,
        msg: InstantiateMsg,
    ) -> Result<RegistryState, Failure> {
        match msg.owner {
            Some(owner) => if valid.contains(owner@) {
                Ok(self.with_owner(owner@))
            } else {
                Err(Failure::InvalidIdentity)
            },
            None => Ok(self.with_owner(sender)),
        }
    }

    /// What a request to add `writer` does: the address is validated, then the caller
    /// must be the owner, then `writer` joins the writers.
    pub open spec fn execute_add_writer(
        self,
        valid: Set<Seq<char>>,
        caller: Seq<char>,
        writer: Seq<char>,
    ) -> Result<RegistryState, Failure> {
        if !valid.contains(writer) {
            Err(Failure::InvalidIdentity)
        } else {
            match self.assert_owner(caller) {
                Err(kind) => Err(kind),
                Ok(()) => Ok(self.with_writer(writer)),
            }
        }
    }

    /// What a request to remove `writer` does: the address is validated, then the caller
    /// must be the owner, then `writer` leaves the writers, if it was among them.
    pub open spec fn execute_remove_writer(
        self,
        valid: Set<Seq<char>>,
        caller: Seq<char>,
        writer: Seq<char>,
    ) -> Result<RegistryState, Failure> {
        if !valid.contains(writer) {
            Err(Failure::InvalidIdentity)
        } else {
            match self.assert_owner(caller) {
                Err(kind) => Err(kind),
                Ok(()) => Ok(self.without_writer(writer)),
            }
        }
    }

    /// What a request to register `content` does: the caller must be a writer, and must
    /// not have a message yet.
    pub open spec fn execute_register_message(
        self,
        caller: Seq<char>,
        content: Seq<char>,
    ) -> Result<RegistryState, Failure> {
        match self.assert_writer(caller) {
            Err(kind) => Err(kind),
            Ok(()) => self.register_message(caller, content),
        }
    }

    /// What a request does: the state that it leads to, or the failure that it ends in,
    /// where `valid` says which address strings the host accepts.
    pub open spec fn execute(
        self,
        valid: Set<Seq<char>>,
        caller: Seq<char>,
        msg: ExecuteMsg,
    ) -> Result<RegistryState, Failure> {
        match msg {
            ExecuteMsg::AddWriter { writer } => self.execute_add_writer(valid, caller, writer@),
            ExecuteMsg::RemoveWriter { writer } => self.execute_remove_writer(
                valid,
                caller,
                writer@,
            ),
            ExecuteMsg::RegisterMessage { content } => self.execute_register_message(
                caller,
                content@,
            ),
        }
    }

    /// The answer to a query for the message of `writer`: the record, or its absence, or
    /// the failure to read what is stored.
    pub open spec fn query_message(self, valid: Set<Seq<char>>, writer: Seq<char>)
        -> Result<Option<MessageView>, Failure> {
        if !valid.contains(writer) {
            Err(Failure::InvalidIdentity)
        } else if !self.has_message(writer) {
            Ok(None)
        } else {
            match self.messages[writer] {
                Ok(message) => Ok(Some(message)),
                Err(failure) => Err(Failure::Std(failure)),
            }
        }
    }

    /// The state in which a request leaves the registry: the one that the request leads
    /// to if it succeeds, and this one if it fails.
    pub open spec fn after(
        self,
        valid: Set<Seq<char>>,
        caller: Seq<char>,
        msg: ExecuteMsg,
    ) -> RegistryState {
        match self.execute(valid, caller, msg) {
            Ok(next) => next,
            Err(_) => self,
        }
    }

    /// Whether the registry passes from this state to `next` when it handles the request
    /// `msg` of `caller`: the request takes effect, or, if it fails, nothing changes.
    pub open spec fn steps_to(
        self,
        next: RegistryState,
        valid: Set<Seq<char>>,
        caller: Seq<char>,
        msg: ExecuteMsg,
    ) -> bool {
        next == self.after(valid, caller, msg)
    }
}

/// The attributes that a successful request reports.
pub open spec fn attributes_of(msg: ExecuteMsg) -> Seq<(Seq<char>, Seq<char>)> {
    match msg {
        ExecuteMsg::AddWriter { writer } => seq![("action"@, "add_writer"@), ("writer"@, writer@)],
        ExecuteMsg::RemoveWriter { writer } => seq![
            ("action"@, "remove_writer"@),
            ("writer"@, writer@),
        ],
        ExecuteMsg::RegisterMessage { content } => seq![("action"@, "register_message"@)],
    }
}

} // verus!
