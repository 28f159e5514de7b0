//! The requests that the registry answers.

use crate::state::Message;
use vstd::prelude::*;

verus! {

/// Sent once, when the registry is set up.
#[derive(Clone, Debug, PartialEq)]
pub struct InstantiateMsg {
    /// The address of the owner. If there is none, the sender becomes the owner.
    pub owner: Option<String>,
}

/// The requests that change the registry.
#[derive(Clone, Debug, PartialEq)]
pub enum ExecuteMsg {
    /// Adds a writer to the approved set. Only the owner may do so.
    AddWriter { writer: String },
    /// Removes a writer from the approved set. Only the owner may do so.
    RemoveWriter { writer: String },
    /// Registers the message of the caller, who must be a writer and may do so once.
    RegisterMessage { content: String },
}

/// The requests that only read.
#[derive(Clone, Debug, PartialEq)]
pub enum QueryMsg {
    /// Asks for the message of a writer. The answer is [`QueryResponse::Message`].
    GetMessage { writer: String },
    /// Asks for all approved writers. The answer is [`QueryResponse::Writers`].
    GetWriters {  },
}

/// The answer to a [`QueryMsg`], before it is encoded for the wire.
#[derive(Debug, PartialEq)]
pub enum QueryResponse {
    /// The message of the writer asked for, if there is one.
    Message(Option<Message>),
    /// The addresses of the approved writers, in ascending order.
    Writers(Vec<String>),
}

} // verus!
