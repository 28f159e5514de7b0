//! A permissioned, append-only message registry.
//!
//! One owner controls a set of writers; each writer may register a single message, which
//! can never be changed or removed afterwards. The registry keeps its state in the key-value
//! storage of its host, in three separate collections: the owner configuration, the writer
//! set and the messages.
//!
//! The modules, from the leaves up:
//!
//! - [`identity`]: identities, and their validation by the host;
//! - [`state`]: the records, and the storage with the three collections in it;
//! - [`gate`]: who is the owner, and who is a writer;
//! - [`writers`] and [`messages`]: the two registries;
//! - [`contract`]: the request handlers, with [`msg`], [`response`] and [`error`] for what
//!   goes in and what comes out;
//! - [`model`], [`order`] and [`laws`]: the registry as a mathematical object, and what is
//!   proved of it.
//!
//! Everything is verified but the calls into `cw_storage_plus` and `cosmwasm_std`. Each of
//! them stands in a function of its own, in [`state`] or [`identity`], whose contract says
//! what is assumed of the call.

pub mod contract;
pub mod error;
pub mod gate;
pub mod identity;
pub mod laws;
pub mod messages;
pub mod model;
pub mod msg;
pub mod order;
pub mod response;
pub mod state;
pub mod writers;

pub use crate::contract::{execute, instantiate, query};
pub use crate::error::{ContractError, ErrorKind, Failure};
pub use crate::identity::{AddressApi, Identity};
pub use crate::msg::{ExecuteMsg, InstantiateMsg, QueryMsg, QueryResponse};
pub use crate::response::{Attribute, Response};
pub use crate::state::{Config, Message, Store};
