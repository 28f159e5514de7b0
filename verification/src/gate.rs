//! The access control gate: who is the owner, and who is a writer.
//!
//! These checks only read. The request handlers make them before they change anything.

use crate::error::{from_storage, ContractError};
use crate::identity::Identity;
use crate::state::{Config, Store};
use vstd::prelude::*;

verus! {

impl Config {
    /// Whether `id` is the owner that this configuration names.
    pub fn is_owner(&self, id: &Identity) -> (r: bool)
        ensures
            r == (self.owner@ == id@),
    {
        self.owner == *id
    }

    /// Passes for the owner that this configuration names and fails with
    /// [`ContractError::Unauthorized`] for anyone else.
    pub fn require_owner(&self, id: &Identity) -> (r: Result<(), ContractError>)
        ensures
            match r {
                Ok(()) => self.owner@ == id@,
                Err(e) => self.owner@ != id@ && e is Unauthorized,
            },
    {
        if !self.is_owner(id) {
            return Err(ContractError::Unauthorized {  });
        }
        Ok(())
    }
}

/// Passes for a member of the writer set and fails with [`ContractError::NotAWriter`]
/// for anyone else, where `member` says whether the caller is in the writer set.
pub fn require_writer(member: bool) -> (r: Result<(), ContractError>)
    ensures
        match r {
            Ok(()) => member,
            Err(e) => !member && e is NotAWriter,
        },
{
    if !member {
        return Err(ContractError::NotAWriter {  });
    }
    Ok(())
}

impl<'a> Store<'a> {
    /// Whether `id` is the stored owner. Before the registry is set up nobody is.
    pub fn is_owner(&self, id: &Identity) -> (r: bool)
        ensures
            r == self@.is_owner(id@),
    {
        match self.load_config() {
            Ok(config) => config.is_owner(id),
            Err(_) => false,
        }
    }

    /// Whether `id` is in the writer set.
    pub fn is_writer(&self, id: &Identity) -> (r: bool)
        ensures
            r == self@.is_writer(id@),
    {
        self.contains_writer(id)
    }
}

/// Passes for the stored owner and fails with [`ContractError::Unauthorized`] for anyone
/// else. Where no owner can be read from the storage, the failure to read it is handed
/// on unchanged.
pub fn assert_owner(store: &Store, sender: &Identity) -> (r: Result<(), ContractError>)
    ensures
        match r {
            Ok(()) => store@.is_owner(sender@),
            Err(e) => store@.assert_owner(sender@) == Err::<(), _>(e.failure()),
        },
{
    let config = from_storage(store.load_config())?;
    config.require_owner(sender)
}

/// Passes for a current writer and fails with [`ContractError::NotAWriter`] for anyone
/// else.
pub fn assert_writer(store: &Store, sender: &Identity) -> (r: Result<(), ContractError>)
    ensures
        match r {
            Ok(()) => store@.is_writer(sender@),
            Err(e) => !store@.is_writer(sender@) && e is NotAWriter,
        },
{
    require_writer(store.is_writer(sender))
}

} // verus!
