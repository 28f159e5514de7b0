//! The message registry: one message for each writer, written once and never again.
//!
//! These operations do not ask whether the author is a writer; the request handlers do.

use crate::error::{from_storage, ContractError};
use crate::identity::Identity;
use crate::model::MessageView;
use crate::state::{Message, Store};
use cosmwasm_std::StdError;
use vstd::prelude::*;

verus! {

impl Message {
    /// The record to store for `author`, who submits `content`: none if something is
    /// stored for `author` already, as `occupied` says. A message is written once.
    pub fn write_once(occupied: bool, author: &Identity, content: String) -> (r: Result<
        Message,
        ContractError,
    >)
        ensures
            match r {
                Ok(message) => {
                    &&& !occupied
                    &&& message@ == MessageView { author: author@, content: content@ }
                },
                Err(e) => occupied && e is MessageAlreadyExists,
            },
    {
        if occupied {
            return Err(ContractError::MessageAlreadyExists {  });
        }
        Ok(Message { author: author.clone(), content })
    }
}

impl<'a> Store<'a> {
    /// Stores `content` as the message of `author`, unless something is stored for
    /// `author` already: then the stored entry stays as it is and the call fails with
    /// [`ContractError::MessageAlreadyExists`]. The owner and the writers are not touched.
    pub fn register_message(&mut self, author: &Identity, content: String) -> (r: Result<
        Message,
        ContractError,
    >)
        ensures
            match r {
                Ok(message) => {
                    &&& !old(self)@.has_message(author@)
                    &&& message@ == MessageView { author: author@, content: content@ }
                    &&& final(self)@ == old(self)@.with_message(author@, content@)
                },
                Err(e) => {
                    &&& old(self)@.has_message(author@)
                    &&& e is MessageAlreadyExists
                    &&& final(self)@ == old(self)@
                },
            },
            final(self).walk() == old(self).walk(),
    {
        let message = Message::write_once(self.has_message(author), author, content)?;
        from_storage(self.save_message(author, &message))?;
        Ok(message)
    }

    /// The message of `writer`: `None` where nothing is stored for `writer`, which is no
    /// error. It fails only if what is stored cannot be read, and then with the failure
    /// to read it.
    pub fn get_message(&self, writer: &Identity) -> (r: Result<Option<Message>, ContractError>)
        ensures
            match r {
                Ok(None) => !self@.has_message(writer@),
                Ok(Some(message)) => {
                    &&& self@.has_message(writer@)
                    &&& self@.messages[writer@] == Ok::<MessageView, StdError>(message@)
                },
                Err(e) => {
                    &&& self@.has_message(writer@)
                    &&& self@.messages[writer@] matches Err(failure) && e == ContractError::Std(
                        failure,
                    )
                },
            },
    {
        from_storage(self.may_load_message(writer))
    }
}

} // verus!
