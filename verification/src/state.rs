//! What the registry keeps, and the storage that it keeps it in.
//!
//! The storage is the key-value storage of the host. The registry holds three collections
//! in it, each under a namespace of its own: the owner configuration, the writer set, and
//! the messages by writer.

use crate::identity::Identity;
use crate::model::{MessageView, RegistryState};
use crate::order::precedes;
use cosmwasm_std::{Addr, Order, StdError};
use vstd::prelude::*;

verus! {

/// The namespace of the owner configuration: a single item.
pub const CONFIG: &'static str = "config";

/// The namespace of the writer set: a map from writer to nothing.
pub const WRITERS: &'static str = "writers";

/// The namespace of the messages: a map from writer to author and content.
pub const MESSAGES: &'static str = "messages";

/// The configuration of the registry. It is written when the registry is set up and
/// never after.
#[derive(Clone, Debug, PartialEq)]
pub struct Config {
    /// The identity that may add and remove writers.
    pub owner: Identity,
}

/// A message that a writer has registered. Once stored it does not change.
#[derive(Clone, Debug, PartialEq)]
pub struct Message {
    /// The writer who registered the message.
    pub author: Identity,
    /// What the message says.
    pub content: String,
}

impl View for Message {
    type V = MessageView;

    open spec fn view(&self) -> MessageView {
        MessageView { author: self.author@, content: self.content@ }
    }
}

/// The storage of the host, as the registry sees it.
///
/// It wraps a `cosmwasm_std::Storage`. What is said of a `Store` here holds of a storage
/// that behaves as that trait documents: it returns for a key what was last set for it,
/// until the key is removed, and walks its keys in ascending order of their bytes.
#[verifier::external_body]
pub struct Store<'a> {
    inner: &'a mut dyn cosmwasm_std::Storage,
}

/// What `cw_storage_plus::Item::load` gives for the namespace [`CONFIG`]: the owner that
/// it reads, or the failure to read one.
pub uninterp spec fn stored_owner(store: Store) -> Result<Seq<char>, StdError>;

/// The addresses under which the map in the namespace [`WRITERS`] holds an entry.
pub uninterp spec fn stored_writers(store: Store) -> Set<Seq<char>>;

/// The addresses under which the map in the namespace [`MESSAGES`] holds an entry, each
/// with what `cw_storage_plus::Map::may_load` gives for it: the record that it decodes the
/// entry to, or the failure to decode it.
pub uninterp spec fn stored_messages(store: Store) -> Map<
    Seq<char>,
    Result<MessageView, StdError>,
>;

/// The keys of the map in the namespace [`WRITERS`], in the ascending order in which
/// `cw_storage_plus::Map::keys` walks them: for each entry the address that it decodes
/// to, or the failure with which it gives up on the entry.
pub uninterp spec fn stored_writer_keys(store: Store) -> Seq<Result<Seq<char>, StdError>>;

/// Whether every key of `walk` was read.
pub open spec fn all_read(walk: Seq<Result<Seq<char>, StdError>>) -> bool {
    forall|i: int| 0 <= i < walk.len() ==> (#[trigger] walk[i]) is Ok
}

/// What the keys of a map, walked in ascending order, have to do with the addresses
/// under which the map holds an entry: the addresses among the keys ascend, each of them
/// is one of `members`, and where every key was read, every member is among them.
pub open spec fn walks(walk: Seq<Result<Seq<char>, StdError>>, members: Set<Seq<char>>) -> bool {
    &&& forall|i: int, j: int|
        0 <= i < j < walk.len() && (#[trigger] walk[i]) is Ok && (#[trigger] walk[j]) is Ok
            ==> precedes(walk[i]->Ok_0, walk[j]->Ok_0)
    &&& forall|i: int|
        0 <= i < walk.len() && (#[trigger] walk[i]) is Ok ==> members.contains(walk[i]->Ok_0)
    &&& all_read(walk) ==> forall|who: Seq<char>|
        members.contains(who) ==> walk.contains(Ok(who))
}

/// What reading the owner configuration came to: the text of the owner, or the failure
/// to read it.
pub open spec fn owner_outcome(read: Result<Config, StdError>) -> Result<Seq<char>, StdError> {
    match read {
        Ok(config) => Ok(config.owner@),
        Err(e) => Err(e),
    }
}

/// What reading a message came to: the record, or the failure to read it.
pub open spec fn record_outcome(read: Result<Message, StdError>) -> Result<
    MessageView,
    StdError,
> {
    match read {
        Ok(message) => Ok(message@),
        Err(e) => Err(e),
    }
}

/// What a key came to: the text of the address that it holds, or the failure to read it.
pub open spec fn key_outcome(key: Result<Identity, StdError>) -> Result<Seq<char>, StdError> {
    match key {
        Ok(id) => Ok(id@),
        Err(e) => Err(e),
    }
}

/// What `keys` came to, in their order.
pub open spec fn key_outcomes(keys: Seq<Result<Identity, StdError>>) -> Seq<
    Result<Seq<char>, StdError>,
> {
    keys.map_values(|key: Result<Identity, StdError>| key_outcome(key))
}

impl<'a> View for Store<'a> {
    type V = RegistryState;

    open spec fn view(&self) -> RegistryState {
        RegistryState {
            owner: stored_owner(*self),
            writers: stored_writers(*self),
            messages: stored_messages(*self),
        }
    }
}

impl<'a> Store<'a> {
    /// The keys of the writer set as the storage walks them, in ascending order: each
    /// an address, or the failure to read the entry.
    pub open spec fn walk(&self) -> Seq<Result<Seq<char>, StdError>> {
        stored_writer_keys(*self)
    }

    /// Whether every entry of the writer set can be read.
    pub open spec fn writers_readable(&self) -> bool {
        all_read(self.walk())
    }

    /// A handle on `storage`, which implements `cosmwasm_std::Storage`, whatever it holds.
    /// The body keeps the reference as a trait object and calls nothing; nothing is
    /// claimed of the handle.
    #[verifier::external_body]
    pub fn new<S: cosmwasm_std::Storage>(storage: &'a mut S) -> (store: Store<'a>) {
        Store { inner: storage }
    }

    /// Calls `cw_storage_plus::Item::load` on the owner configuration. It returns the
    /// stored owner, and fails where none is stored or the stored bytes do not decode.
    /// What comes back depends on the storage alone and has the name [`stored_owner`].
    #[verifier::external_body]
    pub(crate) fn load_config(&self) -> (r: Result<Config, StdError>)
        ensures
            owner_outcome(r) == stored_owner(*self),
    {
        cw_storage_plus::Item::<Addr>::new(CONFIG)
            .load(&*self.inner)
            .map(|owner| Config { owner: Identity { text: owner.into_string() } })
    }

    /// Calls `cw_storage_plus::Item::save` on the owner configuration. Afterwards the
    /// owner of `config` is the stored owner. The two maps are in other namespaces and
    /// keep what they hold.
    ///
    /// The call succeeds: `save` fails only where the value does not serialise, and the
    /// serialiser of `serde_json_wasm` has no failing path for an address, which it
    /// writes as a string.
    #[verifier::external_body]
    pub(crate) fn save_config(&mut self, config: &Config) -> (r: Result<(), StdError>)
        ensures
            r is Ok,
            stored_owner(*final(self)) == owner_outcome(Ok(*config)),
            stored_writers(*final(self)) == stored_writers(*old(self)),
            stored_messages(*final(self)) == stored_messages(*old(self)),
            stored_writer_keys(*final(self)) == stored_writer_keys(*old(self)),
    {
        cw_storage_plus::Item::<Addr>::new(CONFIG).save(
            &mut *self.inner,
            &Addr::unchecked(config.owner.text.clone()),
        )
    }

    /// Calls `cw_storage_plus::Map::has` on the writer set: whether an entry is stored
    /// under `who`.
    #[verifier::external_body]
    pub(crate) fn has_writer(&self, who: &Identity) -> (r: bool)
        ensures
            r == stored_writers(*self).contains(who@),
    {
        cw_storage_plus::Map::<&Addr, ()>::new(WRITERS).has(
            &*self.inner,
            &Addr::unchecked(who.text.clone()),
        )
    }

    /// Calls `cw_storage_plus::Map::save` on the writer set, with the unit value.
    /// Afterwards `who` is among the stored writers. The owner and the messages are in
    /// other namespaces and stay as they are. The entry of `who` can be read, so if every
    /// entry of the writer set could be read before, every entry can be read after; and
    /// if `who` was among them, the entry is written as it was and the walk over the keys
    /// is the same.
    ///
    /// The call succeeds: `save` fails only where the value does not serialise, and the
    /// serialiser of `serde_json_wasm` has no failing path for the unit value.
    #[verifier::external_body]
    pub(crate) fn save_writer(&mut self, who: &Identity) -> (r: Result<(), StdError>)
        ensures
            r is Ok,
            stored_writers(*final(self)) == stored_writers(*old(self)).insert(who@),
            stored_owner(*final(self)) == stored_owner(*old(self)),
            stored_messages(*final(self)) == stored_messages(*old(self)),
            all_read(stored_writer_keys(*old(self))) ==> all_read(
                stored_writer_keys(*final(self)),
            ),
            all_read(stored_writer_keys(*old(self))) && stored_writers(*old(self)).contains(who@)
                ==> stored_writer_keys(*final(self)) == stored_writer_keys(*old(self)),
    {
        cw_storage_plus::Map::<&Addr, ()>::new(WRITERS).save(
            &mut *self.inner,
            &Addr::unchecked(who.text.clone()),
            &(),
        )
    }

    /// Calls `cw_storage_plus::Map::remove` on the writer set. Afterwards no entry is
    /// stored under `who`; all other entries, the owner and the messages stay. No entry
    /// is added, so if every entry of the writer set could be read before, every entry
    /// can be read after; and if no entry was stored under `who`, nothing is removed and
    /// the walk over the keys is the same.
    #[verifier::external_body]
    pub(crate) fn delete_writer(&mut self, who: &Identity)
        ensures
            stored_writers(*final(self)) == stored_writers(*old(self)).remove(who@),
            stored_owner(*final(self)) == stored_owner(*old(self)),
            stored_messages(*final(self)) == stored_messages(*old(self)),
            all_read(stored_writer_keys(*old(self))) ==> all_read(
                stored_writer_keys(*final(self)),
            ),
            !stored_writers(*old(self)).contains(who@) ==> stored_writer_keys(*final(self))
                == stored_writer_keys(*old(self)),
    {
        cw_storage_plus::Map::<&Addr, ()>::new(WRITERS).remove(
            &mut *self.inner,
            &Addr::unchecked(who.text.clone()),
        )
    }

    /// Calls `cw_storage_plus::Map::keys` on the writer set, in ascending order, and
    /// hands out each key as it came: an address, or the failure to decode the entry.
    ///
    /// What comes back depends on the storage alone and has the name
    /// [`stored_writer_keys`]. This much is claimed of it: the keys come in ascending
    /// order of their bytes, so the addresses among them do; each address is one of the
    /// stored writers; and where no entry failed to decode, every stored writer is among
    /// them.
    #[verifier::external_body]
    pub(crate) fn writer_keys(&self) -> (keys: Vec<Result<Identity, StdError>>)
        ensures
            key_outcomes(keys@) == stored_writer_keys(*self),
            walks(key_outcomes(keys@), stored_writers(*self)),
    {
        cw_storage_plus::Map::<&Addr, ()>::new(WRITERS)
            .keys(&*self.inner, None, None, Order::Ascending)
            .map(|key| key.map(|addr| Identity { text: addr.into_string() }))
            .collect()
    }

    /// Calls `cw_storage_plus::Map::has` on the messages: whether an entry is stored
    /// under `who`, whatever it decodes to.
    #[verifier::external_body]
    pub(crate) fn has_message(&self, who: &Identity) -> (r: bool)
        ensures
            r == stored_messages(*self).contains_key(who@),
    {
        cw_storage_plus::Map::<&Addr, (Addr, String)>::new(MESSAGES).has(
            &*self.inner,
            &Addr::unchecked(who.text.clone()),
        )
    }

    /// Calls `cw_storage_plus::Map::save` on the messages, with the author and the
    /// content of `message` as the value. Afterwards the entry under `who` decodes to
    /// `message`. All other entries, the owner and the writers stay.
    ///
    /// The call succeeds: `save` fails only where the value does not serialise, and the
    /// serialiser of `serde_json_wasm` has no failing path for a pair of strings.
    #[verifier::external_body]
    pub(crate) fn save_message(&mut self, who: &Identity, message: &Message) -> (r: Result<
        (),
        StdError,
    >)
        ensures
            r is Ok,
            stored_messages(*final(self)) == stored_messages(*old(self)).insert(
                who@,
                record_outcome(Ok(*message)),
            ),
            stored_owner(*final(self)) == stored_owner(*old(self)),
            stored_writers(*final(self)) == stored_writers(*old(self)),
            stored_writer_keys(*final(self)) == stored_writer_keys(*old(self)),
    {
        cw_storage_plus::Map::<&Addr, (Addr, String)>::new(MESSAGES).save(
            &mut *self.inner,
            &Addr::unchecked(who.text.clone()),
            &(Addr::unchecked(message.author.text.clone()), message.content.clone()),
        )
    }

    /// Calls `cw_storage_plus::Map::may_load` on the messages. It returns `None` where
    /// no entry is stored under `who`, the record where the entry decodes, and fails
    /// where it does not.
    #[verifier::external_body]
    pub(crate) fn may_load_message(&self, who: &Identity) -> (r: Result<
        Option<Message>,
        StdError,
    >)
        ensures
            match r {
                Ok(None) => !stored_messages(*self).contains_key(who@),
                Ok(Some(message)) => {
                    &&& stored_messages(*self).contains_key(who@)
                    &&& stored_messages(*self)[who@] == record_outcome(Ok(message))
                },
                Err(e) => {
                    &&& stored_messages(*self).contains_key(who@)
                    &&& stored_messages(*self)[who@] == record_outcome(Err(e))
                },
            },
    {
        cw_storage_plus::Map::<&Addr, (Addr, String)>::new(MESSAGES)
            .may_load(&*self.inner, &Addr::unchecked(who.text.clone()))
            .map(|found| found.map(|(author, content)| Message {
                author: Identity { text: author.into_string() },
                content,
            }))
    }
}

} // verus!
