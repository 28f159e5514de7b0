//! The writer registry: the set of identities that may register a message.
//!
//! These operations do not ask who calls them; the request handlers do.

use crate::error::{from_storage, ContractError};
use crate::identity::Identity;
use crate::order::{lists, precedes, texts_of};
use crate::state::{all_read, key_outcomes, walks, Store};
use cosmwasm_std::StdError;
use vstd::prelude::*;

verus! {

/// The first failure in `walk`, if there is one.
pub open spec fn first_failure(walk: Seq<Result<Seq<char>, StdError>>) -> Option<StdError>
    decreases walk.len(),
{
    if walk.len() == 0 {
        None
    } else {
        match walk[0] {
            Err(e) => Some(e),
            Ok(_) => first_failure(walk.drop_first()),
        }
    }
}

/// The addresses in `walk`, in its order, for a walk in which every key was read.
pub open spec fn addresses_in(walk: Seq<Result<Seq<char>, StdError>>) -> Seq<Seq<char>> {
    walk.map_values(|key: Result<Seq<char>, StdError>| key->Ok_0)
}

/// What a walk over the keys of the writer set comes to: the addresses in their order if
/// every key was read, and the first failure otherwise.
pub open spec fn listing_of(walk: Seq<Result<Seq<char>, StdError>>) -> Result<
    Seq<Seq<char>>,
    StdError,
> {
    match first_failure(walk) {
        Some(e) => Err(e),
        None => Ok(addresses_in(walk)),
    }
}

/// The keys before the first failure do not matter to it: where the first `k` keys were
/// read, the first failure of the walk is that of the walk from `k` on.
pub proof fn first_failure_skips_what_was_read(walk: Seq<Result<Seq<char>, StdError>>, k: int)
    requires
        0 <= k <= walk.len(),
        forall|i: int| 0 <= i < k ==> (#[trigger] walk[i]) is Ok,
    ensures
        first_failure(walk) == first_failure(walk.skip(k)),
    decreases k,
{
    if k == 0 {
        assert(walk.skip(0) =~= walk);
    } else {
        assert(walk[0] is Ok);
        let rest = walk.drop_first();
        assert forall|i: int| 0 <= i < k - 1 implies (#[trigger] rest[i]) is Ok by {
            assert(walk[i + 1] is Ok);
        }
        first_failure_skips_what_was_read(rest, k - 1);
        assert(rest.skip(k - 1) =~= walk.skip(k));
    }
}

/// A walk has no first failure exactly when every key of it was read.
pub proof fn no_failure_means_all_read(walk: Seq<Result<Seq<char>, StdError>>)
    ensures
        first_failure(walk) is None <==> all_read(walk),
    decreases walk.len(),
{
    if walk.len() > 0 {
        let rest = walk.drop_first();
        no_failure_means_all_read(rest);
        if walk[0] is Ok {
            if all_read(rest) {
                assert forall|i: int| 0 <= i < walk.len() implies (#[trigger] walk[i]) is Ok by {
                    if i > 0 {
                        assert(rest[i - 1] is Ok);
                    }
                }
            }
            if all_read(walk) {
                assert forall|i: int| 0 <= i < rest.len() implies (#[trigger] rest[i]) is Ok by {
                    assert(walk[i + 1] is Ok);
                }
            }
        }
    }
}

/// Where every key of a walk over `members` was read, the addresses in the walk are the
/// listing of `members`.
pub proof fn read_walk_lists_the_members(
    walk: Seq<Result<Seq<char>, StdError>>,
    members: Set<Seq<char>>,
)
    requires
        walks(walk, members),
        all_read(walk),
    ensures
        lists(addresses_in(walk), members),
{
    let texts = addresses_in(walk);
    assert forall|i: int, j: int| 0 <= i < j < texts.len() implies precedes(
        #[trigger] texts[i],
        #[trigger] texts[j],
    ) by {
        assert(walk[i] is Ok && walk[j] is Ok);
    }
    assert forall|id: Seq<char>| members.contains(id) implies texts.contains(id) by {
        assert(walk.contains(Ok(id)));
        let i = choose|i: int| 0 <= i < walk.len() && walk[i] == Ok::<Seq<char>, StdError>(id);
        assert(texts[i] == id);
    }
    assert forall|id: Seq<char>| texts.contains(id) implies members.contains(id) by {
        let i = choose|i: int| 0 <= i < texts.len() && texts[i] == id;
        assert(walk[i] is Ok);
    }
}

/// Turns the keys of the writer set, as the storage handed them out, into the list of
/// writers: all of them in their order if every key was read, and the first failure
/// otherwise.
pub fn collect_writers(keys: Vec<Result<Identity, StdError>>) -> (r: Result<
    Vec<Identity>,
    ContractError,
>)
    ensures
        match r {
            Ok(list) => {
                &&& listing_of(key_outcomes(keys@)) == Ok::<_, StdError>(texts_of(list@))
                &&& list.len() == keys.len()
                &&& forall|i: int|
                    #![trigger keys[i]]
                    #![trigger list[i]]
                    0 <= i < keys.len() ==> keys[i] == Ok::<Identity, StdError>(list[i])
            },
            Err(e) => listing_of(key_outcomes(keys@)) matches Err(failure) && e
                == ContractError::Std(failure),
        },
{
    let ghost all = keys@;
    let ghost walk = key_outcomes(keys@);
    let mut list: Vec<Identity> = Vec::new();
    for key in it: keys
        invariant
            it.seq() == all,
            walk == key_outcomes(all),
            list.len() == it.index(),
            forall|i: int| 0 <= i < list.len() ==> all[i] == Ok::<Identity, StdError>(list[i]),
    {
        match key {
            Ok(id) => {
                list.push(id);
            },
            Err(e) => {
                proof {
                    let k = list.len() as int;
                    assert forall|i: int| 0 <= i < k implies (#[trigger] walk[i]) is Ok by {
                        assert(all[i] is Ok);
                    }
                    first_failure_skips_what_was_read(walk, k);
                    assert(walk.skip(k)[0] == Err::<Seq<char>, StdError>(e));
                }
                return Err(ContractError::Std(e));
            },
        }
    }
    proof {
        assert forall|i: int| 0 <= i < walk.len() implies (#[trigger] walk[i]) is Ok by {
            assert(all[i] is Ok);
        }
        no_failure_means_all_read(walk);
        assert(addresses_in(walk) =~= texts_of(list@));
    }
    Ok(list)
}

impl<'a> Store<'a> {
    /// Puts `writer` into the writer set. Adding a writer that is there already changes
    /// nothing. The owner and the messages are not touched, and a writer set of which
    /// every entry could be read stays one.
    pub fn add_writer(&mut self, writer: &Identity) -> (r: Result<(), ContractError>)
        ensures
            r is Ok,
            final(self)@ == old(self)@.with_writer(writer@),
            old(self).writers_readable() ==> final(self).writers_readable(),
            old(self).writers_readable() && old(self)@.is_writer(writer@) ==> final(self).walk()
                == old(self).walk(),
    {
        from_storage(self.save_writer(writer))
    }

    /// Takes `writer` out of the writer set. Removing one that is not there changes
    /// nothing and is no error. The owner and the messages are not touched, and a writer
    /// set of which every entry could be read stays one.
    pub fn remove_writer(&mut self, writer: &Identity)
        ensures
            final(self)@ == old(self)@.without_writer(writer@),
            old(self).writers_readable() ==> final(self).writers_readable(),
            !old(self)@.is_writer(writer@) ==> final(self).walk() == old(self).walk(),
    {
        self.delete_writer(writer)
    }

    /// Whether `id` is in the writer set.
    pub fn contains_writer(&self, id: &Identity) -> (r: bool)
        ensures
            r == self@.is_writer(id@),
    {
        self.has_writer(id)
    }

    /// All writers, in ascending order of their key bytes. It fails if and only if an
    /// entry of the writer set cannot be read, and then with the failure of the first
    /// such entry.
    pub fn list_writers(&self) -> (r: Result<Vec<Identity>, ContractError>)
        ensures
            r is Ok <==> self.writers_readable(),
            walks(self.walk(), self@.writers),
            match r {
                Ok(list) => {
                    &&& listing_of(self.walk()) == Ok::<_, StdError>(texts_of(list@))
                    &&& lists(texts_of(list@), self@.writers)
                },
                Err(e) => listing_of(self.walk()) matches Err(failure) && e
                    == ContractError::Std(failure),
            },
    {
        let keys = self.writer_keys();
        proof {
            no_failure_means_all_read(self.walk());
            if all_read(self.walk()) {
                read_walk_lists_the_members(self.walk(), self@.writers);
            }
        }
        collect_writers(keys)
    }
}

} // verus!
