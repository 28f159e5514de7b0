//! Identities, and the validation that turns an address string into one.

use crate::error::ContractError;
use cosmwasm_std::StdError;
use vstd::prelude::*;
use vstd::std_specs::cmp::PartialEqSpecImpl;
use vstd::utf8::encode_utf8;

verus! {

/// The canonical representation of a caller or an address.
///
/// Two identities are the same exactly when their texts are the same. An identity is made
/// by [`AddressApi::validate`] from a string that the host accepts, or, for a caller that
/// the host has authenticated already, by [`Identity::unchecked`].
#[derive(Debug)]
pub struct Identity {
    pub(crate) text: String,
}

impl View for Identity {
    type V = Seq<char>;

    closed spec fn view(&self) -> Seq<char> {
        self.text@
    }
}

impl Identity {
    /// An identity with the given text, taken on trust.
    pub fn unchecked(text: &str) -> (id: Identity)
        ensures
            id@ == text@,
    {
        Identity { text: text.to_owned() }
    }

    /// The text of this identity.
    pub fn as_str(&self) -> (text: &str)
        ensures
            text@ == self@,
    {
        self.text.as_str()
    }

    /// The text of this identity, as a string of its own.
    pub fn into_string(self) -> (text: String)
        ensures
            text@ == self@,
    {
        self.text
    }

    /// The bytes by which identities are keyed and ordered: the UTF-8 encoding of the text.
    pub open spec fn key_bytes(text: Seq<char>) -> Seq<u8> {
        encode_utf8(text)
    }
}

impl Clone for Identity {
    fn clone(&self) -> (copy: Identity)
        ensures
            copy@ == self@,
    {
        Identity { text: self.text.clone() }
    }
}

impl PartialEq for Identity {
    fn eq(&self, other: &Identity) -> (same: bool) {
        self.text == other.text
    }
}

impl Eq for Identity {

}

impl PartialEqSpecImpl for Identity {
    open spec fn obeys_eq_spec() -> bool {
        true
    }

    open spec fn eq_spec(&self, other: &Identity) -> bool {
        self@ == other@
    }
}

/// The host's word on which strings are addresses.
///
/// It wraps a `cosmwasm_std::Api`, of which the registry uses the address validation
/// alone. Which strings are addresses is for the host to say; an `Api` has no state of
/// its own, so what it accepts never changes.
#[verifier::external_body]
pub struct AddressApi<'a> {
    inner: &'a dyn cosmwasm_std::Api,
}

/// The address strings that `cosmwasm_std::Api::addr_validate` of the wrapped `Api`
/// accepts. An `Api` answers the same for the same string, whenever it is asked.
pub uninterp spec fn accepted_addresses(api: AddressApi) -> Set<Seq<char>>;

impl<'a> AddressApi<'a> {
    /// A handle on `api`, which implements `cosmwasm_std::Api`. The body keeps the
    /// reference as a trait object and calls nothing; nothing is claimed of the handle.
    #[verifier::external_body]
    pub fn new<A: cosmwasm_std::Api>(api: &'a A) -> (handle: AddressApi<'a>) {
        AddressApi { inner: api }
    }

    /// The address strings that the host accepts.
    pub open spec fn valid(&self) -> Set<Seq<char>> {
        accepted_addresses(*self)
    }

    /// Whether the host accepts `raw` as an address.
    pub open spec fn accepts(&self, raw: Seq<char>) -> bool {
        self.valid().contains(raw)
    }

    /// Calls `cosmwasm_std::Api::addr_validate`. The call succeeds exactly on the strings
    /// that the host accepts, and then returns an address with the same text as its input,
    /// as the documentation of `addr_validate` states.
    #[verifier::external_body]
    fn addr_validate(&self, raw: &str) -> (r: Result<Identity, StdError>)
        ensures
            r is Ok <==> accepted_addresses(*self).contains(raw@),
            r matches Ok(id) ==> id@ == raw@,
    {
        self.inner.addr_validate(raw).map(|addr| Identity { text: addr.into_string() })
    }

    /// Validates an address string that came from outside.
    ///
    /// Returns the identity with that text if the host accepts the string, and
    /// [`ContractError::InvalidIdentity`] with the host's reason if it does not.
    pub fn validate(&self, raw: &str) -> (r: Result<Identity, ContractError>)
        ensures
            match r {
                Ok(id) => self.accepts(raw@) && id@ == raw@,
                Err(e) => !self.accepts(raw@) && e is InvalidIdentity,
            },
    {
        validated(self.addr_validate(raw))
    }
}

/// What the validation of an address string comes to, where `outcome` is the answer of the
/// host: the identity that the host returned, or [`ContractError::InvalidIdentity`] with
/// the reason that the host gave.
pub fn validated(outcome: Result<Identity, StdError>) -> (r: Result<Identity, ContractError>)
    ensures
        r == match outcome {
            Ok(id) => Ok::<Identity, ContractError>(id),
            Err(reason) => Err(ContractError::InvalidIdentity(reason)),
        },
{
    match outcome {
        Ok(id) => Ok(id),
        Err(reason) => Err(ContractError::InvalidIdentity(reason)),
    }
}

} // verus!
