//! The names of parties, and what it means that one has approved a call.

use vstd::prelude::*;

verus! {

/// The class of party that an [`Identity`] names.
#[derive(Clone, Copy, Debug, PartialEq, Eq, Hash, Structural)]
pub enum IdentityKind {
    /// A party that signs with a key of its own.
    Account,
    /// A deployed program, such as a token.
    Contract,
}

/// The name of a party: its class and a 256-bit identifier, held as two
/// 128-bit halves. Two identities name the same party exactly when all three
/// fields agree.
#[derive(Clone, Copy, Debug, PartialEq, Eq, Hash, Structural)]
pub struct Identity {
    pub kind: IdentityKind,
    pub hi: u128,
    pub lo: u128,
}

impl Identity {
    /// The account with the given identifier.
    pub fn account(hi: u128, lo: u128) -> (id: Identity)
        ensures
            id == (Identity { kind: IdentityKind::Account, hi, lo }),
    {
        Identity { kind: IdentityKind::Account, hi, lo }
    }

    /// The contract with the given identifier.
    pub fn contract(hi: u128, lo: u128) -> (id: Identity)
        ensures
            id == (Identity { kind: IdentityKind::Contract, hi, lo }),
    {
        Identity { kind: IdentityKind::Contract, hi, lo }
    }
}

/// Whether `approval` authorizes a call in the name of `who`. An approval is
/// the identity that the host has verified to stand behind the call, if any.
pub open spec fn authorizes(approval: Option<Identity>, who: Identity) -> bool {
    approval == Some(who)
}

/// Decides [`authorizes`].
pub fn is_authorized(approval: Option<Identity>, who: Identity) -> (ok: bool)
    ensures
        ok == authorizes(approval, who),
{
    match approval {
        Some(signer) => signer == who,
        None => false,
    }
}

} // verus!
