use vstd::prelude::*;
use crate::states::Address;

verus! {

/// The custody sub-address of one entity together with the bump nonce that
/// proves it canonical. Constructed by address derivation and handed to the
/// handlers; the custody account itself holds no signing key.
pub struct CustodyCapability {
    pub address: Address,
    pub nonce: u8,
}

impl CustodyCapability {
    pub open spec fn wf(&self) -> bool {
        self.address.wf()
    }
}

/// How a requested transfer is authorized.
pub enum Authorization {
    /// The source account's own signature; used when the owner funds the
    /// custody sub-address directly.
    OwnerSignature,
    /// Structural proof that the source is the canonical derived custody
    /// sub-address of the entity named here, built from the entity identity
    /// and its stored derivation nonce; substitutes for a signing key when
    /// the vault pays out.
    DerivationProof { entity: Address, nonce: u8 },
}

impl Authorization {
    pub open spec fn wf(&self) -> bool {
        match self {
            Authorization::OwnerSignature => true,
            Authorization::DerivationProof { entity, nonce: _ } => entity.wf(),
        }
    }
}

/// One external settlement request: move `amount` from `from` to `to` under
/// the given authorization.
///
/// A successful Deposit, Withdraw, or EmergencyWithdraw returns exactly one
/// of these; the host settles it and persists the new entity state only if
/// settlement succeeds, as one atomic unit. A failing handler returns no
/// action, so no side effect is requested on failure.
pub struct TransferAction {
    pub from: Address,
    pub to: Address,
    pub amount: u64,
    pub authorization: Authorization,
}

impl TransferAction {
    pub open spec fn wf(&self) -> bool {
        &&& self.from.wf()
        &&& self.to.wf()
        &&& self.authorization.wf()
    }
}

} // verus!
