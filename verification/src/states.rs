use vstd::prelude::*;

verus! {

/// The number of bytes in an account address or owner identity.
pub const ADDRESS_LEN: usize = 32;

/// An account address: an owner identity, a custody sub-address, or a
/// program namespace, always exactly 32 bytes.
#[derive(Debug)]
pub struct Address {
    pub bytes: Vec<u8>,
}

impl View for Address {
    type V = Seq<u8>;

    open spec fn view(&self) -> Seq<u8> {
        self.bytes@
    }
}

impl Address {
    /// A well-formed address holds exactly 32 bytes.
    pub open spec fn wf(&self) -> bool {
        self@.len() == ADDRESS_LEN
    }

    /// Builds an address out of raw bytes; rejects any length but 32.
    pub fn from_bytes(bytes: Vec<u8>) -> (r: Option<Address>)
        ensures
            bytes@.len() == ADDRESS_LEN ==> (r matches Some(a) && a@ == bytes@ && a.wf()),
            bytes@.len() != ADDRESS_LEN ==> r is None,
    {
        if bytes.len() == ADDRESS_LEN {
            Some(Address { bytes })
        } else {
            None
        }
    }

    /// An independent copy of this address.
    pub fn dup(&self) -> (r: Address)
        ensures
            r@ == self@,
            r.wf() == self.wf(),
    {
        let mut bytes: Vec<u8> = Vec::new();
        let mut i: usize = 0;
        while i < self.bytes.len()
            invariant
                i <= self.bytes@.len(),
                bytes@ == self.bytes@.subrange(0, i as int),
            decreases self.bytes@.len() - i,
        {
            bytes.push(self.bytes[i]);
            assert(bytes@ =~= self.bytes@.subrange(0, i + 1 as int));
            i += 1;
        }
        assert(bytes@ =~= self.bytes@);
        Address { bytes }
    }

    /// Byte-for-byte equality of two addresses.
    pub fn same_as(&self, other: &Address) -> (r: bool)
        ensures
            r == (self@ == other@),
    {
        if self.bytes.len() != other.bytes.len() {
            return false;
        }
        let mut i: usize = 0;
        while i < self.bytes.len()
            invariant
                i <= self.bytes@.len(),
                self.bytes@.len() == other.bytes@.len(),
                forall|k: int| 0 <= k < i ==> self.bytes@[k] == other.bytes@[k],
            decreases self.bytes@.len() - i,
        {
            if self.bytes[i] != other.bytes[i] {
                return false;
            }
            i += 1;
        }
        assert(self@ =~= other@);
        true
    }
}

/// The per-owner savings entity: target, tracked balance, status flags, and
/// the nonce that proves the custody sub-address canonical for this entity.
#[derive(Debug)]
pub struct LockBox {
    /// Immutable creator and sole authority of the vault.
    pub owner: Address,
    /// The savings goal; greater than zero, fixed at creation.
    pub target_amount: u64,
    /// Net successful deposits minus net successful withdrawals.
    pub current_balance: u64,
    /// Timestamp recorded once, at creation.
    pub created_at: i64,
    /// One-way latch: set when the balance first reaches the target, and
    /// never cleared afterwards, even if the balance falls back below it.
    pub has_reached_target: bool,
    /// True at creation; cleared permanently by an emergency withdrawal.
    pub is_active: bool,
    /// Disambiguation byte fixed at creation, proving the custody
    /// sub-address is the canonical derived address for this entity.
    pub derivation_nonce: u8,
}

impl LockBox {
    /// Entity invariant: the owner identity is a real address and the
    /// target is positive.
    pub open spec fn wf(&self) -> bool {
        &&& self.owner.wf()
        &&& self.target_amount > 0
    }

    /// Field-by-field equality of two entity states, comparing the owner
    /// by its bytes.
    pub open spec fn state_eq(self, other: LockBox) -> bool {
        &&& self.owner@ == other.owner@
        &&& self.target_amount == other.target_amount
        &&& self.current_balance == other.current_balance
        &&& self.created_at == other.created_at
        &&& self.has_reached_target == other.has_reached_target
        &&& self.is_active == other.is_active
        &&& self.derivation_nonce == other.derivation_nonce
    }

    /// An independent copy of this entity state.
    pub fn dup(&self) -> (r: LockBox)
        ensures
            r.state_eq(*self),
            r.wf() == self.wf(),
    {
        LockBox {
            owner: self.owner.dup(),
            target_amount: self.target_amount,
            current_balance: self.current_balance,
            created_at: self.created_at,
            has_reached_target: self.has_reached_target,
            is_active: self.is_active,
            derivation_nonce: self.derivation_nonce,
        }
    }
}

} // verus!
