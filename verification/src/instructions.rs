use vstd::prelude::*;
use crate::errors::LockBoxError;
use crate::history::{lockbox_step, Event};
use crate::states::{Address, LockBox};
use crate::transfer::{Authorization, CustodyCapability, TransferAction};

verus! {

/// Creates a new LockBox for `caller` with the given savings goal.
///
/// No transfer is requested; `created_at` is the host's current time and
/// `nonce` the disambiguation byte from deriving the entity's custody
/// sub-address, both fixed for the entity's lifetime. Creation when an
/// entity for the owner already exists is refused by the entity store, not
/// here.
pub fn initialize_lockbox(caller: &Address, target_amount: u64, created_at: i64, nonce: u8)
    -> (r: Result<LockBox, LockBoxError>)
    requires
        caller.wf(),
    ensures
        target_amount == 0 ==> r == Err::<LockBox, LockBoxError>(LockBoxError::InvalidTargetAmount),
        r is Ok <==> target_amount > 0,
        (r matches Ok(lb) ==> {
            &&& lb.wf()
            &&& lb.owner@ == caller@
            &&& lb.target_amount == target_amount
            &&& lb.current_balance == 0
            &&& lb.created_at == created_at
            &&& !lb.has_reached_target
            &&& lb.is_active
            &&& lb.derivation_nonce == nonce
        }),
{
    if target_amount == 0 {
        return Err(LockBoxError::InvalidTargetAmount);
    }
    Ok(LockBox {
        owner: caller.dup(),
        target_amount,
        current_balance: 0,
        created_at,
        has_reached_target: false,
        is_active: true,
        derivation_nonce: nonce,
    })
}

/// Moves `amount` from the owner into the vault's custody sub-address.
///
/// On success the one returned transfer is funded and signed by the owner;
/// the balance rises by exactly `amount`, and the target latch is set if the
/// new balance reaches the target. Every precondition, the overflow guard
/// included, is checked before the transfer is requested.
pub fn deposit(lockbox: &LockBox, caller: &Address, amount: u64, custody: &CustodyCapability)
    -> (r: Result<(LockBox, TransferAction), LockBoxError>)
    requires
        lockbox.wf(),
        custody.wf(),
    ensures
        caller@ != lockbox.owner@
            ==> r == Err::<(LockBox, TransferAction), LockBoxError>(LockBoxError::Unauthorized),
        caller@ == lockbox.owner@ && amount == 0
            ==> r == Err::<(LockBox, TransferAction), LockBoxError>(LockBoxError::InvalidDepositAmount),
        caller@ == lockbox.owner@ && amount > 0 && !lockbox.is_active
            ==> r == Err::<(LockBox, TransferAction), LockBoxError>(LockBoxError::VaultInactive),
        caller@ == lockbox.owner@ && amount > 0 && lockbox.is_active
            && lockbox.current_balance + amount > u64::MAX
            ==> r == Err::<(LockBox, TransferAction), LockBoxError>(LockBoxError::BalanceOverflow),
        r is Ok <==> (caller@ == lockbox.owner@ && amount > 0 && lockbox.is_active
            && lockbox.current_balance + amount <= u64::MAX),
        (r matches Ok((lb, act)) ==> {
            &&& lb.wf()
            &&& lb.owner@ == lockbox.owner@
            &&& lb.target_amount == lockbox.target_amount
            &&& lb.created_at == lockbox.created_at
            &&& lb.derivation_nonce == lockbox.derivation_nonce
            &&& lb.is_active
            &&& lb.current_balance == lockbox.current_balance + amount
            &&& lb.has_reached_target == (lockbox.has_reached_target
                || lb.current_balance >= lockbox.target_amount)
            &&& act.wf()
            &&& act.amount == amount
            &&& act.from@ == lockbox.owner@
            &&& act.to@ == custody.address@
            &&& act.authorization == Authorization::OwnerSignature
            &&& lockbox_step(*lockbox, Event::Deposit { amount }, lb)
        }),
{
    if !caller.same_as(&lockbox.owner) {
        return Err(LockBoxError::Unauthorized);
    }
    if amount == 0 {
        return Err(LockBoxError::InvalidDepositAmount);
    }
    if !lockbox.is_active {
        return Err(LockBoxError::VaultInactive);
    }
    let new_balance = match lockbox.current_balance.checked_add(amount) {
        Some(b) => b,
        None => {
            return Err(LockBoxError::BalanceOverflow);
        },
    };
    let updated = LockBox {
        owner: lockbox.owner.dup(),
        target_amount: lockbox.target_amount,
        current_balance: new_balance,
        created_at: lockbox.created_at,
        has_reached_target: lockbox.has_reached_target || new_balance >= lockbox.target_amount,
        is_active: true,
        derivation_nonce: lockbox.derivation_nonce,
    };
    let action = TransferAction {
        from: caller.dup(),
        to: custody.address.dup(),
        amount,
        authorization: Authorization::OwnerSignature,
    };
    Ok((updated, action))
}

/// Pays `amount` out of the custody sub-address back to the owner.
///
/// Allowed only once the target latch is set, and only up to the tracked
/// balance; the latch stays set even if the balance falls back below the
/// target. The one returned transfer is authorized by the derivation proof
/// built from the entity identity and its stored nonce.
pub fn withdraw(lockbox: &LockBox, caller: &Address, amount: u64, custody: &CustodyCapability)
    -> (r: Result<(LockBox, TransferAction), LockBoxError>)
    requires
        lockbox.wf(),
        custody.wf(),
    ensures
        caller@ != lockbox.owner@
            ==> r == Err::<(LockBox, TransferAction), LockBoxError>(LockBoxError::Unauthorized),
        caller@ == lockbox.owner@ && !lockbox.has_reached_target
            ==> r == Err::<(LockBox, TransferAction), LockBoxError>(LockBoxError::TargetNotReached),
        caller@ == lockbox.owner@ && lockbox.has_reached_target
            && amount > lockbox.current_balance
            ==> r == Err::<(LockBox, TransferAction), LockBoxError>(LockBoxError::InsufficientBalance),
        r is Ok <==> (caller@ == lockbox.owner@ && lockbox.has_reached_target
            && amount <= lockbox.current_balance),
        (r matches Ok((lb, act)) ==> {
            &&& lb.wf()
            &&& lb.owner@ == lockbox.owner@
            &&& lb.target_amount == lockbox.target_amount
            &&& lb.created_at == lockbox.created_at
            &&& lb.derivation_nonce == lockbox.derivation_nonce
            &&& lb.is_active == lockbox.is_active
            &&& lb.current_balance == lockbox.current_balance - amount
            &&& lb.has_reached_target == lockbox.has_reached_target
            &&& act.wf()
            &&& act.amount == amount
            &&& act.from@ == custody.address@
            &&& act.to@ == lockbox.owner@
            &&& (act.authorization matches Authorization::DerivationProof { entity, nonce }
                && entity@ == lockbox.owner@ && nonce == lockbox.derivation_nonce)
            &&& lockbox_step(*lockbox, Event::Withdraw { amount }, lb)
        }),
{
    if !caller.same_as(&lockbox.owner) {
        return Err(LockBoxError::Unauthorized);
    }
    if !lockbox.has_reached_target {
        return Err(LockBoxError::TargetNotReached);
    }
    let new_balance = match lockbox.current_balance.checked_sub(amount) {
        Some(b) => b,
        None => {
            return Err(LockBoxError::InsufficientBalance);
        },
    };
    let updated = LockBox {
        owner: lockbox.owner.dup(),
        target_amount: lockbox.target_amount,
        current_balance: new_balance,
        created_at: lockbox.created_at,
        has_reached_target: lockbox.has_reached_target,
        is_active: lockbox.is_active,
        derivation_nonce: lockbox.derivation_nonce,
    };
    let action = TransferAction {
        from: custody.address.dup(),
        to: lockbox.owner.dup(),
        amount,
        authorization: Authorization::DerivationProof {
            entity: lockbox.owner.dup(),
            nonce: lockbox.derivation_nonce,
        },
    };
    Ok((updated, action))
}

/// Pays the whole tracked balance back to the owner and permanently
/// deactivates the vault (the deactivate-in-place emergency policy).
///
/// The record persists, inert: with `is_active` cleared for good, no later
/// Deposit or second EmergencyWithdraw can succeed against it. The one
/// returned transfer moves exactly the tracked balance, authorized by the
/// derivation proof.
pub fn emergency_withdraw(lockbox: &LockBox, caller: &Address, custody: &CustodyCapability)
    -> (r: Result<(LockBox, TransferAction), LockBoxError>)
    requires
        lockbox.wf(),
        custody.wf(),
    ensures
        caller@ != lockbox.owner@
            ==> r == Err::<(LockBox, TransferAction), LockBoxError>(LockBoxError::Unauthorized),
        caller@ == lockbox.owner@ && !lockbox.is_active
            ==> r == Err::<(LockBox, TransferAction), LockBoxError>(LockBoxError::VaultInactive),
        caller@ == lockbox.owner@ && lockbox.is_active && lockbox.current_balance == 0
            ==> r == Err::<(LockBox, TransferAction), LockBoxError>(LockBoxError::InsufficientBalance),
        r is Ok <==> (caller@ == lockbox.owner@ && lockbox.is_active
            && lockbox.current_balance > 0),
        (r matches Ok((lb, act)) ==> {
            &&& lb.wf()
            &&& lb.owner@ == lockbox.owner@
            &&& lb.target_amount == lockbox.target_amount
            &&& lb.created_at == lockbox.created_at
            &&& lb.derivation_nonce == lockbox.derivation_nonce
            &&& !lb.is_active
            &&& lb.current_balance == 0
            &&& lb.has_reached_target == lockbox.has_reached_target
            &&& act.wf()
            &&& act.amount == lockbox.current_balance
            &&& act.from@ == custody.address@
            &&& act.to@ == lockbox.owner@
            &&& (act.authorization matches Authorization::DerivationProof { entity, nonce }
                && entity@ == lockbox.owner@ && nonce == lockbox.derivation_nonce)
            &&& lockbox_step(*lockbox, Event::Emergency { amount: lockbox.current_balance }, lb)
        }),
{
    if !caller.same_as(&lockbox.owner) {
        return Err(LockBoxError::Unauthorized);
    }
    if !lockbox.is_active {
        return Err(LockBoxError::VaultInactive);
    }
    if lockbox.current_balance == 0 {
        return Err(LockBoxError::InsufficientBalance);
    }
    let updated = LockBox {
        owner: lockbox.owner.dup(),
        target_amount: lockbox.target_amount,
        current_balance: 0,
        created_at: lockbox.created_at,
        has_reached_target: lockbox.has_reached_target,
        is_active: false,
        derivation_nonce: lockbox.derivation_nonce,
    };
    let action = TransferAction {
        from: custody.address.dup(),
        to: lockbox.owner.dup(),
        amount: lockbox.current_balance,
        authorization: Authorization::DerivationProof {
            entity: lockbox.owner.dup(),
            nonce: lockbox.derivation_nonce,
        },
    };
    Ok((updated, action))
}

/// The close-and-reclaim emergency policy, the documented alternative to
/// [`emergency_withdraw`]: pays out the custody sub-address's entire settled
/// external balance — which may exceed the tracked balance if value was
/// injected outside the handlers — after which the host destroys the record.
///
/// `external_balance` is the custody sub-address's settled balance as the
/// host read it. No new entity state is returned: on success the entity
/// ceases to exist, so the caller deletes it from the store.
pub fn emergency_withdraw_close(
    lockbox: &LockBox,
    caller: &Address,
    custody: &CustodyCapability,
    external_balance: u64,
) -> (r: Result<TransferAction, LockBoxError>)
    requires
        lockbox.wf(),
        custody.wf(),
    ensures
        caller@ != lockbox.owner@
            ==> r == Err::<TransferAction, LockBoxError>(LockBoxError::Unauthorized),
        caller@ == lockbox.owner@ && external_balance == 0
            ==> r == Err::<TransferAction, LockBoxError>(LockBoxError::InsufficientBalance),
        r is Ok <==> (caller@ == lockbox.owner@ && external_balance > 0),
        (r matches Ok(act) ==> {
            &&& act.wf()
            &&& act.amount == external_balance
            &&& act.from@ == custody.address@
            &&& act.to@ == lockbox.owner@
            &&& (act.authorization matches Authorization::DerivationProof { entity, nonce }
                && entity@ == lockbox.owner@ && nonce == lockbox.derivation_nonce)
        }),
{
    if !caller.same_as(&lockbox.owner) {
        return Err(LockBoxError::Unauthorized);
    }
    if external_balance == 0 {
        return Err(LockBoxError::InsufficientBalance);
    }
    Ok(TransferAction {
        from: custody.address.dup(),
        to: lockbox.owner.dup(),
        amount: external_balance,
        authorization: Authorization::DerivationProof {
            entity: lockbox.owner.dup(),
            nonce: lockbox.derivation_nonce,
        },
    })
}

} // verus!
