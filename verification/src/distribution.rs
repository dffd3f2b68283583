use vstd::prelude::*;
use crate::payout::calculate_reward;
use crate::payout::dev_allocation_overflows;
use crate::payout::dev_allocation_spec;
use crate::payout::dev_amount;
use crate::payout::tier_overflows;
use crate::payout::tier_spec;
use crate::vault::Identity;
use crate::vault::TransferError;
use crate::vault::Vault;
use crate::vault::VaultError;

verus! {

/// A token balance held by one participant (the pool, a winner, the
/// development account). The custody collaborator owns the real accounts;
/// this is the balance the engine's contracts and proofs speak of.
#[derive(Clone, Copy, Debug, PartialEq, Eq, Structural)]
pub struct Holding {
    pub balance: u64,
}

/// A one-shot instruction for the custody collaborator: move `amount` tokens
/// from the `from` holding to the `to` holding, signed by `authorizer`.
/// Constructed per call and never persisted.
#[derive(Clone, Copy, Debug, PartialEq, Eq, Structural)]
pub struct TransferIntent {
    pub from: Identity,
    pub to: Identity,
    pub amount: u64,
    pub authorizer: Identity,
}

/// The amount one successful reward call pays for `position`: a function of
/// the record and the position alone — no payout history enters into it.
pub open spec fn reward_of(vault: Vault, position: u8) -> int {
    tier_spec(position, vault.prize_pool_amount)
}

/// What one successful reward payout for `position` does to the prize
/// vault's balance: the full tier amount leaves it.
pub open spec fn paid_from(vault: Vault, position: u8, before: Holding, after: Holding) -> bool {
    after.balance == before.balance - reward_of(vault, position)
}

/// When a reward distribution is owed to succeed: the caller is the
/// authority, the tier formula stays within 64 bits, the prize vault covers
/// the share, and the winner's balance can absorb it.
pub open spec fn reward_succeeds(
    vault: Vault,
    position: u8,
    authorizer: Identity,
    prize_vault: Holding,
    winner: Holding,
) -> bool {
    &&& authorizer == vault.authority
    &&& !tier_overflows(position, vault.prize_pool_amount)
    &&& prize_vault.balance >= reward_of(vault, position)
    &&& winner.balance + reward_of(vault, position) <= u64::MAX
}

/// The exact error a failing reward distribution returns, checked in this
/// order: the authority gate, then the tier formula's overflow, then the
/// custody collaborator's own refusals.
pub open spec fn reward_error(
    vault: Vault,
    position: u8,
    authorizer: Identity,
    prize_vault: Holding,
) -> VaultError {
    if authorizer != vault.authority {
        VaultError::Unauthorized
    } else if tier_overflows(position, vault.prize_pool_amount) {
        VaultError::ArithmeticOverflow
    } else if prize_vault.balance < reward_of(vault, position) {
        VaultError::Transfer(TransferError::InsufficientBalance)
    } else {
        VaultError::Transfer(TransferError::RecipientOverflow)
    }
}

/// When a development allocation is owed to succeed, and the exact error
/// otherwise: the same gates as a reward, with the fixed two-percent share.
pub open spec fn dev_allocation_succeeds(
    vault: Vault,
    authorizer: Identity,
    prize_vault: Holding,
    dev: Holding,
) -> bool {
    &&& authorizer == vault.authority
    &&& !dev_allocation_overflows(vault.total_supply)
    &&& prize_vault.balance >= dev_allocation_spec(vault.total_supply)
    &&& dev.balance + dev_allocation_spec(vault.total_supply) <= u64::MAX
}

/// The exact error a failing development allocation returns, in the same
/// order of checks as a failing reward distribution.
pub open spec fn dev_allocation_error(
    vault: Vault,
    authorizer: Identity,
    prize_vault: Holding,
) -> VaultError {
    if authorizer != vault.authority {
        VaultError::Unauthorized
    } else if dev_allocation_overflows(vault.total_supply) {
        VaultError::ArithmeticOverflow
    } else if prize_vault.balance < dev_allocation_spec(vault.total_supply) {
        VaultError::Transfer(TransferError::InsufficientBalance)
    } else {
        VaultError::Transfer(TransferError::RecipientOverflow)
    }
}

/// The custody collaborator's balance bookkeeping, on the engine's model of
/// holdings: `amount` moves from one balance to the other, in full or not at
/// all. Signature checking stays with the collaborator and is not modelled
/// here; who signs is recorded in the `TransferIntent` handed to it.
pub fn transfer(from: &mut Holding, to: &mut Holding, amount: u64) -> (r: Result<
    (),
    TransferError,
>)
    ensures
        r is Ok <==> old(from).balance >= amount && old(to).balance + amount <= u64::MAX,
        r is Ok ==> final(from).balance == old(from).balance - amount,
        r is Ok ==> final(to).balance == old(to).balance + amount,
        r is Err ==> *final(from) == *old(from) && *final(to) == *old(to),
        r matches Err(e) ==> e == (if old(from).balance < amount {
            TransferError::InsufficientBalance
        } else {
            TransferError::RecipientOverflow
        }),
{
    if from.balance < amount {
        return Err(TransferError::InsufficientBalance);
    }
    if amount > u64::MAX - to.balance {
        return Err(TransferError::RecipientOverflow);
    }
    from.balance = from.balance - amount;
    to.balance = to.balance + amount;
    Ok(())
}

/// Decides a reward distribution without touching any holding: checks that
/// the caller is the record's authority, computes the tier share, and
/// returns the one transfer intent the custody collaborator is to execute,
/// signed by the record's authority.
pub fn reward_intent(
    vault: &Vault,
    position: u8,
    authorizer: Identity,
    prize_vault: Identity,
    winner_token_account: Identity,
) -> (r: Result<TransferIntent, VaultError>)
    ensures
        r is Ok <==> authorizer == vault.authority && !tier_overflows(
            position,
            vault.prize_pool_amount,
        ),
        r matches Ok(intent) ==> intent.from == prize_vault && intent.to == winner_token_account
            && intent.amount == reward_of(*vault, position) && intent.authorizer
            == vault.authority,
        r matches Err(e) ==> e == (if authorizer != vault.authority {
            VaultError::Unauthorized
        } else {
            VaultError::ArithmeticOverflow
        }),
{
    if authorizer != vault.authority {
        return Err(VaultError::Unauthorized);
    }
    let amount = match calculate_reward(position, vault.prize_pool_amount) {
        Ok(a) => a,
        Err(e) => {
            return Err(e);
        },
    };
    Ok(
        TransferIntent {
            from: prize_vault,
            to: winner_token_account,
            amount,
            authorizer: vault.authority,
        },
    )
}

/// Decides a development allocation without touching any holding: checks the
/// caller against the record's authority, computes two percent of the total
/// supply, and returns the one transfer intent to execute.
pub fn dev_allocation_intent(
    vault: &Vault,
    authorizer: Identity,
    prize_vault: Identity,
    dev_token_account: Identity,
) -> (r: Result<TransferIntent, VaultError>)
    ensures
        r is Ok <==> authorizer == vault.authority && !dev_allocation_overflows(
            vault.total_supply,
        ),
        r matches Ok(intent) ==> intent.from == prize_vault && intent.to == dev_token_account
            && intent.amount == dev_allocation_spec(vault.total_supply) && intent.authorizer
            == vault.authority,
        r matches Err(e) ==> e == (if authorizer != vault.authority {
            VaultError::Unauthorized
        } else {
            VaultError::ArithmeticOverflow
        }),
{
    if authorizer != vault.authority {
        return Err(VaultError::Unauthorized);
    }
    let amount = match dev_amount(vault.total_supply) {
        Ok(a) => a,
        Err(e) => {
            return Err(e);
        },
    };
    Ok(
        TransferIntent {
            from: prize_vault,
            to: dev_token_account,
            amount,
            authorizer: vault.authority,
        },
    )
}

/// Pays the tier share for `position` out of the prize vault into the
/// winner's holding, provided the caller is the record's authority. Exactly
/// one full transfer per successful call, and no payout is recorded: nothing
/// stops the same position from being paid again. Every failure leaves both
/// balances untouched.
pub fn send_reward(
    vault: &Vault,
    position: u8,
    authorizer: Identity,
    prize_vault: &mut Holding,
    winner_token_account: &mut Holding,
) -> (r: Result<(), VaultError>)
    ensures
        r is Ok <==> reward_succeeds(
            *vault,
            position,
            authorizer,
            *old(prize_vault),
            *old(winner_token_account),
        ),
        r is Ok ==> paid_from(*vault, position, *old(prize_vault), *final(prize_vault)),
        r is Ok ==> final(winner_token_account).balance == old(winner_token_account).balance
            + reward_of(*vault, position),
        r is Err ==> *final(prize_vault) == *old(prize_vault) && *final(winner_token_account)
            == *old(winner_token_account),
        r matches Err(e) ==> e == reward_error(*vault, position, authorizer, *old(prize_vault)),
{
    if authorizer != vault.authority {
        return Err(VaultError::Unauthorized);
    }
    let reward_amount = match calculate_reward(position, vault.prize_pool_amount) {
        Ok(a) => a,
        Err(e) => {
            return Err(e);
        },
    };
    match transfer(prize_vault, winner_token_account, reward_amount) {
        Ok(()) => Ok(()),
        Err(e) => Err(VaultError::Transfer(e)),
    }
}

/// Pays the fixed development allocation — two percent of the total supply —
/// out of the prize vault into the development holding, provided the caller
/// is the record's authority. Not idempotent and not rate-limited: each
/// successful call pays the allocation again. Every failure leaves both
/// balances untouched.
pub fn send_dev_allocation(
    vault: &Vault,
    authorizer: Identity,
    prize_vault: &mut Holding,
    dev_token_account: &mut Holding,
) -> (r: Result<(), VaultError>)
    ensures
        r is Ok <==> dev_allocation_succeeds(
            *vault,
            authorizer,
            *old(prize_vault),
            *old(dev_token_account),
        ),
        r is Ok ==> final(prize_vault).balance == old(prize_vault).balance - dev_allocation_spec(
            vault.total_supply,
        ),
        r is Ok ==> final(dev_token_account).balance == old(dev_token_account).balance
            + dev_allocation_spec(vault.total_supply),
        r is Err ==> *final(prize_vault) == *old(prize_vault) && *final(dev_token_account) == *old(
            dev_token_account,
        ),
        r matches Err(e) ==> e == dev_allocation_error(*vault, authorizer, *old(prize_vault)),
{
    if authorizer != vault.authority {
        return Err(VaultError::Unauthorized);
    }
    let allocation = match dev_amount(vault.total_supply) {
        Ok(a) => a,
        Err(e) => {
            return Err(e);
        },
    };
    match transfer(prize_vault, dev_token_account, allocation) {
        Ok(()) => Ok(()),
        Err(e) => Err(VaultError::Transfer(e)),
    }
}

/// A reward payout records nothing on the vault record: two successful calls
/// with the same position against the same record each debit the full tier
/// amount again, so back-to-back payouts drain twice the share.
pub proof fn lemma_repeat_payout_pays_in_full(
    vault: Vault,
    position: u8,
    h0: Holding,
    h1: Holding,
    h2: Holding,
)
    requires
        paid_from(vault, position, h0, h1),
        paid_from(vault, position, h1, h2),
    ensures
        h1.balance == h0.balance - reward_of(vault, position),
        h2.balance == h1.balance - reward_of(vault, position),
        h0.balance - h2.balance == 2 * reward_of(vault, position),
{
}

} // verus!
