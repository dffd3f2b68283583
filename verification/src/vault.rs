use vstd::prelude::*;

verus! {

/// A 32-byte principal identity (a ledger address), held as four 64-bit
/// words so that equality is plain field equality.
#[derive(Clone, Copy, Debug, PartialEq, Eq, Structural)]
pub struct Identity {
    pub w0: u64,
    pub w1: u64,
    pub w2: u64,
    pub w3: u64,
}

/// The persistent vault record: the tokens earmarked for reward
/// distribution, the reference supply the development allocation is computed
/// from, and the sole identity permitted to trigger distributions. All three
/// fields are set once, at creation, and never mutated afterwards.
#[derive(Clone, Copy, Debug, PartialEq, Eq, Structural)]
pub struct Vault {
    pub prize_pool_amount: u64,
    pub total_supply: u64,
    pub authority: Identity,
}

/// Why the custody collaborator refused to move tokens between holdings.
#[derive(Clone, Copy, Debug, PartialEq, Eq, Structural)]
pub enum TransferError {
    /// The source holding does not cover the requested amount.
    InsufficientBalance,
    /// The destination holding cannot absorb the amount within 64 bits.
    RecipientOverflow,
}

/// The failures of the distribution engine. Every error is a synchronous
/// return value and leaves all balances untouched.
#[derive(Clone, Copy, Debug, PartialEq, Eq, Structural)]
pub enum VaultError {
    /// The caller's identity does not match the record's authority.
    Unauthorized,
    /// An intermediate multiplication of a share formula exceeds 64 bits.
    ArithmeticOverflow,
    /// The custody collaborator refused the transfer; carried unchanged.
    Transfer(TransferError),
    /// Initialization was attempted on storage that already holds a record.
    AlreadyInitialized,
}

impl Vault {
    /// A fresh record with the three fields set from the caller's values.
    pub fn new(prize_pool_amount: u64, total_supply: u64, authority: Identity) -> (v: Vault)
        ensures
            v.prize_pool_amount == prize_pool_amount,
            v.total_supply == total_supply,
            v.authority == authority,
    {
        Vault { prize_pool_amount, total_supply, authority }
    }
}

/// How one initialization call relates a storage slot's contents before and
/// after, together with its result: an occupied slot rejects the call and is
/// untouched; an empty slot is filled.
pub open spec fn init_transition(
    before: Option<Vault>,
    after: Option<Vault>,
    r: Result<(), VaultError>,
) -> bool {
    &&& before is Some ==> (r matches Err(e) && e == VaultError::AlreadyInitialized && after
        == before)
    &&& before is None ==> r is Ok && after is Some
}

/// Creates the vault record in its storage slot, binding `authority` as the
/// sole principal allowed to trigger distributions. Rejected with
/// `AlreadyInitialized` when the slot is already occupied; the occupant is
/// then untouched.
pub fn initialize(
    slot: &mut Option<Vault>,
    prize_pool_amount: u64,
    total_supply: u64,
    authority: Identity,
) -> (r: Result<(), VaultError>)
    ensures
        init_transition(*old(slot), *final(slot), r),
        (*old(slot)) is None ==> (*final(slot) matches Some(v) && v.prize_pool_amount
            == prize_pool_amount && v.total_supply == total_supply && v.authority == authority),
{
    if slot.is_some() {
        return Err(VaultError::AlreadyInitialized);
    }
    *slot = Some(Vault::new(prize_pool_amount, total_supply, authority));
    Ok(())
}

/// Initialization is one-shot: when one call succeeds against a slot, any
/// second call against the same slot is rejected with `AlreadyInitialized`
/// and leaves the stored record exactly as the first call wrote it.
pub proof fn lemma_initialize_once(
    s0: Option<Vault>,
    s1: Option<Vault>,
    s2: Option<Vault>,
    r1: Result<(), VaultError>,
    r2: Result<(), VaultError>,
)
    requires
        s0 is None,
        init_transition(s0, s1, r1),
        init_transition(s1, s2, r2),
    ensures
        r1 is Ok,
        r2 matches Err(e) && e == VaultError::AlreadyInitialized,
        s2 == s1,
{
}

} // verus!
