use code_vault::distribution::{
    dev_allocation_intent, reward_intent, send_dev_allocation, send_reward, transfer, Holding,
};
use code_vault::vault::{initialize, Identity, TransferError, Vault, VaultError};

fn authority() -> Identity {
    Identity {
        w0: 11,
        w1: 22,
        w2: 33,
        w3: 44,
    }
}

fn stranger() -> Identity {
    Identity {
        w0: 55,
        w1: 22,
        w2: 33,
        w3: 44,
    }
}

fn pool_holding() -> Identity {
    Identity {
        w0: 1,
        w1: 0,
        w2: 0,
        w3: 0,
    }
}

fn winner_holding() -> Identity {
    Identity {
        w0: 2,
        w1: 0,
        w2: 0,
        w3: 0,
    }
}

#[test]
fn new_vault_holds_the_three_fields() {
    let v = Vault::new(1000, 5000, authority());
    assert_eq!(v.prize_pool_amount, 1000);
    assert_eq!(v.total_supply, 5000);
    assert_eq!(v.authority, authority());
}

#[test]
fn initialize_fills_an_empty_slot() {
    let mut slot: Option<Vault> = None;
    let r = initialize(&mut slot, 1000, 5000, authority());
    assert_eq!(r, Ok(()));
    assert_eq!(slot, Some(Vault::new(1000, 5000, authority())));
}

#[test]
fn initialize_twice_is_rejected() {
    let mut slot: Option<Vault> = None;
    assert_eq!(initialize(&mut slot, 1000, 5000, authority()), Ok(()));
    let again = initialize(&mut slot, 7777, 8888, stranger());
    assert_eq!(again, Err(VaultError::AlreadyInitialized));
    // The first record is untouched.
    assert_eq!(slot, Some(Vault::new(1000, 5000, authority())));
}

#[test]
fn transfer_moves_the_amount_in_full() {
    let mut from = Holding { balance: 500 };
    let mut to = Holding { balance: 40 };
    assert_eq!(transfer(&mut from, &mut to, 100), Ok(()));
    assert_eq!(from.balance, 400);
    assert_eq!(to.balance, 140);
}

#[test]
fn transfer_refuses_an_uncovered_amount() {
    let mut from = Holding { balance: 99 };
    let mut to = Holding { balance: 0 };
    assert_eq!(
        transfer(&mut from, &mut to, 100),
        Err(TransferError::InsufficientBalance)
    );
    assert_eq!(from.balance, 99);
    assert_eq!(to.balance, 0);
}

#[test]
fn transfer_refuses_a_recipient_overflow() {
    let mut from = Holding { balance: 500 };
    let mut to = Holding {
        balance: u64::MAX - 10,
    };
    assert_eq!(
        transfer(&mut from, &mut to, 100),
        Err(TransferError::RecipientOverflow)
    );
    assert_eq!(from.balance, 500);
    assert_eq!(to.balance, u64::MAX - 10);
}

#[test]
fn send_reward_pays_the_tier_share() {
    let v = Vault::new(1000, 5000, authority());
    let mut pool = Holding { balance: 1000 };
    let mut winner = Holding { balance: 0 };
    let r = send_reward(&v, 1, authority(), &mut pool, &mut winner);
    assert_eq!(r, Ok(()));
    assert_eq!(pool.balance, 900);
    assert_eq!(winner.balance, 100);
}

#[test]
fn send_reward_by_a_stranger_is_unauthorized_and_moves_nothing() {
    let v = Vault::new(1000, 5000, authority());
    let mut pool = Holding { balance: 1000 };
    let mut winner = Holding { balance: 0 };
    let r = send_reward(&v, 1, stranger(), &mut pool, &mut winner);
    assert_eq!(r, Err(VaultError::Unauthorized));
    assert_eq!(pool.balance, 1000);
    assert_eq!(winner.balance, 0);
}

#[test]
fn send_reward_overflow_moves_nothing() {
    let v = Vault::new(u64::MAX, 5000, authority());
    let mut pool = Holding { balance: 1000 };
    let mut winner = Holding { balance: 0 };
    let r = send_reward(&v, 2, authority(), &mut pool, &mut winner);
    assert_eq!(r, Err(VaultError::ArithmeticOverflow));
    assert_eq!(pool.balance, 1000);
    assert_eq!(winner.balance, 0);
}

#[test]
fn send_reward_propagates_the_custody_refusal() {
    let v = Vault::new(1000, 5000, authority());
    let mut pool = Holding { balance: 50 };
    let mut winner = Holding { balance: 0 };
    let r = send_reward(&v, 1, authority(), &mut pool, &mut winner);
    assert_eq!(
        r,
        Err(VaultError::Transfer(TransferError::InsufficientBalance))
    );
    assert_eq!(pool.balance, 50);
    assert_eq!(winner.balance, 0);
}

#[test]
fn repeated_send_reward_pays_the_full_amount_again() {
    let v = Vault::new(1000, 5000, authority());
    let mut pool = Holding { balance: 1000 };
    let mut winner = Holding { balance: 0 };
    assert_eq!(send_reward(&v, 5, authority(), &mut pool, &mut winner), Ok(()));
    assert_eq!(pool.balance, 980);
    assert_eq!(winner.balance, 20);
    // Nothing records the payout: the same position is paid in full again.
    assert_eq!(send_reward(&v, 5, authority(), &mut pool, &mut winner), Ok(()));
    assert_eq!(pool.balance, 960);
    assert_eq!(winner.balance, 40);
}

#[test]
fn send_dev_allocation_pays_two_percent_of_supply() {
    let v = Vault::new(1000, 5000, authority());
    let mut pool = Holding { balance: 1000 };
    let mut dev = Holding { balance: 7 };
    let r = send_dev_allocation(&v, authority(), &mut pool, &mut dev);
    assert_eq!(r, Ok(()));
    assert_eq!(pool.balance, 900);
    assert_eq!(dev.balance, 107);
}

#[test]
fn send_dev_allocation_by_a_stranger_is_unauthorized_and_moves_nothing() {
    let v = Vault::new(1000, 5000, authority());
    let mut pool = Holding { balance: 1000 };
    let mut dev = Holding { balance: 7 };
    let r = send_dev_allocation(&v, stranger(), &mut pool, &mut dev);
    assert_eq!(r, Err(VaultError::Unauthorized));
    assert_eq!(pool.balance, 1000);
    assert_eq!(dev.balance, 7);
}

#[test]
fn send_dev_allocation_overflow_moves_nothing() {
    let v = Vault::new(1000, u64::MAX, authority());
    let mut pool = Holding { balance: 1000 };
    let mut dev = Holding { balance: 0 };
    let r = send_dev_allocation(&v, authority(), &mut pool, &mut dev);
    assert_eq!(r, Err(VaultError::ArithmeticOverflow));
    assert_eq!(pool.balance, 1000);
    assert_eq!(dev.balance, 0);
}

#[test]
fn send_dev_allocation_is_not_rate_limited() {
    let v = Vault::new(1000, 5000, authority());
    let mut pool = Holding { balance: 1000 };
    let mut dev = Holding { balance: 0 };
    assert_eq!(send_dev_allocation(&v, authority(), &mut pool, &mut dev), Ok(()));
    assert_eq!(send_dev_allocation(&v, authority(), &mut pool, &mut dev), Ok(()));
    assert_eq!(pool.balance, 800);
    assert_eq!(dev.balance, 200);
}

#[test]
fn reward_intent_names_the_holdings_and_the_authority() {
    let v = Vault::new(1000, 5000, authority());
    let intent = reward_intent(&v, 2, authority(), pool_holding(), winner_holding())
        .expect("the authority may distribute");
    assert_eq!(intent.from, pool_holding());
    assert_eq!(intent.to, winner_holding());
    assert_eq!(intent.amount, 70);
    assert_eq!(intent.authorizer, authority());
}

#[test]
fn reward_intent_refuses_a_stranger() {
    let v = Vault::new(1000, 5000, authority());
    let r = reward_intent(&v, 2, stranger(), pool_holding(), winner_holding());
    assert_eq!(r, Err(VaultError::Unauthorized));
}

#[test]
fn dev_allocation_intent_carries_the_fixed_share() {
    let v = Vault::new(1000, 5000, authority());
    let intent = dev_allocation_intent(&v, authority(), pool_holding(), winner_holding())
        .expect("the authority may allocate");
    assert_eq!(intent.from, pool_holding());
    assert_eq!(intent.to, winner_holding());
    assert_eq!(intent.amount, 100);
    assert_eq!(intent.authorizer, authority());
}

#[test]
fn dev_allocation_intent_refuses_a_stranger() {
    let v = Vault::new(1000, 5000, authority());
    let r = dev_allocation_intent(&v, stranger(), pool_holding(), winner_holding());
    assert_eq!(r, Err(VaultError::Unauthorized));
}
