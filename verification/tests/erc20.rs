use token_ledger::AccountId;
use token_ledger::Erc20;
use token_ledger::Error;
use token_ledger::Event;
use token_ledger::Transfer;

fn alice() -> AccountId {
    AccountId::from([0x01; 32])
}

fn bob() -> AccountId {
    AccountId::from([0x02; 32])
}

fn eve() -> AccountId {
    AccountId::from([0x05; 32])
}

fn assert_transfer_event(
    event: &Event,
    expected_from: Option<AccountId>,
    expected_to: Option<AccountId>,
    expected_value: u128,
) {
    match event {
        Event::Transfer(Transfer { from, to, value }) => {
            assert_eq!(*from, expected_from, "encountered invalid Transfer.from");
            assert_eq!(*to, expected_to, "encountered invalid Transfer.to");
            assert_eq!(*value, expected_value, "encountered invalid Transfer.value");
        }
        _ => panic!("encountered unexpected event kind: expected a Transfer event"),
    }
}

#[test]
fn create_works() {
    let erc20 = Erc20::new(alice(), b"xDOT".to_vec(), b"DOT".to_vec(), 1_000_000_000);
    assert_eq!(erc20.name(), b"xDOT".to_vec());
    assert_eq!(erc20.symbol(), b"DOT".to_vec());
    assert_eq!(erc20.total_supply(), 1_000_000_000);
    assert_eq!(erc20.balance_of(AccountId::from([0x01; 32])), 1_000_000_000);

    assert_eq!(1, erc20.events.len());
    assert_transfer_event(
        &erc20.events[0],
        None,
        Some(AccountId::from([0x01; 32])),
        1_000_000_000,
    );
}

#[test]
fn transfer_works() {
    let mut erc20 = Erc20::new(alice(), b"xDOT".to_vec(), b"DOT".to_vec(), 1_000_000_000);

    assert_eq!(erc20.balance_of(bob()), 0);
    assert_eq!(erc20.transfer(alice(), bob(), 10), Ok(()));
    assert_eq!(erc20.balance_of(bob()), 10);

    assert_eq!(erc20.events.len(), 2);
    assert_transfer_event(
        &erc20.events[0],
        None,
        Some(AccountId::from([0x01; 32])),
        1_000_000_000,
    );
    assert_transfer_event(
        &erc20.events[1],
        Some(AccountId::from([0x01; 32])),
        Some(AccountId::from([0x02; 32])),
        10,
    );
}

#[test]
fn transfer_from_works() {
    let mut erc20 = Erc20::new(alice(), b"xDOT".to_vec(), b"DOT".to_vec(), 1_000_000_000);

    // Without a prior approval, the delegated transfer is rejected.
    assert_eq!(
        erc20.transfer_from(alice(), alice(), eve(), 10),
        Err(Error::InsufficientAllowance)
    );
    // Alice authorizes Bob for 10.
    assert_eq!(erc20.approve(alice(), bob(), 10), Ok(()));
    assert_eq!(erc20.events.len(), 2);

    // Bob moves 10 from Alice to Eve.
    assert_eq!(erc20.transfer_from(bob(), alice(), eve(), 10), Ok(()));
    assert_eq!(erc20.balance_of(eve()), 10);

    assert_eq!(erc20.events.len(), 3);
    assert_transfer_event(
        &erc20.events[0],
        None,
        Some(AccountId::from([0x01; 32])),
        1_000_000_000,
    );
    assert_transfer_event(
        &erc20.events[2],
        Some(AccountId::from([0x01; 32])),
        Some(AccountId::from([0x05; 32])),
        10,
    );
}

#[test]
fn approve_overwrites_instead_of_accumulating() {
    let mut erc20 = Erc20::new(alice(), b"xDOT".to_vec(), b"DOT".to_vec(), 100);
    assert_eq!(erc20.approve(alice(), bob(), 5), Ok(()));
    assert_eq!(erc20.allowance(alice(), bob()), 5);
    assert_eq!(erc20.approve(alice(), bob(), 3), Ok(()));
    assert_eq!(erc20.allowance(alice(), bob()), 3);
}

#[test]
fn approve_ignores_current_balance() {
    let mut erc20 = Erc20::new(alice(), b"xDOT".to_vec(), b"DOT".to_vec(), 100);
    // Bob holds nothing, yet may authorize any amount.
    assert_eq!(erc20.approve(bob(), eve(), 1_000_000), Ok(()));
    assert_eq!(erc20.allowance(bob(), eve()), 1_000_000);
}

#[test]
fn delegated_transfer_debits_allowance() {
    let mut erc20 = Erc20::new(alice(), b"xDOT".to_vec(), b"DOT".to_vec(), 1_000_000_000);
    assert_eq!(erc20.approve(alice(), bob(), 10), Ok(()));

    let eve_before = erc20.balance_of(eve());
    assert_eq!(erc20.transfer_from(bob(), alice(), eve(), 10), Ok(()));
    assert_eq!(erc20.balance_of(eve()), eve_before + 10);
    assert_eq!(erc20.allowance(alice(), bob()), 0);

    // The identical call now fails: the authorization was consumed.
    assert_eq!(
        erc20.transfer_from(bob(), alice(), eve(), 10),
        Err(Error::InsufficientAllowance)
    );
}

#[test]
fn delegated_transfer_keeps_allowance_on_balance_failure() {
    let mut erc20 = Erc20::new(alice(), b"xDOT".to_vec(), b"DOT".to_vec(), 100);
    // Eve holds nothing but authorizes Bob for 50.
    assert_eq!(erc20.approve(eve(), bob(), 50), Ok(()));
    assert_eq!(
        erc20.transfer_from(bob(), eve(), alice(), 50),
        Err(Error::InsufficientBalance)
    );
    // The allowance was not consumed on the balance failure.
    assert_eq!(erc20.allowance(eve(), bob()), 50);
    assert_eq!(erc20.balance_of(alice()), 100);
}

#[test]
fn insufficient_allowance_leaves_balances_unchanged() {
    let mut erc20 = Erc20::new(alice(), b"xDOT".to_vec(), b"DOT".to_vec(), 1_000);
    assert_eq!(
        erc20.transfer_from(bob(), alice(), eve(), 10),
        Err(Error::InsufficientAllowance)
    );
    assert_eq!(erc20.balance_of(alice()), 1_000);
    assert_eq!(erc20.balance_of(bob()), 0);
    assert_eq!(erc20.balance_of(eve()), 0);
    assert_eq!(erc20.events.len(), 1);
}

#[test]
fn transfer_fails_on_insufficient_balance() {
    let mut erc20 = Erc20::new(alice(), b"xDOT".to_vec(), b"DOT".to_vec(), 100);
    assert_eq!(
        erc20.transfer(alice(), bob(), 101),
        Err(Error::InsufficientBalance)
    );
    assert_eq!(erc20.balance_of(alice()), 100);
    assert_eq!(erc20.balance_of(bob()), 0);
    assert_eq!(erc20.events.len(), 1);
}

#[test]
fn issue_by_creator_expands_supply() {
    let mut erc20 = Erc20::new(alice(), b"xDOT".to_vec(), b"DOT".to_vec(), 100);
    assert_eq!(erc20.issue(alice(), 25), Ok(()));
    assert_eq!(erc20.total_supply(), 125);
    assert_eq!(erc20.balance_of(alice()), 125);
    assert_eq!(erc20.events.len(), 2);
    assert_transfer_event(&erc20.events[1], None, Some(alice()), 25);
}

#[test]
fn issue_by_other_caller_is_rejected() {
    let mut erc20 = Erc20::new(alice(), b"xDOT".to_vec(), b"DOT".to_vec(), 100);
    assert_eq!(erc20.issue(bob(), 100), Err(Error::OnlyForCreator));
    assert_eq!(erc20.total_supply(), 100);
    assert_eq!(erc20.balance_of(bob()), 0);
    assert_eq!(erc20.events.len(), 1);
}

#[test]
fn issue_rejects_supply_overflow() {
    let mut erc20 = Erc20::new(alice(), b"xDOT".to_vec(), b"DOT".to_vec(), u128::MAX - 1);
    assert_eq!(erc20.issue(alice(), 2), Err(Error::Overflow));
    assert_eq!(erc20.total_supply(), u128::MAX - 1);
    assert_eq!(erc20.issue(alice(), 1), Ok(()));
    assert_eq!(erc20.total_supply(), u128::MAX);
}

#[test]
fn burn_shrinks_supply_and_balance() {
    let mut erc20 = Erc20::new(alice(), b"xDOT".to_vec(), b"DOT".to_vec(), 100);
    assert_eq!(erc20.transfer(alice(), bob(), 40), Ok(()));
    assert_eq!(erc20.burn(bob(), 15), Ok(()));
    assert_eq!(erc20.total_supply(), 85);
    assert_eq!(erc20.balance_of(bob()), 25);
    assert_eq!(erc20.balance_of(alice()), 60);
    assert_eq!(erc20.events.len(), 3);
    assert_transfer_event(&erc20.events[2], Some(bob()), None, 15);
}

#[test]
fn burn_fails_on_insufficient_balance() {
    let mut erc20 = Erc20::new(alice(), b"xDOT".to_vec(), b"DOT".to_vec(), 100);
    assert_eq!(erc20.burn(bob(), 1), Err(Error::InsufficientBalance));
    assert_eq!(erc20.total_supply(), 100);
    assert_eq!(erc20.events.len(), 1);
}

#[test]
fn account_identities_compare_by_value() {
    assert_eq!(AccountId::new([0x09; 32]), AccountId::from([0x09; 32]));
    assert_ne!(AccountId::new([0x09; 32]), AccountId::from([0x0a; 32]));
}

#[test]
fn reads_of_unknown_accounts_yield_zero() {
    let erc20 = Erc20::new(alice(), b"xDOT".to_vec(), b"DOT".to_vec(), 100);
    assert_eq!(erc20.balance_of(eve()), 0);
    assert_eq!(erc20.allowance(alice(), bob()), 0);
    assert_eq!(erc20.allowance(eve(), eve()), 0);
}

#[test]
fn transfer_to_self_keeps_balance() {
    let mut erc20 = Erc20::new(alice(), b"xDOT".to_vec(), b"DOT".to_vec(), 100);
    assert_eq!(erc20.transfer(alice(), alice(), 30), Ok(()));
    assert_eq!(erc20.balance_of(alice()), 100);
    assert_eq!(erc20.total_supply(), 100);
}

#[test]
fn supply_stays_the_sum_of_balances() {
    let mut erc20 = Erc20::new(alice(), b"xDOT".to_vec(), b"DOT".to_vec(), 1_000);
    assert_eq!(erc20.transfer(alice(), bob(), 300), Ok(()));
    assert_eq!(erc20.approve(alice(), bob(), 200), Ok(()));
    assert_eq!(erc20.transfer_from(bob(), alice(), eve(), 150), Ok(()));
    assert_eq!(erc20.issue(alice(), 42), Ok(()));
    assert_eq!(erc20.burn(bob(), 100), Ok(()));
    let sum = erc20.balance_of(alice()) + erc20.balance_of(bob()) + erc20.balance_of(eve());
    assert_eq!(erc20.total_supply(), sum);
    assert_eq!(erc20.total_supply(), 942);
}
