use token_ledger::AccountId;
use token_ledger::Delegate;
use token_ledger::Erc20;

#[test]
fn call_forwards_to_balance_of() {
    let creator = AccountId::from([0x01; 32]);
    let other = AccountId::from([0x02; 32]);
    let mut token = Erc20::new(creator, b"xDOT".to_vec(), b"DOT".to_vec(), 500);
    assert_eq!(token.transfer(creator, other, 120), Ok(()));
    let delegate = Delegate::new(token);
    assert_eq!(delegate.call(creator), 380);
    assert_eq!(delegate.call(other), 120);
    assert_eq!(delegate.call(AccountId::from([0x03; 32])), 0);
}
