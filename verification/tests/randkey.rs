use token_ledger::Randkey;
use token_ledger::RandkeyEvent;
use token_ledger::RandomReadErr;
use token_ledger::ClaimCreated;
use token_ledger::KittyCreated;
use token_ledger::RandomUpdated;

#[test]
fn lib_default_works() {
    let randkey = Randkey::default();
    assert_eq!(randkey.get(), [0; 32]);
    assert_eq!(randkey.get_kitty_id(), 0);
}

#[test]
fn lib_it_works() {
    let randkey = Randkey::default();
    assert_eq!(randkey.get(), [0; 32]);
}

#[test]
fn update_stores_the_fetched_key() {
    let mut randkey = Randkey::new([7; 32]);
    assert_eq!(randkey.update(Ok([9; 32])), Ok(()));
    assert_eq!(randkey.get(), [9; 32]);
    assert_eq!(
        randkey.events,
        vec![RandkeyEvent::RandomUpdated(RandomUpdated { new: [9; 32] })]
    );
}

#[test]
fn update_passes_the_failure_through() {
    let mut randkey = Randkey::new([7; 32]);
    assert_eq!(
        randkey.update(Err(RandomReadErr::FailGetRandomSource)),
        Err(RandomReadErr::FailGetRandomSource)
    );
    assert_eq!(randkey.get(), [7; 32]);
    assert!(randkey.events.is_empty());
}

#[test]
fn create_claim_logs_the_claim() {
    let mut randkey = Randkey::default();
    assert_eq!(randkey.create_claim(b"deed".to_vec(), Ok(())), Ok(()));
    assert_eq!(
        randkey.events,
        vec![RandkeyEvent::ClaimCreated(ClaimCreated { claim: b"deed".to_vec() })]
    );
}

#[test]
fn create_kitty_stores_the_minted_id() {
    let mut randkey = Randkey::default();
    assert_eq!(randkey.create_kitty(Ok(11)), Ok(()));
    assert_eq!(randkey.get_kitty_id(), 11);
    assert_eq!(
        randkey.events,
        vec![RandkeyEvent::KittyCreated(KittyCreated { kitty_id: 11 })]
    );
    assert_eq!(
        randkey.create_kitty(Err(RandomReadErr::FailGetRandomSource)),
        Err(RandomReadErr::FailGetRandomSource)
    );
    assert_eq!(randkey.get_kitty_id(), 11);
}

#[test]
fn status_codes_decode_to_the_call_outcome() {
    assert_eq!(RandomReadErr::from_status_code(0), Ok(()));
    assert_eq!(
        RandomReadErr::from_status_code(1),
        Err(RandomReadErr::FailGetRandomSource)
    );
}
