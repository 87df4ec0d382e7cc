use scholarship::token::{DataKey, Record, ScholarshipToken, TokenError};
use scholarship::{Address, Invocation, LedgerStore};

fn admin() -> Address {
    Address::from_str("GADMIN")
}

fn by(caller: &Address) -> Invocation {
    Invocation::new(caller.clone(), 0)
}

fn initialized() -> ScholarshipToken {
    let mut token = ScholarshipToken::new();
    token
        .initialize(admin(), String::from("Scholarship Token"), String::from("BRS"))
        .unwrap();
    token
}

#[test]
fn test_token_initialization() {
    let mut token = ScholarshipToken::new();
    let admin = admin();
    let name = String::from("Scholarship Token");
    let symbol = String::from("BRS");

    token.initialize(admin, name.clone(), symbol.clone()).unwrap();

    assert_eq!(token.name().unwrap(), name);
    assert_eq!(token.symbol().unwrap(), symbol);
    assert_eq!(token.total_supply(), 0);
}

#[test]
fn test_mint_and_balance() {
    let mut token = initialized();
    let student = Address::from_str("GSTUDENT");

    token.mint(&by(&admin()), student.clone(), 100).unwrap();

    assert_eq!(token.balance_of(student), 100);
    assert_eq!(token.total_supply(), 100);
}

#[test]
fn test_transfer() {
    let mut token = initialized();
    let student1 = Address::from_str("GSTUDENT1");
    let student2 = Address::from_str("GSTUDENT2");

    token.mint(&by(&admin()), student1.clone(), 100).unwrap();
    token.transfer(&by(&student1), student1.clone(), student2.clone(), 30).unwrap();

    assert_eq!(token.balance_of(student1), 70);
    assert_eq!(token.balance_of(student2), 30);
}

#[test]
fn test_progress_distribution() {
    let mut token = initialized();
    let student = Address::from_str("GSTUDENT");

    let minted = token.distribute_for_progress(&by(&admin()), student.clone(), 25).unwrap();
    assert_eq!(minted, 25);
    assert_eq!(token.balance_of(student.clone()), 25);

    let minted2 = token.distribute_for_progress(&by(&admin()), student.clone(), 30).unwrap();
    assert_eq!(minted2, 30);
    assert_eq!(token.balance_of(student), 55);
}

#[test]
fn token_is_initialized_once() {
    let mut token = initialized();
    assert_eq!(
        token.initialize(Address::from_str("GOTHER"), String::from("Other"), String::from("OTH")),
        Err(TokenError::AlreadyInitialized)
    );
    assert_eq!(token.name(), Ok(String::from("Scholarship Token")));
    assert_eq!(token.symbol(), Ok(String::from("BRS")));
}

#[test]
fn token_records_seven_decimals() {
    let token = initialized();
    assert!(matches!(token.store().get(&DataKey::Decimals), Some(Record::Decimals(7))));
    assert!(matches!(token.store().get(&DataKey::Admin), Some(Record::Address(a)) if *a == admin()));
}

#[test]
fn uninitialized_token() {
    let mut token = ScholarshipToken::new();
    let student = Address::from_str("GSTUDENT");
    assert_eq!(token.name(), Err(TokenError::NotInitialized));
    assert_eq!(token.symbol(), Err(TokenError::NotInitialized));
    assert_eq!(token.total_supply(), 0);
    assert_eq!(token.balance_of(student.clone()), 0);
    assert_eq!(token.mint(&by(&admin()), student.clone(), 1), Err(TokenError::NotInitialized));
    assert_eq!(
        token.distribute_for_progress(&by(&admin()), student, 1),
        Err(TokenError::NotInitialized)
    );
}

#[test]
fn mint_errors() {
    let mut token = initialized();
    let student = Address::from_str("GSTUDENT");
    assert_eq!(token.mint(&by(&student), student.clone(), 5), Err(TokenError::Unauthorized));
    assert_eq!(token.mint(&by(&admin()), student.clone(), 0), Err(TokenError::InvalidAmount));
    assert_eq!(token.mint(&by(&admin()), student.clone(), -5), Err(TokenError::InvalidAmount));
    token.mint(&by(&admin()), student.clone(), i128::MAX).unwrap();
    assert_eq!(token.mint(&by(&admin()), student.clone(), 1), Err(TokenError::Overflow));
    assert_eq!(
        token.mint(&by(&admin()), Address::from_str("GOTHER"), 1),
        Err(TokenError::Overflow)
    );
    assert_eq!(token.balance_of(student), i128::MAX);
    assert_eq!(token.balance_of(Address::from_str("GOTHER")), 0);
    assert_eq!(token.total_supply(), i128::MAX);
}

#[test]
fn transfer_errors() {
    let mut token = initialized();
    let holder = Address::from_str("GHOLDER");
    let other = Address::from_str("GOTHER");
    token.mint(&by(&admin()), holder.clone(), 10).unwrap();
    assert_eq!(
        token.transfer(&by(&other), holder.clone(), other.clone(), 1),
        Err(TokenError::Unauthorized)
    );
    assert_eq!(
        token.transfer(&by(&holder), holder.clone(), other.clone(), 0),
        Err(TokenError::InvalidAmount)
    );
    assert_eq!(
        token.transfer(&by(&holder), holder.clone(), other.clone(), 11),
        Err(TokenError::InsufficientBalance)
    );
    assert_eq!(token.balance_of(holder.clone()), 10);
    assert_eq!(token.balance_of(other.clone()), 0);
    assert_eq!(token.transfer(&by(&holder), holder.clone(), other.clone(), 10), Ok(()));
    assert_eq!(token.balance_of(holder), 0);
    assert_eq!(token.balance_of(other), 10);
    assert_eq!(token.total_supply(), 10);
}

#[test]
fn transfer_to_oneself_changes_nothing() {
    let mut token = initialized();
    let holder = Address::from_str("GHOLDER");
    token.mint(&by(&admin()), holder.clone(), 10).unwrap();
    assert_eq!(token.transfer(&by(&holder), holder.clone(), holder.clone(), 4), Ok(()));
    assert_eq!(token.balance_of(holder), 10);
    assert_eq!(token.total_supply(), 10);
}

#[test]
fn transfer_that_would_overflow_changes_nothing() {
    let rich = Address::from_str("GRICH");
    let holder = Address::from_str("GHOLDER");
    let mut store = LedgerStore::new();
    store.set(DataKey::Balance(rich.clone()), Record::Amount(i128::MAX));
    store.set(DataKey::Balance(holder.clone()), Record::Amount(5));
    let mut token = ScholarshipToken::from_store(store);
    assert_eq!(
        token.transfer(&by(&holder), holder.clone(), rich.clone(), 1),
        Err(TokenError::Overflow)
    );
    assert_eq!(token.balance_of(holder), 5);
    assert_eq!(token.balance_of(rich), i128::MAX);
}

#[test]
fn distribution_errors_and_edges() {
    let mut token = initialized();
    let student = Address::from_str("GSTUDENT");
    assert_eq!(
        token.distribute_for_progress(&by(&student), student.clone(), 10),
        Err(TokenError::Unauthorized)
    );
    assert_eq!(
        token.distribute_for_progress(&by(&admin()), student.clone(), 101),
        Err(TokenError::InvalidProgress)
    );
    assert_eq!(token.distribute_for_progress(&by(&admin()), student.clone(), 0), Ok(0));
    assert_eq!(token.balance_of(student.clone()), 0);
    assert_eq!(token.total_supply(), 0);
    assert_eq!(token.distribute_for_progress(&by(&admin()), student.clone(), 100), Ok(100));
    assert_eq!(token.balance_of(student), 100);
    assert_eq!(token.total_supply(), 100);
}
