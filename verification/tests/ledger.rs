use token_factory::{AccountId, CustomToken, TokenError};

fn account(tag: u8) -> AccountId {
    AccountId::new([tag; 32])
}

fn ledger(max_supply: u128, burnable: bool, owner: AccountId) -> CustomToken {
    CustomToken::new(String::from("Token"), String::from("TKN"), 18, max_supply, burnable, owner)
}

fn sum_of_balances(token: &CustomToken, accounts: &[AccountId]) -> u128 {
    let mut sum: u128 = 0;
    for a in accounts {
        sum += token.balance_of(*a);
    }
    sum
}

#[test]
fn new_ledger_credits_whole_supply_to_owner() {
    let a = account(1);
    let token = ledger(1000, true, a);
    assert_eq!(token.total_supply(), 1000);
    assert_eq!(token.balance_of(a), 1000);
    assert_eq!(token.balance_of(account(2)), 0);
    assert_eq!(token.allowance(a, account(2)), 0);
}

#[test]
fn new_ledger_with_zero_supply() {
    let a = account(1);
    let token = ledger(0, false, a);
    assert_eq!(token.total_supply(), 0);
    assert_eq!(token.balance_of(a), 0);
}

#[test]
fn burn_then_mint_under_the_cap() {
    let a = account(1);
    let b = account(2);
    let mut token = ledger(1000, true, a);
    assert_eq!(token.balance_of(a), 1000);

    assert_eq!(token.burn(a, 400), Ok(()));
    assert_eq!(token.total_supply(), 600);
    assert_eq!(token.balance_of(a), 600);

    assert_eq!(token.mint(a, b, 300), Ok(()));
    assert_eq!(token.total_supply(), 900);
    assert_eq!(token.balance_of(b), 300);

    assert_eq!(token.mint(a, b, 200), Err(TokenError::SupplyCapExceeded));
    assert_eq!(token.total_supply(), 900);
    assert_eq!(token.balance_of(a), 600);
    assert_eq!(token.balance_of(b), 300);
}

#[test]
fn delegated_transfer_within_and_beyond_allowance() {
    let a = account(1);
    let s = account(2);
    let c = account(3);
    let mut token = ledger(100, true, a);
    assert_eq!(token.balance_of(a), 100);
    assert!(token.approve(a, s, 50));

    assert_eq!(token.transfer_from(s, a, c, 60), Err(TokenError::AllowanceExceeded));
    assert_eq!(token.balance_of(a), 100);
    assert_eq!(token.balance_of(c), 0);
    assert_eq!(token.allowance(a, s), 50);

    assert_eq!(token.transfer_from(s, a, c, 50), Ok(true));
    assert_eq!(token.balance_of(a), 50);
    assert_eq!(token.balance_of(c), 50);
    assert_eq!(token.allowance(a, s), 0);
}

#[test]
fn transfer_moves_amount() {
    let a = account(1);
    let b = account(2);
    let mut token = ledger(1000, false, a);
    assert_eq!(token.transfer(a, b, 250), Ok(true));
    assert_eq!(token.balance_of(a), 750);
    assert_eq!(token.balance_of(b), 250);
    assert_eq!(token.total_supply(), 1000);
    assert_eq!(token.transfer(b, a, 50), Ok(true));
    assert_eq!(token.balance_of(a), 800);
    assert_eq!(token.balance_of(b), 200);
}

#[test]
fn transfer_of_more_than_held_is_rejected() {
    let a = account(1);
    let b = account(2);
    let mut token = ledger(1000, false, a);
    assert_eq!(token.transfer(a, b, 1001), Err(TokenError::InsufficientBalance));
    assert_eq!(token.transfer(b, a, 1), Err(TokenError::InsufficientBalance));
    assert_eq!(token.balance_of(a), 1000);
    assert_eq!(token.balance_of(b), 0);
    assert_eq!(token.total_supply(), 1000);
}

#[test]
fn transfer_of_whole_balance() {
    let a = account(1);
    let b = account(2);
    let mut token = ledger(1000, false, a);
    assert_eq!(token.transfer(a, b, 1000), Ok(true));
    assert_eq!(token.balance_of(a), 0);
    assert_eq!(token.balance_of(b), 1000);
}

#[test]
fn transfer_to_self_changes_nothing() {
    let a = account(1);
    let mut token = ledger(1000, false, a);
    assert_eq!(token.transfer(a, a, 400), Ok(true));
    assert_eq!(token.balance_of(a), 1000);
    assert_eq!(token.transfer(a, a, 1000), Ok(true));
    assert_eq!(token.balance_of(a), 1000);
    assert_eq!(token.total_supply(), 1000);
}

#[test]
fn transfer_to_self_still_needs_the_balance() {
    let a = account(1);
    let mut token = ledger(1000, false, a);
    assert_eq!(token.transfer(a, a, 1001), Err(TokenError::InsufficientBalance));
    assert_eq!(token.balance_of(a), 1000);
}

#[test]
fn transfer_of_nothing_succeeds() {
    let a = account(1);
    let b = account(2);
    let c = account(3);
    let mut token = ledger(1000, false, a);
    assert_eq!(token.transfer(a, b, 0), Ok(true));
    assert_eq!(token.transfer(c, b, 0), Ok(true));
    assert_eq!(token.balance_of(a), 1000);
    assert_eq!(token.balance_of(b), 0);
    assert_eq!(token.balance_of(c), 0);
}

#[test]
fn transfers_conserve_the_sum_of_balances() {
    let a = account(1);
    let b = account(2);
    let c = account(3);
    let all = [a, b, c];
    let mut token = ledger(500, true, a);
    assert!(token.approve(b, c, 70));
    assert_eq!(token.transfer(a, b, 120), Ok(true));
    assert_eq!(sum_of_balances(&token, &all), 500);
    assert_eq!(token.transfer(b, c, 20), Ok(true));
    assert_eq!(sum_of_balances(&token, &all), 500);
    assert_eq!(token.transfer_from(c, b, a, 70), Ok(true));
    assert_eq!(sum_of_balances(&token, &all), 500);
    assert_eq!(token.transfer(c, a, 21), Err(TokenError::InsufficientBalance));
    assert_eq!(sum_of_balances(&token, &all), 500);
    assert_eq!(token.total_supply(), 500);
    assert_eq!(token.balance_of(a), 450);
    assert_eq!(token.balance_of(b), 30);
    assert_eq!(token.balance_of(c), 20);
}

#[test]
fn approve_overwrites_and_does_not_add() {
    let a = account(1);
    let s = account(2);
    let mut token = ledger(100, false, a);
    assert!(token.approve(a, s, 30));
    assert_eq!(token.allowance(a, s), 30);
    assert!(token.approve(a, s, 10));
    assert_eq!(token.allowance(a, s), 10);
    assert!(token.approve(a, s, 0));
    assert_eq!(token.allowance(a, s), 0);
}

#[test]
fn approve_is_per_owner_and_spender() {
    let a = account(1);
    let s = account(2);
    let mut token = ledger(100, false, a);
    assert!(token.approve(a, s, 30));
    assert_eq!(token.allowance(a, s), 30);
    assert_eq!(token.allowance(s, a), 0);
    assert_eq!(token.allowance(a, a), 0);
    assert_eq!(token.balance_of(a), 100);
}

#[test]
fn approve_may_exceed_the_balance() {
    let a = account(1);
    let s = account(2);
    let c = account(3);
    let mut token = ledger(100, false, a);
    assert!(token.approve(a, s, 500));
    assert_eq!(token.allowance(a, s), 500);
    assert_eq!(token.transfer_from(s, a, c, 101), Err(TokenError::InsufficientBalance));
    assert_eq!(token.transfer_from(s, a, c, 100), Ok(true));
    assert_eq!(token.allowance(a, s), 400);
    assert_eq!(token.balance_of(c), 100);
}

#[test]
fn delegated_transfer_leaves_the_remainder() {
    let o = account(1);
    let s = account(2);
    let r = account(3);
    let mut token = ledger(1000, false, o);
    assert!(token.approve(o, s, 300));
    assert_eq!(token.transfer_from(s, o, r, 120), Ok(true));
    assert_eq!(token.allowance(o, s), 180);
    assert_eq!(token.transfer_from(s, o, r, 181), Err(TokenError::AllowanceExceeded));
    assert_eq!(token.allowance(o, s), 180);
    assert_eq!(token.balance_of(o), 880);
    assert_eq!(token.balance_of(r), 120);
}

#[test]
fn delegated_transfer_looks_at_the_balance_first() {
    let o = account(1);
    let s = account(2);
    let r = account(3);
    let mut token = ledger(10, false, o);
    assert!(token.approve(o, s, 5));
    assert_eq!(token.transfer_from(s, o, r, 11), Err(TokenError::InsufficientBalance));
    assert_eq!(token.transfer_from(s, o, r, 6), Err(TokenError::AllowanceExceeded));
    assert_eq!(token.balance_of(o), 10);
    assert_eq!(token.allowance(o, s), 5);
}

#[test]
fn delegated_transfer_without_approval_is_rejected() {
    let o = account(1);
    let s = account(2);
    let mut token = ledger(10, false, o);
    assert_eq!(token.transfer_from(s, o, s, 1), Err(TokenError::AllowanceExceeded));
    assert_eq!(token.transfer_from(s, o, s, 0), Ok(true));
    assert_eq!(token.balance_of(o), 10);
    assert_eq!(token.balance_of(s), 0);
}

#[test]
fn delegated_transfer_uses_the_allowance_of_the_caller() {
    let o = account(1);
    let s = account(2);
    let other = account(3);
    let mut token = ledger(10, false, o);
    assert!(token.approve(o, s, 5));
    assert_eq!(token.transfer_from(other, o, other, 1), Err(TokenError::AllowanceExceeded));
    assert_eq!(token.transfer_from(s, o, other, 1), Ok(true));
    assert_eq!(token.allowance(o, s), 4);
    assert_eq!(token.balance_of(other), 1);
}

#[test]
fn delegated_transfer_back_to_the_sender() {
    let o = account(1);
    let s = account(2);
    let mut token = ledger(10, false, o);
    assert!(token.approve(o, s, 5));
    assert_eq!(token.transfer_from(s, o, o, 3), Ok(true));
    assert_eq!(token.balance_of(o), 10);
    assert_eq!(token.allowance(o, s), 2);
}

#[test]
fn mint_is_reserved_for_the_owner() {
    let a = account(1);
    let b = account(2);
    let mut token = ledger(1000, true, a);
    assert_eq!(token.burn(a, 500), Ok(()));
    assert_eq!(token.mint(b, b, 100), Err(TokenError::Unauthorized));
    assert_eq!(token.total_supply(), 500);
    assert_eq!(token.balance_of(b), 0);
    assert_eq!(token.balance_of(a), 500);
}

#[test]
fn mint_on_full_supply_is_rejected() {
    let a = account(1);
    let mut token = ledger(1000, true, a);
    assert_eq!(token.mint(a, a, 1), Err(TokenError::SupplyCapExceeded));
    assert_eq!(token.total_supply(), 1000);
    assert_eq!(token.balance_of(a), 1000);
}

#[test]
fn mint_of_nothing_succeeds() {
    let a = account(1);
    let b = account(2);
    let mut token = ledger(1000, true, a);
    assert_eq!(token.mint(a, b, 0), Ok(()));
    assert_eq!(token.total_supply(), 1000);
    assert_eq!(token.balance_of(b), 0);
}

#[test]
fn mint_up_to_the_cap_exactly() {
    let a = account(1);
    let b = account(2);
    let mut token = ledger(1000, true, a);
    assert_eq!(token.burn(a, 10), Ok(()));
    assert_eq!(token.mint(a, b, 11), Err(TokenError::SupplyCapExceeded));
    assert_eq!(token.mint(a, b, 10), Ok(()));
    assert_eq!(token.total_supply(), 1000);
    assert_eq!(token.balance_of(a), 990);
    assert_eq!(token.balance_of(b), 10);
}

#[test]
fn mint_that_overflows_the_amount_type_is_rejected() {
    let a = account(1);
    let mut token = ledger(u128::MAX, true, a);
    assert_eq!(token.mint(a, a, 1), Err(TokenError::ArithmeticOverflow));
    assert_eq!(token.burn(a, u128::MAX - 1), Ok(()));
    assert_eq!(token.total_supply(), 1);
    assert_eq!(token.mint(a, a, u128::MAX), Err(TokenError::ArithmeticOverflow));
    assert_eq!(token.total_supply(), 1);
    assert_eq!(token.balance_of(a), 1);
    assert_eq!(token.mint(a, a, u128::MAX - 1), Ok(()));
    assert_eq!(token.total_supply(), u128::MAX);
    assert_eq!(token.balance_of(a), u128::MAX);
}

#[test]
fn mint_by_a_stranger_is_unauthorized_before_anything_else() {
    let a = account(1);
    let b = account(2);
    let mut token = ledger(u128::MAX, true, a);
    assert_eq!(token.mint(b, b, u128::MAX), Err(TokenError::Unauthorized));
}

#[test]
fn burn_is_reserved_for_the_owner() {
    let a = account(1);
    let b = account(2);
    let mut token = ledger(1000, true, a);
    assert_eq!(token.transfer(a, b, 100), Ok(true));
    assert_eq!(token.burn(b, 10), Err(TokenError::Unauthorized));
    assert_eq!(token.burn_from(b, b, 10), Err(TokenError::Unauthorized));
    assert_eq!(token.burn_from(b, a, 10), Err(TokenError::Unauthorized));
    assert_eq!(token.total_supply(), 1000);
    assert_eq!(token.balance_of(a), 900);
    assert_eq!(token.balance_of(b), 100);
}

#[test]
fn burn_needs_a_burnable_ledger() {
    let a = account(1);
    let mut token = ledger(1000, false, a);
    assert_eq!(token.burn(a, 10), Err(TokenError::BurningDisabled));
    assert_eq!(token.burn_from(a, a, 10), Err(TokenError::BurningDisabled));
    assert_eq!(token.burn(a, 0), Err(TokenError::BurningDisabled));
    assert_eq!(token.total_supply(), 1000);
    assert_eq!(token.balance_of(a), 1000);
}

#[test]
fn burn_by_a_stranger_on_a_fixed_ledger_is_unauthorized() {
    let a = account(1);
    let b = account(2);
    let mut token = ledger(1000, false, a);
    assert_eq!(token.burn(b, 10), Err(TokenError::Unauthorized));
    assert_eq!(token.burn_from(b, a, 2000), Err(TokenError::Unauthorized));
}

#[test]
fn burn_of_more_than_held_is_rejected() {
    let a = account(1);
    let b = account(2);
    let mut token = ledger(1000, true, a);
    assert_eq!(token.transfer(a, b, 700), Ok(true));
    assert_eq!(token.burn(a, 301), Err(TokenError::InsufficientBalance));
    assert_eq!(token.burn_from(a, b, 701), Err(TokenError::InsufficientBalance));
    assert_eq!(token.total_supply(), 1000);
    assert_eq!(token.balance_of(a), 300);
    assert_eq!(token.balance_of(b), 700);
}

#[test]
fn burn_takes_from_the_owner() {
    let a = account(1);
    let b = account(2);
    let mut token = ledger(1000, true, a);
    assert_eq!(token.transfer(a, b, 700), Ok(true));
    assert_eq!(token.burn(a, 300), Ok(()));
    assert_eq!(token.total_supply(), 700);
    assert_eq!(token.balance_of(a), 0);
    assert_eq!(token.balance_of(b), 700);
}

#[test]
fn burn_from_needs_no_allowance() {
    let a = account(1);
    let b = account(2);
    let mut token = ledger(1000, true, a);
    assert_eq!(token.transfer(a, b, 700), Ok(true));
    assert_eq!(token.allowance(b, a), 0);
    assert_eq!(token.burn_from(a, b, 250), Ok(()));
    assert_eq!(token.total_supply(), 750);
    assert_eq!(token.balance_of(a), 300);
    assert_eq!(token.balance_of(b), 450);
    assert_eq!(token.allowance(b, a), 0);
}

#[test]
fn burn_of_nothing_succeeds() {
    let a = account(1);
    let b = account(2);
    let mut token = ledger(1000, true, a);
    assert_eq!(token.burn(a, 0), Ok(()));
    assert_eq!(token.burn_from(a, b, 0), Ok(()));
    assert_eq!(token.total_supply(), 1000);
    assert_eq!(token.balance_of(a), 1000);
    assert_eq!(token.balance_of(b), 0);
}

#[test]
fn small_ledger_has_room_for_more_entries() {
    let a = account(1);
    let b = account(2);
    let c = account(3);
    let mut token = ledger(1000, true, a);
    assert!(token.has_room_for_balances(a, a));
    assert!(token.has_room_for_balances(b, c));
    assert!(token.has_room_for_balances(b, b));
    assert!(token.has_room_for_allowance(a, b));
    assert!(token.approve(a, b, 1));
    assert!(token.has_room_for_allowance(a, b));
    assert!(token.has_room_for_allowance(b, a));
}

#[test]
fn accounts_differ_by_any_byte() {
    let mut bytes = [7u8; 32];
    let a = AccountId::new(bytes);
    bytes[31] = 8;
    let b = AccountId::new(bytes);
    assert!(a.same(&a));
    assert!(!a.same(&b));
    assert!(a == AccountId::new([7u8; 32]));
    assert!(a != b);
    assert_eq!(b.as_bytes()[31], 8);
    let mut token = ledger(10, false, a);
    assert_eq!(token.balance_of(b), 0);
    assert_eq!(token.transfer(a, b, 4), Ok(true));
    assert_eq!(token.balance_of(a), 6);
    assert_eq!(token.balance_of(b), 4);
}

#[test]
fn description_is_kept_through_operations() {
    let a = account(1);
    let b = account(2);
    let mut token =
        CustomToken::new(String::from("Silver"), String::from("SLV"), 6, 1000, true, a);
    assert_eq!(token.transfer(a, b, 10), Ok(true));
    assert_eq!(token.burn(a, 90), Ok(()));
    assert_eq!(token.mint(a, b, 40), Ok(()));
    assert!(token.approve(b, a, 5));
    assert_eq!(token.name(), "Silver");
    assert_eq!(token.symbol(), "SLV");
    assert_eq!(token.decimals(), 6);
    assert_eq!(token.max_supply(), 1000);
    assert!(token.burnable());
    assert_eq!(token.owner(), a);
    assert_eq!(token.total_supply(), 950);
}
