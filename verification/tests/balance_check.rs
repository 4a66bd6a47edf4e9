use hesoyam::{check, Authority, Check, Errors, TokenAccount};

fn signed_authority() -> Authority {
    Authority {
        key: [7u8; 32],
        signed: true,
    }
}

fn context(amount: u64) -> Check<TokenAccount> {
    Check::new(signed_authority(), TokenAccount { amount })
        .expect("a signed authority always yields a context")
}

#[test]
fn sufficient_balance_returns_remainder() {
    let ctx = context(1000);
    assert_eq!(check(&ctx, 400), Ok(600));
}

#[test]
fn exact_balance_leaves_zero() {
    let ctx = context(1000);
    assert_eq!(check(&ctx, 1000), Ok(0));
}

#[test]
fn one_above_balance_is_insufficient() {
    let ctx = context(1000);
    assert_eq!(check(&ctx, 1001), Err(Errors::InsufficientBalance));
}

#[test]
fn zero_against_empty_account() {
    let ctx = context(0);
    assert_eq!(check(&ctx, 0), Ok(0));
}

#[test]
fn max_balance_against_max_value() {
    let ctx = context(u64::MAX);
    assert_eq!(check(&ctx, u64::MAX), Ok(0));
}

#[test]
fn zero_value_returns_balance_unchanged() {
    let ctx = context(123_456);
    assert_eq!(check(&ctx, 0), Ok(123_456));
}

#[test]
fn empty_account_cannot_cover_one() {
    let ctx = context(0);
    assert_eq!(check(&ctx, 1), Err(Errors::InsufficientBalance));
}

#[test]
fn repeated_check_is_idempotent() {
    let ctx = context(1000);
    let first = check(&ctx, 400);
    let second = check(&ctx, 400);
    assert_eq!(first, second);
    assert_eq!(first, Ok(600));
}

#[test]
fn repeated_failing_check_is_idempotent() {
    let ctx = context(10);
    let first = check(&ctx, 11);
    let second = check(&ctx, 11);
    assert_eq!(first, second);
    assert_eq!(first, Err(Errors::InsufficientBalance));
}

#[test]
fn unsigned_authority_yields_no_context() {
    let authority = Authority {
        key: [7u8; 32],
        signed: false,
    };
    let refused = Check::new(authority, TokenAccount { amount: 1000 });
    assert!(refused.is_none());
}

#[test]
fn signed_authority_yields_a_context() {
    let made = Check::new(signed_authority(), TokenAccount { amount: 1000 });
    assert!(made.is_some());
}
