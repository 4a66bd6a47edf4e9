//! A single authorization-gated balance check: given a caller-supplied
//! value, confirm that a token account holds at least that much and
//! return what would remain after deducting it, or fail with
//! [`Errors::InsufficientBalance`]. The check only observes the
//! account; it never mutates the balance it inspects.

use vstd::prelude::*;

verus! {

/// The sole domain error: the account's balance is strictly below the
/// requested value.
#[derive(Clone, Copy, Debug, PartialEq, Eq, Structural)]
pub enum Errors {
    InsufficientBalance,
}

/// What the check returns for a given balance and requested value: the
/// remaining balance when the account covers the value, and
/// `InsufficientBalance` otherwise. The subtraction is only taken on
/// the branch where it cannot underflow.
pub open spec fn check_spec(amount: u64, value: u64) -> Result<u64, Errors> {
    if amount >= value {
        Ok((amount - value) as u64)
    } else {
        Err(Errors::InsufficientBalance)
    }
}

/// Anything with a queryable unsigned 64-bit balance. The hosting
/// runtime decides the concrete account representation; the check
/// depends only on this capability.
pub trait BalanceSource: Sized {
    /// The balance this source currently reports.
    spec fn balance_spec(&self) -> u64;

    /// Read the current balance.
    fn balance(&self) -> (r: u64)
        ensures
            r == self.balance_spec(),
    ;
}

/// A token-holding account as the check sees it: a record with a
/// numeric balance of a fungible asset. The surrounding runtime owns
/// the real account and has already validated its encoding and its
/// owner and mint binding; this is a read-only view of the one field
/// the check inspects.
pub struct TokenAccount {
    /// The account's current balance.
    pub amount: u64,
}

impl BalanceSource for TokenAccount {
    open spec fn balance_spec(&self) -> u64 {
        self.amount
    }

    fn balance(&self) -> (r: u64) {
        self.amount
    }
}

/// A cryptographic identity as the hosting runtime presents it: its
/// public key and whether it actively co-signed the current
/// invocation.
pub struct Authority {
    /// The identity's public key bytes.
    pub key: [u8; 32],
    /// Whether this identity actively signed the invocation.
    pub signed: bool,
}

/// The validated context of one invocation: a signing authority bound
/// to the token account whose balance is to be checked. A value of
/// this type exists only for invocations whose authority actively
/// signed — [`Check::new`] refuses every other — so the comparison
/// logic can never be reached behind an unverified signer.
pub struct Check<A: BalanceSource> {
    authority: Authority,
    token_account: A,
}

impl<A: BalanceSource> Check<A> {
    /// Every context that exists was validated: its authority signed.
    #[verifier::type_invariant]
    spec fn validated(self) -> bool {
        self.authority.signed
    }

    /// The balance of the bound token account.
    pub closed spec fn amount(&self) -> u64 {
        self.token_account.balance_spec()
    }

    /// Assemble the context of one invocation. Succeeds exactly when
    /// the authority actively signed; an unsigned authority never
    /// yields a context.
    pub fn new(authority: Authority, token_account: A) -> (r: Option<Check<A>>)
        ensures
            r is Some <==> authority.signed,
            r matches Some(ctx) ==> ctx.amount() == token_account.balance_spec(),
    {
        if authority.signed {
            Some(Check { authority, token_account })
        } else {
            None
        }
    }
}

/// Confirm that the bound account's balance covers `value`, and return
/// what would remain after deducting it; fail with
/// `InsufficientBalance` when the balance is strictly below `value`.
/// The account is only observed, never changed, and the subtraction is
/// taken only on the branch where it cannot underflow.
pub fn check<A: BalanceSource>(ctx: &Check<A>, value: u64) -> (r: Result<u64, Errors>)
    ensures
        r == check_spec(ctx.amount(), value),
{
    let balance = ctx.token_account.balance();
    if balance >= value {
        Ok(balance - value)
    } else {
        Err(Errors::InsufficientBalance)
    }
}

/// A sufficient balance always succeeds: when the account holds at
/// least `value`, the check returns exactly `amount - value`, a result
/// that is never negative and never exceeds the balance itself.
pub proof fn lemma_sufficient_balance(amount: u64, value: u64)
    requires
        amount >= value,
    ensures
        check_spec(amount, value) == Ok::<u64, Errors>((amount - value) as u64),
        check_spec(amount, value)->Ok_0 <= amount,
        check_spec(amount, value)->Ok_0 >= 0,
{
}

/// An insufficient balance always fails: when the account holds
/// strictly less than `value`, the check reports `InsufficientBalance`
/// and produces no numeric result.
pub proof fn lemma_insufficient_balance(amount: u64, value: u64)
    requires
        amount < value,
    ensures
        check_spec(amount, value) == Err::<u64, Errors>(Errors::InsufficientBalance),
{
}

/// The check is idempotent: any two invocations against an unchanged
/// account and the same requested value yield identical results — the
/// outcome is a function of the balance and the value alone, and the
/// check never mutates the balance it reads.
pub proof fn lemma_check_idempotent(
    r1: Result<u64, Errors>,
    r2: Result<u64, Errors>,
    amount: u64,
    value: u64,
)
    requires
        r1 == check_spec(amount, value),
        r2 == check_spec(amount, value),
    ensures
        r1 == r2,
{
}

/// Boundary behaviour: requesting exactly the balance succeeds and
/// leaves zero; requesting one more than the balance fails with
/// `InsufficientBalance` (whenever one more is representable);
/// requesting zero always succeeds and returns the balance unchanged.
pub proof fn lemma_boundary(amount: u64)
    ensures
        check_spec(amount, amount) == Ok::<u64, Errors>(0),
        amount < u64::MAX ==> check_spec(amount, (amount + 1) as u64) == Err::<u64, Errors>(
            Errors::InsufficientBalance,
        ),
        check_spec(amount, 0) == Ok::<u64, Errors>(amount),
{
}

} // verus!
