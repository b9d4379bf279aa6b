//! The fee policy: what every transaction the loop causes is paid with.
use vstd::prelude::*;

verus! {

/// The amount of the fee token that every transaction is paid with.
pub const FEE_AMOUNT: u64 = 1;

/// What a [`Fee`] stands for: the characters of its denomination and its
/// amount as a number.
pub struct FeeView {
    pub denom: Seq<char>,
    pub amount: nat,
}

/// An amount of one token, named by its denomination.
#[derive(Debug, PartialEq, Eq)]
pub struct Fee {
    /// The identifier of the token.
    pub denom: String,
    /// How many units of it.
    pub amount: u64,
}

impl View for Fee {
    type V = FeeView;

    open spec fn view(&self) -> FeeView {
        FeeView { denom: self.denom@, amount: self.amount as nat }
    }
}

impl Clone for Fee {
    /// A second fee of the same denomination and amount.
    fn clone(&self) -> (r: Fee)
        ensures
            r@ == self@,
    {
        Fee { denom: self.denom.clone(), amount: self.amount }
    }
}

impl Fee {
    /// The fee of `amount` units of the token `denom`.
    pub fn new(denom: String, amount: u64) -> (f: Fee)
        ensures
            f@ == (FeeView { denom: denom@, amount: amount as nat }),
    {
        Fee { denom, amount }
    }
}

/// The fee that the operator configured, fixed for the life of the process.
///
/// The fee is private and no method changes it: whoever needs a fee reads it
/// with [`FeePolicy::current`].
#[derive(Debug)]
pub struct FeePolicy {
    fee: Fee,
}

impl View for FeePolicy {
    type V = FeeView;

    /// The configured fee.
    closed spec fn view(&self) -> FeeView {
        self.fee@
    }
}

impl FeePolicy {
    /// The fee of a policy made for the token `denom`: [`FEE_AMOUNT`] units
    /// of it.
    pub open spec fn new_view(denom: Seq<char>) -> FeeView {
        FeeView { denom, amount: FEE_AMOUNT as nat }
    }

    /// The policy that pays [`FEE_AMOUNT`] units of the token `pay_fees_in`.
    pub fn new(pay_fees_in: String) -> (p: FeePolicy)
        ensures
            p@ == Self::new_view(pay_fees_in@),
    {
        FeePolicy { fee: Fee { denom: pay_fees_in, amount: FEE_AMOUNT } }
    }

    /// The configured fee, for one transaction.
    pub fn current(&self) -> (f: Fee)
        ensures
            f@ == self@,
    {
        self.fee.clone()
    }
}

} // verus!
