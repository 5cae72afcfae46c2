use crate::state::pubkey::Pubkey;
use vstd::prelude::*;

verus! {

/// Who receives a payment.
#[derive(Clone, Copy, Debug, PartialEq, Eq)]
pub enum Payee {
    /// The payment account of a principal.
    Account(Pubkey),
    /// The marketplace's treasury for the currency paid in.
    Treasury,
}

/// A transfer of currency that a settled operation asks of the currency
/// subsystem.
///
/// The marketplace keeps no balances. An operation that succeeds has changed
/// the marketplace's own records and hands back the payment that belongs to
/// it; the caller carries both out together.
#[derive(Clone, Copy, Debug, PartialEq, Eq)]
pub struct Payment {
    /// The principal whose payment account is debited.
    pub payer: Pubkey,
    pub payee: Payee,
    /// The currency.
    pub mint: Pubkey,
    /// The amount, in the currency's smallest unit.
    pub amount: u64,
}

} // verus!
