//! Data shared between the workflow under test and its activities.

use vstd::prelude::*;

verus! {

/// Mathematical model of [`PaymentDetails`].
#[verifier::ext_equal]
pub struct PaymentDetailsView {
    /// The amount to transfer, in whole currency units.
    pub amount: int,
    /// The account to withdraw from.
    pub source_account: Seq<char>,
    /// The account to deposit into.
    pub target_account: Seq<char>,
    /// The caller-chosen reference id for this transfer.
    pub reference_id: Seq<char>,
}

/// The input of the money-transfer workflow.
#[derive(Debug)]
pub struct PaymentDetails {
    /// The amount to transfer, in whole currency units.
    pub amount: u64,
    /// The account to withdraw from.
    pub source_account: String,
    /// The account to deposit into.
    pub target_account: String,
    /// The caller-chosen reference id for this transfer.
    pub reference_id: String,
}

impl View for PaymentDetails {
    type V = PaymentDetailsView;

    open spec fn view(&self) -> PaymentDetailsView {
        PaymentDetailsView {
            amount: self.amount as int,
            source_account: self.source_account@,
            target_account: self.target_account@,
            reference_id: self.reference_id@,
        }
    }
}

} // verus!
