use vstd::prelude::*;

verus! {

/// A payment instruction handed to the payer: the text to present (for
/// example a bolt11 invoice) and the identifier under which the issuer
/// reports settlement.
#[derive(Debug, PartialEq, Eq)]
pub struct PaymentInstruction {
    /// The instruction text shown and encoded for the payer.
    pub text: String,
    /// The identifier used to poll the issuer for settlement.
    pub id: String,
}

/// A bearer proof produced on settlement, bound to the issuer endpoint it
/// was requested from and to the requested amount, carried in its
/// transport-string form.
#[derive(Debug, PartialEq, Eq)]
pub struct BearerProof {
    /// The endpoint of the issuer that produced the proof.
    pub endpoint: String,
    /// The amount the proof is bound to.
    pub amount: u64,
    /// The serialized form sent over the message channel.
    pub transport: String,
}

/// What one settlement attempt at the issuer came back with. An issuer
/// error is treated the same as "not yet settled": the poll goes on.
#[derive(Debug, PartialEq, Eq)]
pub enum AttemptOutcome {
    /// The issuer reported settlement and returned the proof payload.
    Settled(String),
    /// Not settled yet, or the attempt failed; retry after the interval.
    NotYet,
}

} // verus!
