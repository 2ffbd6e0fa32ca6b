use vstd::prelude::*;

use crate::workflow::PaymentInstruction;

verus! {

/// The single active view mode of the session. Which of the setup and
/// checkout modes is active is a pure function of the session state; the
/// workflow modes are entered by explicit transitions.
#[derive(Debug, PartialEq, Eq)]
pub enum ViewMode {
    /// No issuer is bound yet: ask for an issuer endpoint.
    SelectIssuer,
    /// An issuer is bound but no payee identity is set.
    SelectPayee,
    /// Payee and issuer are present but the relay set is empty.
    SelectRelays,
    /// Everything needed to take a payment is present.
    Checkout,
    /// An instruction is out, waiting for settlement; carries the
    /// instruction and the display string for the amount.
    AwaitingSettlement(PaymentInstruction, String),
    /// The instruction settled.
    SettlementConfirmed,
    /// The settings page, entered on request.
    Settings,
}

/// The view mode owed to a session whose payee, issuer and relay set are
/// present or absent as the three flags say.
pub open spec fn spec_derive_view(
    payee_present: bool,
    issuer_present: bool,
    relays_empty: bool,
) -> ViewMode {
    if !issuer_present {
        ViewMode::SelectIssuer
    } else if !payee_present {
        ViewMode::SelectPayee
    } else if relays_empty {
        ViewMode::SelectRelays
    } else {
        ViewMode::Checkout
    }
}

/// Derive the view mode from the presence triple. Total over all eight
/// combinations; the ensures clauses restate the whole table.
pub fn derive_view(payee_present: bool, issuer_present: bool, relays_empty: bool) -> (r: ViewMode)
    ensures
        r == spec_derive_view(payee_present, issuer_present, relays_empty),
        !issuer_present ==> r == ViewMode::SelectIssuer,
        issuer_present && !payee_present ==> r == ViewMode::SelectPayee,
        issuer_present && payee_present && relays_empty ==> r == ViewMode::SelectRelays,
        issuer_present && payee_present && !relays_empty ==> r == ViewMode::Checkout,
{
    if !issuer_present {
        ViewMode::SelectIssuer
    } else if !payee_present {
        ViewMode::SelectPayee
    } else if relays_empty {
        ViewMode::SelectRelays
    } else {
        ViewMode::Checkout
    }
}

/// Deriving the view is deterministic and depends on the presence triple
/// alone: equal triples give equal views, so deriving twice from the same
/// state yields the same mode.
pub proof fn lemma_view_of_triple(
    p1: bool,
    i1: bool,
    e1: bool,
    p2: bool,
    i2: bool,
    e2: bool,
)
    requires
        p1 == p2,
        i1 == i2,
        e1 == e2,
    ensures
        spec_derive_view(p1, i1, e1) == spec_derive_view(p2, i2, e2),
{
}

} // verus!
