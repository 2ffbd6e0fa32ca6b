use cashu_pos::{derive_view, ViewMode};

#[test]
fn table_issuer_absent() {
    // Whatever the payee and relay state, an absent issuer asks for one.
    assert_eq!(derive_view(false, false, true), ViewMode::SelectIssuer);
    assert_eq!(derive_view(false, false, false), ViewMode::SelectIssuer);
    assert_eq!(derive_view(true, false, true), ViewMode::SelectIssuer);
    assert_eq!(derive_view(true, false, false), ViewMode::SelectIssuer);
}

#[test]
fn table_payee_absent() {
    assert_eq!(derive_view(false, true, true), ViewMode::SelectPayee);
    assert_eq!(derive_view(false, true, false), ViewMode::SelectPayee);
}

#[test]
fn table_both_present() {
    assert_eq!(derive_view(true, true, true), ViewMode::SelectRelays);
    assert_eq!(derive_view(true, true, false), ViewMode::Checkout);
}

#[test]
fn derivation_is_idempotent() {
    for payee in [false, true] {
        for issuer in [false, true] {
            for empty in [false, true] {
                assert_eq!(
                    derive_view(payee, issuer, empty),
                    derive_view(payee, issuer, empty)
                );
            }
        }
    }
}
