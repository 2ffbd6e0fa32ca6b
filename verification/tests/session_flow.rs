use cashu_pos::{Action, App, AttemptOutcome, IssuerHandle, Msg, PaymentInstruction, ViewMode};
use nostr_sdk::{Client, Keys};

fn current_thread_runtime() -> tokio::runtime::Runtime {
    tokio::runtime::Builder::new_current_thread().build().unwrap()
}

fn fresh_client() -> (tokio::runtime::Runtime, Client) {
    let rt = current_thread_runtime();
    let guard = rt.enter();
    let client = Client::new(&Keys::generate());
    drop(guard);
    (rt, client)
}

#[test]
fn setup_progression_to_checkout() {
    // Payee absent, issuer absent: ask for an issuer first.
    let (mut app, acts) = App::create(None, None, Vec::new());
    assert_eq!(app.view, ViewMode::SelectIssuer);
    assert!(acts.is_empty());

    // Issuer provisioned: ask for the payee.
    let acts = app.update(Msg::WalletCreated(IssuerHandle {
        endpoint: "https://mint.example".to_string(),
    }));
    assert_eq!(app.view, ViewMode::SelectPayee);
    assert!(acts.is_empty());

    // Payee set, no relays yet: ask for relays.
    let acts = app.update(Msg::NostrRecKeySet(Keys::generate()));
    assert_eq!(app.view, ViewMode::SelectRelays);
    assert_eq!(acts, vec![Action::PersistPayee]);

    // One relay added: ready for checkout.
    let acts = app.update(Msg::AddRelay("wss://relay.example".to_string()));
    assert_eq!(app.view, ViewMode::Checkout);
    assert_eq!(app.relays.len(), 1);
    // The stored relay is the normalized serialization, not the raw input.
    assert_eq!(app.relays[0], "wss://relay.example/");
    assert_eq!(
        acts,
        vec![
            Action::PersistRelays,
            Action::ConnectRelay("wss://relay.example/".to_string()),
        ]
    );
}

#[test]
fn persisted_endpoint_and_payee_with_empty_relays_starts_at_relays() {
    let (app, acts) = App::create(
        Some(Keys::generate()),
        Some("https://mint.example".to_string()),
        Vec::new(),
    );
    assert_eq!(app.view, ViewMode::SelectRelays);
    assert_eq!(
        acts,
        vec![
            Action::ProvisionMessaging(Vec::new()),
            Action::ProvisionIssuer("https://mint.example".to_string()),
        ]
    );
}

#[test]
fn persisted_full_config_starts_at_checkout() {
    let (app, acts) = App::create(
        Some(Keys::generate()),
        Some("https://mint.example".to_string()),
        vec!["wss://relay.example/".to_string()],
    );
    assert_eq!(app.view, ViewMode::Checkout);
    assert_eq!(
        acts,
        vec![
            Action::ProvisionMessaging(vec!["wss://relay.example/".to_string()]),
            Action::ProvisionIssuer("https://mint.example".to_string()),
        ]
    );
}

#[test]
fn persisted_endpoint_alone_provisions_issuer_only() {
    let (app, acts) = App::create(None, Some("https://mint.example".to_string()), Vec::new());
    assert_eq!(app.view, ViewMode::SelectPayee);
    assert_eq!(
        acts,
        vec![Action::ProvisionIssuer("https://mint.example".to_string())]
    );
}

#[test]
fn persisted_payee_alone_asks_for_issuer() {
    let (app, acts) = App::create(Some(Keys::generate()), None, Vec::new());
    assert_eq!(app.view, ViewMode::SelectIssuer);
    assert!(acts.is_empty());
}

#[test]
fn create_deduplicates_persisted_relays() {
    let (app, _) = App::create(
        None,
        None,
        vec![
            "wss://a.example/".to_string(),
            "wss://b.example/".to_string(),
            "wss://a.example/".to_string(),
        ],
    );
    assert_eq!(app.relays.len(), 2);
}

#[test]
fn mint_url_event_persists_and_provisions() {
    let (mut app, _) = App::create(None, None, Vec::new());
    let acts = app.update(Msg::MintUrlSet("https://mint.example".to_string()));
    assert_eq!(
        acts,
        vec![
            Action::PersistEndpoint("https://mint.example".to_string()),
            Action::ProvisionIssuer("https://mint.example".to_string()),
        ]
    );
    // The handle is replaced only when provisioning completes.
    assert!(app.issuer.is_none());
    assert_eq!(app.view, ViewMode::SelectIssuer);
}

#[test]
fn amount_without_issuer_requests_nothing() {
    let (mut app, _) = App::create(None, None, Vec::new());
    let acts = app.update(Msg::AmountSet(2100, "21.00".to_string()));
    assert!(acts.is_empty());
}

#[test]
fn amount_with_issuer_requests_instruction() {
    let (mut app, _) = App::create(None, None, Vec::new());
    app.update(Msg::WalletCreated(IssuerHandle {
        endpoint: "https://mint.example".to_string(),
    }));
    let acts = app.update(Msg::AmountSet(2100, "21.00".to_string()));
    assert_eq!(acts, vec![Action::RequestInstruction(2100, "21.00".to_string())]);
}

#[test]
fn invalid_relay_input_changes_nothing() {
    let (mut app, _) = App::create(None, None, Vec::new());
    let acts = app.update(Msg::AddRelay("not a url".to_string()));
    assert!(acts.is_empty());
    assert_eq!(app.view, ViewMode::SelectIssuer);
    assert!(app.relays.is_empty());
}

#[test]
fn adding_same_relay_twice_is_idempotent() {
    let (mut app, _) = App::create(None, None, Vec::new());
    app.update(Msg::AddRelay("wss://relay.example".to_string()));
    let once = app.relays.clone();
    let acts = app.update(Msg::AddRelay("wss://relay.example".to_string()));
    assert_eq!(app.relays, once);
    assert_eq!(app.relays.len(), 1);
    // The connect attempt is still dispatched, best-effort, either time.
    assert_eq!(
        acts,
        vec![
            Action::PersistRelays,
            Action::ConnectRelay("wss://relay.example/".to_string()),
        ]
    );
}

#[test]
fn raw_and_normalized_relay_count_once() {
    let (mut app, _) = App::create(None, None, Vec::new());
    app.update(Msg::AddRelay("wss://relay.example".to_string()));
    app.update(Msg::AddRelay("wss://relay.example/".to_string()));
    assert_eq!(app.relays.len(), 1);
}

#[test]
fn navigation_events_set_views() {
    let (mut app, _) = App::create(None, None, Vec::new());
    app.update(Msg::Settings);
    assert_eq!(app.view, ViewMode::Settings);
    app.update(Msg::SetPubkeyView);
    assert_eq!(app.view, ViewMode::SelectPayee);
    app.update(Msg::SetMintView);
    assert_eq!(app.view, ViewMode::SelectIssuer);
    app.update(Msg::AddRelayView);
    assert_eq!(app.view, ViewMode::SelectRelays);
    app.update(Msg::Home);
    assert_eq!(app.view, ViewMode::SelectIssuer);
}

#[test]
fn client_arrival_recomputes_view() {
    let (_rt, client) = fresh_client();
    let (mut app, _) = App::create(None, None, Vec::new());
    let acts = app.update(Msg::ClientCreated(client));
    assert!(acts.is_empty());
    assert!(app.messaging.is_some());
    assert_eq!(app.view, ViewMode::SelectIssuer);
}

#[test]
fn instruction_event_registers_pending_and_starts_poll() {
    let (mut app, _) = App::create(None, None, Vec::new());
    app.update(Msg::WalletCreated(IssuerHandle {
        endpoint: "https://mint.example".to_string(),
    }));
    let instr = PaymentInstruction {
        text: "lnbc...".to_string(),
        id: "abc".to_string(),
    };
    let acts = app.update(Msg::InvoiceSet(2100, "21.00".to_string(), instr));
    assert_eq!(app.pending, vec!["abc".to_string()]);
    assert_eq!(
        acts,
        vec![Action::StartPoll(
            "https://mint.example".to_string(),
            2100,
            "abc".to_string()
        )]
    );
    match &app.view {
        ViewMode::AwaitingSettlement(i, d) => {
            assert_eq!(i.text, "lnbc...");
            assert_eq!(i.id, "abc");
            assert_eq!(d, "21.00");
        }
        other => panic!("unexpected view {:?}", other),
    }
}

#[test]
fn failed_attempts_keep_pending_until_settlement() {
    let (mut app, _) = App::create(None, None, Vec::new());
    app.update(Msg::WalletCreated(IssuerHandle {
        endpoint: "https://mint.example".to_string(),
    }));
    let instr = PaymentInstruction {
        text: "lnbc...".to_string(),
        id: "abc".to_string(),
    };
    app.update(Msg::InvoiceSet(2100, "21.00".to_string(), instr));

    let hash = "abc".to_string();
    for _ in 0..3 {
        let r = app.mint(
            "https://mint.example".to_string(),
            2100,
            &hash,
            AttemptOutcome::NotYet,
        );
        assert!(r.is_none());
        assert_eq!(app.pending, vec!["abc".to_string()]);
    }
    let proof = app
        .mint(
            "https://mint.example".to_string(),
            2100,
            &hash,
            AttemptOutcome::Settled("cashuAtoken".to_string()),
        )
        .expect("the settling attempt yields a proof");
    assert!(app.pending.is_empty());
    assert_eq!(proof.endpoint, "https://mint.example");
    assert_eq!(proof.amount, 2100);
    assert_eq!(proof.transport, "cashuAtoken");
}

#[test]
fn settlement_scenario_delivers_exactly_once() {
    // Amount 2100 at https://mint.example: three failed attempts, then a
    // settled one; the proof is delivered once, bound to endpoint and
    // amount.
    let (_rt, client) = fresh_client();
    let (mut app, _) = App::create(
        Some(Keys::generate()),
        Some("https://mint.example".to_string()),
        vec!["wss://relay.example/".to_string()],
    );
    app.update(Msg::WalletCreated(IssuerHandle {
        endpoint: "https://mint.example".to_string(),
    }));
    app.update(Msg::ClientCreated(client));
    assert_eq!(app.view, ViewMode::Checkout);

    let acts = app.update(Msg::AmountSet(2100, "21.00".to_string()));
    assert_eq!(acts, vec![Action::RequestInstruction(2100, "21.00".to_string())]);

    let instr = PaymentInstruction {
        text: "lnbc...".to_string(),
        id: "abc".to_string(),
    };
    let acts = app.update(Msg::InvoiceSet(2100, "21.00".to_string(), instr));
    assert_eq!(app.pending, vec!["abc".to_string()]);
    assert!(matches!(app.view, ViewMode::AwaitingSettlement(_, _)));
    let (endpoint, amount, id) = match &acts[0] {
        Action::StartPoll(e, a, i) => (e.clone(), *a, i.clone()),
        other => panic!("unexpected action {:?}", other),
    };

    for _ in 0..3 {
        assert!(app
            .mint(endpoint.clone(), amount, &id, AttemptOutcome::NotYet)
            .is_none());
    }
    let proof = app
        .mint(
            endpoint,
            amount,
            &id,
            AttemptOutcome::Settled("cashuAtoken".to_string()),
        )
        .unwrap();
    assert!(app.pending.is_empty());
    assert_eq!(proof.endpoint, "https://mint.example");
    assert_eq!(proof.amount, 2100);

    let acts = app.update(Msg::InvoicePaid(2100, proof));
    assert_eq!(app.view, ViewMode::SettlementConfirmed);
    let delivers: Vec<_> = acts
        .iter()
        .filter(|a| matches!(a, Action::Deliver(_)))
        .collect();
    assert_eq!(delivers.len(), 1);
    match delivers[0] {
        Action::Deliver(p) => {
            assert_eq!(p.endpoint, "https://mint.example");
            assert_eq!(p.amount, 2100);
        }
        _ => unreachable!(),
    }
}

#[test]
fn settlement_without_messaging_delivers_nothing() {
    let (mut app, _) = App::create(None, None, Vec::new());
    app.update(Msg::WalletCreated(IssuerHandle {
        endpoint: "https://mint.example".to_string(),
    }));
    let instr = PaymentInstruction {
        text: "lnbc...".to_string(),
        id: "abc".to_string(),
    };
    app.update(Msg::InvoiceSet(2100, "21.00".to_string(), instr));
    let hash = "abc".to_string();
    let proof = app
        .mint(
            "https://mint.example".to_string(),
            2100,
            &hash,
            AttemptOutcome::Settled("cashuAtoken".to_string()),
        )
        .unwrap();
    let acts = app.update(Msg::InvoicePaid(2100, proof));
    assert_eq!(app.view, ViewMode::SettlementConfirmed);
    assert!(acts.is_empty());
}
