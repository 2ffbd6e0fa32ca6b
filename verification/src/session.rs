use vstd::prelude::*;

use nostr_sdk::Client;
use nostr_sdk::Keys;

use crate::strset::{
    copy_strs, distinct_strs, has_str, insert_str, insert_str_spec, remove_str,
};
use crate::urls::{normalize_url, url_normal_of};
use crate::views::{derive_view, spec_derive_view, ViewMode};
use crate::workflow::{AttemptOutcome, BearerProof, PaymentInstruction};

verus! {

/// The binding to one value-issuing service. It is rebuilt wholesale by
/// provisioning whenever the endpoint changes; the live protocol client
/// bound to the endpoint's fetched signing keys stays with the host.
#[derive(Debug, PartialEq, Eq)]
pub struct IssuerHandle {
    /// The endpoint the handle is bound to, as a normalized URL.
    pub endpoint: String,
}

/// One dispatched event. Every session mutation is the handling of exactly
/// one of these; the host's spawned work reports back by dispatching more
/// of them.
pub enum Msg {
    /// The user set the payee identity to receive bearer proofs.
    NostrRecKeySet(Keys),
    /// The user chose a value-issuer endpoint.
    MintUrlSet(String),
    /// Messaging provisioning completed and produced a connected client.
    ClientCreated(Client),
    /// Issuer provisioning completed and produced a handle.
    WalletCreated(IssuerHandle),
    /// The user submitted an amount, with its display string.
    AmountSet(u64, String),
    /// The issuer returned a payment instruction for the amount.
    InvoiceSet(u64, String, PaymentInstruction),
    /// A settlement poll produced a bearer proof for the amount.
    InvoicePaid(u64, BearerProof),
    /// The user asked to add a message-relay endpoint, as typed.
    AddRelay(String),
    /// The user finished editing the relay set.
    RelaysSet,
    /// The user asked for the home view.
    Home,
    /// The user asked for the settings view.
    Settings,
    /// The user asked for the relay-editing view.
    AddRelayView,
    /// The user asked for the issuer-selection view.
    SetMintView,
    /// The user asked for the payee-selection view.
    SetPubkeyView,
}

/// Work the host must perform after a dispatch: network calls, timers and
/// persistence that the session itself never touches.
#[derive(Debug, PartialEq, Eq)]
pub enum Action {
    /// Fetch the signing keys at the endpoint and, on success, dispatch
    /// `Msg::WalletCreated`.
    ProvisionIssuer(String),
    /// Open a messaging client, add and connect the given relays
    /// best-effort, and dispatch `Msg::ClientCreated`.
    ProvisionMessaging(Vec<String>),
    /// Ask the issuer for a payment instruction over the amount and, on
    /// success, dispatch `Msg::InvoiceSet` with the display string.
    RequestInstruction(u64, String),
    /// Poll the issuer bound to the endpoint for settlement of the
    /// instruction id, feeding each outcome to [`App::mint`].
    StartPoll(String, u64, String),
    /// Send the proof's transport string to the payee over the messaging
    /// client.
    Deliver(BearerProof),
    /// Persist the payee identity.
    PersistPayee,
    /// Persist the issuer endpoint.
    PersistEndpoint(String),
    /// Persist the relay set.
    PersistRelays,
    /// Add and connect the relay on the live messaging client,
    /// best-effort.
    ConnectRelay(String),
}

/// The session: the one mutable record of the checkout flow. All fields
/// change only through [`App::create`], [`App::update`] and [`App::mint`].
pub struct App {
    /// The view mode a host should render.
    pub view: ViewMode,
    /// The payee identity that settled proofs are delivered to.
    pub payee: Option<Keys>,
    /// The issuer binding, absent until provisioning completes.
    pub issuer: Option<IssuerHandle>,
    /// The messaging client, absent until provisioning completes.
    pub messaging: Option<Client>,
    /// The message-relay endpoints, normalized and pairwise distinct.
    pub relays: Vec<String>,
    /// The ids of instructions awaiting settlement, pairwise distinct.
    pub pending: Vec<String>,
}

impl App {
    /// The relay and pending-instruction lists carry sets: no duplicates.
    pub open spec fn wf(self) -> bool {
        &&& distinct_strs(self.relays@)
        &&& distinct_strs(self.pending@)
    }

    /// The view mode owed to the session's current presence triple.
    pub open spec fn derived_view(self) -> ViewMode {
        spec_derive_view(self.payee is Some, self.issuer is Some, self.relays@.len() == 0)
    }

    /// Everything but the view mode agrees between the two sessions.
    pub open spec fn same_data(self, other: App) -> bool {
        &&& self.payee == other.payee
        &&& self.issuer == other.issuer
        &&& self.messaging == other.messaging
        &&& self.relays@ == other.relays@
        &&& self.pending@ == other.pending@
    }

    /// Derive the view mode from the current state, as the table says.
    pub fn app_view(&self) -> (r: ViewMode)
        ensures
            r == self.derived_view(),
    {
        derive_view(self.payee.is_some(), self.issuer.is_some(), self.relays.len() == 0)
    }

    /// Recompute the cached view mode from the current state.
    fn refresh_view(&mut self)
        ensures
            old(self).same_data(*final(self)),
            final(self).view == final(self).derived_view(),
    {
        let v = self.app_view();
        self.view = v;
    }

    /// Build the session from persisted configuration and say what to
    /// provision. The relay list is taken as a set; the initial view is
    /// derived with the persisted endpoint standing in for the issuer
    /// binding it will become, so a session with endpoint and payee but no
    /// relays starts at relay selection, not checkout.
    pub fn create(payee: Option<Keys>, endpoint: Option<String>, relays: Vec<String>) -> (r: (
        App,
        Vec<Action>,
    ))
        ensures
            r.0.wf(),
            r.0.payee == payee,
            r.0.issuer is None,
            r.0.messaging is None,
            r.0.pending@ == Seq::<String>::empty(),
            forall|y: Seq<char>| has_str(r.0.relays@, y) == has_str(relays@, y),
            (r.0.relays@.len() == 0) == (relays@.len() == 0),
            r.0.view == spec_derive_view(payee is Some, endpoint is Some, relays@.len() == 0),
            endpoint matches Some(e) ==> (payee is Some ==> r.1@.len() == 2 && (r.1@[0]
                matches Action::ProvisionMessaging(rs) && rs@ == r.0.relays@) && r.1@[1]
                == Action::ProvisionIssuer(e)) && (payee is None ==> r.1@.len() == 1 && r.1@[0]
                == Action::ProvisionIssuer(e)),
            endpoint is None ==> r.1@.len() == 0,
    {
        let mut rset: Vec<String> = Vec::new();
        let mut i: usize = 0;
        while i < relays.len()
            invariant
                0 <= i <= relays@.len(),
                distinct_strs(rset@),
                forall|y: Seq<char>| has_str(rset@, y) ==> has_str(relays@, y),
                forall|k: int| 0 <= k < i ==> #[trigger] has_str(rset@, relays@[k]@),
            decreases relays@.len() - i,
        {
            let x = relays[i].clone();
            proof {
                assert(has_str(relays@, relays@[i as int]@));
            }
            insert_str(&mut rset, x);
            i += 1;
        }
        proof {
            assert forall|y: Seq<char>| has_str(relays@, y) implies has_str(rset@, y) by {
                let k = choose|k: int| 0 <= k < relays@.len() && #[trigger] relays@[k]@ == y;
                assert(has_str(rset@, relays@[k]@));
            }
            if relays@.len() > 0 {
                assert(has_str(relays@, relays@[0]@));
            }
            if rset@.len() > 0 {
                assert(has_str(rset@, rset@[0]@));
            }
        }
        let view = derive_view(payee.is_some(), endpoint.is_some(), rset.len() == 0);
        let mut acts: Vec<Action> = Vec::new();
        match (&endpoint, &payee) {
            (Some(url), Some(_)) => {
                acts.push(Action::ProvisionMessaging(copy_strs(&rset)));
                acts.push(Action::ProvisionIssuer(url.clone()));
            },
            (Some(url), None) => {
                acts.push(Action::ProvisionIssuer(url.clone()));
            },
            _ => {},
        }
        let app = App {
            view,
            payee,
            issuer: None,
            messaging: None,
            relays: rset,
            pending: Vec::new(),
        };
        (app, acts)
    }

    /// Handle one dispatched event: mutate the session and say what the
    /// host must do next. The relay set only ever grows; handles are only
    /// ever set or replaced wholesale; the pending set changes here only
    /// when an instruction arrives.
    pub fn update(&mut self, msg: Msg) -> (acts: Vec<Action>)
        requires
            old(self).wf(),
        ensures
            final(self).wf(),
            old(self).payee is Some ==> final(self).payee is Some,
            old(self).issuer is Some ==> final(self).issuer is Some,
            old(self).messaging is Some ==> final(self).messaging is Some,
            forall|y: Seq<char>|
                has_str(old(self).relays@, y) ==> has_str(final(self).relays@, y),
            !(msg is InvoiceSet) ==> final(self).pending@ == old(self).pending@,
            !(msg is AddRelay) ==> final(self).relays@ == old(self).relays@,
            msg matches Msg::NostrRecKeySet(k) ==> final(self).payee == Some(k) && final(self).issuer == old(self).issuer && final(self).messaging == old(self).messaging && final(self).view == final(self).derived_view() && acts@ =~= seq![Action::PersistPayee],
            msg matches Msg::MintUrlSet(u) ==> *final(self) == *old(self) && acts@ =~= seq![
                Action::PersistEndpoint(u),
                Action::ProvisionIssuer(u),
            ],
            msg matches Msg::ClientCreated(c) ==> final(self).messaging == Some(c) && final(self).payee == old(self).payee && final(self).issuer == old(self).issuer && final(self).view == final(self).derived_view() && acts@.len() == 0,
            msg matches Msg::WalletCreated(h) ==> final(self).issuer == Some(h) && final(self).payee == old(self).payee && final(self).messaging == old(self).messaging && final(self).view == final(self).derived_view() && acts@.len() == 0,
            msg matches Msg::AmountSet(amount, d) ==> *final(self) == *old(self) && (old(self).issuer is Some ==> acts@ =~= seq![Action::RequestInstruction(amount, d)]) && (old(self).issuer is None ==> acts@.len() == 0),
            msg matches Msg::InvoiceSet(amount, display, instr) ==> final(self).pending@
                == insert_str_spec(old(self).pending@, instr.id) && has_str(
                final(self).pending@,
                instr.id@,
            ) && final(self).view == ViewMode::AwaitingSettlement(instr, display) && final(self).payee == old(self).payee && final(self).issuer == old(self).issuer && final(self).messaging == old(self).messaging && (old(self).issuer matches Some(h) ==> acts@
                =~= seq![Action::StartPoll(h.endpoint, amount, instr.id)]) && (old(self).issuer is None ==> acts@.len() == 0),
            msg matches Msg::InvoicePaid(amount, proof) ==> final(self).view
                == ViewMode::SettlementConfirmed && old(self).same_data(*final(self)) && (old(self).payee is Some && old(self).messaging is Some ==> acts@ =~= seq![
                Action::Deliver(proof),
            ]) && (!(old(self).payee is Some && old(self).messaging is Some) ==> acts@.len()
                == 0),
            msg matches Msg::AddRelay(raw) ==> final(self).payee == old(self).payee && final(self).issuer == old(self).issuer && final(self).messaging == old(self).messaging && final(self).pending@ == old(self).pending@ && (url_normal_of(raw@) is None ==> *final(self)
                == *old(self) && acts@.len() == 0) && (url_normal_of(raw@) matches Some(n)
                ==> has_str(final(self).relays@, n) && (has_str(old(self).relays@, n) ==> final(self).relays@.len() == old(self).relays@.len()) && (!has_str(old(self).relays@, n)
                ==> final(self).relays@.len() == old(self).relays@.len() + 1) && (forall|
                y: Seq<char>,
            |
                y != n ==> has_str(final(self).relays@, y) == has_str(old(self).relays@, y))
                && final(self).view == final(self).derived_view() && acts@.len() == 2 && acts@[0]
                == Action::PersistRelays && (acts@[1] matches Action::ConnectRelay(u) && u@ == n)),
            msg is RelaysSet ==> old(self).same_data(*final(self)) && final(self).view == final(self).derived_view() && acts@.len() == 0,
            msg is Home ==> old(self).same_data(*final(self)) && final(self).view == final(self).derived_view() && acts@.len() == 0,
            msg is Settings ==> old(self).same_data(*final(self)) && final(self).view
                == ViewMode::Settings && acts@.len() == 0,
            msg is AddRelayView ==> old(self).same_data(*final(self)) && final(self).view
                == ViewMode::SelectRelays && acts@.len() == 0,
            msg is SetMintView ==> old(self).same_data(*final(self)) && final(self).view
                == ViewMode::SelectIssuer && acts@.len() == 0,
            msg is SetPubkeyView ==> old(self).same_data(*final(self)) && final(self).view
                == ViewMode::SelectPayee && acts@.len() == 0,
    {
        let mut acts: Vec<Action> = Vec::new();
        match msg {
            Msg::NostrRecKeySet(k) => {
                self.payee = Some(k);
                self.refresh_view();
                acts.push(Action::PersistPayee);
            },
            Msg::MintUrlSet(u) => {
                acts.push(Action::PersistEndpoint(u.clone()));
                acts.push(Action::ProvisionIssuer(u));
            },
            Msg::ClientCreated(c) => {
                self.messaging = Some(c);
                self.refresh_view();
            },
            Msg::WalletCreated(h) => {
                self.issuer = Some(h);
                self.refresh_view();
            },
            Msg::AmountSet(amount, display) => {
                if self.issuer.is_some() {
                    acts.push(Action::RequestInstruction(amount, display));
                }
            },
            Msg::InvoiceSet(amount, display, instr) => {
                let id_for_pending = instr.id.clone();
                insert_str(&mut self.pending, id_for_pending);
                match &self.issuer {
                    Some(h) => {
                        acts.push(
                            Action::StartPoll(h.endpoint.clone(), amount, instr.id.clone()),
                        );
                    },
                    None => {},
                }
                self.view = ViewMode::AwaitingSettlement(instr, display);
            },
            Msg::InvoicePaid(_amount, proof) => {
                self.view = ViewMode::SettlementConfirmed;
                if self.payee.is_some() && self.messaging.is_some() {
                    acts.push(Action::Deliver(proof));
                }
            },
            Msg::AddRelay(raw) => {
                match normalize_url(&raw) {
                    Some(u) => {
                        let connect_to = u.clone();
                        insert_str(&mut self.relays, u);
                        self.refresh_view();
                        acts.push(Action::PersistRelays);
                        acts.push(Action::ConnectRelay(connect_to));
                    },
                    None => {},
                }
            },
            Msg::RelaysSet => {
                self.refresh_view();
            },
            Msg::Home => {
                self.refresh_view();
            },
            Msg::Settings => {
                self.view = ViewMode::Settings;
            },
            Msg::AddRelayView => {
                self.view = ViewMode::SelectRelays;
            },
            Msg::SetMintView => {
                self.view = ViewMode::SelectIssuer;
            },
            Msg::SetPubkeyView => {
                self.view = ViewMode::SelectPayee;
            },
        }
        acts
    }

    /// Handle one settlement attempt of the poll loop for the instruction
    /// `hash`, requested for `amount` from the issuer at `endpoint`. A
    /// failed or not-yet-settled attempt changes nothing and the loop goes
    /// on; the settling attempt removes the id — exactly once — and yields
    /// the bearer proof, bound to the endpoint and amount, for delivery.
    pub fn mint(
        &mut self,
        endpoint: String,
        amount: u64,
        hash: &String,
        outcome: AttemptOutcome,
    ) -> (r: Option<BearerProof>)
        requires
            old(self).wf(),
        ensures
            final(self).wf(),
            outcome is NotYet ==> *final(self) == *old(self) && r is None,
            outcome matches AttemptOutcome::Settled(payload) ==> r matches Some(p) && p.endpoint
                == endpoint && p.amount == amount && p.transport == payload,
            outcome is Settled ==> !has_str(final(self).pending@, hash@) && (forall|y: Seq<char>|
                y != hash@ ==> has_str(final(self).pending@, y) == has_str(
                    old(self).pending@,
                    y,
                )) && (has_str(old(self).pending@, hash@) ==> final(self).pending@.len() == old(self).pending@.len() - 1) && (!has_str(old(self).pending@, hash@) ==> final(self).pending@
                == old(self).pending@) && final(self).view == old(self).view && final(self).payee
                == old(self).payee && final(self).issuer == old(self).issuer && final(self).messaging == old(self).messaging && final(self).relays@ == old(self).relays@,
    {
        match outcome {
            AttemptOutcome::Settled(payload) => {
                remove_str(&mut self.pending, hash);
                Some(BearerProof { endpoint, amount, transport: payload })
            },
            AttemptOutcome::NotYet => None,
        }
    }
}

} // verus!
