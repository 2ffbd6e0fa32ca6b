//! Session orchestrator for a point-of-sale checkout flow.
//!
//! The library holds the session state needed to accept a payment — a payee
//! identity, a binding to a value-issuing service, a set of message-relay
//! endpoints — derives the view mode a host should render from that state,
//! and decides the payment workflow: request a payment instruction, poll
//! until it settles, then hand the resulting bearer proof to delivery.
//!
//! All network traffic, persistence and rendering stay with the host: the
//! host dispatches events into the session and performs the actions it
//! returns.

mod session;
mod strset;
mod urls;
mod utls;
mod views;
mod workflow;

pub use session::{Action, App, IssuerHandle, Msg};
pub use strset::{
    distinct_strs, has_str, insert_str_spec, lemma_insert_str_idempotent, lemma_insert_then_remove,
};
pub use urls::url_normal_of;
pub use utls::{handle_keys, sk_str_ok, KeyError};
pub use views::{derive_view, lemma_view_of_triple, spec_derive_view, ViewMode};
pub use workflow::{AttemptOutcome, BearerProof, PaymentInstruction};
