//! A connectivity probe for remote-desktop servers: it decides whether a full
//! protocol session can be opened with a given host, port and credentials.
//!
//! The library holds the probe's own logic: the fixed connection profile that
//! the client presents, the endpoint text handed to the address parser, and
//! the state machine that sequences transport set-up and handshake and
//! classifies the outcome. The socket and the handshake itself are driven by
//! the caller, which reports each step's result back to the state machine.

mod profile;

pub use profile::{ConnectionProfile, CLIENT_NAME, SCREEN_HEIGHT, SCREEN_WIDTH};
mod transport;

pub use transport::{endpoint_text, TransportError, CONNECT_TIMEOUT_SECS};
mod probe;

pub use probe::{Action, ProbeError, Stage, StepResult};
mod laws;

pub use laws::{
    lemma_connect_bounded, lemma_invalid_address_stays_offline, lemma_outcome_classified,
    lemma_outcome_repeatable,
};
