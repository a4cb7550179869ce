//! Client for the L402 payment-challenge protocol: challenge parsing, the
//! credential that answers a challenge, the authenticator's state machine and
//! the rules of the Lightning payment backends that settle invoices.

pub mod config;
pub mod encoding;
pub mod http;
pub mod lightning;
pub mod models;
pub mod token_manager;
