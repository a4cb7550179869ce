//! The L402 client: challenge header, credential and authenticator.

pub mod challenge;
pub mod l402_client;
