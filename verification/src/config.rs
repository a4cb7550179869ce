//! The addresses that the client is configured with.

use vstd::prelude::*;

verus! {

/// The wallets that can pay invoices for the client.
#[derive(Clone, Copy, Debug, PartialEq, Eq, Structural)]
pub enum LightningBackend {
    Alby,
}

impl Default for LightningBackend {
    fn default() -> (backend: LightningBackend)
        ensures
            backend == LightningBackend::Alby,
    {
        LightningBackend::Alby
    }
}

impl LightningBackend {
    /// The address at which the backend pays invoices.
    pub open spec fn endpoint_text(&self) -> Seq<char> {
        match self {
            LightningBackend::Alby => "https://api.getalby.com/payments/bolt11"@,
        }
    }

    /// The backend's name.
    pub open spec fn name_text(&self) -> Seq<char> {
        match self {
            LightningBackend::Alby => "alby"@,
        }
    }

    /// The address at which the backend pays invoices.
    pub fn endpoint(&self) -> (address: String)
        ensures
            address@ == self.endpoint_text(),
    {
        match self {
            LightningBackend::Alby => String::from_str("https://api.getalby.com/payments/bolt11"),
        }
    }

    /// The backend's name, in lower case.
    pub fn name(&self) -> (name: String)
        ensures
            name@ == self.name_text(),
    {
        match self {
            LightningBackend::Alby => String::from_str("alby"),
        }
    }
}

/// The client's configuration.
#[derive(Debug)]
pub struct Config {
    pub root_url: String,
    pub matador_url: String,
    pub audience: String,
    pub lightning_backend: LightningBackend,
}

impl Config {
    /// Whether the configuration is the stock one.
    pub open spec fn is_stock(&self) -> bool {
        &&& self.root_url@ == "https://production-modelfarm.replit.com"@
        &&& self.matador_url@ == "https://matador-replit.kody.repl.co/replit"@
        &&& self.audience@ == "modelfarm@replit.com"@
        &&& self.lightning_backend == LightningBackend::Alby
    }

    /// The stock configuration.
    pub fn new() -> (config: Config)
        ensures
            config.is_stock(),
    {
        Config {
            root_url: String::from_str("https://production-modelfarm.replit.com"),
            matador_url: String::from_str("https://matador-replit.kody.repl.co/replit"),
            audience: String::from_str("modelfarm@replit.com"),
            lightning_backend: LightningBackend::Alby,
        }
    }
}

/// The configuration in force: the stock one.
pub fn get_config() -> (config: Config)
    ensures
        config.is_stock(),
{
    Config::new()
}

} // verus!
