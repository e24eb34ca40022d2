//! Network endpoints: the fixed named servers, custom servers given by
//! URL, and the absence of an endpoint for offline runs.

use vstd::prelude::*;

verus! {

/// A custom server URL is accepted exactly when it is non-empty.
pub open spec fn valid_url(s: Seq<char>) -> bool {
    s.len() > 0
}

/// A syntactically accepted RPC server URL.
#[derive(Debug)]
pub struct AvailableRpcServerUrl {
    url: String,
}

impl View for AvailableRpcServerUrl {
    type V = Seq<char>;

    closed spec fn view(&self) -> Seq<char> {
        self.url@
    }
}

impl Clone for AvailableRpcServerUrl {
    fn clone(&self) -> (r: Self)
        ensures
            r == *self,
    {
        proof {
            use_type_invariant(self);
        }
        AvailableRpcServerUrl { url: self.url.clone() }
    }
}

impl AvailableRpcServerUrl {
    /// Every value of this type is non-empty.
    #[verifier::type_invariant]
    pub open spec fn wf(&self) -> bool {
        valid_url(self@)
    }

    /// Accepts `s` exactly when it is non-empty.
    pub fn parse(s: &str) -> (r: Option<AvailableRpcServerUrl>)
        ensures
            r is Some <==> valid_url(s@),
            r matches Some(u) ==> u@ == s@ && u.wf(),
    {
        if s.unicode_len() > 0 {
            Some(AvailableRpcServerUrl { url: s.to_owned() })
        } else {
            None
        }
    }

    /// The textual form.
    pub fn as_text(&self) -> (r: &str)
        ensures
            r@ == self@,
    {
        self.url.as_str()
    }
}

/// A reachable endpoint: one of the fixed named servers, or a custom URL.
#[derive(Debug)]
pub enum ConnectionConfig {
    Testnet,
    Mainnet,
    Betanet,
    Custom { url: AvailableRpcServerUrl },
}

impl Clone for ConnectionConfig {
    fn clone(&self) -> (r: Self)
        ensures
            r == *self,
    {
        match self {
            ConnectionConfig::Testnet => ConnectionConfig::Testnet,
            ConnectionConfig::Mainnet => ConnectionConfig::Mainnet,
            ConnectionConfig::Betanet => ConnectionConfig::Betanet,
            ConnectionConfig::Custom { url } => ConnectionConfig::Custom { url: url.clone() },
        }
    }
}

/// The address queried for an endpoint.
pub open spec fn spec_rpc_url(c: &ConnectionConfig) -> Seq<char> {
    match c {
        ConnectionConfig::Testnet => "https://rpc.testnet.near.org"@,
        ConnectionConfig::Mainnet => "https://rpc.mainnet.near.org"@,
        ConnectionConfig::Betanet => "https://rpc.betanet.near.org"@,
        ConnectionConfig::Custom { url } => url@,
    }
}

impl ConnectionConfig {
    /// An endpoint resolved from a custom URL.
    pub fn from_custom_url(url: &AvailableRpcServerUrl) -> (r: ConnectionConfig)
        ensures
            r == (ConnectionConfig::Custom { url: *url }),
    {
        ConnectionConfig::Custom { url: url.clone() }
    }

    /// The address this endpoint is queried at.
    pub fn rpc_url(&self) -> (r: String)
        ensures
            r@ == spec_rpc_url(self),
    {
        match self {
            ConnectionConfig::Testnet => String::from_str("https://rpc.testnet.near.org"),
            ConnectionConfig::Mainnet => String::from_str("https://rpc.mainnet.near.org"),
            ConnectionConfig::Betanet => String::from_str("https://rpc.betanet.near.org"),
            ConnectionConfig::Custom { url } => String::from_str(url.as_text()),
        }
    }
}

} // verus!
