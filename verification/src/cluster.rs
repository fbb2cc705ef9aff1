use vstd::prelude::*;

verus! {

/// A cluster that the router can talk to, with its HTTP and WebSocket URLs.
/// The four named clusters have fixed URL pairs; `Custom` carries its own.
#[derive(Clone, Debug, PartialEq, Eq)]
pub enum RpcCluster {
    Devnet,
    Mainnet,
    Testnet,
    Development,
    Custom(String, String),
}

impl RpcCluster {
    /// The HTTP URL of this cluster, as text.
    pub open spec fn url_spec(&self) -> Seq<char> {
        match self {
            RpcCluster::Devnet => "https://api.devnet.solana.com"@,
            RpcCluster::Mainnet => "https://api.mainnet-beta.solana.com"@,
            RpcCluster::Testnet => "https://api.testnet.solana.com"@,
            RpcCluster::Development => "http://localhost:8899"@,
            RpcCluster::Custom(url, _) => url@,
        }
    }

    /// The WebSocket URL of this cluster, as text.
    pub open spec fn ws_url_spec(&self) -> Seq<char> {
        match self {
            RpcCluster::Devnet => "wss://api.devnet.solana.com/"@,
            RpcCluster::Mainnet => "wss://api.mainnet-beta.solana.com/"@,
            RpcCluster::Testnet => "wss://api.testnet.solana.com/"@,
            RpcCluster::Development => "ws://localhost:8900"@,
            RpcCluster::Custom(_, ws_url) => ws_url@,
        }
    }

    /// The HTTP endpoint requests to this cluster are sent to.
    pub fn url(&self) -> (r: &str)
        ensures
            r@ == self.url_spec(),
    {
        match self {
            RpcCluster::Devnet => "https://api.devnet.solana.com",
            RpcCluster::Mainnet => "https://api.mainnet-beta.solana.com",
            RpcCluster::Testnet => "https://api.testnet.solana.com",
            RpcCluster::Development => "http://localhost:8899",
            RpcCluster::Custom(url, _) => url.as_str(),
        }
    }

    /// The WebSocket endpoint subscriptions to this cluster go through.
    pub fn ws_url(&self) -> (r: String)
        ensures
            r@ == self.ws_url_spec(),
    {
        match self {
            RpcCluster::Devnet => "wss://api.devnet.solana.com/".to_owned(),
            RpcCluster::Mainnet => "wss://api.mainnet-beta.solana.com/".to_owned(),
            RpcCluster::Testnet => "wss://api.testnet.solana.com/".to_owned(),
            RpcCluster::Development => "ws://localhost:8900".to_owned(),
            RpcCluster::Custom(_, ws_url) => ws_url.clone(),
        }
    }
}

impl Default for RpcCluster {
    /// The cluster assumed when none is configured.
    fn default() -> (r: RpcCluster)
        ensures
            r is Devnet,
    {
        RpcCluster::Devnet
    }
}

} // verus!
