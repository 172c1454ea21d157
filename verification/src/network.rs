//! Bitcoin networks and the servers the wallet talks to on each.

use vstd::prelude::*;

verus! {

/// Electrum server of the BiHelix testnet deployment: the server the wallet
/// talks to when no `--electrum` server is given.
pub const ELECTRUM_URL: &'static str = "bihelix-testnet-electrs.iftas.tech:50001";
/// Public Electrum server used for mainnet.
pub const MAINNET_ELECTRUM_URL: &'static str = "blockstream.info:110";
/// Public Electrum server used for testnet3.
pub const TESTNET_ELECTRUM_URL: &'static str = "blockstream.info:143";

/// A Bitcoin network.
#[derive(Clone, Copy, Debug, PartialEq, Eq, Structural)]
pub enum Network {
    /// Bitcoin mainnet.
    Mainnet,
    /// Bitcoin testnet3.
    Testnet3,
    /// Signet.
    Signet,
    /// Local regression-test network.
    Regtest,
}

/// The Electrum server the `rgb` command uses by default on `network`, where
/// it has one.
pub open spec fn default_electrum_spec(network: Network) -> Option<Seq<char>> {
    match network {
        Network::Mainnet => Some(MAINNET_ELECTRUM_URL@),
        Network::Testnet3 => Some(TESTNET_ELECTRUM_URL@),
        _ => None,
    }
}

/// The Electrum server the `rgb` command requires before it runs: the one
/// given with `--electrum`, else the default of the network; `None` where
/// neither exists (the command then stops with "No electrum server for this
/// network"). The connections themselves go to `connection_server_spec`.
pub open spec fn electrum_server_spec(electrum: Option<Seq<char>>, network: Network) -> Option<
    Seq<char>,
> {
    match electrum {
        Some(e) => Some(e),
        None => default_electrum_spec(network),
    }
}

/// The view of an optional string.
pub open spec fn opt_text(s: Option<String>) -> Option<Seq<char>> {
    match s {
        Some(t) => Some(t@),
        None => None,
    }
}

/// The Electrum server the `rgb` command requires before it runs.
pub fn electrum_server(electrum: Option<String>, network: Network) -> (r: Option<String>)
    ensures
        opt_text(r) == electrum_server_spec(opt_text(electrum), network),
{
    match electrum {
        Some(e) => Some(e),
        None => match network {
            Network::Mainnet => Some(String::from_str(MAINNET_ELECTRUM_URL)),
            Network::Testnet3 => Some(String::from_str(TESTNET_ELECTRUM_URL)),
            _ => None,
        },
    }
}

/// Server and network a contract resolver is opened on.
pub struct ResolverEndpoint {
    /// Electrum server address.
    pub url: String,
    /// Network the server is checked against.
    pub network: Network,
}

/// The Electrum server the wallet syncs, broadcasts and validates
/// consignments through: the one given with `--electrum`, else the BiHelix
/// testnet server.
pub open spec fn connection_server_spec(electrum: Option<Seq<char>>) -> Seq<char> {
    match electrum {
        Some(e) => e,
        None => ELECTRUM_URL@,
    }
}

/// The Electrum server the wallet syncs, broadcasts and validates
/// consignments through.
pub fn connection_server(electrum: &Option<String>) -> (r: String)
    ensures
        r@ == connection_server_spec(opt_text(*electrum)),
{
    match electrum {
        Some(e) => e.clone(),
        None => String::from_str(ELECTRUM_URL),
    }
}

/// The resolver a contract is imported with: on the server given with
/// `--electrum` when there is one, else on the BiHelix testnet server for a
/// test network (`testnet`) and the public mainnet server otherwise; checked
/// against testnet3 or mainnet.
pub fn resolver_endpoint(electrum: &Option<String>, testnet: bool) -> (r: ResolverEndpoint)
    ensures
        electrum matches Some(e) ==> r.url@ == e@,
        electrum is None && testnet ==> r.url@ == ELECTRUM_URL@,
        electrum is None && !testnet ==> r.url@ == MAINNET_ELECTRUM_URL@,
        testnet ==> r.network == Network::Testnet3,
        !testnet ==> r.network == Network::Mainnet,
{
    let url = match electrum {
        Some(e) => e.clone(),
        None => if testnet {
            String::from_str(ELECTRUM_URL)
        } else {
            String::from_str(MAINNET_ELECTRUM_URL)
        },
    };
    if testnet {
        ResolverEndpoint { url, network: Network::Testnet3 }
    } else {
        ResolverEndpoint { url, network: Network::Mainnet }
    }
}

/// The kind of blockchain indexer a wallet syncs through.
#[derive(Clone, Copy, Debug, PartialEq, Eq, Structural)]
pub enum IndexerKind {
    /// An Electrum server.
    Electrum,
    /// An Esplora HTTP server.
    Esplora,
    /// A mempool.space server.
    Mempool,
}

/// What is done with a signed transaction that is to be broadcast.
#[derive(Clone, Copy, Debug, PartialEq, Eq, Structural)]
pub enum BroadcastRoute {
    /// Send the raw transaction through the Electrum server.
    Electrum,
    /// Do not send it (broadcasting through Esplora is not done).
    Skip,
}

/// How a transaction is broadcast through an indexer of the given kind.
/// Only Electrum and Esplora indexers are used by the tool.
pub fn broadcast_route(kind: IndexerKind) -> (r: BroadcastRoute)
    requires
        kind != IndexerKind::Mempool,
    ensures
        kind == IndexerKind::Electrum ==> r == BroadcastRoute::Electrum,
        kind == IndexerKind::Esplora ==> r == BroadcastRoute::Skip,
{
    match kind {
        IndexerKind::Electrum => BroadcastRoute::Electrum,
        _ => BroadcastRoute::Skip,
    }
}

} // verus!
