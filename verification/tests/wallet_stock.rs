use bihelix::accept::{AcceptRetry, AcceptStep};
use bihelix::command::{
    close_method_for, handle_rgb_subcommand, BiHelixSubCommand, RgbAction, RgbCommandError, ISSUE_PRECISION,
};
use bihelix::network::{
    broadcast_route, connection_server, electrum_server, resolver_endpoint, BroadcastRoute, IndexerKind, Network,
};
use bihelix::stock::{stock_source, StockData, StockSource};
use bihelix::wallet::{
    transfer_params, AddressCoins, BiHelixWallet, Beneficiary, CloseMethod, Outpoint, RgbWallet,
};

fn op(b: u8, vout: u32) -> Outpoint {
    Outpoint { txid: [b; 32], vout }
}

fn sample_wallet() -> BiHelixWallet {
    BiHelixWallet {
        wallet: RgbWallet {
            network: Network::Testnet3,
            rgb_addresses: vec!["tb1qfirst".to_string(), "tb1qsecond".to_string()],
            address_coins: vec![
                AddressCoins { address: "tb1qfirst".to_string(), outpoints: vec![op(1, 0), op(2, 1), op(1, 0)] },
                AddressCoins { address: "tb1qsecond".to_string(), outpoints: vec![op(2, 1), op(3, 7)] },
            ],
            stock_data: StockData { stash: vec![1, 2], index: vec![3], state: vec![4, 5, 6] },
        },
        account: "[00000000/86h/1h/0h]tpub/*/*".to_string(),
        stock: "stock".to_string(),
        wallet_name: "wallet".to_string(),
    }
}

fn key_of(o: &Outpoint) -> ([u8; 32], u32) {
    (o.txid, o.vout)
}

#[test]
fn get_address_is_first_rgb_address() {
    assert_eq!(sample_wallet().get_address(), "tb1qfirst");
}

#[test]
fn get_utxo_lists_each_outpoint_once() {
    let u: Vec<_> = sample_wallet().get_utxo().iter().map(key_of).collect();
    assert_eq!(u, vec![key_of(&op(1, 0)), key_of(&op(2, 1)), key_of(&op(3, 7))]);
    let mut w = sample_wallet();
    w.wallet.address_coins.clear();
    assert!(w.get_utxo().is_empty());
}

#[test]
fn store_then_load_gives_the_stock_back() {
    let w = sample_wallet();
    let batch = w.store_wallet("stockdb");
    assert_eq!(batch.db, "stockdb");
    let keys: Vec<&str> = batch.records.iter().map(|r| r.key.as_str()).collect();
    assert_eq!(keys, vec!["stash", "index", "state"]);
    let find = |k: &str| batch.records.iter().find(|r| r.key == k).map(|r| r.value.clone());
    match stock_source(find("stash"), find("index"), find("state")) {
        StockSource::Load(d) => {
            assert_eq!(d.stash, vec![1, 2]);
            assert_eq!(d.index, vec![3]);
            assert_eq!(d.state, vec![4, 5, 6]);
        }
        StockSource::InMemory => panic!("stock should load"),
    }
}

#[test]
fn missing_or_empty_parts_start_in_memory() {
    assert!(matches!(stock_source(None, Some(vec![1]), Some(vec![2])), StockSource::InMemory));
    assert!(matches!(stock_source(Some(vec![1]), Some(vec![]), Some(vec![2])), StockSource::InMemory));
    assert!(matches!(stock_source(None, None, None), StockSource::InMemory));
    assert!(matches!(stock_source(Some(vec![1]), Some(vec![2]), Some(vec![3])), StockSource::Load(_)));
}

#[test]
fn electrum_server_choice() {
    assert_eq!(electrum_server(None, Network::Mainnet).as_deref(), Some("blockstream.info:110"));
    assert_eq!(electrum_server(None, Network::Testnet3).as_deref(), Some("blockstream.info:143"));
    assert_eq!(electrum_server(None, Network::Signet), None);
    assert_eq!(electrum_server(None, Network::Regtest), None);
    assert_eq!(
        electrum_server(Some("my.server:1".to_string()), Network::Regtest).as_deref(),
        Some("my.server:1")
    );
}

#[test]
fn resolver_endpoints() {
    let t = resolver_endpoint(&None, true);
    assert_eq!(t.url, "bihelix-testnet-electrs.iftas.tech:50001");
    assert_eq!(t.network, Network::Testnet3);
    let m = resolver_endpoint(&None, false);
    assert_eq!(m.url, "blockstream.info:110");
    assert_eq!(m.network, Network::Mainnet);
    let g = resolver_endpoint(&Some("my.server:50001".to_string()), true);
    assert_eq!(g.url, "my.server:50001");
    assert_eq!(g.network, Network::Testnet3);
    let g = resolver_endpoint(&Some("my.server:50001".to_string()), false);
    assert_eq!(g.url, "my.server:50001");
    assert_eq!(g.network, Network::Mainnet);
}

#[test]
fn connections_default_to_the_bihelix_server() {
    assert_eq!(connection_server(&None), "bihelix-testnet-electrs.iftas.tech:50001");
    assert_eq!(connection_server(&Some("my.server:1".to_string())), "my.server:1");
}

#[test]
fn broadcast_routes() {
    assert_eq!(broadcast_route(IndexerKind::Electrum), BroadcastRoute::Electrum);
    assert_eq!(broadcast_route(IndexerKind::Esplora), BroadcastRoute::Skip);
}

#[test]
fn transfer_defaults() {
    let p = transfer_params(None, None);
    assert_eq!((p.fee, p.sats), (3000, 2000));
    let p = transfer_params(Some(10), Some(20));
    assert_eq!((p.fee, p.sats), (20, 10));
}

#[test]
fn invoice_beneficiaries() {
    let w = sample_wallet();
    let r = w.invoice("rgb:contract".to_string(), "RGB20".to_string(), 100, CloseMethod::OpretFirst, None, "transfer".to_string());
    assert_eq!(r.network, Network::Testnet3);
    assert_eq!(r.amount, 100);
    match r.beneficiary {
        Beneficiary::WitnessVout { address, method } => {
            assert_eq!(address, "tb1qfirst");
            assert_eq!(method, CloseMethod::OpretFirst);
        }
        _ => panic!("expected witness vout"),
    }
    let r = w.invoice("c".to_string(), "i".to_string(), 1, CloseMethod::TapretFirst, Some(op(9, 2)), "transfer".to_string());
    match r.beneficiary {
        Beneficiary::BlindedSeal { method, outpoint } => {
            assert_eq!(method, CloseMethod::TapretFirst);
            assert_eq!(key_of(&outpoint), key_of(&op(9, 2)));
        }
        _ => panic!("expected blinded seal"),
    }
}

#[test]
fn accept_retries_three_times_then_gives_up() {
    let mut r = AcceptRetry::new();
    assert_eq!(r.record(false), AcceptStep::Retry);
    assert_eq!(r.record(false), AcceptStep::Retry);
    assert_eq!(r.record(false), AcceptStep::Retry);
    assert_eq!(r.record(false), AcceptStep::GiveUp);
    let mut r = AcceptRetry::new();
    assert_eq!(r.record(false), AcceptStep::Retry);
    assert_eq!(r.record(true), AcceptStep::Done);
}

#[test]
fn close_method_names() {
    assert_eq!(close_method_for("opret"), CloseMethod::OpretFirst);
    assert_eq!(close_method_for("tapret"), CloseMethod::TapretFirst);
    assert_eq!(close_method_for("OPRET"), CloseMethod::TapretFirst);
}

fn action(
    network: Network,
    electrum: Option<&str>,
    c: BiHelixSubCommand,
    utxos: &Vec<Outpoint>,
) -> (String, RgbAction) {
    let p = handle_rgb_subcommand(network, electrum.map(|e| e.to_string()), c, utxos).expect("plan");
    (p.server, p.action)
}

#[test]
fn rgb_subcommand_uses_the_given_electrum_server() {
    let (server, _) = action(Network::Testnet3, Some("my.server:1"), BiHelixSubCommand::Contracts, &vec![]);
    assert_eq!(server, "my.server:1");
    let (server, _) = action(Network::Testnet3, None, BiHelixSubCommand::Contracts, &vec![]);
    assert_eq!(server, "bihelix-testnet-electrs.iftas.tech:50001");
    let (server, _) = action(Network::Mainnet, None, BiHelixSubCommand::Contracts, &vec![]);
    assert_eq!(server, "bihelix-testnet-electrs.iftas.tech:50001");
    let (server, _) = action(Network::Regtest, Some("local:50001"), BiHelixSubCommand::Contracts, &vec![]);
    assert_eq!(server, "local:50001");
    assert!(matches!(
        handle_rgb_subcommand(Network::Signet, None, BiHelixSubCommand::Contracts, &vec![]),
        Err(RgbCommandError::NoElectrumServer)
    ));
}

#[test]
fn rgb_subcommand_plans() {
    let utxos = vec![op(5, 1), op(6, 0)];
    match action(
        Network::Testnet3,
        None,
        BiHelixSubCommand::Issue {
            ticker: "USDT".to_string(),
            name: "Tether".to_string(),
            issued_supply: 1000,
            inflation_allowance: 0,
            method: "opret".to_string(),
        },
        &utxos,
    )
    .1
    {
        RgbAction::Issue(q) => {
            assert_eq!(q.ticker, "USDT");
            assert_eq!(q.name, "Tether");
            assert_eq!(q.issued_supply, 1000);
            assert_eq!(q.precision, ISSUE_PRECISION);
            assert_eq!(q.close_method, CloseMethod::OpretFirst);
            assert_eq!(key_of(&q.allocate_outpoint), key_of(&op(5, 1)));
            assert!(q.testnet);
        }
        _ => panic!("expected issue"),
    }
    match action(
        Network::Mainnet,
        None,
        BiHelixSubCommand::Issue {
            ticker: "T".to_string(),
            name: "N".to_string(),
            issued_supply: 1,
            inflation_allowance: 0,
            method: "tapret".to_string(),
        },
        &utxos,
    )
    .1
    {
        RgbAction::Issue(q) => assert!(!q.testnet),
        _ => panic!("expected issue"),
    }
    match action(
        Network::Testnet3,
        None,
        BiHelixSubCommand::Invoice {
            contract_id: "cid".to_string(),
            iface: "RGB20".to_string(),
            value: 42,
            seal: "ignored".to_string(),
            method: "tapret".to_string(),
            operation: "transfer".to_string(),
        },
        &utxos,
    )
    .1
    {
        RgbAction::Invoice { contract_id, value, close_method, outpoint, operation, .. } => {
            assert_eq!(contract_id, "cid");
            assert_eq!(value, 42);
            assert_eq!(close_method, CloseMethod::TapretFirst);
            assert_eq!(key_of(&outpoint), key_of(&op(5, 1)));
            assert_eq!(operation, "transfer");
        }
        _ => panic!("expected invoice"),
    }
    assert!(matches!(
        action(Network::Testnet3, None, BiHelixSubCommand::Contracts, &vec![]).1,
        RgbAction::ListContracts
    ));
    match action(Network::Testnet3, None, BiHelixSubCommand::Accept { file: "t.rgb".to_string() }, &vec![]).1 {
        RgbAction::Accept { file } => assert_eq!(file, "t.rgb"),
        _ => panic!("expected accept"),
    }
    match action(
        Network::Testnet3,
        None,
        BiHelixSubCommand::State { all: false, contract_id: "c".to_string(), iface: "RGB20".to_string(), address: None },
        &vec![],
    )
    .1
    {
        RgbAction::QueryState { contract_id, iface, all } => {
            assert_eq!(contract_id, "c");
            assert_eq!(iface, "RGB20");
            assert!(!all);
        }
        _ => panic!("expected state"),
    }
}
