use bihelix::report::{
    state_report, sync_report, AddressRows, Allocation, CoinRow, GlobalState, OwnedState, StateReport,
};

fn sample_report(all: bool) -> StateReport {
    StateReport {
        globals: vec![
            GlobalState { name: "spec".to_string(), values: Some(vec!["USDT".to_string(), "x".to_string()]) },
            GlobalState { name: "terms".to_string(), values: None },
        ],
        owned: vec![OwnedState {
            name: "assetOwner".to_string(),
            mine: Some(vec![Allocation { amount: 900, seal: "s1".to_string(), witness: "w1".to_string() }]),
            others: Some(vec![Allocation { amount: 100, seal: "s2".to_string(), witness: "~".to_string() }]),
        }],
        descriptor: "tr(xpub)".to_string(),
        balance: "Sats(5)".to_string(),
        addresses: vec![AddressRows {
            address: "tb1p".to_string(),
            terminal: "&0/0".to_string(),
            rows: vec![CoinRow { height: "Mempool".to_string(), amount: "5".to_string(), outpoint: "ab:0".to_string() }],
        }],
        all,
    }
}

#[test]
fn state_report_lines() {
    let lines = state_report(&sample_report(true));
    let expected = vec![
        "Global:".to_string(),
        "  spec := USDT".to_string(),
        "  spec := x".to_string(),
        "".to_string(),
        "Owned:".to_string(),
        "  assetOwner:".to_string(),
        "    amount=900, utxo=s1, witness=w1 # owned by the wallet".to_string(),
        "    amount=100, utxo=s2, witness=~ # owner unknown".to_string(),
        "Balance of tr(xpub)".to_string(),
        "Balance Sats(5)".to_string(),
        "".to_string(),
        format!("Height\t{:>12}\t{:68}", "Amount, ṩ", "Outpoint"),
        "tb1p\t&0/0".to_string(),
        format!("Mempool\t{: >12}\t{:68}", "5", "ab:0"),
        "".to_string(),
    ];
    assert_eq!(lines, expected);
}

#[test]
fn state_report_without_all_shows_only_the_wallets_allocations() {
    let lines = state_report(&sample_report(false));
    assert!(lines.contains(&"    amount=900, utxo=s1, witness=w1 # owned by the wallet".to_string()));
    assert!(!lines.iter().any(|l| l.ends_with("# owner unknown")));
    assert_eq!(lines.len(), 14);
}

#[test]
fn sync_report_lines() {
    assert_eq!(sync_report(&None), vec!["Syncing success".to_string()]);
    assert_eq!(
        sync_report(&Some(vec!["timeout".to_string(), "refused".to_string()])),
        vec![
            "Syncing partial, some requests has failed:".to_string(),
            "- timeout".to_string(),
            "- refused".to_string(),
        ]
    );
}

