use bihelix::command::{handle_key_subcommand, KeyOutcome, KeySubCommand};
use bihelix::keys::{
    descriptor_type_for, generate_keys, keys_from_entropy, master_keys_from_seed, render_master_keys,
    rgb_derivation, DescriptorType,
};
use bihelix::network::Network;
use bihelix::text::{align_left, align_right, chars_of, hex_lower, replace_all, same_text, u64_decimal};

#[test]
fn replace_all_replaces_each_occurrence() {
    assert_eq!(replace_all("a/*/*b/*/*", "/*/*", "X"), "aXbX");
    assert_eq!(replace_all("abc", "/*/*", "X"), "abc");
    assert_eq!(replace_all("", "ab", "X"), "");
    assert_eq!(replace_all("aaa", "aa", "b"), "ba");
}

#[test]
fn rgb_derivation_marks_rgb_keychains() {
    let account = "[1a2b3c4d/86h/1h/0h]tpubD6NzVbkrYhZ4/*/*";
    assert_eq!(
        rgb_derivation(account),
        "[1a2b3c4d/86h/1h/0h]tpubD6NzVbkrYhZ4/<0;1;9;10>/*"
    );
    assert_eq!(rgb_derivation("/*/*/*"), "/<0;1;9;10>/*/*");
    assert_eq!(rgb_derivation("no wildcard"), "no wildcard");
}

#[test]
fn descriptor_type_only_taproot_selects_tr() {
    assert_eq!(descriptor_type_for("taproot"), DescriptorType::Tr);
    assert_eq!(descriptor_type_for("wpkh"), DescriptorType::Wpkh);
    assert_eq!(descriptor_type_for("Taproot"), DescriptorType::Wpkh);
    assert_eq!(descriptor_type_for(""), DescriptorType::Wpkh);
}

#[test]
fn hex_and_decimal_rendering() {
    assert_eq!(hex_lower(&[0x34, 0x42, 0x19, 0x3e]), "3442193e");
    assert_eq!(hex_lower(&[0x00, 0xff, 0x0a]), "00ff0a");
    assert_eq!(hex_lower(&[]), "");
    assert_eq!(u64_decimal(0), "0");
    assert_eq!(u64_decimal(1005), "1005");
    assert_eq!(u64_decimal(u64::MAX), "18446744073709551615");
}

#[test]
fn alignment_pads_to_width() {
    assert_eq!(align_right("Amount, ṩ", 12), "   Amount, ṩ");
    assert_eq!(align_left("ab", 5), "ab   ");
    assert_eq!(align_right("abcdef", 3), "abcdef");
    assert_eq!(align_left("abcdef", 3), "abcdef");
}

#[test]
fn text_comparison_and_chars() {
    assert!(same_text("opret", "opret"));
    assert!(!same_text("opret", "opre"));
    assert_eq!(chars_of("aṩb"), vec!['a', 'ṩ', 'b']);
}

#[test]
fn master_keys_of_bip32_test_vector() {
    let seed: Vec<u8> = (0u8..16).collect();
    let keys = master_keys_from_seed(false, &seed).expect("master key");
    assert_eq!(keys.fingerprint, "3442193e");
    assert!(keys.xprv.starts_with("tprv8ZgxMBicQKsP"));
    assert!(keys.xpub.starts_with("tpubD6NzVbkrYhZ4"));
    assert_ne!(keys.xprv, keys.xpub);
    let main = master_keys_from_seed(true, &seed).expect("master key");
    assert_eq!(main.fingerprint, "3442193e");
    assert_eq!(
        main.xpub,
        "xpub661MyMwAqRbcFtXgS5sYJABqqG9YLmC4Q1Rdap9gSE8NqtwybGhePY2gZ29ESFjqJoCu1Rupje8YtGqsefD265TMg7usUDFdp6W1EGMcet8"
    );
    assert!(main.xprv.starts_with("xprv9s21ZrQH143K"));
}

#[test]
fn rendering_a_key_uses_base58check() {
    let m = render_master_keys(&[0u8; 4], &[1u8; 4], &[0xab, 0xcd, 0x01, 0x02]);
    assert_eq!(m.fingerprint, "abcd0102");
    assert_ne!(m.xprv, m.xpub);
    assert_ne!(m.xprv, "");
}

#[test]
fn mnemonic_of_bip39_test_vectors() {
    let g = keys_from_entropy(false, &[0u8; 16]).expect("keys");
    assert_eq!(
        g.mnemonic,
        "abandon abandon abandon abandon abandon abandon abandon abandon abandon abandon abandon about"
    );
    let g = keys_from_entropy(true, &[0u8; 32]).expect("keys");
    let mut words = vec!["abandon"; 23];
    words.push("art");
    assert_eq!(g.mnemonic, words.join(" "));
    assert!(g.keys.xprv.starts_with("xprv"));
    assert!(keys_from_entropy(false, &[0u8; 15]).is_none());
    assert!(keys_from_entropy(false, &[0u8; 36]).is_none());
}

#[test]
fn generated_keys_follow_the_network() {
    let a = generate_keys(false).expect("key");
    let b = generate_keys(false).expect("key");
    assert_eq!(a.mnemonic.split(' ').count(), 24);
    assert!(a.keys.xprv.starts_with("tprv"));
    assert!(a.keys.xpub.starts_with("tpub"));
    assert_eq!(a.keys.fingerprint.len(), 8);
    assert_ne!(a.mnemonic, b.mnemonic);
    let m = generate_keys(true).expect("key");
    assert!(m.keys.xprv.starts_with("xprv"));
    assert!(m.keys.xpub.starts_with("xpub"));
}

#[test]
fn key_generate_wallet_plan() {
    let out = handle_key_subcommand(
        KeySubCommand::GenerateWallet {
            descriptor_type: "taproot".to_string(),
            xprv: "tprv-key".to_string(),
            stock: "stockdb".to_string(),
            wallet: "w1".to_string(),
        },
        Network::Signet,
    );
    match out {
        KeyOutcome::CreateWallet(p) => {
            assert_eq!(p.descriptor, DescriptorType::Tr);
            assert_eq!(p.network, Network::Signet);
            assert_eq!(p.xprv, "tprv-key");
            assert_eq!(p.stock, "stockdb");
            assert_eq!(p.wallet, "w1");
        }
        _ => panic!("expected a wallet plan"),
    }
    match handle_key_subcommand(KeySubCommand::Generate, Network::Testnet3) {
        KeyOutcome::Keys(Some(g)) => assert!(g.keys.xprv.starts_with("tprv")),
        _ => panic!("expected keys"),
    }
    match handle_key_subcommand(KeySubCommand::Generate, Network::Mainnet) {
        KeyOutcome::Keys(Some(g)) => assert!(g.keys.xprv.starts_with("xprv")),
        _ => panic!("expected keys"),
    }
}

#[test]
fn same_seed_gives_same_keys() {
    let seed = [7u8; 64];
    let a = master_keys_from_seed(false, &seed).expect("key");
    let b = master_keys_from_seed(false, &seed).expect("key");
    assert_eq!((a.xprv, a.xpub, a.fingerprint), (b.xprv, b.xpub, b.fingerprint));
    let c = keys_from_entropy(false, &[9u8; 32]).expect("key");
    let d = keys_from_entropy(false, &[9u8; 32]).expect("key");
    assert_eq!((c.mnemonic, c.keys.xprv), (d.mnemonic, d.keys.xprv));
}
