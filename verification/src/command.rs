//! The `key` and `rgb` subcommands: what each one asks for, and the
//! decisions the tool makes before it touches the wallet, the stock or the
//! network.

use vstd::prelude::*;
use crate::keys::{DescriptorType, GeneratedKeys, descriptor_type_for, descriptor_type_spec,
    generate_keys, generated_keys_spec, generated_keys_view, bip39_phrase, bip39_seed,
    master_key_shape, ENTROPY_LEN};
use crate::network::{Network, electrum_server, electrum_server_spec, opt_text, connection_server,
    connection_server_spec};
use crate::text::same_text;
use crate::wallet::{CloseMethod, Outpoint};

verus! {

/// The `key` subcommands.
#[derive(Clone, Debug)]
pub enum KeySubCommand {
    /// Generate a random seed mnemonic phrase and the master extended key
    /// made from it.
    Generate,
    /// Create an RGB wallet for an extended private key.
    GenerateWallet {
        /// Descriptor type: `taproot`, or anything else for wpkh.
        descriptor_type: String,
        /// Extended private key to derive the signing account from.
        xprv: String,
        /// Name of the stock database.
        stock: String,
        /// Name of the Bitcoin wallet directory.
        wallet: String,
    },
}

/// What a new wallet is built from.
pub struct WalletPlan {
    /// Descriptor type of the wallet.
    pub descriptor: DescriptorType,
    /// Network the wallet is for.
    pub network: Network,
    /// Extended private key of the signing account.
    pub xprv: String,
    /// Name of the stock database.
    pub stock: String,
    /// Name of the Bitcoin wallet directory.
    pub wallet: String,
}

/// The result of a `key` subcommand.
pub enum KeyOutcome {
    /// A fresh mnemonic phrase and the texts of its master key, or `None`
    /// when the key could not be made from the phrase's seed.
    Keys(Option<GeneratedKeys>),
    /// A wallet to create.
    CreateWallet(WalletPlan),
}

/// Runs a `key` subcommand on `network`: `generate` draws `ENTROPY_LEN`
/// random bytes, makes their mnemonic phrase and the master key of the
/// phrase's seed for that network; `generate-wallet` chooses the descriptor
/// type and hands the network and the names on.
pub fn handle_key_subcommand(subcommand: KeySubCommand, network: Network) -> (r: KeyOutcome)
    ensures
        match subcommand {
            KeySubCommand::Generate => r matches KeyOutcome::Keys(k) && exists|entropy: Seq<u8>|
                entropy.len() == ENTROPY_LEN && bip39_phrase(entropy) is Some && match k {
                    Some(g) => generated_keys_spec(network == Network::Mainnet, entropy) == Some(
                        generated_keys_view(g),
                    ),
                    None => generated_keys_spec(network == Network::Mainnet, entropy) is None,
                } && (k matches Some(g) ==> master_key_shape(
                    network == Network::Mainnet,
                    bip39_seed(g.mnemonic@).unwrap(),
                    g.keys,
                )),
            KeySubCommand::GenerateWallet { descriptor_type, xprv, stock, wallet } => r matches KeyOutcome::CreateWallet(p)
                && p.descriptor == descriptor_type_spec(descriptor_type@) && p.network == network
                && p.xprv == xprv && p.stock == stock && p.wallet == wallet,
        },
{
    match subcommand {
        KeySubCommand::Generate => {
            let mainnet = match network {
                Network::Mainnet => true,
                _ => false,
            };
            KeyOutcome::Keys(generate_keys(mainnet))
        },
        KeySubCommand::GenerateWallet { descriptor_type, xprv, stock, wallet } => {
            let descriptor = descriptor_type_for(descriptor_type.as_str());
            KeyOutcome::CreateWallet(WalletPlan { descriptor, network, xprv, stock, wallet })
        },
    }
}

/// The close method named by a `--method` option: `opret` gives
/// `OpretFirst`, any other text `TapretFirst`.
pub open spec fn close_method_spec(method: Seq<char>) -> CloseMethod {
    if method == "opret"@ {
        CloseMethod::OpretFirst
    } else {
        CloseMethod::TapretFirst
    }
}

/// The close method named by a `--method` option.
pub fn close_method_for(method: &str) -> (m: CloseMethod)
    ensures
        m == close_method_spec(method@),
{
    if same_text(method, "opret") {
        CloseMethod::OpretFirst
    } else {
        CloseMethod::TapretFirst
    }
}

/// Decimal digits of the assets the `issue` command creates (centi-units).
pub const ISSUE_PRECISION: u8 = 2;

/// The `rgb` subcommands.
#[derive(Clone, Debug)]
pub enum BiHelixSubCommand {
    /// List the known RGB contracts.
    Contracts,
    /// Report the state of a contract.
    State {
        /// Show all state, not only the wallet's.
        all: bool,
        /// Contract identifier.
        contract_id: String,
        /// Interface the state is read through.
        iface: String,
        /// Address filter (not used).
        address: Option<String>,
    },
    /// Issue a new non-inflatable asset.
    Issue {
        /// Ticker of the asset.
        ticker: String,
        /// Name of the asset.
        name: String,
        /// Supply issued.
        issued_supply: u64,
        /// Inflation allowance (not used).
        inflation_allowance: u64,
        /// Close method name.
        method: String,
    },
    /// Create an invoice.
    Invoice {
        /// Contract identifier.
        contract_id: String,
        /// Interface of the contract.
        iface: String,
        /// Amount requested.
        value: u64,
        /// Seal given on the command line (not used: the first utxo is).
        seal: String,
        /// Close method name.
        method: String,
        /// Contract operation, such as `transfer`.
        operation: String,
    },
    /// Validate a transfer consignment and accept it into the stock.
    Accept {
        /// File holding the consignment.
        file: String,
    },
}

/// What issuing an asset is done with.
pub struct IssueRequest {
    /// Ticker of the asset.
    pub ticker: String,
    /// Name of the asset.
    pub name: String,
    /// Decimal digits of the asset.
    pub precision: u8,
    /// Supply issued.
    pub issued_supply: u64,
    /// Close method of the seal the supply is allocated to.
    pub close_method: CloseMethod,
    /// Output the whole supply is allocated to.
    pub allocate_outpoint: Outpoint,
    /// Whether the contract is resolved on a test network (any network but
    /// mainnet).
    pub testnet: bool,
}

/// What an `rgb` subcommand does once its options are read.
pub enum RgbAction {
    /// List the known contracts.
    ListContracts,
    /// Print the state of a contract.
    QueryState {
        /// Contract identifier.
        contract_id: String,
        /// Interface the state is read through.
        iface: String,
        /// Whether allocations of other owners are shown too.
        all: bool,
    },
    /// Issue an asset.
    Issue(IssueRequest),
    /// Create an invoice paying to a blinded seal on `outpoint`.
    Invoice {
        /// Contract identifier.
        contract_id: String,
        /// Interface of the contract.
        iface: String,
        /// Amount requested.
        value: u64,
        /// Close method of the seal.
        close_method: CloseMethod,
        /// Output the seal is defined on.
        outpoint: Outpoint,
        /// Contract operation.
        operation: String,
    },
    /// Accept the consignment in `file`.
    Accept {
        /// File holding the consignment.
        file: String,
    },
}

/// Whether a subcommand allocates to one of the wallet's unspent outputs.
pub open spec fn uses_utxo(c: BiHelixSubCommand) -> bool {
    c is Issue || c is Invoice
}

/// An `rgb` subcommand ready to run: the Electrum server the wallet syncs,
/// broadcasts and validates consignments through, and the action.
pub struct RgbPlan {
    /// The Electrum server to use: the `--electrum` server, else the BiHelix
    /// testnet server.
    pub server: String,
    /// What the subcommand does.
    pub action: RgbAction,
}

/// Why an `rgb` subcommand cannot run.
#[derive(Clone, Copy, Debug, PartialEq, Eq, Structural)]
pub enum RgbCommandError {
    /// No `--electrum` server was given and the network has no default one.
    NoElectrumServer,
}

/// The action of an `rgb` subcommand, given the wallet's unspent outputs.
pub open spec fn action_spec(
    network: Network,
    subcommand: BiHelixSubCommand,
    utxos: Seq<Outpoint>,
    r: RgbAction,
) -> bool {
    match subcommand {
        BiHelixSubCommand::Contracts => r is ListContracts,
        BiHelixSubCommand::State { all, contract_id, iface, .. } => r matches RgbAction::QueryState {
            contract_id: c,
            iface: i,
            all: a,
        } && c == contract_id && i == iface && a == all,
        BiHelixSubCommand::Issue { ticker, name, issued_supply, method, .. } => r matches RgbAction::Issue(q)
            && q.ticker == ticker && q.name == name && q.issued_supply == issued_supply
            && q.precision == ISSUE_PRECISION && q.close_method == close_method_spec(method@)
            && q.allocate_outpoint@ == utxos[0]@ && q.testnet == (network != Network::Mainnet),
        BiHelixSubCommand::Invoice { contract_id, iface, value, method, operation, .. } => r matches RgbAction::Invoice {
            contract_id: c,
            iface: i,
            value: v,
            close_method: m,
            outpoint: o,
            operation: op,
        } && c == contract_id && i == iface && v == value && m == close_method_spec(method@)
            && o@ == utxos[0]@ && op == operation,
        BiHelixSubCommand::Accept { file } => r matches RgbAction::Accept { file: f } && f == file,
    }
}

/// The action carries what the subcommand names: the same kind of action,
/// with the subcommand's contract, interface, amount, operation, flag, file,
/// ticker, name and supply, and the first unspent output where one is used.
pub open spec fn keeps_subcommand_fields(
    subcommand: BiHelixSubCommand,
    utxos: Seq<Outpoint>,
    a: RgbAction,
) -> bool {
    &&& subcommand is Contracts ==> a is ListContracts
    &&& subcommand is State ==> a is QueryState && a->QueryState_contract_id
        == subcommand->State_contract_id && a->QueryState_iface == subcommand->State_iface
        && a->QueryState_all == subcommand->State_all
    &&& subcommand is Issue ==> a is Issue && a->Issue_0.ticker == subcommand->Issue_ticker
        && a->Issue_0.name == subcommand->Issue_name && a->Issue_0.issued_supply
        == subcommand->Issue_issued_supply && a->Issue_0.allocate_outpoint@ == utxos[0]@
    &&& subcommand is Invoice ==> a is Invoice && a->Invoice_contract_id
        == subcommand->Invoice_contract_id && a->Invoice_iface == subcommand->Invoice_iface
        && a->Invoice_value == subcommand->Invoice_value && a->Invoice_operation
        == subcommand->Invoice_operation && a->Invoice_outpoint@ == utxos[0]@
    &&& subcommand is Accept ==> a is Accept && a->Accept_file == subcommand->Accept_file
}

/// Law: whatever the network, the action planned for an `rgb` subcommand
/// carries the subcommand's own fields: an invoice keeps its contract,
/// interface, amount and operation (none stands in for another), a state
/// report keeps its contract, interface and `all` flag, an issue keeps its
/// ticker, name and supply, and issue and invoice use the first unspent
/// output.
pub proof fn action_keeps_subcommand_fields(
    network: Network,
    subcommand: BiHelixSubCommand,
    utxos: Seq<Outpoint>,
    a: RgbAction,
)
    requires
        action_spec(network, subcommand, utxos, a),
    ensures
        keeps_subcommand_fields(subcommand, utxos, a),
{
}

/// Decides how an `rgb` subcommand runs on `network`: the command cannot run
/// without an Electrum server (`--electrum`, or a default of the network);
/// its connections go to the `--electrum` server, else to the BiHelix
/// testnet server; the action follows the subcommand, and
/// `issue` and `invoice` use the first of the wallet's unspent outputs (which
/// must then exist).
pub fn handle_rgb_subcommand(
    network: Network,
    electrum: Option<String>,
    subcommand: BiHelixSubCommand,
    utxos: &Vec<Outpoint>,
) -> (r: Result<RgbPlan, RgbCommandError>)
    requires
        uses_utxo(subcommand) ==> utxos@.len() > 0,
    ensures
        match electrum_server_spec(opt_text(electrum), network) {
            None => r == Err::<RgbPlan, RgbCommandError>(RgbCommandError::NoElectrumServer),
            Some(_) => r matches Ok(p) && p.server@ == connection_server_spec(opt_text(electrum))
                && action_spec(network, subcommand, utxos@, p.action),
        },
        r matches Ok(p) ==> keeps_subcommand_fields(subcommand, utxos@, p.action),
{
    let server = connection_server(&electrum);
    if electrum_server(electrum, network).is_none() {
        return Err(RgbCommandError::NoElectrumServer);
    }
    let action = match subcommand {
        BiHelixSubCommand::Contracts => RgbAction::ListContracts,
        BiHelixSubCommand::State { all, contract_id, iface, .. } => RgbAction::QueryState {
            contract_id,
            iface,
            all,
        },
        BiHelixSubCommand::Issue { ticker, name, issued_supply, method, .. } => {
            let close_method = close_method_for(method.as_str());
            RgbAction::Issue(
                IssueRequest {
                    ticker,
                    name,
                    precision: ISSUE_PRECISION,
                    issued_supply,
                    close_method,
                    allocate_outpoint: utxos[0],
                    testnet: match network {
                        Network::Mainnet => false,
                        _ => true,
                    },
                },
            )
        },
        BiHelixSubCommand::Invoice { contract_id, iface, value, method, operation, .. } => {
            let close_method = close_method_for(method.as_str());
            RgbAction::Invoice {
                contract_id,
                iface,
                value,
                close_method,
                outpoint: utxos[0],
                operation,
            }
        },
        BiHelixSubCommand::Accept { file } => RgbAction::Accept { file },
    };
    proof {
        action_keeps_subcommand_fields(network, subcommand, utxos@, action);
    }
    Ok(RgbPlan { server, action })
}

} // verus!
