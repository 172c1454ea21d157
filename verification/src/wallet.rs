//! The BiHelix wallet: a Bitcoin descriptor wallet (its RGB addresses and the
//! coins found on them) together with an RGB stock, and the operations the
//! tool performs on it.

use vstd::prelude::*;
use crate::network::Network;
use crate::stock::{StockData, StoreBatch, stock_records, store_spec, batch_view};

verus! {

broadcast use vstd::seq_lib::group_seq_properties;

/// A transaction output: transaction id (32 bytes, in internal byte order)
/// and output number.
#[derive(Clone, Copy, Debug)]
pub struct Outpoint {
    /// Transaction id.
    pub txid: [u8; 32],
    /// Output number within the transaction.
    pub vout: u32,
}

/// An outpoint as its transaction id bytes and output number.
pub type OutpointView = (Seq<u8>, u32);

impl View for Outpoint {
    type V = OutpointView;

    open spec fn view(&self) -> OutpointView {
        (self.txid@, self.vout)
    }
}

/// The views of a sequence of outpoints.
pub open spec fn outpoint_views(s: Seq<Outpoint>) -> Seq<OutpointView> {
    s.map_values(|o: Outpoint| o@)
}

/// Whether two outpoints are the same output.
pub fn same_outpoint(a: &Outpoint, b: &Outpoint) -> (r: bool)
    ensures
        r == (a@ == b@),
{
    if a.vout != b.vout {
        return false;
    }
    let mut i: usize = 0;
    while i < 32
        invariant
            i <= 32,
            a.txid@.len() == 32,
            b.txid@.len() == 32,
            forall|j: int| 0 <= j < i ==> a.txid@[j] == b.txid@[j],
        decreases 32 - i,
    {
        if a.txid[i] != b.txid[i] {
            return false;
        }
        i = i + 1;
    }
    assert(a.txid@ =~= b.txid@);
    true
}

/// The coins the wallet holds on one of its addresses.
pub struct AddressCoins {
    /// The address.
    pub address: String,
    /// Outpoints of the unspent outputs paying to it.
    pub outpoints: Vec<Outpoint>,
}

/// All outpoints of all addresses, address after address.
pub open spec fn all_outpoints(groups: Seq<AddressCoins>) -> Seq<OutpointView>
    decreases groups.len(),
{
    if groups.len() == 0 {
        Seq::empty()
    } else {
        all_outpoints(groups.drop_last()) + outpoint_views(groups.last().outpoints@)
    }
}

/// The Bitcoin side of the wallet together with its RGB stock.
pub struct RgbWallet {
    /// Network the wallet's descriptor is on.
    pub network: Network,
    /// Addresses of the RGB keychain, in derivation order.
    pub rgb_addresses: Vec<String>,
    /// Coins per address, as the last sync found them.
    pub address_coins: Vec<AddressCoins>,
    /// The wallet's RGB stock, serialized.
    pub stock_data: StockData,
}

/// The wallet the `rgb` commands act on.
pub struct BiHelixWallet {
    /// Bitcoin wallet and RGB stock.
    pub wallet: RgbWallet,
    /// Signing account (its descriptor text).
    pub account: String,
    /// Name of the database the stock is kept in.
    pub stock: String,
    /// Name of the directory the Bitcoin wallet is kept in.
    pub wallet_name: String,
}

/// How an RGB seal is closed by the witness transaction.
#[derive(Clone, Copy, Debug, PartialEq, Eq, Structural)]
pub enum CloseMethod {
    /// OP_RETURN commitment, tried first.
    OpretFirst,
    /// Taproot commitment, tried first.
    TapretFirst,
}

/// Whom an invoice pays.
pub enum Beneficiary {
    /// A blinded seal on an existing output of the wallet.
    BlindedSeal {
        /// Close method of the seal.
        method: CloseMethod,
        /// The output the seal is defined on.
        outpoint: Outpoint,
    },
    /// A new output paying to an address of the wallet (witness vout).
    WitnessVout {
        /// The address.
        address: String,
        /// Close method of the seal.
        method: CloseMethod,
    },
}

/// Everything an RGB invoice is built from.
pub struct InvoiceRequest {
    /// Network of the invoice (the wallet's).
    pub network: Network,
    /// Contract the asset belongs to.
    pub contract_id: String,
    /// Interface the contract is used through.
    pub iface: String,
    /// Amount requested, in the asset's smallest unit.
    pub amount: u64,
    /// Contract operation to run (such as `transfer`).
    pub operation: String,
    /// Whom the invoice pays.
    pub beneficiary: Beneficiary,
}

/// Fee and amount of the Bitcoin transaction that carries a transfer.
pub struct TransferParams {
    /// Fee, in satoshis.
    pub fee: u64,
    /// Bitcoin sent along with the assets, in satoshis.
    pub sats: u64,
}

/// Fee used when a transfer gives none.
pub const DEFAULT_FEE: u64 = 3000;
/// Satoshis sent when a transfer gives no amount.
pub const DEFAULT_SATS: u64 = 2000;

/// The value of an option, or `default` when it is empty.
pub open spec fn or_default(v: Option<u64>, default: u64) -> u64 {
    match v {
        Some(x) => x,
        None => default,
    }
}

/// Fee and satoshis of a transfer: the given values, or the defaults.
pub fn transfer_params(sats: Option<u64>, fee: Option<u64>) -> (p: TransferParams)
    ensures
        p.fee == or_default(fee, DEFAULT_FEE),
        p.sats == or_default(sats, DEFAULT_SATS),
        fee matches Some(f) ==> p.fee == f,
        fee is None ==> p.fee == 3000,
        sats matches Some(s) ==> p.sats == s,
        sats is None ==> p.sats == 2000,
{
    let fee: u64 = match fee {
        Some(f) => f,
        None => DEFAULT_FEE,
    };
    let sats: u64 = match sats {
        Some(s) => s,
        None => DEFAULT_SATS,
    };
    TransferParams { fee, sats }
}

/// Law: a fee or amount that is given is used exactly as given, whatever
/// its size; only a missing one is replaced by its default.
pub proof fn given_values_are_kept(x: u64, d: u64)
    ensures
        or_default(Some(x), d) == x,
        or_default(None, d) == d,
        or_default(Some(x), DEFAULT_FEE) == x && or_default(None, DEFAULT_FEE) == 3000,
        or_default(Some(x), DEFAULT_SATS) == x && or_default(None, DEFAULT_SATS) == 2000,
{
}

/// Whether `out` holds an outpoint equal to `o`.
fn holds_outpoint(out: &Vec<Outpoint>, o: &Outpoint) -> (r: bool)
    ensures
        r == outpoint_views(out@).contains(o@),
{
    let mut i: usize = 0;
    while i < out.len()
        invariant
            i <= out@.len(),
            forall|j: int| 0 <= j < i ==> out@[j]@ != o@,
        decreases out.len() - i,
    {
        if same_outpoint(&out[i], o) {
            assert(outpoint_views(out@)[i as int] == o@);
            return true;
        }
        i = i + 1;
    }
    assert forall|j: int| 0 <= j < outpoint_views(out@).len() implies outpoint_views(out@)[j]
        != o@ by {
        assert(out@[j]@ != o@);
    }
    false
}

proof fn dedup_has_no_duplicates(s: Seq<OutpointView>, seen: Seq<OutpointView>)
    requires
        seen.no_duplicates(),
    ensures
        s.remove_duplicates(seen).no_duplicates(),
    decreases s.len(),
{
    if s.len() > 0 {
        if seen.contains(s[0]) {
            dedup_has_no_duplicates(s.skip(1), seen);
        } else {
            let seen2 = seen + seq![s[0]];
            assert forall|i: int, j: int|
                0 <= i < seen2.len() && 0 <= j < seen2.len() && i != j implies seen2[i]
                != seen2[j] by {
                if i == seen.len() {
                    assert(seen[j] == seen2[j]);
                } else if j == seen.len() {
                    assert(seen[i] == seen2[i]);
                }
            }
            dedup_has_no_duplicates(s.skip(1), seen2);
        }
    }
}

/// Law: the unspent outputs `get_utxo` reports are the outpoints found on
/// the wallet's addresses, each exactly once.
pub proof fn utxos_are_each_coin_once(groups: Seq<AddressCoins>)
    ensures
        all_outpoints(groups).remove_duplicates(Seq::empty()).no_duplicates(),
        forall|o: OutpointView|
            all_outpoints(groups).remove_duplicates(Seq::empty()).contains(o)
                <==> all_outpoints(groups).contains(o),
{
    let s = all_outpoints(groups);
    dedup_has_no_duplicates(s, Seq::empty());
    s.lemma_remove_duplicates_properties(Seq::empty());
    assert(s + Seq::<OutpointView>::empty() =~= s);
}

proof fn all_outpoints_has(groups: Seq<AddressCoins>, i: int, j: int)
    requires
        0 <= i < groups.len(),
        0 <= j < groups[i].outpoints@.len(),
    ensures
        all_outpoints(groups).contains(groups[i].outpoints@[j]@),
    decreases groups.len(),
{
    let prev = all_outpoints(groups.drop_last());
    let last = outpoint_views(groups.last().outpoints@);
    assert(all_outpoints(groups) == prev + last);
    if i == groups.len() - 1 {
        assert(last[j] == groups[i].outpoints@[j]@);
        assert((prev + last)[prev.len() + j] == last[j]);
    } else {
        assert(groups.drop_last()[i] == groups[i]);
        all_outpoints_has(groups.drop_last(), i, j);
        let k = choose|k: int| 0 <= k < prev.len() && prev[k] == groups[i].outpoints@[j]@;
        assert((prev + last)[k] == prev[k]);
    }
}

proof fn all_outpoints_come_from_groups(groups: Seq<AddressCoins>, x: OutpointView)
    requires
        all_outpoints(groups).contains(x),
    ensures
        exists|i: int, j: int|
            0 <= i < groups.len() && 0 <= j < groups[i].outpoints@.len()
                && #[trigger] groups[i].outpoints@[j]@ == x,
    decreases groups.len(),
{
    let prev = all_outpoints(groups.drop_last());
    let last = outpoint_views(groups.last().outpoints@);
    assert(all_outpoints(groups) == prev + last);
    let k = choose|k: int| 0 <= k < (prev + last).len() && (prev + last)[k] == x;
    if k < prev.len() {
        assert(prev[k] == x);
        all_outpoints_come_from_groups(groups.drop_last(), x);
        let (i, j) = choose|i: int, j: int|
            0 <= i < groups.drop_last().len() && 0 <= j < groups.drop_last()[i].outpoints@.len()
                && #[trigger] groups.drop_last()[i].outpoints@[j]@ == x;
        assert(groups.drop_last()[i] == groups[i]);
        assert(groups[i].outpoints@[j]@ == x);
    } else {
        let j = k - prev.len();
        assert(last[j] == x);
        let i = groups.len() - 1;
        assert(groups[i].outpoints@[j]@ == x);
    }
}

/// Law: the unspent outputs reported for coins grouped by address are
/// exactly the outpoints found on the addresses: every outpoint of every
/// address is reported (whatever other outputs of the same transaction were
/// met before), nothing else is, and none is reported twice.
pub proof fn utxos_are_exactly_the_coins(groups: Seq<AddressCoins>)
    ensures
        all_outpoints(groups).remove_duplicates(Seq::empty()).no_duplicates(),
        forall|i: int, j: int|
            0 <= i < groups.len() && 0 <= j < groups[i].outpoints@.len() ==> all_outpoints(
                groups,
            ).remove_duplicates(Seq::empty()).contains(#[trigger] groups[i].outpoints@[j]@),
        forall|x: OutpointView|
            #[trigger] all_outpoints(groups).remove_duplicates(Seq::empty()).contains(x) ==> exists|
                i: int,
                j: int,
            |
                0 <= i < groups.len() && 0 <= j < groups[i].outpoints@.len()
                    && #[trigger] groups[i].outpoints@[j]@ == x,
{
    utxos_are_each_coin_once(groups);
    assert forall|i: int, j: int|
        0 <= i < groups.len() && 0 <= j < groups[i].outpoints@.len() implies all_outpoints(
            groups,
        ).remove_duplicates(Seq::empty()).contains(#[trigger] groups[i].outpoints@[j]@) by {
        all_outpoints_has(groups, i, j);
    }
    assert forall|x: OutpointView|
        #[trigger] all_outpoints(groups).remove_duplicates(Seq::empty()).contains(x) implies exists|
            i: int,
            j: int,
        |
            0 <= i < groups.len() && 0 <= j < groups[i].outpoints@.len()
                && #[trigger] groups[i].outpoints@[j]@ == x by {
        all_outpoints_come_from_groups(groups, x);
    }
}

impl BiHelixWallet {
    /// The first address of the RGB keychain, as text.
    pub open spec fn first_rgb_address(self) -> Seq<char> {
        self.wallet.rgb_addresses@[0]@
    }

    /// The first address of the RGB keychain. The wallet must have one (the
    /// tool stops with "no addresses left" otherwise).
    pub fn get_address(&self) -> (r: String)
        requires
            self.wallet.rgb_addresses@.len() > 0,
        ensures
            r@ == self.first_rgb_address(),
    {
        self.wallet.rgb_addresses[0].clone()
    }

    /// The wallet's unspent outputs: every outpoint found on any address,
    /// each once, in the order they are first met.
    pub fn get_utxo(&self) -> (r: Vec<Outpoint>)
        ensures
            outpoint_views(r@) == all_outpoints(self.wallet.address_coins@).remove_duplicates(
                Seq::empty(),
            ),
            outpoint_views(r@).no_duplicates(),
            forall|i: int, j: int|
                0 <= i < self.wallet.address_coins@.len() && 0 <= j
                    < self.wallet.address_coins@[i].outpoints@.len() ==> outpoint_views(r@).contains(
                    #[trigger] self.wallet.address_coins@[i].outpoints@[j]@,
                ),
            forall|x: OutpointView|
                #[trigger] outpoint_views(r@).contains(x) ==> exists|i: int, j: int|
                    0 <= i < self.wallet.address_coins@.len() && 0 <= j
                        < self.wallet.address_coins@[i].outpoints@.len()
                        && #[trigger] self.wallet.address_coins@[i].outpoints@[j]@ == x,
    {
        let groups = &self.wallet.address_coins;
        let mut out: Vec<Outpoint> = Vec::new();
        let mut g: usize = 0;
        assert(groups@.take(0) =~= Seq::<AddressCoins>::empty());
        assert(outpoint_views(out@) =~= Seq::<OutpointView>::empty());
        while g < groups.len()
            invariant
                g <= groups@.len(),
                outpoint_views(out@) == all_outpoints(groups@.take(g as int)).remove_duplicates(
                    Seq::empty(),
                ),
            decreases groups.len() - g,
        {
            let ops = &groups[g].outpoints;
            let ghost before = all_outpoints(groups@.take(g as int));
            let mut k: usize = 0;
            assert(before + outpoint_views(ops@).take(0) =~= before);
            while k < ops.len()
                invariant
                    k <= ops@.len(),
                    outpoint_views(out@) == (before + outpoint_views(ops@).take(k as int)).remove_duplicates(
                        Seq::empty(),
                    ),
                decreases ops.len() - k,
            {
                let o = ops[k];
                let ghost prefix = before + outpoint_views(ops@).take(k as int);
                proof {
                    prefix.lemma_remove_duplicates_properties(Seq::empty());
                    prefix.lemma_remove_duplicates_append(o@, Seq::empty());
                    assert(prefix + Seq::<OutpointView>::empty() =~= prefix);
                    assert(before + outpoint_views(ops@).take(k + 1) =~= prefix + seq![o@]);
                }
                if !holds_outpoint(&out, &o) {
                    out.push(o);
                    assert(outpoint_views(out@) =~= prefix.remove_duplicates(Seq::empty()) + seq![o@]);
                }
                k = k + 1;
            }
            proof {
                assert(groups@.take(g + 1).drop_last() =~= groups@.take(g as int));
                assert(outpoint_views(ops@).take(ops@.len() as int) =~= outpoint_views(ops@));
            }
            g = g + 1;
        }
        assert(groups@.take(groups@.len() as int) =~= groups@);
        proof {
            utxos_are_exactly_the_coins(groups@);
        }
        out
    }

    /// The records that keep the wallet's stock in the database `name`: the
    /// library's own three-record layout (see `stock_records`), mirroring the
    /// keys the loader reads.
    pub fn store_wallet(&self, name: &str) -> (b: StoreBatch)
        ensures
            batch_view(b) == store_spec(self.wallet.stock_data@, name@),
    {
        stock_records(&self.wallet.stock_data, name)
    }

    /// What an invoice for `amount` of `contract_id` is built from. With an
    /// outpoint, the invoice pays to a blinded seal on it; without one, to a
    /// new output on the first RGB address (which must then exist).
    pub fn invoice(
        &self,
        contract_id: String,
        iface: String,
        amount: u64,
        close_method: CloseMethod,
        outpoint: Option<Outpoint>,
        operation: String,
    ) -> (r: InvoiceRequest)
        requires
            outpoint is None ==> self.wallet.rgb_addresses@.len() > 0,
        ensures
            r.network == self.wallet.network,
            r.contract_id == contract_id,
            r.iface == iface,
            r.amount == amount,
            r.operation == operation,
            match outpoint {
                Some(o) => r.beneficiary matches Beneficiary::BlindedSeal { method, outpoint: p }
                    && method == close_method && p@ == o@,
                None => r.beneficiary matches Beneficiary::WitnessVout { address, method }
                    && method == close_method && address@ == self.wallet.rgb_addresses@[0]@,
            },
    {
        let beneficiary = match outpoint {
            Some(o) => Beneficiary::BlindedSeal { method: close_method, outpoint: o },
            None => Beneficiary::WitnessVout { address: self.get_address(), method: close_method },
        };
        InvoiceRequest {
            network: self.wallet.network,
            contract_id,
            iface,
            amount,
            operation,
            beneficiary,
        }
    }
}

} // verus!
