//! Text the tool prints: the state report of a contract and the outcome of a
//! wallet sync. Values of outside types arrive already rendered; numbers,
//! labels, alignment and the line structure are made here.

use vstd::prelude::*;
use crate::text::{aligned_left, aligned_right, align_left, align_right, decimal, u64_decimal};

verus! {

/// One allocation of a fungible state.
pub struct Allocation {
    /// Amount allocated.
    pub amount: u64,
    /// The seal holding it, rendered.
    pub seal: String,
    /// The witness transaction, rendered.
    pub witness: String,
}

/// A global state of the contract: its name and, when they could be read,
/// its values (rendered).
pub struct GlobalState {
    /// Name of the global state.
    pub name: String,
    /// Its values, or `None` when they could not be read.
    pub values: Option<Vec<String>>,
}

/// An owned (fungible) state of the contract and its allocations: those of
/// the wallet and those of others, each `None` when it could not be read.
pub struct OwnedState {
    /// Name of the assignment.
    pub name: String,
    /// Allocations on the wallet's outputs.
    pub mine: Option<Vec<Allocation>>,
    /// Allocations on other outputs.
    pub others: Option<Vec<Allocation>>,
}

/// One coin of an address, its fields rendered.
pub struct CoinRow {
    /// Height of the transaction, rendered.
    pub height: String,
    /// Amount, rendered.
    pub amount: String,
    /// Outpoint, rendered.
    pub outpoint: String,
}

/// An address of the wallet with the coins on it.
pub struct AddressRows {
    /// The address, rendered.
    pub address: String,
    /// Its derivation terminal, rendered.
    pub terminal: String,
    /// Its coins.
    pub rows: Vec<CoinRow>,
}

/// Everything the state report shows.
pub struct StateReport {
    /// Global states of the contract.
    pub globals: Vec<GlobalState>,
    /// Owned states of the contract.
    pub owned: Vec<OwnedState>,
    /// The wallet's descriptor, rendered.
    pub descriptor: String,
    /// The wallet's balance, rendered.
    pub balance: String,
    /// The wallet's addresses and coins.
    pub addresses: Vec<AddressRows>,
    /// Whether allocations of other owners are shown (`--all`), or only the
    /// wallet's.
    pub all: bool,
}

/// The texts of a sequence of strings.
pub open spec fn texts(s: Seq<String>) -> Seq<Seq<char>> {
    s.map_values(|t: String| t@)
}

/// The line of one global value.
pub open spec fn global_value_line(name: Seq<char>, value: Seq<char>) -> Seq<char> {
    "  "@ + name + " := "@ + value
}

/// The lines of the global values, value after value.
pub open spec fn global_value_lines(name: Seq<char>, values: Seq<String>) -> Seq<Seq<char>>
    decreases values.len(),
{
    if values.len() == 0 {
        Seq::empty()
    } else {
        global_value_lines(name, values.drop_last()).push(
            global_value_line(name, values.last()@),
        )
    }
}

/// The lines of a global state (none when its values could not be read).
pub open spec fn global_lines(g: GlobalState) -> Seq<Seq<char>> {
    match g.values {
        Some(vs) => global_value_lines(g.name@, vs@),
        None => Seq::empty(),
    }
}

/// The line of an allocation.
pub open spec fn allocation_line(a: Allocation, mine: bool) -> Seq<char> {
    "    amount="@ + decimal(a.amount as nat) + ", utxo="@ + a.seal@ + ", witness="@ + a.witness@
        + if mine {
        " # owned by the wallet"@
    } else {
        " # owner unknown"@
    }
}

/// The lines of some allocations.
pub open spec fn allocation_lines(allocs: Seq<Allocation>, mine: bool) -> Seq<Seq<char>>
    decreases allocs.len(),
{
    if allocs.len() == 0 {
        Seq::empty()
    } else {
        allocation_lines(allocs.drop_last(), mine).push(allocation_line(allocs.last(), mine))
    }
}

/// The lines of allocations that may not have been read.
pub open spec fn maybe_allocation_lines(allocs: Option<Vec<Allocation>>, mine: bool) -> Seq<
    Seq<char>,
> {
    match allocs {
        Some(v) => allocation_lines(v@, mine),
        None => Seq::empty(),
    }
}

/// The lines of an owned state: its name, then the wallet's allocations,
/// then, when `all` is set, those of others.
pub open spec fn owned_lines(o: OwnedState, all: bool) -> Seq<Seq<char>> {
    seq!["  "@ + o.name@ + ":"@] + maybe_allocation_lines(o.mine, true) + if all {
        maybe_allocation_lines(o.others, false)
    } else {
        Seq::empty()
    }
}

/// The line of a coin: height, amount right-aligned in 12 columns and
/// outpoint left-aligned in 68, separated by tabs.
pub open spec fn coin_line(r: CoinRow) -> Seq<char> {
    r.height@ + "\t"@ + aligned_right(r.amount@, 12) + "\t"@ + aligned_left(r.outpoint@, 68)
}

/// The lines of some coins.
pub open spec fn coin_lines(rows: Seq<CoinRow>) -> Seq<Seq<char>>
    decreases rows.len(),
{
    if rows.len() == 0 {
        Seq::empty()
    } else {
        coin_lines(rows.drop_last()).push(coin_line(rows.last()))
    }
}

/// The lines of an address: the address and its terminal, its coins, and an
/// empty line.
pub open spec fn address_lines(a: AddressRows) -> Seq<Seq<char>> {
    seq![a.address@ + "\t"@ + a.terminal@] + coin_lines(a.rows@) + seq![Seq::<char>::empty()]
}

/// The lines of all global states.
pub open spec fn all_global_lines(gs: Seq<GlobalState>) -> Seq<Seq<char>>
    decreases gs.len(),
{
    if gs.len() == 0 {
        Seq::empty()
    } else {
        all_global_lines(gs.drop_last()) + global_lines(gs.last())
    }
}

/// The lines of all owned states.
pub open spec fn all_owned_lines(os: Seq<OwnedState>, all: bool) -> Seq<Seq<char>>
    decreases os.len(),
{
    if os.len() == 0 {
        Seq::empty()
    } else {
        all_owned_lines(os.drop_last(), all) + owned_lines(os.last(), all)
    }
}

/// The lines of all addresses.
pub open spec fn all_address_lines(as_: Seq<AddressRows>) -> Seq<Seq<char>>
    decreases as_.len(),
{
    if as_.len() == 0 {
        Seq::empty()
    } else {
        all_address_lines(as_.drop_last()) + address_lines(as_.last())
    }
}

/// Header of the coin table.
pub open spec fn coin_header() -> Seq<char> {
    "Height\t"@ + aligned_right("Amount, ṩ"@, 12) + "\t"@ + aligned_left("Outpoint"@, 68)
}

/// The whole state report, line by line.
pub open spec fn report_lines(r: StateReport) -> Seq<Seq<char>> {
    seq!["Global:"@] + all_global_lines(r.globals@) + seq![Seq::<char>::empty(), "Owned:"@]
        + all_owned_lines(r.owned@, r.all) + seq![
        "Balance of "@ + r.descriptor@,
        "Balance "@ + r.balance@,
        Seq::<char>::empty(),
        coin_header(),
    ] + all_address_lines(r.addresses@)
}

proof fn value_lines_have(name: Seq<char>, values: Seq<String>, j: int)
    requires
        0 <= j < values.len(),
    ensures
        global_value_lines(name, values).contains("  "@ + name + " := "@ + values[j]@),
    decreases values.len(),
{
    let prev = global_value_lines(name, values.drop_last());
    let line = global_value_line(name, values.last()@);
    assert(global_value_lines(name, values) == prev.push(line));
    if j == values.len() - 1 {
        assert(prev.push(line)[prev.len() as int] == line);
    } else {
        assert(values.drop_last()[j] == values[j]);
        value_lines_have(name, values.drop_last(), j);
        let k = choose|k: int| 0 <= k < prev.len() && prev[k] == "  "@ + name + " := "@ + values[j]@;
        assert(prev.push(line)[k] == prev[k]);
    }
}

proof fn global_lines_have(gs: Seq<GlobalState>, i: int, line: Seq<char>)
    requires
        0 <= i < gs.len(),
        global_lines(gs[i]).contains(line),
    ensures
        all_global_lines(gs).contains(line),
    decreases gs.len(),
{
    let prev = all_global_lines(gs.drop_last());
    let last = global_lines(gs.last());
    assert(all_global_lines(gs) == prev + last);
    if i == gs.len() - 1 {
        let k = choose|k: int| 0 <= k < last.len() && last[k] == line;
        assert((prev + last)[prev.len() + k] == last[k]);
    } else {
        assert(gs.drop_last()[i] == gs[i]);
        global_lines_have(gs.drop_last(), i, line);
        let k = choose|k: int| 0 <= k < prev.len() && prev[k] == line;
        assert((prev + last)[k] == prev[k]);
    }
}

/// Law: the global part of the report grows state by state: the lines of
/// global states followed by one more are the lines of the first ones
/// followed by the lines of the new one (a later state is never dropped).
pub proof fn global_lines_extend(gs: Seq<GlobalState>, g: GlobalState)
    ensures
        all_global_lines(gs.push(g)) == all_global_lines(gs) + global_lines(g),
{
    assert(gs.push(g).drop_last() =~= gs);
}

/// Law: every readable value of every global state appears in the report as
/// the line `  <name> := <value>`, whichever global state it belongs to.
pub proof fn every_global_value_is_reported(r: StateReport, i: int, j: int)
    requires
        0 <= i < r.globals@.len(),
        r.globals@[i].values is Some,
        0 <= j < r.globals@[i].values.unwrap()@.len(),
    ensures
        report_lines(r).contains(
            "  "@ + r.globals@[i].name@ + " := "@ + r.globals@[i].values.unwrap()@[j]@,
        ),
{
    let g = r.globals@[i];
    let vs = g.values.unwrap()@;
    let line = "  "@ + g.name@ + " := "@ + vs[j]@;
    value_lines_have(g.name@, vs, j);
    global_lines_have(r.globals@, i, line);
    let head = seq!["Global:"@];
    let gl = all_global_lines(r.globals@);
    let k = choose|k: int| 0 <= k < gl.len() && gl[k] == line;
    let rest = seq![Seq::<char>::empty(), "Owned:"@] + all_owned_lines(r.owned@, r.all) + seq![
        "Balance of "@ + r.descriptor@,
        "Balance "@ + r.balance@,
        Seq::<char>::empty(),
        coin_header(),
    ] + all_address_lines(r.addresses@);
    assert(report_lines(r) =~= head + gl + rest);
    assert((head + gl + rest)[1 + k] == gl[k]);
}

/// `a` followed by `b`.
fn joined(a: &str, b: &str) -> (r: String)
    ensures
        r@ == a@ + b@,
{
    let mut r = String::from_str(a);
    r.append(b);
    r
}

fn push_line(out: &mut Vec<String>, line: String)
    ensures
        texts(final(out)@) == texts(old(out)@).push(line@),
{
    out.push(line);
    assert(texts(final(out)@) =~= texts(old(out)@).push(line@));
}

fn push_global(out: &mut Vec<String>, g: &GlobalState)
    ensures
        texts(final(out)@) == texts(old(out)@) + global_lines(*g),
{
    match &g.values {
        Some(vs) => {
            let mut i: usize = 0;
            assert(vs@.take(0) =~= Seq::<String>::empty());
            assert(texts(out@) =~= texts(old(out)@) + global_value_lines(g.name@, vs@.take(0)));
            while i < vs.len()
                invariant
                    i <= vs@.len(),
                    texts(out@) == texts(old(out)@) + global_value_lines(g.name@, vs@.take(i as int)),
                decreases vs.len() - i,
            {
                let mut line = joined("  ", g.name.as_str());
                line.append(" := ");
                line.append(vs[i].as_str());
                push_line(out, line);
                assert(vs@.take(i + 1).drop_last() =~= vs@.take(i as int));
                i = i + 1;
                assert(texts(out@) =~= texts(old(out)@) + global_value_lines(
                    g.name@,
                    vs@.take(i as int),
                ));
            }
            assert(vs@.take(vs@.len() as int) =~= vs@);
        },
        None => {
            assert(texts(out@) =~= texts(old(out)@) + Seq::<Seq<char>>::empty());
        },
    }
}

fn render_allocation(a: &Allocation, mine: bool) -> (r: String)
    ensures
        r@ == allocation_line(*a, mine),
{
    let mut line = String::from_str("    amount=");
    let amount = u64_decimal(a.amount);
    line.append(amount.as_str());
    line.append(", utxo=");
    line.append(a.seal.as_str());
    line.append(", witness=");
    line.append(a.witness.as_str());
    if mine {
        line.append(" # owned by the wallet");
    } else {
        line.append(" # owner unknown");
    }
    line
}

fn push_allocations(out: &mut Vec<String>, allocs: &Option<Vec<Allocation>>, mine: bool)
    ensures
        texts(final(out)@) == texts(old(out)@) + maybe_allocation_lines(*allocs, mine),
{
    match allocs {
        Some(v) => {
            let mut i: usize = 0;
            assert(v@.take(0) =~= Seq::<Allocation>::empty());
            assert(texts(out@) =~= texts(old(out)@) + allocation_lines(v@.take(0), mine));
            while i < v.len()
                invariant
                    i <= v@.len(),
                    texts(out@) == texts(old(out)@) + allocation_lines(v@.take(i as int), mine),
                decreases v.len() - i,
            {
                let line = render_allocation(&v[i], mine);
                push_line(out, line);
                assert(v@.take(i + 1).drop_last() =~= v@.take(i as int));
                i = i + 1;
                assert(texts(out@) =~= texts(old(out)@) + allocation_lines(v@.take(i as int), mine));
            }
            assert(v@.take(v@.len() as int) =~= v@);
        },
        None => {
            assert(texts(out@) =~= texts(old(out)@) + Seq::<Seq<char>>::empty());
        },
    }
}

fn push_owned(out: &mut Vec<String>, o: &OwnedState, all: bool)
    ensures
        texts(final(out)@) == texts(old(out)@) + owned_lines(*o, all),
{
    let mut head = joined("  ", o.name.as_str());
    head.append(":");
    push_line(out, head);
    push_allocations(out, &o.mine, true);
    if all {
        push_allocations(out, &o.others, false);
    }
    assert(texts(out@) =~= texts(old(out)@) + owned_lines(*o, all));
}

fn push_address(out: &mut Vec<String>, a: &AddressRows)
    ensures
        texts(final(out)@) == texts(old(out)@) + address_lines(*a),
{
    let mut head = joined(a.address.as_str(), "\t");
    head.append(a.terminal.as_str());
    push_line(out, head);
    let ghost start = texts(out@);
    let mut i: usize = 0;
    assert(a.rows@.take(0) =~= Seq::<CoinRow>::empty());
    assert(texts(out@) =~= start + coin_lines(a.rows@.take(0)));
    while i < a.rows.len()
        invariant
            i <= a.rows@.len(),
            texts(out@) == start + coin_lines(a.rows@.take(i as int)),
        decreases a.rows.len() - i,
    {
        let r = &a.rows[i];
        let mut line = joined(r.height.as_str(), "\t");
        let amount = align_right(r.amount.as_str(), 12);
        let outpoint = align_left(r.outpoint.as_str(), 68);
        line.append(amount.as_str());
        line.append("\t");
        line.append(outpoint.as_str());
        push_line(out, line);
        assert(a.rows@.take(i + 1).drop_last() =~= a.rows@.take(i as int));
        i = i + 1;
        assert(texts(out@) =~= start + coin_lines(a.rows@.take(i as int)));
    }
    assert(a.rows@.take(a.rows@.len() as int) =~= a.rows@);
    push_line(out, String::new());
    assert(texts(out@) =~= texts(old(out)@) + address_lines(*a));
}

/// The state report of a contract, line by line.
pub fn state_report(r: &StateReport) -> (lines: Vec<String>)
    ensures
        texts(lines@) == report_lines(*r),
        forall|i: int, j: int|
            0 <= i < r.globals@.len() && r.globals@[i].values is Some && 0 <= j
                < r.globals@[i].values.unwrap()@.len() ==> texts(lines@).contains(
                "  "@ + r.globals@[i].name@ + " := "@ + #[trigger] r.globals@[i].values.unwrap()@[j]@,
            ),
{
    let mut out: Vec<String> = Vec::new();
    push_line(&mut out, String::from_str("Global:"));
    let mut i: usize = 0;
    let ghost s0 = texts(out@);
    assert(r.globals@.take(0) =~= Seq::<GlobalState>::empty());
    assert(texts(out@) =~= s0 + all_global_lines(r.globals@.take(0)));
    while i < r.globals.len()
        invariant
            i <= r.globals@.len(),
            texts(out@) == s0 + all_global_lines(r.globals@.take(i as int)),
        decreases r.globals.len() - i,
    {
        push_global(&mut out, &r.globals[i]);
        assert(r.globals@.take(i + 1).drop_last() =~= r.globals@.take(i as int));
        i = i + 1;
        assert(texts(out@) =~= s0 + all_global_lines(r.globals@.take(i as int)));
    }
    assert(r.globals@.take(r.globals@.len() as int) =~= r.globals@);
    push_line(&mut out, String::new());
    push_line(&mut out, String::from_str("Owned:"));
    let ghost s1 = texts(out@);
    let mut i: usize = 0;
    assert(r.owned@.take(0) =~= Seq::<OwnedState>::empty());
    assert(texts(out@) =~= s1 + all_owned_lines(r.owned@.take(0), r.all));
    while i < r.owned.len()
        invariant
            i <= r.owned@.len(),
            texts(out@) == s1 + all_owned_lines(r.owned@.take(i as int), r.all),
        decreases r.owned.len() - i,
    {
        push_owned(&mut out, &r.owned[i], r.all);
        assert(r.owned@.take(i + 1).drop_last() =~= r.owned@.take(i as int));
        i = i + 1;
        assert(texts(out@) =~= s1 + all_owned_lines(r.owned@.take(i as int), r.all));
    }
    assert(r.owned@.take(r.owned@.len() as int) =~= r.owned@);
    push_line(&mut out, joined("Balance of ", r.descriptor.as_str()));
    push_line(&mut out, joined("Balance ", r.balance.as_str()));
    push_line(&mut out, String::new());
    let amount_head = align_right("Amount, ṩ", 12);
    let outpoint_head = align_left("Outpoint", 68);
    let mut header = String::from_str("Height\t");
    header.append(amount_head.as_str());
    header.append("\t");
    header.append(outpoint_head.as_str());
    push_line(&mut out, header);
    let ghost s2 = texts(out@);
    let mut i: usize = 0;
    assert(r.addresses@.take(0) =~= Seq::<AddressRows>::empty());
    assert(texts(out@) =~= s2 + all_address_lines(r.addresses@.take(0)));
    while i < r.addresses.len()
        invariant
            i <= r.addresses@.len(),
            texts(out@) == s2 + all_address_lines(r.addresses@.take(i as int)),
        decreases r.addresses.len() - i,
    {
        push_address(&mut out, &r.addresses[i]);
        assert(r.addresses@.take(i + 1).drop_last() =~= r.addresses@.take(i as int));
        i = i + 1;
        assert(texts(out@) =~= s2 + all_address_lines(r.addresses@.take(i as int)));
    }
    assert(r.addresses@.take(r.addresses@.len() as int) =~= r.addresses@);
    assert(texts(out@) =~= report_lines(*r));
    assert forall|i: int, j: int|
        0 <= i < r.globals@.len() && r.globals@[i].values is Some && 0 <= j
            < r.globals@[i].values.unwrap()@.len() implies texts(out@).contains(
            "  "@ + r.globals@[i].name@ + " := "@ + #[trigger] r.globals@[i].values.unwrap()@[j]@,
        ) by {
        every_global_value_is_reported(*r, i, j);
    }
    out
}

/// The lines printed after a wallet sync: `Syncing success` when no request
/// failed; otherwise `Syncing partial, some requests has failed:` followed by
/// one `- ` line per error.
pub open spec fn sync_lines(errors: Option<Seq<String>>) -> Seq<Seq<char>> {
    match errors {
        None => seq!["Syncing success"@],
        Some(es) => seq!["Syncing partial, some requests has failed:"@] + es.map_values(
            |e: String| "- "@ + e@,
        ),
    }
}

/// The lines printed after a wallet sync, given the errors of the failed
/// requests (`None` when all succeeded).
pub fn sync_report(errors: &Option<Vec<String>>) -> (lines: Vec<String>)
    ensures
        texts(lines@) == sync_lines(match errors {
            Some(es) => Some(es@),
            None => None,
        }),
{
    let mut out: Vec<String> = Vec::new();
    match errors {
        None => {
            push_line(&mut out, String::from_str("Syncing success"));
            assert(texts(out@) =~= seq!["Syncing success"@]);
        },
        Some(es) => {
            push_line(&mut out, String::from_str("Syncing partial, some requests has failed:"));
            let mut i: usize = 0;
            while i < es.len()
                invariant
                    i <= es@.len(),
                    texts(out@) == seq!["Syncing partial, some requests has failed:"@] + es@.take(
                        i as int,
                    ).map_values(|e: String| "- "@ + e@),
                decreases es.len() - i,
            {
                push_line(&mut out, joined("- ", es[i].as_str()));
                i = i + 1;
                assert(texts(out@) =~= seq!["Syncing partial, some requests has failed:"@] + es@.take(
                    i as int,
                ).map_values(|e: String| "- "@ + e@));
            }
            assert(es@.take(es@.len() as int) =~= es@);
        },
    }
    out
}

} // verus!
