//! The RGB stock as it is kept on disk: three serialized parts stored under
//! fixed keys, and the rule that decides whether a stored stock is loaded or
//! a fresh in-memory stock is started.

use vstd::prelude::*;

verus! {

/// Key under which the serialized stash is stored.
pub const STASH: &'static str = "stash";
/// Key under which the serialized index is stored.
pub const INDEX: &'static str = "index";
/// Key under which the serialized state is stored.
pub const STATE: &'static str = "state";

/// The three serialized parts of an RGB stock.
pub struct StockData {
    /// Serialized stash (contracts, consignments, seals).
    pub stash: Vec<u8>,
    /// Serialized index.
    pub index: Vec<u8>,
    /// Serialized contract state.
    pub state: Vec<u8>,
}

/// The contents of a stock: stash, index and state bytes.
pub type StockView = (Seq<u8>, Seq<u8>, Seq<u8>);

impl View for StockData {
    type V = StockView;

    open spec fn view(&self) -> StockView {
        (self.stash@, self.index@, self.state@)
    }
}

/// Where the wallet's stock comes from when the tool starts.
pub enum StockSource {
    /// Nothing usable is stored: start an empty in-memory stock.
    InMemory,
    /// Deserialize the stock from these stored parts.
    Load(StockData),
}

/// `None` for a fresh in-memory stock, the stored parts otherwise.
pub open spec fn source_view(s: StockSource) -> Option<StockView> {
    match s {
        StockSource::InMemory => None,
        StockSource::Load(d) => Some(d@),
    }
}

/// The bytes a lookup found, an absent key counting as no bytes.
pub open spec fn found_or_empty(v: Option<Seq<u8>>) -> Seq<u8> {
    match v {
        Some(b) => b,
        None => Seq::empty(),
    }
}

/// The stock to start from, given what the lookups of the three keys found:
/// a stored stock is loaded only when all three parts are present and
/// non-empty; otherwise a fresh in-memory stock is used.
pub open spec fn stock_source_spec(
    stash: Option<Seq<u8>>,
    index: Option<Seq<u8>>,
    state: Option<Seq<u8>>,
) -> Option<StockView> {
    let (a, b, c) = (found_or_empty(stash), found_or_empty(index), found_or_empty(state));
    if a.len() == 0 || b.len() == 0 || c.len() == 0 {
        None
    } else {
        Some((a, b, c))
    }
}

fn found_bytes(v: Option<Vec<u8>>) -> (r: Vec<u8>)
    ensures
        r@ == found_or_empty(match v {
            Some(b) => Some(b@),
            None => None,
        }),
{
    match v {
        Some(b) => b,
        None => Vec::new(),
    }
}

/// The view of an optional byte vector.
pub open spec fn opt_bytes(v: Option<Vec<u8>>) -> Option<Seq<u8>> {
    match v {
        Some(b) => Some(b@),
        None => None,
    }
}

/// Decides, from what was read under the three keys, whether the stored
/// stock is loaded or a fresh in-memory stock is started.
pub fn stock_source(stash: Option<Vec<u8>>, index: Option<Vec<u8>>, state: Option<Vec<u8>>) -> (r:
    StockSource)
    ensures
        source_view(r) == stock_source_spec(opt_bytes(stash), opt_bytes(index), opt_bytes(state)),
        r matches StockSource::Load(d) ==> d.stash@ == found_or_empty(opt_bytes(stash))
            && d.index@ == found_or_empty(opt_bytes(index)) && d.state@ == found_or_empty(
            opt_bytes(state),
        ),
{
    let a = found_bytes(stash);
    let b = found_bytes(index);
    let c = found_bytes(state);
    if a.len() == 0 || b.len() == 0 || c.len() == 0 {
        StockSource::InMemory
    } else {
        StockSource::Load(StockData { stash: a, index: b, state: c })
    }
}

/// One record to write: a key and its bytes.
pub struct Record {
    /// The key.
    pub key: String,
    /// The bytes stored under it.
    pub value: Vec<u8>,
}

/// The records to write into the database named `db`.
pub struct StoreBatch {
    /// Name (path) of the database.
    pub db: String,
    /// The records, in the order they are written.
    pub records: Vec<Record>,
}

/// A batch as the database name and the (key, bytes) pairs it writes.
pub open spec fn batch_view(b: StoreBatch) -> (Seq<char>, Seq<(Seq<char>, Seq<u8>)>) {
    (b.db@, b.records@.map_values(|r: Record| (r.key@, r.value@)))
}

/// The records that keep a stock in the database `db`: its stash, index and
/// state under their keys.
pub open spec fn store_spec(d: StockView, db: Seq<char>) -> (Seq<char>, Seq<(Seq<char>, Seq<u8>)>) {
    (db, seq![(STASH@, d.0), (INDEX@, d.1), (STATE@, d.2)])
}

/// What a read of `key` gives after the records were written: the bytes of
/// the last record with that key, if any.
pub open spec fn read_back(records: Seq<(Seq<char>, Seq<u8>)>, key: Seq<char>) -> Option<Seq<u8>>
    decreases records.len(),
{
    if records.len() == 0 {
        None
    } else if records.last().0 == key {
        Some(records.last().1)
    } else {
        read_back(records.drop_last(), key)
    }
}

/// The batch that stores `d` into the database `db`. This three-record
/// layout is the library's own: it mirrors the keys the loader reads
/// (`STASH`, `INDEX`, `STATE`), so that what is written here is what
/// `stock_source` is given on the next start.
pub fn stock_records(d: &StockData, db: &str) -> (b: StoreBatch)
    ensures
        batch_view(b) == store_spec(d@, db@),
        b.db@ == db@,
        b.records@.len() == 3,
        b.records@[0].key@ == STASH@ && b.records@[0].value@ == d.stash@,
        b.records@[1].key@ == INDEX@ && b.records@[1].value@ == d.index@,
        b.records@[2].key@ == STATE@ && b.records@[2].value@ == d.state@,
{
    let mut records: Vec<Record> = Vec::new();
    records.push(Record { key: String::from_str(STASH), value: d.stash.clone() });
    records.push(Record { key: String::from_str(INDEX), value: d.index.clone() });
    records.push(Record { key: String::from_str(STATE), value: d.state.clone() });
    let b = StoreBatch { db: String::from_str(db), records };
    assert(batch_view(b).1 =~= store_spec(d@, db@).1);
    b
}

/// Law: a stock written by `stock_records` is what the next start loads,
/// whenever all three of its parts are non-empty; a stock with an empty part
/// comes back as a fresh in-memory stock, since the loader starts an
/// in-memory stock whenever a part is missing or empty.
pub proof fn stored_stock_is_loaded(d: StockView, db: Seq<char>)
    ensures
        ({
            let recs = store_spec(d, db).1;
            stock_source_spec(
                read_back(recs, STASH@),
                read_back(recs, INDEX@),
                read_back(recs, STATE@),
            ) == if d.0.len() > 0 && d.1.len() > 0 && d.2.len() > 0 {
                Some(d)
            } else {
                None
            }
        }),
{
    reveal_strlit("stash");
    reveal_strlit("index");
    reveal_strlit("state");
    let recs = store_spec(d, db).1;
    assert(STASH@ != INDEX@ && STASH@ != STATE@ && INDEX@ != STATE@) by {
        assert(STASH@[0] != INDEX@[0]);
        assert(STASH@[3] != STATE@[3]);
        assert(INDEX@[0] != STATE@[0]);
    }
    assert(recs.drop_last() =~= seq![(STASH@, d.0), (INDEX@, d.1)]);
    assert(recs.drop_last().drop_last() =~= seq![(STASH@, d.0)]);
    assert(recs.drop_last().drop_last().drop_last() =~= Seq::<(Seq<char>, Seq<u8>)>::empty());
    assert(read_back(recs, STATE@) == Some(d.2));
    assert(read_back(recs.drop_last(), INDEX@) == Some(d.1));
    assert(read_back(recs, INDEX@) == Some(d.1));
    assert(read_back(recs.drop_last().drop_last(), STASH@) == Some(d.0));
    assert(read_back(recs.drop_last(), STASH@) == Some(d.0));
    assert(read_back(recs, STASH@) == Some(d.0));
}

/// Law: the loader keeps each stored part in its own place: bytes read
/// under `stash`, `index` and `state`, all non-empty, are loaded as the
/// stash, the index and the state, in that order, unchanged.
pub proof fn loader_keeps_each_part(a: Seq<u8>, b: Seq<u8>, c: Seq<u8>)
    requires
        a.len() > 0,
        b.len() > 0,
        c.len() > 0,
    ensures
        stock_source_spec(Some(a), Some(b), Some(c)) matches Some(v) && v.0 == a && v.1 == b
            && v.2 == c,
{
}

/// Law: the loader starts an in-memory stock whenever one of the three
/// parts is missing or empty, whatever the others hold.
pub proof fn loader_needs_every_part(a: Option<Seq<u8>>, b: Option<Seq<u8>>, c: Option<Seq<u8>>)
    requires
        found_or_empty(a).len() == 0 || found_or_empty(b).len() == 0 || found_or_empty(c).len()
            == 0,
    ensures
        stock_source_spec(a, b, c) is None,
{
}

/// Law: each part of a stock is written under its own key: reading back the
/// records gives the stash under `stash`, the index under `index` and the
/// state under `state`.
pub proof fn records_hold_their_parts(stash: Seq<u8>, index: Seq<u8>, state: Seq<u8>, db: Seq<char>)
    ensures
        read_back(store_spec((stash, index, state), db).1, "stash"@) == Some(stash),
        read_back(store_spec((stash, index, state), db).1, "index"@) == Some(index),
        read_back(store_spec((stash, index, state), db).1, "state"@) == Some(state),
{
    let d = (stash, index, state);
    stored_stock_is_loaded(d, db);
    reveal_strlit("stash");
    reveal_strlit("index");
    reveal_strlit("state");
    let recs = store_spec(d, db).1;
    assert(STASH@ =~= "stash"@);
    assert(INDEX@ =~= "index"@);
    assert(STATE@ =~= "state"@);
    assert(STASH@ != INDEX@ && STASH@ != STATE@ && INDEX@ != STATE@) by {
        assert(STASH@[0] != INDEX@[0]);
        assert(STASH@[3] != STATE@[3]);
        assert(INDEX@[0] != STATE@[0]);
    }
    assert(recs.drop_last() =~= seq![(STASH@, d.0), (INDEX@, d.1)]);
    assert(recs.drop_last().drop_last() =~= seq![(STASH@, d.0)]);
    assert(read_back(recs.drop_last(), INDEX@) == Some(d.1));
    assert(read_back(recs.drop_last().drop_last(), STASH@) == Some(d.0));
    assert(read_back(recs.drop_last(), STASH@) == Some(d.0));
}

} // verus!
