//! Price overviews and how an entry of a price response resolves to one.
use vstd::prelude::*;
use crate::decimal::{decimal, to_decimal};
use crate::json::{json_is_object, json_member, json_parse, json_u64, member, parse_json};
use crate::library::Game;

verus! {

/// A price snapshot of one product, in cents and percent.
#[derive(Debug, Clone, Copy, PartialEq, Eq, Structural)]
pub struct PriceOverview {
    pub initial: u64,
    pub final_price: u64,
    pub discount_percent: u64,
}

/// The overview that stands for a product without price data.
pub open spec fn zero_overview() -> PriceOverview {
    PriceOverview { initial: 0, final_price: 0, discount_percent: 0 }
}

impl PriceOverview {
    pub fn new(initial: u64, final_price: u64, discount_percent: u64) -> (r: PriceOverview)
        ensures
            r == (PriceOverview { initial, final_price, discount_percent }),
    {
        PriceOverview { initial, final_price, discount_percent }
    }

    /// The overview of a product without price data: all zero.
    pub fn zero() -> (r: PriceOverview)
        ensures
            r == zero_overview(),
    {
        PriceOverview { initial: 0, final_price: 0, discount_percent: 0 }
    }
}

/// What the price response holds for one appid.
#[derive(Debug, Clone, Copy, PartialEq, Eq, Structural)]
pub enum PriceEntry {
    /// The entry has a `data` object with a `price_overview` member;
    /// `overview` is what that member describes, when it is an object with the
    /// three integer fields.
    Data { overview: Option<PriceOverview> },
    /// The entry is absent, its `data` is missing or not an object (the
    /// service answers `false` for an unknown or delisted appid), or its `data`
    /// has no `price_overview` member (a free or unpriced product).
    NoData,
}

/// Why a report could not be made.
#[derive(Debug, Clone, Copy, PartialEq, Eq, Structural)]
pub enum ReportError {
    /// The price response is not JSON, or not a JSON object.
    MalformedPriceResponse,
    /// The entry of this appid has a `data` object whose `price_overview`
    /// member is present but malformed.
    MalformedPriceOverview { appid: u64 },
}

/// The unsigned integer member of `v` under `key`, if there is one.
pub open spec fn u64_member(v: serde_json::Value, key: Seq<char>) -> Option<u64> {
    match json_member(v, key) {
        Some(f) => json_u64(f),
        None => None,
    }
}

/// The price overview that a JSON value describes, if it describes one.
pub open spec fn overview_of(v: serde_json::Value) -> Option<PriceOverview> {
    if json_is_object(v) {
        match (u64_member(v, "initial"@), u64_member(v, "final"@), u64_member(v, "discount_percent"@)) {
            (Some(initial), Some(final_price), Some(discount_percent)) => Some(
                PriceOverview { initial, final_price, discount_percent },
            ),
            _ => None,
        }
    } else {
        None
    }
}

/// The entry of `appid` in the price response `prices`.
pub open spec fn entry_of(prices: serde_json::Value, appid: u64) -> PriceEntry {
    match json_member(prices, decimal(appid as nat)) {
        Some(entry) => match json_member(entry, "data"@) {
            Some(data) => if json_is_object(data) {
                match json_member(data, "price_overview"@) {
                    Some(po) => PriceEntry::Data { overview: overview_of(po) },
                    None => PriceEntry::NoData,
                }
            } else {
                PriceEntry::NoData
            },
            None => PriceEntry::NoData,
        },
        None => PriceEntry::NoData,
    }
}

/// The overview an entry resolves to: its own, zero without price data, and
/// an error when its `price_overview` is present but malformed.
pub open spec fn resolved(entry: PriceEntry, appid: u64) -> Result<PriceOverview, ReportError> {
    match entry {
        PriceEntry::Data { overview: Some(po) } => Ok(po),
        PriceEntry::Data { overview: None } => Err(ReportError::MalformedPriceOverview { appid }),
        PriceEntry::NoData => Ok(zero_overview()),
    }
}

/// The overviews of `games` in order, or the error of the first game whose
/// entry does not resolve.
pub open spec fn resolve_all(games: Seq<Game>, prices: serde_json::Value) -> Result<
    Seq<PriceOverview>,
    ReportError,
>
    decreases games.len(),
{
    if games.len() == 0 {
        Ok(Seq::empty())
    } else {
        match resolve_all(games.drop_last(), prices) {
            Ok(rest) => match resolved(entry_of(prices, games.last().appid), games.last().appid) {
                Ok(po) => Ok(rest.push(po)),
                Err(e) => Err(e),
            },
            Err(e) => Err(e),
        }
    }
}

fn u64_field(v: &serde_json::Value, key: &str) -> (r: Option<u64>)
    ensures
        r == u64_member(*v, key@),
{
    match member(v, key) {
        Some(f) => f.as_u64(),
        None => None,
    }
}

/// Reads a price overview from a JSON value.
pub fn read_overview(v: &serde_json::Value) -> (r: Option<PriceOverview>)
    ensures
        r == overview_of(*v),
{
    if !v.is_object() {
        return None;
    }
    let initial = u64_field(v, "initial");
    let final_price = u64_field(v, "final");
    let discount_percent = u64_field(v, "discount_percent");
    match (initial, final_price, discount_percent) {
        (Some(initial), Some(final_price), Some(discount_percent)) => Some(
            PriceOverview { initial, final_price, discount_percent },
        ),
        _ => None,
    }
}

/// Looks up the entry of `appid` in the price response `prices`.
pub fn read_entry(prices: &serde_json::Value, appid: u64) -> (r: PriceEntry)
    ensures
        r == entry_of(*prices, appid),
{
    let key = to_decimal(appid);
    let entry = match member(prices, key.as_str()) {
        Some(e) => e,
        None => return PriceEntry::NoData,
    };
    let data = match member(&entry, "data") {
        Some(d) => d,
        None => return PriceEntry::NoData,
    };
    if !data.is_object() {
        return PriceEntry::NoData;
    }
    match member(&data, "price_overview") {
        Some(po) => PriceEntry::Data { overview: read_overview(&po) },
        None => PriceEntry::NoData,
    }
}

/// Resolves an entry of `appid` to its price overview.
pub fn resolve_entry(entry: PriceEntry, appid: u64) -> (r: Result<PriceOverview, ReportError>)
    ensures
        r == resolved(entry, appid),
{
    match entry {
        PriceEntry::Data { overview: Some(po) } => Ok(po),
        PriceEntry::Data { overview: None } => Err(ReportError::MalformedPriceOverview { appid }),
        PriceEntry::NoData => Ok(PriceOverview::zero()),
    }
}

proof fn lemma_resolve_all_err_extends(games: Seq<Game>, prices: serde_json::Value, k: int)
    requires
        0 <= k <= games.len(),
        resolve_all(games.subrange(0, k), prices) is Err,
    ensures
        resolve_all(games, prices) == resolve_all(games.subrange(0, k), prices),
    decreases games.len() - k,
{
    if k == games.len() {
        assert(games.subrange(0, k) =~= games);
    } else {
        let shorter = games.drop_last();
        assert(shorter.subrange(0, k) =~= games.subrange(0, k));
        lemma_resolve_all_err_extends(shorter, prices, k);
    }
}

/// Resolves the overview of each game from the parsed price response.
pub fn resolve_prices(games: &Vec<Game>, prices: &serde_json::Value) -> (r: Result<
    Vec<PriceOverview>,
    ReportError,
>)
    ensures
        match r {
            Ok(o) => resolve_all(games@, *prices) == Ok::<Seq<PriceOverview>, ReportError>(o@),
            Err(e) => resolve_all(games@, *prices) == Err::<Seq<PriceOverview>, ReportError>(e),
        },
{
    let mut out: Vec<PriceOverview> = Vec::new();
    let mut i: usize = 0;
    while i < games.len()
        invariant
            i <= games@.len(),
            resolve_all(games@.subrange(0, i as int), *prices) == Ok::<
                Seq<PriceOverview>,
                ReportError,
            >(out@),
        decreases games@.len() - i,
    {
        let appid = games[i].appid;
        let res = resolve_entry(read_entry(prices, appid), appid);
        proof {
            let next = games@.subrange(0, i + 1);
            assert(next.drop_last() =~= games@.subrange(0, i as int));
            assert(next.last() == games@[i as int]);
        }
        match res {
            Ok(po) => {
                out.push(po);
            },
            Err(e) => {
                proof {
                    lemma_resolve_all_err_extends(games@, *prices, i + 1);
                }
                return Err(e);
            },
        }
        i = i + 1;
    }
    assert(games@.subrange(0, games@.len() as int) =~= games@);
    Ok(out)
}

/// Parses a price response; it must be a JSON object.
pub fn parse_prices(body: &str) -> (r: Result<serde_json::Value, ReportError>)
    ensures
        match json_parse(body@) {
            Some(v) => if json_is_object(v) {
                r == Ok::<serde_json::Value, ReportError>(v)
            } else {
                r == Err::<serde_json::Value, ReportError>(ReportError::MalformedPriceResponse)
            },
            None => r == Err::<serde_json::Value, ReportError>(ReportError::MalformedPriceResponse),
        },
{
    match parse_json(body) {
        Ok(v) => if v.is_object() {
            Ok(v)
        } else {
            Err(ReportError::MalformedPriceResponse)
        },
        Err(_) => Err(ReportError::MalformedPriceResponse),
    }
}

} // verus!
