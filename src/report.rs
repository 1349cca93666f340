//! The report: a header row, then one row per played game on discount.
use vstd::prelude::*;
use vstd::string::StringExecFns;
use crate::decimal::{decimal, push_decimal};
use crate::json::{json_is_object, json_parse};
use crate::library::Game;
use crate::price::{
    entry_of, parse_prices, resolve_all, resolve_prices, resolved, zero_overview, PriceEntry,
    PriceOverview, ReportError,
};

verus! {

/// The column labels of the report.
pub open spec fn header_text() -> Seq<char> {
    "id, name, minutes played, full price, discounted price"@
}

/// The row of a game and its price overview.
pub open spec fn row_text(g: Game, po: PriceOverview) -> Seq<char> {
    decimal(g.appid as nat) + ", "@ + g.name@ + ", "@ + decimal(g.playtime_forever as nat) + ", "@
        + decimal(po.initial as nat) + ", "@ + decimal(po.final_price as nat)
}

/// The rows of the games whose overview (at the same position) has a
/// discount, in order.
pub open spec fn report_rows(games: Seq<Game>, overviews: Seq<PriceOverview>) -> Seq<Seq<char>>
    decreases games.len(),
{
    if games.len() == 0 {
        Seq::empty()
    } else {
        let rest = report_rows(games.drop_last(), overviews.drop_last());
        if overviews.last().discount_percent > 0 {
            rest.push(row_text(games.last(), overviews.last()))
        } else {
            rest
        }
    }
}

/// The whole report: the header, then the rows.
pub open spec fn report_text(games: Seq<Game>, overviews: Seq<PriceOverview>) -> Seq<Seq<char>> {
    seq![header_text()] + report_rows(games, overviews)
}

/// The report that a price response gives for `games`.
pub open spec fn report_of(games: Seq<Game>, body: Seq<char>) -> Result<Seq<Seq<char>>, ReportError> {
    match json_parse(body) {
        Some(prices) => if json_is_object(prices) {
            match resolve_all(games, prices) {
                Ok(overviews) => Ok(report_text(games, overviews)),
                Err(e) => Err(e),
            }
        } else {
            Err(ReportError::MalformedPriceResponse)
        },
        None => Err(ReportError::MalformedPriceResponse),
    }
}

/// The text of each line.
pub open spec fn lines_view(lines: Seq<String>) -> Seq<Seq<char>> {
    lines.map_values(|s: String| s@)
}

/// The header row.
pub fn header_row() -> (r: String)
    ensures
        r@ == header_text(),
{
    String::from_str("id, name, minutes played, full price, discounted price")
}

/// The row of one game: appid, name, minutes played, full and discounted price.
pub fn format_row(g: &Game, po: &PriceOverview) -> (r: String)
    ensures
        r@ == row_text(*g, *po),
{
    let mut r = String::new();
    push_decimal(&mut r, g.appid);
    r.append(", ");
    r.append(g.name.as_str());
    r.append(", ");
    push_decimal(&mut r, g.playtime_forever);
    r.append(", ");
    push_decimal(&mut r, po.initial);
    r.append(", ");
    push_decimal(&mut r, po.final_price);
    assert(r@ =~= row_text(*g, *po));
    r
}

/// The report lines for `games`, each with the overview at its position.
pub fn report_lines(games: &Vec<Game>, overviews: &Vec<PriceOverview>) -> (r: Vec<String>)
    requires
        games@.len() == overviews@.len(),
    ensures
        lines_view(r@) == report_text(games@, overviews@),
{
    let mut r: Vec<String> = Vec::new();
    r.push(header_row());
    let mut i: usize = 0;
    while i < games.len()
        invariant
            i <= games@.len(),
            games@.len() == overviews@.len(),
            lines_view(r@) == report_text(
                games@.subrange(0, i as int),
                overviews@.subrange(0, i as int),
            ),
        decreases games@.len() - i,
    {
        let ghost before = r@;
        proof {
            let g = games@.subrange(0, i + 1);
            let o = overviews@.subrange(0, i + 1);
            assert(g.drop_last() =~= games@.subrange(0, i as int));
            assert(o.drop_last() =~= overviews@.subrange(0, i as int));
            assert(g.last() == games@[i as int]);
            assert(o.last() == overviews@[i as int]);
        }
        if overviews[i].discount_percent > 0 {
            r.push(format_row(&games[i], &overviews[i]));
            assert(lines_view(r@) =~= lines_view(before).push(r@.last()@));
        }
        i = i + 1;
    }
    assert(games@.subrange(0, games@.len() as int) =~= games@);
    assert(overviews@.subrange(0, overviews@.len() as int) =~= overviews@);
    r
}

proof fn lemma_resolve_all_ok(games: Seq<Game>, prices: serde_json::Value)
    ensures
        resolve_all(games, prices) is Ok ==> {
            let o = resolve_all(games, prices)->Ok_0;
            &&& o.len() == games.len()
            &&& forall|j: int|
                0 <= j < games.len() ==> resolved(entry_of(prices, games[j].appid), games[j].appid)
                    == Ok::<PriceOverview, ReportError>(#[trigger] o[j])
        },
    decreases games.len(),
{
    if games.len() > 0 {
        lemma_resolve_all_ok(games.drop_last(), prices);
    }
}

/// Builds the report for `games` from the text of a price response.
pub fn price_report(games: &Vec<Game>, body: &str) -> (r: Result<Vec<String>, ReportError>)
    ensures
        match r {
            Ok(lines) => report_of(games@, body@) == Ok::<Seq<Seq<char>>, ReportError>(
                lines_view(lines@),
            ),
            Err(e) => report_of(games@, body@) == Err::<Seq<Seq<char>>, ReportError>(e),
        },
{
    let prices = match parse_prices(body) {
        Ok(p) => p,
        Err(e) => return Err(e),
    };
    let overviews = match resolve_prices(games, &prices) {
        Ok(o) => o,
        Err(e) => return Err(e),
    };
    proof {
        lemma_resolve_all_ok(games@, prices);
    }
    Ok(report_lines(games, &overviews))
}

/// A game whose overview has no discount adds no row: the rows are those of
/// the other games.
pub proof fn lemma_undiscounted_not_reported(
    games: Seq<Game>,
    overviews: Seq<PriceOverview>,
    i: int,
)
    requires
        games.len() == overviews.len(),
        0 <= i < games.len(),
        overviews[i].discount_percent == 0,
    ensures
        report_rows(games, overviews) == report_rows(games.remove(i), overviews.remove(i)),
    decreases games.len(),
{
    let n = games.len() - 1;
    if i == n {
        assert(games.remove(i) =~= games.drop_last());
        assert(overviews.remove(i) =~= overviews.drop_last());
    } else {
        lemma_undiscounted_not_reported(games.drop_last(), overviews.drop_last(), i);
        assert(games.remove(i).drop_last() =~= games.drop_last().remove(i));
        assert(overviews.remove(i).drop_last() =~= overviews.drop_last().remove(i));
        assert(games.remove(i).last() == games.last());
        assert(overviews.remove(i).last() == overviews.last());
    }
}

/// A game whose price entry is absent, has no `data` object, or has no
/// `price_overview` in it, resolves to the zero overview and adds no row to
/// the report.
pub proof fn lemma_unpriced_not_reported(games: Seq<Game>, prices: serde_json::Value, i: int)
    requires
        0 <= i < games.len(),
        entry_of(prices, games[i].appid) == PriceEntry::NoData,
    ensures
        resolved(entry_of(prices, games[i].appid), games[i].appid) == Ok::<
            PriceOverview,
            ReportError,
        >(zero_overview()),
        resolve_all(games, prices) is Ok ==> {
            let o = resolve_all(games, prices)->Ok_0;
            &&& o[i] == zero_overview()
            &&& report_rows(games, o) == report_rows(games.remove(i), o.remove(i))
        },
{
    lemma_resolve_all_ok(games, prices);
    if resolve_all(games, prices) is Ok {
        let o = resolve_all(games, prices)->Ok_0;
        assert(o[i] == zero_overview());
        lemma_undiscounted_not_reported(games, o, i);
    }
}

} // verus!
