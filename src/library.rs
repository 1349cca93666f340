//! The owned library: game records, the played filter, and the two requests.
use vstd::prelude::*;
use vstd::string::StringExecFns;
use crate::decimal::{decimal, push_decimal};

verus! {

/// One owned game as the ownership service reports it.
#[derive(Debug, PartialEq, Eq)]
pub struct Game {
    pub appid: u64,
    pub name: String,
    /// Total minutes played.
    pub playtime_forever: u64,
}

impl Game {
    pub fn new(appid: u64, name: String, playtime_forever: u64) -> (r: Game)
        ensures
            r.appid == appid,
            r.name@ == name@,
            r.playtime_forever == playtime_forever,
    {
        Game { appid, name, playtime_forever }
    }

    /// A field-by-field copy of the record.
    pub fn duplicate(&self) -> (r: Game)
        ensures
            r == *self,
    {
        Game { appid: self.appid, name: self.name.clone(), playtime_forever: self.playtime_forever }
    }
}

/// A game counts as played when it has any recorded play time.
pub open spec fn is_played(g: Game) -> bool {
    g.playtime_forever > 0
}

/// The played games of `games`, in their original order.
pub open spec fn played(games: Seq<Game>) -> Seq<Game> {
    games.filter(|g: Game| is_played(g))
}

/// Keeps exactly the games with a non-zero play time, in their original order.
pub fn played_games(games: &Vec<Game>) -> (r: Vec<Game>)
    ensures
        r@ == played(games@),
{
    let mut out: Vec<Game> = Vec::new();
    let mut i: usize = 0;
    while i < games.len()
        invariant
            i <= games@.len(),
            out@ == played(games@.subrange(0, i as int)),
        decreases games@.len() - i,
    {
        let ghost pre = games@.subrange(0, i as int);
        proof {
            assert(games@.subrange(0, i + 1) =~= pre.push(games@[i as int]));
            pre.lemma_filter_push(games@[i as int], |g: Game| is_played(g));
        }
        if games[i].playtime_forever > 0 {
            out.push(games[i].duplicate());
        }
        i = i + 1;
    }
    assert(games@.subrange(0, games@.len() as int) =~= games@);
    out
}

/// The appids of `games` in decimal, in order, separated by commas.
pub open spec fn appid_list(games: Seq<Game>) -> Seq<char>
    decreases games.len(),
{
    if games.len() == 0 {
        Seq::empty()
    } else if games.len() == 1 {
        decimal(games[0].appid as nat)
    } else {
        appid_list(games.drop_last()) + ","@ + decimal(games.last().appid as nat)
    }
}

/// Joins the appids of `games` with commas, keeping their order.
pub fn appids_csv(games: &Vec<Game>) -> (r: String)
    ensures
        r@ == appid_list(games@),
{
    let mut out = String::new();
    let mut i: usize = 0;
    while i < games.len()
        invariant
            i <= games@.len(),
            out@ == appid_list(games@.subrange(0, i as int)),
        decreases games@.len() - i,
    {
        let ghost before = out@;
        proof {
            let next = games@.subrange(0, i + 1);
            assert(next.drop_last() =~= games@.subrange(0, i as int));
            assert(next.last() == games@[i as int]);
        }
        if i > 0 {
            out.append(",");
        }
        push_decimal(&mut out, games[i].appid);
        proof {
            if i == 0 {
                assert(out@ =~= appid_list(games@.subrange(0, 1)));
            } else {
                assert(out@ =~= before + ","@ + decimal(games@[i as int].appid as nat));
            }
        }
        i = i + 1;
    }
    assert(games@.subrange(0, games@.len() as int) =~= games@);
    out
}

/// Address of the ownership service's owned-games method.
pub fn ownership_url() -> (r: &'static str)
    ensures
        r@ == "https://api.steampowered.com/IPlayerService/GetOwnedGames/v1"@,
{
    "https://api.steampowered.com/IPlayerService/GetOwnedGames/v1"
}

/// Address of the storefront's price information endpoint.
pub fn price_info_url() -> (r: &'static str)
    ensures
        r@ == "https://store.steampowered.com/api/appdetails"@,
{
    "https://store.steampowered.com/api/appdetails"
}

/// The query parameters, as (name, value) views, of a request in order.
pub open spec fn params_view(params: Seq<(String, String)>) -> Seq<(Seq<char>, Seq<char>)> {
    params.map_values(|p: (String, String)| (p.0@, p.1@))
}

/// Query of the owned-games request for one user.
pub fn library_params(key: &str, steam_id: &str) -> (r: Vec<(String, String)>)
    ensures
        params_view(r@) == seq![
            ("key"@, key@),
            ("steamid"@, steam_id@),
            ("include_appinfo"@, "true"@),
        ],
{
    let mut r: Vec<(String, String)> = Vec::new();
    r.push((String::from_str("key"), String::from_str(key)));
    r.push((String::from_str("steamid"), String::from_str(steam_id)));
    r.push((String::from_str("include_appinfo"), String::from_str("true")));
    assert(params_view(r@) =~= seq![
        ("key"@, key@),
        ("steamid"@, steam_id@),
        ("include_appinfo"@, "true"@),
    ]);
    r
}

/// Query of the price request for the given games.
pub fn price_params(key: &str, games: &Vec<Game>) -> (r: Vec<(String, String)>)
    ensures
        params_view(r@) == seq![
            ("key"@, key@),
            ("appids"@, appid_list(games@)),
            ("filters"@, "price_overview"@),
        ],
{
    let mut r: Vec<(String, String)> = Vec::new();
    r.push((String::from_str("key"), String::from_str(key)));
    r.push((String::from_str("appids"), appids_csv(games)));
    r.push((String::from_str("filters"), String::from_str("price_overview")));
    assert(params_view(r@) =~= seq![
        ("key"@, key@),
        ("appids"@, appid_list(games@)),
        ("filters"@, "price_overview"@),
    ]);
    r
}

} // verus!
