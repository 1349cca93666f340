use discount_report::decimal::to_decimal;
use discount_report::library::{
    appids_csv, library_params, ownership_url, played_games, price_info_url, price_params, Game,
};
use discount_report::price::{
    parse_prices, read_entry, read_overview, resolve_entry, resolve_prices, PriceEntry,
    PriceOverview, ReportError,
};
use discount_report::report::{format_row, header_row, price_report, report_lines};

fn game(appid: u64, name: &str, playtime: u64) -> Game {
    Game::new(appid, name.to_string(), playtime)
}

fn pair(a: &str, b: &str) -> (String, String) {
    (a.to_string(), b.to_string())
}

const HEADER: &str = "id, name, minutes played, full price, discounted price";

#[test]
fn decimal_of_zero_and_extremes() {
    assert_eq!(to_decimal(0), "0");
    assert_eq!(to_decimal(7), "7");
    assert_eq!(to_decimal(10), "10");
    assert_eq!(to_decimal(1234567890), "1234567890");
    assert_eq!(to_decimal(u64::MAX), "18446744073709551615");
}

#[test]
fn played_keeps_nonzero_playtime_in_order() {
    let games = vec![
        game(1, "a", 5),
        game(2, "b", 0),
        game(3, "c", 1),
        game(4, "d", 0),
        game(5, "e", 99),
    ];
    let played = played_games(&games);
    assert_eq!(played, vec![game(1, "a", 5), game(3, "c", 1), game(5, "e", 99)]);
}

#[test]
fn played_of_empty_and_all_unplayed() {
    assert!(played_games(&vec![]).is_empty());
    assert!(played_games(&vec![game(1, "a", 0), game(2, "b", 0)]).is_empty());
}

#[test]
fn appids_joined_with_commas_in_order() {
    assert_eq!(appids_csv(&vec![game(10, "A", 1), game(20, "B", 2)]), "10,20");
    assert_eq!(appids_csv(&vec![game(20, "B", 2), game(10, "A", 1), game(0, "Z", 3)]), "20,10,0");
    assert_eq!(appids_csv(&vec![]), "");
}

#[test]
fn library_query_parameters() {
    assert_eq!(
        library_params("abc123", "76561198000000000"),
        vec![
            pair("key", "abc123"),
            pair("steamid", "76561198000000000"),
            pair("include_appinfo", "true"),
        ]
    );
    assert_eq!(ownership_url(), "https://api.steampowered.com/IPlayerService/GetOwnedGames/v1");
}

#[test]
fn price_query_parameters() {
    let games = vec![game(10, "A", 1), game(20, "B", 2)];
    assert_eq!(
        price_params("k", &games),
        vec![pair("key", "k"), pair("appids", "10,20"), pair("filters", "price_overview")]
    );
    assert_eq!(price_info_url(), "https://store.steampowered.com/api/appdetails");
}

#[test]
fn unplayed_game_is_not_queried() {
    let library = vec![game(10, "A", 0), game(20, "B", 120)];
    let played = played_games(&library);
    assert_eq!(played, vec![game(20, "B", 120)]);
    assert_eq!(
        price_params("k", &played),
        vec![pair("key", "k"), pair("appids", "20"), pair("filters", "price_overview")]
    );
}

#[test]
fn discounted_game_is_reported() {
    let played = vec![game(20, "B", 120)];
    let body = r#"{"20":{"success":true,"data":{"price_overview":{"initial":1000,"final":500,"discount_percent":50}}}}"#;
    let lines = price_report(&played, body).unwrap();
    assert_eq!(lines, vec![HEADER.to_string(), "20, B, 120, 1000, 500".to_string()]);
}

#[test]
fn false_entry_resolves_to_zero() {
    let played = vec![game(20, "B", 120)];
    let prices = parse_prices(r#"{"20": false}"#).unwrap();
    let entry = read_entry(&prices, 20);
    assert_eq!(entry, PriceEntry::NoData);
    assert_eq!(resolve_entry(entry, 20), Ok(PriceOverview::new(0, 0, 0)));
    assert_eq!(resolve_prices(&played, &prices), Ok(vec![PriceOverview::new(0, 0, 0)]));
    assert_eq!(price_report(&played, r#"{"20": false}"#).unwrap(), vec![HEADER.to_string()]);
}

#[test]
fn absent_entry_is_not_reported() {
    let played = vec![game(20, "B", 120), game(30, "C", 5)];
    let body = r#"{"30":{"success":true,"data":{"price_overview":{"initial":900,"final":300,"discount_percent":67}}}}"#;
    let lines = price_report(&played, body).unwrap();
    assert_eq!(lines, vec![HEADER.to_string(), "30, C, 5, 900, 300".to_string()]);
}

#[test]
fn data_not_an_object_is_not_reported() {
    let played = vec![game(20, "B", 120)];
    let prices = parse_prices(r#"{"20":{"success":true,"data":[1,2]}}"#).unwrap();
    assert_eq!(read_entry(&prices, 20), PriceEntry::NoData);
    let prices = parse_prices(r#"{"20":{"success":false}}"#).unwrap();
    assert_eq!(read_entry(&prices, 20), PriceEntry::NoData);
    assert_eq!(
        price_report(&played, r#"{"20":{"success":true,"data":"none"}}"#).unwrap(),
        vec![HEADER.to_string()]
    );
}

#[test]
fn zero_discount_is_not_reported() {
    let played = vec![game(20, "B", 120), game(40, "D", 7)];
    let body = r#"{"20":{"data":{"price_overview":{"initial":1000,"final":1000,"discount_percent":0}}},
                   "40":{"data":{"price_overview":{"initial":2000,"final":1500,"discount_percent":25}}}}"#;
    let lines = price_report(&played, body).unwrap();
    assert_eq!(lines, vec![HEADER.to_string(), "40, D, 7, 2000, 1500".to_string()]);
}

#[test]
fn overview_is_read_from_fields() {
    let v = parse_prices(r#"{"initial":1999,"final":999,"discount_percent":50,"currency":"EUR"}"#).unwrap();
    assert_eq!(read_overview(&v), Some(PriceOverview::new(1999, 999, 50)));
    let v = parse_prices(r#"{"initial":1999,"final":999}"#).unwrap();
    assert_eq!(read_overview(&v), None);
    let v = parse_prices(r#"{"initial":-1,"final":999,"discount_percent":50}"#).unwrap();
    assert_eq!(read_overview(&v), None);
}

#[test]
fn malformed_overview_is_an_error() {
    let played = vec![game(20, "B", 120)];
    let body = r#"{"20":{"data":{"price_overview":{"initial":"ten","final":5,"discount_percent":50}}}}"#;
    assert_eq!(
        price_report(&played, body),
        Err(ReportError::MalformedPriceOverview { appid: 20 })
    );
    let body = r#"{"20":{"data":{"price_overview":[1000,500]}}}"#;
    assert_eq!(
        price_report(&played, body),
        Err(ReportError::MalformedPriceOverview { appid: 20 })
    );
    assert_eq!(
        resolve_entry(PriceEntry::Data { overview: None }, 7),
        Err(ReportError::MalformedPriceOverview { appid: 7 })
    );
}

#[test]
fn first_malformed_overview_is_reported() {
    let played = vec![game(1, "x", 1), game(2, "y", 1), game(3, "z", 1)];
    let body = r#"{"1":false,"2":{"data":{"price_overview":null}},"3":{"data":{"price_overview":7}}}"#;
    assert_eq!(
        price_report(&played, body),
        Err(ReportError::MalformedPriceOverview { appid: 2 })
    );
}

#[test]
fn malformed_price_response_is_an_error() {
    let played = vec![game(20, "B", 120)];
    assert_eq!(price_report(&played, "not json"), Err(ReportError::MalformedPriceResponse));
    assert_eq!(price_report(&played, "[1,2,3]"), Err(ReportError::MalformedPriceResponse));
    assert_eq!(price_report(&vec![], "{}").unwrap(), vec![HEADER.to_string()]);
}

#[test]
fn rows_follow_library_order() {
    let games = vec![game(3, "C", 30), game(1, "A", 10), game(2, "B", 20)];
    let overviews = vec![
        PriceOverview::new(300, 150, 50),
        PriceOverview::new(100, 100, 0),
        PriceOverview::new(200, 20, 90),
    ];
    assert_eq!(
        report_lines(&games, &overviews),
        vec![HEADER.to_string(), "3, C, 30, 300, 150".to_string(), "2, B, 20, 200, 20".to_string()]
    );
    assert_eq!(header_row(), HEADER);
    assert_eq!(
        format_row(&game(440, "Team, Two", 61), &PriceOverview::new(0, 0, 100)),
        "440, Team, Two, 61, 0, 0"
    );
}

#[test]
fn missing_price_overview_resolves_to_zero() {
    let played = vec![game(20, "B", 120), game(30, "C", 5)];
    let body = r#"{"20":{"success":true,"data":{}},
                   "30":{"success":true,"data":{"price_overview":{"initial":900,"final":300,"discount_percent":67}}}}"#;
    let prices = parse_prices(body).unwrap();
    assert_eq!(read_entry(&prices, 20), PriceEntry::NoData);
    assert_eq!(
        resolve_prices(&played, &prices),
        Ok(vec![PriceOverview::new(0, 0, 0), PriceOverview::new(900, 300, 67)])
    );
    assert_eq!(
        price_report(&played, body).unwrap(),
        vec![HEADER.to_string(), "30, C, 5, 900, 300".to_string()]
    );
    assert_eq!(
        price_report(&vec![game(20, "B", 120)], r#"{"20":{"data":{}}}"#).unwrap(),
        vec![HEADER.to_string()]
    );
}
