use coin_info::decimal::decimal_string;
use coin_info::event_loop::{is_quit, Action, App, Event, FetchError, Key, Phase};
use coin_info::table::{column_headers, column_widths, row_cells, table_rows, Rect};
use coin_info::ticker::{filter_tickers, SymbolFilter, Ticker};

fn ticker(symbol: &str) -> Ticker {
    Ticker {
        symbol: symbol.to_string(),
        price_usd: format!("{}.5", symbol.len()),
        percent_change_1h: "0.1".to_string(),
        percent_change_24h: "-1.2".to_string(),
        percent_change_7d: "3.4".to_string(),
        volume_usd: "1000000".to_string(),
    }
}

fn symbols(ts: &[Ticker]) -> Vec<String> {
    ts.iter().map(|t| t.symbol.clone()).collect()
}

fn filter_of(names: &[&str]) -> SymbolFilter {
    let v: Vec<String> = names.iter().map(|s| s.to_string()).collect();
    SymbolFilter::new(&v)
}

fn rect(width: u16, height: u16) -> Rect {
    Rect { x: 0, y: 0, width, height }
}

#[test]
fn two_symbols_keep_two_rows_in_order() {
    let batch = vec![ticker("BTC"), ticker("ETH"), ticker("XRP")];
    let kept = filter_tickers(batch, &filter_of(&["btc", "eth"]));
    assert_eq!(symbols(&kept), vec!["BTC", "ETH"]);
    let rows = table_rows(&kept);
    assert_eq!(rows.len(), 2);
    assert_eq!(rows[0][1], "BTC");
    assert_eq!(rows[1][1], "ETH");
}

#[test]
fn filter_order_follows_batch_not_filter() {
    let batch = vec![ticker("BTC"), ticker("ETH"), ticker("XRP"), ticker("LTC")];
    let kept = filter_tickers(batch, &filter_of(&["ltc", "btc"]));
    assert_eq!(symbols(&kept), vec!["BTC", "LTC"]);
}

#[test]
fn empty_filter_keeps_all_five_in_order() {
    let names = ["BTC", "ETH", "XRP", "BCH", "ADA"];
    let batch: Vec<Ticker> = names.iter().map(|n| ticker(n)).collect();
    let kept = filter_tickers(batch, &filter_of(&[]));
    assert_eq!(symbols(&kept), names.to_vec());
    let rows = table_rows(&kept);
    assert_eq!(rows.len(), 5);
    for (i, row) in rows.iter().enumerate() {
        assert_eq!(row[0], (i + 1).to_string());
        assert_eq!(row[1], names[i]);
    }
}

#[test]
fn filter_user_symbols_are_lower_cased() {
    let f = filter_of(&["ETH", "Btc"]);
    assert_eq!(f.symbols, vec!["eth".to_string(), "btc".to_string()]);
    let kept = filter_tickers(vec![ticker("btc"), ticker("Eth"), ticker("XRP")], &f);
    assert_eq!(symbols(&kept), vec!["btc", "Eth"]);
}

#[test]
fn filter_with_no_match_is_empty() {
    let kept = filter_tickers(vec![ticker("BTC"), ticker("ETH")], &filter_of(&["doge"]));
    assert!(kept.is_empty());
    let kept = filter_tickers(vec![], &filter_of(&["btc"]));
    assert!(kept.is_empty());
}

#[test]
fn filter_keeps_repeated_symbols() {
    let kept = filter_tickers(vec![ticker("BTC"), ticker("XRP"), ticker("BTC")], &filter_of(&["btc"]));
    assert_eq!(symbols(&kept), vec!["BTC", "BTC"]);
}

#[test]
fn accepts_is_case_insensitive_on_record_symbol() {
    let f = filter_of(&["btc"]);
    assert!(f.accepts("BTC"));
    assert!(f.accepts("btc"));
    assert!(!f.accepts("ETH"));
    assert!(filter_of(&[]).accepts("anything"));
}

#[test]
fn decimal_text_of_integers() {
    assert_eq!(decimal_string(0), "0");
    assert_eq!(decimal_string(7), "7");
    assert_eq!(decimal_string(10), "10");
    assert_eq!(decimal_string(1203), "1203");
    assert_eq!(decimal_string(u64::MAX), "18446744073709551615");
}

#[test]
fn headers_and_widths_are_fixed() {
    assert_eq!(column_headers(), vec!["index", "symbol", "usd", "1h", "24h", "7d", "24h volume"]);
    assert_eq!(column_widths(), vec![6, 10, 10, 10, 10, 10, 15]);
}

#[test]
fn row_holds_label_and_fields() {
    let t = Ticker {
        symbol: "BTC".to_string(),
        price_usd: "6500.12".to_string(),
        percent_change_1h: "0.5".to_string(),
        percent_change_24h: "-2.1".to_string(),
        percent_change_7d: "10.0".to_string(),
        volume_usd: "4000000000.0".to_string(),
    };
    assert_eq!(row_cells(12, &t), vec!["12", "BTC", "6500.12", "0.5", "-2.1", "10.0", "4000000000.0"]);
}

#[test]
fn rows_are_numbered_from_one_whatever_the_order() {
    let a = table_rows(&vec![ticker("ZZZ"), ticker("AAA"), ticker("MMM")]);
    let b = table_rows(&vec![ticker("AAA"), ticker("MMM"), ticker("ZZZ")]);
    let la: Vec<String> = a.iter().map(|r| r[0].clone()).collect();
    let lb: Vec<String> = b.iter().map(|r| r[0].clone()).collect();
    assert_eq!(la, vec!["1", "2", "3"]);
    assert_eq!(la, lb);
    assert!(table_rows(&vec![]).is_empty());
}

#[test]
fn drawing_twice_gives_the_same_table() {
    let mut app = App::new();
    app.resize(rect(80, 24));
    app.apply_fetch(Ok(vec![ticker("BTC"), ticker("ETH")]), &filter_of(&[]));
    let first = app.table();
    let second = app.table();
    assert_eq!(first.area, second.area);
    assert_eq!(first.rows, second.rows);
    assert_eq!(first.area, rect(80, 24));
}

#[test]
fn new_app_is_empty_and_running() {
    let app = App::new();
    assert!(app.tickers.is_empty());
    assert_eq!(app.size, Rect::zero());
    assert_eq!(app.phase, Phase::Running);
}

#[test]
fn quit_key_terminates_and_later_ticks_do_not_fetch() {
    let mut app = App::new();
    assert_eq!(app.on_event(Event::Tick), Action::Fetch);
    assert_eq!(app.on_event(Event::Input(Key::Char('q'))), Action::Quit);
    assert_eq!(app.phase, Phase::Terminated);
    assert_eq!(app.on_event(Event::Tick), Action::Quit);
    assert_eq!(app.on_event(Event::Input(Key::Char('x'))), Action::Quit);
    assert_eq!(app.phase, Phase::Terminated);
}

#[test]
fn other_keys_only_redraw() {
    let mut app = App::new();
    assert_eq!(app.on_event(Event::Input(Key::Char('Q'))), Action::Render);
    assert_eq!(app.on_event(Event::Input(Key::Other)), Action::Render);
    assert_eq!(app.phase, Phase::Running);
    assert!(is_quit(Key::Char('q')));
    assert!(!is_quit(Key::Char('Q')));
    assert!(!is_quit(Key::Other));
}

#[test]
fn failed_fetch_keeps_previous_table() {
    let mut app = App::new();
    let f = filter_of(&[]);
    app.apply_fetch(Ok(vec![ticker("BTC"), ticker("ETH")]), &f);
    let before = app.table().rows;
    assert_eq!(app.apply_fetch(Err(FetchError::Decode), &f), Action::Render);
    assert_eq!(app.table().rows, before);
    assert_eq!(app.apply_fetch(Err(FetchError::Network), &f), Action::Render);
    assert_eq!(symbols(&app.tickers), vec!["BTC", "ETH"]);
}

#[test]
fn fetched_batch_replaces_records_wholesale() {
    let mut app = App::new();
    let f = filter_of(&["eth", "xrp"]);
    app.apply_fetch(Ok(vec![ticker("BTC"), ticker("ETH")]), &f);
    assert_eq!(symbols(&app.tickers), vec!["ETH"]);
    app.apply_fetch(Ok(vec![ticker("XRP"), ticker("ETH"), ticker("BTC")]), &f);
    assert_eq!(symbols(&app.tickers), vec!["XRP", "ETH"]);
    let rows = app.table().rows;
    assert_eq!(rows[0][0], "1");
    assert_eq!(rows[1][0], "2");
}

#[test]
fn shrinking_terminal_updates_size() {
    let mut app = App::new();
    assert!(app.resize(rect(80, 40)));
    assert!(!app.resize(rect(80, 40)));
    app.apply_fetch(Ok(vec![ticker("BTC")]), &filter_of(&[]));
    assert!(app.resize(rect(80, 20)));
    assert_eq!(app.size.height, 20);
    assert_eq!(app.table().area, rect(80, 20));
    assert_eq!(symbols(&app.tickers), vec!["BTC"]);
    assert_eq!(app.phase, Phase::Running);
}
