use hft_engine::venues::{
    binance_book_ticker_url, binance_order_query, binance_stream_url, book_ticker_url_for, sign_query,
    signed_order_url, signed_order_url_at, signed_order_url_with, yahoo_quote_url,
};

fn strings(items: &[&str]) -> Vec<String> {
    items.iter().map(|s| s.to_string()).collect()
}

#[test]
fn stream_url_lower_cases_and_joins_symbols() {
    assert_eq!(
        binance_stream_url(&strings(&["BTCUSDT", "ETHUSDT"])),
        "wss://stream.testnet.binance.vision/ws/btcusdt@bookTicker/ethusdt@bookTicker"
    );
    assert_eq!(binance_stream_url(&strings(&[])), "wss://stream.testnet.binance.vision/ws/");
}

#[test]
fn yahoo_url_joins_with_commas() {
    assert_eq!(
        yahoo_quote_url(&strings(&["ROG.SW", "NESN.SW"])),
        "https://query1.finance.yahoo.com/v7/finance/quote?symbols=ROG.SW,NESN.SW"
    );
}

#[test]
fn book_ticker_url_takes_a_json_array() {
    assert_eq!(
        binance_book_ticker_url(&strings(&["BTCUSDT", "ETHUSDT"])).unwrap(),
        "https://api.binance.com/api/v3/ticker/bookTicker?symbols=[\"BTCUSDT\",\"ETHUSDT\"]"
    );
    assert_eq!(
        book_ticker_url_for("[\"X\"]"),
        "https://api.binance.com/api/v3/ticker/bookTicker?symbols=[\"X\"]"
    );
}

#[test]
fn order_query_upper_cases_the_side() {
    assert_eq!(
        binance_order_query("BTCUSDT", "buy", "0.50000", 1700000000123),
        "symbol=BTCUSDT&side=BUY&type=MARKET&quantity=0.50000&recvWindow=60000&timestamp=1700000000123"
    );
    assert_eq!(
        binance_order_query("X", "sell", "1", -42),
        "symbol=X&side=SELL&type=MARKET&quantity=1&recvWindow=60000&timestamp=-42"
    );
    assert!(binance_order_query("X", "sell", "1", i64::MIN).ends_with("timestamp=-9223372036854775808"));
    assert!(binance_order_query("X", "sell", "1", 0).ends_with("timestamp=0"));
}

#[test]
fn signature_is_hex_hmac_sha256() {
    // RFC 4231, test case 2.
    assert_eq!(
        sign_query("Jefe", "what do ya want for nothing?"),
        "5bdcc146bf60754e6a042426089575c75a003f089d2739839dec58b964ec3843"
    );
    // Binance's own signing example.
    assert_eq!(
        sign_query(
            "NhqPtmdSJYdKjVHjA7PZj4Mge3R5YNiP1e3UZjInClVN65XAbvqqM6A7H5fATj0j",
            "symbol=LTCBTC&side=BUY&type=LIMIT&timeInForce=GTC&quantity=1&price=0.1&recvWindow=5000&timestamp=1499827319559"
        ),
        "c8db56825ae71d6d79447849e617115f4a920fa2acdcab2b053c4b2838bd6b71"
    );
}

#[test]
fn signed_url_appends_the_signature() {
    assert_eq!(
        signed_order_url_with("a=1", "ff"),
        "https://testnet.binance.vision/api/v3/order?a=1&signature=ff"
    );
    let url = signed_order_url_at("secret", "ETHUSDT", "sell", "2.00000", 5);
    let query = "symbol=ETHUSDT&side=SELL&type=MARKET&quantity=2.00000&recvWindow=60000&timestamp=5";
    assert_eq!(
        url,
        format!("https://testnet.binance.vision/api/v3/order?{}&signature={}", query, sign_query("secret", query))
    );
    let now = signed_order_url("secret", "ETHUSDT", "buy", "1.00000");
    assert!(now.starts_with("https://testnet.binance.vision/api/v3/order?symbol=ETHUSDT&side=BUY&type=MARKET&quantity=1.00000&recvWindow=60000&timestamp="));
    assert!(now.contains("&signature="));
}
