//! What the exchange clients send: endpoint addresses built from symbols,
//! and the signed order query of Binance's test network.

use vstd::prelude::*;
use hmac::Mac;
use vstd::utf8::encode_utf8;
use crate::clock::{clock_millis, is_clock_reading};
use crate::text::{
    decimal, decimal_text, digit_char, join, joined, lowercase_of, signed_decimal, to_lowercase, to_uppercase, uppercase_of,
};

verus! {

/// `serde_json::Error`, the error of JSON encoding.
#[verifier::external_type_specification]
#[verifier::external_body]
pub struct ExJsonError(serde_json::Error);

/// Why a request could not be built.
#[derive(Debug, Clone, Copy, PartialEq, Eq, Structural)]
pub enum VenueError {
    /// The symbols could not be encoded as JSON.
    Encoding,
}

/// The server that receives TradingView alerts.
pub struct WebhookServer;

/// Beginning of Binance's test-network stream address.
pub open spec fn stream_base() -> Seq<char> {
    "wss://stream.testnet.binance.vision/ws/"@
}

/// Name of the top-of-book stream of a symbol.
pub open spec fn book_ticker_suffix() -> Seq<char> {
    "@bookTicker"@
}

/// The stream names of `symbols`: each lower-cased, followed by `@bookTicker`.
pub open spec fn stream_names(symbols: Seq<Seq<char>>) -> Seq<Seq<char>> {
    symbols.map_values(|s: Seq<char>| lowercase_of(s) + book_ticker_suffix())
}

/// The combined top-of-book stream of `symbols` on Binance's test network:
/// their stream names joined with `/`.
pub fn binance_stream_url(symbols: &Vec<String>) -> (url: String)
    ensures
        url@ == stream_base() + joined(stream_names(symbols.deep_view()), "/"@),
{
    let mut streams: Vec<String> = Vec::new();
    let n = symbols.len();
    let mut i: usize = 0;
    while i < n
        invariant
            n == symbols.len(),
            i <= n,
            streams.deep_view() == stream_names(symbols.deep_view()).take(i as int),
        decreases n - i,
    {
        let mut name = to_lowercase(symbols[i].as_str());
        name.append("@bookTicker");
        assert(symbols.deep_view()[i as int] == symbols[i as int]@);
        assert(name@ == stream_names(symbols.deep_view())[i as int]);
        let ghost before = streams.deep_view();
        streams.push(name);
        assert(streams.deep_view() =~= before.push(name@));
        assert(streams.deep_view() =~= stream_names(symbols.deep_view()).take(i + 1));
        i = i + 1;
    }
    assert(stream_names(symbols.deep_view()).take(n as int) =~= stream_names(symbols.deep_view()));
    let names = join(&streams, "/");
    let mut url = String::from_str("wss://stream.testnet.binance.vision/ws/");
    url.append(names.as_str());
    url
}

/// Beginning of Yahoo Finance's quote address.
pub open spec fn yahoo_base() -> Seq<char> {
    "https://query1.finance.yahoo.com/v7/finance/quote?symbols="@
}

/// Yahoo Finance's quote address for `symbols`, joined with commas.
pub fn yahoo_quote_url(symbols: &Vec<String>) -> (url: String)
    ensures
        url@ == yahoo_base() + joined(symbols.deep_view(), ","@),
{
    let list = join(symbols, ",");
    let mut url = String::from_str("https://query1.finance.yahoo.com/v7/finance/quote?symbols=");
    url.append(list.as_str());
    url
}

/// What `serde_json::to_string` writes for a list of strings: a JSON array
/// of JSON string literals.
pub uninterp spec fn json_string_array(items: Seq<Seq<char>>) -> Seq<char>;

/// `serde_json::to_string` on a list of strings. Its documentation names
/// the only failures: a `Serialize` impl that decides to fail, or a map with
/// non-string keys. Neither can happen for a `Vec<String>` (serde serializes
/// each string with `serialize_str`, which serde_json writes into a `Vec<u8>`),
/// so the call succeeds, and the text is named `json_string_array` of the
/// items.
#[verifier::external_body]
fn encode_json_strings(items: &Vec<String>) -> (r: Result<String, serde_json::Error>)
    ensures
        r is Ok,
        r matches Ok(text) ==> text@ == json_string_array(items.deep_view()),
{
    serde_json::to_string(items)
}

/// Beginning of Binance's book-ticker address.
pub open spec fn book_ticker_base() -> Seq<char> {
    "https://api.binance.com/api/v3/ticker/bookTicker?symbols="@
}

/// Binance's book-ticker address for symbols already written as a JSON array.
pub fn book_ticker_url_for(symbols_json: &str) -> (url: String)
    ensures
        url@ == book_ticker_base() + symbols_json@,
{
    let mut url = String::from_str("https://api.binance.com/api/v3/ticker/bookTicker?symbols=");
    url.append(symbols_json);
    url
}

/// Binance's book-ticker address for `symbols`, which the address takes as
/// a JSON array. Encoding a list of strings always succeeds, so the result is
/// always `Ok`.
pub fn binance_book_ticker_url(symbols: &Vec<String>) -> (r: Result<String, VenueError>)
    ensures
        r is Ok,
        r matches Ok(url) ==> url@ == book_ticker_base() + json_string_array(symbols.deep_view()),
{
    match encode_json_strings(symbols) {
        Ok(text) => Ok(book_ticker_url_for(text.as_str())),
        Err(_) => Err(VenueError::Encoding),
    }
}

/// The query of a market order on Binance: symbol, upper-cased side,
/// quantity text, receive window and timestamp.
pub open spec fn order_query(symbol: Seq<char>, side: Seq<char>, quantity: Seq<char>, timestamp: int) -> Seq<char> {
    "symbol="@ + symbol + "&side="@ + uppercase_of(side) + "&type=MARKET&quantity="@ + quantity
        + "&recvWindow=60000&timestamp="@ + signed_decimal(timestamp)
}

/// The query of a market order on Binance.
pub fn binance_order_query(symbol: &str, side: &str, quantity: &str, timestamp: i64) -> (q: String)
    ensures
        q@ == order_query(symbol@, side@, quantity@, timestamp as int),
{
    let mut q = String::from_str("symbol=");
    q.append(symbol);
    q.append("&side=");
    let upper = to_uppercase(side);
    q.append(upper.as_str());
    q.append("&type=MARKET&quantity=");
    q.append(quantity);
    q.append("&recvWindow=60000&timestamp=");
    let ts = decimal_text(timestamp);
    q.append(ts.as_str());
    q
}

/// The lower-case hexadecimal digit of `d` (`0 <= d < 16`).
pub open spec fn hex_digit(d: nat) -> char {
    if d < 10 {
        (('0' as nat) + d) as char
    } else {
        (('a' as nat) + (d - 10)) as char
    }
}

/// Two lower-case hexadecimal digits per byte, high half first.
pub open spec fn hex_lower(bytes: Seq<u8>) -> Seq<char>
    decreases bytes.len(),
{
    if bytes.len() == 0 {
        Seq::empty()
    } else {
        seq![hex_digit(bytes[0] as nat / 16), hex_digit(bytes[0] as nat % 16)] + hex_lower(bytes.drop_first())
    }
}

/// `hex::encode`: two lower-case hexadecimal digits per byte, in order.
#[verifier::external_body]
fn hex_encode(bytes: &[u8]) -> (text: String)
    ensures
        text@ == hex_lower(bytes@),
{
    hex::encode(bytes)
}

/// The HMAC-SHA256 tag of a message under a key.
pub uninterp spec fn hmac_sha256(key: Seq<u8>, message: Seq<u8>) -> Seq<u8>;

/// HMAC-SHA256 of `message` under `key` with the `hmac` and `sha2` crates:
/// `Hmac::<Sha256>::new_from_slice` (which accepts keys of every length),
/// `update`, `finalize`. The tag is named `hmac_sha256` of key and message,
/// and is 32 bytes long.
#[verifier::external_body]
fn hmac_sha256_tag(key: &[u8], message: &[u8]) -> (tag: Vec<u8>)
    ensures
        tag@ == hmac_sha256(key@, message@),
        tag@.len() == 32,
{
    let mut mac = hmac::Hmac::<sha2::Sha256>::new_from_slice(key).expect("HMAC takes keys of any length");
    mac.update(message);
    mac.finalize().into_bytes().to_vec()
}

/// The signature Binance expects for a query: the lower-case hexadecimal
/// HMAC-SHA256 tag of the query's UTF-8 bytes under the API secret's.
pub open spec fn query_signature(secret: Seq<u8>, query: Seq<u8>) -> Seq<char> {
    hex_lower(hmac_sha256(secret, query))
}

/// Signs a query with an API secret.
pub fn sign_query(secret: &str, query: &str) -> (signature: String)
    ensures
        signature@ == query_signature(encode_utf8(secret@), encode_utf8(query@)),
{
    let tag = hmac_sha256_tag(secret.as_bytes(), query.as_bytes());
    hex_encode(tag.as_slice())
}

/// Beginning of the order address of Binance's test network.
pub open spec fn order_base() -> Seq<char> {
    "https://testnet.binance.vision/api/v3/order?"@
}

/// The order address for a query and its signature.
pub fn signed_order_url_with(query: &str, signature: &str) -> (url: String)
    ensures
        url@ == order_base() + query@ + "&signature="@ + signature@,
{
    let mut url = String::from_str("https://testnet.binance.vision/api/v3/order?");
    url.append(query);
    url.append("&signature=");
    url.append(signature);
    url
}

/// The signed order address: the order query, then its signature.
pub open spec fn signed_order_address(
    secret: Seq<char>,
    symbol: Seq<char>,
    side: Seq<char>,
    quantity: Seq<char>,
    timestamp: int,
) -> Seq<char> {
    let q = order_query(symbol, side, quantity, timestamp);
    order_base() + q + "&signature="@ + query_signature(encode_utf8(secret), encode_utf8(q))
}

/// The signed address of a market order placed at `timestamp`.
pub fn signed_order_url_at(secret: &str, symbol: &str, side: &str, quantity: &str, timestamp: i64) -> (url: String)
    ensures
        url@ == signed_order_address(secret@, symbol@, side@, quantity@, timestamp as int),
{
    let query = binance_order_query(symbol, side, quantity, timestamp);
    let signature = sign_query(secret, query.as_str());
    signed_order_url_with(query.as_str(), signature.as_str())
}

/// The signed address of a market order placed now (the clock's current
/// milliseconds since the Unix epoch are the order's timestamp): the
/// timestamp is a reading that `now_millis` returned.
pub fn signed_order_url(secret: &str, symbol: &str, side: &str, quantity: &str) -> (url: String)
    ensures
        exists|timestamp: i64|
            is_clock_reading(timestamp)
            && url@ == #[trigger] signed_order_address(secret@, symbol@, side@, quantity@, timestamp as int),
{
    let timestamp = clock_millis();
    signed_order_url_at(secret, symbol, side, quantity, timestamp)
}

/// A number's decimal notation has at least one digit.
proof fn decimal_nonempty(n: nat)
    ensures
        decimal(n).len() >= 1,
    decreases n,
{
    if n >= 10 {
        decimal_nonempty(n / 10);
    }
}

/// Distinct digits are distinct characters.
proof fn digit_char_injective(d1: nat, d2: nat)
    requires
        d1 < 10,
        d2 < 10,
        digit_char(d1) == digit_char(d2),
    ensures
        d1 == d2,
{
    assert((digit_char(d1) as nat) == ('0' as nat) + d1);
    assert((digit_char(d2) as nat) == ('0' as nat) + d2);
}

/// Distinct numbers have distinct decimal notations.
proof fn decimal_injective(n: nat, m: nat)
    requires
        decimal(n) == decimal(m),
    ensures
        n == m,
    decreases n,
{
    if n < 10 && m < 10 {
        assert(decimal(n) == seq![digit_char(n)]);
        assert(decimal(m) == seq![digit_char(m)]);
        assert(decimal(n)[0] == digit_char(n));
        assert(decimal(m)[0] == digit_char(m));
        digit_char_injective(n, m);
    } else if n >= 10 && m >= 10 {
        decimal_nonempty(n / 10);
        decimal_nonempty(m / 10);
        assert(decimal(n).drop_last() =~= decimal(n / 10));
        assert(decimal(m).drop_last() =~= decimal(m / 10));
        assert(decimal(n) == decimal(n / 10).push(digit_char(n % 10)));
        assert(decimal(m) == decimal(m / 10).push(digit_char(m % 10)));
        assert(decimal(n).last() == digit_char(n % 10));
        assert(decimal(m).last() == digit_char(m % 10));
        digit_char_injective(n % 10, m % 10);
        decimal_injective(n / 10, m / 10);
        assert(n == 10 * (n / 10) + n % 10) by (nonlinear_arith);
        assert(m == 10 * (m / 10) + m % 10) by (nonlinear_arith);
    } else if n < 10 {
        decimal_nonempty(m / 10);
        assert(decimal(n).len() == 1);
        assert(decimal(m).len() == decimal(m / 10).len() + 1);
    } else {
        decimal_nonempty(n / 10);
        assert(decimal(m).len() == 1);
        assert(decimal(n).len() == decimal(n / 10).len() + 1);
    }
}

/// A decimal notation never starts with a minus sign.
proof fn decimal_starts_with_digit(n: nat)
    ensures
        decimal(n)[0] != '-',
    decreases n,
{
    decimal_nonempty(n);
    if n >= 10 {
        decimal_starts_with_digit(n / 10);
        decimal_nonempty(n / 10);
        assert(decimal(n)[0] == decimal(n / 10)[0]);
    }
}

/// Distinct signed numbers have distinct notations.
proof fn signed_decimal_injective(a: int, b: int)
    requires
        signed_decimal(a) == signed_decimal(b),
    ensures
        a == b,
{
    if a < 0 && b < 0 {
        assert(signed_decimal(a).drop_first() =~= decimal((-a) as nat));
        assert(signed_decimal(b).drop_first() =~= decimal((-b) as nat));
        decimal_injective((-a) as nat, (-b) as nat);
    } else if a >= 0 && b >= 0 {
        decimal_injective(a as nat, b as nat);
    } else if a < 0 {
        decimal_starts_with_digit(b as nat);
        assert(signed_decimal(a)[0] == '-');
    } else {
        decimal_starts_with_digit(a as nat);
        assert(signed_decimal(b)[0] == '-');
    }
}

/// The order query carries its timestamp: two orders of the same symbol,
/// side and quantity placed at different milliseconds have different
/// queries (so a query signed at another time, in seconds for instance, is
/// another query).
pub proof fn order_query_determines_timestamp(symbol: Seq<char>, side: Seq<char>, quantity: Seq<char>, t1: int, t2: int)
    requires
        order_query(symbol, side, quantity, t1) == order_query(symbol, side, quantity, t2),
    ensures
        t1 == t2,
{
    let prefix = "symbol="@ + symbol + "&side="@ + uppercase_of(side) + "&type=MARKET&quantity="@ + quantity
        + "&recvWindow=60000&timestamp="@;
    let q1 = order_query(symbol, side, quantity, t1);
    let q2 = order_query(symbol, side, quantity, t2);
    assert(q1 == prefix + signed_decimal(t1));
    assert(q2 == prefix + signed_decimal(t2));
    assert(q1.subrange(prefix.len() as int, q1.len() as int) =~= signed_decimal(t1));
    assert(q2.subrange(prefix.len() as int, q2.len() as int) =~= signed_decimal(t2));
    signed_decimal_injective(t1, t2);
}

} // verus!
