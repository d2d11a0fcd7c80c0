//! Shared machinery of the venue adapters: the wire request shape, request
//! signing, the canonical side and type words, client order identifiers and
//! the venue registry.

use vstd::prelude::*;
use vstd::string::{StrSliceExecFns, StringExecFns, StringSliceAdditionalSpecFns};
use vstd::utf8::encode_utf8;

use crate::codec::{
    b64_of, base64_encode, hex_encode, hmac_sha256, hmac_sha256_of, hmac_sha512, hmac_sha512_of,
    spec_hex_lower,
};
use crate::fixed::{dec_value, Fixed, MAX_RAW};
use crate::types::{OrderType, Side};

verus! {

/// HTTP method of a wire request.
#[derive(Clone, Copy, Debug, PartialEq, Eq, Structural)]
pub enum HttpMethod {
    Get,
    Post,
    Delete,
}

/// One fully prepared venue call: everything the transport needs to send
/// it. Building and signing it is the library's work; sending it is not.
#[derive(Clone, Debug)]
pub struct WireRequest {
    pub method: HttpMethod,
    pub url: String,
    pub headers: Vec<(String, String)>,
    pub body: String,
}

/// Character-wise string equality.
pub fn str_eq(a: &str, b: &str) -> (r: bool)
    ensures
        r == (a@ == b@),
{
    let n: usize = a.unicode_len();
    let m: usize = b.unicode_len();
    if n != m {
        proof {
            assert(a@ != b@);
        }
        return false;
    }
    let mut i: usize = 0;
    while i < n
        invariant
            i <= n,
            n == a@.len() == b@.len(),
            forall|k: int| 0 <= k < i ==> a@[k] == b@[k],
        decreases n - i,
    {
        if a.get_char(i) != b.get_char(i) {
            return false;
        }
        i = i + 1;
    }
    proof {
        assert(a@ =~= b@);
    }
    true
}

/// HMAC-SHA256 of a message under a secret, in lowercase hex.
pub open spec fn sign_hex_sha256_spec(secret: Seq<char>, msg: Seq<char>) -> Seq<char> {
    spec_hex_lower(hmac_sha256_of(encode_utf8(secret), encode_utf8(msg)))
}

pub fn sign_hex_sha256(secret: &str, msg: &str) -> (r: String)
    ensures
        r@ == sign_hex_sha256_spec(secret@, msg@),
{
    let tag = hmac_sha256(secret.as_bytes(), msg.as_bytes());
    hex_encode(tag.as_slice())
}

/// HMAC-SHA256 of a message under a secret, in standard base64.
pub open spec fn sign_b64_sha256_spec(secret: Seq<char>, msg: Seq<char>) -> Seq<char> {
    b64_of(hmac_sha256_of(encode_utf8(secret), encode_utf8(msg)))
}

pub fn sign_b64_sha256(secret: &str, msg: &str) -> (r: String)
    ensures
        r@ == sign_b64_sha256_spec(secret@, msg@),
{
    let tag = hmac_sha256(secret.as_bytes(), msg.as_bytes());
    base64_encode(tag.as_slice())
}

/// HMAC-SHA512 of a message under a secret, in lowercase hex.
pub open spec fn sign_hex_sha512_spec(secret: Seq<char>, msg: Seq<char>) -> Seq<char> {
    spec_hex_lower(hmac_sha512_of(encode_utf8(secret), encode_utf8(msg)))
}

pub fn sign_hex_sha512(secret: &str, msg: &str) -> (r: String)
    ensures
        r@ == sign_hex_sha512_spec(secret@, msg@),
{
    let tag = hmac_sha512(secret.as_bytes(), msg.as_bytes());
    hex_encode(tag.as_slice())
}

/// The words venues use for a side, by case convention.
pub fn side_upper(side: Side) -> (r: &'static str)
    ensures
        side == Side::Buy ==> r@ == "BUY"@,
        side == Side::Sell ==> r@ == "SELL"@,
{
    match side {
        Side::Buy => "BUY",
        Side::Sell => "SELL",
    }
}

pub fn side_lower(side: Side) -> (r: &'static str)
    ensures
        side == Side::Buy ==> r@ == "buy"@,
        side == Side::Sell ==> r@ == "sell"@,
{
    match side {
        Side::Buy => "buy",
        Side::Sell => "sell",
    }
}

pub fn side_title(side: Side) -> (r: &'static str)
    ensures
        side == Side::Buy ==> r@ == "Buy"@,
        side == Side::Sell ==> r@ == "Sell"@,
{
    match side {
        Side::Buy => "Buy",
        Side::Sell => "Sell",
    }
}

pub fn order_type_upper(t: OrderType) -> (r: &'static str)
    ensures
        t == OrderType::Limit ==> r@ == "LIMIT"@,
        t == OrderType::Market ==> r@ == "MARKET"@,
{
    match t {
        OrderType::Limit => "LIMIT",
        OrderType::Market => "MARKET",
    }
}

pub fn order_type_lower(t: OrderType) -> (r: &'static str)
    ensures
        t == OrderType::Limit ==> r@ == "limit"@,
        t == OrderType::Market ==> r@ == "market"@,
{
    match t {
        OrderType::Limit => "limit",
        OrderType::Market => "market",
    }
}

pub fn order_type_title(t: OrderType) -> (r: &'static str)
    ensures
        t == OrderType::Limit ==> r@ == "Limit"@,
        t == OrderType::Market ==> r@ == "Market"@,
{
    match t {
        OrderType::Limit => "Limit",
        OrderType::Market => "Market",
    }
}

/// Parsed form of a decimal string, within the supported range.
pub open spec fn spec_parse_fixed(s: Seq<char>) -> Option<Fixed> {
    match dec_value(s) {
        Some(v) => if v <= MAX_RAW {
            Some(Fixed { raw: v as u64 })
        } else {
            None
        },
        None => None,
    }
}

/// A parsed amount, or zero where the venue string does not read as one.
pub open spec fn spec_parse_fixed_or_zero(s: Seq<char>) -> Fixed {
    match spec_parse_fixed(s) {
        Some(f) => f,
        None => Fixed { raw: 0 },
    }
}

/// Parse a venue decimal string.
pub fn parse_fixed(s: &str) -> (r: Option<Fixed>)
    ensures
        r == spec_parse_fixed(s@),
        r matches Some(f) ==> f.wf(),
{
    Fixed::parse(s)
}

/// Parse a venue decimal string, reading failures as zero.
pub fn parse_fixed_or_zero(s: &str) -> (r: Fixed)
    ensures
        r == spec_parse_fixed_or_zero(s@),
        r.wf(),
{
    match Fixed::parse(s) {
        Some(f) => f,
        None => Fixed { raw: 0 },
    }
}

/// The parsed form of an optional venue string.
pub open spec fn spec_parse_opt(s: Option<String>) -> Option<Fixed> {
    match s {
        Some(v) => spec_parse_fixed(v@),
        None => None,
    }
}

/// The parsed form of an optional venue string, reading absence and
/// failures as zero.
pub open spec fn spec_parse_opt_or_zero(s: Option<String>) -> Fixed {
    match s {
        Some(v) => spec_parse_fixed_or_zero(v@),
        None => Fixed { raw: 0 },
    }
}

/// The whole-contract count an amount maps to: its whole part where it is
/// a whole number, else one. Venues that trade integer contract units take
/// this count, and a fractional amount falls back to a single contract.
pub open spec fn spec_whole_contracts(q: Fixed) -> int {
    if (q.raw as int) % (crate::fixed::SCALE as int) == 0 {
        (q.raw as int) / (crate::fixed::SCALE as int)
    } else {
        1
    }
}

pub fn whole_contracts(q: Fixed) -> (r: u64)
    requires
        q.wf(),
    ensures
        r == spec_whole_contracts(q),
        r <= 1_000_000_000,
{
    if q.raw % crate::fixed::SCALE == 0 {
        q.raw / crate::fixed::SCALE
    } else {
        1
    }
}

/// A lowercase hex character.
pub open spec fn is_hex_lower(c: char) -> bool {
    ('0' <= c && c <= '9') || ('a' <= c && c <= 'f')
}

/// The shape of a client order identifier: the prefix `cs_`, then sixteen
/// lowercase hex characters.
pub open spec fn is_client_order_id(s: Seq<char>) -> bool {
    &&& s.len() == 19
    &&& s.take(3) == "cs_"@
    &&& forall|i: int| 3 <= i < 19 ==> is_hex_lower(#[trigger] s[i])
}

/// Relies on uuid's `Uuid::new_v4` and its simple form: 32 lowercase hex
/// characters. The value is random; only its shape is stated.
#[verifier::external_body]
fn uuid_simple_hex() -> (r: String)
    ensures
        r@.len() == 32,
        forall|i: int| 0 <= i < 32 ==> is_hex_lower(#[trigger] r@[i]),
{
    uuid::Uuid::new_v4().simple().to_string()
}

/// Generate a fresh client order identifier: `cs_` and the first sixteen
/// hex characters of a random UUID.
pub fn generate_client_order_id() -> (r: String)
    ensures
        is_client_order_id(r@),
{
    let id = uuid_simple_hex();
    let head = id.as_str().substring_char(0, 16);
    let mut out = String::from_str("cs_");
    out.append(head);
    proof {
        reveal_strlit("cs_");
        assert(out@.take(3) =~= "cs_"@);
        assert(forall|i: int| 3 <= i < 19 ==> out@[i] == id@[i - 3]);
    }
    out
}

/// The eleven venues an adapter exists for.
#[derive(Clone, Copy, Debug, PartialEq, Eq, Structural)]
pub enum Venue {
    Binance,
    Bybit,
    Okx,
    Mexc,
    Bitget,
    Kucoin,
    Gateio,
    Bingx,
    Coinex,
    Lbank,
    Htx,
}

/// The stable key a venue is configured and addressed by.
pub fn venue_id(v: Venue) -> (r: &'static str)
    ensures
        r@ == spec_venue_id(v),
{
    match v {
        Venue::Binance => "binance",
        Venue::Bybit => "bybit",
        Venue::Okx => "okx",
        Venue::Mexc => "mexc",
        Venue::Bitget => "bitget",
        Venue::Kucoin => "kucoin",
        Venue::Gateio => "gateio",
        Venue::Bingx => "bingx",
        Venue::Coinex => "coinex",
        Venue::Lbank => "lbank",
        Venue::Htx => "htx",
    }
}

pub open spec fn spec_venue_id(v: Venue) -> Seq<char> {
    match v {
        Venue::Binance => "binance"@,
        Venue::Bybit => "bybit"@,
        Venue::Okx => "okx"@,
        Venue::Mexc => "mexc"@,
        Venue::Bitget => "bitget"@,
        Venue::Kucoin => "kucoin"@,
        Venue::Gateio => "gateio"@,
        Venue::Bingx => "bingx"@,
        Venue::Coinex => "coinex"@,
        Venue::Lbank => "lbank"@,
        Venue::Htx => "htx"@,
    }
}

/// The venue a stable key names, if any.
pub open spec fn spec_venue_from_id(id: Seq<char>) -> Option<Venue> {
    if id == "binance"@ {
        Some(Venue::Binance)
    } else if id == "bybit"@ {
        Some(Venue::Bybit)
    } else if id == "okx"@ {
        Some(Venue::Okx)
    } else if id == "mexc"@ {
        Some(Venue::Mexc)
    } else if id == "bitget"@ {
        Some(Venue::Bitget)
    } else if id == "kucoin"@ {
        Some(Venue::Kucoin)
    } else if id == "gateio"@ {
        Some(Venue::Gateio)
    } else if id == "bingx"@ {
        Some(Venue::Bingx)
    } else if id == "coinex"@ {
        Some(Venue::Coinex)
    } else if id == "lbank"@ {
        Some(Venue::Lbank)
    } else if id == "htx"@ {
        Some(Venue::Htx)
    } else {
        None
    }
}

/// Select the adapter a configuration names; an unknown key selects none.
pub fn venue_from_id(id: &str) -> (r: Option<Venue>)
    ensures
        r == spec_venue_from_id(id@),
{
    if str_eq(id, "binance") {
        Some(Venue::Binance)
    } else if str_eq(id, "bybit") {
        Some(Venue::Bybit)
    } else if str_eq(id, "okx") {
        Some(Venue::Okx)
    } else if str_eq(id, "mexc") {
        Some(Venue::Mexc)
    } else if str_eq(id, "bitget") {
        Some(Venue::Bitget)
    } else if str_eq(id, "kucoin") {
        Some(Venue::Kucoin)
    } else if str_eq(id, "gateio") {
        Some(Venue::Gateio)
    } else if str_eq(id, "bingx") {
        Some(Venue::Bingx)
    } else if str_eq(id, "coinex") {
        Some(Venue::Coinex)
    } else if str_eq(id, "lbank") {
        Some(Venue::Lbank)
    } else if str_eq(id, "htx") {
        Some(Venue::Htx)
    } else {
        None
    }
}

/// The escape of one character in a JSON string: quote and backslash take
/// a backslash, the named control characters their short escapes, the
/// remaining control characters the four-digit form, and everything else
/// stands as it is.
pub open spec fn json_esc_char(c: char) -> Seq<char> {
    if c == '"' {
        seq!['\\', '"']
    } else if c == '\\' {
        seq!['\\', '\\']
    } else if c == '\u{8}' {
        seq!['\\', 'b']
    } else if c == '\t' {
        seq!['\\', 't']
    } else if c == '\n' {
        seq!['\\', 'n']
    } else if c == '\u{c}' {
        seq!['\\', 'f']
    } else if c == '\r' {
        seq!['\\', 'r']
    } else if (c as int) < 32 {
        seq![
            '\\',
            'u',
            '0',
            '0',
            crate::codec::hex_lower_char((c as int) / 16),
            crate::codec::hex_lower_char((c as int) % 16),
        ]
    } else {
        seq![c]
    }
}

/// A JSON string body: every character under its escape.
pub open spec fn json_escaped(s: Seq<char>) -> Seq<char>
    decreases s.len(),
{
    if s.len() == 0 {
        Seq::empty()
    } else {
        json_esc_char(s.first()) + json_escaped(s.drop_first())
    }
}

/// A quoted, escaped JSON string.
pub open spec fn json_str(s: Seq<char>) -> Seq<char> {
    seq!['"'] + json_escaped(s) + seq!['"']
}

/// Append one character's JSON escape.
fn push_json_char(out: &mut String, c: char)
    ensures
        final(out)@ == old(out)@ + json_esc_char(c),
{
    let ghost prefix = out@;
    if c == '"' {
        out.push('\\');
        out.push('"');
        proof {
            assert(out@ =~= prefix + json_esc_char(c));
        }
    } else if c == '\\' {
        out.push('\\');
        out.push('\\');
        proof {
            assert(out@ =~= prefix + json_esc_char(c));
        }
    } else if c == '\u{8}' {
        out.push('\\');
        out.push('b');
        proof {
            assert(out@ =~= prefix + json_esc_char(c));
        }
    } else if c == '\t' {
        out.push('\\');
        out.push('t');
        proof {
            assert(out@ =~= prefix + json_esc_char(c));
        }
    } else if c == '\n' {
        out.push('\\');
        out.push('n');
        proof {
            assert(out@ =~= prefix + json_esc_char(c));
        }
    } else if c == '\u{c}' {
        out.push('\\');
        out.push('f');
        proof {
            assert(out@ =~= prefix + json_esc_char(c));
        }
    } else if c == '\r' {
        out.push('\\');
        out.push('r');
        proof {
            assert(out@ =~= prefix + json_esc_char(c));
        }
    } else if (c as u32) < 32 {
        let code: u8 = (c as u32) as u8;
        out.push('\\');
        out.push('u');
        out.push('0');
        out.push('0');
        out.push(crate::codec::hex_char_lower(code / 16));
        out.push(crate::codec::hex_char_lower(code % 16));
        proof {
            assert(code as int == c as int);
            assert(out@ =~= prefix + json_esc_char(c));
        }
    } else {
        out.push(c);
        proof {
            assert(out@ =~= prefix + json_esc_char(c));
        }
    }
}

/// Append a value as a quoted JSON string.
pub fn push_json_str(out: &mut String, s: &str)
    ensures
        final(out)@ == old(out)@ + json_str(s@),
{
    out.push('"');
    let n: usize = s.unicode_len();
    let mut i: usize = 0;
    while i < n
        invariant
            i <= n == s@.len(),
            out@ == old(out)@ + seq!['"'] + json_escaped(s@.take(i as int)),
        decreases n - i,
    {
        let c: char = s.get_char(i);
        push_json_char(out, c);
        i = i + 1;
        proof {
            lemma_json_escaped_snoc(s@.take(i as int));
            assert(s@.take(i as int).drop_last() =~= s@.take(i - 1));
            assert(s@.take(i as int).last() == s@[i - 1]);
            assert(out@ =~= old(out)@ + seq!['"'] + json_escaped(s@.take(i as int)));
        }
    }
    out.push('"');
    proof {
        assert(s@.take(n as int) =~= s@);
        assert(out@ =~= old(out)@ + json_str(s@));
    }
}

/// Escaping distributes over splitting the last character off.
proof fn lemma_json_escaped_snoc(s: Seq<char>)
    requires
        s.len() > 0,
    ensures
        json_escaped(s) == json_escaped(s.drop_last()) + json_esc_char(s.last()),
    decreases s.len(),
{
    if s.len() == 1 {
        assert(s.drop_last() =~= Seq::<char>::empty());
        assert(s.drop_first() =~= Seq::<char>::empty());
        assert(json_escaped(s) =~= json_escaped(s.drop_last()) + json_esc_char(s.last()));
    } else {
        lemma_json_escaped_snoc(s.drop_first());
        assert(s.drop_first().drop_last() =~= s.drop_last().drop_first());
        assert(s.drop_first().last() == s.last());
        assert(s.drop_last().first() == s.first());
        assert(s.drop_last().len() > 0);
        assert(json_escaped(s) =~= json_esc_char(s.first()) + (json_escaped(
            s.drop_last().drop_first(),
        ) + json_esc_char(s.last())));
        assert(json_escaped(s) =~= json_escaped(s.drop_last()) + json_esc_char(s.last()));
    }
}

} // verus!

verus! {

/// Spec forms of the side and type words.
pub open spec fn spec_side_upper(side: Side) -> Seq<char> {
    match side {
        Side::Buy => "BUY"@,
        Side::Sell => "SELL"@,
    }
}

pub open spec fn spec_side_lower(side: Side) -> Seq<char> {
    match side {
        Side::Buy => "buy"@,
        Side::Sell => "sell"@,
    }
}

pub open spec fn spec_side_title(side: Side) -> Seq<char> {
    match side {
        Side::Buy => "Buy"@,
        Side::Sell => "Sell"@,
    }
}

pub open spec fn spec_type_upper(t: OrderType) -> Seq<char> {
    match t {
        OrderType::Limit => "LIMIT"@,
        OrderType::Market => "MARKET"@,
    }
}

pub open spec fn spec_type_lower(t: OrderType) -> Seq<char> {
    match t {
        OrderType::Limit => "limit"@,
        OrderType::Market => "market"@,
    }
}

pub open spec fn spec_type_title(t: OrderType) -> Seq<char> {
    match t {
        OrderType::Limit => "Limit"@,
        OrderType::Market => "Market"@,
    }
}

/// Append an amount's decimal rendering.
pub fn push_fixed(out: &mut String, v: Fixed)
    ensures
        final(out)@ == old(out)@ + crate::fixed::spec_fixed_str(v.raw as nat),
{
    let s = v.to_string();
    out.append(s.as_str());
}

/// Append a number's decimal rendering.
pub fn push_u64(out: &mut String, v: u64)
    ensures
        final(out)@ == old(out)@ + crate::fixed::dec_digits(v as nat),
{
    crate::fixed::push_dec_digits(v, out);
}

/// One request header.
pub fn header(name: &str, value: String) -> (r: (String, String))
    ensures
        r.0@ == name@,
        r.1 == value,
{
    (String::from_str(name), value)
}

} // verus!

verus! {

/// `needle` occurs in `s` starting at some index.
pub open spec fn contains_at(s: Seq<char>, needle: Seq<char>, i: int) -> bool {
    0 <= i && i + needle.len() <= s.len() && s.subrange(i, i + needle.len()) == needle
}

/// Substring search.
pub fn str_contains(s: &str, needle: &str) -> (r: bool)
    ensures
        r == exists|i: int| #[trigger] contains_at(s@, needle@, i),
{
    let n: usize = s.unicode_len();
    let m: usize = needle.unicode_len();
    if m > n {
        proof {
            assert(forall|i: int| !contains_at(s@, needle@, i));
        }
        return false;
    }
    if m == 0 {
        proof {
            assert(s@.subrange(0, 0) =~= needle@);
            assert(contains_at(s@, needle@, 0));
        }
        return true;
    }
    let mut start: usize = 0;
    while start <= n - m
        invariant
            1 <= m <= n == s@.len(),
            m == needle@.len(),
            start <= n - m + 1,
            forall|i: int| 0 <= i < start ==> !#[trigger] contains_at(s@, needle@, i),
        decreases n - start,
    {
        let mut k: usize = 0;
        let mut matched: bool = true;
        let ghost mut bad: int = 0;
        while k < m
            invariant
                m <= n == s@.len(),
                m == needle@.len(),
                start + m <= n,
                k <= m,
                matched ==> forall|j: int| 0 <= j < k ==> s@[start + j] == needle@[j],
                !matched ==> 0 <= bad < m && s@[start + bad] != needle@[bad],
            ensures
                matched ==> forall|j: int| 0 <= j < m ==> s@[start + j] == needle@[j],
                !matched ==> 0 <= bad < m && s@[start + bad] != needle@[bad],
            decreases m - k,
        {
            if s.get_char(start + k) != needle.get_char(k) {
                proof {
                    bad = k as int;
                }
                matched = false;
                break;
            }
            k = k + 1;
        }
        if matched {
            proof {
                assert(s@.subrange(start as int, start + m) =~= needle@);
                assert(contains_at(s@, needle@, start as int));
            }
            return true;
        }
        proof {
            assert(!contains_at(s@, needle@, start as int)) by {
                if contains_at(s@, needle@, start as int) {
                    assert(forall|j: int|
                        0 <= j < m ==> #[trigger] s@.subrange(start as int, start + m)[j] == s@[
                            start + j
                        ]);
                }
            }
        }
        start = start + 1;
    }
    proof {
        assert(forall|i: int| !#[trigger] contains_at(s@, needle@, i));
    }
    false
}

/// Whether a venue's transport is connected. The adapters speak plain
/// REST, so they count as connected unconditionally.
pub fn venue_is_connected(_v: Venue) -> (r: bool)
    ensures
        r == true,
{
    true
}

} // verus!

verus! {

/// The integer a digit-only string denotes, if it is one.
pub open spec fn spec_digits_value(s: Seq<char>) -> Option<int> {
    if s.len() > 0 && crate::fixed::all_digits(s) {
        Some(crate::fixed::digits_int(s))
    } else {
        None
    }
}

/// The millisecond timestamp a venue string carries: its digits, or zero
/// where the string is not a number in range.
pub open spec fn spec_timestamp_ms(s: Seq<char>) -> int {
    match spec_digits_value(s) {
        Some(v) => if v <= i64::MAX {
            v
        } else {
            0
        },
        None => 0,
    }
}

pub fn parse_timestamp_ms(s: &str) -> (r: i64)
    ensures
        r as int == spec_timestamp_ms(s@),
        r >= 0,
{
    let n: usize = s.unicode_len();
    if n == 0 {
        return 0;
    }
    let mut i: usize = 0;
    while i < n
        invariant
            i <= n == s@.len(),
            forall|k: int| 0 <= k < i ==> crate::fixed::is_digit(#[trigger] s@[k]),
        decreases n - i,
    {
        let c: char = s.get_char(i);
        if !(c >= '0' && c <= '9') {
            return 0;
        }
        i = i + 1;
    }
    proof {
        assert(s@.subrange(0, n as int) =~= s@);
    }
    match crate::fixed::digits_span_value(s, 0, n, i64::MAX as u64) {
        Some(v) => v as i64,
        None => 0,
    }
}

} // verus!
