//! Service configuration: the connection endpoints, the sealed-credential
//! key, and the venues the service starts with.

use vstd::prelude::*;
use vstd::string::StringExecFns;

use crate::codec::{b64_of, base64_decode};
use crate::fixed::{all_digits, digits_int, Fixed};
use crate::types::ExchangeConfig;

verus! {

/// Service configuration.
#[derive(Clone, Debug)]
pub struct Config {
    pub port: u16,
    pub redis_url: String,
    pub database_url: String,
    pub encryption_key: Vec<u8>,
    pub exchanges: Vec<ExchangeConfig>,
    pub default_slice_percent: Fixed,
    pub default_slice_interval_ms: u64,
    pub max_parallel_slices: u64,
}

/// Why a configuration could not be built.
#[derive(Clone, Copy, Debug, PartialEq, Eq, Structural)]
pub enum ConfigError {
    /// The port was not a number a port can hold.
    InvalidPort,
    /// The encryption key was not valid base64.
    InvalidKey,
}

/// Parse a port number: decimal digits no greater than the largest port.
pub fn parse_port(s: &str) -> (r: Option<u16>)
    ensures
        r matches Some(p) ==> s@.len() > 0 && all_digits(s@) && digits_int(s@) == p,
        r is None ==> !(s@.len() > 0 && all_digits(s@) && digits_int(s@) <= u16::MAX),
{
    let n: usize = s.unicode_len();
    if n == 0 {
        return None;
    }
    let mut i: usize = 0;
    while i < n
        invariant
            i <= n == s@.len(),
            forall|k: int| 0 <= k < i ==> crate::fixed::is_digit(#[trigger] s@[k]),
        decreases n - i,
    {
        let c: char = s.get_char(i);
        if !(c >= '0' && c <= '9') {
            return None;
        }
        i = i + 1;
    }
    proof {
        assert(s@.subrange(0, n as int) =~= s@);
    }
    match crate::fixed::digits_span_value(s, 0, n, 65535) {
        Some(v) => Some(v as u16),
        None => None,
    }
}

fn exchange(id: &str, rest_url: &str, ws_url: &str) -> (r: ExchangeConfig)
    ensures
        r.id@ == id@,
        r.rest_url@ == rest_url@,
        r.ws_url@ == ws_url@,
        r.testnet == false,
{
    ExchangeConfig {
        id: String::from_str(id),
        rest_url: String::from_str(rest_url),
        ws_url: String::from_str(ws_url),
        testnet: false,
    }
}

/// The port string holds digits that a port can carry.
pub open spec fn spec_port_valid(s: Seq<char>) -> bool {
    s.len() > 0 && all_digits(s) && digits_int(s) <= u16::MAX
}

/// The string is the canonical base64 encoding of some byte string.
pub open spec fn spec_b64_decodable(s: Seq<char>) -> bool {
    exists|b: Seq<u8>| s == #[trigger] b64_of(b)
}

/// Assemble the configuration from the environment's plain values: parse
/// the port, decode the sealed-credential key, build the connection URLs,
/// and list the supported venues. Fails exactly on a malformed port or a
/// key that is not base64.
pub fn build_config(
    port: &str,
    redis_host: &str,
    redis_port: &str,
    db_host: &str,
    db_port: &str,
    db_user: &str,
    db_pass: &str,
    db_name: &str,
    encryption_key_b64: &str,
) -> (r: Result<Config, ConfigError>)
    ensures
        r == Err::<Config, ConfigError>(ConfigError::InvalidPort) <==> !spec_port_valid(port@),
        (spec_port_valid(port@) && !spec_b64_decodable(encryption_key_b64@)) ==> r == Err::<
            Config,
            ConfigError,
        >(ConfigError::InvalidKey),
        (spec_port_valid(port@) && spec_b64_decodable(encryption_key_b64@)) ==> r is Ok,
        r matches Ok(c) ==> ({
            &&& s_port_ok(port@, c.port)
            &&& c.redis_url@ == "redis://"@ + redis_host@ + ":"@ + redis_port@
            &&& c.database_url@ == "postgres://"@ + db_user@ + ":"@ + db_pass@ + "@"@ + db_host@
                + ":"@ + db_port@ + "/"@ + db_name@
            &&& encryption_key_b64@ == b64_of(c.encryption_key@)
            &&& c.exchanges@.len() == 4
            &&& c.exchanges@[0].id@ == "binance"@
            &&& c.exchanges@[1].id@ == "bybit"@
            &&& c.exchanges@[2].id@ == "okx"@
            &&& c.exchanges@[3].id@ == "kucoin"@
            &&& c.default_slice_percent.raw == 50_000_000
            &&& c.default_slice_interval_ms == 100
            &&& c.max_parallel_slices == 5
        }),
{
    let port = match parse_port(port) {
        Some(p) => p,
        None => {
            return Err(ConfigError::InvalidPort);
        },
    };
    let encryption_key = match base64_decode(encryption_key_b64) {
        Some(k) => {
            proof {
                assert(spec_b64_decodable(encryption_key_b64@)) by {
                    assert(encryption_key_b64@ == b64_of(k@));
                }
            }
            k
        },
        None => {
            return Err(ConfigError::InvalidKey);
        },
    };
    let mut redis_url = String::new();
    redis_url.append("redis://");
    redis_url.append(redis_host);
    redis_url.append(":");
    redis_url.append(redis_port);
    let mut database_url = String::new();
    database_url.append("postgres://");
    database_url.append(db_user);
    database_url.append(":");
    database_url.append(db_pass);
    database_url.append("@");
    database_url.append(db_host);
    database_url.append(":");
    database_url.append(db_port);
    database_url.append("/");
    database_url.append(db_name);
    let mut exchanges: Vec<ExchangeConfig> = Vec::new();
    exchanges.push(exchange("binance", "https://fapi.binance.com", "wss://fstream.binance.com"));
    exchanges.push(exchange("bybit", "https://api.bybit.com", "wss://stream.bybit.com"));
    exchanges.push(exchange("okx", "https://www.okx.com", "wss://ws.okx.com:8443"));
    exchanges.push(
        exchange("kucoin", "https://api-futures.kucoin.com", "wss://ws-api-futures.kucoin.com"),
    );
    Ok(
        Config {
            port,
            redis_url,
            database_url,
            encryption_key,
            exchanges,
            default_slice_percent: Fixed { raw: 50_000_000 },
            default_slice_interval_ms: 100,
            max_parallel_slices: 5,
        },
    )
}

/// The parsed port matches the digits given.
pub open spec fn s_port_ok(s: Seq<char>, p: u16) -> bool {
    s.len() > 0 && all_digits(s) && digits_int(s) == p
}

} // verus!
