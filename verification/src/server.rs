//! Execution server core: the server-boundary records, the entry and exit
//! decisions, the credential cache, and the result encoding. Reading the
//! request stream and sending what these functions decide is transport
//! work and stays outside the library.

use vstd::prelude::*;
use vstd::string::StringExecFns;

use crate::exchange::{json_str, push_json_str, str_eq};
use crate::fixed::{spec_fixed_str, Fixed};
use crate::slicer::SlicedOrderResult;
use crate::types::{Credentials, Side};

verus! {

/// How a trade entry is to be executed.
#[derive(Clone, Copy, Debug, PartialEq, Eq, Structural)]
pub enum ExecutionMode {
    Live,
    Sim,
}

/// The slicing overrides a request may carry.
#[derive(Clone, Debug)]
pub struct SlicingParams {
    pub slice_size_coins: Option<Fixed>,
    pub slice_interval_ms: Option<u64>,
}

/// A trade entry request from the backend. Identifiers arrive as the
/// strings the backend wrote.
#[derive(Clone, Debug)]
pub struct TradeEntryRequest {
    pub trade_id: String,
    pub user_id: String,
    pub spread_id: String,
    pub size_in_coins: Fixed,
    pub slicing: SlicingParams,
    pub mode: ExecutionMode,
    pub long_exchange_id: String,
    pub long_symbol: String,
    pub long_api_key_id: String,
    pub short_exchange_id: String,
    pub short_symbol: String,
    pub short_api_key_id: String,
}

/// A trade exit request: the long leg sells, the short leg buys back.
#[derive(Clone, Debug)]
pub struct TradeExitRequest {
    pub trade_id: String,
    pub position_id: String,
    pub is_emergency: bool,
    pub long_exchange_id: String,
    pub long_symbol: String,
    pub long_quantity: Fixed,
    pub long_api_key_id: String,
    pub short_exchange_id: String,
    pub short_symbol: String,
    pub short_quantity: Fixed,
    pub short_api_key_id: String,
}

/// The consolidated answer published for one request.
#[derive(Clone, Debug)]
pub struct ExecutionResult {
    pub trade_id: String,
    pub success: bool,
    pub long_filled: Fixed,
    pub long_avg_price: Fixed,
    pub short_filled: Fixed,
    pub short_avg_price: Fixed,
    pub error: Option<String>,
}

/// A failure answer: nothing filled, no prices, the reason given.
pub open spec fn spec_failure_result(trade_id: Seq<char>, error: Seq<char>, r: ExecutionResult)
    -> bool {
    &&& r.trade_id@ == trade_id
    &&& r.success == false
    &&& r.long_filled.raw == 0
    &&& r.long_avg_price.raw == 0
    &&& r.short_filled.raw == 0
    &&& r.short_avg_price.raw == 0
    &&& r.error matches Some(e) && e@ == error
}

fn failure_result(trade_id: &String, error: String) -> (r: ExecutionResult)
    ensures
        spec_failure_result(trade_id@, error@, r),
{
    ExecutionResult {
        trade_id: trade_id.clone(),
        success: false,
        long_filled: Fixed { raw: 0 },
        long_avg_price: Fixed { raw: 0 },
        short_filled: Fixed { raw: 0 },
        short_avg_price: Fixed { raw: 0 },
        error: Some(error),
    }
}

/// One cached credential: who it belongs to and when it lapses.
#[derive(Clone, Debug)]
pub struct CachedCredentials {
    pub key_id: String,
    pub credentials: Credentials,
    pub expires_at_ms: u64,
}

/// A cache of decrypted credentials keyed by API key identifier. Entries
/// lapse by time alone; a lapsed entry is passed over and replaced on the
/// next store.
#[derive(Debug)]
pub struct CredentialCache {
    pub entries: Vec<CachedCredentials>,
}

impl CredentialCache {
    /// Each key identifier holds at most one entry.
    pub open spec fn wf(self) -> bool {
        forall|i: int, j: int|
            0 <= i < j < self.entries@.len() ==> (#[trigger] self.entries@[i]).key_id@ != (
            #[trigger] self.entries@[j]).key_id@
    }

    pub fn new() -> (r: CredentialCache)
        ensures
            r.wf(),
            r.entries@.len() == 0,
    {
        CredentialCache { entries: Vec::new() }
    }

    /// The credentials cached for a key identifier and still alive now.
    pub fn lookup(&self, key_id: &str, now_ms: u64) -> (r: Option<&Credentials>)
        requires
            self.wf(),
        ensures
            r matches Some(c) ==> exists|i: int|
                0 <= i < self.entries@.len() && (#[trigger] self.entries@[i]).key_id@ == key_id@
                    && self.entries@[i].expires_at_ms > now_ms && *c == self.entries@[i].credentials,
            r is None ==> forall|i: int|
                0 <= i < self.entries@.len() && (#[trigger] self.entries@[i]).key_id@ == key_id@
                    ==> self.entries@[i].expires_at_ms <= now_ms,
    {
        let n: usize = self.entries.len();
        let mut i: usize = 0;
        while i < n
            invariant
                i <= n == self.entries@.len(),
                forall|k: int|
                    0 <= k < i && (#[trigger] self.entries@[k]).key_id@ == key_id@
                        ==> self.entries@[k].expires_at_ms <= now_ms,
            decreases n - i,
        {
            let entry = &self.entries[i];
            if str_eq(entry.key_id.as_str(), key_id) {
                if entry.expires_at_ms > now_ms {
                    return Some(&entry.credentials);
                }
            }
            i = i + 1;
        }
        None
    }

    /// Store credentials for a key identifier, replacing whatever entry
    /// the identifier held.
    pub fn store(&mut self, key_id: String, credentials: Credentials, expires_at_ms: u64)
        requires
            old(self).wf(),
        ensures
            final(self).wf(),
            exists|i: int|
                0 <= i < final(self).entries@.len() && (#[trigger] final(self).entries@[i]).key_id@
                    == key_id@ && final(self).entries@[i].credentials == credentials && final(
                self).entries@[i].expires_at_ms == expires_at_ms,
    {
        let n: usize = self.entries.len();
        let mut i: usize = 0;
        while i < n
            invariant
                i <= n == self.entries@.len(),
                self.wf(),
                forall|k: int|
                    0 <= k < i ==> (#[trigger] self.entries@[k]).key_id@ != key_id@,
            decreases n - i,
        {
            if str_eq(self.entries[i].key_id.as_str(), key_id.as_str()) {
                let entry = CachedCredentials { key_id, credentials, expires_at_ms };
                self.entries.set(i, entry);
                proof {
                    assert(final(self).entries@[i as int].key_id@ == key_id@);
                }
                return ;
            }
            i = i + 1;
        }
        let entry = CachedCredentials { key_id, credentials, expires_at_ms };
        self.entries.push(entry);
        proof {
            assert(final(self).entries@[n as int].key_id@ == key_id@);
        }
    }
}

/// The execution server's decision core: the venues it knows by their
/// stable keys.
#[derive(Debug)]
pub struct ExecutionServer {
    pub exchange_ids: Vec<String>,
}

impl ExecutionServer {
    /// Whether a venue key is registered.
    pub open spec fn knows(self, id: Seq<char>) -> bool {
        exists|i: int| 0 <= i < self.exchange_ids@.len() && (#[trigger] self.exchange_ids@[i])@ == id
    }

    pub fn new(exchange_ids: Vec<String>) -> (r: ExecutionServer)
        ensures
            r.exchange_ids == exchange_ids,
    {
        ExecutionServer { exchange_ids }
    }

    fn has_exchange(&self, id: &str) -> (r: bool)
        ensures
            r == self.knows(id@),
    {
        let n: usize = self.exchange_ids.len();
        let mut i: usize = 0;
        while i < n
            invariant
                i <= n == self.exchange_ids@.len(),
                forall|k: int| 0 <= k < i ==> (#[trigger] self.exchange_ids@[k])@ != id@,
            decreases n - i,
        {
            if str_eq(self.exchange_ids[i].as_str(), id) {
                return true;
            }
            i = i + 1;
        }
        false
    }

    /// A simulated entry: both legs count as filled for the full size at
    /// no price, and the backend models the rest itself.
    pub fn simulate_entry(&self, request: &TradeEntryRequest) -> (r: ExecutionResult)
        ensures
            r.trade_id == request.trade_id,
            r.success == true,
            r.long_filled == request.size_in_coins,
            r.short_filled == request.size_in_coins,
            r.long_avg_price.raw == 0,
            r.short_avg_price.raw == 0,
            r.error is None,
    {
        ExecutionResult {
            trade_id: request.trade_id.clone(),
            success: true,
            long_filled: request.size_in_coins,
            long_avg_price: Fixed { raw: 0 },
            short_filled: request.size_in_coins,
            short_avg_price: Fixed { raw: 0 },
            error: None,
        }
    }

    /// Decide a trade entry. A simulated entry succeeds outright; a live
    /// one needs both venues registered, and then still waits on
    /// credential loading, which the database side does not provide yet.
    pub fn execute_entry(&self, request: &TradeEntryRequest) -> (r: ExecutionResult)
        ensures
            request.mode == ExecutionMode::Sim ==> ({
                &&& r.trade_id == request.trade_id
                &&& r.success == true
                &&& r.long_filled == request.size_in_coins
                &&& r.short_filled == request.size_in_coins
                &&& r.long_avg_price.raw == 0
                &&& r.short_avg_price.raw == 0
                &&& r.error is None
            }),
            (request.mode == ExecutionMode::Live && !self.knows(request.long_exchange_id@))
                ==> spec_failure_result(
                request.trade_id@,
                "Unknown exchange: "@ + request.long_exchange_id@,
                r,
            ),
            (request.mode == ExecutionMode::Live && self.knows(request.long_exchange_id@)
                && !self.knows(request.short_exchange_id@)) ==> spec_failure_result(
                request.trade_id@,
                "Unknown exchange: "@ + request.short_exchange_id@,
                r,
            ),
            (request.mode == ExecutionMode::Live && self.knows(request.long_exchange_id@)
                && self.knows(request.short_exchange_id@)) ==> spec_failure_result(
                request.trade_id@,
                "Credential loading not yet implemented"@,
                r,
            ),
    {
        if request.mode == ExecutionMode::Sim {
            return self.simulate_entry(request);
        }
        match self.plan_entry(request) {
            Err(result) => result,
            Ok(_) => failure_result(
                &request.trade_id,
                String::from_str("Credential loading not yet implemented"),
            ),
        }
    }

    /// Decide a trade exit. The exit flow waits on the same credential
    /// loading as the live entry and reports that it is not implemented.
    pub fn execute_exit(&self, request: &TradeExitRequest) -> (r: ExecutionResult)
        ensures
            spec_failure_result(request.trade_id@, "Exit execution not yet implemented"@, r),
    {
        failure_result(&request.trade_id, String::from_str("Exit execution not yet implemented"))
    }
}

/// One leg of a paired trade, ready to execute: which venue, what symbol,
/// how much, on which side, and whether its orders may only reduce an open
/// position.
#[derive(Clone, Debug)]
pub struct TradeLeg {
    pub exchange_id: String,
    pub symbol: String,
    pub api_key_id: String,
    pub quantity: Fixed,
    pub side: Side,
    pub reduce_only: bool,
}

/// The two legs of a trade entry: the long leg buys and the short leg
/// sells, both opening. The long leg executes to completion before the
/// short leg begins.
#[derive(Clone, Debug)]
pub struct EntryPlan {
    pub long: TradeLeg,
    pub short: TradeLeg,
}

/// The two legs of a trade exit: the sides reverse, so the long leg sells
/// and the short leg buys back, and every order may only reduce. An
/// emergency exit takes the single aggressive order instead of the sliced
/// path. The long leg executes before the short leg.
#[derive(Clone, Debug)]
pub struct ExitPlan {
    pub long: TradeLeg,
    pub short: TradeLeg,
    pub is_emergency: bool,
}

impl ExecutionServer {
    /// Resolve a live entry into its two legs: the long leg buys and the
    /// short leg sells the requested size, neither reduce-only. An unknown
    /// venue yields the failure result instead, naming the offending key,
    /// and no leg to execute.
    pub fn plan_entry(&self, request: &TradeEntryRequest) -> (r: Result<EntryPlan, ExecutionResult>)
        ensures
            (self.knows(request.long_exchange_id@) && self.knows(request.short_exchange_id@)) <==> r
                is Ok,
            r matches Ok(p) ==> ({
                &&& p.long.exchange_id == request.long_exchange_id
                &&& p.long.symbol == request.long_symbol
                &&& p.long.api_key_id == request.long_api_key_id
                &&& p.long.quantity == request.size_in_coins
                &&& p.long.side == Side::Buy
                &&& p.long.reduce_only == false
                &&& p.short.exchange_id == request.short_exchange_id
                &&& p.short.symbol == request.short_symbol
                &&& p.short.api_key_id == request.short_api_key_id
                &&& p.short.quantity == request.size_in_coins
                &&& p.short.side == Side::Sell
                &&& p.short.reduce_only == false
            }),
            r matches Err(res) ==> ({
                &&& !self.knows(request.long_exchange_id@) ==> spec_failure_result(
                    request.trade_id@,
                    "Unknown exchange: "@ + request.long_exchange_id@,
                    res,
                )
                &&& self.knows(request.long_exchange_id@) ==> spec_failure_result(
                    request.trade_id@,
                    "Unknown exchange: "@ + request.short_exchange_id@,
                    res,
                )
            }),
    {
        if !self.has_exchange(request.long_exchange_id.as_str()) {
            let mut msg = String::new();
            msg.append("Unknown exchange: ");
            msg.append(request.long_exchange_id.as_str());
            return Err(failure_result(&request.trade_id, msg));
        }
        if !self.has_exchange(request.short_exchange_id.as_str()) {
            let mut msg = String::new();
            msg.append("Unknown exchange: ");
            msg.append(request.short_exchange_id.as_str());
            return Err(failure_result(&request.trade_id, msg));
        }
        Ok(
            EntryPlan {
                long: TradeLeg {
                    exchange_id: request.long_exchange_id.clone(),
                    symbol: request.long_symbol.clone(),
                    api_key_id: request.long_api_key_id.clone(),
                    quantity: request.size_in_coins,
                    side: Side::Buy,
                    reduce_only: false,
                },
                short: TradeLeg {
                    exchange_id: request.short_exchange_id.clone(),
                    symbol: request.short_symbol.clone(),
                    api_key_id: request.short_api_key_id.clone(),
                    quantity: request.size_in_coins,
                    side: Side::Sell,
                    reduce_only: false,
                },
            },
        )
    }

    /// Resolve an exit into its two legs with the sides reversed: the long
    /// leg sells and the short leg buys back, each quantity the leg's own,
    /// and every order reduce-only. The emergency flag passes through to
    /// select the aggressive path.
    pub fn plan_exit(&self, request: &TradeExitRequest) -> (r: Result<ExitPlan, ExecutionResult>)
        ensures
            (self.knows(request.long_exchange_id@) && self.knows(request.short_exchange_id@)) <==> r
                is Ok,
            r matches Ok(p) ==> ({
                &&& p.long.exchange_id == request.long_exchange_id
                &&& p.long.symbol == request.long_symbol
                &&& p.long.api_key_id == request.long_api_key_id
                &&& p.long.quantity == request.long_quantity
                &&& p.long.side == Side::Sell
                &&& p.long.reduce_only == true
                &&& p.short.exchange_id == request.short_exchange_id
                &&& p.short.symbol == request.short_symbol
                &&& p.short.api_key_id == request.short_api_key_id
                &&& p.short.quantity == request.short_quantity
                &&& p.short.side == Side::Buy
                &&& p.short.reduce_only == true
                &&& p.is_emergency == request.is_emergency
            }),
            r matches Err(res) ==> ({
                &&& !self.knows(request.long_exchange_id@) ==> spec_failure_result(
                    request.trade_id@,
                    "Unknown exchange: "@ + request.long_exchange_id@,
                    res,
                )
                &&& self.knows(request.long_exchange_id@) ==> spec_failure_result(
                    request.trade_id@,
                    "Unknown exchange: "@ + request.short_exchange_id@,
                    res,
                )
            }),
    {
        if !self.has_exchange(request.long_exchange_id.as_str()) {
            let mut msg = String::new();
            msg.append("Unknown exchange: ");
            msg.append(request.long_exchange_id.as_str());
            return Err(failure_result(&request.trade_id, msg));
        }
        if !self.has_exchange(request.short_exchange_id.as_str()) {
            let mut msg = String::new();
            msg.append("Unknown exchange: ");
            msg.append(request.short_exchange_id.as_str());
            return Err(failure_result(&request.trade_id, msg));
        }
        Ok(
            ExitPlan {
                long: TradeLeg {
                    exchange_id: request.long_exchange_id.clone(),
                    symbol: request.long_symbol.clone(),
                    api_key_id: request.long_api_key_id.clone(),
                    quantity: request.long_quantity,
                    side: Side::Sell,
                    reduce_only: true,
                },
                short: TradeLeg {
                    exchange_id: request.short_exchange_id.clone(),
                    symbol: request.short_symbol.clone(),
                    api_key_id: request.short_api_key_id.clone(),
                    quantity: request.short_quantity,
                    side: Side::Buy,
                    reduce_only: true,
                },
                is_emergency: request.is_emergency,
            },
        )
    }
}

/// Fold the two legs' sliced results into the published record: each leg's
/// fill and average price stand as the slicer reported them, and the trade
/// counts as a success when both legs completed.
pub fn combine_leg_results(
    trade_id: String,
    long: &SlicedOrderResult,
    short: &SlicedOrderResult,
) -> (r: ExecutionResult)
    ensures
        r.trade_id == trade_id,
        r.success == (long.is_complete && short.is_complete),
        r.long_filled == long.filled_quantity,
        r.long_avg_price == long.avg_fill_price,
        r.short_filled == short.filled_quantity,
        r.short_avg_price == short.avg_fill_price,
        r.error is None,
{
    ExecutionResult {
        trade_id,
        success: long.is_complete && short.is_complete,
        long_filled: long.filled_quantity,
        long_avg_price: long.avg_fill_price,
        short_filled: short.filled_quantity,
        short_avg_price: short.avg_fill_price,
        error: None,
    }
}

/// The JSON encoding of an execution result, fields in declaration order,
/// amounts as decimal strings.
pub open spec fn spec_execution_result_json(r: ExecutionResult) -> Seq<char> {
    "{\"trade_id\":"@ + json_str(r.trade_id@) + ",\"success\":"@ + (if r.success {
        "true"@
    } else {
        "false"@
    }) + ",\"long_filled\":"@ + json_str(spec_fixed_str(r.long_filled.raw as nat))
        + ",\"long_avg_price\":"@ + json_str(spec_fixed_str(r.long_avg_price.raw as nat))
        + ",\"short_filled\":"@ + json_str(spec_fixed_str(r.short_filled.raw as nat))
        + ",\"short_avg_price\":"@ + json_str(spec_fixed_str(r.short_avg_price.raw as nat))
        + ",\"error\":"@ + (match r.error {
        Some(e) => json_str(e@),
        None => "null"@,
    }) + "}"@
}

/// Encode an execution result for the result stream.
pub fn execution_result_json(result: &ExecutionResult) -> (r: String)
    ensures
        r@ == spec_execution_result_json(*result),
{
    let mut out = String::new();
    out.append("{\"trade_id\":");
    push_json_str(&mut out, result.trade_id.as_str());
    out.append(",\"success\":");
    if result.success {
        out.append("true");
    } else {
        out.append("false");
    }
    out.append(",\"long_filled\":");
    let lf = result.long_filled.to_string();
    push_json_str(&mut out, lf.as_str());
    out.append(",\"long_avg_price\":");
    let lp = result.long_avg_price.to_string();
    push_json_str(&mut out, lp.as_str());
    out.append(",\"short_filled\":");
    let sf = result.short_filled.to_string();
    push_json_str(&mut out, sf.as_str());
    out.append(",\"short_avg_price\":");
    let sp = result.short_avg_price.to_string();
    push_json_str(&mut out, sp.as_str());
    out.append(",\"error\":");
    match &result.error {
        Some(e) => push_json_str(&mut out, e.as_str()),
        None => out.append("null"),
    }
    out.append("}");
    proof {
        assert(out@ =~= spec_execution_result_json(*result));
    }
    out
}

} // verus!
