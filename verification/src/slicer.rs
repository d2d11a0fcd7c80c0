//! Order slicing engine.
//!
//! Splits a total quantity into child limit orders, prices each against the
//! freshly observed touch, and accounts for the fills venue by venue.

use vstd::arithmetic::div_mod::{lemma_fundamental_div_mod, lemma_fundamental_div_mod_converse};
use vstd::prelude::*;

use crate::fixed::{Fixed, MAX_RAW, SCALE};
use crate::types::{OrderRequest, OrderResponse, OrderStatus, OrderType, Side};

verus! {

/// Smallest slice worth placing, in raw units (one thousandth of a unit).
pub const MIN_SLICE_RAW: u64 = 1_000_000;

/// Configuration for order slicing.
#[derive(Clone, Debug)]
pub struct SlicingConfig {
    /// Size of each slice as a fraction of the total.
    pub slice_percent: Fixed,
    /// Time between slices in milliseconds.
    pub interval_ms: u64,
    /// Maximum number of parallel slices; the current engine places them
    /// one after another.
    pub max_parallel: u64,
    /// Price tolerance in basis points for limit orders.
    pub price_tolerance_bps: Fixed,
    /// Timeout for each slice in seconds.
    pub slice_timeout_secs: u64,
}

impl SlicingConfig {
    pub open spec fn wf(self) -> bool {
        &&& self.slice_percent.wf()
        &&& 0 < self.slice_percent.raw <= SCALE
        &&& self.price_tolerance_bps.wf()
        &&& self.max_parallel >= 1
    }
}

impl core::default::Default for SlicingConfig {
    /// Five percent slices, a tenth of a second apart, five basis points of
    /// price tolerance, thirty seconds per slice.
    fn default() -> (r: SlicingConfig)
        ensures
            r.slice_percent.raw == 50_000_000,
            r.interval_ms == 100,
            r.max_parallel == 1,
            r.price_tolerance_bps.raw == 5_000_000_000,
            r.slice_timeout_secs == 30,
            r.wf(),
    {
        SlicingConfig {
            slice_percent: Fixed { raw: 50_000_000 },
            interval_ms: 100,
            max_parallel: 1,
            price_tolerance_bps: Fixed { raw: 5_000_000_000 },
            slice_timeout_secs: 30,
        }
    }
}

/// Sum of the raw values of a slice plan.
pub open spec fn sum_raw(s: Seq<Fixed>) -> int
    decreases s.len(),
{
    if s.len() == 0 {
        0
    } else {
        sum_raw(s.drop_last()) + s.last().raw
    }
}

/// The price offset granted by a tolerance in basis points: one basis point
/// is a ten-thousandth of the price. The offset rounds down to the
/// nine-digit grid the amounts live on.
pub open spec fn tolerance_offset(price_raw: int, bps_raw: int) -> int {
    (price_raw * bps_raw) / (10_000 * SCALE as int)
}

/// Limit price for one slice: a buy stands just above the best bid, a sell
/// just below the best ask, each by the configured tolerance, whose offset
/// rounds down to the nine-digit grid.
pub fn calculate_limit_price(side: Side, best_bid: Fixed, best_ask: Fixed, bps: Fixed) -> (r:
    Fixed)
    requires
        best_bid.wf(),
        best_ask.wf(),
        bps.wf(),
        side == Side::Buy ==> best_bid.raw + tolerance_offset(best_bid.raw as int, bps.raw as int)
            <= MAX_RAW,
        side == Side::Sell ==> tolerance_offset(best_ask.raw as int, bps.raw as int)
            <= best_ask.raw,
    ensures
        side == Side::Buy ==> r.raw == best_bid.raw + tolerance_offset(
            best_bid.raw as int,
            bps.raw as int,
        ),
        side == Side::Sell ==> r.raw == best_ask.raw - tolerance_offset(
            best_ask.raw as int,
            bps.raw as int,
        ),
        r.wf(),
{
    proof {
        assert(best_bid.raw * bps.raw <= MAX_RAW * MAX_RAW && best_ask.raw * bps.raw <= MAX_RAW
            * MAX_RAW) by (nonlinear_arith)
            requires
                best_bid.raw <= MAX_RAW,
                best_ask.raw <= MAX_RAW,
                bps.raw <= MAX_RAW,
        ;
    }
    match side {
        Side::Buy => {
            let off: u128 = (best_bid.raw as u128) * (bps.raw as u128) / (10_000
                * (SCALE as u128));
            Fixed { raw: best_bid.raw + (off as u64) }
        },
        Side::Sell => {
            let off: u128 = (best_ask.raw as u128) * (bps.raw as u128) / (10_000
                * (SCALE as u128));
            Fixed { raw: best_ask.raw - (off as u64) }
        },
    }
}

/// The exact product of a total and the slice fraction, in squared raw
/// units: eighteen fractional digits, nothing truncated.
pub open spec fn slice_product(total: Fixed, percent: Fixed) -> int {
    total.raw * percent.raw
}

/// A plan is dust when the exact slice size is under the threshold.
pub open spec fn slice_plan_is_dust(total: Fixed, percent: Fixed) -> bool {
    slice_product(total, percent) < MIN_SLICE_RAW * SCALE
}

/// How many slices a non-dust plan holds: the ceiling of one over the
/// slice fraction, whatever the total is.
pub open spec fn slice_count(percent: Fixed) -> int {
    (SCALE + percent.raw - 1) as int / (percent.raw as int)
}

/// The quantity placed after the first `k` slices: the exact cumulative
/// product `k * total * percent` rounded down to the grid, capped at the
/// total.
pub open spec fn slice_boundary(total: Fixed, percent: Fixed, k: int) -> int {
    let exact = (k * slice_product(total, percent)) / (SCALE as int);
    if exact > total.raw {
        total.raw as int
    } else {
        exact
    }
}

/// The slice count times the fraction straddles one whole: one slice fewer
/// would not cover the total, and the count itself always does.
proof fn lemma_slice_count_straddles(p: int)
    requires
        0 < p <= SCALE,
    ensures
        ((SCALE + p - 1) / p - 1) * p < SCALE <= ((SCALE + p - 1) / p) * p,
        1 <= (SCALE + p - 1) / p <= SCALE,
{
    let n = (SCALE + p - 1) / p;
    lemma_fundamental_div_mod(SCALE + p - 1, p);
    let rr = (SCALE + p - 1) % p;
    assert(n * p == SCALE + p - 1 - rr && (n - 1) * p == SCALE - 1 - rr) by (nonlinear_arith)
        requires
            SCALE + p - 1 == p * n + rr,
    ;
    assert(n >= 1) by (nonlinear_arith)
        requires
            n * p >= SCALE,
            0 < p <= SCALE,
    ;
    assert(n <= SCALE) by (nonlinear_arith)
        requires
            (n - 1) * p < SCALE,
            n >= 1,
            p >= 1,
    ;
}

/// Floor division is superadditive over addition of the dividends.
proof fn lemma_floor_div_superadd(a: int, b: int, d: int)
    requires
        0 <= a,
        0 <= b,
        0 < d,
    ensures
        a / d + b / d <= (a + b) / d,
{
    lemma_fundamental_div_mod(a, d);
    lemma_fundamental_div_mod(b, d);
    let x = a / d;
    let y = b / d;
    assert(d * (x + y) <= a + b) by (nonlinear_arith)
        requires
            a == d * x + a % d,
            b == d * y + b % d,
            a % d >= 0,
            b % d >= 0,
    ;
    vstd::arithmetic::div_mod::lemma_div_is_ordered(d * (x + y), a + b, d);
    vstd::arithmetic::div_mod::lemma_div_multiples_vanish(x + y, d);
}

/// A dividend below `t * d` divides down to below `t`.
proof fn lemma_floor_div_below(a: int, t: int, d: int)
    requires
        0 <= a,
        1 < d,
        a < t * d,
    ensures
        a / d < t,
{
    vstd::arithmetic::div_mod::lemma_div_is_ordered(a, t * d - 1, d);
    assert(t * d - 1 == d * (t - 1) + (d - 1)) by (nonlinear_arith);
    lemma_fundamental_div_mod_converse(t * d - 1, d, t - 1, d - 1);
}

/// A dividend of at least `t * d` divides down to at least `t`.
proof fn lemma_floor_div_at_least(a: int, t: int, d: int)
    requires
        0 < d,
        0 <= t,
        t * d <= a,
    ensures
        t <= a / d,
{
    vstd::arithmetic::div_mod::lemma_div_is_ordered(t * d, a, d);
    assert(t * d == d * t) by (nonlinear_arith);
    vstd::arithmetic::div_mod::lemma_div_multiples_vanish(t, d);
}

/// Below the count, every cumulative boundary stays strictly under the
/// total; at the count, it reaches it.
proof fn lemma_boundary_in_range(t: int, p: int, n: int, k: int)
    requires
        0 < t,
        0 < p <= SCALE,
        (n - 1) * p < SCALE <= n * p,
        0 <= k <= n,
    ensures
        k < n ==> (k * (t * p)) / (SCALE as int) < t,
        k == n ==> t <= (k * (t * p)) / (SCALE as int),
{
    if k < n {
        assert(k * (t * p) < t * SCALE && k * (t * p) >= 0) by (nonlinear_arith)
            requires
                0 <= k <= n - 1,
                (n - 1) * p < SCALE,
                0 < t,
                0 < p,
        ;
        lemma_floor_div_below(k * (t * p), t, SCALE as int);
    } else {
        assert(t * SCALE <= k * (t * p)) by (nonlinear_arith)
            requires
                k == n,
                SCALE <= n * p,
                0 < t,
        ;
        lemma_floor_div_at_least(k * (t * p), t, SCALE as int);
    }
}

/// Order slicer for splitting and executing orders.
#[derive(Clone, Debug)]
pub struct OrderSlicer {
    pub config: SlicingConfig,
}

impl OrderSlicer {
    pub fn new(config: SlicingConfig) -> (r: OrderSlicer)
        ensures
            r.config == config,
    {
        OrderSlicer { config }
    }

    /// Partition a total into slices of `total * slice_percent` with the
    /// remainder last. The slice boundaries come from the exact product, so
    /// a non-dust plan holds exactly the ceiling of one over the slice
    /// fraction, sums to the total exactly, and every slice is positive and
    /// within one grid step of `total * slice_percent`. A plan whose exact
    /// slice size is under the dust threshold collapses to one slice of the
    /// whole total.
    pub fn calculate_slices(&self, total_quantity: Fixed) -> (r: Vec<Fixed>)
        requires
            total_quantity.wf(),
            self.config.wf(),
        ensures
            sum_raw(r@) == total_quantity.raw,
            forall|i: int| 0 <= i < r@.len() ==> (#[trigger] r@[i]).wf(),
            total_quantity.raw > 0 ==> forall|i: int| 0 <= i < r@.len() ==> (#[trigger] r@[i]).raw
                > 0,
            slice_plan_is_dust(total_quantity, self.config.slice_percent) ==> r@ =~= seq![
                total_quantity,
            ],
            !slice_plan_is_dust(total_quantity, self.config.slice_percent) ==> ({
                &&& r@.len() == slice_count(self.config.slice_percent)
                &&& (forall|k: int|
                    0 <= k < r@.len() ==> (#[trigger] r@[k]).raw == slice_boundary(
                        total_quantity,
                        self.config.slice_percent,
                        k + 1,
                    ) - slice_boundary(total_quantity, self.config.slice_percent, k))
                &&& (forall|k: int|
                    0 <= k < r@.len() - 1 ==> (#[trigger] r@[k]).raw * SCALE < slice_product(
                        total_quantity,
                        self.config.slice_percent,
                    ) + SCALE && slice_product(total_quantity, self.config.slice_percent) < (
                    r@[k].raw + 1) * SCALE)
            }),
            total_quantity.raw > 0 ==> r@.len() >= 1,
    {
        let ghost total = total_quantity;
        let ghost percent = self.config.slice_percent;
        let ghost q = slice_product(total, percent);
        proof {
            assert(total_quantity.raw * self.config.slice_percent.raw <= MAX_RAW * SCALE)
                by (nonlinear_arith)
                requires
                    0 <= total_quantity.raw <= MAX_RAW,
                    0 <= self.config.slice_percent.raw <= SCALE,
            ;
        }
        let q_wide: u128 = (total_quantity.raw as u128) * (self.config.slice_percent.raw as u128);
        if q_wide < (MIN_SLICE_RAW as u128) * (SCALE as u128) {
            let mut v: Vec<Fixed> = Vec::new();
            v.push(total_quantity);
            proof {
                assert(v@ =~= seq![total_quantity]);
                assert(v@.drop_last() =~= Seq::<Fixed>::empty());
                assert(sum_raw(v@) == sum_raw(Seq::<Fixed>::empty()) + total_quantity.raw);
            }
            return v;
        }
        let n: u64 = (SCALE + self.config.slice_percent.raw - 1) / self.config.slice_percent.raw;
        proof {
            assert(total_quantity.raw > 0) by (nonlinear_arith)
                requires
                    total_quantity.raw * self.config.slice_percent.raw >= MIN_SLICE_RAW * SCALE,
                    total_quantity.raw >= 0,
                    self.config.slice_percent.raw <= SCALE,
            ;
            lemma_slice_count_straddles(percent.raw as int);
            assert(n == slice_count(percent));
        }
        let mut out: Vec<Fixed> = Vec::new();
        let mut prev: u64 = 0;
        let mut k: u64 = 1;
        while k <= n
            invariant
                1 <= k <= n + 1,
                total == total_quantity,
                percent == self.config.slice_percent,
                q == slice_product(total, percent),
                q_wide == q,
                0 < total.raw <= MAX_RAW,
                0 < percent.raw <= SCALE,
                q >= MIN_SLICE_RAW * SCALE,
                n == slice_count(percent),
                1 <= n <= SCALE,
                (n - 1) * (percent.raw as int) < SCALE <= n * (percent.raw as int),
                out@.len() == k - 1,
                prev == slice_boundary(total, percent, k - 1),
                prev <= total.raw,
                sum_raw(out@) == prev,
                forall|j: int|
                    0 <= j < k - 1 ==> (#[trigger] out@[j]).raw == slice_boundary(
                        total,
                        percent,
                        j + 1,
                    ) - slice_boundary(total, percent, j),
                forall|j: int| 0 <= j < k - 1 ==> (#[trigger] out@[j]).raw > 0,
                forall|j: int|
                    0 <= j < k - 1 && j < n - 1 ==> (#[trigger] out@[j]).raw * SCALE < q + SCALE
                        && q < (out@[j].raw + 1) * SCALE,
            decreases n + 1 - k,
        {
            proof {
                lemma_boundary_in_range(total.raw as int, percent.raw as int, n as int, k as int);
                lemma_boundary_in_range(
                    total.raw as int,
                    percent.raw as int,
                    n as int,
                    k - 1 as int,
                );
                assert(k * q <= SCALE * (MAX_RAW * SCALE)) by (nonlinear_arith)
                    requires
                        q == total.raw * percent.raw,
                        0 < total.raw <= MAX_RAW,
                        0 < percent.raw <= SCALE,
                        0 < k <= SCALE,
                ;
            }
            let bk: u64 = if k < n {
                (((k as u128) * q_wide) / (SCALE as u128)) as u64
            } else {
                total_quantity.raw
            };
            proof {
                assert(bk == slice_boundary(total, percent, k as int));
                assert(prev < bk) by {
                    if k < n {
                        lemma_floor_div_superadd((k - 1) * q, q, SCALE as int);
                        assert((k - 1) * q + q == k * q) by (nonlinear_arith);
                        lemma_floor_div_at_least(q, MIN_SLICE_RAW as int, SCALE as int);
                    }
                }
                if k < n {
                    // Both boundaries are floors of exact cumulative
                    // products, so the new slice stays within one grid step
                    // of the exact slice size.
                    vstd::arithmetic::div_mod::lemma_fundamental_div_mod(k * q, SCALE as int);
                    vstd::arithmetic::div_mod::lemma_fundamental_div_mod((k - 1) * q, SCALE as int);
                    assert((k - 1) * q + q == k * q) by (nonlinear_arith);
                }
            }
            let ghost before = out@;
            out.push(Fixed { raw: bk - prev });
            proof {
                assert(out@.drop_last() =~= before);
            }
            prev = bk;
            k = k + 1;
        }
        proof {
            lemma_boundary_in_range(total.raw as int, percent.raw as int, n as int, n as int);
            assert(prev == total.raw);
        }
        out
    }
}

/// The side word a log line shows.
pub fn side_str(side: Side) -> (r: &'static str)
    ensures
        side == Side::Buy ==> r@ == "BUY"@,
        side == Side::Sell ==> r@ == "SELL"@,
{
    match side {
        Side::Buy => "BUY",
        Side::Sell => "SELL",
    }
}

} // verus!

verus! {

/// Result of a single slice.
#[derive(Clone, Debug)]
pub struct SliceResult {
    pub index: usize,
    pub client_order_id: String,
    pub exchange_order_id: Option<String>,
    pub quantity: Fixed,
    pub price: Fixed,
    pub filled_quantity: Fixed,
    pub avg_fill_price: Option<Fixed>,
    pub status: OrderStatus,
}

/// The price a slice contributes to the weighted sum: its average fill
/// price, or nothing when the venue reported none.
pub open spec fn slice_price_raw(r: SliceResult) -> int {
    match r.avg_fill_price {
        Some(p) => p.raw as int,
        None => 0,
    }
}

/// Total quantity filled over a run of slices.
pub open spec fn sum_filled(s: Seq<SliceResult>) -> int
    decreases s.len(),
{
    if s.len() == 0 {
        0
    } else {
        sum_filled(s.drop_last()) + s.last().filled_quantity.raw
    }
}

/// Fill-weighted price sum over a run of slices.
pub open spec fn weighted_sum(s: Seq<SliceResult>) -> int
    decreases s.len(),
{
    if s.len() == 0 {
        0
    } else {
        weighted_sum(s.drop_last()) + s.last().filled_quantity.raw * slice_price_raw(s.last())
    }
}

/// Result of sliced order execution.
#[derive(Clone, Debug)]
pub struct SlicedOrderResult {
    pub total_quantity: Fixed,
    pub filled_quantity: Fixed,
    pub avg_fill_price: Fixed,
    pub slices: Vec<SliceResult>,
    pub total_fees: Fixed,
    pub is_complete: bool,
}

impl SlicedOrderResult {
    /// The filled quantity is the sum of the slice fills, and the average
    /// fill price is the fill-weighted price mean (zero when nothing
    /// filled), truncated to raw units.
    pub open spec fn consistent(self) -> bool {
        &&& self.filled_quantity.raw == sum_filled(self.slices@)
        &&& (self.filled_quantity.raw > 0 ==> self.avg_fill_price.raw == weighted_sum(
            self.slices@,
        ) / (self.filled_quantity.raw as int))
        &&& (self.filled_quantity.raw == 0 ==> self.avg_fill_price.raw == 0)
    }
}

/// One sliced execution in progress: the plan, the slices already placed,
/// and the running fill accounting.
#[derive(Debug)]
pub struct SlicedExecution {
    pub symbol: String,
    pub side: Side,
    pub total_quantity: Fixed,
    pub tolerance_bps: Fixed,
    pub interval_ms: u64,
    pub slices: Vec<Fixed>,
    pub results: Vec<SliceResult>,
    pub filled: Fixed,
    pub weighted: u128,
}

impl SlicedExecution {
    /// The accounting invariant every step keeps.
    pub open spec fn wf(self) -> bool {
        &&& self.results@.len() <= self.slices@.len()
        &&& self.total_quantity.wf()
        &&& self.tolerance_bps.wf()
        &&& self.filled.wf()
        &&& self.filled.raw == sum_filled(self.results@)
        &&& self.weighted == weighted_sum(self.results@)
        &&& self.weighted <= self.filled.raw * (MAX_RAW as int)
        &&& forall|i: int|
            0 <= i < self.slices@.len() ==> (#[trigger] self.slices@[i]).wf()
                && self.slices@[i].raw > 0
    }

    /// All planned slices have been placed.
    pub open spec fn done(self) -> bool {
        self.results@.len() == self.slices@.len()
    }

    pub fn is_done(&self) -> (b: bool)
        ensures
            b == self.done(),
    {
        self.results.len() == self.slices.len()
    }

    /// Quantity of the slice to place next.
    pub fn next_quantity(&self) -> (q: Fixed)
        requires
            self.wf(),
            !self.done(),
        ensures
            q == self.slices@[self.results@.len() as int],
            q.wf(),
            q.raw > 0,
    {
        self.slices[self.results.len()]
    }

    /// Build the limit order for the next slice against a fresh touch.
    pub fn make_request(&self, best_bid: Fixed, best_ask: Fixed, client_order_id: String) -> (r:
        OrderRequest)
        requires
            self.wf(),
            !self.done(),
            best_bid.wf(),
            best_ask.wf(),
            client_order_id@.len() > 0,
            self.side == Side::Buy ==> best_bid.raw + tolerance_offset(
                best_bid.raw as int,
                self.tolerance_bps.raw as int,
            ) <= MAX_RAW,
            self.side == Side::Sell ==> tolerance_offset(
                best_ask.raw as int,
                self.tolerance_bps.raw as int,
            ) <= best_ask.raw,
        ensures
            r.symbol == self.symbol,
            r.side == self.side,
            r.order_type == OrderType::Limit,
            r.reduce_only == false,
            r.client_order_id == client_order_id,
            r.quantity == self.slices@[self.results@.len() as int],
            r.price == Some(
                calculate_limit_price_spec(self.side, best_bid, best_ask, self.tolerance_bps),
            ),
            r.wf(),
    {
        let price = calculate_limit_price(self.side, best_bid, best_ask, self.tolerance_bps);
        OrderRequest {
            client_order_id,
            symbol: self.symbol.clone(),
            side: self.side,
            order_type: OrderType::Limit,
            price: Some(price),
            quantity: self.next_quantity(),
            reduce_only: false,
        }
    }

    /// Record a placed slice from the venue's response. Returns false, and
    /// changes nothing, only when the aggregate fill would leave the
    /// representable range.
    pub fn record_success(
        &mut self,
        price: Fixed,
        client_order_id: String,
        response: OrderResponse,
    ) -> (ok: bool)
        requires
            old(self).wf(),
            !old(self).done(),
            response.wf(),
            price.wf(),
        ensures
            ok ==> ({
                &&& final(self).wf()
                &&& final(self).results@ == old(self).results@.push(
                    SliceResult {
                        index: old(self).results@.len() as usize,
                        client_order_id: client_order_id,
                        exchange_order_id: Some(response.exchange_order_id),
                        quantity: old(self).slices@[old(self).results@.len() as int],
                        price: price,
                        filled_quantity: response.filled_quantity,
                        avg_fill_price: response.avg_fill_price,
                        status: response.status,
                    },
                )
                &&& final(self).filled.raw == old(self).filled.raw
                    + response.filled_quantity.raw
                &&& final(self).slices == old(self).slices
                &&& final(self).symbol == old(self).symbol
                &&& final(self).side == old(self).side
                &&& final(self).total_quantity == old(self).total_quantity
                &&& final(self).tolerance_bps == old(self).tolerance_bps
                &&& final(self).interval_ms == old(self).interval_ms
            }),
            !ok ==> *final(self) == *old(self) && old(self).filled.raw
                + response.filled_quantity.raw > MAX_RAW,
    {
        if self.filled.raw > MAX_RAW - response.filled_quantity.raw {
            return false;
        }
        let f: u64 = response.filled_quantity.raw;
        let p: u64 = match response.avg_fill_price {
            Some(px) => px.raw,
            None => 0,
        };
        proof {
            assert(f * p <= f * MAX_RAW && f * MAX_RAW + self.filled.raw * MAX_RAW == (f
                + self.filled.raw) * MAX_RAW) by (nonlinear_arith)
                requires
                    p <= MAX_RAW,
                    f >= 0,
                    self.filled.raw >= 0,
            ;
        }
        let slice_result = SliceResult {
            index: self.results.len(),
            client_order_id,
            exchange_order_id: Some(response.exchange_order_id),
            quantity: self.slices[self.results.len()],
            price,
            filled_quantity: response.filled_quantity,
            avg_fill_price: response.avg_fill_price,
            status: response.status,
        };
        let ghost before = self.results@;
        self.results.push(slice_result);
        self.filled = Fixed { raw: self.filled.raw + f };
        self.weighted = self.weighted + (f as u128) * (p as u128);
        proof {
            assert(self.results@.drop_last() =~= before);
        }
        true
    }

    /// Record a slice whose placement failed: it stands in the run as
    /// rejected with nothing filled, and the run continues.
    pub fn record_failure(&mut self, price: Fixed, client_order_id: String)
        requires
            old(self).wf(),
            !old(self).done(),
            price.wf(),
        ensures
            final(self).wf(),
            final(self).results@ == old(self).results@.push(
                SliceResult {
                    index: old(self).results@.len() as usize,
                    client_order_id: client_order_id,
                    exchange_order_id: None,
                    quantity: old(self).slices@[old(self).results@.len() as int],
                    price: price,
                    filled_quantity: Fixed { raw: 0 },
                    avg_fill_price: None,
                    status: OrderStatus::Rejected,
                },
            ),
            final(self).filled == old(self).filled,
            final(self).slices == old(self).slices,
            final(self).symbol == old(self).symbol,
            final(self).side == old(self).side,
            final(self).total_quantity == old(self).total_quantity,
            final(self).tolerance_bps == old(self).tolerance_bps,
            final(self).interval_ms == old(self).interval_ms,
    {
        let slice_result = SliceResult {
            index: self.results.len(),
            client_order_id,
            exchange_order_id: None,
            quantity: self.slices[self.results.len()],
            price,
            filled_quantity: Fixed { raw: 0 },
            avg_fill_price: None,
            status: OrderStatus::Rejected,
        };
        let ghost before = self.results@;
        self.results.push(slice_result);
        proof {
            assert(self.results@.drop_last() =~= before);
        }
    }

    /// Close the run: the filled total, the fill-weighted average price,
    /// and the completeness verdict at the one-percent shortfall tolerance.
    pub fn finish(self) -> (r: SlicedOrderResult)
        requires
            self.wf(),
        ensures
            r.total_quantity == self.total_quantity,
            r.filled_quantity == self.filled,
            r.slices@ == self.results@,
            r.total_fees.raw == 0,
            r.consistent(),
            r.is_complete == (100 * self.filled.raw >= 99 * self.total_quantity.raw),
    {
        let avg: u64 = if self.filled.raw > 0 {
            proof {
                vstd::arithmetic::div_mod::lemma_div_is_ordered(
                    self.weighted as int,
                    self.filled.raw * (MAX_RAW as int),
                    self.filled.raw as int,
                );
                vstd::arithmetic::div_mod::lemma_div_multiples_vanish(
                    MAX_RAW as int,
                    self.filled.raw as int,
                );
                assert(self.filled.raw * (MAX_RAW as int) == (self.filled.raw as int) * (
                MAX_RAW as int)) by (nonlinear_arith);
            }
            (self.weighted / (self.filled.raw as u128)) as u64
        } else {
            0
        };
        let is_complete = (self.filled.raw as u128) * 100 >= (self.total_quantity.raw as u128)
            * 99;
        SlicedOrderResult {
            total_quantity: self.total_quantity,
            filled_quantity: self.filled,
            avg_fill_price: Fixed { raw: avg },
            slices: self.results,
            total_fees: Fixed { raw: 0 },
            is_complete,
        }
    }
}

/// Spec-level form of `calculate_limit_price`.
pub open spec fn calculate_limit_price_spec(
    side: Side,
    best_bid: Fixed,
    best_ask: Fixed,
    bps: Fixed,
) -> Fixed {
    match side {
        Side::Buy => Fixed {
            raw: (best_bid.raw + tolerance_offset(best_bid.raw as int, bps.raw as int)) as u64,
        },
        Side::Sell => Fixed {
            raw: (best_ask.raw - tolerance_offset(best_ask.raw as int, bps.raw as int)) as u64,
        },
    }
}

impl OrderSlicer {
    /// Open a sliced execution: plan the slices for the total and start the
    /// accounting at zero.
    pub fn start_run(&self, symbol: String, side: Side, total_quantity: Fixed) -> (r:
        SlicedExecution)
        requires
            self.config.wf(),
            total_quantity.wf(),
            total_quantity.raw > 0,
        ensures
            r.wf(),
            r.results@.len() == 0,
            !r.done(),
            r.symbol == symbol,
            r.side == side,
            r.total_quantity == total_quantity,
            r.tolerance_bps == self.config.price_tolerance_bps,
            r.interval_ms == self.config.interval_ms,
            sum_raw(r.slices@) == total_quantity.raw,
            r.slices@.len() >= 1,
    {
        let slices = self.calculate_slices(total_quantity);
        SlicedExecution {
            symbol,
            side,
            total_quantity,
            tolerance_bps: self.config.price_tolerance_bps,
            interval_ms: self.config.interval_ms,
            slices,
            results: Vec::new(),
            filled: Fixed { raw: 0 },
            weighted: 0,
        }
    }
}

} // verus!

verus! {

/// Price of an emergency exit: it crosses the spread by fifty basis points,
/// a buy above the ask and a sell below the bid, rounded down to the
/// nine-digit grid.
pub open spec fn emergency_price_raw(side: Side, best_bid: Fixed, best_ask: Fixed) -> int {
    match side {
        Side::Buy => (best_ask.raw * 1005) / 1000,
        Side::Sell => (best_bid.raw * 995) / 1000,
    }
}

/// Build the single aggressive order of an emergency exit. The order is
/// always reduce-only: an emergency exit may close a position, never open
/// one.
pub fn emergency_exit_request(
    symbol: String,
    side: Side,
    quantity: Fixed,
    best_bid: Fixed,
    best_ask: Fixed,
    client_order_id: String,
) -> (r: OrderRequest)
    requires
        quantity.wf(),
        quantity.raw > 0,
        best_bid.wf(),
        best_ask.wf(),
        client_order_id@.len() > 0,
        side == Side::Buy ==> emergency_price_raw(side, best_bid, best_ask) <= MAX_RAW,
    ensures
        r.reduce_only == true,
        r.order_type == OrderType::Limit,
        r.side == side,
        r.symbol == symbol,
        r.quantity == quantity,
        r.client_order_id == client_order_id,
        r.price == Some(Fixed { raw: emergency_price_raw(side, best_bid, best_ask) as u64 }),
        r.wf(),
{
    let price_raw: u64 = match side {
        Side::Buy => {
            let wide: u128 = (best_ask.raw as u128) * 1005 / 1000;
            wide as u64
        },
        Side::Sell => {
            proof {
                assert((best_bid.raw * 995) / 1000 <= best_bid.raw) by (nonlinear_arith)
                    requires
                        best_bid.raw >= 0,
                ;
            }
            let wide: u128 = (best_bid.raw as u128) * 995 / 1000;
            wide as u64
        },
    };
    OrderRequest {
        client_order_id,
        symbol,
        side,
        order_type: OrderType::Limit,
        price: Some(Fixed { raw: price_raw }),
        quantity,
        reduce_only: true,
    }
}

/// Fold the venue's answer to an emergency exit into a one-slice result.
/// When the venue reports no average price the aggressive price stands in,
/// as the placement price is what the exit was willing to pay.
pub fn emergency_exit_result(
    quantity: Fixed,
    price: Fixed,
    client_order_id: String,
    response: OrderResponse,
) -> (r: SlicedOrderResult)
    requires
        quantity.wf(),
        price.wf(),
        response.wf(),
    ensures
        r.total_quantity == quantity,
        r.filled_quantity == response.filled_quantity,
        r.is_complete == (response.status == OrderStatus::Filled),
        r.total_fees.raw == 0,
        r.slices@.len() == 1,
        r.slices@[0].filled_quantity == response.filled_quantity,
        r.slices@[0].status == response.status,
        r.slices@[0].price == price,
        r.filled_quantity.raw == sum_filled(r.slices@),
        r.avg_fill_price == response.avg_fill_price.unwrap_or(price),
        (response.avg_fill_price is Some && response.filled_quantity.raw > 0) ==> r.consistent(),
{
    let avg = match response.avg_fill_price {
        Some(p) => p,
        None => price,
    };
    let slice_result = SliceResult {
        index: 0,
        client_order_id,
        exchange_order_id: Some(response.exchange_order_id),
        quantity,
        price,
        filled_quantity: response.filled_quantity,
        avg_fill_price: response.avg_fill_price,
        status: response.status,
    };
    let is_complete = match response.status {
        OrderStatus::Filled => true,
        _ => false,
    };
    let mut slices: Vec<SliceResult> = Vec::new();
    let ghost the_slice = slice_result;
    slices.push(slice_result);
    proof {
        assert(slices@.len() == 1);
        assert(slices@.last() == the_slice);
        assert(slices@.drop_last() =~= Seq::<SliceResult>::empty());
        assert(sum_filled(slices@.drop_last()) == 0);
        assert(weighted_sum(slices@.drop_last()) == 0);
        assert(sum_filled(slices@) == response.filled_quantity.raw);
        assert(weighted_sum(slices@) == response.filled_quantity.raw * slice_price_raw(
            slices@.last(),
        ));
        if response.avg_fill_price is Some && response.filled_quantity.raw > 0 {
            vstd::arithmetic::div_mod::lemma_div_multiples_vanish(
                response.avg_fill_price->Some_0.raw as int,
                response.filled_quantity.raw as int,
            );
        }
    }
    SlicedOrderResult {
        total_quantity: quantity,
        filled_quantity: response.filled_quantity,
        avg_fill_price: avg,
        slices,
        total_fees: Fixed { raw: 0 },
        is_complete,
    }
}

} // verus!

