//! The venue adapters: request building, signing and response decoding for
//! each supported exchange.

pub mod binance;
pub mod bitget;
pub mod bingx;
pub mod bybit;
pub mod coinex;
pub mod gateio;
pub mod htx;
pub mod kucoin;
pub mod lbank;
pub mod mexc;
pub mod okx;

use vstd::prelude::*;

use crate::exchange::Venue;
use crate::types::OrderStatus;

verus! {

/// The words of a venue's status vocabulary that translate to some
/// definite status, for the venues that report statuses as words.
pub open spec fn known_status_word(v: Venue, s: Seq<char>) -> bool {
    match v {
        Venue::Binance => s == "NEW"@ || s == "PARTIALLY_FILLED"@ || s == "FILLED"@ || s
            == "CANCELED"@ || s == "REJECTED"@ || s == "EXPIRED"@,
        Venue::Bybit => s == "New"@ || s == "PartiallyFilled"@ || s == "Filled"@ || s
            == "Cancelled"@ || s == "Rejected"@,
        Venue::Okx => s == "live"@ || s == "partially_filled"@ || s == "filled"@ || s
            == "canceled"@ || s == "cancelled"@,
        Venue::Bitget => s == "new"@ || s == "init"@ || s == "partial-fill"@ || s
            == "partially_filled"@ || s == "full-fill"@ || s == "filled"@ || s == "cancelled"@
            || s == "canceled"@,
        Venue::Kucoin => s == "open"@ || s == "new"@ || s == "match"@ || s == "partial"@ || s
            == "done"@ || s == "filled"@ || s == "canceled"@ || s == "cancelled"@,
        Venue::Gateio => s == "open"@ || s == "finished"@ || s == "cancelled"@,
        Venue::Bingx => s == "NEW"@ || s == "PENDING"@ || s == "PARTIALLY_FILLED"@ || s
            == "FILLED"@ || s == "CANCELED"@ || s == "CANCELLED"@,
        Venue::Coinex => s == "open"@ || s == "not_deal"@ || s == "part_deal"@ || s == "done"@
            || s == "filled"@ || s == "cancel"@ || s == "canceled"@,
        Venue::Mexc => false,
        Venue::Lbank => false,
        Venue::Htx => false,
    }
}

/// The translation a word venue applies.
pub open spec fn spec_word_status(v: Venue, s: Seq<char>) -> OrderStatus {
    match v {
        Venue::Binance => binance::spec_binance_status(s),
        Venue::Bybit => bybit::spec_bybit_status(s),
        Venue::Okx => okx::spec_okx_status(s),
        Venue::Bitget => bitget::spec_bitget_status(s),
        Venue::Kucoin => kucoin::spec_kucoin_status(s),
        Venue::Gateio => gateio::spec_gateio_status(s),
        Venue::Bingx => bingx::spec_bingx_status(s),
        Venue::Coinex => coinex::spec_coinex_status(s),
        Venue::Mexc => OrderStatus::Pending,
        Venue::Lbank => OrderStatus::Pending,
        Venue::Htx => OrderStatus::Pending,
    }
}

/// A status word outside a venue's vocabulary translates to `Pending`,
/// never to a terminal status: an outcome nobody observed cannot read as
/// final.
pub proof fn lemma_unknown_word_status_is_pending(v: Venue, s: Seq<char>)
    requires
        !known_status_word(v, s),
    ensures
        spec_word_status(v, s) == OrderStatus::Pending,
        !spec_word_status(v, s).is_terminal(),
{
}

/// The numeric states that translate to some definite status, for the
/// venues that report statuses as codes.
pub open spec fn known_status_code(v: Venue, n: int) -> bool {
    match v {
        Venue::Mexc => 1 <= n <= 4,
        Venue::Lbank => 0 <= n <= 5,
        Venue::Htx => 1 <= n <= 7,
        _ => false,
    }
}

/// The translation a code venue applies.
pub open spec fn spec_code_status(v: Venue, n: int) -> OrderStatus {
    match v {
        Venue::Mexc => mexc::spec_mexc_status(n),
        Venue::Lbank => lbank::spec_lbank_status(n),
        Venue::Htx => htx::spec_htx_status(n),
        _ => OrderStatus::Pending,
    }
}

/// A status code outside a venue's vocabulary translates to `Pending`,
/// never to a terminal status.
pub proof fn lemma_unknown_code_status_is_pending(v: Venue, n: int)
    requires
        !known_status_code(v, n),
    ensures
        spec_code_status(v, n) == OrderStatus::Pending,
        !spec_code_status(v, n).is_terminal(),
{
}

} // verus!
