mod fixed;
mod strutil;
mod types;
mod codec;
mod config;
mod crypto;
mod exchange;
pub mod venues;
mod server;
mod slicer;

pub use fixed::{Fixed, u64_to_string};
pub use config::{Config, ConfigError, build_config, parse_port};
pub use crypto::{encrypt, decrypt, decrypt_credentials, credentials_from_parts, unsealed_text, seal_unseal_round_trip, CryptoError, aead_seal, aead_open, NONCE_SIZE};
pub use exchange::{HttpMethod, venue_is_connected, str_contains, contains_at, parse_timestamp_ms, spec_timestamp_ms, WireRequest, Venue, venue_id, venue_from_id, spec_venue_id, spec_venue_from_id, generate_client_order_id, is_client_order_id, str_eq, parse_fixed, parse_fixed_or_zero, spec_parse_fixed, spec_parse_fixed_or_zero, sign_hex_sha256, sign_b64_sha256, sign_hex_sha512, sign_hex_sha256_spec, sign_b64_sha256_spec, sign_hex_sha512_spec, side_upper, side_lower, side_title, order_type_upper, order_type_lower, order_type_title, json_str, json_escaped, json_esc_char, push_json_str};
pub use codec::{hex_char_lower, hmac_sha256, hmac_sha512, sha512, hex_encode, base64_encode, base64_decode, urlencode, spec_hex_lower, spec_urlencode, hmac_sha256_of, hmac_sha512_of, sha512_of, b64_of};
pub use server::{ExecutionMode, TradeLeg, EntryPlan, ExitPlan, combine_leg_results, SlicingParams, TradeEntryRequest, TradeExitRequest, ExecutionResult, ExecutionServer, CredentialCache, CachedCredentials, execution_result_json, spec_execution_result_json, spec_failure_result};
pub use slicer::{SlicingConfig, OrderSlicer, SliceResult, SlicedOrderResult, SlicedExecution, calculate_limit_price, calculate_limit_price_spec, emergency_exit_request, emergency_exit_result, emergency_price_raw, side_str, sum_raw, sum_filled, weighted_sum, slice_price_raw, tolerance_offset, slice_product, slice_plan_is_dust, slice_count, slice_boundary, MIN_SLICE_RAW};
pub use types::{Side, OrderType, OrderStatus, OrderRequest, OrderResponse, Credentials, ExchangeConfig, AdapterError, AdapterErrorKind};

