//! Open-loop HTTP load generation: request mixes, payload synthesis, Poisson
//! arrival scheduling and aggregation of latency records.

mod connection;
mod http;
mod mix;
mod orchestrator;
mod payload;
mod random;
mod units;

pub use connection::{
    collect_units, gathered, is_success, max_span, records_view, unit_outcome, Error, Record,
    Schedule, TransportError,
};
pub use http::{fields_view, lemma_product_path_in_catalog, HttpRequest, Method, HOST};
pub use mix::{lemma_single_kind_mix, RequestData, RequestKind, RequestMix};
pub use orchestrator::{
    concat_records, lemma_zero_rate_is_invalid, merge_connections, merged, per_connection_rate,
    plan, plan_error, rounded_share, Config, ConnWorkload,
};
pub use payload::{
    card_number, card_text, fake_card_number, fake_month, fake_year, group4, group_by_four,
    is_card_number, is_expiry_year, is_month_name, lead_digit, month_name, month_names, AddToCart,
    Catalog, EmptyCart, Home, Logout, PlaceOrder, Product, SetCurrency, ViewCart, DASH,
};
pub use random::{
    ascii_chars, decimal, digit_char, drawn_from, is_digit, signed_decimal,
    weight_sum,
};
pub use units::{Bytes, Microsecs, Nanosecs, Secs};
