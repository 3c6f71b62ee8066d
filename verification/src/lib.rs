use vstd::prelude::*;

pub mod text;
pub mod enums;
pub mod detection;
pub mod number;
pub mod trade;
pub mod trade_text;
pub mod report;
pub mod operations;
pub mod notification;
pub mod on_trade;
pub mod market;
pub mod pricing;
pub mod sorting;
pub mod records;
pub mod query;
pub mod account;
pub mod export_text;
pub mod gdpr;
pub mod knapsack;
pub mod scraper;
pub mod riven;
pub mod details;
pub mod conversation;
pub mod http;

verus! {

/// Whether a numeric setting is switched off (any value of -1 or below).
pub fn is_disabled(value: i64) -> (res: bool)
    ensures
        res == (value <= -1),
{
    value <= -1
}

} // verus!
