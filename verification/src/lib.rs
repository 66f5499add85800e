//! Batched quote extraction: classify instrument codes, select the markup
//! rules for each category, parse fetched quote pages into typed records,
//! and aggregate per-code outcomes into a partitioned batch response.

pub mod batch;
pub mod classify;
pub mod html;
pub mod number;
pub mod parse;
pub mod quote;
pub mod selectors;
pub mod text;
