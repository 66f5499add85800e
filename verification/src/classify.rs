//! Instrument code classification.
//!
//! A code's category is decided by its textual form alone, with a fixed
//! order of checks: the FX suffix first, then the Nikkei prefix, then any
//! other index prefix, and everything else is a stock.

use vstd::prelude::*;
use crate::text::{chars_of, ends_with, ends_with_spec, starts_with, starts_with_spec};

verus! {

/// The category of an instrument code.
#[derive(Clone, Copy, Debug, PartialEq, Eq, Structural)]
pub enum CodeType {
    Fx,
    Nikkei,
    Dji,
    Stock,
}

/// The category of a code: `=FX` suffix, then `^N225` prefix, then any
/// `^` prefix, else a stock.
pub open spec fn spec_code_type(s: Seq<char>) -> CodeType {
    if ends_with_spec(s, "=FX"@) {
        CodeType::Fx
    } else if starts_with_spec(s, "^N225"@) {
        CodeType::Nikkei
    } else if starts_with_spec(s, "^"@) {
        CodeType::Dji
    } else {
        CodeType::Stock
    }
}

/// Classify an instrument code. Pure and total: the result depends on the
/// characters of `code` alone.
pub fn get_code_type(code: &str) -> (r: CodeType)
    ensures
        r == spec_code_type(code@),
{
    let cs = chars_of(code);
    let fx_suffix = chars_of("=FX");
    if ends_with(&cs, &fx_suffix) {
        return CodeType::Fx;
    }
    let nikkei_prefix = chars_of("^N225");
    if starts_with(&cs, &nikkei_prefix) {
        return CodeType::Nikkei;
    }
    let index_prefix = chars_of("^");
    if starts_with(&cs, &index_prefix) {
        return CodeType::Dji;
    }
    CodeType::Stock
}

} // verus!
