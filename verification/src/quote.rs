//! The data carried through a batch: one quote record per instrument that
//! parsed, one failure per instrument that did not, and the assembled
//! response around them.

use vstd::prelude::*;
use crate::number::Decimal;

verus! {

/// A successfully extracted quote. `code` is the caller's original,
/// undecoded code string, kept for correlation.
#[derive(Debug)]
pub struct StockInfo {
    pub code: String,
    pub name: String,
    pub price: Decimal,
    pub change: Decimal,
    pub change_percent: Decimal,
    pub update_time: String,
}

#[verifier::ext_equal]
pub struct StockInfoV {
    pub code: Seq<char>,
    pub name: Seq<char>,
    pub price: Decimal,
    pub change: Decimal,
    pub change_percent: Decimal,
    pub update_time: Seq<char>,
}

impl View for StockInfo {
    type V = StockInfoV;

    open spec fn view(&self) -> StockInfoV {
        StockInfoV {
            code: self.code@,
            name: self.name@,
            price: self.price,
            change: self.change,
            change_percent: self.change_percent,
            update_time: self.update_time@,
        }
    }
}

impl Clone for StockInfo {
    fn clone(&self) -> (r: Self)
        ensures
            r == *self,
    {
        StockInfo {
            code: self.code.clone(),
            name: self.name.clone(),
            price: self.price,
            change: self.change,
            change_percent: self.change_percent,
            update_time: self.update_time.clone(),
        }
    }
}

/// One instrument whose fetch or parse failed: the original code string
/// and a human-readable cause.
#[derive(Debug)]
pub struct QuoteError {
    pub code: String,
    pub error: String,
}

impl Clone for QuoteError {
    fn clone(&self) -> (r: Self)
        ensures
            r == *self,
    {
        QuoteError { code: self.code.clone(), error: self.error.clone() }
    }
}

#[verifier::ext_equal]
pub struct QuoteErrorV {
    pub code: Seq<char>,
    pub error: Seq<char>,
}

impl View for QuoteError {
    type V = QuoteErrorV;

    open spec fn view(&self) -> QuoteErrorV {
        QuoteErrorV { code: self.code@, error: self.error@ }
    }
}

/// The partition of a batch's outcomes, each sequence in request order.
#[derive(Debug)]
pub struct QuoteResponse {
    pub success: Vec<StockInfo>,
    pub failed: Vec<QuoteError>,
}

#[verifier::ext_equal]
pub struct QuoteResponseV {
    pub success: Seq<StockInfoV>,
    pub failed: Seq<QuoteErrorV>,
}

impl View for QuoteResponse {
    type V = QuoteResponseV;

    open spec fn view(&self) -> QuoteResponseV {
        QuoteResponseV {
            success: self.success@.map_values(|s: StockInfo| s@),
            failed: self.failed@.map_values(|f: QuoteError| f@),
        }
    }
}

/// The assembled batch payload: the partition and the overall rollup.
#[derive(Debug)]
pub struct ApiResponse {
    pub status: String,
    pub data: QuoteResponse,
}

#[verifier::ext_equal]
pub struct ApiResponseV {
    pub status: Seq<char>,
    pub data: QuoteResponseV,
}

impl View for ApiResponse {
    type V = ApiResponseV;

    open spec fn view(&self) -> ApiResponseV {
        ApiResponseV { status: self.status@, data: self.data@ }
    }
}

/// What one page fetch produced, as handed in by the transport: either an
/// HTTP response (any status) or a transport-level failure.
#[derive(Debug)]
pub enum FetchOutcome {
    Response { status: u16, body: String },
    Transport { message: String },
}

#[verifier::ext_equal]
pub enum FetchOutcomeV {
    Response { status: u16, body: Seq<char> },
    Transport { message: Seq<char> },
}

impl View for FetchOutcome {
    type V = FetchOutcomeV;

    open spec fn view(&self) -> FetchOutcomeV {
        match self {
            FetchOutcome::Response { status, body } => FetchOutcomeV::Response {
                status: *status,
                body: body@,
            },
            FetchOutcome::Transport { message } => FetchOutcomeV::Transport { message: message@ },
        }
    }
}

/// The view of a per-code outcome.
pub open spec fn res_info_view(r: Result<StockInfo, String>) -> Result<StockInfoV, Seq<char>> {
    match r {
        Ok(s) => Ok(s@),
        Err(e) => Err(e@),
    }
}

} // verus!
