//! The batch orchestrator and response assembler: decode each requested
//! code, classify it, judge its fetched outcome with the right parser, and
//! partition the per-code results into successes and failures with an
//! overall status rollup. Every failure stays isolated to its code.

use vstd::prelude::*;
use vstd::string::StringExecFns;
use crate::classify::{get_code_type, spec_code_type, CodeType};
use crate::parse::{
    get_fx_info, get_index_info, get_regular_stock_info, spec_fx_quote, spec_index_quote,
    spec_stock_quote,
};
use crate::quote::{
    res_info_view, ApiResponse, ApiResponseV, FetchOutcome, FetchOutcomeV, QuoteError, QuoteErrorV,
    QuoteResponse, QuoteResponseV, StockInfo, StockInfoV,
};
use crate::selectors::{get_default_selectors, spec_default_selectors};
use crate::text::{dec_chars, opt_text, string_of_chars, u16_chars};

verus! {

/// What percent-decoding a code returns: the decoded text, or `None` when
/// the decoded bytes are not valid UTF-8.
pub uninterp spec fn decoded_text(s: Seq<char>) -> Option<Seq<char>>;

/// Relies on `urlencoding::decode`: deterministic percent-decoding of the
/// input text, failing only on invalid UTF-8 in the decoded bytes.
#[verifier::external_body]
fn percent_decode(s: &str) -> (r: Option<String>)
    ensures
        opt_text(r) == decoded_text(s@),
{
    match urlencoding::decode(s) {
        Ok(c) => Some(c.into_owned()),
        Err(_) => None,
    }
}

/// A code as used for classification and the page URL: percent-decoded,
/// falling back to the raw text when decoding fails.
pub open spec fn spec_decoded_code(s: Seq<char>) -> Seq<char> {
    match decoded_text(s) {
        Some(d) => d,
        None => s,
    }
}

/// Percent-decode a requested code, keeping the raw text when decoding
/// fails; a decode failure is recovered here and never surfaces.
pub fn decode_code(code: &str) -> (r: String)
    ensures
        r@ == spec_decoded_code(code@),
{
    match percent_decode(code) {
        Some(d) => d,
        None => String::from_str(code),
    }
}

/// The page URL for a decoded code: the fixed base plus the code, with a
/// trailing slash for FX pairs only.
pub open spec fn spec_quote_url(decoded: Seq<char>, code_type: CodeType) -> Seq<char> {
    let base = "https://finance.yahoo.co.jp/quote/"@ + decoded;
    if code_type is Fx {
        base + "/"@
    } else {
        base
    }
}

/// Build the page URL for a decoded code.
pub fn quote_url(decoded: &str, code_type: CodeType) -> (r: String)
    ensures
        r@ == spec_quote_url(decoded@, code_type),
{
    let mut u = String::from_str("https://finance.yahoo.co.jp/quote/");
    u.append(decoded);
    if code_type == CodeType::Fx {
        u.append("/");
    }
    u
}

/// The failure text for a non-200 response.
pub open spec fn spec_http_error(code: Seq<char>, status: u16, body: Seq<char>) -> Seq<char> {
    "Request failed for "@ + code + " with status "@ + dec_chars(status as int) + ": "@ + body
}

/// The per-code judgement: a transport failure is surfaced as it came; a
/// non-200 response fails with its status and body, before any parsing;
/// a 200 body goes to the parser picked by the decoded code's category.
pub open spec fn spec_quote_outcome(code: Seq<char>, out: FetchOutcomeV) -> Result<
    StockInfoV,
    Seq<char>,
> {
    match out {
        FetchOutcomeV::Transport { message } => Err(message),
        FetchOutcomeV::Response { status, body } => {
            if status != 200 {
                Err(spec_http_error(code, status, body))
            } else {
                match spec_code_type(spec_decoded_code(code)) {
                    CodeType::Fx => spec_fx_quote(
                        code,
                        body,
                        spec_default_selectors(CodeType::Fx),
                    ),
                    CodeType::Nikkei => spec_index_quote(
                        code,
                        body,
                        spec_default_selectors(CodeType::Nikkei),
                    ),
                    CodeType::Dji => spec_index_quote(
                        code,
                        body,
                        spec_default_selectors(CodeType::Dji),
                    ),
                    CodeType::Stock => spec_stock_quote(
                        code,
                        body,
                        spec_default_selectors(CodeType::Stock),
                    ),
                }
            }
        },
    }
}

/// Judge one code's fetched outcome. `code` is the caller's original,
/// undecoded string; it is decoded only to pick the category, and is
/// carried as-is into the record or failure for correlation.
pub fn quote_from_outcome(code: &str, outcome: &FetchOutcome) -> (r: Result<StockInfo, String>)
    ensures
        res_info_view(r) == spec_quote_outcome(code@, outcome@),
{
    match outcome {
        FetchOutcome::Transport { message } => Err(message.clone()),
        FetchOutcome::Response { status, body } => {
            if *status != 200 {
                let mut e = String::from_str("Request failed for ");
                e.append(code);
                e.append(" with status ");
                e.append(string_of_chars(&u16_chars(*status)).as_str());
                e.append(": ");
                e.append(body.as_str());
                proof {
                    assert(e@ =~= spec_http_error(code@, outcome@->Response_status, body@));
                }
                Err(e)
            } else {
                let decoded = decode_code(code);
                let code_type = get_code_type(decoded.as_str());
                let sel = get_default_selectors(code_type);
                let owned = String::from_str(code);
                match code_type {
                    CodeType::Fx => get_fx_info(owned, body.as_str(), &sel),
                    CodeType::Nikkei | CodeType::Dji => get_index_info(
                        owned,
                        body.as_str(),
                        &sel,
                    ),
                    CodeType::Stock => get_regular_stock_info(owned, body.as_str(), &sel),
                }
            }
        },
    }
}

/// A batch's codes paired with their results, in request order.
pub open spec fn spec_pairs(
    codes: Seq<Seq<char>>,
    results: Seq<Result<StockInfoV, Seq<char>>>,
) -> Seq<(Seq<char>, Result<StockInfoV, Seq<char>>)> {
    Seq::new(results.len(), |i: int| (codes[i], results[i]))
}

/// The partition of paired outcomes: `Ok` records in order on one side,
/// failures with their original codes in order on the other.
pub open spec fn spec_partition(pairs: Seq<(Seq<char>, Result<StockInfoV, Seq<char>>)>) -> (
    Seq<StockInfoV>,
    Seq<QuoteErrorV>,
)
    decreases pairs.len(),
{
    if pairs.len() == 0 {
        (Seq::empty(), Seq::empty())
    } else {
        let pr = spec_partition(pairs.drop_last());
        match pairs.last().1 {
            Ok(info) => (pr.0.push(info), pr.1),
            Err(e) => (pr.0, pr.1.push(QuoteErrorV { code: pairs.last().0, error: e })),
        }
    }
}

/// The overall rollup: `success` when nothing failed, `failure` when
/// nothing succeeded (an empty batch counts as `success`), otherwise
/// `partial_success`.
pub open spec fn spec_status(successes: Seq<StockInfoV>, failures: Seq<QuoteErrorV>) -> Seq<char> {
    if failures.len() == 0 {
        "success"@
    } else if successes.len() == 0 {
        "failure"@
    } else {
        "partial_success"@
    }
}

/// The assembled response for a batch's codes and per-code results.
pub open spec fn spec_assemble(
    codes: Seq<Seq<char>>,
    results: Seq<Result<StockInfoV, Seq<char>>>,
) -> ApiResponseV
    recommends
        codes.len() == results.len(),
{
    let pr = spec_partition(spec_pairs(codes, results));
    ApiResponseV {
        status: spec_status(pr.0, pr.1),
        data: QuoteResponseV { success: pr.0, failed: pr.1 },
    }
}

/// The view of a list of per-code results.
pub open spec fn results_view(rs: Seq<Result<StockInfo, String>>) -> Seq<
    Result<StockInfoV, Seq<char>>,
> {
    rs.map_values(|r: Result<StockInfo, String>| res_info_view(r))
}

/// Walk the results in request order, route each into the success or
/// failure side under its original code, and roll up the status.
#[verifier::loop_isolation(false)]
pub fn assemble_response(codes: &Vec<String>, results: &Vec<Result<StockInfo, String>>) -> (r:
    ApiResponse)
    requires
        codes@.len() == results@.len(),
    ensures
        r@ == spec_assemble(codes.deep_view(), results_view(results@)),
{
    let ghost pairs = spec_pairs(codes.deep_view(), results_view(results@));
    let mut success: Vec<StockInfo> = Vec::new();
    let mut failed: Vec<QuoteError> = Vec::new();
    let mut i: usize = 0;
    proof {
        assert(pairs.take(0) =~= Seq::empty());
    }
    while i < results.len()
        invariant
            i <= results@.len(),
            (
                success@.map_values(|s: StockInfo| s@),
                failed@.map_values(|f: QuoteError| f@),
            ) == spec_partition(pairs.take(i as int)),
        decreases results@.len() - i,
    {
        proof {
            assert(pairs.take(i as int + 1).drop_last() =~= pairs.take(i as int));
            assert(pairs.take(i as int + 1).last() == pairs[i as int]);
        }
        match &results[i] {
            Ok(info) => {
                success.push(info.clone());
                proof {
                    assert(success@.map_values(|s: StockInfo| s@) =~= spec_partition(
                        pairs.take(i as int + 1),
                    ).0);
                }
            },
            Err(e) => {
                failed.push(QuoteError { code: codes[i].clone(), error: e.clone() });
                proof {
                    assert(failed@.map_values(|f: QuoteError| f@) =~= spec_partition(
                        pairs.take(i as int + 1),
                    ).1);
                }
            },
        }
        i = i + 1;
    }
    proof {
        assert(pairs.take(results@.len() as int) =~= pairs);
    }
    let status = if failed.len() == 0 {
        String::from_str("success")
    } else if success.len() == 0 {
        String::from_str("failure")
    } else {
        String::from_str("partial_success")
    };
    let r = ApiResponse { status, data: QuoteResponse { success, failed } };
    proof {
        assert(r@ =~= spec_assemble(codes.deep_view(), results_view(results@)));
    }
    r
}

/// The view of a list of fetched outcomes.
pub open spec fn outs_view(s: Seq<FetchOutcome>) -> Seq<FetchOutcomeV> {
    s.map_values(|o: FetchOutcome| o@)
}

/// A whole batch: each code judged against its own fetched outcome, then
/// assembled into the partitioned response.
pub open spec fn spec_run_batch(codes: Seq<Seq<char>>, outcomes: Seq<FetchOutcomeV>) -> ApiResponseV
    recommends
        codes.len() == outcomes.len(),
{
    spec_assemble(
        codes,
        Seq::new(codes.len(), |i: int| spec_quote_outcome(codes[i], outcomes[i])),
    )
}

/// Judge a batch of codes against their fetched outcomes, one outcome per
/// code in request order, and assemble the response. No failure aborts a
/// sibling: every code lands in exactly one side of the partition.
#[verifier::loop_isolation(false)]
pub fn run_batch(codes: &Vec<String>, outcomes: &Vec<FetchOutcome>) -> (r: ApiResponse)
    requires
        codes@.len() == outcomes@.len(),
    ensures
        r@ == spec_run_batch(codes.deep_view(), outs_view(outcomes@)),
{
    let ghost wanted = Seq::new(
        codes.deep_view().len(),
        |i: int| spec_quote_outcome(codes.deep_view()[i], outs_view(outcomes@)[i]),
    );
    let mut results: Vec<Result<StockInfo, String>> = Vec::new();
    let mut i: usize = 0;
    proof {
        assert(results_view(results@) =~= wanted.take(0));
    }
    while i < codes.len()
        invariant
            i <= codes@.len(),
            results@.len() == i,
            results_view(results@) == wanted.take(i as int),
        decreases codes@.len() - i,
    {
        let outcome = quote_from_outcome(codes[i].as_str(), &outcomes[i]);
        results.push(outcome);
        proof {
            assert(results_view(results@) =~= wanted.take(i as int + 1));
        }
        i = i + 1;
    }
    proof {
        assert(wanted.take(codes@.len() as int) =~= wanted);
    }
    assemble_response(codes, &results)
}

/// A code paired with its result.
pub type PairV = (Seq<char>, Result<StockInfoV, Seq<char>>);

proof fn lemma_quote_outcome_code(code: Seq<char>, out: FetchOutcomeV)
    ensures
        spec_quote_outcome(code, out) is Ok ==> spec_quote_outcome(code, out)->Ok_0.code == code,
{
}

/// The codes of the pairs whose result is `Ok`, in order.
pub open spec fn ok_codes(pairs: Seq<PairV>) -> Seq<Seq<char>>
    decreases pairs.len(),
{
    if pairs.len() == 0 {
        Seq::empty()
    } else if pairs.last().1 is Ok {
        ok_codes(pairs.drop_last()).push(pairs.last().0)
    } else {
        ok_codes(pairs.drop_last())
    }
}

/// The codes of the pairs whose result is `Err`, in order.
pub open spec fn err_codes(pairs: Seq<PairV>) -> Seq<Seq<char>>
    decreases pairs.len(),
{
    if pairs.len() == 0 {
        Seq::empty()
    } else if pairs.last().1 is Err {
        err_codes(pairs.drop_last()).push(pairs.last().0)
    } else {
        err_codes(pairs.drop_last())
    }
}

proof fn lemma_partition_codes(pairs: Seq<PairV>)
    requires
        forall|i: int|
            0 <= i < pairs.len() && (#[trigger] pairs[i]).1 is Ok ==> pairs[i].1->Ok_0.code
                == pairs[i].0,
    ensures
        spec_partition(pairs).0.len() + spec_partition(pairs).1.len() == pairs.len(),
        spec_partition(pairs).0.len() == ok_codes(pairs).len(),
        spec_partition(pairs).1.len() == err_codes(pairs).len(),
        forall|i: int|
            0 <= i < spec_partition(pairs).0.len() ==> (#[trigger] spec_partition(
                pairs,
            ).0[i]).code == ok_codes(pairs)[i],
        forall|i: int|
            0 <= i < spec_partition(pairs).1.len() ==> (#[trigger] spec_partition(
                pairs,
            ).1[i]).code == err_codes(pairs)[i],
    decreases pairs.len(),
{
    if pairs.len() > 0 {
        let rest = pairs.drop_last();
        assert(forall|i: int|
            0 <= i < rest.len() && (#[trigger] rest[i]).1 is Ok ==> rest[i].1->Ok_0.code
                == rest[i].0);
        lemma_partition_codes(rest);
        assert(pairs[pairs.len() - 1] == pairs.last());
    }
}

/// Law: every requested code lands in exactly one side of the partition,
/// in request order. The successes carry, in order, the codes whose
/// outcomes parsed; the failures carry, in order, the codes whose
/// outcomes did not; together they cover the whole batch. Codes are not
/// deduplicated: a repeated code yields one independent entry per
/// occurrence.
pub proof fn lemma_batch_partition(codes: Seq<Seq<char>>, outcomes: Seq<FetchOutcomeV>)
    requires
        codes.len() == outcomes.len(),
    ensures
        ({
            let resp = spec_run_batch(codes, outcomes);
            let results = Seq::new(
                codes.len(),
                |i: int| spec_quote_outcome(codes[i], outcomes[i]),
            );
            let pairs = spec_pairs(codes, results);
            &&& resp.data.success.len() + resp.data.failed.len() == codes.len()
            &&& resp.data.success.len() == ok_codes(pairs).len()
            &&& resp.data.failed.len() == err_codes(pairs).len()
            &&& forall|i: int|
                0 <= i < resp.data.success.len() ==> (#[trigger] resp.data.success[i]).code
                    == ok_codes(pairs)[i]
            &&& forall|i: int|
                0 <= i < resp.data.failed.len() ==> (#[trigger] resp.data.failed[i]).code
                    == err_codes(pairs)[i]
        }),
{
    let results = Seq::new(codes.len(), |i: int| spec_quote_outcome(codes[i], outcomes[i]));
    let pairs = spec_pairs(codes, results);
    assert forall|i: int|
        0 <= i < pairs.len() && (#[trigger] pairs[i]).1 is Ok implies pairs[i].1->Ok_0.code
        == pairs[i].0 by {
        lemma_quote_outcome_code(codes[i], outcomes[i]);
    }
    lemma_partition_codes(pairs);
}

/// Law: with at least one code in the batch, the rollup is `success`
/// exactly when no code failed, `failure` exactly when no code
/// succeeded, and `partial_success` exactly when there is at least one
/// of each. (An empty batch rolls up to `success` over two empty sides,
/// so the `failure` equivalence needs the batch to be non-empty.)
pub proof fn lemma_status_rollup(codes: Seq<Seq<char>>, outcomes: Seq<FetchOutcomeV>)
    requires
        codes.len() == outcomes.len(),
        codes.len() > 0,
    ensures
        ({
            let resp = spec_run_batch(codes, outcomes);
            &&& (resp.status == "success"@ <==> resp.data.failed.len() == 0)
            &&& (resp.status == "failure"@ <==> resp.data.success.len() == 0)
            &&& (resp.status == "partial_success"@ <==> resp.data.success.len() > 0
                && resp.data.failed.len() > 0)
        }),
{
    lemma_batch_partition(codes, outcomes);
    let resp = spec_run_batch(codes, outcomes);
    reveal_strlit("success");
    reveal_strlit("failure");
    reveal_strlit("partial_success");
    assert("success"@.len() == 7);
    assert("failure"@.len() == 7);
    assert("partial_success"@.len() == 15);
    assert("success"@[0] == 's' && "failure"@[0] == 'f');
    assert(resp.data.success.len() + resp.data.failed.len() > 0);
}

} // verus!
