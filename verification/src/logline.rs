//! Audit-log lines: one newline-terminated line per attempted daemon call.

use vstd::prelude::*;

use crate::decimal::{dec_int, i64_to_dec};

verus! {

/// The exact text of one audit-log line:
/// `<timestamp>: <Success|Failed> - txid: <txid>, fee_delta: <feeDelta>[, error: <message>]\n`.
pub open spec fn log_line(
    ts: Seq<char>,
    txid: Seq<char>,
    fee_delta: int,
    success: bool,
    error: Seq<char>,
) -> Seq<char> {
    if success {
        ts + ": Success - txid: "@ + txid + ", fee_delta: "@ + dec_int(fee_delta) + "\n"@
    } else {
        ts + ": Failed - txid: "@ + txid + ", fee_delta: "@ + dec_int(fee_delta) + ", error: "@
            + error + "\n"@
    }
}

/// Builds one audit-log line, exactly as `log_line` states.
pub fn build_log_line(ts: String, txid: &str, fee_delta: i64, success: bool, error: &str) -> (r:
    String)
    ensures
        r@ == log_line(ts@, txid@, fee_delta as int, success, error@),
{
    let mut line = ts;
    if success {
        line.append(": Success - txid: ");
    } else {
        line.append(": Failed - txid: ");
    }
    line.append(txid);
    line.append(", fee_delta: ");
    let digits = i64_to_dec(fee_delta);
    line.append(digits.as_str());
    if !success {
        line.append(", error: ");
        line.append(error);
    }
    line.append("\n");
    proof {
        assert(line@ =~= log_line(ts@, txid@, fee_delta as int, success, error@));
    }
    line
}

} // verus!
