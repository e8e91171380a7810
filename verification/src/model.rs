//! The data model: one acceleration request and its eligibility rule.

use vstd::prelude::*;

use crate::decimal::{dec_int, i64_to_dec};

verus! {

/// One queued fee-acceleration instruction.
///
/// `txid` and `fee_delta` are required for eligibility; every other field
/// is opaque metadata that the reconciler preserves verbatim.
pub struct Acceleration {
    pub txid: Option<String>,
    pub fee_delta: Option<i64>,
    pub event_type: String,
    pub pools: Vec<u32>,
    pub effective_vsize: u32,
    pub effective_fee: u32,
    pub added: Option<u64>,
    pub logged_at: String,
}

/// A request is eligible for processing iff its event type is "legacy" or
/// "added" and both `txid` and `fee_delta` are present.
pub open spec fn is_eligible(a: Acceleration) -> bool {
    (a.event_type@ == "legacy"@ || a.event_type@ == "added"@) && a.txid is Some
        && a.fee_delta is Some
}

impl Acceleration {
    /// Decides eligibility, exactly as `is_eligible` states it.
    pub fn eligible(&self) -> (b: bool)
        ensures
            b == is_eligible(*self),
    {
        (self.event_type == String::from_str("legacy") || self.event_type == String::from_str(
            "added",
        )) && self.txid.is_some() && self.fee_delta.is_some()
    }

    /// The positional arguments of the fee-prioritisation command for this
    /// request: `<txid> <zero placeholder> <feeDelta>`. `Some` exactly for
    /// eligible requests; ineligible requests get no external call.
    pub fn command_args(&self) -> (r: Option<Vec<String>>)
        ensures
            r is Some <==> is_eligible(*self),
            r is Some ==> {
                &&& r->0@.len() == 3
                &&& r->0@[0]@ == self.txid->0@
                &&& r->0@[1]@ == "0.0"@
                &&& r->0@[2]@ == dec_int(self.fee_delta->0 as int)
            },
    {
        if self.eligible() {
            let mut args: Vec<String> = Vec::new();
            let txid = match self.txid.as_ref() {
                Some(t) => String::from_str(t.as_str()),
                None => String::new(),
            };
            let fee_delta = match self.fee_delta {
                Some(v) => v,
                None => 0,
            };
            args.push(txid);
            args.push(String::from_str("0.0"));
            args.push(i64_to_dec(fee_delta));
            Some(args)
        } else {
            None
        }
    }
}

} // verus!
