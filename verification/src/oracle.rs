use vstd::prelude::*;

use crate::apf::{spec_eval_rs_apf32, spec_eval_rs_apf64};
use crate::bits::{spec_is_nan32, spec_is_nan64};
use crate::req::FuzzReq;

verus! {

/// The three run-time switches, read once at process start and passed by
/// value into every evaluation: whether hardware NaN payloads are erased
/// before comparison, whether the native reference backend is compared,
/// and whether the hardware backend is skipped.
#[derive(Copy, Clone, Debug)]
pub struct Config {
    pub erase_hard_nans: bool,
    pub cxx: bool,
    pub ignore_hard: bool,
}

/// The outcome of comparing one request's backend results against the
/// software pivot. Any variant but `Pass` reports a found divergence, which
/// the surrounding harness surfaces as a fatal assertion.
#[derive(Copy, Clone, Debug, PartialEq, Eq, Structural)]
pub enum Verdict {
    Pass,
    HardDiverged,
    CxxDiverged,
}

/// The verdict on a 32-bit-precision request, given the hardware backend's
/// result bits (when it ran) and the native reference backend's result bits
/// (when it ran). The software backend is the pivot: each other backend is
/// checked against it, never against the other. When `erase_hard_nans` is
/// set and the hardware result is a NaN pattern, the comparison narrows to
/// "every result is a NaN pattern"; otherwise it is bit-exact.
pub open spec fn spec_verdict32(
    erase_hard_nans: bool,
    req: FuzzReq<u32>,
    out_hard: Option<u32>,
    out_cxx: Option<u32>,
) -> Verdict {
    let soft = spec_eval_rs_apf32(req);
    if erase_hard_nans && (out_hard matches Some(h) && spec_is_nan32(h)) {
        if !spec_is_nan32(soft) {
            Verdict::HardDiverged
        } else if out_cxx matches Some(c) && !spec_is_nan32(c) {
            Verdict::CxxDiverged
        } else {
            Verdict::Pass
        }
    } else {
        if out_hard matches Some(h) && h != soft {
            Verdict::HardDiverged
        } else if out_cxx matches Some(c) && c != soft {
            Verdict::CxxDiverged
        } else {
            Verdict::Pass
        }
    }
}

/// The verdict on a 64-bit-precision request; as `spec_verdict32`.
pub open spec fn spec_verdict64(
    erase_hard_nans: bool,
    req: FuzzReq<u64>,
    out_hard: Option<u64>,
    out_cxx: Option<u64>,
) -> Verdict {
    let soft = spec_eval_rs_apf64(req);
    if erase_hard_nans && (out_hard matches Some(h) && spec_is_nan64(h)) {
        if !spec_is_nan64(soft) {
            Verdict::HardDiverged
        } else if out_cxx matches Some(c) && !spec_is_nan64(c) {
            Verdict::CxxDiverged
        } else {
            Verdict::Pass
        }
    } else {
        if out_hard matches Some(h) && h != soft {
            Verdict::HardDiverged
        } else if out_cxx matches Some(c) && c != soft {
            Verdict::CxxDiverged
        } else {
            Verdict::Pass
        }
    }
}

/// Evaluates the software pivot on `req` and compares the other backends'
/// result bits against it, applying the NaN-erasure policy from `cfg`.
///
/// `out_hard` is the hardware backend's result (absent when that backend
/// was skipped); `out_cxx` is the native reference backend's result (absent
/// unless that backend was enabled).
pub fn verdict32(cfg: &Config, req: FuzzReq<u32>, out_hard: Option<u32>, out_cxx: Option<u32>) -> (v:
    Verdict)
    ensures
        v == spec_verdict32(cfg.erase_hard_nans, req, out_hard, out_cxx),
{
    let soft = req.eval_rs_apf();
    let erased = match out_hard {
        Some(h) => cfg.erase_hard_nans && crate::bits::is_nan32(h),
        None => false,
    };
    if erased {
        if !crate::bits::is_nan32(soft) {
            return Verdict::HardDiverged;
        }
        match out_cxx {
            Some(c) => if crate::bits::is_nan32(c) {
                Verdict::Pass
            } else {
                Verdict::CxxDiverged
            },
            None => Verdict::Pass,
        }
    } else {
        match out_hard {
            Some(h) => if h != soft {
                return Verdict::HardDiverged;
            },
            None => (),
        }
        match out_cxx {
            Some(c) => if c != soft {
                Verdict::CxxDiverged
            } else {
                Verdict::Pass
            },
            None => Verdict::Pass,
        }
    }
}

/// As `verdict32`, at 64-bit precision.
pub fn verdict64(cfg: &Config, req: FuzzReq<u64>, out_hard: Option<u64>, out_cxx: Option<u64>) -> (v:
    Verdict)
    ensures
        v == spec_verdict64(cfg.erase_hard_nans, req, out_hard, out_cxx),
{
    let soft = req.eval_rs_apf();
    let erased = match out_hard {
        Some(h) => cfg.erase_hard_nans && crate::bits::is_nan64(h),
        None => false,
    };
    if erased {
        if !crate::bits::is_nan64(soft) {
            return Verdict::HardDiverged;
        }
        match out_cxx {
            Some(c) => if crate::bits::is_nan64(c) {
                Verdict::Pass
            } else {
                Verdict::CxxDiverged
            },
            None => Verdict::Pass,
        }
    } else {
        match out_hard {
            Some(h) => if h != soft {
                return Verdict::HardDiverged;
            },
            None => (),
        }
        match out_cxx {
            Some(c) => if c != soft {
                Verdict::CxxDiverged
            } else {
                Verdict::Pass
            },
            None => Verdict::Pass,
        }
    }
}

/// Pivot consistency at 32-bit precision: whenever NaN erasure does not
/// apply (it is off, the hardware backend was skipped, or its result is not
/// a NaN pattern), the oracle passes exactly when every backend that ran
/// returned bit-for-bit the software pivot's result.
pub proof fn lemma_pivot_consistency32(
    erase_hard_nans: bool,
    req: FuzzReq<u32>,
    out_hard: Option<u32>,
    out_cxx: Option<u32>,
)
    requires
        !(erase_hard_nans && (out_hard matches Some(h) && spec_is_nan32(h))),
    ensures
        spec_verdict32(erase_hard_nans, req, out_hard, out_cxx) == Verdict::Pass <==> ((
        out_hard matches Some(h) ==> h == spec_eval_rs_apf32(req)) && (out_cxx matches Some(c)
            ==> c == spec_eval_rs_apf32(req))),
{
}

/// Pivot consistency at 64-bit precision; as `lemma_pivot_consistency32`.
pub proof fn lemma_pivot_consistency64(
    erase_hard_nans: bool,
    req: FuzzReq<u64>,
    out_hard: Option<u64>,
    out_cxx: Option<u64>,
)
    requires
        !(erase_hard_nans && (out_hard matches Some(h) && spec_is_nan64(h))),
    ensures
        spec_verdict64(erase_hard_nans, req, out_hard, out_cxx) == Verdict::Pass <==> ((
        out_hard matches Some(h) ==> h == spec_eval_rs_apf64(req)) && (out_cxx matches Some(c)
            ==> c == spec_eval_rs_apf64(req))),
{
}

/// NaN-erasure narrowing at 32-bit precision: with erasure on and a NaN
/// hardware result, the oracle passes exactly when the software pivot's
/// result is also a NaN pattern, and the native reference's (if it ran) is
/// too; payload equality is not required.
pub proof fn lemma_nan_erasure_narrowing32(
    req: FuzzReq<u32>,
    hard_bits: u32,
    out_cxx: Option<u32>,
)
    requires
        spec_is_nan32(hard_bits),
    ensures
        spec_verdict32(true, req, Some(hard_bits), out_cxx) == Verdict::Pass <==> (spec_is_nan32(
            spec_eval_rs_apf32(req),
        ) && (out_cxx matches Some(c) ==> spec_is_nan32(c))),
{
}

/// NaN-erasure narrowing at 64-bit precision; as
/// `lemma_nan_erasure_narrowing32`.
pub proof fn lemma_nan_erasure_narrowing64(
    req: FuzzReq<u64>,
    hard_bits: u64,
    out_cxx: Option<u64>,
)
    requires
        spec_is_nan64(hard_bits),
    ensures
        spec_verdict64(true, req, Some(hard_bits), out_cxx) == Verdict::Pass <==> (spec_is_nan64(
            spec_eval_rs_apf64(req),
        ) && (out_cxx matches Some(c) ==> spec_is_nan64(c))),
{
}

} // verus!
