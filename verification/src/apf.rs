use vstd::prelude::*;

use crate::req::FuzzReq;
use rustc_apfloat::ieee::{Double, Single};
use rustc_apfloat::Float;

verus! {

// The arbitrary-precision software backend evaluates IEEE-754 arithmetic on
// raw bit patterns. Each operation below is a pure function of its operand
// bits alone (round to nearest even, deterministic NaN handling), but its
// value takes the whole IEEE-754 standard to state, so each result gets a
// name, and every contract downstream speaks of these names exactly.
pub uninterp spec fn apf_neg32(x: u32) -> u32;

pub uninterp spec fn apf_add32(a: u32, b: u32) -> u32;

pub uninterp spec fn apf_sub32(a: u32, b: u32) -> u32;

pub uninterp spec fn apf_mul32(a: u32, b: u32) -> u32;

pub uninterp spec fn apf_div32(a: u32, b: u32) -> u32;

pub uninterp spec fn apf_rem32(a: u32, b: u32) -> u32;

pub uninterp spec fn apf_mul_add32(a: u32, b: u32, c: u32) -> u32;

pub uninterp spec fn apf_neg64(x: u64) -> u64;

pub uninterp spec fn apf_add64(a: u64, b: u64) -> u64;

pub uninterp spec fn apf_sub64(a: u64, b: u64) -> u64;

pub uninterp spec fn apf_mul64(a: u64, b: u64) -> u64;

pub uninterp spec fn apf_div64(a: u64, b: u64) -> u64;

pub uninterp spec fn apf_rem64(a: u64, b: u64) -> u64;

pub uninterp spec fn apf_mul_add64(a: u64, b: u64, c: u64) -> u64;

/// Relies on rustc_apfloat's `IeeeFloat` negation: the result bits depend
/// on the operand bits alone.
#[verifier::external_body]
fn exec_neg32(x: u32) -> (r: u32)
    ensures
        r == apf_neg32(x),
{
    (-Single::from_bits(x as u128)).to_bits() as u32
}

/// Relies on rustc_apfloat's `Add` (round to nearest even): the result bits
/// depend on the operand bits alone.
#[verifier::external_body]
fn exec_add32(a: u32, b: u32) -> (r: u32)
    ensures
        r == apf_add32(a, b),
{
    (Single::from_bits(a as u128) + Single::from_bits(b as u128)).value.to_bits() as u32
}

/// Relies on rustc_apfloat's `Sub` (round to nearest even): the result bits
/// depend on the operand bits alone.
#[verifier::external_body]
fn exec_sub32(a: u32, b: u32) -> (r: u32)
    ensures
        r == apf_sub32(a, b),
{
    (Single::from_bits(a as u128) - Single::from_bits(b as u128)).value.to_bits() as u32
}

/// Relies on rustc_apfloat's `Mul` (round to nearest even): the result bits
/// depend on the operand bits alone.
#[verifier::external_body]
fn exec_mul32(a: u32, b: u32) -> (r: u32)
    ensures
        r == apf_mul32(a, b),
{
    (Single::from_bits(a as u128) * Single::from_bits(b as u128)).value.to_bits() as u32
}

/// Relies on rustc_apfloat's `Div` (round to nearest even): the result bits
/// depend on the operand bits alone.
#[verifier::external_body]
fn exec_div32(a: u32, b: u32) -> (r: u32)
    ensures
        r == apf_div32(a, b),
{
    (Single::from_bits(a as u128) / Single::from_bits(b as u128)).value.to_bits() as u32
}

/// Relies on rustc_apfloat's `Rem` (`c_fmod`): the result bits depend on
/// the operand bits alone.
#[verifier::external_body]
fn exec_rem32(a: u32, b: u32) -> (r: u32)
    ensures
        r == apf_rem32(a, b),
{
    (Single::from_bits(a as u128) % Single::from_bits(b as u128)).value.to_bits() as u32
}

/// Relies on rustc_apfloat's `mul_add` (fused, one rounding step): the
/// result bits depend on the operand bits alone.
#[verifier::external_body]
fn exec_mul_add32(a: u32, b: u32, c: u32) -> (r: u32)
    ensures
        r == apf_mul_add32(a, b, c),
{
    Single::from_bits(a as u128).mul_add(
        Single::from_bits(b as u128),
        Single::from_bits(c as u128),
    ).value.to_bits() as u32
}

/// Relies on rustc_apfloat's `IeeeFloat` negation: the result bits depend
/// on the operand bits alone.
#[verifier::external_body]
fn exec_neg64(x: u64) -> (r: u64)
    ensures
        r == apf_neg64(x),
{
    (-Double::from_bits(x as u128)).to_bits() as u64
}

/// Relies on rustc_apfloat's `Add` (round to nearest even): the result bits
/// depend on the operand bits alone.
#[verifier::external_body]
fn exec_add64(a: u64, b: u64) -> (r: u64)
    ensures
        r == apf_add64(a, b),
{
    (Double::from_bits(a as u128) + Double::from_bits(b as u128)).value.to_bits() as u64
}

/// Relies on rustc_apfloat's `Sub` (round to nearest even): the result bits
/// depend on the operand bits alone.
#[verifier::external_body]
fn exec_sub64(a: u64, b: u64) -> (r: u64)
    ensures
        r == apf_sub64(a, b),
{
    (Double::from_bits(a as u128) - Double::from_bits(b as u128)).value.to_bits() as u64
}

/// Relies on rustc_apfloat's `Mul` (round to nearest even): the result bits
/// depend on the operand bits alone.
#[verifier::external_body]
fn exec_mul64(a: u64, b: u64) -> (r: u64)
    ensures
        r == apf_mul64(a, b),
{
    (Double::from_bits(a as u128) * Double::from_bits(b as u128)).value.to_bits() as u64
}

/// Relies on rustc_apfloat's `Div` (round to nearest even): the result bits
/// depend on the operand bits alone.
#[verifier::external_body]
fn exec_div64(a: u64, b: u64) -> (r: u64)
    ensures
        r == apf_div64(a, b),
{
    (Double::from_bits(a as u128) / Double::from_bits(b as u128)).value.to_bits() as u64
}

/// Relies on rustc_apfloat's `Rem` (`c_fmod`): the result bits depend on
/// the operand bits alone.
#[verifier::external_body]
fn exec_rem64(a: u64, b: u64) -> (r: u64)
    ensures
        r == apf_rem64(a, b),
{
    (Double::from_bits(a as u128) % Double::from_bits(b as u128)).value.to_bits() as u64
}

/// Relies on rustc_apfloat's `mul_add` (fused, one rounding step): the
/// result bits depend on the operand bits alone.
#[verifier::external_body]
fn exec_mul_add64(a: u64, b: u64, c: u64) -> (r: u64)
    ensures
        r == apf_mul_add64(a, b, c),
{
    Double::from_bits(a as u128).mul_add(
        Double::from_bits(b as u128),
        Double::from_bits(c as u128),
    ).value.to_bits() as u64
}

/// The software backend's result bits for a 32-bit-precision request.
pub open spec fn spec_eval_rs_apf32(req: FuzzReq<u32>) -> u32 {
    match req {
        FuzzReq::Neg(x) => apf_neg32(x),
        FuzzReq::Add(a, b) => apf_add32(a, b),
        FuzzReq::Sub(a, b) => apf_sub32(a, b),
        FuzzReq::Mul(a, b) => apf_mul32(a, b),
        FuzzReq::Div(a, b) => apf_div32(a, b),
        FuzzReq::Rem(a, b) => apf_rem32(a, b),
        FuzzReq::MulAdd(a, b, c) => apf_mul_add32(a, b, c),
    }
}

/// The software backend's result bits for a 64-bit-precision request.
pub open spec fn spec_eval_rs_apf64(req: FuzzReq<u64>) -> u64 {
    match req {
        FuzzReq::Neg(x) => apf_neg64(x),
        FuzzReq::Add(a, b) => apf_add64(a, b),
        FuzzReq::Sub(a, b) => apf_sub64(a, b),
        FuzzReq::Mul(a, b) => apf_mul64(a, b),
        FuzzReq::Div(a, b) => apf_div64(a, b),
        FuzzReq::Rem(a, b) => apf_rem64(a, b),
        FuzzReq::MulAdd(a, b, c) => apf_mul_add64(a, b, c),
    }
}

impl FuzzReq<u32> {
    /// Evaluates this request on the software arbitrary-precision float
    /// backend, reinterpreting each operand's bits as a single-precision
    /// value and returning the result's bits.
    pub fn eval_rs_apf(self) -> (r: u32)
        ensures
            r == spec_eval_rs_apf32(self),
    {
        match self {
            FuzzReq::Neg(x) => exec_neg32(x),
            FuzzReq::Add(a, b) => exec_add32(a, b),
            FuzzReq::Sub(a, b) => exec_sub32(a, b),
            FuzzReq::Mul(a, b) => exec_mul32(a, b),
            FuzzReq::Div(a, b) => exec_div32(a, b),
            FuzzReq::Rem(a, b) => exec_rem32(a, b),
            FuzzReq::MulAdd(a, b, c) => exec_mul_add32(a, b, c),
        }
    }
}

impl FuzzReq<u64> {
    /// Evaluates this request on the software arbitrary-precision float
    /// backend, reinterpreting each operand's bits as a double-precision
    /// value and returning the result's bits.
    pub fn eval_rs_apf(self) -> (r: u64)
        ensures
            r == spec_eval_rs_apf64(self),
    {
        match self {
            FuzzReq::Neg(x) => exec_neg64(x),
            FuzzReq::Add(a, b) => exec_add64(a, b),
            FuzzReq::Sub(a, b) => exec_sub64(a, b),
            FuzzReq::Mul(a, b) => exec_mul64(a, b),
            FuzzReq::Div(a, b) => exec_div64(a, b),
            FuzzReq::Rem(a, b) => exec_rem64(a, b),
            FuzzReq::MulAdd(a, b, c) => exec_mul_add64(a, b, c),
        }
    }
}

/// Determinism of the software backend at 32-bit precision: any two
/// evaluations of one request yield identical result bits, since each
/// result is a function of the request alone.
pub proof fn lemma_eval_deterministic32(req: FuzzReq<u32>, r1: u32, r2: u32)
    requires
        r1 == spec_eval_rs_apf32(req),
        r2 == spec_eval_rs_apf32(req),
    ensures
        r1 == r2,
{
}

/// Determinism of the software backend at 64-bit precision: any two
/// evaluations of one request yield identical result bits.
pub proof fn lemma_eval_deterministic64(req: FuzzReq<u64>, r1: u64, r2: u64)
    requires
        r1 == spec_eval_rs_apf64(req),
        r2 == spec_eval_rs_apf64(req),
    ensures
        r1 == r2,
{
}

} // verus!
