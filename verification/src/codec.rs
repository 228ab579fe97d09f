use vstd::prelude::*;

use crate::bits::{bits32_from_le_bytes, bits64_from_le_bytes, spec_le32, spec_le64};
use crate::req::{spec_arity, spec_from_op, FuzzReq};

verus! {

/// The request denoted by `s` at 32-bit precision, or `None` when `s` is
/// not a well-formed encoding: the first byte is the operator tag, and the
/// rest must split into exactly `arity(tag)` four-byte little-endian
/// operands, with no trailing bytes.
pub open spec fn spec_decode32(s: Seq<u8>) -> Option<FuzzReq<u32>> {
    if s.len() < 1 {
        None
    } else {
        let rest = (s.len() - 1) as int;
        if rest % 4 != 0 {
            None
        } else {
            match spec_from_op(s[0]) {
                None => None,
                Some(shape) => {
                    if rest / 4 != spec_arity(shape) {
                        None
                    } else {
                        Some(
                            match shape {
                                FuzzReq::Neg(_) => FuzzReq::Neg(spec_le32(s.subrange(1, 5)) as u32),
                                FuzzReq::Add(_, _) => FuzzReq::Add(
                                    spec_le32(s.subrange(1, 5)) as u32,
                                    spec_le32(s.subrange(5, 9)) as u32,
                                ),
                                FuzzReq::Sub(_, _) => FuzzReq::Sub(
                                    spec_le32(s.subrange(1, 5)) as u32,
                                    spec_le32(s.subrange(5, 9)) as u32,
                                ),
                                FuzzReq::Mul(_, _) => FuzzReq::Mul(
                                    spec_le32(s.subrange(1, 5)) as u32,
                                    spec_le32(s.subrange(5, 9)) as u32,
                                ),
                                FuzzReq::Div(_, _) => FuzzReq::Div(
                                    spec_le32(s.subrange(1, 5)) as u32,
                                    spec_le32(s.subrange(5, 9)) as u32,
                                ),
                                FuzzReq::Rem(_, _) => FuzzReq::Rem(
                                    spec_le32(s.subrange(1, 5)) as u32,
                                    spec_le32(s.subrange(5, 9)) as u32,
                                ),
                                FuzzReq::MulAdd(_, _, _) => FuzzReq::MulAdd(
                                    spec_le32(s.subrange(1, 5)) as u32,
                                    spec_le32(s.subrange(5, 9)) as u32,
                                    spec_le32(s.subrange(9, 13)) as u32,
                                ),
                            },
                        )
                    }
                },
            }
        }
    }
}

/// The request denoted by `s` at 64-bit precision; as `spec_decode32`, with
/// eight-byte operands.
pub open spec fn spec_decode64(s: Seq<u8>) -> Option<FuzzReq<u64>> {
    if s.len() < 1 {
        None
    } else {
        let rest = (s.len() - 1) as int;
        if rest % 8 != 0 {
            None
        } else {
            match spec_from_op(s[0]) {
                None => None,
                Some(shape) => {
                    if rest / 8 != spec_arity(shape) {
                        None
                    } else {
                        Some(
                            match shape {
                                FuzzReq::Neg(_) => FuzzReq::Neg(spec_le64(s.subrange(1, 9)) as u64),
                                FuzzReq::Add(_, _) => FuzzReq::Add(
                                    spec_le64(s.subrange(1, 9)) as u64,
                                    spec_le64(s.subrange(9, 17)) as u64,
                                ),
                                FuzzReq::Sub(_, _) => FuzzReq::Sub(
                                    spec_le64(s.subrange(1, 9)) as u64,
                                    spec_le64(s.subrange(9, 17)) as u64,
                                ),
                                FuzzReq::Mul(_, _) => FuzzReq::Mul(
                                    spec_le64(s.subrange(1, 9)) as u64,
                                    spec_le64(s.subrange(9, 17)) as u64,
                                ),
                                FuzzReq::Div(_, _) => FuzzReq::Div(
                                    spec_le64(s.subrange(1, 9)) as u64,
                                    spec_le64(s.subrange(9, 17)) as u64,
                                ),
                                FuzzReq::Rem(_, _) => FuzzReq::Rem(
                                    spec_le64(s.subrange(1, 9)) as u64,
                                    spec_le64(s.subrange(9, 17)) as u64,
                                ),
                                FuzzReq::MulAdd(_, _, _) => FuzzReq::MulAdd(
                                    spec_le64(s.subrange(1, 9)) as u64,
                                    spec_le64(s.subrange(9, 17)) as u64,
                                    spec_le64(s.subrange(17, 25)) as u64,
                                ),
                            },
                        )
                    }
                },
            }
        }
    }
}

/// Decodes one byte buffer into a 32-bit-precision request, or rejects it.
///
/// Rejection covers exactly: an empty buffer, an operator tag above 6, a
/// payload that is not a whole number of four-byte operands, and a payload
/// with fewer or more operands than the operator's arity.
pub fn decode32(data: &[u8]) -> (r: Option<FuzzReq<u32>>)
    ensures
        r == spec_decode32(data@),
{
    if data.len() == 0 {
        return None;
    }
    let op = data[0];
    let rest = data.len() - 1;
    if rest % 4 != 0 {
        return None;
    }
    let nchunks = rest / 4;
    let shape = match FuzzReq::from_op(op) {
        None => return None,
        Some(shape) => shape,
    };
    if nchunks != shape.arity() {
        return None;
    }
    Some(
        match shape {
            FuzzReq::Neg(_) => FuzzReq::Neg(bits32_from_le_bytes(data, 1)),
            FuzzReq::Add(_, _) => FuzzReq::Add(
                bits32_from_le_bytes(data, 1),
                bits32_from_le_bytes(data, 5),
            ),
            FuzzReq::Sub(_, _) => FuzzReq::Sub(
                bits32_from_le_bytes(data, 1),
                bits32_from_le_bytes(data, 5),
            ),
            FuzzReq::Mul(_, _) => FuzzReq::Mul(
                bits32_from_le_bytes(data, 1),
                bits32_from_le_bytes(data, 5),
            ),
            FuzzReq::Div(_, _) => FuzzReq::Div(
                bits32_from_le_bytes(data, 1),
                bits32_from_le_bytes(data, 5),
            ),
            FuzzReq::Rem(_, _) => FuzzReq::Rem(
                bits32_from_le_bytes(data, 1),
                bits32_from_le_bytes(data, 5),
            ),
            FuzzReq::MulAdd(_, _, _) => FuzzReq::MulAdd(
                bits32_from_le_bytes(data, 1),
                bits32_from_le_bytes(data, 5),
                bits32_from_le_bytes(data, 9),
            ),
        },
    )
}

/// Decodes one byte buffer into a 64-bit-precision request, or rejects it;
/// as `decode32`, with eight-byte operands.
pub fn decode64(data: &[u8]) -> (r: Option<FuzzReq<u64>>)
    ensures
        r == spec_decode64(data@),
{
    if data.len() == 0 {
        return None;
    }
    let op = data[0];
    let rest = data.len() - 1;
    if rest % 8 != 0 {
        return None;
    }
    let nchunks = rest / 8;
    let shape = match FuzzReq::from_op(op) {
        None => return None,
        Some(shape) => shape,
    };
    if nchunks != shape.arity() {
        return None;
    }
    Some(
        match shape {
            FuzzReq::Neg(_) => FuzzReq::Neg(bits64_from_le_bytes(data, 1)),
            FuzzReq::Add(_, _) => FuzzReq::Add(
                bits64_from_le_bytes(data, 1),
                bits64_from_le_bytes(data, 9),
            ),
            FuzzReq::Sub(_, _) => FuzzReq::Sub(
                bits64_from_le_bytes(data, 1),
                bits64_from_le_bytes(data, 9),
            ),
            FuzzReq::Mul(_, _) => FuzzReq::Mul(
                bits64_from_le_bytes(data, 1),
                bits64_from_le_bytes(data, 9),
            ),
            FuzzReq::Div(_, _) => FuzzReq::Div(
                bits64_from_le_bytes(data, 1),
                bits64_from_le_bytes(data, 9),
            ),
            FuzzReq::Rem(_, _) => FuzzReq::Rem(
                bits64_from_le_bytes(data, 1),
                bits64_from_le_bytes(data, 9),
            ),
            FuzzReq::MulAdd(_, _, _) => FuzzReq::MulAdd(
                bits64_from_le_bytes(data, 1),
                bits64_from_le_bytes(data, 9),
                bits64_from_le_bytes(data, 17),
            ),
        },
    )
}

/// A decoded request together with the precision its first input byte
/// selected.
#[derive(Copy, Clone, Debug, PartialEq, Eq, Structural)]
pub enum DecodedReq {
    Req32(FuzzReq<u32>),
    Req64(FuzzReq<u64>),
}

/// The request denoted by one whole fuzzer input: byte 0 selects the
/// precision (32 or 64; anything else rejects the input), and the rest is
/// decoded at that precision.
pub open spec fn spec_decode_input(s: Seq<u8>) -> Option<DecodedReq> {
    if s.len() < 1 {
        None
    } else if s[0] == 32 {
        match spec_decode32(s.subrange(1, s.len() as int)) {
            Some(req) => Some(DecodedReq::Req32(req)),
            None => None,
        }
    } else if s[0] == 64 {
        match spec_decode64(s.subrange(1, s.len() as int)) {
            Some(req) => Some(DecodedReq::Req64(req)),
            None => None,
        }
    } else {
        None
    }
}

/// Splits the precision selector off one fuzzer input and decodes the rest
/// at the selected precision.
pub fn decode_input(data: &[u8]) -> (r: Option<DecodedReq>)
    ensures
        r == spec_decode_input(data@),
{
    if data.len() == 0 {
        return None;
    }
    let rest = &data[1..data.len()];
    if data[0] == 32 {
        match decode32(rest) {
            Some(req) => Some(DecodedReq::Req32(req)),
            None => None,
        }
    } else if data[0] == 64 {
        match decode64(rest) {
            Some(req) => Some(DecodedReq::Req64(req)),
            None => None,
        }
    } else {
        None
    }
}

/// The arity of an operator tag, for stating when a buffer decodes.
pub open spec fn spec_arity_of(op: u8) -> int {
    match spec_from_op(op) {
        Some(shape) => spec_arity(shape),
        None => 0,
    }
}

/// Codec exactness at 32-bit precision: a buffer decodes if and only if it
/// is non-empty, its first byte is a valid operator tag, and its payload is
/// a whole number of four-byte operands numbering exactly the tag's arity.
pub proof fn lemma_codec_exactness32(s: Seq<u8>)
    ensures
        spec_decode32(s) is Some <==> (s.len() >= 1 && s[0] <= 6 && (s.len() - 1) % 4 == 0 && (
        s.len() - 1) / 4 == spec_arity_of(s[0])),
{
}

/// Codec exactness at 64-bit precision: as `lemma_codec_exactness32`, with
/// eight-byte operands.
pub proof fn lemma_codec_exactness64(s: Seq<u8>)
    ensures
        spec_decode64(s) is Some <==> (s.len() >= 1 && s[0] <= 6 && (s.len() - 1) % 8 == 0 && (
        s.len() - 1) / 8 == spec_arity_of(s[0])),
{
}

} // verus!
