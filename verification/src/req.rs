use vstd::prelude::*;

verus! {

/// One arithmetic request: an operator together with its operands.
///
/// The operand type is generic so that one shape serves every stage of the
/// pipeline: unit placeholders while decoding, raw bit patterns afterwards,
/// and a backend's native value type at evaluation time.
#[derive(Copy, Clone, Debug, PartialEq, Eq, Structural)]
pub enum FuzzReq<T> {
    Neg(T),
    Add(T, T),
    Sub(T, T),
    Mul(T, T),
    Div(T, T),
    Rem(T, T),
    MulAdd(T, T, T),
}

/// The operator tag of each request variant; decoding reads this tag from
/// the first payload byte.
pub open spec fn spec_tag<T>(req: FuzzReq<T>) -> u8 {
    match req {
        FuzzReq::Neg(_) => 0,
        FuzzReq::Add(_, _) => 1,
        FuzzReq::Sub(_, _) => 2,
        FuzzReq::Mul(_, _) => 3,
        FuzzReq::Div(_, _) => 4,
        FuzzReq::Rem(_, _) => 5,
        FuzzReq::MulAdd(_, _, _) => 6,
    }
}

/// How many operands each request variant carries.
pub open spec fn spec_arity<T>(req: FuzzReq<T>) -> int {
    match req {
        FuzzReq::Neg(_) => 1,
        FuzzReq::Add(_, _) => 2,
        FuzzReq::Sub(_, _) => 2,
        FuzzReq::Mul(_, _) => 2,
        FuzzReq::Div(_, _) => 2,
        FuzzReq::Rem(_, _) => 2,
        FuzzReq::MulAdd(_, _, _) => 3,
    }
}

/// The operand-less request shape selected by an operator tag, or `None`
/// when the tag lies outside the fixed operator set.
pub open spec fn spec_from_op(op: u8) -> Option<FuzzReq<()>> {
    if op == 0 {
        Some(FuzzReq::Neg(()))
    } else if op == 1 {
        Some(FuzzReq::Add((), ()))
    } else if op == 2 {
        Some(FuzzReq::Sub((), ()))
    } else if op == 3 {
        Some(FuzzReq::Mul((), ()))
    } else if op == 4 {
        Some(FuzzReq::Div((), ()))
    } else if op == 5 {
        Some(FuzzReq::Rem((), ()))
    } else if op == 6 {
        Some(FuzzReq::MulAdd((), (), ()))
    } else {
        None
    }
}

impl FuzzReq<()> {
    /// Selects the request shape for an operator tag; tags outside the
    /// fixed range 0..=6 are rejected, never reinterpreted.
    pub fn from_op(op: u8) -> (r: Option<Self>)
        ensures
            r == spec_from_op(op),
            r is Some <==> op <= 6,
            r matches Some(shape) ==> spec_tag(shape) == op,
    {
        match op {
            0 => Some(FuzzReq::Neg(())),
            1 => Some(FuzzReq::Add((), ())),
            2 => Some(FuzzReq::Sub((), ())),
            3 => Some(FuzzReq::Mul((), ())),
            4 => Some(FuzzReq::Div((), ())),
            5 => Some(FuzzReq::Rem((), ())),
            6 => Some(FuzzReq::MulAdd((), (), ())),
            _ => None,
        }
    }
}

impl<T> FuzzReq<T> {
    /// The number of operands this request carries.
    pub fn arity(&self) -> (n: usize)
        ensures
            n == spec_arity(*self),
    {
        match self {
            FuzzReq::Neg(_) => 1,
            FuzzReq::Add(_, _) => 2,
            FuzzReq::Sub(_, _) => 2,
            FuzzReq::Mul(_, _) => 2,
            FuzzReq::Div(_, _) => 2,
            FuzzReq::Rem(_, _) => 2,
            FuzzReq::MulAdd(_, _, _) => 3,
        }
    }

    /// Applies `f` to every operand, keeping the operator: this is how a
    /// request moves from one operand representation to the next without
    /// duplicating a match per backend.
    pub fn map<U, F: Fn(T) -> U>(self, f: F) -> (r: FuzzReq<U>)
        requires
            self matches FuzzReq::Neg(x) ==> call_requires(f, (x,)),
            self matches FuzzReq::Add(a, b) ==> call_requires(f, (a,)) && call_requires(f, (b,)),
            self matches FuzzReq::Sub(a, b) ==> call_requires(f, (a,)) && call_requires(f, (b,)),
            self matches FuzzReq::Mul(a, b) ==> call_requires(f, (a,)) && call_requires(f, (b,)),
            self matches FuzzReq::Div(a, b) ==> call_requires(f, (a,)) && call_requires(f, (b,)),
            self matches FuzzReq::Rem(a, b) ==> call_requires(f, (a,)) && call_requires(f, (b,)),
            self matches FuzzReq::MulAdd(a, b, c) ==> call_requires(f, (a,)) && call_requires(
                f,
                (b,),
            ) && call_requires(f, (c,)),
        ensures
            spec_tag(r) == spec_tag(self),
            self matches FuzzReq::Neg(x) ==> (r matches FuzzReq::Neg(y) && call_ensures(
                f,
                (x,),
                y,
            )),
            self matches FuzzReq::Add(a, b) ==> (r matches FuzzReq::Add(ra, rb) && call_ensures(
                f,
                (a,),
                ra,
            ) && call_ensures(f, (b,), rb)),
            self matches FuzzReq::Sub(a, b) ==> (r matches FuzzReq::Sub(ra, rb) && call_ensures(
                f,
                (a,),
                ra,
            ) && call_ensures(f, (b,), rb)),
            self matches FuzzReq::Mul(a, b) ==> (r matches FuzzReq::Mul(ra, rb) && call_ensures(
                f,
                (a,),
                ra,
            ) && call_ensures(f, (b,), rb)),
            self matches FuzzReq::Div(a, b) ==> (r matches FuzzReq::Div(ra, rb) && call_ensures(
                f,
                (a,),
                ra,
            ) && call_ensures(f, (b,), rb)),
            self matches FuzzReq::Rem(a, b) ==> (r matches FuzzReq::Rem(ra, rb) && call_ensures(
                f,
                (a,),
                ra,
            ) && call_ensures(f, (b,), rb)),
            self matches FuzzReq::MulAdd(a, b, c) ==> (r matches FuzzReq::MulAdd(ra, rb, rc)
                && call_ensures(f, (a,), ra) && call_ensures(f, (b,), rb) && call_ensures(
                f,
                (c,),
                rc,
            )),
    {
        match self {
            FuzzReq::Neg(x) => FuzzReq::Neg(f(x)),
            FuzzReq::Add(a, b) => FuzzReq::Add(f(a), f(b)),
            FuzzReq::Sub(a, b) => FuzzReq::Sub(f(a), f(b)),
            FuzzReq::Mul(a, b) => FuzzReq::Mul(f(a), f(b)),
            FuzzReq::Div(a, b) => FuzzReq::Div(f(a), f(b)),
            FuzzReq::Rem(a, b) => FuzzReq::Rem(f(a), f(b)),
            FuzzReq::MulAdd(a, b, c) => FuzzReq::MulAdd(f(a), f(b), f(c)),
        }
    }
}

} // verus!
