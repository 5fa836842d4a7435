//! The tagged number and the rules by which tags pass through arithmetic.
use vstd::prelude::*;

verus! {

/// A number that was entered, a number that was computed, or no number.
///
/// The payload of `In` and `Out` is the binary64 encoding of the value.  Two
/// numbers are equal when tag and encoding are equal.
#[derive(Copy, Clone, Debug, PartialEq, Eq, Structural)]
pub enum Num {
    /// A value that the user entered.
    In(u64),
    /// A value that a computation produced.
    Out(u64),
    /// No value: a valid state, not an error.
    Absent,
}

impl Num {
    /// The payload, if there is one.
    pub open spec fn payload(self) -> Option<u64> {
        match self {
            Num::In(v) => Some(v),
            Num::Out(v) => Some(v),
            Num::Absent => None,
        }
    }

    /// The number with the tag of `self` and the payload `v`; absent stays
    /// absent.
    pub open spec fn with_payload(self, v: u64) -> Num {
        match self {
            Num::In(_) => Num::In(v),
            Num::Out(_) => Num::Out(v),
            Num::Absent => Num::Absent,
        }
    }

    /// Whether the two numbers are of one kind: both entered, both computed
    /// or both absent.
    pub open spec fn same_kind(self, other: Num) -> bool {
        &&& self is In <==> other is In
        &&& self is Out <==> other is Out
        &&& self is Absent <==> other is Absent
    }

    /// `out` is what a one-place operation `op` makes of `self`: absent if
    /// `self` is absent, else a result of `op` on the payload under the tag
    /// of `self`.
    pub open spec fn mapped<F: Fn(u64) -> u64>(self, op: F, out: Num) -> bool {
        match self.payload() {
            Some(v) => out.payload() matches Some(r) && call_ensures(op, (v,), r) && out
                == self.with_payload(r),
            None => out is Absent,
        }
    }

    /// `out` is what a two-place operation `op` makes of `self` and the bare
    /// value `rhs`: absent if `self` is absent, else a result of `op` on the
    /// payload and `rhs`, in this order, under the tag of `self`.
    pub open spec fn applied<F: Fn(u64, u64) -> u64>(self, rhs: u64, op: F, out: Num) -> bool {
        match self.payload() {
            Some(v) => out.payload() matches Some(r) && call_ensures(op, (v, rhs), r) && out
                == self.with_payload(r),
            None => out is Absent,
        }
    }

    /// `out` is what a two-place operation `op` makes of `self` and `rhs`:
    /// absent if either is absent, else a result of `op` on the two payloads,
    /// left then right, under the tag of the left operand.
    pub open spec fn combined<F: Fn(u64, u64) -> u64>(self, rhs: Num, op: F, out: Num) -> bool {
        match rhs.payload() {
            Some(b) => self.applied(b, op, out),
            None => out is Absent,
        }
    }

    /// Whether the number was entered.
    #[verifier::allow_in_spec]
    pub fn is_input(&self) -> bool
        returns
            *self is In,
    {
        matches!(self, Num::In(_))
    }

    /// Whether the number was computed.
    #[verifier::allow_in_spec]
    pub fn is_output(&self) -> bool
        returns
            *self is Out,
    {
        matches!(self, Num::Out(_))
    }

    /// Whether there is no number.
    #[verifier::allow_in_spec]
    pub fn is_none(&self) -> bool
        returns
            *self is Absent,
    {
        matches!(self, Num::Absent)
    }

    /// Whether there is a number, entered or computed.
    #[verifier::allow_in_spec]
    pub fn is_num(&self) -> bool
        returns
            *self is In || *self is Out,
    {
        !matches!(self, Num::Absent)
    }

    /// The payload, or nothing for an absent number.
    #[verifier::allow_in_spec]
    pub fn as_option(&self) -> Option<u64>
        returns
            self.payload(),
    {
        match self {
            Num::In(v) => Some(*v),
            Num::Out(v) => Some(*v),
            Num::Absent => None,
        }
    }

    /// The payload of a number that is there.  Callers test `is_num` first:
    /// an absent number has no payload to give.
    pub fn num(&self) -> (r: u64)
        requires
            self.is_num(),
        ensures
            self.payload() == Some(r),
    {
        match self {
            Num::In(v) => *v,
            Num::Out(v) => *v,
            Num::Absent => 0,
        }
    }

    /// The square root: `root` computes it on the encoding, and the tag is
    /// kept.  An absent number stays absent and `root` is not called.  The
    /// payload is handed to `root` as it is, whatever its sign.
    pub fn sqrt<F: Fn(u64) -> u64>(&self, root: F) -> (r: Num)
        requires
            self.payload() matches Some(v) ==> call_requires(root, (v,)),
        ensures
            self.mapped(root, r),
    {
        match *self {
            Num::In(v) => Num::In(root(v)),
            Num::Out(v) => Num::Out(root(v)),
            Num::Absent => Num::Absent,
        }
    }

    /// A number and a bare value under an operator (sum, difference, product
    /// or quotient): `op` computes it on the encodings, the number's payload
    /// on the left, and the tag is kept.  An absent number stays absent.
    /// Nothing is tested beforehand: a quotient by zero is whatever `op`
    /// returns for it.
    pub fn apply<F: Fn(u64, u64) -> u64>(self, rhs: u64, op: F) -> (r: Num)
        requires
            self.payload() matches Some(v) ==> call_requires(op, (v, rhs)),
        ensures
            self.applied(rhs, op, r),
    {
        match self {
            Num::In(v) => Num::In(op(v, rhs)),
            Num::Out(v) => Num::Out(op(v, rhs)),
            Num::Absent => Num::Absent,
        }
    }

    /// Two numbers under an operator: absent if the right one is absent,
    /// whatever the left one is; else as `apply` with the right payload, so
    /// that the left operand's tag is kept and an absent left operand stays
    /// absent.
    pub fn combine<F: Fn(u64, u64) -> u64>(self, rhs: Num, op: F) -> (r: Num)
        requires
            self.payload() matches Some(a) ==> (rhs.payload() matches Some(b) ==> call_requires(
                op,
                (a, b),
            )),
        ensures
            self.combined(rhs, op, r),
    {
        match rhs {
            Num::Absent => Num::Absent,
            Num::In(b) => self.apply(b, op),
            Num::Out(b) => self.apply(b, op),
        }
    }
}

} // verus!
