use vstd::prelude::*;

verus! {

/// One access to a 32-bit memory-mapped register `R`.
#[derive(Debug, PartialEq, Eq)]
pub enum RegOp<R> {
    /// Store this value.
    Write(R, u32),
    /// Load the register, set the bits of this mask, store the result.
    SetBits(R, u32),
    /// Load the register, clear the bits of this mask, store the result.
    ClearBits(R, u32),
}

/// The register an access stores to.
pub open spec fn op_target<R>(op: RegOp<R>) -> R {
    match op {
        RegOp::Write(r, _) => r,
        RegOp::SetBits(r, _) => r,
        RegOp::ClearBits(r, _) => r,
    }
}

/// The value an access stores, given the value the register held.
pub open spec fn op_value<R>(op: RegOp<R>, current: u32) -> u32 {
    match op {
        RegOp::Write(_, v) => v,
        RegOp::SetBits(_, mask) => current | mask,
        RegOp::ClearBits(_, mask) => current & !mask,
    }
}

/// The registers after one access, from the registers before it.
pub open spec fn apply_op<R>(regs: spec_fn(R) -> u32, op: RegOp<R>) -> spec_fn(R) -> u32 {
    |r: R| if r == op_target(op) { op_value(op, regs(op_target(op))) } else { regs(r) }
}

/// The registers after a sequence of accesses, made in order.
pub open spec fn run_ops<R>(regs: spec_fn(R) -> u32, ops: Seq<RegOp<R>>) -> spec_fn(R) -> u32
    decreases ops.len(),
{
    if ops.len() == 0 {
        regs
    } else {
        apply_op(run_ops(regs, ops.drop_last()), ops.last())
    }
}

impl<R: Copy> RegOp<R> {
    /// The register this access stores to.
    pub fn target(&self) -> (r: R)
        ensures
            r == op_target(*self),
    {
        match *self {
            RegOp::Write(r, _) => r,
            RegOp::SetBits(r, _) => r,
            RegOp::ClearBits(r, _) => r,
        }
    }

    /// The value this access stores, given the value the register holds
    /// (ignored by a plain write).
    pub fn value(&self, current: u32) -> (v: u32)
        ensures
            v == op_value(*self, current),
    {
        match *self {
            RegOp::Write(_, v) => v,
            RegOp::SetBits(_, mask) => current | mask,
            RegOp::ClearBits(_, mask) => current & !mask,
        }
    }
}

/// Running the first `i + 1` accesses is running the first `i`, then the
/// access at `i`.
pub proof fn lemma_run_prefix<R>(regs: spec_fn(R) -> u32, ops: Seq<RegOp<R>>, i: int)
    requires
        0 <= i < ops.len(),
    ensures
        run_ops(regs, ops.take(i + 1)) == apply_op(run_ops(regs, ops.take(i)), ops[i]),
{
    assert(ops.take(i + 1).drop_last() =~= ops.take(i));
    assert(ops.take(i + 1).last() == ops[i]);
}

} // verus!
