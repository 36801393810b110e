//! The wire-level model: a planned operation on the command/data bus.
//!
//! The controller's bus distinguishes two kinds of write — command
//! selection and data. Every method of the driver that would touch the
//! bus instead returns a `Vec<BusOp>`; the embedding performs the writes
//! in order and treats the first failure as "controller state unknown".

use vstd::prelude::*;

verus! {

/// One planned write on the command/data bus.
#[derive(Clone, Debug, PartialEq, Eq)]
pub enum BusOp {
    /// Bytes written with the command/data line selecting "command".
    Command(Vec<u8>),
    /// Bytes written with the command/data line selecting "data".
    Data(Vec<u8>),
}

/// Mathematical model of one bus write.
#[verifier::ext_equal]
pub enum OpV {
    Command(Seq<u8>),
    Data(Seq<u8>),
}

impl View for BusOp {
    type V = OpV;

    open spec fn view(&self) -> OpV {
        match self {
            BusOp::Command(b) => OpV::Command(b@),
            BusOp::Data(b) => OpV::Data(b@),
        }
    }
}

/// The sequence of modelled writes that a vector of bus operations
/// stands for.
pub open spec fn plan(ops: Seq<BusOp>) -> Seq<OpV> {
    Seq::new(ops.len() as nat, |i: int| ops[i]@)
}

pub proof fn lemma_plan_concat(a: Seq<BusOp>, b: Seq<BusOp>)
    ensures
        plan(a + b) == plan(a) + plan(b),
{
    assert(plan(a + b) =~~= plan(a) + plan(b));
}

/// Move every operation of `src` to the end of `dst`, keeping order.
pub fn append_ops(dst: &mut Vec<BusOp>, src: Vec<BusOp>)
    ensures
        plan(final(dst)@) == plan(old(dst)@) + plan(src@),
{
    let ghost old_dst = dst@;
    let ghost src_seq = src@;
    let mut src = src;
    dst.append(&mut src);
    proof {
        assert(dst@ == old_dst + src_seq);
        lemma_plan_concat(old_dst, src_seq);
    }
}

} // verus!
