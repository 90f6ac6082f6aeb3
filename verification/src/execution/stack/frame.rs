//! Frames: the labels of the control stack.

use std::rc::Rc;

use vstd::prelude::*;

use crate::binary::section::Expr;

verus! {

/// What a frame was entered for.
#[derive(Debug, Clone, Copy, PartialEq, Eq, Structural)]
pub enum LabelKind {
    Call,
    If,
    Loop,
    Block,
}

/// A frame: the body that runs, where it stands in it, the size that the
/// operand stack had below the operands of the block, and how many values
/// the block takes and gives.
#[derive(Debug)]
pub struct Frame {
    pub kind: LabelKind,
    pub pc: usize,
    pub sp: usize,
    pub expr: Rc<Expr>,
    pub arity: usize,
    pub arg_num: usize,
}

impl Frame {
    /// Starts the body over.
    pub fn reset_pc(&mut self)
        ensures
            *final(self) == (Frame { pc: 0, ..*old(self) }),
    {
        self.pc = 0;
    }

    /// The numbers of the frame, without its body.
    pub fn basic_info(&self) -> (r: Self)
        ensures
            r.pc == self.pc,
            r.sp == self.sp,
            r.arity == self.arity,
            r.arg_num == self.arg_num,
            r.kind == self.kind,
            r.expr@ == Seq::<crate::binary::instruction::Instruction>::empty(),
    {
        Frame {
            expr: Rc::new(Vec::new()),
            pc: self.pc,
            sp: self.sp,
            arity: self.arity,
            arg_num: self.arg_num,
            kind: self.kind,
        }
    }
}

/// The index of the topmost frame of a call among the first `k` frames.
pub open spec fn spec_top_call(frames: Seq<Frame>, k: int) -> Option<int>
    decreases k,
{
    if k <= 0 {
        None
    } else if frames[k - 1].kind == LabelKind::Call {
        Some(k - 1)
    } else {
        spec_top_call(frames, k - 1)
    }
}

} // verus!
