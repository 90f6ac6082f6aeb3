//! Blocks, branches and calls.

use std::rc::Rc;

use vstd::prelude::*;

use crate::binary::instruction::Block;
use crate::binary::instruction::BlockType;
use crate::binary::instruction::BrTableArg;
use crate::binary::instruction::IfBlock;
use crate::binary::section::CodeSeg;
use crate::binary::section::Expr;
use crate::binary::section::LabelIdx;
use crate::binary::section::Locals;
use crate::binary::types::FuncType;
use crate::binary::types::ValType;
use crate::execution::errors::Trap;
use crate::execution::errors::VMState;
use crate::execution::errors::VmError;
use crate::execution::inst::function::share;
use crate::execution::inst::function::FuncInst;
use crate::execution::inst::function::FuncInstKind;
use crate::execution::inst::RFuncInst;
use crate::execution::stack::frame::spec_top_call;
use crate::execution::stack::frame::Frame;
use crate::execution::stack::frame::LabelKind;
use crate::execution::value::ValInst;
use crate::execution::value::ValInsts;
use crate::execution::vm::spec_unwound;
use crate::execution::vm::stacks_are;
use crate::execution::vm::Stacks;
use crate::execution::vm::Step;
use crate::execution::vm::Store;
use crate::execution::vm::VM;

verus! {

/// The stacks after a block that takes `params` operands and gives
/// `results` was entered: a frame that remembers the size of the stack
/// below the operands of the block. A call also moves the start of the
/// locals there. Fewer operands than the block takes are `ArgNotEq`.
pub open spec fn spec_enter_block(
    s: Stacks,
    kind: LabelKind,
    params: nat,
    results: nat,
    expr: Rc<Expr>,
) -> Result<Stacks, Trap> {
    if s.operands.len() < params {
        Err(Trap::ArgNotEq)
    } else {
        let sp = (s.operands.len() - params) as usize;
        Ok(
            Stacks {
                operands: s.operands,
                frames: s.frames.push(
                    Frame {
                        kind,
                        pc: 0,
                        sp,
                        expr,
                        arity: results as usize,
                        arg_num: params as usize,
                    },
                ),
                local_idx: if kind == LabelKind::Call {
                    sp
                } else {
                    s.local_idx
                },
            },
        )
    }
}

/// The stacks after the block of `frame`, which was already taken off the
/// frames, has ended: its results lie on what was below the block. After
/// a call, the locals start where the nearest call left on the frames
/// says; if frames are left and none is a call, that is
/// `CallFrameNotFount`.
pub open spec fn spec_clear_block(s: Stacks, frame: Frame) -> Result<Stacks, Trap> {
    if s.operands.len() < frame.arity + frame.sp {
        Err(Trap::ArgNotEq)
    } else {
        let operands = spec_unwound(s.operands, frame.sp as int, frame.arity as int);
        if frame.kind == LabelKind::Call && s.frames.len() > 0 {
            match spec_top_call(s.frames, s.frames.len() as int) {
                Some(i) => Ok(Stacks { operands, frames: s.frames, local_idx: s.frames[i].sp }),
                None => Err(Trap::CallFrameNotFount),
            }
        } else {
            Ok(Stacks { operands, ..s })
        }
    }
}

/// The stacks after the loop of `frame` was started over: its operands
/// lie on what was below the loop.
pub open spec fn spec_reset_block(s: Stacks, frame: Frame) -> Result<Stacks, Trap> {
    if s.operands.len() < frame.arg_num + frame.sp {
        Err(Trap::ArgNotEq)
    } else {
        Ok(
            Stacks {
                operands: spec_unwound(s.operands, frame.sp as int, frame.arg_num as int),
                ..s
            },
        )
    }
}

/// The stacks after the top frame was left. Without a frame it is
/// `NoOpcode`.
pub open spec fn spec_exit_block(s: Stacks) -> Result<Stacks, Trap> {
    if s.frames.len() == 0 {
        Err(Trap::NoOpcode)
    } else {
        spec_clear_block(Stacks { frames: s.frames.drop_last(), ..s }, s.frames.last())
    }
}

/// The stacks after a branch to the label `l`: `l` frames are taken off,
/// and the frame that is then on top is started over if it is a loop, and
/// left otherwise. A label beyond the frames is `OutofRange`.
pub open spec fn spec_br(s: Stacks, l: u32) -> Result<Stacks, Trap> {
    let d = s.frames.len();
    if d <= l {
        Err(Trap::OutofRange)
    } else {
        let frames = s.frames.take(d - l);
        let top = frames.last();
        if top.kind == LabelKind::Loop {
            match spec_reset_block(Stacks { frames, ..s }, top) {
                Ok(t) => Ok(
                    Stacks { frames: frames.update(d - l - 1, Frame { pc: 0, ..top }), ..t },
                ),
                Err(e) => Err(e),
            }
        } else {
            spec_exit_block(Stacks { frames, ..s })
        }
    }
}

/// Why the frame at place `at` cannot be left with `n` operands on the
/// stack, if it cannot: there are fewer operands than its results and what
/// lay below it (`ArgNotEq`), or it is a call above frames of which none is
/// a call (`CallFrameNotFount`).
pub open spec fn spec_leave_error(frames: Seq<Frame>, at: int, n: int) -> Option<Trap> {
    let frame = frames[at];
    if n < frame.arity + frame.sp {
        Some(Trap::ArgNotEq)
    } else if frame.kind == LabelKind::Call && at > 0 && spec_top_call(frames, at) is None {
        Some(Trap::CallFrameNotFount)
    } else {
        None
    }
}

/// Why a branch to the label `l` cannot be made with `n` operands on the
/// stack, if it cannot.
pub open spec fn spec_br_error(frames: Seq<Frame>, l: u32, n: int) -> Option<Trap> {
    let d = frames.len();
    if d <= l {
        Some(Trap::OutofRange)
    } else {
        let top = frames[d - l - 1];
        if top.kind == LabelKind::Loop {
            if n < top.arg_num + top.sp {
                Some(Trap::ArgNotEq)
            } else {
                None
            }
        } else {
            spec_leave_error(frames, d - l - 1, n)
        }
    }
}

/// The topmost call among the first `k` frames does not depend on the
/// frames above them.
pub proof fn lemma_top_call_of_prefix(frames: Seq<Frame>, k: int, m: int)
    requires
        0 <= k <= m <= frames.len(),
    ensures
        spec_top_call(frames.take(m), k) == spec_top_call(frames, k),
    decreases k,
{
    if k > 0 {
        lemma_top_call_of_prefix(frames, k - 1, m);
    }
}

/// The frame at place `at` can be left exactly when leaving it, once the
/// frames above it are gone, gives no error.
pub proof fn lemma_leave_error(s: Stacks, at: int)
    requires
        0 <= at < s.frames.len(),
    ensures
        match spec_exit_block(Stacks { frames: s.frames.take(at + 1), ..s }) {
            Ok(_) => spec_leave_error(s.frames, at, s.operands.len() as int) is None,
            Err(t) => spec_leave_error(s.frames, at, s.operands.len() as int) == Some(t),
        },
{
    let frames = s.frames.take(at + 1);
    assert(frames.drop_last() =~= s.frames.take(at));
    assert(frames.last() == s.frames[at]);
    lemma_top_call_of_prefix(s.frames, at, at);
}

/// A branch can be made exactly when `spec_br_error` gives no error.
pub proof fn lemma_br_error(s: Stacks, l: u32)
    ensures
        match spec_br(s, l) {
            Ok(_) => spec_br_error(s.frames, l, s.operands.len() as int) is None,
            Err(t) => spec_br_error(s.frames, l, s.operands.len() as int) == Some(t),
        },
{
    let d = s.frames.len() as int;
    if d > l {
        lemma_leave_error(s, d - l - 1);
        assert(s.frames.take(d - l).last() == s.frames[d - l - 1]);
    }
}

/// The stacks after a return: a branch to the nearest call.
pub open spec fn spec_return(s: Stacks) -> Result<Stacks, Trap> {
    match spec_top_call(s.frames, s.frames.len() as int) {
        Some(i) => if s.frames.len() - 1 - i > u32::MAX {
            Err(Trap::OutofRange)
        } else {
            spec_br(s, (s.frames.len() - 1 - i) as u32)
        },
        None => Err(Trap::CallFrameNotFount),
    }
}

/// The stacks after a conditional branch: the condition is taken off, and
/// the branch is made if it is true.
pub open spec fn spec_br_if(s: Stacks, l: u32) -> Result<Stacks, Trap> {
    if s.operands.len() == 0 {
        Err(Trap::ArgNotEq)
    } else if s.operands.last().spec_bool() {
        spec_br(Stacks { operands: s.operands.drop_last(), ..s }, l)
    } else {
        Ok(Stacks { operands: s.operands.drop_last(), ..s })
    }
}

/// The stacks after a branch by table: the index is taken off, and the
/// branch goes to the label at the index, or to the default label if
/// there is none.
pub open spec fn spec_br_table(s: Stacks, labels: Seq<LabelIdx>, default: LabelIdx) -> Result<
    Stacks,
    Trap,
> {
    if s.operands.len() == 0 {
        Err(Trap::ArgNotEq)
    } else {
        match s.operands.last() {
            ValInst::I32(i) => spec_br(
                Stacks { operands: s.operands.drop_last(), ..s },
                if (i as u32) < labels.len() {
                    labels[i as u32 as int]
                } else {
                    default
                },
            ),
            _ => Err(Trap::ValTypeNotEq),
        }
    }
}

/// How many operands a block of the given type takes and gives. A type
/// index beyond the types of the module is `OutofRange`.
pub open spec fn spec_block_arity(types: Seq<FuncType>, t: BlockType) -> Result<
    (nat, nat),
    Trap,
> {
    match t {
        BlockType::TypeIdx(idx) => if 0 <= idx < types.len() {
            Ok((types[idx as int].params@.len(), types[idx as int].results@.len()))
        } else {
            Err(Trap::OutofRange)
        },
        BlockType::Empty => Ok((0, 0)),
        _ => Ok((0, 1)),
    }
}

/// The zeros of the first `k` runs of locals.
pub open spec fn spec_init_local(locals: Seq<Locals>, k: int) -> Seq<ValInst>
    decreases k,
{
    if k <= 0 {
        Seq::empty()
    } else {
        spec_init_local(locals, k - 1) + Seq::new(
            locals[k - 1].n as nat,
            |i: int| ValInst::spec_zero(locals[k - 1].value_type),
        )
    }
}

impl CodeSeg {
    /// The first values of the locals: the zero of the type of each.
    pub fn init_local(&self) -> (r: ValInsts)
        ensures
            r@ == spec_init_local(self.locals@, self.locals@.len() as int),
    {
        let mut values: Vec<ValInst> = Vec::new();
        let mut k: usize = 0;
        while k < self.locals.len()
            invariant
                k <= self.locals@.len(),
                values@ == spec_init_local(self.locals@, k as int),
            decreases self.locals@.len() - k,
        {
            let ghost before = values@;
            let zero = ValInst::zero(&self.locals[k].value_type);
            let n = self.locals[k].n;
            let mut i: u32 = 0;
            while i < n
                invariant
                    i <= n,
                    values@ == before + Seq::new(i as nat, |j: int| zero),
                decreases n - i,
            {
                values.push(zero);
                i += 1;
                proof {
                    assert(values@ =~= before + Seq::new(i as nat, |j: int| zero));
                }
            }
            k += 1;
        }
        values
    }
}

/// What a call of the function `func` at the address `addr` does in the
/// machine with the id `id`. A function of the machine's own is entered:
/// a frame is put on, and the zeros of its locals on the operands. For
/// any other function the arguments are taken off the operands and the
/// driver is asked to call it.
pub open spec fn spec_call_func(s: Stacks, func: FuncInst, addr: RFuncInst, id: Seq<char>) -> Result<
    (Stacks, Option<Seq<ValInst>>),
    Trap,
> {
    let params = func.type_.params@.len();
    let results = func.type_.results@.len();
    match func.kind {
        FuncInstKind::Inner(_, code) if func.from@ == id => match spec_enter_block(
            s,
            LabelKind::Call,
            params,
            results,
            code.body,
        ) {
            Ok(t) => Ok(
                (
                    Stacks {
                        operands: t.operands + spec_init_local(
                            code.locals@,
                            code.locals@.len() as int,
                        ),
                        ..t
                    },
                    None,
                ),
            ),
            Err(e) => Err(e),
        },
        _ => if s.operands.len() < params {
            Err(Trap::ArgNotEq)
        } else {
            Ok(
                (
                    Stacks { operands: s.operands.take(s.operands.len() - params), ..s },
                    Some(s.operands.skip(s.operands.len() - params)),
                ),
            )
        },
    }
}

/// Whether `r` and the stacks `post` are what `want` says of a call that
/// found the stacks `pre`. A trap leaves the stacks as they were.
pub open spec fn call_is(
    pre: Stacks,
    want: Result<(Stacks, Option<Seq<ValInst>>), Trap>,
    addr: RFuncInst,
    r: VMState<Step>,
    post: Stacks,
) -> bool {
    match want {
        Ok((s, None)) => r is Ok && r->Ok_0 is Next && post == s,
        Ok((s, Some(args))) => r is Ok && r->Ok_0 is Host && r->Ok_0->Host_0 == addr
            && r->Ok_0->Host_1@ == args && post == s,
        Err(t) => r == Err::<Step, VmError>(VmError::Trap(t)) && post == pre,
    }
}

/// The stacks after a `block` or a `loop` of the given type was entered.
pub open spec fn spec_block(
    s: Stacks,
    types: Seq<FuncType>,
    kind: LabelKind,
    t: BlockType,
    expr: Rc<Expr>,
) -> Result<Stacks, Trap> {
    match spec_block_arity(types, t) {
        Ok((params, results)) => spec_enter_block(s, kind, params, results, expr),
        Err(t) => Err(t),
    }
}

/// The stacks after an `if`: the condition is taken off the operands, and
/// the branch that it selects is entered.
pub open spec fn spec_if(s: Stacks, types: Seq<FuncType>, block: IfBlock) -> Result<Stacks, Trap> {
    match spec_block_arity(types, block.type_) {
        Ok((params, results)) => if s.operands.len() == 0 {
            Err(Trap::ArgNotEq)
        } else {
            spec_enter_block(
                Stacks { operands: s.operands.drop_last(), ..s },
                LabelKind::If,
                params,
                results,
                if s.operands.last().spec_bool() {
                    block.if_expr
                } else {
                    block.else_expr
                },
            )
        },
        Err(t) => Err(t),
    }
}


/// The values that a block of a type other than a type index leaves: one
/// of the value type, or none for the empty type.
pub open spec fn spec_block_values(t: BlockType) -> Seq<ValType> {
    match t {
        BlockType::I32 => seq![ValType::I32],
        BlockType::I64 => seq![ValType::I64],
        BlockType::F32 => seq![ValType::F32],
        BlockType::F64 => seq![ValType::F64],
        BlockType::V128 => seq![ValType::V128],
        BlockType::ExternRef => seq![ValType::ExternRef],
        _ => Seq::empty(),
    }
}

impl VM {
    /// Enters a block.
    pub fn enter_block(&mut self, kind: LabelKind, func_type: &FuncType, expr: Rc<Expr>) -> (r:
        VMState)
        ensures
            final(self).same_instance(old(self)),
            stacks_are(
                old(self).stacks(),
                spec_enter_block(
                    old(self).stacks(),
                    kind,
                    func_type.params@.len(),
                    func_type.results@.len(),
                    expr,
                ),
                r,
                final(self).stacks(),
            ),
    {
        let params = func_type.params.len();
        if self.operands.len() < params {
            return Err(VmError::Trap(Trap::ArgNotEq));
        }
        let frame = Frame {
            pc: 0,
            kind,
            sp: self.operands.len() - params,
            expr,
            arg_num: params,
            arity: func_type.results.len(),
        };
        if matches!(frame.kind, LabelKind::Call) {
            self.local_idx = frame.sp;
        }
        self.frames.push(frame);
        Ok(())
    }

    /// Leaves the top frame.
    pub fn exit_block(&mut self) -> (r: VMState)
        ensures
            final(self).same_instance(old(self)),
            stacks_are(
                old(self).stacks(),
                spec_exit_block(old(self).stacks()),
                r,
                final(self).stacks(),
            ),
    {
        let d = self.frames.len();
        if d == 0 {
            return Err(VmError::Trap(Trap::NoOpcode));
        }
        proof {
            lemma_leave_error(self.stacks(), d - 1);
            assert(self.frames@.take(d as int) =~= self.frames@);
        }
        if let Some(t) = self.leave_error(d - 1, self.operands.len()) {
            return Err(VmError::Trap(t));
        }
        let frame = self.pop_frame();
        self.clear_block(&frame)
    }

    /// Why the frame at place `at` cannot be left with `n` operands on the
    /// stack, if it cannot. Nothing is changed.
    pub fn leave_error(&self, at: usize, n: usize) -> (r: Option<Trap>)
        requires
            at < self.frames@.len(),
        ensures
            r == spec_leave_error(self.frames@, at as int, n as int),
    {
        let arity = self.frames[at].arity;
        let sp = self.frames[at].sp;
        if n < arity || n - arity < sp {
            return Some(Trap::ArgNotEq);
        }
        if matches!(self.frames[at].kind, LabelKind::Call) && at > 0 {
            let mut k: usize = at;
            while k > 0
                invariant
                    k <= at,
                    at < self.frames@.len(),
                    n >= self.frames@[at as int].arity + self.frames@[at as int].sp,
                    spec_top_call(self.frames@, at as int) == spec_top_call(self.frames@, k as int),
                decreases k,
            {
                k -= 1;
                proof {
                    assert(spec_top_call(self.frames@, k + 1) == if self.frames@[k as int].kind
                        == LabelKind::Call {
                        Some(k as int)
                    } else {
                        spec_top_call(self.frames@, k as int)
                    });
                }
                if matches!(self.frames[k].kind, LabelKind::Call) {
                    return None;
                }
            }
            return Some(Trap::CallFrameNotFount);
        }
        None
    }

    /// Why a branch to the label `l` cannot be made with `n` operands on
    /// the stack, if it cannot. Nothing is changed.
    pub fn br_error(&self, l: LabelIdx, n: usize) -> (r: Option<Trap>)
        ensures
            r == spec_br_error(self.frames@, l, n as int),
    {
        let d = self.frames.len();
        if d <= l as usize {
            return Some(Trap::OutofRange);
        }
        let at = d - l as usize - 1;
        if matches!(self.frames[at].kind, LabelKind::Loop) {
            let keep = self.frames[at].arg_num;
            let sp = self.frames[at].sp;
            if n < keep || n - keep < sp {
                Some(Trap::ArgNotEq)
            } else {
                None
            }
        } else {
            self.leave_error(at, n)
        }
    }

    /// Puts the operands of a loop back on what was below the loop.
    pub fn reset_block(&mut self, frame: Frame) -> (r: VMState)
        ensures
            final(self).same_instance(old(self)),
            stacks_are(
                old(self).stacks(),
                spec_reset_block(old(self).stacks(), frame),
                r,
                final(self).stacks(),
            ),
    {
        self.unwind(frame.sp, frame.arg_num)
    }

    /// Keeps the top `keep` operands and removes those between them and
    /// the first `sp`.
    fn unwind(&mut self, sp: usize, keep: usize) -> (r: VMState)
        ensures
            final(self).same_but_operands(old(self)),
            old(self).operands@.len() < keep + sp ==> r == Err::<(), VmError>(
                VmError::Trap(Trap::ArgNotEq),
            ) && *final(self) == *old(self),
            old(self).operands@.len() >= keep + sp ==> r is Ok && final(self).operands@
                == spec_unwound(old(self).operands@, sp as int, keep as int),
    {
        let n = self.operands.len();
        if n < keep || n - keep < sp {
            return Err(VmError::Trap(Trap::ArgNotEq));
        }
        let results = self.pop_n(keep);
        self.operands.truncate(sp);
        self.push_n(results);
        proof {
            assert(self.operands@ =~= spec_unwound(old(self).operands@, sp as int, keep as int));
        }
        Ok(())
    }

    /// Ends the block of a frame that was taken off the frames.
    pub fn clear_block(&mut self, frame: &Frame) -> (r: VMState)
        ensures
            final(self).same_instance(old(self)),
            stacks_are(
                old(self).stacks(),
                spec_clear_block(old(self).stacks(), *frame),
                r,
                final(self).stacks(),
            ),
    {
        let n = self.operands.len();
        if n < frame.arity || n - frame.arity < frame.sp {
            return Err(VmError::Trap(Trap::ArgNotEq));
        }
        let mut locals = self.local_idx;
        if matches!(frame.kind, LabelKind::Call) && self.frames.len() > 0 {
            let (call_frame, _) = self.top_call();
            match call_frame {
                Some(call_frame) => {
                    locals = call_frame.sp;
                },
                None => {
                    return Err(VmError::Trap(Trap::CallFrameNotFount));
                },
            }
        }
        match self.unwind(frame.sp, frame.arity) {
            Ok(_) => {},
            Err(e) => {
                return Err(e);
            },
        }
        self.local_idx = locals;
        Ok(())
    }

    /// The function type of a block type: that of a type index, or one
    /// that takes nothing and gives the value of a value type.
    pub fn block_type_to_func_type(&self, block_type: &BlockType) -> (r: VMState<FuncType>)
        ensures
            match spec_block_arity(self.module.type_sec@, *block_type) {
                Ok((params, results)) => r is Ok && r->Ok_0.params@.len() == params
                    && r->Ok_0.results@.len() == results && match *block_type {
                    BlockType::TypeIdx(idx) => r->Ok_0.same(&self.module.type_sec@[idx as int]),
                    _ => r->Ok_0.params@ == Seq::<ValType>::empty() && r->Ok_0.results@
                        == spec_block_values(*block_type),
                },
                Err(t) => r == Err::<FuncType, VmError>(VmError::Trap(t)),
            },
    {
        match block_type {
            BlockType::TypeIdx(idx) => {
                if *idx < 0 || (*idx as usize) >= self.module.type_sec.len() {
                    return Err(VmError::Trap(Trap::OutofRange));
                }
                Ok(self.module.type_sec[*idx as usize].duplicate())
            },
            BlockType::I32 => Ok(FuncType::new_result(ValType::I32)),
            BlockType::I64 => Ok(FuncType::new_result(ValType::I64)),
            BlockType::F32 => Ok(FuncType::new_result(ValType::F32)),
            BlockType::F64 => Ok(FuncType::new_result(ValType::F64)),
            BlockType::V128 => Ok(FuncType::new_result(ValType::V128)),
            BlockType::ExternRef => Ok(FuncType::new_result(ValType::ExternRef)),
            BlockType::Empty => Ok(FuncType::empty()),
        }
    }

    pub fn unreachable(&mut self) -> (r: VMState)
        ensures
            r == Err::<(), VmError>(VmError::Trap(Trap::Unreachable)),
            *final(self) == *old(self),
    {
        Err(VmError::Trap(Trap::Unreachable))
    }

    pub fn nop(&mut self)
        ensures
            *final(self) == *old(self),
    {
    }

    pub fn else_(&mut self)
        ensures
            *final(self) == *old(self),
    {
    }

    pub fn end(&mut self)
        ensures
            *final(self) == *old(self),
    {
    }

    /// Enters a `block`.
    pub fn block(&mut self, block: &Block) -> (r: VMState)
        ensures
            final(self).same_instance(old(self)),
            stacks_are(
                old(self).stacks(),
                spec_block(
                    old(self).stacks(),
                    old(self).module.type_sec@,
                    LabelKind::Block,
                    block.type_,
                    block.expr,
                ),
                r,
                final(self).stacks(),
            ),
    {
        let ft = self.block_type_to_func_type(&block.type_)?;
        self.enter_block(LabelKind::Block, &ft, share(&block.expr))
    }

    /// Enters a `loop`.
    pub fn loop_(&mut self, block: &Block) -> (r: VMState)
        ensures
            final(self).same_instance(old(self)),
            stacks_are(
                old(self).stacks(),
                spec_block(
                    old(self).stacks(),
                    old(self).module.type_sec@,
                    LabelKind::Loop,
                    block.type_,
                    block.expr,
                ),
                r,
                final(self).stacks(),
            ),
    {
        let ft = self.block_type_to_func_type(&block.type_)?;
        self.enter_block(LabelKind::Loop, &ft, share(&block.expr))
    }

    /// Takes the condition off the operands and enters the branch of an
    /// `if` that it selects.
    pub fn if_(&mut self, block: &IfBlock) -> (r: VMState)
        ensures
            final(self).same_instance(old(self)),
            stacks_are(
                old(self).stacks(),
                spec_if(old(self).stacks(), old(self).module.type_sec@, *block),
                r,
                final(self).stacks(),
            ),
    {
        let ft = self.block_type_to_func_type(&block.type_)?;
        let n = self.operands.len();
        if n == 0 || n - 1 < ft.params.len() {
            return Err(VmError::Trap(Trap::ArgNotEq));
        }
        let expr = if self.pop_bool() {
            share(&block.if_expr)
        } else {
            share(&block.else_expr)
        };
        self.enter_block(LabelKind::If, &ft, expr)
    }

    /// Branches to the label `l`.
    pub fn br(&mut self, l: LabelIdx) -> (r: VMState)
        ensures
            final(self).same_instance(old(self)),
            stacks_are(old(self).stacks(), spec_br(old(self).stacks(), l), r, final(self).stacks()),
    {
        let d = self.frames.len();
        proof {
            lemma_br_error(self.stacks(), l);
        }
        if let Some(t) = self.br_error(l, self.operands.len()) {
            return Err(VmError::Trap(t));
        }
        self.frames.truncate(d - l as usize);
        proof {
            assert(self.frames@ =~= old(self).frames@.take(d - l));
        }
        let top = d - l as usize - 1;
        if matches!(self.frames[top].kind, LabelKind::Loop) {
            let info = self.frames[top].basic_info();
            self.unwind(info.sp, info.arg_num)?;
            let ghost before = self.frames@;
            self.frames[top].pc = 0;
            proof {
                assert(self.frames@ =~= before.update(
                    top as int,
                    Frame { pc: 0, ..before[top as int] },
                ));
            }
            Ok(())
        } else {
            self.exit_block()
        }
    }

    /// Takes the condition off the operands and branches if it is true.
    pub fn br_if(&mut self, l: LabelIdx) -> (r: VMState)
        ensures
            final(self).same_instance(old(self)),
            stacks_are(
                old(self).stacks(),
                spec_br_if(old(self).stacks(), l),
                r,
                final(self).stacks(),
            ),
    {
        let n = self.operands.len();
        if n == 0 {
            return Err(VmError::Trap(Trap::ArgNotEq));
        }
        if self.operands[n - 1].as_bool() {
            proof {
                lemma_br_error(
                    Stacks { operands: self.operands@.drop_last(), ..self.stacks() },
                    l,
                );
            }
            if let Some(t) = self.br_error(l, n - 1) {
                return Err(VmError::Trap(t));
            }
            let _ = self.pop();
            self.br(l)
        } else {
            let _ = self.pop();
            Ok(())
        }
    }

    /// Takes the index off the operands and branches to the label at the
    /// index, or to the default label.
    pub fn br_table(&mut self, arg: &BrTableArg) -> (r: VMState)
        ensures
            final(self).same_instance(old(self)),
            stacks_are(
                old(self).stacks(),
                spec_br_table(old(self).stacks(), arg.labels@, arg.default),
                r,
                final(self).stacks(),
            ),
    {
        if self.operands.len() == 0 {
            return Err(VmError::Trap(Trap::ArgNotEq));
        }
        if !matches!(self.operands[self.operands.len() - 1], ValInst::I32(_)) {
            return Err(VmError::Trap(Trap::ValTypeNotEq));
        }
        let n = self.operands.len();
        let idx = match self.operands[n - 1] {
            ValInst::I32(i) => i as u32 as usize,
            _ => {
                return Err(VmError::Trap(Trap::ValTypeNotEq));
            },
        };
        let label = if idx < arg.labels.len() {
            arg.labels[idx]
        } else {
            arg.default
        };
        proof {
            lemma_br_error(
                Stacks { operands: self.operands@.drop_last(), ..self.stacks() },
                label,
            );
        }
        if let Some(t) = self.br_error(label, n - 1) {
            return Err(VmError::Trap(t));
        }
        let _ = self.pop();
        self.br(label)
    }

    /// Branches out of the running function.
    pub fn return_(&mut self) -> (r: VMState)
        ensures
            final(self).same_instance(old(self)),
            stacks_are(
                old(self).stacks(),
                spec_return(old(self).stacks()),
                r,
                final(self).stacks(),
            ),
    {
        let mut n: usize = self.frames.len();
        while n > 0
            invariant
                n <= self.frames@.len(),
                *self == *old(self),
                spec_top_call(self.frames@, self.frames@.len() as int) == spec_top_call(
                    self.frames@,
                    n as int,
                ),
            decreases n,
        {
            n -= 1;
            if matches!(self.frames[n].kind, LabelKind::Call) {
                let distance = self.frames.len() - 1 - n;
                if distance > u32::MAX as usize {
                    return Err(VmError::Trap(Trap::OutofRange));
                }
                return self.br(distance as u32);
            }
        }
        Err(VmError::Trap(Trap::CallFrameNotFount))
    }

    /// Calls the function at an address of the store. A function that is
    /// not there is `FnNotFound`.
    pub fn call_func(&mut self, store: &Store, addr: RFuncInst) -> (r: VMState<Step>)
        ensures
            final(self).same_instance(old(self)),
            addr >= store.funcs@.len() ==> r == Err::<Step, VmError>(
                VmError::Trap(Trap::FnNotFound),
            ) && final(self).stacks() == old(self).stacks(),
            addr < store.funcs@.len() ==> call_is(
                old(self).stacks(),
                spec_call_func(old(self).stacks(), store.funcs@[addr as int], addr, old(self).id@),
                addr,
                r,
                final(self).stacks(),
            ),
    {
        if addr >= store.funcs.len() {
            return Err(VmError::Trap(Trap::FnNotFound));
        }
        let func = &store.funcs[addr];
        let own = match &func.kind {
            FuncInstKind::Inner(_, code) => if func.from == self.id {
                Some(share(code))
            } else {
                None
            },
            FuncInstKind::Outer(_, _) => None,
        };
        match own {
            Some(code) => {
                match self.enter_block(LabelKind::Call, &func.type_, share(&code.body)) {
                    Ok(_) => {},
                    Err(e) => {
                        return Err(e);
                    },
                }
                let locals = code.init_local();
                self.push_n(locals);
                Ok(Step::Next)
            },
            None => {
                let params = func.type_.params.len();
                if self.operands.len() < params {
                    return Err(VmError::Trap(Trap::ArgNotEq));
                }
                let args = self.pop_n(params);
                Ok(Step::Host(addr, args))
            },
        }
    }

    /// Calls the function with the index `idx` of the module.
    pub fn call(&mut self, store: &Store, idx: u32) -> (r: VMState<Step>)
        ensures
            final(self).same_instance(old(self)),
            indirect_is(
                old(self).stacks(),
                spec_call_op(*old(self), store, idx),
                r,
                final(self).stacks(),
            ),
    {
        if (idx as usize) >= self.funcs.len() {
            return Err(VmError::Trap(Trap::FnNotFound));
        }
        let addr = self.funcs[idx as usize];
        self.call_func(store, addr)
    }
}

/// What `call` does: the function with the index `idx` of the module is
/// called. An index beyond the functions, and a function that is not in
/// the store, are `FnNotFound`.
pub open spec fn spec_call_op(vm: VM, store: &Store, idx: u32) -> Result<
    (Stacks, Option<Seq<ValInst>>, RFuncInst),
    Trap,
> {
    if idx >= vm.funcs@.len() || vm.funcs@[idx as int] >= store.funcs@.len() {
        Err(Trap::FnNotFound)
    } else {
        match spec_call_func(
            vm.stacks(),
            store.funcs@[vm.funcs@[idx as int] as int],
            vm.funcs@[idx as int],
            vm.id@,
        ) {
            Ok((t, args)) => Ok((t, args, vm.funcs@[idx as int])),
            Err(e) => Err(e),
        }
    }
}

/// What an indirect call through the element `i` of a table does. An
/// index beyond the table is `OutofRange`, a null function reference
/// `UnInitTableElem`, any other value that is no function reference
/// `InvalidRef`, a function that is not in the store `FnNotFound`, and a
/// function of another type than `want` `ArgNotEq`.
pub open spec fn spec_call_indirect(
    s: Stacks,
    elems: Seq<ValInst>,
    i: u32,
    want: FuncType,
    funcs: Seq<FuncInst>,
    id: Seq<char>,
) -> Result<(Stacks, Option<Seq<ValInst>>, RFuncInst), Trap> {
    if i >= elems.len() {
        Err(Trap::OutofRange)
    } else {
        match elems[i as int] {
            ValInst::FuncRef(Some(f)) => if f >= funcs.len() {
                Err(Trap::FnNotFound)
            } else if !want.same(&funcs[f as int].type_) {
                Err(Trap::ArgNotEq)
            } else {
                match spec_call_func(s, funcs[f as int], f, id) {
                    Ok((t, args)) => Ok((t, args, f)),
                    Err(e) => Err(e),
                }
            },
            ValInst::FuncRef(None) => Err(Trap::UnInitTableElem),
            _ => Err(Trap::InvalidRef),
        }
    }
}

/// What `call_indirect` does: the index of the element is taken off the
/// operands, and the function that the element refers to is called. A
/// table or a type that is not there is `OutofRange`.
pub open spec fn spec_call_indirect_op(vm: VM, store: &Store, type_idx: u32, table_idx: u32) -> Result<
    (Stacks, Option<Seq<ValInst>>, RFuncInst),
    Trap,
> {
    let ops = vm.operands@;
    if ops.len() == 0 {
        Err(Trap::ArgNotEq)
    } else {
        match ops.last() {
            ValInst::I32(i) => match vm.spec_table(store, table_idx as int) {
                Some(a) => if type_idx >= vm.module.type_sec@.len() {
                    Err(Trap::OutofRange)
                } else {
                    spec_call_indirect(
                        Stacks { operands: ops.drop_last(), ..vm.stacks() },
                        store.tables@[a].elems(),
                        i as u32,
                        vm.module.type_sec@[type_idx as int],
                        store.funcs@,
                        vm.id@,
                    )
                },
                None => Err(Trap::OutofRange),
            },
            _ => Err(Trap::ValTypeNotEq),
        }
    }
}

/// Whether `r` and the stacks `post` are what `want` says of an indirect
/// call.
pub open spec fn indirect_is(
    pre: Stacks,
    want: Result<(Stacks, Option<Seq<ValInst>>, RFuncInst), Trap>,
    r: VMState<Step>,
    post: Stacks,
) -> bool {
    match want {
        Ok((s, args, f)) => call_is(pre, Ok((s, args)), f, r, post),
        Err(t) => r == Err::<Step, VmError>(VmError::Trap(t)) && post == pre,
    }
}

impl VM {
    /// Calls the function that an element of a table refers to.
    pub fn call_indirect(&mut self, store: &Store, type_idx: u32, table_idx: u32) -> (r: VMState<
        Step,
    >)
        ensures
            final(self).same_instance(old(self)),
            indirect_is(
                old(self).stacks(),
                spec_call_indirect_op(*old(self), store, type_idx, table_idx),
                r,
                final(self).stacks(),
            ),
    {
        let n = self.operands.len();
        if n == 0 {
            return Err(VmError::Trap(Trap::ArgNotEq));
        }
        if !matches!(self.operands[n - 1], ValInst::I32(_)) {
            return Err(VmError::Trap(Trap::ValTypeNotEq));
        }
        let a = match self.table(store, table_idx as usize) {
            Some(a) => a,
            None => {
                return Err(VmError::Trap(Trap::OutofRange));
            },
        };
        if (type_idx as usize) >= self.module.type_sec.len() {
            return Err(VmError::Trap(Trap::OutofRange));
        }
        let i = match self.operands[n - 1] {
            ValInst::I32(i) => i as u32,
            _ => {
                return Err(VmError::Trap(Trap::ValTypeNotEq));
            },
        };
        let f = match store.tables[a].get_func_inst(i) {
            Ok(f) => f,
            Err(VmError::Trap(Trap::NullRef)) => {
                return Err(VmError::Trap(Trap::UnInitTableElem));
            },
            Err(e) => {
                return Err(e);
            },
        };
        if f >= store.funcs.len() {
            return Err(VmError::Trap(Trap::FnNotFound));
        }
        if !self.module.type_sec[type_idx as usize].eq_type(&store.funcs[f].type_) {
            return Err(VmError::Trap(Trap::ArgNotEq));
        }
        if n - 1 < store.funcs[f].type_.params.len() {
            return Err(VmError::Trap(Trap::ArgNotEq));
        }
        let _ = self.pop();
        self.call_func(store, f)
    }
}

/// After a block has ended, the operand stack holds what was below the
/// operands of the block and the results of the block: its size is the
/// size at entry less the operands taken plus the results given.
pub proof fn lemma_block_leaves_results(s: Stacks, frame: Frame)
    requires
        spec_clear_block(s, frame) is Ok,
    ensures
        spec_clear_block(s, frame)->Ok_0.operands.len() == frame.sp + frame.arity,
        spec_clear_block(s, frame)->Ok_0.operands.take(frame.sp as int) == s.operands.take(
            frame.sp as int,
        ),
        spec_clear_block(s, frame)->Ok_0.frames == s.frames,
{
    let after = spec_clear_block(s, frame)->Ok_0.operands;
    assert(after.take(frame.sp as int) =~= s.operands.take(frame.sp as int));
}

/// A block that was entered with `entry` operands, of which it takes
/// `params`, remembers `entry - params` as the size below it.
pub proof fn lemma_entry_remembers_base(
    s: Stacks,
    kind: LabelKind,
    params: usize,
    results: usize,
    expr: Rc<Expr>,
)
    requires
        s.operands.len() <= usize::MAX,
        spec_enter_block(s, kind, params as nat, results as nat, expr) is Ok,
    ensures
        spec_enter_block(s, kind, params as nat, results as nat, expr)->Ok_0.frames.last().sp
            == s.operands.len() - params,
        spec_enter_block(s, kind, params as nat, results as nat, expr)->Ok_0.frames.last().arity
            == results,
        spec_enter_block(s, kind, params as nat, results as nat, expr)->Ok_0.frames.drop_last()
            == s.frames,
{
    let after = spec_enter_block(s, kind, params as nat, results as nat, expr)->Ok_0.frames;
    assert(after.drop_last() =~= s.frames);
}

/// A branch to the label `l` from depth `d` takes exactly `l` frames off
/// when it goes to a loop, whose frame stays and starts over; otherwise
/// it also leaves the frame of the label, so that the frame on top is the
/// one that lay `l + 1` below the top. The frames that stay are
/// unchanged.
pub proof fn lemma_br_unwinds(s: Stacks, l: u32)
    requires
        spec_br(s, l) is Ok,
    ensures
        l < s.frames.len(),
        s.frames[s.frames.len() - 1 - l].kind == LabelKind::Loop ==> {
            &&& spec_br(s, l)->Ok_0.frames.len() == s.frames.len() - l
            &&& spec_br(s, l)->Ok_0.frames.last() == (Frame {
                pc: 0,
                ..s.frames[s.frames.len() - 1 - l]
            })
            &&& spec_br(s, l)->Ok_0.frames.drop_last() == s.frames.take(s.frames.len() - 1 - l)
        },
        s.frames[s.frames.len() - 1 - l].kind != LabelKind::Loop ==> spec_br(s, l)->Ok_0.frames
            == s.frames.take(s.frames.len() - 1 - l),
{
    let d = s.frames.len() as int;
    let frames = s.frames.take(d - l);
    let after = spec_br(s, l)->Ok_0.frames;
    if s.frames[d - 1 - l].kind == LabelKind::Loop {
        assert(after.drop_last() =~= s.frames.take(d - 1 - l));
    } else {
        assert(frames.drop_last() =~= s.frames.take(d - 1 - l));
    }
}

} // verus!
