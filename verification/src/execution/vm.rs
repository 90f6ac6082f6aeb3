//! The machine: the store of shared instances, and a module instance with
//! its two stacks.

use vstd::prelude::*;

use super::errors::Trap;
use super::errors::VMState;
use super::errors::VmError;
use super::inst::element::ElemInst;
use super::inst::function::FuncInst;
use super::inst::global::GlobalInst;
use super::inst::memory::MemInst;
use super::inst::table::TableInst;
use super::inst::ExportMap;
use super::inst::RFuncInst;
use super::inst::RGlobalInst;
use super::inst::RMemInst;
use super::inst::RTableInst;
use super::instr::pure::eval_pure;
use super::instr::pure::spec_arity;
use super::instr::pure::spec_pure;
use super::instr::pure::PureOp;
use super::stack::frame::spec_top_call;
use super::stack::frame::Frame;
use super::stack::frame::LabelKind;
use super::value::v128;
use super::value::ValInst;
use super::value::ValInsts;
use crate::binary::module::Module;

verus! {

/// The instances that modules share: a module that imports a table, a
/// memory, a global or a function holds the address of the same instance
/// as the module that defines it.
#[derive(Debug)]
pub struct Store {
    pub funcs: Vec<FuncInst>,
    pub tables: Vec<TableInst>,
    pub mems: Vec<MemInst>,
    pub globals: Vec<GlobalInst>,
}

impl Store {
    pub fn new() -> (r: Self)
        ensures
            r.funcs@.len() == 0,
            r.tables@.len() == 0,
            r.mems@.len() == 0,
            r.globals@.len() == 0,
    {
        Store { funcs: Vec::new(), tables: Vec::new(), mems: Vec::new(), globals: Vec::new() }
    }

    /// Puts a function into the store and gives its address.
    pub fn alloc_func(&mut self, f: FuncInst) -> (r: RFuncInst)
        ensures
            r == old(self).funcs@.len(),
            final(self).funcs@ == old(self).funcs@.push(f),
            final(self).tables == old(self).tables,
            final(self).mems == old(self).mems,
            final(self).globals == old(self).globals,
    {
        self.funcs.push(f);
        self.funcs.len() - 1
    }

    /// Puts a table into the store and gives its address.
    pub fn alloc_table(&mut self, t: TableInst) -> (r: RTableInst)
        ensures
            r == old(self).tables@.len(),
            final(self).tables@ == old(self).tables@.push(t),
            final(self).funcs == old(self).funcs,
            final(self).mems == old(self).mems,
            final(self).globals == old(self).globals,
    {
        self.tables.push(t);
        self.tables.len() - 1
    }

    /// Puts a memory into the store and gives its address.
    pub fn alloc_mem(&mut self, m: MemInst) -> (r: RMemInst)
        ensures
            r == old(self).mems@.len(),
            final(self).mems@ == old(self).mems@.push(m),
            final(self).funcs == old(self).funcs,
            final(self).tables == old(self).tables,
            final(self).globals == old(self).globals,
    {
        self.mems.push(m);
        self.mems.len() - 1
    }

    /// Puts a global into the store and gives its address.
    pub fn alloc_global(&mut self, g: GlobalInst) -> (r: RGlobalInst)
        ensures
            r == old(self).globals@.len(),
            final(self).globals@ == old(self).globals@.push(g),
            final(self).funcs == old(self).funcs,
            final(self).tables == old(self).tables,
            final(self).mems == old(self).mems,
    {
        self.globals.push(g);
        self.globals.len() - 1
    }
}

/// What the machine asks of whoever drives it after a step.
#[derive(Debug)]
pub enum Step {
    /// Go on with the next step.
    Next,
    /// The run has left the frames it was started for.
    Done,
    /// The instruction with this tag computes with floats: take its
    /// operands from the stack, compute, and put the result back.
    Float(u16),
    /// Call the function at this address in the store, which this module
    /// does not run itself, with these arguments, and push the results
    /// with `push_n_and_check_type`.
    Host(RFuncInst, ValInsts),
}

/// An instance of a module: the module, the addresses of its functions,
/// tables, memories and globals in the store, its element and data
/// segments, and its two stacks.
#[derive(Debug)]
pub struct VM {
    pub id: String,
    pub name: String,
    pub module: Module,
    pub operands: ValInsts,
    pub frames: Vec<Frame>,
    pub funcs: Vec<RFuncInst>,
    pub tables: Vec<RTableInst>,
    pub mems: Vec<RMemInst>,
    pub globals: Vec<RGlobalInst>,
    pub exports: ExportMap,
    pub datas: Vec<Vec<u8>>,
    pub elements: Vec<ElemInst>,
    pub local_idx: usize,
    pub mem_idx: usize,
}

/// The operands after a block ended: those below the block, and on them
/// the top `arity` operands.
pub open spec fn spec_unwound(ops: Seq<ValInst>, sp: int, arity: int) -> Seq<ValInst> {
    ops.take(sp) + ops.skip(ops.len() - arity)
}

impl VM {
    /// Whether two machines differ at most in their operands.
    pub open spec fn same_but_operands(&self, pre: &VM) -> bool {
        &&& self.frames == pre.frames
        &&& self.local_idx == pre.local_idx
        &&& self.same_instance(pre)
    }

    /// Whether two machines are the same instance: they differ at most in
    /// their two stacks and in where the locals start.
    pub open spec fn same_instance(&self, pre: &VM) -> bool {
        &&& self.id == pre.id
        &&& self.name == pre.name
        &&& self.module == pre.module
        &&& self.funcs == pre.funcs
        &&& self.tables == pre.tables
        &&& self.mems == pre.mems
        &&& self.globals == pre.globals
        &&& self.exports == pre.exports
        &&& self.datas == pre.datas
        &&& self.elements == pre.elements
        &&& self.mem_idx == pre.mem_idx
    }

    pub fn stack_size(&self) -> (r: usize)
        ensures
            r == self.operands@.len(),
    {
        self.operands.len()
    }

    pub fn get_value(&self, n: usize) -> (r: &ValInst)
        requires
            n < self.operands@.len(),
        ensures
            *r == self.operands@[n as int],
    {
        &self.operands[n]
    }

    pub fn set_value(&mut self, n: usize, v: ValInst)
        requires
            n < old(self).operands@.len(),
        ensures
            final(self).operands@ == old(self).operands@.update(n as int, v),
            final(self).same_but_operands(old(self)),
    {
        self.operands[n] = v;
    }

    pub fn push(&mut self, v: ValInst)
        ensures
            final(self).operands@ == old(self).operands@.push(v),
            final(self).same_but_operands(old(self)),
    {
        self.operands.push(v);
    }

    pub fn pop(&mut self) -> (r: ValInst)
        requires
            old(self).operands@.len() > 0,
        ensures
            r == old(self).operands@.last(),
            final(self).operands@ == old(self).operands@.drop_last(),
            final(self).same_but_operands(old(self)),
    {
        match self.operands.pop() {
            Some(v) => v,
            None => ValInst::NullRef,
        }
    }

    pub fn push_u64(&mut self, v: u64)
        ensures
            final(self).operands@ == old(self).operands@.push(ValInst::I64(v as i64)),
            final(self).same_but_operands(old(self)),
    {
        self.push(ValInst::I64(v as i64));
    }

    pub fn push_u32(&mut self, v: u32)
        ensures
            final(self).operands@ == old(self).operands@.push(ValInst::I32(v as i32)),
            final(self).same_but_operands(old(self)),
    {
        self.push(ValInst::I32(v as i32));
    }

    pub fn push_i32(&mut self, v: i32)
        ensures
            final(self).operands@ == old(self).operands@.push(ValInst::I32(v)),
            final(self).same_but_operands(old(self)),
    {
        self.push(ValInst::I32(v));
    }

    pub fn push_i64(&mut self, v: i64)
        ensures
            final(self).operands@ == old(self).operands@.push(ValInst::I64(v)),
            final(self).same_but_operands(old(self)),
    {
        self.push(ValInst::I64(v));
    }

    /// Pushes a 32-bit float, given by its bits.
    pub fn push_f32(&mut self, v: u32)
        ensures
            final(self).operands@ == old(self).operands@.push(ValInst::F32(v)),
            final(self).same_but_operands(old(self)),
    {
        self.push(ValInst::F32(v));
    }

    /// Pushes a 64-bit float, given by its bits.
    pub fn push_f64(&mut self, v: u64)
        ensures
            final(self).operands@ == old(self).operands@.push(ValInst::F64(v)),
            final(self).same_but_operands(old(self)),
    {
        self.push(ValInst::F64(v));
    }

    pub fn push_v128(&mut self, v: v128)
        ensures
            final(self).operands@ == old(self).operands@.push(ValInst::V128(v)),
            final(self).same_but_operands(old(self)),
    {
        self.push(ValInst::V128(v));
    }

    pub fn push_bool(&mut self, v: bool)
        ensures
            final(self).operands@ == old(self).operands@.push(
                ValInst::I32(
                    if v {
                        1
                    } else {
                        0
                    },
                ),
            ),
            final(self).same_but_operands(old(self)),
    {
        self.push(
            ValInst::I32(
                if v {
                    1
                } else {
                    0
                },
            ),
        );
    }

    pub fn pop_u32(&mut self) -> (r: u32)
        requires
            old(self).operands@.len() > 0,
            old(self).operands@.last() is I32,
        ensures
            r == old(self).operands@.last()->I32_0 as u32,
            final(self).operands@ == old(self).operands@.drop_last(),
            final(self).same_but_operands(old(self)),
    {
        self.pop().as_u32()
    }

    pub fn pop_u64(&mut self) -> (r: u64)
        requires
            old(self).operands@.len() > 0,
            old(self).operands@.last() is I64,
        ensures
            r == old(self).operands@.last()->I64_0 as u64,
            final(self).operands@ == old(self).operands@.drop_last(),
            final(self).same_but_operands(old(self)),
    {
        self.pop().as_u64()
    }

    pub fn pop_i32(&mut self) -> (r: i32)
        requires
            old(self).operands@.len() > 0,
            old(self).operands@.last() is I32,
        ensures
            r == old(self).operands@.last()->I32_0,
            final(self).operands@ == old(self).operands@.drop_last(),
            final(self).same_but_operands(old(self)),
    {
        self.pop().as_i32()
    }

    pub fn pop_i64(&mut self) -> (r: i64)
        requires
            old(self).operands@.len() > 0,
            old(self).operands@.last() is I64,
        ensures
            r == old(self).operands@.last()->I64_0,
            final(self).operands@ == old(self).operands@.drop_last(),
            final(self).same_but_operands(old(self)),
    {
        self.pop().as_i64()
    }

    /// Pops a 32-bit float and gives its bits.
    pub fn pop_f32(&mut self) -> (r: u32)
        requires
            old(self).operands@.len() > 0,
            old(self).operands@.last() is F32,
        ensures
            r == old(self).operands@.last()->F32_0,
            final(self).operands@ == old(self).operands@.drop_last(),
            final(self).same_but_operands(old(self)),
    {
        self.pop().as_f32()
    }

    /// Pops a 64-bit float and gives its bits.
    pub fn pop_f64(&mut self) -> (r: u64)
        requires
            old(self).operands@.len() > 0,
            old(self).operands@.last() is F64,
        ensures
            r == old(self).operands@.last()->F64_0,
            final(self).operands@ == old(self).operands@.drop_last(),
            final(self).same_but_operands(old(self)),
    {
        self.pop().as_f64()
    }

    pub fn pop_v128(&mut self) -> (r: v128)
        requires
            old(self).operands@.len() > 0,
            old(self).operands@.last() is V128,
        ensures
            r == old(self).operands@.last()->V128_0,
            final(self).operands@ == old(self).operands@.drop_last(),
            final(self).same_but_operands(old(self)),
    {
        self.pop().as_v128()
    }

    pub fn pop_bool(&mut self) -> (r: bool)
        requires
            old(self).operands@.len() > 0,
        ensures
            r == old(self).operands@.last().spec_bool(),
            final(self).operands@ == old(self).operands@.drop_last(),
            final(self).same_but_operands(old(self)),
    {
        self.pop().as_bool()
    }

    /// Pops the top `n` operands and gives them in the order in which they
    /// lay on the stack.
    pub fn pop_n(&mut self, n: usize) -> (r: ValInsts)
        requires
            n <= old(self).operands@.len(),
        ensures
            r@ == old(self).operands@.skip(old(self).operands@.len() - n),
            final(self).operands@ == old(self).operands@.take(old(self).operands@.len() - n),
            final(self).same_but_operands(old(self)),
    {
        let at = self.operands.len() - n;
        let r = self.operands.split_off(at);
        assert(self.operands@ =~= old(self).operands@.take(at as int));
        assert(r@ =~= old(self).operands@.skip(at as int));
        r
    }

    /// Pushes values in their order.
    pub fn push_n(&mut self, vals: ValInsts)
        ensures
            final(self).operands@ == old(self).operands@ + vals@,
            final(self).same_but_operands(old(self)),
    {
        let mut vals = vals;
        self.operands.append(&mut vals);
    }

    pub fn depth(&self) -> (r: usize)
        ensures
            r == self.frames@.len(),
    {
        self.frames.len()
    }

    pub fn push_frame(&mut self, frame: Frame)
        ensures
            final(self).frames@ == old(self).frames@.push(frame),
            final(self).operands == old(self).operands,
            final(self).local_idx == old(self).local_idx,
            final(self).same_instance(old(self)),
    {
        self.frames.push(frame);
    }

    pub fn pop_frame(&mut self) -> (r: Frame)
        requires
            old(self).frames@.len() > 0,
        ensures
            r == old(self).frames@.last(),
            final(self).frames@ == old(self).frames@.drop_last(),
            final(self).operands == old(self).operands,
            final(self).local_idx == old(self).local_idx,
            final(self).same_instance(old(self)),
    {
        match self.frames.pop() {
            Some(f) => f,
            None => Frame {
                kind: LabelKind::Block,
                pc: 0,
                sp: 0,
                expr: std::rc::Rc::new(Vec::new()),
                arity: 0,
                arg_num: 0,
            },
        }
    }

    pub fn top_frame(&self) -> (r: &Frame)
        requires
            self.frames@.len() > 0,
        ensures
            *r == self.frames@.last(),
    {
        &self.frames[self.frames.len() - 1]
    }

    pub fn get_frame(&self, n: usize) -> (r: &Frame)
        requires
            n < self.frames@.len(),
        ensures
            *r == self.frames@[n as int],
    {
        &self.frames[n]
    }

    /// The topmost frame of a call and how many frames lie above it, or
    /// nothing and -1.
    pub fn top_call(&self) -> (r: (Option<&Frame>, i32))
        ensures
            match spec_top_call(self.frames@, self.frames@.len() as int) {
                Some(n) => r.0 == Some(&self.frames@[n]) && r.1 == (self.frames@.len() - 1
                    - n) as i32,
                None => r.0 is None && r.1 == -1,
            },
    {
        let mut n: usize = self.frames.len();
        while n > 0
            invariant
                n <= self.frames@.len(),
                spec_top_call(self.frames@, self.frames@.len() as int) == spec_top_call(
                    self.frames@,
                    n as int,
                ),
            decreases n,
        {
            n -= 1;
            if matches!(self.frames[n].kind, LabelKind::Call) {
                return (Some(&self.frames[n]), (self.frames.len() - 1 - n) as i32);
            }
        }
        (None, -1)
    }

    /// The stacks as mathematical values.
    pub open spec fn stacks(&self) -> Stacks {
        Stacks { operands: self.operands@, frames: self.frames@, local_idx: self.local_idx }
    }

    /// Runs a computing instruction on the operand stack.
    pub fn pure_op(&mut self, op: PureOp) -> (r: VMState)
        ensures
            final(self).same_instance(old(self)),
            stacks_are(
                old(self).stacks(),
                spec_pure_op(old(self).stacks(), op),
                r,
                final(self).stacks(),
            ),
    {
        let n = self.operands.len();
        let k = op.arity();
        if n < k {
            return Err(VmError::Trap(Trap::ArgNotEq));
        }
        let v = match eval_pure(
            op,
            vstd::slice::slice_subrange(self.operands.as_slice(), n - k, n),
        ) {
            Ok(v) => v,
            Err(t) => {
                return Err(VmError::Trap(t));
            },
        };
        self.operands.truncate(n - k);
        self.operands.push(v);
        proof {
            assert(old(self).operands@.subrange(0, n - k) =~= old(self).operands@.take(n - k));
        }
        Ok(())
    }
}

/// The two stacks of a machine as mathematical values, and where the
/// locals of the running function start.
pub struct Stacks {
    pub operands: Seq<ValInst>,
    pub frames: Seq<Frame>,
    pub local_idx: usize,
}

/// Whether `r` and the stacks `post` are what `want` says of an instruction
/// that found the stacks `pre`. A trap leaves the stacks as they were.
pub open spec fn stacks_are(pre: Stacks, want: Result<Stacks, Trap>, r: VMState, post: Stacks) -> bool {
    match want {
        Ok(s) => r is Ok && post == s,
        Err(t) => r == Err::<(), VmError>(VmError::Trap(t)) && post == pre,
    }
}

/// The stacks with other operands.
pub open spec fn with_operands(s: Stacks, operands: Seq<ValInst>) -> Stacks {
    Stacks { operands, ..s }
}

/// The stacks after a computing instruction: with too few operands it is
/// `ArgNotEq`; else the operands of the instruction are replaced by its
/// result, or it is the trap of the operation.
pub open spec fn spec_pure_op(s: Stacks, op: PureOp) -> Result<Stacks, Trap> {
    let ops = s.operands;
    let k = spec_arity(op);
    if ops.len() < k {
        Err(Trap::ArgNotEq)
    } else {
        match spec_pure(op, ops.skip(ops.len() - k)) {
            Ok(v) => Ok(with_operands(s, ops.take(ops.len() - k).push(v))),
            Err(t) => Err(t),
        }
    }
}

} // verus!
