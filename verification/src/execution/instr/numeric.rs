//! The scalar instructions by name: constants, integer arithmetic and
//! comparison, conversions between the integer widths, and the operations
//! on the bits of a float.

use vstd::prelude::*;

use super::alu::IBinOp;
use super::alu::IRelOp;
use super::alu::IUnOp;
use super::alu::Width;
use super::float::FRelOp;
use super::pure::FBitOp;
use super::pure::PureOp;
use super::trunc_sat::TruncSize;
use crate::execution::errors::VMState;
use crate::execution::value::ValInst;
use crate::execution::vm::spec_pure_op;
use crate::execution::vm::stacks_are;
use crate::execution::vm::VM;

verus! {

impl VM {
    /// `i32.const`.
    pub fn i32_const(&mut self, v: i32) -> (r: VMState)
        ensures
            final(self).same_instance(old(self)),
            stacks_are(
                old(self).stacks(),
                spec_pure_op(old(self).stacks(), PureOp::Const(ValInst::I32(v))),
                r,
                final(self).stacks(),
            ),
    {
        self.pure_op(PureOp::Const(ValInst::I32(v)))
    }

    /// `i64.const`.
    pub fn i64_const(&mut self, v: i64) -> (r: VMState)
        ensures
            final(self).same_instance(old(self)),
            stacks_are(
                old(self).stacks(),
                spec_pure_op(old(self).stacks(), PureOp::Const(ValInst::I64(v))),
                r,
                final(self).stacks(),
            ),
    {
        self.pure_op(PureOp::Const(ValInst::I64(v)))
    }

    /// `f32.const`, the constant given by its bits.
    pub fn f32_const(&mut self, v: u32) -> (r: VMState)
        ensures
            final(self).same_instance(old(self)),
            stacks_are(
                old(self).stacks(),
                spec_pure_op(old(self).stacks(), PureOp::Const(ValInst::F32(v))),
                r,
                final(self).stacks(),
            ),
    {
        self.pure_op(PureOp::Const(ValInst::F32(v)))
    }

    /// `f64.const`, the constant given by its bits.
    pub fn f64_const(&mut self, v: u64) -> (r: VMState)
        ensures
            final(self).same_instance(old(self)),
            stacks_are(
                old(self).stacks(),
                spec_pure_op(old(self).stacks(), PureOp::Const(ValInst::F64(v))),
                r,
                final(self).stacks(),
            ),
    {
        self.pure_op(PureOp::Const(ValInst::F64(v)))
    }

    /// `i32.eqz`.
    pub fn i32_eqz(&mut self) -> (r: VMState)
        ensures
            final(self).same_instance(old(self)),
            stacks_are(
                old(self).stacks(),
                spec_pure_op(old(self).stacks(), PureOp::IEqz(Width::W32)),
                r,
                final(self).stacks(),
            ),
    {
        self.pure_op(PureOp::IEqz(Width::W32))
    }

    /// `i32.eq`.
    pub fn i32_eq(&mut self) -> (r: VMState)
        ensures
            final(self).same_instance(old(self)),
            stacks_are(
                old(self).stacks(),
                spec_pure_op(old(self).stacks(), PureOp::IRel(Width::W32, IRelOp::Eq)),
                r,
                final(self).stacks(),
            ),
    {
        self.pure_op(PureOp::IRel(Width::W32, IRelOp::Eq))
    }

    /// `i32.ne`.
    pub fn i32_ne(&mut self) -> (r: VMState)
        ensures
            final(self).same_instance(old(self)),
            stacks_are(
                old(self).stacks(),
                spec_pure_op(old(self).stacks(), PureOp::IRel(Width::W32, IRelOp::Ne)),
                r,
                final(self).stacks(),
            ),
    {
        self.pure_op(PureOp::IRel(Width::W32, IRelOp::Ne))
    }

    /// `i32.lt_s`.
    pub fn i32_lt_s(&mut self) -> (r: VMState)
        ensures
            final(self).same_instance(old(self)),
            stacks_are(
                old(self).stacks(),
                spec_pure_op(old(self).stacks(), PureOp::IRel(Width::W32, IRelOp::LtS)),
                r,
                final(self).stacks(),
            ),
    {
        self.pure_op(PureOp::IRel(Width::W32, IRelOp::LtS))
    }

    /// `i32.lt_u`.
    pub fn i32_lt_u(&mut self) -> (r: VMState)
        ensures
            final(self).same_instance(old(self)),
            stacks_are(
                old(self).stacks(),
                spec_pure_op(old(self).stacks(), PureOp::IRel(Width::W32, IRelOp::LtU)),
                r,
                final(self).stacks(),
            ),
    {
        self.pure_op(PureOp::IRel(Width::W32, IRelOp::LtU))
    }

    /// `i32.gt_s`.
    pub fn i32_gt_s(&mut self) -> (r: VMState)
        ensures
            final(self).same_instance(old(self)),
            stacks_are(
                old(self).stacks(),
                spec_pure_op(old(self).stacks(), PureOp::IRel(Width::W32, IRelOp::GtS)),
                r,
                final(self).stacks(),
            ),
    {
        self.pure_op(PureOp::IRel(Width::W32, IRelOp::GtS))
    }

    /// `i32.gt_u`.
    pub fn i32_gt_u(&mut self) -> (r: VMState)
        ensures
            final(self).same_instance(old(self)),
            stacks_are(
                old(self).stacks(),
                spec_pure_op(old(self).stacks(), PureOp::IRel(Width::W32, IRelOp::GtU)),
                r,
                final(self).stacks(),
            ),
    {
        self.pure_op(PureOp::IRel(Width::W32, IRelOp::GtU))
    }

    /// `i32.le_s`.
    pub fn i32_le_s(&mut self) -> (r: VMState)
        ensures
            final(self).same_instance(old(self)),
            stacks_are(
                old(self).stacks(),
                spec_pure_op(old(self).stacks(), PureOp::IRel(Width::W32, IRelOp::LeS)),
                r,
                final(self).stacks(),
            ),
    {
        self.pure_op(PureOp::IRel(Width::W32, IRelOp::LeS))
    }

    /// `i32.le_u`.
    pub fn i32_le_u(&mut self) -> (r: VMState)
        ensures
            final(self).same_instance(old(self)),
            stacks_are(
                old(self).stacks(),
                spec_pure_op(old(self).stacks(), PureOp::IRel(Width::W32, IRelOp::LeU)),
                r,
                final(self).stacks(),
            ),
    {
        self.pure_op(PureOp::IRel(Width::W32, IRelOp::LeU))
    }

    /// `i32.ge_s`.
    pub fn i32_ge_s(&mut self) -> (r: VMState)
        ensures
            final(self).same_instance(old(self)),
            stacks_are(
                old(self).stacks(),
                spec_pure_op(old(self).stacks(), PureOp::IRel(Width::W32, IRelOp::GeS)),
                r,
                final(self).stacks(),
            ),
    {
        self.pure_op(PureOp::IRel(Width::W32, IRelOp::GeS))
    }

    /// `i32.ge_u`.
    pub fn i32_ge_u(&mut self) -> (r: VMState)
        ensures
            final(self).same_instance(old(self)),
            stacks_are(
                old(self).stacks(),
                spec_pure_op(old(self).stacks(), PureOp::IRel(Width::W32, IRelOp::GeU)),
                r,
                final(self).stacks(),
            ),
    {
        self.pure_op(PureOp::IRel(Width::W32, IRelOp::GeU))
    }

    /// `i64.eqz`.
    pub fn i64_eqz(&mut self) -> (r: VMState)
        ensures
            final(self).same_instance(old(self)),
            stacks_are(
                old(self).stacks(),
                spec_pure_op(old(self).stacks(), PureOp::IEqz(Width::W64)),
                r,
                final(self).stacks(),
            ),
    {
        self.pure_op(PureOp::IEqz(Width::W64))
    }

    /// `i64.eq`.
    pub fn i64_eq(&mut self) -> (r: VMState)
        ensures
            final(self).same_instance(old(self)),
            stacks_are(
                old(self).stacks(),
                spec_pure_op(old(self).stacks(), PureOp::IRel(Width::W64, IRelOp::Eq)),
                r,
                final(self).stacks(),
            ),
    {
        self.pure_op(PureOp::IRel(Width::W64, IRelOp::Eq))
    }

    /// `i64.ne`.
    pub fn i64_ne(&mut self) -> (r: VMState)
        ensures
            final(self).same_instance(old(self)),
            stacks_are(
                old(self).stacks(),
                spec_pure_op(old(self).stacks(), PureOp::IRel(Width::W64, IRelOp::Ne)),
                r,
                final(self).stacks(),
            ),
    {
        self.pure_op(PureOp::IRel(Width::W64, IRelOp::Ne))
    }

    /// `i64.lt_s`.
    pub fn i64_lt_s(&mut self) -> (r: VMState)
        ensures
            final(self).same_instance(old(self)),
            stacks_are(
                old(self).stacks(),
                spec_pure_op(old(self).stacks(), PureOp::IRel(Width::W64, IRelOp::LtS)),
                r,
                final(self).stacks(),
            ),
    {
        self.pure_op(PureOp::IRel(Width::W64, IRelOp::LtS))
    }

    /// `i64.lt_u`.
    pub fn i64_lt_u(&mut self) -> (r: VMState)
        ensures
            final(self).same_instance(old(self)),
            stacks_are(
                old(self).stacks(),
                spec_pure_op(old(self).stacks(), PureOp::IRel(Width::W64, IRelOp::LtU)),
                r,
                final(self).stacks(),
            ),
    {
        self.pure_op(PureOp::IRel(Width::W64, IRelOp::LtU))
    }

    /// `i64.gt_s`.
    pub fn i64_gt_s(&mut self) -> (r: VMState)
        ensures
            final(self).same_instance(old(self)),
            stacks_are(
                old(self).stacks(),
                spec_pure_op(old(self).stacks(), PureOp::IRel(Width::W64, IRelOp::GtS)),
                r,
                final(self).stacks(),
            ),
    {
        self.pure_op(PureOp::IRel(Width::W64, IRelOp::GtS))
    }

    /// `i64.gt_u`.
    pub fn i64_gt_u(&mut self) -> (r: VMState)
        ensures
            final(self).same_instance(old(self)),
            stacks_are(
                old(self).stacks(),
                spec_pure_op(old(self).stacks(), PureOp::IRel(Width::W64, IRelOp::GtU)),
                r,
                final(self).stacks(),
            ),
    {
        self.pure_op(PureOp::IRel(Width::W64, IRelOp::GtU))
    }

    /// `i64.le_s`.
    pub fn i64_le_s(&mut self) -> (r: VMState)
        ensures
            final(self).same_instance(old(self)),
            stacks_are(
                old(self).stacks(),
                spec_pure_op(old(self).stacks(), PureOp::IRel(Width::W64, IRelOp::LeS)),
                r,
                final(self).stacks(),
            ),
    {
        self.pure_op(PureOp::IRel(Width::W64, IRelOp::LeS))
    }

    /// `i64.le_u`.
    pub fn i64_le_u(&mut self) -> (r: VMState)
        ensures
            final(self).same_instance(old(self)),
            stacks_are(
                old(self).stacks(),
                spec_pure_op(old(self).stacks(), PureOp::IRel(Width::W64, IRelOp::LeU)),
                r,
                final(self).stacks(),
            ),
    {
        self.pure_op(PureOp::IRel(Width::W64, IRelOp::LeU))
    }

    /// `i64.ge_s`.
    pub fn i64_ge_s(&mut self) -> (r: VMState)
        ensures
            final(self).same_instance(old(self)),
            stacks_are(
                old(self).stacks(),
                spec_pure_op(old(self).stacks(), PureOp::IRel(Width::W64, IRelOp::GeS)),
                r,
                final(self).stacks(),
            ),
    {
        self.pure_op(PureOp::IRel(Width::W64, IRelOp::GeS))
    }

    /// `i64.ge_u`.
    pub fn i64_ge_u(&mut self) -> (r: VMState)
        ensures
            final(self).same_instance(old(self)),
            stacks_are(
                old(self).stacks(),
                spec_pure_op(old(self).stacks(), PureOp::IRel(Width::W64, IRelOp::GeU)),
                r,
                final(self).stacks(),
            ),
    {
        self.pure_op(PureOp::IRel(Width::W64, IRelOp::GeU))
    }

    /// `f32.eq`.
    pub fn f32_eq(&mut self) -> (r: VMState)
        ensures
            final(self).same_instance(old(self)),
            stacks_are(
                old(self).stacks(),
                spec_pure_op(old(self).stacks(), PureOp::FRel(Width::W32, FRelOp::Eq)),
                r,
                final(self).stacks(),
            ),
    {
        self.pure_op(PureOp::FRel(Width::W32, FRelOp::Eq))
    }

    /// `f32.ne`.
    pub fn f32_ne(&mut self) -> (r: VMState)
        ensures
            final(self).same_instance(old(self)),
            stacks_are(
                old(self).stacks(),
                spec_pure_op(old(self).stacks(), PureOp::FRel(Width::W32, FRelOp::Ne)),
                r,
                final(self).stacks(),
            ),
    {
        self.pure_op(PureOp::FRel(Width::W32, FRelOp::Ne))
    }

    /// `f32.lt`.
    pub fn f32_lt(&mut self) -> (r: VMState)
        ensures
            final(self).same_instance(old(self)),
            stacks_are(
                old(self).stacks(),
                spec_pure_op(old(self).stacks(), PureOp::FRel(Width::W32, FRelOp::Lt)),
                r,
                final(self).stacks(),
            ),
    {
        self.pure_op(PureOp::FRel(Width::W32, FRelOp::Lt))
    }

    /// `f32.gt`.
    pub fn f32_gt(&mut self) -> (r: VMState)
        ensures
            final(self).same_instance(old(self)),
            stacks_are(
                old(self).stacks(),
                spec_pure_op(old(self).stacks(), PureOp::FRel(Width::W32, FRelOp::Gt)),
                r,
                final(self).stacks(),
            ),
    {
        self.pure_op(PureOp::FRel(Width::W32, FRelOp::Gt))
    }

    /// `f32.le`.
    pub fn f32_le(&mut self) -> (r: VMState)
        ensures
            final(self).same_instance(old(self)),
            stacks_are(
                old(self).stacks(),
                spec_pure_op(old(self).stacks(), PureOp::FRel(Width::W32, FRelOp::Le)),
                r,
                final(self).stacks(),
            ),
    {
        self.pure_op(PureOp::FRel(Width::W32, FRelOp::Le))
    }

    /// `f32.ge`.
    pub fn f32_ge(&mut self) -> (r: VMState)
        ensures
            final(self).same_instance(old(self)),
            stacks_are(
                old(self).stacks(),
                spec_pure_op(old(self).stacks(), PureOp::FRel(Width::W32, FRelOp::Ge)),
                r,
                final(self).stacks(),
            ),
    {
        self.pure_op(PureOp::FRel(Width::W32, FRelOp::Ge))
    }

    /// `f64.eq`.
    pub fn f64_eq(&mut self) -> (r: VMState)
        ensures
            final(self).same_instance(old(self)),
            stacks_are(
                old(self).stacks(),
                spec_pure_op(old(self).stacks(), PureOp::FRel(Width::W64, FRelOp::Eq)),
                r,
                final(self).stacks(),
            ),
    {
        self.pure_op(PureOp::FRel(Width::W64, FRelOp::Eq))
    }

    /// `f64.ne`.
    pub fn f64_ne(&mut self) -> (r: VMState)
        ensures
            final(self).same_instance(old(self)),
            stacks_are(
                old(self).stacks(),
                spec_pure_op(old(self).stacks(), PureOp::FRel(Width::W64, FRelOp::Ne)),
                r,
                final(self).stacks(),
            ),
    {
        self.pure_op(PureOp::FRel(Width::W64, FRelOp::Ne))
    }

    /// `f64.lt`.
    pub fn f64_lt(&mut self) -> (r: VMState)
        ensures
            final(self).same_instance(old(self)),
            stacks_are(
                old(self).stacks(),
                spec_pure_op(old(self).stacks(), PureOp::FRel(Width::W64, FRelOp::Lt)),
                r,
                final(self).stacks(),
            ),
    {
        self.pure_op(PureOp::FRel(Width::W64, FRelOp::Lt))
    }

    /// `f64.gt`.
    pub fn f64_gt(&mut self) -> (r: VMState)
        ensures
            final(self).same_instance(old(self)),
            stacks_are(
                old(self).stacks(),
                spec_pure_op(old(self).stacks(), PureOp::FRel(Width::W64, FRelOp::Gt)),
                r,
                final(self).stacks(),
            ),
    {
        self.pure_op(PureOp::FRel(Width::W64, FRelOp::Gt))
    }

    /// `f64.le`.
    pub fn f64_le(&mut self) -> (r: VMState)
        ensures
            final(self).same_instance(old(self)),
            stacks_are(
                old(self).stacks(),
                spec_pure_op(old(self).stacks(), PureOp::FRel(Width::W64, FRelOp::Le)),
                r,
                final(self).stacks(),
            ),
    {
        self.pure_op(PureOp::FRel(Width::W64, FRelOp::Le))
    }

    /// `f64.ge`.
    pub fn f64_ge(&mut self) -> (r: VMState)
        ensures
            final(self).same_instance(old(self)),
            stacks_are(
                old(self).stacks(),
                spec_pure_op(old(self).stacks(), PureOp::FRel(Width::W64, FRelOp::Ge)),
                r,
                final(self).stacks(),
            ),
    {
        self.pure_op(PureOp::FRel(Width::W64, FRelOp::Ge))
    }

    /// `i32.clz`.
    pub fn i32_clz(&mut self) -> (r: VMState)
        ensures
            final(self).same_instance(old(self)),
            stacks_are(
                old(self).stacks(),
                spec_pure_op(old(self).stacks(), PureOp::IUn(Width::W32, IUnOp::Clz)),
                r,
                final(self).stacks(),
            ),
    {
        self.pure_op(PureOp::IUn(Width::W32, IUnOp::Clz))
    }

    /// `i32.ctz`.
    pub fn i32_ctz(&mut self) -> (r: VMState)
        ensures
            final(self).same_instance(old(self)),
            stacks_are(
                old(self).stacks(),
                spec_pure_op(old(self).stacks(), PureOp::IUn(Width::W32, IUnOp::Ctz)),
                r,
                final(self).stacks(),
            ),
    {
        self.pure_op(PureOp::IUn(Width::W32, IUnOp::Ctz))
    }

    /// `i32.popcnt`.
    pub fn i32_popcnt(&mut self) -> (r: VMState)
        ensures
            final(self).same_instance(old(self)),
            stacks_are(
                old(self).stacks(),
                spec_pure_op(old(self).stacks(), PureOp::IUn(Width::W32, IUnOp::Popcnt)),
                r,
                final(self).stacks(),
            ),
    {
        self.pure_op(PureOp::IUn(Width::W32, IUnOp::Popcnt))
    }

    /// `i32.add`.
    pub fn i32_add(&mut self) -> (r: VMState)
        ensures
            final(self).same_instance(old(self)),
            stacks_are(
                old(self).stacks(),
                spec_pure_op(old(self).stacks(), PureOp::IBin(Width::W32, IBinOp::Add)),
                r,
                final(self).stacks(),
            ),
    {
        self.pure_op(PureOp::IBin(Width::W32, IBinOp::Add))
    }

    /// `i32.sub`.
    pub fn i32_sub(&mut self) -> (r: VMState)
        ensures
            final(self).same_instance(old(self)),
            stacks_are(
                old(self).stacks(),
                spec_pure_op(old(self).stacks(), PureOp::IBin(Width::W32, IBinOp::Sub)),
                r,
                final(self).stacks(),
            ),
    {
        self.pure_op(PureOp::IBin(Width::W32, IBinOp::Sub))
    }

    /// `i32.mul`.
    pub fn i32_mul(&mut self) -> (r: VMState)
        ensures
            final(self).same_instance(old(self)),
            stacks_are(
                old(self).stacks(),
                spec_pure_op(old(self).stacks(), PureOp::IBin(Width::W32, IBinOp::Mul)),
                r,
                final(self).stacks(),
            ),
    {
        self.pure_op(PureOp::IBin(Width::W32, IBinOp::Mul))
    }

    /// `i32.div_s`.
    pub fn i32_div_s(&mut self) -> (r: VMState)
        ensures
            final(self).same_instance(old(self)),
            stacks_are(
                old(self).stacks(),
                spec_pure_op(old(self).stacks(), PureOp::IBin(Width::W32, IBinOp::DivS)),
                r,
                final(self).stacks(),
            ),
    {
        self.pure_op(PureOp::IBin(Width::W32, IBinOp::DivS))
    }

    /// `i32.div_u`.
    pub fn i32_div_u(&mut self) -> (r: VMState)
        ensures
            final(self).same_instance(old(self)),
            stacks_are(
                old(self).stacks(),
                spec_pure_op(old(self).stacks(), PureOp::IBin(Width::W32, IBinOp::DivU)),
                r,
                final(self).stacks(),
            ),
    {
        self.pure_op(PureOp::IBin(Width::W32, IBinOp::DivU))
    }

    /// `i32.rem_s`.
    pub fn i32_rem_s(&mut self) -> (r: VMState)
        ensures
            final(self).same_instance(old(self)),
            stacks_are(
                old(self).stacks(),
                spec_pure_op(old(self).stacks(), PureOp::IBin(Width::W32, IBinOp::RemS)),
                r,
                final(self).stacks(),
            ),
    {
        self.pure_op(PureOp::IBin(Width::W32, IBinOp::RemS))
    }

    /// `i32.rem_u`.
    pub fn i32_rem_u(&mut self) -> (r: VMState)
        ensures
            final(self).same_instance(old(self)),
            stacks_are(
                old(self).stacks(),
                spec_pure_op(old(self).stacks(), PureOp::IBin(Width::W32, IBinOp::RemU)),
                r,
                final(self).stacks(),
            ),
    {
        self.pure_op(PureOp::IBin(Width::W32, IBinOp::RemU))
    }

    /// `i32.and`.
    pub fn i32_and(&mut self) -> (r: VMState)
        ensures
            final(self).same_instance(old(self)),
            stacks_are(
                old(self).stacks(),
                spec_pure_op(old(self).stacks(), PureOp::IBin(Width::W32, IBinOp::And)),
                r,
                final(self).stacks(),
            ),
    {
        self.pure_op(PureOp::IBin(Width::W32, IBinOp::And))
    }

    /// `i32.or`.
    pub fn i32_or(&mut self) -> (r: VMState)
        ensures
            final(self).same_instance(old(self)),
            stacks_are(
                old(self).stacks(),
                spec_pure_op(old(self).stacks(), PureOp::IBin(Width::W32, IBinOp::Or)),
                r,
                final(self).stacks(),
            ),
    {
        self.pure_op(PureOp::IBin(Width::W32, IBinOp::Or))
    }

    /// `i32.xor`.
    pub fn i32_xor(&mut self) -> (r: VMState)
        ensures
            final(self).same_instance(old(self)),
            stacks_are(
                old(self).stacks(),
                spec_pure_op(old(self).stacks(), PureOp::IBin(Width::W32, IBinOp::Xor)),
                r,
                final(self).stacks(),
            ),
    {
        self.pure_op(PureOp::IBin(Width::W32, IBinOp::Xor))
    }

    /// `i32.shl`.
    pub fn i32_shl(&mut self) -> (r: VMState)
        ensures
            final(self).same_instance(old(self)),
            stacks_are(
                old(self).stacks(),
                spec_pure_op(old(self).stacks(), PureOp::IBin(Width::W32, IBinOp::Shl)),
                r,
                final(self).stacks(),
            ),
    {
        self.pure_op(PureOp::IBin(Width::W32, IBinOp::Shl))
    }

    /// `i32.shr_s`.
    pub fn i32_shr_s(&mut self) -> (r: VMState)
        ensures
            final(self).same_instance(old(self)),
            stacks_are(
                old(self).stacks(),
                spec_pure_op(old(self).stacks(), PureOp::IBin(Width::W32, IBinOp::ShrS)),
                r,
                final(self).stacks(),
            ),
    {
        self.pure_op(PureOp::IBin(Width::W32, IBinOp::ShrS))
    }

    /// `i32.shr_u`.
    pub fn i32_shr_u(&mut self) -> (r: VMState)
        ensures
            final(self).same_instance(old(self)),
            stacks_are(
                old(self).stacks(),
                spec_pure_op(old(self).stacks(), PureOp::IBin(Width::W32, IBinOp::ShrU)),
                r,
                final(self).stacks(),
            ),
    {
        self.pure_op(PureOp::IBin(Width::W32, IBinOp::ShrU))
    }

    /// `i32.rotl`.
    pub fn i32_rotl(&mut self) -> (r: VMState)
        ensures
            final(self).same_instance(old(self)),
            stacks_are(
                old(self).stacks(),
                spec_pure_op(old(self).stacks(), PureOp::IBin(Width::W32, IBinOp::Rotl)),
                r,
                final(self).stacks(),
            ),
    {
        self.pure_op(PureOp::IBin(Width::W32, IBinOp::Rotl))
    }

    /// `i32.rotr`.
    pub fn i32_rotr(&mut self) -> (r: VMState)
        ensures
            final(self).same_instance(old(self)),
            stacks_are(
                old(self).stacks(),
                spec_pure_op(old(self).stacks(), PureOp::IBin(Width::W32, IBinOp::Rotr)),
                r,
                final(self).stacks(),
            ),
    {
        self.pure_op(PureOp::IBin(Width::W32, IBinOp::Rotr))
    }

    /// `i64.clz`.
    pub fn i64_clz(&mut self) -> (r: VMState)
        ensures
            final(self).same_instance(old(self)),
            stacks_are(
                old(self).stacks(),
                spec_pure_op(old(self).stacks(), PureOp::IUn(Width::W64, IUnOp::Clz)),
                r,
                final(self).stacks(),
            ),
    {
        self.pure_op(PureOp::IUn(Width::W64, IUnOp::Clz))
    }

    /// `i64.ctz`.
    pub fn i64_ctz(&mut self) -> (r: VMState)
        ensures
            final(self).same_instance(old(self)),
            stacks_are(
                old(self).stacks(),
                spec_pure_op(old(self).stacks(), PureOp::IUn(Width::W64, IUnOp::Ctz)),
                r,
                final(self).stacks(),
            ),
    {
        self.pure_op(PureOp::IUn(Width::W64, IUnOp::Ctz))
    }

    /// `i64.popcnt`.
    pub fn i64_popcnt(&mut self) -> (r: VMState)
        ensures
            final(self).same_instance(old(self)),
            stacks_are(
                old(self).stacks(),
                spec_pure_op(old(self).stacks(), PureOp::IUn(Width::W64, IUnOp::Popcnt)),
                r,
                final(self).stacks(),
            ),
    {
        self.pure_op(PureOp::IUn(Width::W64, IUnOp::Popcnt))
    }

    /// `i64.add`.
    pub fn i64_add(&mut self) -> (r: VMState)
        ensures
            final(self).same_instance(old(self)),
            stacks_are(
                old(self).stacks(),
                spec_pure_op(old(self).stacks(), PureOp::IBin(Width::W64, IBinOp::Add)),
                r,
                final(self).stacks(),
            ),
    {
        self.pure_op(PureOp::IBin(Width::W64, IBinOp::Add))
    }

    /// `i64.sub`.
    pub fn i64_sub(&mut self) -> (r: VMState)
        ensures
            final(self).same_instance(old(self)),
            stacks_are(
                old(self).stacks(),
                spec_pure_op(old(self).stacks(), PureOp::IBin(Width::W64, IBinOp::Sub)),
                r,
                final(self).stacks(),
            ),
    {
        self.pure_op(PureOp::IBin(Width::W64, IBinOp::Sub))
    }

    /// `i64.mul`.
    pub fn i64_mul(&mut self) -> (r: VMState)
        ensures
            final(self).same_instance(old(self)),
            stacks_are(
                old(self).stacks(),
                spec_pure_op(old(self).stacks(), PureOp::IBin(Width::W64, IBinOp::Mul)),
                r,
                final(self).stacks(),
            ),
    {
        self.pure_op(PureOp::IBin(Width::W64, IBinOp::Mul))
    }

    /// `i64.div_s`.
    pub fn i64_div_s(&mut self) -> (r: VMState)
        ensures
            final(self).same_instance(old(self)),
            stacks_are(
                old(self).stacks(),
                spec_pure_op(old(self).stacks(), PureOp::IBin(Width::W64, IBinOp::DivS)),
                r,
                final(self).stacks(),
            ),
    {
        self.pure_op(PureOp::IBin(Width::W64, IBinOp::DivS))
    }

    /// `i64.div_u`.
    pub fn i64_div_u(&mut self) -> (r: VMState)
        ensures
            final(self).same_instance(old(self)),
            stacks_are(
                old(self).stacks(),
                spec_pure_op(old(self).stacks(), PureOp::IBin(Width::W64, IBinOp::DivU)),
                r,
                final(self).stacks(),
            ),
    {
        self.pure_op(PureOp::IBin(Width::W64, IBinOp::DivU))
    }

    /// `i64.rem_s`.
    pub fn i64_rem_s(&mut self) -> (r: VMState)
        ensures
            final(self).same_instance(old(self)),
            stacks_are(
                old(self).stacks(),
                spec_pure_op(old(self).stacks(), PureOp::IBin(Width::W64, IBinOp::RemS)),
                r,
                final(self).stacks(),
            ),
    {
        self.pure_op(PureOp::IBin(Width::W64, IBinOp::RemS))
    }

    /// `i64.rem_u`.
    pub fn i64_rem_u(&mut self) -> (r: VMState)
        ensures
            final(self).same_instance(old(self)),
            stacks_are(
                old(self).stacks(),
                spec_pure_op(old(self).stacks(), PureOp::IBin(Width::W64, IBinOp::RemU)),
                r,
                final(self).stacks(),
            ),
    {
        self.pure_op(PureOp::IBin(Width::W64, IBinOp::RemU))
    }

    /// `i64.and`.
    pub fn i64_and(&mut self) -> (r: VMState)
        ensures
            final(self).same_instance(old(self)),
            stacks_are(
                old(self).stacks(),
                spec_pure_op(old(self).stacks(), PureOp::IBin(Width::W64, IBinOp::And)),
                r,
                final(self).stacks(),
            ),
    {
        self.pure_op(PureOp::IBin(Width::W64, IBinOp::And))
    }

    /// `i64.or`.
    pub fn i64_or(&mut self) -> (r: VMState)
        ensures
            final(self).same_instance(old(self)),
            stacks_are(
                old(self).stacks(),
                spec_pure_op(old(self).stacks(), PureOp::IBin(Width::W64, IBinOp::Or)),
                r,
                final(self).stacks(),
            ),
    {
        self.pure_op(PureOp::IBin(Width::W64, IBinOp::Or))
    }

    /// `i64.xor`.
    pub fn i64_xor(&mut self) -> (r: VMState)
        ensures
            final(self).same_instance(old(self)),
            stacks_are(
                old(self).stacks(),
                spec_pure_op(old(self).stacks(), PureOp::IBin(Width::W64, IBinOp::Xor)),
                r,
                final(self).stacks(),
            ),
    {
        self.pure_op(PureOp::IBin(Width::W64, IBinOp::Xor))
    }

    /// `i64.shl`.
    pub fn i64_shl(&mut self) -> (r: VMState)
        ensures
            final(self).same_instance(old(self)),
            stacks_are(
                old(self).stacks(),
                spec_pure_op(old(self).stacks(), PureOp::IBin(Width::W64, IBinOp::Shl)),
                r,
                final(self).stacks(),
            ),
    {
        self.pure_op(PureOp::IBin(Width::W64, IBinOp::Shl))
    }

    /// `i64.shr_s`.
    pub fn i64_shr_s(&mut self) -> (r: VMState)
        ensures
            final(self).same_instance(old(self)),
            stacks_are(
                old(self).stacks(),
                spec_pure_op(old(self).stacks(), PureOp::IBin(Width::W64, IBinOp::ShrS)),
                r,
                final(self).stacks(),
            ),
    {
        self.pure_op(PureOp::IBin(Width::W64, IBinOp::ShrS))
    }

    /// `i64.shr_u`.
    pub fn i64_shr_u(&mut self) -> (r: VMState)
        ensures
            final(self).same_instance(old(self)),
            stacks_are(
                old(self).stacks(),
                spec_pure_op(old(self).stacks(), PureOp::IBin(Width::W64, IBinOp::ShrU)),
                r,
                final(self).stacks(),
            ),
    {
        self.pure_op(PureOp::IBin(Width::W64, IBinOp::ShrU))
    }

    /// `i64.rotl`.
    pub fn i64_rotl(&mut self) -> (r: VMState)
        ensures
            final(self).same_instance(old(self)),
            stacks_are(
                old(self).stacks(),
                spec_pure_op(old(self).stacks(), PureOp::IBin(Width::W64, IBinOp::Rotl)),
                r,
                final(self).stacks(),
            ),
    {
        self.pure_op(PureOp::IBin(Width::W64, IBinOp::Rotl))
    }

    /// `i64.rotr`.
    pub fn i64_rotr(&mut self) -> (r: VMState)
        ensures
            final(self).same_instance(old(self)),
            stacks_are(
                old(self).stacks(),
                spec_pure_op(old(self).stacks(), PureOp::IBin(Width::W64, IBinOp::Rotr)),
                r,
                final(self).stacks(),
            ),
    {
        self.pure_op(PureOp::IBin(Width::W64, IBinOp::Rotr))
    }

    /// `f32.abs`.
    pub fn f32_abs(&mut self) -> (r: VMState)
        ensures
            final(self).same_instance(old(self)),
            stacks_are(
                old(self).stacks(),
                spec_pure_op(old(self).stacks(), PureOp::FBit(Width::W32, FBitOp::Abs)),
                r,
                final(self).stacks(),
            ),
    {
        self.pure_op(PureOp::FBit(Width::W32, FBitOp::Abs))
    }

    /// `f32.neg`.
    pub fn f32_neg(&mut self) -> (r: VMState)
        ensures
            final(self).same_instance(old(self)),
            stacks_are(
                old(self).stacks(),
                spec_pure_op(old(self).stacks(), PureOp::FBit(Width::W32, FBitOp::Neg)),
                r,
                final(self).stacks(),
            ),
    {
        self.pure_op(PureOp::FBit(Width::W32, FBitOp::Neg))
    }

    /// `f32.copysign`.
    pub fn f32_copysign(&mut self) -> (r: VMState)
        ensures
            final(self).same_instance(old(self)),
            stacks_are(
                old(self).stacks(),
                spec_pure_op(old(self).stacks(), PureOp::FBit(Width::W32, FBitOp::Copysign)),
                r,
                final(self).stacks(),
            ),
    {
        self.pure_op(PureOp::FBit(Width::W32, FBitOp::Copysign))
    }

    /// `f64.abs`.
    pub fn f64_abs(&mut self) -> (r: VMState)
        ensures
            final(self).same_instance(old(self)),
            stacks_are(
                old(self).stacks(),
                spec_pure_op(old(self).stacks(), PureOp::FBit(Width::W64, FBitOp::Abs)),
                r,
                final(self).stacks(),
            ),
    {
        self.pure_op(PureOp::FBit(Width::W64, FBitOp::Abs))
    }

    /// `f64.neg`.
    pub fn f64_neg(&mut self) -> (r: VMState)
        ensures
            final(self).same_instance(old(self)),
            stacks_are(
                old(self).stacks(),
                spec_pure_op(old(self).stacks(), PureOp::FBit(Width::W64, FBitOp::Neg)),
                r,
                final(self).stacks(),
            ),
    {
        self.pure_op(PureOp::FBit(Width::W64, FBitOp::Neg))
    }

    /// `f64.copysign`.
    pub fn f64_copysign(&mut self) -> (r: VMState)
        ensures
            final(self).same_instance(old(self)),
            stacks_are(
                old(self).stacks(),
                spec_pure_op(old(self).stacks(), PureOp::FBit(Width::W64, FBitOp::Copysign)),
                r,
                final(self).stacks(),
            ),
    {
        self.pure_op(PureOp::FBit(Width::W64, FBitOp::Copysign))
    }

    /// `i32.wrap_i64`.
    pub fn i32_wrap_i64(&mut self) -> (r: VMState)
        ensures
            final(self).same_instance(old(self)),
            stacks_are(
                old(self).stacks(),
                spec_pure_op(old(self).stacks(), PureOp::Wrap),
                r,
                final(self).stacks(),
            ),
    {
        self.pure_op(PureOp::Wrap)
    }

    /// `i32.trunc_f32_s`.
    pub fn i32_trunc_f32_s(&mut self) -> (r: VMState)
        ensures
            final(self).same_instance(old(self)),
            stacks_are(
                old(self).stacks(),
                spec_pure_op(old(self).stacks(), PureOp::Trunc(Width::W32, TruncSize::N32, true, false)),
                r,
                final(self).stacks(),
            ),
    {
        self.pure_op(PureOp::Trunc(Width::W32, TruncSize::N32, true, false))
    }

    /// `i32.trunc_f32_u`.
    pub fn i32_trunc_f32_u(&mut self) -> (r: VMState)
        ensures
            final(self).same_instance(old(self)),
            stacks_are(
                old(self).stacks(),
                spec_pure_op(old(self).stacks(), PureOp::Trunc(Width::W32, TruncSize::N32, false, false)),
                r,
                final(self).stacks(),
            ),
    {
        self.pure_op(PureOp::Trunc(Width::W32, TruncSize::N32, false, false))
    }

    /// `i32.trunc_f64_s`.
    pub fn i32_trunc_f64_s(&mut self) -> (r: VMState)
        ensures
            final(self).same_instance(old(self)),
            stacks_are(
                old(self).stacks(),
                spec_pure_op(old(self).stacks(), PureOp::Trunc(Width::W64, TruncSize::N32, true, false)),
                r,
                final(self).stacks(),
            ),
    {
        self.pure_op(PureOp::Trunc(Width::W64, TruncSize::N32, true, false))
    }

    /// `i32.trunc_f64_u`.
    pub fn i32_trunc_f64_u(&mut self) -> (r: VMState)
        ensures
            final(self).same_instance(old(self)),
            stacks_are(
                old(self).stacks(),
                spec_pure_op(old(self).stacks(), PureOp::Trunc(Width::W64, TruncSize::N32, false, false)),
                r,
                final(self).stacks(),
            ),
    {
        self.pure_op(PureOp::Trunc(Width::W64, TruncSize::N32, false, false))
    }

    /// `i64.extend_i32_s`.
    pub fn i64_extend_i32_s(&mut self) -> (r: VMState)
        ensures
            final(self).same_instance(old(self)),
            stacks_are(
                old(self).stacks(),
                spec_pure_op(old(self).stacks(), PureOp::Extend(true)),
                r,
                final(self).stacks(),
            ),
    {
        self.pure_op(PureOp::Extend(true))
    }

    /// `i64.extend_i32_u`.
    pub fn i64_extend_i32_u(&mut self) -> (r: VMState)
        ensures
            final(self).same_instance(old(self)),
            stacks_are(
                old(self).stacks(),
                spec_pure_op(old(self).stacks(), PureOp::Extend(false)),
                r,
                final(self).stacks(),
            ),
    {
        self.pure_op(PureOp::Extend(false))
    }

    /// `i64.trunc_f32_s`.
    pub fn i64_trunc_f32_s(&mut self) -> (r: VMState)
        ensures
            final(self).same_instance(old(self)),
            stacks_are(
                old(self).stacks(),
                spec_pure_op(old(self).stacks(), PureOp::Trunc(Width::W32, TruncSize::N64, true, false)),
                r,
                final(self).stacks(),
            ),
    {
        self.pure_op(PureOp::Trunc(Width::W32, TruncSize::N64, true, false))
    }

    /// `i64.trunc_f32_u`.
    pub fn i64_trunc_f32_u(&mut self) -> (r: VMState)
        ensures
            final(self).same_instance(old(self)),
            stacks_are(
                old(self).stacks(),
                spec_pure_op(old(self).stacks(), PureOp::Trunc(Width::W32, TruncSize::N64, false, false)),
                r,
                final(self).stacks(),
            ),
    {
        self.pure_op(PureOp::Trunc(Width::W32, TruncSize::N64, false, false))
    }

    /// `i64.trunc_f64_s`.
    pub fn i64_trunc_f64_s(&mut self) -> (r: VMState)
        ensures
            final(self).same_instance(old(self)),
            stacks_are(
                old(self).stacks(),
                spec_pure_op(old(self).stacks(), PureOp::Trunc(Width::W64, TruncSize::N64, true, false)),
                r,
                final(self).stacks(),
            ),
    {
        self.pure_op(PureOp::Trunc(Width::W64, TruncSize::N64, true, false))
    }

    /// `i64.trunc_f64_u`.
    pub fn i64_trunc_f64_u(&mut self) -> (r: VMState)
        ensures
            final(self).same_instance(old(self)),
            stacks_are(
                old(self).stacks(),
                spec_pure_op(old(self).stacks(), PureOp::Trunc(Width::W64, TruncSize::N64, false, false)),
                r,
                final(self).stacks(),
            ),
    {
        self.pure_op(PureOp::Trunc(Width::W64, TruncSize::N64, false, false))
    }

    /// `i32.reinterpret_f32`.
    pub fn i32_reinterpret_f32(&mut self) -> (r: VMState)
        ensures
            final(self).same_instance(old(self)),
            stacks_are(
                old(self).stacks(),
                spec_pure_op(old(self).stacks(), PureOp::FloatBits(Width::W32)),
                r,
                final(self).stacks(),
            ),
    {
        self.pure_op(PureOp::FloatBits(Width::W32))
    }

    /// `i64.reinterpret_f64`.
    pub fn i64_reinterpret_f64(&mut self) -> (r: VMState)
        ensures
            final(self).same_instance(old(self)),
            stacks_are(
                old(self).stacks(),
                spec_pure_op(old(self).stacks(), PureOp::FloatBits(Width::W64)),
                r,
                final(self).stacks(),
            ),
    {
        self.pure_op(PureOp::FloatBits(Width::W64))
    }

    /// `f32.reinterpret_i32`.
    pub fn f32_reinterpret_i32(&mut self) -> (r: VMState)
        ensures
            final(self).same_instance(old(self)),
            stacks_are(
                old(self).stacks(),
                spec_pure_op(old(self).stacks(), PureOp::BitsFloat(Width::W32)),
                r,
                final(self).stacks(),
            ),
    {
        self.pure_op(PureOp::BitsFloat(Width::W32))
    }

    /// `f64.reinterpret_i64`.
    pub fn f64_reinterpret_i64(&mut self) -> (r: VMState)
        ensures
            final(self).same_instance(old(self)),
            stacks_are(
                old(self).stacks(),
                spec_pure_op(old(self).stacks(), PureOp::BitsFloat(Width::W64)),
                r,
                final(self).stacks(),
            ),
    {
        self.pure_op(PureOp::BitsFloat(Width::W64))
    }

    /// `i32.extend8_s`.
    pub fn i32_extend8_s(&mut self) -> (r: VMState)
        ensures
            final(self).same_instance(old(self)),
            stacks_are(
                old(self).stacks(),
                spec_pure_op(old(self).stacks(), PureOp::IUn(Width::W32, IUnOp::Extend8S)),
                r,
                final(self).stacks(),
            ),
    {
        self.pure_op(PureOp::IUn(Width::W32, IUnOp::Extend8S))
    }

    /// `i32.extend16_s`.
    pub fn i32_extend16_s(&mut self) -> (r: VMState)
        ensures
            final(self).same_instance(old(self)),
            stacks_are(
                old(self).stacks(),
                spec_pure_op(old(self).stacks(), PureOp::IUn(Width::W32, IUnOp::Extend16S)),
                r,
                final(self).stacks(),
            ),
    {
        self.pure_op(PureOp::IUn(Width::W32, IUnOp::Extend16S))
    }

    /// `i64.extend8_s`.
    pub fn i64_extend8_s(&mut self) -> (r: VMState)
        ensures
            final(self).same_instance(old(self)),
            stacks_are(
                old(self).stacks(),
                spec_pure_op(old(self).stacks(), PureOp::IUn(Width::W64, IUnOp::Extend8S)),
                r,
                final(self).stacks(),
            ),
    {
        self.pure_op(PureOp::IUn(Width::W64, IUnOp::Extend8S))
    }

    /// `i64.extend16_s`.
    pub fn i64_extend16_s(&mut self) -> (r: VMState)
        ensures
            final(self).same_instance(old(self)),
            stacks_are(
                old(self).stacks(),
                spec_pure_op(old(self).stacks(), PureOp::IUn(Width::W64, IUnOp::Extend16S)),
                r,
                final(self).stacks(),
            ),
    {
        self.pure_op(PureOp::IUn(Width::W64, IUnOp::Extend16S))
    }

    /// `i64.extend32_s`.
    pub fn i64_extend32_s(&mut self) -> (r: VMState)
        ensures
            final(self).same_instance(old(self)),
            stacks_are(
                old(self).stacks(),
                spec_pure_op(old(self).stacks(), PureOp::IUn(Width::W64, IUnOp::Extend32S)),
                r,
                final(self).stacks(),
            ),
    {
        self.pure_op(PureOp::IUn(Width::W64, IUnOp::Extend32S))
    }

    /// `i32.trunc_sat_f32_s`.
    pub fn i32_trunc_sat_f32_s(&mut self) -> (r: VMState)
        ensures
            final(self).same_instance(old(self)),
            stacks_are(
                old(self).stacks(),
                spec_pure_op(old(self).stacks(), PureOp::Trunc(Width::W32, TruncSize::N32, true, true)),
                r,
                final(self).stacks(),
            ),
    {
        self.pure_op(PureOp::Trunc(Width::W32, TruncSize::N32, true, true))
    }

    /// `i32.trunc_sat_f32_u`.
    pub fn i32_trunc_sat_f32_u(&mut self) -> (r: VMState)
        ensures
            final(self).same_instance(old(self)),
            stacks_are(
                old(self).stacks(),
                spec_pure_op(old(self).stacks(), PureOp::Trunc(Width::W32, TruncSize::N32, false, true)),
                r,
                final(self).stacks(),
            ),
    {
        self.pure_op(PureOp::Trunc(Width::W32, TruncSize::N32, false, true))
    }

    /// `i32.trunc_sat_f64_s`.
    pub fn i32_trunc_sat_f64_s(&mut self) -> (r: VMState)
        ensures
            final(self).same_instance(old(self)),
            stacks_are(
                old(self).stacks(),
                spec_pure_op(old(self).stacks(), PureOp::Trunc(Width::W64, TruncSize::N32, true, true)),
                r,
                final(self).stacks(),
            ),
    {
        self.pure_op(PureOp::Trunc(Width::W64, TruncSize::N32, true, true))
    }

    /// `i32.trunc_sat_f64_u`.
    pub fn i32_trunc_sat_f64_u(&mut self) -> (r: VMState)
        ensures
            final(self).same_instance(old(self)),
            stacks_are(
                old(self).stacks(),
                spec_pure_op(old(self).stacks(), PureOp::Trunc(Width::W64, TruncSize::N32, false, true)),
                r,
                final(self).stacks(),
            ),
    {
        self.pure_op(PureOp::Trunc(Width::W64, TruncSize::N32, false, true))
    }

    /// `i64.trunc_sat_f32_s`.
    pub fn i64_trunc_sat_f32_s(&mut self) -> (r: VMState)
        ensures
            final(self).same_instance(old(self)),
            stacks_are(
                old(self).stacks(),
                spec_pure_op(old(self).stacks(), PureOp::Trunc(Width::W32, TruncSize::N64, true, true)),
                r,
                final(self).stacks(),
            ),
    {
        self.pure_op(PureOp::Trunc(Width::W32, TruncSize::N64, true, true))
    }

    /// `i64.trunc_sat_f32_u`.
    pub fn i64_trunc_sat_f32_u(&mut self) -> (r: VMState)
        ensures
            final(self).same_instance(old(self)),
            stacks_are(
                old(self).stacks(),
                spec_pure_op(old(self).stacks(), PureOp::Trunc(Width::W32, TruncSize::N64, false, true)),
                r,
                final(self).stacks(),
            ),
    {
        self.pure_op(PureOp::Trunc(Width::W32, TruncSize::N64, false, true))
    }

    /// `i64.trunc_sat_f64_s`.
    pub fn i64_trunc_sat_f64_s(&mut self) -> (r: VMState)
        ensures
            final(self).same_instance(old(self)),
            stacks_are(
                old(self).stacks(),
                spec_pure_op(old(self).stacks(), PureOp::Trunc(Width::W64, TruncSize::N64, true, true)),
                r,
                final(self).stacks(),
            ),
    {
        self.pure_op(PureOp::Trunc(Width::W64, TruncSize::N64, true, true))
    }

    /// `i64.trunc_sat_f64_u`.
    pub fn i64_trunc_sat_f64_u(&mut self) -> (r: VMState)
        ensures
            final(self).same_instance(old(self)),
            stacks_are(
                old(self).stacks(),
                spec_pure_op(old(self).stacks(), PureOp::Trunc(Width::W64, TruncSize::N64, false, true)),
                r,
                final(self).stacks(),
            ),
    {
        self.pure_op(PureOp::Trunc(Width::W64, TruncSize::N64, false, true))
    }
}

} // verus!
