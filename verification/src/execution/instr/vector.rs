//! The vector instructions by name: lanewise integer arithmetic, lane
//! access, the bitwise operations, and the loads and stores of vectors.

use vstd::prelude::*;

use super::alu::IBinOp;
use super::alu::IRelOp;
use super::alu::IUnOp;
use super::float::FRelOp;
use super::lanes::LaneBinOp;
use super::lanes::MixOp;
use super::lanes::Shape;
use super::memory::spec_load;
use super::memory::spec_load_lane;
use super::memory::Load;
use super::memory::StoreOp;
use super::pure::FBitOp;
use super::pure::LaneGet;
use super::pure::PureOp;
use super::pure::VBitOp;
use super::alu::Width;
use crate::binary::instruction::Lane16;
use crate::binary::instruction::LaneIdx;
use crate::binary::instruction::MemoryArg;
use crate::execution::errors::VMState;
use crate::execution::value::spec_v128_from_bytes;
use crate::execution::value::v128;
use crate::execution::value::ValInst;
use crate::execution::vm::spec_pure_op;
use crate::execution::vm::stacks_are;
use crate::execution::vm::Store;
use crate::execution::vm::VM;

verus! {

impl VM {
    /// `v128.load`.
    pub fn v128_load(&mut self, store: &Store, memarg: &MemoryArg) -> (r: VMState)
        ensures
            final(self).same_instance(old(self)),
            stacks_are(
                old(self).stacks(),
                spec_load(*old(self), store, Load::V128, *memarg),
                r,
                final(self).stacks(),
            ),
    {
        self.load(store, Load::V128, memarg)
    }

    /// `v128.load8x8_s`.
    pub fn v128_load8x8_s(&mut self, store: &Store, memarg: &MemoryArg) -> (r: VMState)
        ensures
            final(self).same_instance(old(self)),
            stacks_are(
                old(self).stacks(),
                spec_load(*old(self), store, Load::Extend(Shape::I16x8, true), *memarg),
                r,
                final(self).stacks(),
            ),
    {
        self.load(store, Load::Extend(Shape::I16x8, true), memarg)
    }

    /// `v128.load8x8_u`.
    pub fn v128_load8x8_u(&mut self, store: &Store, memarg: &MemoryArg) -> (r: VMState)
        ensures
            final(self).same_instance(old(self)),
            stacks_are(
                old(self).stacks(),
                spec_load(*old(self), store, Load::Extend(Shape::I16x8, false), *memarg),
                r,
                final(self).stacks(),
            ),
    {
        self.load(store, Load::Extend(Shape::I16x8, false), memarg)
    }

    /// `v128.load16x4_s`.
    pub fn v128_load16x4_s(&mut self, store: &Store, memarg: &MemoryArg) -> (r: VMState)
        ensures
            final(self).same_instance(old(self)),
            stacks_are(
                old(self).stacks(),
                spec_load(*old(self), store, Load::Extend(Shape::I32x4, true), *memarg),
                r,
                final(self).stacks(),
            ),
    {
        self.load(store, Load::Extend(Shape::I32x4, true), memarg)
    }

    /// `v128.load16x4_u`.
    pub fn v128_load16x4_u(&mut self, store: &Store, memarg: &MemoryArg) -> (r: VMState)
        ensures
            final(self).same_instance(old(self)),
            stacks_are(
                old(self).stacks(),
                spec_load(*old(self), store, Load::Extend(Shape::I32x4, false), *memarg),
                r,
                final(self).stacks(),
            ),
    {
        self.load(store, Load::Extend(Shape::I32x4, false), memarg)
    }

    /// `v128.load32x2_s`.
    pub fn v128_load32x2_s(&mut self, store: &Store, memarg: &MemoryArg) -> (r: VMState)
        ensures
            final(self).same_instance(old(self)),
            stacks_are(
                old(self).stacks(),
                spec_load(*old(self), store, Load::Extend(Shape::I64x2, true), *memarg),
                r,
                final(self).stacks(),
            ),
    {
        self.load(store, Load::Extend(Shape::I64x2, true), memarg)
    }

    /// `v128.load32x2_u`.
    pub fn v128_load32x2_u(&mut self, store: &Store, memarg: &MemoryArg) -> (r: VMState)
        ensures
            final(self).same_instance(old(self)),
            stacks_are(
                old(self).stacks(),
                spec_load(*old(self), store, Load::Extend(Shape::I64x2, false), *memarg),
                r,
                final(self).stacks(),
            ),
    {
        self.load(store, Load::Extend(Shape::I64x2, false), memarg)
    }

    /// `v128.load8_splat`.
    pub fn v128_load8_splat(&mut self, store: &Store, memarg: &MemoryArg) -> (r: VMState)
        ensures
            final(self).same_instance(old(self)),
            stacks_are(
                old(self).stacks(),
                spec_load(*old(self), store, Load::Splat(Shape::I8x16), *memarg),
                r,
                final(self).stacks(),
            ),
    {
        self.load(store, Load::Splat(Shape::I8x16), memarg)
    }

    /// `v128.load16_splat`.
    pub fn v128_load16_splat(&mut self, store: &Store, memarg: &MemoryArg) -> (r: VMState)
        ensures
            final(self).same_instance(old(self)),
            stacks_are(
                old(self).stacks(),
                spec_load(*old(self), store, Load::Splat(Shape::I16x8), *memarg),
                r,
                final(self).stacks(),
            ),
    {
        self.load(store, Load::Splat(Shape::I16x8), memarg)
    }

    /// `v128.load32_splat`.
    pub fn v128_load32_splat(&mut self, store: &Store, memarg: &MemoryArg) -> (r: VMState)
        ensures
            final(self).same_instance(old(self)),
            stacks_are(
                old(self).stacks(),
                spec_load(*old(self), store, Load::Splat(Shape::I32x4), *memarg),
                r,
                final(self).stacks(),
            ),
    {
        self.load(store, Load::Splat(Shape::I32x4), memarg)
    }

    /// `v128.load64_splat`.
    pub fn v128_load64_splat(&mut self, store: &Store, memarg: &MemoryArg) -> (r: VMState)
        ensures
            final(self).same_instance(old(self)),
            stacks_are(
                old(self).stacks(),
                spec_load(*old(self), store, Load::Splat(Shape::I64x2), *memarg),
                r,
                final(self).stacks(),
            ),
    {
        self.load(store, Load::Splat(Shape::I64x2), memarg)
    }

    /// `v128.store`.
    pub fn v128_store(&mut self, store: &mut Store, memarg: &MemoryArg) -> (r: VMState)
        ensures
            Self::store_post(
                *old(self),
                old(store),
                r,
                *final(self),
                final(store),
                StoreOp::V128,
                *memarg,
            ),
    {
        self.store(store, StoreOp::V128, memarg)
    }

    /// `v128.const`.
    pub fn v128_const(&mut self, v: v128) -> (r: VMState)
        ensures
            final(self).same_instance(old(self)),
            stacks_are(
                old(self).stacks(),
                spec_pure_op(old(self).stacks(), PureOp::Const(ValInst::V128(v))),
                r,
                final(self).stacks(),
            ),
    {
        self.pure_op(PureOp::Const(ValInst::V128(v)))
    }

    /// `i8x16.shuffle`.
    pub fn i8x16_shuffle(&mut self, lane_16: Lane16) -> (r: VMState)
        ensures
            final(self).same_instance(old(self)),
            stacks_are(
                old(self).stacks(),
                spec_pure_op(old(self).stacks(), PureOp::VShuffle(spec_v128_from_bytes(lane_16@))),
                r,
                final(self).stacks(),
            ),
    {
        self.pure_op(PureOp::VShuffle(v128::new(lane_16)))
    }

    /// `i8x16.swizzle`.
    pub fn i8x16_swizzle(&mut self) -> (r: VMState)
        ensures
            final(self).same_instance(old(self)),
            stacks_are(
                old(self).stacks(),
                spec_pure_op(old(self).stacks(), PureOp::VMix(MixOp::Swizzle)),
                r,
                final(self).stacks(),
            ),
    {
        self.pure_op(PureOp::VMix(MixOp::Swizzle))
    }

    /// `i8x16.splat`.
    pub fn i8x16_splat(&mut self) -> (r: VMState)
        ensures
            final(self).same_instance(old(self)),
            stacks_are(
                old(self).stacks(),
                spec_pure_op(old(self).stacks(), PureOp::VSplat(Shape::I8x16, false)),
                r,
                final(self).stacks(),
            ),
    {
        self.pure_op(PureOp::VSplat(Shape::I8x16, false))
    }

    /// `i16x8.splat`.
    pub fn i16x8_splat(&mut self) -> (r: VMState)
        ensures
            final(self).same_instance(old(self)),
            stacks_are(
                old(self).stacks(),
                spec_pure_op(old(self).stacks(), PureOp::VSplat(Shape::I16x8, false)),
                r,
                final(self).stacks(),
            ),
    {
        self.pure_op(PureOp::VSplat(Shape::I16x8, false))
    }

    /// `i32x4.splat`.
    pub fn i32x4_splat(&mut self) -> (r: VMState)
        ensures
            final(self).same_instance(old(self)),
            stacks_are(
                old(self).stacks(),
                spec_pure_op(old(self).stacks(), PureOp::VSplat(Shape::I32x4, false)),
                r,
                final(self).stacks(),
            ),
    {
        self.pure_op(PureOp::VSplat(Shape::I32x4, false))
    }

    /// `i64x2.splat`.
    pub fn i64x2_splat(&mut self) -> (r: VMState)
        ensures
            final(self).same_instance(old(self)),
            stacks_are(
                old(self).stacks(),
                spec_pure_op(old(self).stacks(), PureOp::VSplat(Shape::I64x2, false)),
                r,
                final(self).stacks(),
            ),
    {
        self.pure_op(PureOp::VSplat(Shape::I64x2, false))
    }

    /// `f32x4.splat`.
    pub fn f32x4_splat(&mut self) -> (r: VMState)
        ensures
            final(self).same_instance(old(self)),
            stacks_are(
                old(self).stacks(),
                spec_pure_op(old(self).stacks(), PureOp::VSplat(Shape::I32x4, true)),
                r,
                final(self).stacks(),
            ),
    {
        self.pure_op(PureOp::VSplat(Shape::I32x4, true))
    }

    /// `f64x2.splat`.
    pub fn f64x2_splat(&mut self) -> (r: VMState)
        ensures
            final(self).same_instance(old(self)),
            stacks_are(
                old(self).stacks(),
                spec_pure_op(old(self).stacks(), PureOp::VSplat(Shape::I64x2, true)),
                r,
                final(self).stacks(),
            ),
    {
        self.pure_op(PureOp::VSplat(Shape::I64x2, true))
    }

    /// `i8x16.extract_lane_s`.
    pub fn i8x16_extract_lane_s(&mut self, laneidx: LaneIdx) -> (r: VMState)
        ensures
            final(self).same_instance(old(self)),
            stacks_are(
                old(self).stacks(),
                spec_pure_op(old(self).stacks(), PureOp::VExtract(Shape::I8x16, LaneGet::Signed, laneidx)),
                r,
                final(self).stacks(),
            ),
    {
        self.pure_op(PureOp::VExtract(Shape::I8x16, LaneGet::Signed, laneidx))
    }

    /// `i8x16.extract_lane_u`.
    pub fn i8x16_extract_lane_u(&mut self, laneidx: LaneIdx) -> (r: VMState)
        ensures
            final(self).same_instance(old(self)),
            stacks_are(
                old(self).stacks(),
                spec_pure_op(old(self).stacks(), PureOp::VExtract(Shape::I8x16, LaneGet::Unsigned, laneidx)),
                r,
                final(self).stacks(),
            ),
    {
        self.pure_op(PureOp::VExtract(Shape::I8x16, LaneGet::Unsigned, laneidx))
    }

    /// `i8x16.replace_lane`.
    pub fn i8x16_replace_lane(&mut self, laneidx: LaneIdx) -> (r: VMState)
        ensures
            final(self).same_instance(old(self)),
            stacks_are(
                old(self).stacks(),
                spec_pure_op(old(self).stacks(), PureOp::VReplace(Shape::I8x16, false, laneidx)),
                r,
                final(self).stacks(),
            ),
    {
        self.pure_op(PureOp::VReplace(Shape::I8x16, false, laneidx))
    }

    /// `i16x8.extract_lane_s`.
    pub fn i16x8_extract_lane_s(&mut self, laneidx: LaneIdx) -> (r: VMState)
        ensures
            final(self).same_instance(old(self)),
            stacks_are(
                old(self).stacks(),
                spec_pure_op(old(self).stacks(), PureOp::VExtract(Shape::I16x8, LaneGet::Signed, laneidx)),
                r,
                final(self).stacks(),
            ),
    {
        self.pure_op(PureOp::VExtract(Shape::I16x8, LaneGet::Signed, laneidx))
    }

    /// `i16x8.extract_lane_u`.
    pub fn i16x8_extract_lane_u(&mut self, laneidx: LaneIdx) -> (r: VMState)
        ensures
            final(self).same_instance(old(self)),
            stacks_are(
                old(self).stacks(),
                spec_pure_op(old(self).stacks(), PureOp::VExtract(Shape::I16x8, LaneGet::Unsigned, laneidx)),
                r,
                final(self).stacks(),
            ),
    {
        self.pure_op(PureOp::VExtract(Shape::I16x8, LaneGet::Unsigned, laneidx))
    }

    /// `i16x8.replace_lane`.
    pub fn i16x8_replace_lane(&mut self, laneidx: LaneIdx) -> (r: VMState)
        ensures
            final(self).same_instance(old(self)),
            stacks_are(
                old(self).stacks(),
                spec_pure_op(old(self).stacks(), PureOp::VReplace(Shape::I16x8, false, laneidx)),
                r,
                final(self).stacks(),
            ),
    {
        self.pure_op(PureOp::VReplace(Shape::I16x8, false, laneidx))
    }

    /// `i32x4.extract_lane`.
    pub fn i32x4_extract_lane(&mut self, laneidx: LaneIdx) -> (r: VMState)
        ensures
            final(self).same_instance(old(self)),
            stacks_are(
                old(self).stacks(),
                spec_pure_op(old(self).stacks(), PureOp::VExtract(Shape::I32x4, LaneGet::Signed, laneidx)),
                r,
                final(self).stacks(),
            ),
    {
        self.pure_op(PureOp::VExtract(Shape::I32x4, LaneGet::Signed, laneidx))
    }

    /// `i32x4.replace_lane`.
    pub fn i32x4_replace_lane(&mut self, laneidx: LaneIdx) -> (r: VMState)
        ensures
            final(self).same_instance(old(self)),
            stacks_are(
                old(self).stacks(),
                spec_pure_op(old(self).stacks(), PureOp::VReplace(Shape::I32x4, false, laneidx)),
                r,
                final(self).stacks(),
            ),
    {
        self.pure_op(PureOp::VReplace(Shape::I32x4, false, laneidx))
    }

    /// `i64x2.extract_lane`.
    pub fn i64x2_extract_lane(&mut self, laneidx: LaneIdx) -> (r: VMState)
        ensures
            final(self).same_instance(old(self)),
            stacks_are(
                old(self).stacks(),
                spec_pure_op(old(self).stacks(), PureOp::VExtract(Shape::I64x2, LaneGet::Signed, laneidx)),
                r,
                final(self).stacks(),
            ),
    {
        self.pure_op(PureOp::VExtract(Shape::I64x2, LaneGet::Signed, laneidx))
    }

    /// `i64x2.replace_lane`.
    pub fn i64x2_replace_lane(&mut self, laneidx: LaneIdx) -> (r: VMState)
        ensures
            final(self).same_instance(old(self)),
            stacks_are(
                old(self).stacks(),
                spec_pure_op(old(self).stacks(), PureOp::VReplace(Shape::I64x2, false, laneidx)),
                r,
                final(self).stacks(),
            ),
    {
        self.pure_op(PureOp::VReplace(Shape::I64x2, false, laneidx))
    }

    /// `f32x4.extract_lane`.
    pub fn f32x4_extract_lane(&mut self, laneidx: LaneIdx) -> (r: VMState)
        ensures
            final(self).same_instance(old(self)),
            stacks_are(
                old(self).stacks(),
                spec_pure_op(old(self).stacks(), PureOp::VExtract(Shape::I32x4, LaneGet::Float, laneidx)),
                r,
                final(self).stacks(),
            ),
    {
        self.pure_op(PureOp::VExtract(Shape::I32x4, LaneGet::Float, laneidx))
    }

    /// `f32x4.replace_lane`.
    pub fn f32x4_replace_lane(&mut self, laneidx: LaneIdx) -> (r: VMState)
        ensures
            final(self).same_instance(old(self)),
            stacks_are(
                old(self).stacks(),
                spec_pure_op(old(self).stacks(), PureOp::VReplace(Shape::I32x4, true, laneidx)),
                r,
                final(self).stacks(),
            ),
    {
        self.pure_op(PureOp::VReplace(Shape::I32x4, true, laneidx))
    }

    /// `f64x2.extract_lane`.
    pub fn f64x2_extract_lane(&mut self, laneidx: LaneIdx) -> (r: VMState)
        ensures
            final(self).same_instance(old(self)),
            stacks_are(
                old(self).stacks(),
                spec_pure_op(old(self).stacks(), PureOp::VExtract(Shape::I64x2, LaneGet::Float, laneidx)),
                r,
                final(self).stacks(),
            ),
    {
        self.pure_op(PureOp::VExtract(Shape::I64x2, LaneGet::Float, laneidx))
    }

    /// `f64x2.replace_lane`.
    pub fn f64x2_replace_lane(&mut self, laneidx: LaneIdx) -> (r: VMState)
        ensures
            final(self).same_instance(old(self)),
            stacks_are(
                old(self).stacks(),
                spec_pure_op(old(self).stacks(), PureOp::VReplace(Shape::I64x2, true, laneidx)),
                r,
                final(self).stacks(),
            ),
    {
        self.pure_op(PureOp::VReplace(Shape::I64x2, true, laneidx))
    }

    /// `i8x16.eq`.
    pub fn i8x16_eq(&mut self) -> (r: VMState)
        ensures
            final(self).same_instance(old(self)),
            stacks_are(
                old(self).stacks(),
                spec_pure_op(old(self).stacks(), PureOp::VBin(Shape::I8x16, LaneBinOp::Rel(IRelOp::Eq))),
                r,
                final(self).stacks(),
            ),
    {
        self.pure_op(PureOp::VBin(Shape::I8x16, LaneBinOp::Rel(IRelOp::Eq)))
    }

    /// `i8x16.ne`.
    pub fn i8x16_ne(&mut self) -> (r: VMState)
        ensures
            final(self).same_instance(old(self)),
            stacks_are(
                old(self).stacks(),
                spec_pure_op(old(self).stacks(), PureOp::VBin(Shape::I8x16, LaneBinOp::Rel(IRelOp::Ne))),
                r,
                final(self).stacks(),
            ),
    {
        self.pure_op(PureOp::VBin(Shape::I8x16, LaneBinOp::Rel(IRelOp::Ne)))
    }

    /// `i8x16.lt_s`.
    pub fn i8x16_lt_s(&mut self) -> (r: VMState)
        ensures
            final(self).same_instance(old(self)),
            stacks_are(
                old(self).stacks(),
                spec_pure_op(old(self).stacks(), PureOp::VBin(Shape::I8x16, LaneBinOp::Rel(IRelOp::LtS))),
                r,
                final(self).stacks(),
            ),
    {
        self.pure_op(PureOp::VBin(Shape::I8x16, LaneBinOp::Rel(IRelOp::LtS)))
    }

    /// `i8x16.lt_u`.
    pub fn i8x16_lt_u(&mut self) -> (r: VMState)
        ensures
            final(self).same_instance(old(self)),
            stacks_are(
                old(self).stacks(),
                spec_pure_op(old(self).stacks(), PureOp::VBin(Shape::I8x16, LaneBinOp::Rel(IRelOp::LtU))),
                r,
                final(self).stacks(),
            ),
    {
        self.pure_op(PureOp::VBin(Shape::I8x16, LaneBinOp::Rel(IRelOp::LtU)))
    }

    /// `i8x16.gt_s`.
    pub fn i8x16_gt_s(&mut self) -> (r: VMState)
        ensures
            final(self).same_instance(old(self)),
            stacks_are(
                old(self).stacks(),
                spec_pure_op(old(self).stacks(), PureOp::VBin(Shape::I8x16, LaneBinOp::Rel(IRelOp::GtS))),
                r,
                final(self).stacks(),
            ),
    {
        self.pure_op(PureOp::VBin(Shape::I8x16, LaneBinOp::Rel(IRelOp::GtS)))
    }

    /// `i8x16.gt_u`.
    pub fn i8x16_gt_u(&mut self) -> (r: VMState)
        ensures
            final(self).same_instance(old(self)),
            stacks_are(
                old(self).stacks(),
                spec_pure_op(old(self).stacks(), PureOp::VBin(Shape::I8x16, LaneBinOp::Rel(IRelOp::GtU))),
                r,
                final(self).stacks(),
            ),
    {
        self.pure_op(PureOp::VBin(Shape::I8x16, LaneBinOp::Rel(IRelOp::GtU)))
    }

    /// `i8x16.le_s`.
    pub fn i8x16_le_s(&mut self) -> (r: VMState)
        ensures
            final(self).same_instance(old(self)),
            stacks_are(
                old(self).stacks(),
                spec_pure_op(old(self).stacks(), PureOp::VBin(Shape::I8x16, LaneBinOp::Rel(IRelOp::LeS))),
                r,
                final(self).stacks(),
            ),
    {
        self.pure_op(PureOp::VBin(Shape::I8x16, LaneBinOp::Rel(IRelOp::LeS)))
    }

    /// `i8x16.le_u`.
    pub fn i8x16_le_u(&mut self) -> (r: VMState)
        ensures
            final(self).same_instance(old(self)),
            stacks_are(
                old(self).stacks(),
                spec_pure_op(old(self).stacks(), PureOp::VBin(Shape::I8x16, LaneBinOp::Rel(IRelOp::LeU))),
                r,
                final(self).stacks(),
            ),
    {
        self.pure_op(PureOp::VBin(Shape::I8x16, LaneBinOp::Rel(IRelOp::LeU)))
    }

    /// `i8x16.ge_s`.
    pub fn i8x16_ge_s(&mut self) -> (r: VMState)
        ensures
            final(self).same_instance(old(self)),
            stacks_are(
                old(self).stacks(),
                spec_pure_op(old(self).stacks(), PureOp::VBin(Shape::I8x16, LaneBinOp::Rel(IRelOp::GeS))),
                r,
                final(self).stacks(),
            ),
    {
        self.pure_op(PureOp::VBin(Shape::I8x16, LaneBinOp::Rel(IRelOp::GeS)))
    }

    /// `i8x16.ge_u`.
    pub fn i8x16_ge_u(&mut self) -> (r: VMState)
        ensures
            final(self).same_instance(old(self)),
            stacks_are(
                old(self).stacks(),
                spec_pure_op(old(self).stacks(), PureOp::VBin(Shape::I8x16, LaneBinOp::Rel(IRelOp::GeU))),
                r,
                final(self).stacks(),
            ),
    {
        self.pure_op(PureOp::VBin(Shape::I8x16, LaneBinOp::Rel(IRelOp::GeU)))
    }

    /// `i16x8.eq`.
    pub fn i16x8_eq(&mut self) -> (r: VMState)
        ensures
            final(self).same_instance(old(self)),
            stacks_are(
                old(self).stacks(),
                spec_pure_op(old(self).stacks(), PureOp::VBin(Shape::I16x8, LaneBinOp::Rel(IRelOp::Eq))),
                r,
                final(self).stacks(),
            ),
    {
        self.pure_op(PureOp::VBin(Shape::I16x8, LaneBinOp::Rel(IRelOp::Eq)))
    }

    /// `i16x8.ne`.
    pub fn i16x8_ne(&mut self) -> (r: VMState)
        ensures
            final(self).same_instance(old(self)),
            stacks_are(
                old(self).stacks(),
                spec_pure_op(old(self).stacks(), PureOp::VBin(Shape::I16x8, LaneBinOp::Rel(IRelOp::Ne))),
                r,
                final(self).stacks(),
            ),
    {
        self.pure_op(PureOp::VBin(Shape::I16x8, LaneBinOp::Rel(IRelOp::Ne)))
    }

    /// `i16x8.lt_s`.
    pub fn i16x8_lt_s(&mut self) -> (r: VMState)
        ensures
            final(self).same_instance(old(self)),
            stacks_are(
                old(self).stacks(),
                spec_pure_op(old(self).stacks(), PureOp::VBin(Shape::I16x8, LaneBinOp::Rel(IRelOp::LtS))),
                r,
                final(self).stacks(),
            ),
    {
        self.pure_op(PureOp::VBin(Shape::I16x8, LaneBinOp::Rel(IRelOp::LtS)))
    }

    /// `i16x8.lt_u`.
    pub fn i16x8_lt_u(&mut self) -> (r: VMState)
        ensures
            final(self).same_instance(old(self)),
            stacks_are(
                old(self).stacks(),
                spec_pure_op(old(self).stacks(), PureOp::VBin(Shape::I16x8, LaneBinOp::Rel(IRelOp::LtU))),
                r,
                final(self).stacks(),
            ),
    {
        self.pure_op(PureOp::VBin(Shape::I16x8, LaneBinOp::Rel(IRelOp::LtU)))
    }

    /// `i16x8.gt_s`.
    pub fn i16x8_gt_s(&mut self) -> (r: VMState)
        ensures
            final(self).same_instance(old(self)),
            stacks_are(
                old(self).stacks(),
                spec_pure_op(old(self).stacks(), PureOp::VBin(Shape::I16x8, LaneBinOp::Rel(IRelOp::GtS))),
                r,
                final(self).stacks(),
            ),
    {
        self.pure_op(PureOp::VBin(Shape::I16x8, LaneBinOp::Rel(IRelOp::GtS)))
    }

    /// `i16x8.gt_u`.
    pub fn i16x8_gt_u(&mut self) -> (r: VMState)
        ensures
            final(self).same_instance(old(self)),
            stacks_are(
                old(self).stacks(),
                spec_pure_op(old(self).stacks(), PureOp::VBin(Shape::I16x8, LaneBinOp::Rel(IRelOp::GtU))),
                r,
                final(self).stacks(),
            ),
    {
        self.pure_op(PureOp::VBin(Shape::I16x8, LaneBinOp::Rel(IRelOp::GtU)))
    }

    /// `i16x8.le_s`.
    pub fn i16x8_le_s(&mut self) -> (r: VMState)
        ensures
            final(self).same_instance(old(self)),
            stacks_are(
                old(self).stacks(),
                spec_pure_op(old(self).stacks(), PureOp::VBin(Shape::I16x8, LaneBinOp::Rel(IRelOp::LeS))),
                r,
                final(self).stacks(),
            ),
    {
        self.pure_op(PureOp::VBin(Shape::I16x8, LaneBinOp::Rel(IRelOp::LeS)))
    }

    /// `i16x8.le_u`.
    pub fn i16x8_le_u(&mut self) -> (r: VMState)
        ensures
            final(self).same_instance(old(self)),
            stacks_are(
                old(self).stacks(),
                spec_pure_op(old(self).stacks(), PureOp::VBin(Shape::I16x8, LaneBinOp::Rel(IRelOp::LeU))),
                r,
                final(self).stacks(),
            ),
    {
        self.pure_op(PureOp::VBin(Shape::I16x8, LaneBinOp::Rel(IRelOp::LeU)))
    }

    /// `i16x8.ge_s`.
    pub fn i16x8_ge_s(&mut self) -> (r: VMState)
        ensures
            final(self).same_instance(old(self)),
            stacks_are(
                old(self).stacks(),
                spec_pure_op(old(self).stacks(), PureOp::VBin(Shape::I16x8, LaneBinOp::Rel(IRelOp::GeS))),
                r,
                final(self).stacks(),
            ),
    {
        self.pure_op(PureOp::VBin(Shape::I16x8, LaneBinOp::Rel(IRelOp::GeS)))
    }

    /// `i16x8.ge_u`.
    pub fn i16x8_ge_u(&mut self) -> (r: VMState)
        ensures
            final(self).same_instance(old(self)),
            stacks_are(
                old(self).stacks(),
                spec_pure_op(old(self).stacks(), PureOp::VBin(Shape::I16x8, LaneBinOp::Rel(IRelOp::GeU))),
                r,
                final(self).stacks(),
            ),
    {
        self.pure_op(PureOp::VBin(Shape::I16x8, LaneBinOp::Rel(IRelOp::GeU)))
    }

    /// `i32x4.eq`.
    pub fn i32x4_eq(&mut self) -> (r: VMState)
        ensures
            final(self).same_instance(old(self)),
            stacks_are(
                old(self).stacks(),
                spec_pure_op(old(self).stacks(), PureOp::VBin(Shape::I32x4, LaneBinOp::Rel(IRelOp::Eq))),
                r,
                final(self).stacks(),
            ),
    {
        self.pure_op(PureOp::VBin(Shape::I32x4, LaneBinOp::Rel(IRelOp::Eq)))
    }

    /// `i32x4.ne`.
    pub fn i32x4_ne(&mut self) -> (r: VMState)
        ensures
            final(self).same_instance(old(self)),
            stacks_are(
                old(self).stacks(),
                spec_pure_op(old(self).stacks(), PureOp::VBin(Shape::I32x4, LaneBinOp::Rel(IRelOp::Ne))),
                r,
                final(self).stacks(),
            ),
    {
        self.pure_op(PureOp::VBin(Shape::I32x4, LaneBinOp::Rel(IRelOp::Ne)))
    }

    /// `i32x4.lt_s`.
    pub fn i32x4_lt_s(&mut self) -> (r: VMState)
        ensures
            final(self).same_instance(old(self)),
            stacks_are(
                old(self).stacks(),
                spec_pure_op(old(self).stacks(), PureOp::VBin(Shape::I32x4, LaneBinOp::Rel(IRelOp::LtS))),
                r,
                final(self).stacks(),
            ),
    {
        self.pure_op(PureOp::VBin(Shape::I32x4, LaneBinOp::Rel(IRelOp::LtS)))
    }

    /// `i32x4.lt_u`.
    pub fn i32x4_lt_u(&mut self) -> (r: VMState)
        ensures
            final(self).same_instance(old(self)),
            stacks_are(
                old(self).stacks(),
                spec_pure_op(old(self).stacks(), PureOp::VBin(Shape::I32x4, LaneBinOp::Rel(IRelOp::LtU))),
                r,
                final(self).stacks(),
            ),
    {
        self.pure_op(PureOp::VBin(Shape::I32x4, LaneBinOp::Rel(IRelOp::LtU)))
    }

    /// `i32x4.gt_s`.
    pub fn i32x4_gt_s(&mut self) -> (r: VMState)
        ensures
            final(self).same_instance(old(self)),
            stacks_are(
                old(self).stacks(),
                spec_pure_op(old(self).stacks(), PureOp::VBin(Shape::I32x4, LaneBinOp::Rel(IRelOp::GtS))),
                r,
                final(self).stacks(),
            ),
    {
        self.pure_op(PureOp::VBin(Shape::I32x4, LaneBinOp::Rel(IRelOp::GtS)))
    }

    /// `i32x4.gt_u`.
    pub fn i32x4_gt_u(&mut self) -> (r: VMState)
        ensures
            final(self).same_instance(old(self)),
            stacks_are(
                old(self).stacks(),
                spec_pure_op(old(self).stacks(), PureOp::VBin(Shape::I32x4, LaneBinOp::Rel(IRelOp::GtU))),
                r,
                final(self).stacks(),
            ),
    {
        self.pure_op(PureOp::VBin(Shape::I32x4, LaneBinOp::Rel(IRelOp::GtU)))
    }

    /// `i32x4.le_s`.
    pub fn i32x4_le_s(&mut self) -> (r: VMState)
        ensures
            final(self).same_instance(old(self)),
            stacks_are(
                old(self).stacks(),
                spec_pure_op(old(self).stacks(), PureOp::VBin(Shape::I32x4, LaneBinOp::Rel(IRelOp::LeS))),
                r,
                final(self).stacks(),
            ),
    {
        self.pure_op(PureOp::VBin(Shape::I32x4, LaneBinOp::Rel(IRelOp::LeS)))
    }

    /// `i32x4.le_u`.
    pub fn i32x4_le_u(&mut self) -> (r: VMState)
        ensures
            final(self).same_instance(old(self)),
            stacks_are(
                old(self).stacks(),
                spec_pure_op(old(self).stacks(), PureOp::VBin(Shape::I32x4, LaneBinOp::Rel(IRelOp::LeU))),
                r,
                final(self).stacks(),
            ),
    {
        self.pure_op(PureOp::VBin(Shape::I32x4, LaneBinOp::Rel(IRelOp::LeU)))
    }

    /// `i32x4.ge_s`.
    pub fn i32x4_ge_s(&mut self) -> (r: VMState)
        ensures
            final(self).same_instance(old(self)),
            stacks_are(
                old(self).stacks(),
                spec_pure_op(old(self).stacks(), PureOp::VBin(Shape::I32x4, LaneBinOp::Rel(IRelOp::GeS))),
                r,
                final(self).stacks(),
            ),
    {
        self.pure_op(PureOp::VBin(Shape::I32x4, LaneBinOp::Rel(IRelOp::GeS)))
    }

    /// `i32x4.ge_u`.
    pub fn i32x4_ge_u(&mut self) -> (r: VMState)
        ensures
            final(self).same_instance(old(self)),
            stacks_are(
                old(self).stacks(),
                spec_pure_op(old(self).stacks(), PureOp::VBin(Shape::I32x4, LaneBinOp::Rel(IRelOp::GeU))),
                r,
                final(self).stacks(),
            ),
    {
        self.pure_op(PureOp::VBin(Shape::I32x4, LaneBinOp::Rel(IRelOp::GeU)))
    }

    /// `f32x4.eq`.
    pub fn f32x4_eq(&mut self) -> (r: VMState)
        ensures
            final(self).same_instance(old(self)),
            stacks_are(
                old(self).stacks(),
                spec_pure_op(old(self).stacks(), PureOp::VFRel(Width::W32, FRelOp::Eq)),
                r,
                final(self).stacks(),
            ),
    {
        self.pure_op(PureOp::VFRel(Width::W32, FRelOp::Eq))
    }

    /// `f32x4.ne`.
    pub fn f32x4_ne(&mut self) -> (r: VMState)
        ensures
            final(self).same_instance(old(self)),
            stacks_are(
                old(self).stacks(),
                spec_pure_op(old(self).stacks(), PureOp::VFRel(Width::W32, FRelOp::Ne)),
                r,
                final(self).stacks(),
            ),
    {
        self.pure_op(PureOp::VFRel(Width::W32, FRelOp::Ne))
    }

    /// `f32x4.lt`.
    pub fn f32x4_lt(&mut self) -> (r: VMState)
        ensures
            final(self).same_instance(old(self)),
            stacks_are(
                old(self).stacks(),
                spec_pure_op(old(self).stacks(), PureOp::VFRel(Width::W32, FRelOp::Lt)),
                r,
                final(self).stacks(),
            ),
    {
        self.pure_op(PureOp::VFRel(Width::W32, FRelOp::Lt))
    }

    /// `f32x4.gt`.
    pub fn f32x4_gt(&mut self) -> (r: VMState)
        ensures
            final(self).same_instance(old(self)),
            stacks_are(
                old(self).stacks(),
                spec_pure_op(old(self).stacks(), PureOp::VFRel(Width::W32, FRelOp::Gt)),
                r,
                final(self).stacks(),
            ),
    {
        self.pure_op(PureOp::VFRel(Width::W32, FRelOp::Gt))
    }

    /// `f32x4.le`.
    pub fn f32x4_le(&mut self) -> (r: VMState)
        ensures
            final(self).same_instance(old(self)),
            stacks_are(
                old(self).stacks(),
                spec_pure_op(old(self).stacks(), PureOp::VFRel(Width::W32, FRelOp::Le)),
                r,
                final(self).stacks(),
            ),
    {
        self.pure_op(PureOp::VFRel(Width::W32, FRelOp::Le))
    }

    /// `f32x4.ge`.
    pub fn f32x4_ge(&mut self) -> (r: VMState)
        ensures
            final(self).same_instance(old(self)),
            stacks_are(
                old(self).stacks(),
                spec_pure_op(old(self).stacks(), PureOp::VFRel(Width::W32, FRelOp::Ge)),
                r,
                final(self).stacks(),
            ),
    {
        self.pure_op(PureOp::VFRel(Width::W32, FRelOp::Ge))
    }

    /// `f64x2.eq`.
    pub fn f64x2_eq(&mut self) -> (r: VMState)
        ensures
            final(self).same_instance(old(self)),
            stacks_are(
                old(self).stacks(),
                spec_pure_op(old(self).stacks(), PureOp::VFRel(Width::W64, FRelOp::Eq)),
                r,
                final(self).stacks(),
            ),
    {
        self.pure_op(PureOp::VFRel(Width::W64, FRelOp::Eq))
    }

    /// `f64x2.ne`.
    pub fn f64x2_ne(&mut self) -> (r: VMState)
        ensures
            final(self).same_instance(old(self)),
            stacks_are(
                old(self).stacks(),
                spec_pure_op(old(self).stacks(), PureOp::VFRel(Width::W64, FRelOp::Ne)),
                r,
                final(self).stacks(),
            ),
    {
        self.pure_op(PureOp::VFRel(Width::W64, FRelOp::Ne))
    }

    /// `f64x2.lt`.
    pub fn f64x2_lt(&mut self) -> (r: VMState)
        ensures
            final(self).same_instance(old(self)),
            stacks_are(
                old(self).stacks(),
                spec_pure_op(old(self).stacks(), PureOp::VFRel(Width::W64, FRelOp::Lt)),
                r,
                final(self).stacks(),
            ),
    {
        self.pure_op(PureOp::VFRel(Width::W64, FRelOp::Lt))
    }

    /// `f64x2.gt`.
    pub fn f64x2_gt(&mut self) -> (r: VMState)
        ensures
            final(self).same_instance(old(self)),
            stacks_are(
                old(self).stacks(),
                spec_pure_op(old(self).stacks(), PureOp::VFRel(Width::W64, FRelOp::Gt)),
                r,
                final(self).stacks(),
            ),
    {
        self.pure_op(PureOp::VFRel(Width::W64, FRelOp::Gt))
    }

    /// `f64x2.le`.
    pub fn f64x2_le(&mut self) -> (r: VMState)
        ensures
            final(self).same_instance(old(self)),
            stacks_are(
                old(self).stacks(),
                spec_pure_op(old(self).stacks(), PureOp::VFRel(Width::W64, FRelOp::Le)),
                r,
                final(self).stacks(),
            ),
    {
        self.pure_op(PureOp::VFRel(Width::W64, FRelOp::Le))
    }

    /// `f64x2.ge`.
    pub fn f64x2_ge(&mut self) -> (r: VMState)
        ensures
            final(self).same_instance(old(self)),
            stacks_are(
                old(self).stacks(),
                spec_pure_op(old(self).stacks(), PureOp::VFRel(Width::W64, FRelOp::Ge)),
                r,
                final(self).stacks(),
            ),
    {
        self.pure_op(PureOp::VFRel(Width::W64, FRelOp::Ge))
    }

    /// `v128.not`.
    pub fn v128_not(&mut self) -> (r: VMState)
        ensures
            final(self).same_instance(old(self)),
            stacks_are(
                old(self).stacks(),
                spec_pure_op(old(self).stacks(), PureOp::VNot),
                r,
                final(self).stacks(),
            ),
    {
        self.pure_op(PureOp::VNot)
    }

    /// `v128.and`.
    pub fn v128_and(&mut self) -> (r: VMState)
        ensures
            final(self).same_instance(old(self)),
            stacks_are(
                old(self).stacks(),
                spec_pure_op(old(self).stacks(), PureOp::VBit(VBitOp::And)),
                r,
                final(self).stacks(),
            ),
    {
        self.pure_op(PureOp::VBit(VBitOp::And))
    }

    /// `v128.andnot`.
    pub fn v128_andnot(&mut self) -> (r: VMState)
        ensures
            final(self).same_instance(old(self)),
            stacks_are(
                old(self).stacks(),
                spec_pure_op(old(self).stacks(), PureOp::VBit(VBitOp::Andnot)),
                r,
                final(self).stacks(),
            ),
    {
        self.pure_op(PureOp::VBit(VBitOp::Andnot))
    }

    /// `v128.or`.
    pub fn v128_or(&mut self) -> (r: VMState)
        ensures
            final(self).same_instance(old(self)),
            stacks_are(
                old(self).stacks(),
                spec_pure_op(old(self).stacks(), PureOp::VBit(VBitOp::Or)),
                r,
                final(self).stacks(),
            ),
    {
        self.pure_op(PureOp::VBit(VBitOp::Or))
    }

    /// `v128.xor`.
    pub fn v128_xor(&mut self) -> (r: VMState)
        ensures
            final(self).same_instance(old(self)),
            stacks_are(
                old(self).stacks(),
                spec_pure_op(old(self).stacks(), PureOp::VBit(VBitOp::Xor)),
                r,
                final(self).stacks(),
            ),
    {
        self.pure_op(PureOp::VBit(VBitOp::Xor))
    }

    /// `v128.bitselect`.
    pub fn v128_bitselect(&mut self) -> (r: VMState)
        ensures
            final(self).same_instance(old(self)),
            stacks_are(
                old(self).stacks(),
                spec_pure_op(old(self).stacks(), PureOp::VBitselect),
                r,
                final(self).stacks(),
            ),
    {
        self.pure_op(PureOp::VBitselect)
    }

    /// `v128.any_true`.
    pub fn v128_any_true(&mut self) -> (r: VMState)
        ensures
            final(self).same_instance(old(self)),
            stacks_are(
                old(self).stacks(),
                spec_pure_op(old(self).stacks(), PureOp::VAnyTrue),
                r,
                final(self).stacks(),
            ),
    {
        self.pure_op(PureOp::VAnyTrue)
    }

    /// `v128.load8_lane`.
    pub fn v128_load8_lane(&mut self, store: &Store, memarg: &MemoryArg, laneidx: LaneIdx) -> (r: VMState)
        ensures
            final(self).same_instance(old(self)),
            stacks_are(
                old(self).stacks(),
                spec_load_lane(*old(self), store, Shape::I8x16, laneidx, *memarg),
                r,
                final(self).stacks(),
            ),
    {
        self.load_lane(store, Shape::I8x16, laneidx, memarg)
    }

    /// `v128.load16_lane`.
    pub fn v128_load16_lane(&mut self, store: &Store, memarg: &MemoryArg, laneidx: LaneIdx) -> (r: VMState)
        ensures
            final(self).same_instance(old(self)),
            stacks_are(
                old(self).stacks(),
                spec_load_lane(*old(self), store, Shape::I16x8, laneidx, *memarg),
                r,
                final(self).stacks(),
            ),
    {
        self.load_lane(store, Shape::I16x8, laneidx, memarg)
    }

    /// `v128.load32_lane`.
    pub fn v128_load32_lane(&mut self, store: &Store, memarg: &MemoryArg, laneidx: LaneIdx) -> (r: VMState)
        ensures
            final(self).same_instance(old(self)),
            stacks_are(
                old(self).stacks(),
                spec_load_lane(*old(self), store, Shape::I32x4, laneidx, *memarg),
                r,
                final(self).stacks(),
            ),
    {
        self.load_lane(store, Shape::I32x4, laneidx, memarg)
    }

    /// `v128.load64_lane`.
    pub fn v128_load64_lane(&mut self, store: &Store, memarg: &MemoryArg, laneidx: LaneIdx) -> (r: VMState)
        ensures
            final(self).same_instance(old(self)),
            stacks_are(
                old(self).stacks(),
                spec_load_lane(*old(self), store, Shape::I64x2, laneidx, *memarg),
                r,
                final(self).stacks(),
            ),
    {
        self.load_lane(store, Shape::I64x2, laneidx, memarg)
    }

    /// `v128.store8_lane`.
    pub fn v128_store8_lane(&mut self, store: &mut Store, memarg: &MemoryArg, laneidx: LaneIdx) -> (r: VMState)
        ensures
            Self::store_post(
                *old(self),
                old(store),
                r,
                *final(self),
                final(store),
                StoreOp::Lane(Shape::I8x16, laneidx),
                *memarg,
            ),
    {
        self.store(store, StoreOp::Lane(Shape::I8x16, laneidx), memarg)
    }

    /// `v128.store16_lane`.
    pub fn v128_store16_lane(&mut self, store: &mut Store, memarg: &MemoryArg, laneidx: LaneIdx) -> (r: VMState)
        ensures
            Self::store_post(
                *old(self),
                old(store),
                r,
                *final(self),
                final(store),
                StoreOp::Lane(Shape::I16x8, laneidx),
                *memarg,
            ),
    {
        self.store(store, StoreOp::Lane(Shape::I16x8, laneidx), memarg)
    }

    /// `v128.store32_lane`.
    pub fn v128_store32_lane(&mut self, store: &mut Store, memarg: &MemoryArg, laneidx: LaneIdx) -> (r: VMState)
        ensures
            Self::store_post(
                *old(self),
                old(store),
                r,
                *final(self),
                final(store),
                StoreOp::Lane(Shape::I32x4, laneidx),
                *memarg,
            ),
    {
        self.store(store, StoreOp::Lane(Shape::I32x4, laneidx), memarg)
    }

    /// `v128.store64_lane`.
    pub fn v128_store64_lane(&mut self, store: &mut Store, memarg: &MemoryArg, laneidx: LaneIdx) -> (r: VMState)
        ensures
            Self::store_post(
                *old(self),
                old(store),
                r,
                *final(self),
                final(store),
                StoreOp::Lane(Shape::I64x2, laneidx),
                *memarg,
            ),
    {
        self.store(store, StoreOp::Lane(Shape::I64x2, laneidx), memarg)
    }

    /// `v128.load32_zero`.
    pub fn v128_load32_zero(&mut self, store: &Store, memarg: &MemoryArg) -> (r: VMState)
        ensures
            final(self).same_instance(old(self)),
            stacks_are(
                old(self).stacks(),
                spec_load(*old(self), store, Load::Zero(Shape::I32x4), *memarg),
                r,
                final(self).stacks(),
            ),
    {
        self.load(store, Load::Zero(Shape::I32x4), memarg)
    }

    /// `v128.load64_zero`.
    pub fn v128_load64_zero(&mut self, store: &Store, memarg: &MemoryArg) -> (r: VMState)
        ensures
            final(self).same_instance(old(self)),
            stacks_are(
                old(self).stacks(),
                spec_load(*old(self), store, Load::Zero(Shape::I64x2), *memarg),
                r,
                final(self).stacks(),
            ),
    {
        self.load(store, Load::Zero(Shape::I64x2), memarg)
    }

    /// `i8x16.abs`.
    pub fn i8x16_abs(&mut self) -> (r: VMState)
        ensures
            final(self).same_instance(old(self)),
            stacks_are(
                old(self).stacks(),
                spec_pure_op(old(self).stacks(), PureOp::VUn(Shape::I8x16, IUnOp::Abs)),
                r,
                final(self).stacks(),
            ),
    {
        self.pure_op(PureOp::VUn(Shape::I8x16, IUnOp::Abs))
    }

    /// `i8x16.neg`.
    pub fn i8x16_neg(&mut self) -> (r: VMState)
        ensures
            final(self).same_instance(old(self)),
            stacks_are(
                old(self).stacks(),
                spec_pure_op(old(self).stacks(), PureOp::VUn(Shape::I8x16, IUnOp::Neg)),
                r,
                final(self).stacks(),
            ),
    {
        self.pure_op(PureOp::VUn(Shape::I8x16, IUnOp::Neg))
    }

    /// `i8x16.popcnt`.
    pub fn i8x16_popcnt(&mut self) -> (r: VMState)
        ensures
            final(self).same_instance(old(self)),
            stacks_are(
                old(self).stacks(),
                spec_pure_op(old(self).stacks(), PureOp::VUn(Shape::I8x16, IUnOp::Popcnt)),
                r,
                final(self).stacks(),
            ),
    {
        self.pure_op(PureOp::VUn(Shape::I8x16, IUnOp::Popcnt))
    }

    /// `i8x16.all_true`.
    pub fn i8x16_all_true(&mut self) -> (r: VMState)
        ensures
            final(self).same_instance(old(self)),
            stacks_are(
                old(self).stacks(),
                spec_pure_op(old(self).stacks(), PureOp::VAllTrue(Shape::I8x16)),
                r,
                final(self).stacks(),
            ),
    {
        self.pure_op(PureOp::VAllTrue(Shape::I8x16))
    }

    /// `i8x16.bitmask`.
    pub fn i8x16_bitmask(&mut self) -> (r: VMState)
        ensures
            final(self).same_instance(old(self)),
            stacks_are(
                old(self).stacks(),
                spec_pure_op(old(self).stacks(), PureOp::VBitmask(Shape::I8x16)),
                r,
                final(self).stacks(),
            ),
    {
        self.pure_op(PureOp::VBitmask(Shape::I8x16))
    }

    /// `i8x16.narrow_i16x8_s`.
    pub fn i8x16_narrow_i16x8_s(&mut self) -> (r: VMState)
        ensures
            final(self).same_instance(old(self)),
            stacks_are(
                old(self).stacks(),
                spec_pure_op(old(self).stacks(), PureOp::VMix(MixOp::Narrow(Shape::I8x16, true))),
                r,
                final(self).stacks(),
            ),
    {
        self.pure_op(PureOp::VMix(MixOp::Narrow(Shape::I8x16, true)))
    }

    /// `i8x16.narrow_i16x8_u`.
    pub fn i8x16_narrow_i16x8_u(&mut self) -> (r: VMState)
        ensures
            final(self).same_instance(old(self)),
            stacks_are(
                old(self).stacks(),
                spec_pure_op(old(self).stacks(), PureOp::VMix(MixOp::Narrow(Shape::I8x16, false))),
                r,
                final(self).stacks(),
            ),
    {
        self.pure_op(PureOp::VMix(MixOp::Narrow(Shape::I8x16, false)))
    }

    /// `i8x16.shl`.
    pub fn i8x16_shl(&mut self) -> (r: VMState)
        ensures
            final(self).same_instance(old(self)),
            stacks_are(
                old(self).stacks(),
                spec_pure_op(old(self).stacks(), PureOp::VShift(Shape::I8x16, IBinOp::Shl)),
                r,
                final(self).stacks(),
            ),
    {
        self.pure_op(PureOp::VShift(Shape::I8x16, IBinOp::Shl))
    }

    /// `i8x16.shr_s`.
    pub fn i8x16_shr_s(&mut self) -> (r: VMState)
        ensures
            final(self).same_instance(old(self)),
            stacks_are(
                old(self).stacks(),
                spec_pure_op(old(self).stacks(), PureOp::VShift(Shape::I8x16, IBinOp::ShrS)),
                r,
                final(self).stacks(),
            ),
    {
        self.pure_op(PureOp::VShift(Shape::I8x16, IBinOp::ShrS))
    }

    /// `i8x16.shr_u`.
    pub fn i8x16_shr_u(&mut self) -> (r: VMState)
        ensures
            final(self).same_instance(old(self)),
            stacks_are(
                old(self).stacks(),
                spec_pure_op(old(self).stacks(), PureOp::VShift(Shape::I8x16, IBinOp::ShrU)),
                r,
                final(self).stacks(),
            ),
    {
        self.pure_op(PureOp::VShift(Shape::I8x16, IBinOp::ShrU))
    }

    /// `i8x16.add`.
    pub fn i8x16_add(&mut self) -> (r: VMState)
        ensures
            final(self).same_instance(old(self)),
            stacks_are(
                old(self).stacks(),
                spec_pure_op(old(self).stacks(), PureOp::VBin(Shape::I8x16, LaneBinOp::Int(IBinOp::Add))),
                r,
                final(self).stacks(),
            ),
    {
        self.pure_op(PureOp::VBin(Shape::I8x16, LaneBinOp::Int(IBinOp::Add)))
    }

    /// `i8x16.add_sat_s`.
    pub fn i8x16_add_sat_s(&mut self) -> (r: VMState)
        ensures
            final(self).same_instance(old(self)),
            stacks_are(
                old(self).stacks(),
                spec_pure_op(old(self).stacks(), PureOp::VBin(Shape::I8x16, LaneBinOp::AddSatS)),
                r,
                final(self).stacks(),
            ),
    {
        self.pure_op(PureOp::VBin(Shape::I8x16, LaneBinOp::AddSatS))
    }

    /// `i8x16.add_sat_u`.
    pub fn i8x16_add_sat_u(&mut self) -> (r: VMState)
        ensures
            final(self).same_instance(old(self)),
            stacks_are(
                old(self).stacks(),
                spec_pure_op(old(self).stacks(), PureOp::VBin(Shape::I8x16, LaneBinOp::AddSatU)),
                r,
                final(self).stacks(),
            ),
    {
        self.pure_op(PureOp::VBin(Shape::I8x16, LaneBinOp::AddSatU))
    }

    /// `i8x16.sub`.
    pub fn i8x16_sub(&mut self) -> (r: VMState)
        ensures
            final(self).same_instance(old(self)),
            stacks_are(
                old(self).stacks(),
                spec_pure_op(old(self).stacks(), PureOp::VBin(Shape::I8x16, LaneBinOp::Int(IBinOp::Sub))),
                r,
                final(self).stacks(),
            ),
    {
        self.pure_op(PureOp::VBin(Shape::I8x16, LaneBinOp::Int(IBinOp::Sub)))
    }

    /// `i8x16.sub_sat_s`.
    pub fn i8x16_sub_sat_s(&mut self) -> (r: VMState)
        ensures
            final(self).same_instance(old(self)),
            stacks_are(
                old(self).stacks(),
                spec_pure_op(old(self).stacks(), PureOp::VBin(Shape::I8x16, LaneBinOp::SubSatS)),
                r,
                final(self).stacks(),
            ),
    {
        self.pure_op(PureOp::VBin(Shape::I8x16, LaneBinOp::SubSatS))
    }

    /// `i8x16.sub_sat_u`.
    pub fn i8x16_sub_sat_u(&mut self) -> (r: VMState)
        ensures
            final(self).same_instance(old(self)),
            stacks_are(
                old(self).stacks(),
                spec_pure_op(old(self).stacks(), PureOp::VBin(Shape::I8x16, LaneBinOp::SubSatU)),
                r,
                final(self).stacks(),
            ),
    {
        self.pure_op(PureOp::VBin(Shape::I8x16, LaneBinOp::SubSatU))
    }

    /// `i8x16.min_s`.
    pub fn i8x16_min_s(&mut self) -> (r: VMState)
        ensures
            final(self).same_instance(old(self)),
            stacks_are(
                old(self).stacks(),
                spec_pure_op(old(self).stacks(), PureOp::VBin(Shape::I8x16, LaneBinOp::MinS)),
                r,
                final(self).stacks(),
            ),
    {
        self.pure_op(PureOp::VBin(Shape::I8x16, LaneBinOp::MinS))
    }

    /// `i8x16.min_u`.
    pub fn i8x16_min_u(&mut self) -> (r: VMState)
        ensures
            final(self).same_instance(old(self)),
            stacks_are(
                old(self).stacks(),
                spec_pure_op(old(self).stacks(), PureOp::VBin(Shape::I8x16, LaneBinOp::MinU)),
                r,
                final(self).stacks(),
            ),
    {
        self.pure_op(PureOp::VBin(Shape::I8x16, LaneBinOp::MinU))
    }

    /// `i8x16.max_s`.
    pub fn i8x16_max_s(&mut self) -> (r: VMState)
        ensures
            final(self).same_instance(old(self)),
            stacks_are(
                old(self).stacks(),
                spec_pure_op(old(self).stacks(), PureOp::VBin(Shape::I8x16, LaneBinOp::MaxS)),
                r,
                final(self).stacks(),
            ),
    {
        self.pure_op(PureOp::VBin(Shape::I8x16, LaneBinOp::MaxS))
    }

    /// `i8x16.max_u`.
    pub fn i8x16_max_u(&mut self) -> (r: VMState)
        ensures
            final(self).same_instance(old(self)),
            stacks_are(
                old(self).stacks(),
                spec_pure_op(old(self).stacks(), PureOp::VBin(Shape::I8x16, LaneBinOp::MaxU)),
                r,
                final(self).stacks(),
            ),
    {
        self.pure_op(PureOp::VBin(Shape::I8x16, LaneBinOp::MaxU))
    }

    /// `i8x16.avgr_u`.
    pub fn i8x16_avgr_u(&mut self) -> (r: VMState)
        ensures
            final(self).same_instance(old(self)),
            stacks_are(
                old(self).stacks(),
                spec_pure_op(old(self).stacks(), PureOp::VBin(Shape::I8x16, LaneBinOp::AvgrU)),
                r,
                final(self).stacks(),
            ),
    {
        self.pure_op(PureOp::VBin(Shape::I8x16, LaneBinOp::AvgrU))
    }

    /// `i16x8.extadd_pairwise_i8x16_s`.
    pub fn i16x8_extadd_pairwise_i8x16_s(&mut self) -> (r: VMState)
        ensures
            final(self).same_instance(old(self)),
            stacks_are(
                old(self).stacks(),
                spec_pure_op(old(self).stacks(), PureOp::VMix(MixOp::ExtAdd(Shape::I16x8, true))),
                r,
                final(self).stacks(),
            ),
    {
        self.pure_op(PureOp::VMix(MixOp::ExtAdd(Shape::I16x8, true)))
    }

    /// `i16x8.extadd_pairwise_i8x16_u`.
    pub fn i16x8_extadd_pairwise_i8x16_u(&mut self) -> (r: VMState)
        ensures
            final(self).same_instance(old(self)),
            stacks_are(
                old(self).stacks(),
                spec_pure_op(old(self).stacks(), PureOp::VMix(MixOp::ExtAdd(Shape::I16x8, false))),
                r,
                final(self).stacks(),
            ),
    {
        self.pure_op(PureOp::VMix(MixOp::ExtAdd(Shape::I16x8, false)))
    }

    /// `i32x4.extadd_pairwise_i16x8_s`.
    pub fn i32x4_extadd_pairwise_i16x8_s(&mut self) -> (r: VMState)
        ensures
            final(self).same_instance(old(self)),
            stacks_are(
                old(self).stacks(),
                spec_pure_op(old(self).stacks(), PureOp::VMix(MixOp::ExtAdd(Shape::I32x4, true))),
                r,
                final(self).stacks(),
            ),
    {
        self.pure_op(PureOp::VMix(MixOp::ExtAdd(Shape::I32x4, true)))
    }

    /// `i32x4.extadd_pairwise_i16x8_u`.
    pub fn i32x4_extadd_pairwise_i16x8_u(&mut self) -> (r: VMState)
        ensures
            final(self).same_instance(old(self)),
            stacks_are(
                old(self).stacks(),
                spec_pure_op(old(self).stacks(), PureOp::VMix(MixOp::ExtAdd(Shape::I32x4, false))),
                r,
                final(self).stacks(),
            ),
    {
        self.pure_op(PureOp::VMix(MixOp::ExtAdd(Shape::I32x4, false)))
    }

    /// `i16x8.abs`.
    pub fn i16x8_abs(&mut self) -> (r: VMState)
        ensures
            final(self).same_instance(old(self)),
            stacks_are(
                old(self).stacks(),
                spec_pure_op(old(self).stacks(), PureOp::VUn(Shape::I16x8, IUnOp::Abs)),
                r,
                final(self).stacks(),
            ),
    {
        self.pure_op(PureOp::VUn(Shape::I16x8, IUnOp::Abs))
    }

    /// `i16x8.neg`.
    pub fn i16x8_neg(&mut self) -> (r: VMState)
        ensures
            final(self).same_instance(old(self)),
            stacks_are(
                old(self).stacks(),
                spec_pure_op(old(self).stacks(), PureOp::VUn(Shape::I16x8, IUnOp::Neg)),
                r,
                final(self).stacks(),
            ),
    {
        self.pure_op(PureOp::VUn(Shape::I16x8, IUnOp::Neg))
    }

    /// `i16x8.q15mulr_sat_s`.
    pub fn i16x8_q15mulr_sat_s(&mut self) -> (r: VMState)
        ensures
            final(self).same_instance(old(self)),
            stacks_are(
                old(self).stacks(),
                spec_pure_op(old(self).stacks(), PureOp::VBin(Shape::I16x8, LaneBinOp::Q15MulrSatS)),
                r,
                final(self).stacks(),
            ),
    {
        self.pure_op(PureOp::VBin(Shape::I16x8, LaneBinOp::Q15MulrSatS))
    }

    /// `i16x8.all_true`.
    pub fn i16x8_all_true(&mut self) -> (r: VMState)
        ensures
            final(self).same_instance(old(self)),
            stacks_are(
                old(self).stacks(),
                spec_pure_op(old(self).stacks(), PureOp::VAllTrue(Shape::I16x8)),
                r,
                final(self).stacks(),
            ),
    {
        self.pure_op(PureOp::VAllTrue(Shape::I16x8))
    }

    /// `i16x8.bitmask`.
    pub fn i16x8_bitmask(&mut self) -> (r: VMState)
        ensures
            final(self).same_instance(old(self)),
            stacks_are(
                old(self).stacks(),
                spec_pure_op(old(self).stacks(), PureOp::VBitmask(Shape::I16x8)),
                r,
                final(self).stacks(),
            ),
    {
        self.pure_op(PureOp::VBitmask(Shape::I16x8))
    }

    /// `i16x8.narrow_i32x4_s`.
    pub fn i16x8_narrow_i32x4_s(&mut self) -> (r: VMState)
        ensures
            final(self).same_instance(old(self)),
            stacks_are(
                old(self).stacks(),
                spec_pure_op(old(self).stacks(), PureOp::VMix(MixOp::Narrow(Shape::I16x8, true))),
                r,
                final(self).stacks(),
            ),
    {
        self.pure_op(PureOp::VMix(MixOp::Narrow(Shape::I16x8, true)))
    }

    /// `i16x8.narrow_i32x4_u`.
    pub fn i16x8_narrow_i32x4_u(&mut self) -> (r: VMState)
        ensures
            final(self).same_instance(old(self)),
            stacks_are(
                old(self).stacks(),
                spec_pure_op(old(self).stacks(), PureOp::VMix(MixOp::Narrow(Shape::I16x8, false))),
                r,
                final(self).stacks(),
            ),
    {
        self.pure_op(PureOp::VMix(MixOp::Narrow(Shape::I16x8, false)))
    }

    /// `i16x8.extend_low_i8x16_s`.
    pub fn i16x8_extend_low_i8x16_s(&mut self) -> (r: VMState)
        ensures
            final(self).same_instance(old(self)),
            stacks_are(
                old(self).stacks(),
                spec_pure_op(old(self).stacks(), PureOp::VMix(MixOp::Extend(Shape::I16x8, false, true))),
                r,
                final(self).stacks(),
            ),
    {
        self.pure_op(PureOp::VMix(MixOp::Extend(Shape::I16x8, false, true)))
    }

    /// `i16x8.extend_high_i8x16_s`.
    pub fn i16x8_extend_high_i8x16_s(&mut self) -> (r: VMState)
        ensures
            final(self).same_instance(old(self)),
            stacks_are(
                old(self).stacks(),
                spec_pure_op(old(self).stacks(), PureOp::VMix(MixOp::Extend(Shape::I16x8, true, true))),
                r,
                final(self).stacks(),
            ),
    {
        self.pure_op(PureOp::VMix(MixOp::Extend(Shape::I16x8, true, true)))
    }

    /// `i16x8.extend_low_i8x16_u`.
    pub fn i16x8_extend_low_i8x16_u(&mut self) -> (r: VMState)
        ensures
            final(self).same_instance(old(self)),
            stacks_are(
                old(self).stacks(),
                spec_pure_op(old(self).stacks(), PureOp::VMix(MixOp::Extend(Shape::I16x8, false, false))),
                r,
                final(self).stacks(),
            ),
    {
        self.pure_op(PureOp::VMix(MixOp::Extend(Shape::I16x8, false, false)))
    }

    /// `i16x8.extend_high_i8x16_u`.
    pub fn i16x8_extend_high_i8x16_u(&mut self) -> (r: VMState)
        ensures
            final(self).same_instance(old(self)),
            stacks_are(
                old(self).stacks(),
                spec_pure_op(old(self).stacks(), PureOp::VMix(MixOp::Extend(Shape::I16x8, true, false))),
                r,
                final(self).stacks(),
            ),
    {
        self.pure_op(PureOp::VMix(MixOp::Extend(Shape::I16x8, true, false)))
    }

    /// `i16x8.shl`.
    pub fn i16x8_shl(&mut self) -> (r: VMState)
        ensures
            final(self).same_instance(old(self)),
            stacks_are(
                old(self).stacks(),
                spec_pure_op(old(self).stacks(), PureOp::VShift(Shape::I16x8, IBinOp::Shl)),
                r,
                final(self).stacks(),
            ),
    {
        self.pure_op(PureOp::VShift(Shape::I16x8, IBinOp::Shl))
    }

    /// `i16x8.shr_s`.
    pub fn i16x8_shr_s(&mut self) -> (r: VMState)
        ensures
            final(self).same_instance(old(self)),
            stacks_are(
                old(self).stacks(),
                spec_pure_op(old(self).stacks(), PureOp::VShift(Shape::I16x8, IBinOp::ShrS)),
                r,
                final(self).stacks(),
            ),
    {
        self.pure_op(PureOp::VShift(Shape::I16x8, IBinOp::ShrS))
    }

    /// `i16x8.shr_u`.
    pub fn i16x8_shr_u(&mut self) -> (r: VMState)
        ensures
            final(self).same_instance(old(self)),
            stacks_are(
                old(self).stacks(),
                spec_pure_op(old(self).stacks(), PureOp::VShift(Shape::I16x8, IBinOp::ShrU)),
                r,
                final(self).stacks(),
            ),
    {
        self.pure_op(PureOp::VShift(Shape::I16x8, IBinOp::ShrU))
    }

    /// `i16x8.add`.
    pub fn i16x8_add(&mut self) -> (r: VMState)
        ensures
            final(self).same_instance(old(self)),
            stacks_are(
                old(self).stacks(),
                spec_pure_op(old(self).stacks(), PureOp::VBin(Shape::I16x8, LaneBinOp::Int(IBinOp::Add))),
                r,
                final(self).stacks(),
            ),
    {
        self.pure_op(PureOp::VBin(Shape::I16x8, LaneBinOp::Int(IBinOp::Add)))
    }

    /// `i16x8.add_sat_s`.
    pub fn i16x8_add_sat_s(&mut self) -> (r: VMState)
        ensures
            final(self).same_instance(old(self)),
            stacks_are(
                old(self).stacks(),
                spec_pure_op(old(self).stacks(), PureOp::VBin(Shape::I16x8, LaneBinOp::AddSatS)),
                r,
                final(self).stacks(),
            ),
    {
        self.pure_op(PureOp::VBin(Shape::I16x8, LaneBinOp::AddSatS))
    }

    /// `i16x8.add_sat_u`.
    pub fn i16x8_add_sat_u(&mut self) -> (r: VMState)
        ensures
            final(self).same_instance(old(self)),
            stacks_are(
                old(self).stacks(),
                spec_pure_op(old(self).stacks(), PureOp::VBin(Shape::I16x8, LaneBinOp::AddSatU)),
                r,
                final(self).stacks(),
            ),
    {
        self.pure_op(PureOp::VBin(Shape::I16x8, LaneBinOp::AddSatU))
    }

    /// `i16x8.sub`.
    pub fn i16x8_sub(&mut self) -> (r: VMState)
        ensures
            final(self).same_instance(old(self)),
            stacks_are(
                old(self).stacks(),
                spec_pure_op(old(self).stacks(), PureOp::VBin(Shape::I16x8, LaneBinOp::Int(IBinOp::Sub))),
                r,
                final(self).stacks(),
            ),
    {
        self.pure_op(PureOp::VBin(Shape::I16x8, LaneBinOp::Int(IBinOp::Sub)))
    }

    /// `i16x8.sub_sat_s`.
    pub fn i16x8_sub_sat_s(&mut self) -> (r: VMState)
        ensures
            final(self).same_instance(old(self)),
            stacks_are(
                old(self).stacks(),
                spec_pure_op(old(self).stacks(), PureOp::VBin(Shape::I16x8, LaneBinOp::SubSatS)),
                r,
                final(self).stacks(),
            ),
    {
        self.pure_op(PureOp::VBin(Shape::I16x8, LaneBinOp::SubSatS))
    }

    /// `i16x8.sub_sat_u`.
    pub fn i16x8_sub_sat_u(&mut self) -> (r: VMState)
        ensures
            final(self).same_instance(old(self)),
            stacks_are(
                old(self).stacks(),
                spec_pure_op(old(self).stacks(), PureOp::VBin(Shape::I16x8, LaneBinOp::SubSatU)),
                r,
                final(self).stacks(),
            ),
    {
        self.pure_op(PureOp::VBin(Shape::I16x8, LaneBinOp::SubSatU))
    }

    /// `i16x8.mul`.
    pub fn i16x8_mul(&mut self) -> (r: VMState)
        ensures
            final(self).same_instance(old(self)),
            stacks_are(
                old(self).stacks(),
                spec_pure_op(old(self).stacks(), PureOp::VBin(Shape::I16x8, LaneBinOp::Int(IBinOp::Mul))),
                r,
                final(self).stacks(),
            ),
    {
        self.pure_op(PureOp::VBin(Shape::I16x8, LaneBinOp::Int(IBinOp::Mul)))
    }

    /// `i16x8.min_s`.
    pub fn i16x8_min_s(&mut self) -> (r: VMState)
        ensures
            final(self).same_instance(old(self)),
            stacks_are(
                old(self).stacks(),
                spec_pure_op(old(self).stacks(), PureOp::VBin(Shape::I16x8, LaneBinOp::MinS)),
                r,
                final(self).stacks(),
            ),
    {
        self.pure_op(PureOp::VBin(Shape::I16x8, LaneBinOp::MinS))
    }

    /// `i16x8.min_u`.
    pub fn i16x8_min_u(&mut self) -> (r: VMState)
        ensures
            final(self).same_instance(old(self)),
            stacks_are(
                old(self).stacks(),
                spec_pure_op(old(self).stacks(), PureOp::VBin(Shape::I16x8, LaneBinOp::MinU)),
                r,
                final(self).stacks(),
            ),
    {
        self.pure_op(PureOp::VBin(Shape::I16x8, LaneBinOp::MinU))
    }

    /// `i16x8.max_s`.
    pub fn i16x8_max_s(&mut self) -> (r: VMState)
        ensures
            final(self).same_instance(old(self)),
            stacks_are(
                old(self).stacks(),
                spec_pure_op(old(self).stacks(), PureOp::VBin(Shape::I16x8, LaneBinOp::MaxS)),
                r,
                final(self).stacks(),
            ),
    {
        self.pure_op(PureOp::VBin(Shape::I16x8, LaneBinOp::MaxS))
    }

    /// `i16x8.max_u`.
    pub fn i16x8_max_u(&mut self) -> (r: VMState)
        ensures
            final(self).same_instance(old(self)),
            stacks_are(
                old(self).stacks(),
                spec_pure_op(old(self).stacks(), PureOp::VBin(Shape::I16x8, LaneBinOp::MaxU)),
                r,
                final(self).stacks(),
            ),
    {
        self.pure_op(PureOp::VBin(Shape::I16x8, LaneBinOp::MaxU))
    }

    /// `i16x8.avgr_u`.
    pub fn i16x8_avgr_u(&mut self) -> (r: VMState)
        ensures
            final(self).same_instance(old(self)),
            stacks_are(
                old(self).stacks(),
                spec_pure_op(old(self).stacks(), PureOp::VBin(Shape::I16x8, LaneBinOp::AvgrU)),
                r,
                final(self).stacks(),
            ),
    {
        self.pure_op(PureOp::VBin(Shape::I16x8, LaneBinOp::AvgrU))
    }

    /// `i16x8.extmul_low_i8x16_s`.
    pub fn i16x8_extmul_low_i8x16_s(&mut self) -> (r: VMState)
        ensures
            final(self).same_instance(old(self)),
            stacks_are(
                old(self).stacks(),
                spec_pure_op(old(self).stacks(), PureOp::VMix(MixOp::ExtMul(Shape::I16x8, false, true))),
                r,
                final(self).stacks(),
            ),
    {
        self.pure_op(PureOp::VMix(MixOp::ExtMul(Shape::I16x8, false, true)))
    }

    /// `i16x8.extmul_high_i8x16_s`.
    pub fn i16x8_extmul_high_i8x16_s(&mut self) -> (r: VMState)
        ensures
            final(self).same_instance(old(self)),
            stacks_are(
                old(self).stacks(),
                spec_pure_op(old(self).stacks(), PureOp::VMix(MixOp::ExtMul(Shape::I16x8, true, true))),
                r,
                final(self).stacks(),
            ),
    {
        self.pure_op(PureOp::VMix(MixOp::ExtMul(Shape::I16x8, true, true)))
    }

    /// `i16x8.extmul_low_i8x16_u`.
    pub fn i16x8_extmul_low_i8x16_u(&mut self) -> (r: VMState)
        ensures
            final(self).same_instance(old(self)),
            stacks_are(
                old(self).stacks(),
                spec_pure_op(old(self).stacks(), PureOp::VMix(MixOp::ExtMul(Shape::I16x8, false, false))),
                r,
                final(self).stacks(),
            ),
    {
        self.pure_op(PureOp::VMix(MixOp::ExtMul(Shape::I16x8, false, false)))
    }

    /// `i16x8.extmul_high_i8x16_u`.
    pub fn i16x8_extmul_high_i8x16_u(&mut self) -> (r: VMState)
        ensures
            final(self).same_instance(old(self)),
            stacks_are(
                old(self).stacks(),
                spec_pure_op(old(self).stacks(), PureOp::VMix(MixOp::ExtMul(Shape::I16x8, true, false))),
                r,
                final(self).stacks(),
            ),
    {
        self.pure_op(PureOp::VMix(MixOp::ExtMul(Shape::I16x8, true, false)))
    }

    /// `i32x4.abs`.
    pub fn i32x4_abs(&mut self) -> (r: VMState)
        ensures
            final(self).same_instance(old(self)),
            stacks_are(
                old(self).stacks(),
                spec_pure_op(old(self).stacks(), PureOp::VUn(Shape::I32x4, IUnOp::Abs)),
                r,
                final(self).stacks(),
            ),
    {
        self.pure_op(PureOp::VUn(Shape::I32x4, IUnOp::Abs))
    }

    /// `i32x4.neg`.
    pub fn i32x4_neg(&mut self) -> (r: VMState)
        ensures
            final(self).same_instance(old(self)),
            stacks_are(
                old(self).stacks(),
                spec_pure_op(old(self).stacks(), PureOp::VUn(Shape::I32x4, IUnOp::Neg)),
                r,
                final(self).stacks(),
            ),
    {
        self.pure_op(PureOp::VUn(Shape::I32x4, IUnOp::Neg))
    }

    /// `i32x4.all_true`.
    pub fn i32x4_all_true(&mut self) -> (r: VMState)
        ensures
            final(self).same_instance(old(self)),
            stacks_are(
                old(self).stacks(),
                spec_pure_op(old(self).stacks(), PureOp::VAllTrue(Shape::I32x4)),
                r,
                final(self).stacks(),
            ),
    {
        self.pure_op(PureOp::VAllTrue(Shape::I32x4))
    }

    /// `i32x4.bitmask`.
    pub fn i32x4_bitmask(&mut self) -> (r: VMState)
        ensures
            final(self).same_instance(old(self)),
            stacks_are(
                old(self).stacks(),
                spec_pure_op(old(self).stacks(), PureOp::VBitmask(Shape::I32x4)),
                r,
                final(self).stacks(),
            ),
    {
        self.pure_op(PureOp::VBitmask(Shape::I32x4))
    }

    /// `i32x4.extend_low_i16x8_s`.
    pub fn i32x4_extend_low_i16x8_s(&mut self) -> (r: VMState)
        ensures
            final(self).same_instance(old(self)),
            stacks_are(
                old(self).stacks(),
                spec_pure_op(old(self).stacks(), PureOp::VMix(MixOp::Extend(Shape::I32x4, false, true))),
                r,
                final(self).stacks(),
            ),
    {
        self.pure_op(PureOp::VMix(MixOp::Extend(Shape::I32x4, false, true)))
    }

    /// `i32x4.extend_high_i16x8_s`.
    pub fn i32x4_extend_high_i16x8_s(&mut self) -> (r: VMState)
        ensures
            final(self).same_instance(old(self)),
            stacks_are(
                old(self).stacks(),
                spec_pure_op(old(self).stacks(), PureOp::VMix(MixOp::Extend(Shape::I32x4, true, true))),
                r,
                final(self).stacks(),
            ),
    {
        self.pure_op(PureOp::VMix(MixOp::Extend(Shape::I32x4, true, true)))
    }

    /// `i32x4.extend_low_i16x8_u`.
    pub fn i32x4_extend_low_i16x8_u(&mut self) -> (r: VMState)
        ensures
            final(self).same_instance(old(self)),
            stacks_are(
                old(self).stacks(),
                spec_pure_op(old(self).stacks(), PureOp::VMix(MixOp::Extend(Shape::I32x4, false, false))),
                r,
                final(self).stacks(),
            ),
    {
        self.pure_op(PureOp::VMix(MixOp::Extend(Shape::I32x4, false, false)))
    }

    /// `i32x4.extend_high_i16x8_u`.
    pub fn i32x4_extend_high_i16x8_u(&mut self) -> (r: VMState)
        ensures
            final(self).same_instance(old(self)),
            stacks_are(
                old(self).stacks(),
                spec_pure_op(old(self).stacks(), PureOp::VMix(MixOp::Extend(Shape::I32x4, true, false))),
                r,
                final(self).stacks(),
            ),
    {
        self.pure_op(PureOp::VMix(MixOp::Extend(Shape::I32x4, true, false)))
    }

    /// `i32x4.shl`.
    pub fn i32x4_shl(&mut self) -> (r: VMState)
        ensures
            final(self).same_instance(old(self)),
            stacks_are(
                old(self).stacks(),
                spec_pure_op(old(self).stacks(), PureOp::VShift(Shape::I32x4, IBinOp::Shl)),
                r,
                final(self).stacks(),
            ),
    {
        self.pure_op(PureOp::VShift(Shape::I32x4, IBinOp::Shl))
    }

    /// `i32x4.shr_s`.
    pub fn i32x4_shr_s(&mut self) -> (r: VMState)
        ensures
            final(self).same_instance(old(self)),
            stacks_are(
                old(self).stacks(),
                spec_pure_op(old(self).stacks(), PureOp::VShift(Shape::I32x4, IBinOp::ShrS)),
                r,
                final(self).stacks(),
            ),
    {
        self.pure_op(PureOp::VShift(Shape::I32x4, IBinOp::ShrS))
    }

    /// `i32x4.shr_u`.
    pub fn i32x4_shr_u(&mut self) -> (r: VMState)
        ensures
            final(self).same_instance(old(self)),
            stacks_are(
                old(self).stacks(),
                spec_pure_op(old(self).stacks(), PureOp::VShift(Shape::I32x4, IBinOp::ShrU)),
                r,
                final(self).stacks(),
            ),
    {
        self.pure_op(PureOp::VShift(Shape::I32x4, IBinOp::ShrU))
    }

    /// `i32x4.add`.
    pub fn i32x4_add(&mut self) -> (r: VMState)
        ensures
            final(self).same_instance(old(self)),
            stacks_are(
                old(self).stacks(),
                spec_pure_op(old(self).stacks(), PureOp::VBin(Shape::I32x4, LaneBinOp::Int(IBinOp::Add))),
                r,
                final(self).stacks(),
            ),
    {
        self.pure_op(PureOp::VBin(Shape::I32x4, LaneBinOp::Int(IBinOp::Add)))
    }

    /// `i32x4.sub`.
    pub fn i32x4_sub(&mut self) -> (r: VMState)
        ensures
            final(self).same_instance(old(self)),
            stacks_are(
                old(self).stacks(),
                spec_pure_op(old(self).stacks(), PureOp::VBin(Shape::I32x4, LaneBinOp::Int(IBinOp::Sub))),
                r,
                final(self).stacks(),
            ),
    {
        self.pure_op(PureOp::VBin(Shape::I32x4, LaneBinOp::Int(IBinOp::Sub)))
    }

    /// `i32x4.mul`.
    pub fn i32x4_mul(&mut self) -> (r: VMState)
        ensures
            final(self).same_instance(old(self)),
            stacks_are(
                old(self).stacks(),
                spec_pure_op(old(self).stacks(), PureOp::VBin(Shape::I32x4, LaneBinOp::Int(IBinOp::Mul))),
                r,
                final(self).stacks(),
            ),
    {
        self.pure_op(PureOp::VBin(Shape::I32x4, LaneBinOp::Int(IBinOp::Mul)))
    }

    /// `i32x4.min_s`.
    pub fn i32x4_min_s(&mut self) -> (r: VMState)
        ensures
            final(self).same_instance(old(self)),
            stacks_are(
                old(self).stacks(),
                spec_pure_op(old(self).stacks(), PureOp::VBin(Shape::I32x4, LaneBinOp::MinS)),
                r,
                final(self).stacks(),
            ),
    {
        self.pure_op(PureOp::VBin(Shape::I32x4, LaneBinOp::MinS))
    }

    /// `i32x4.min_u`.
    pub fn i32x4_min_u(&mut self) -> (r: VMState)
        ensures
            final(self).same_instance(old(self)),
            stacks_are(
                old(self).stacks(),
                spec_pure_op(old(self).stacks(), PureOp::VBin(Shape::I32x4, LaneBinOp::MinU)),
                r,
                final(self).stacks(),
            ),
    {
        self.pure_op(PureOp::VBin(Shape::I32x4, LaneBinOp::MinU))
    }

    /// `i32x4.max_s`.
    pub fn i32x4_max_s(&mut self) -> (r: VMState)
        ensures
            final(self).same_instance(old(self)),
            stacks_are(
                old(self).stacks(),
                spec_pure_op(old(self).stacks(), PureOp::VBin(Shape::I32x4, LaneBinOp::MaxS)),
                r,
                final(self).stacks(),
            ),
    {
        self.pure_op(PureOp::VBin(Shape::I32x4, LaneBinOp::MaxS))
    }

    /// `i32x4.max_u`.
    pub fn i32x4_max_u(&mut self) -> (r: VMState)
        ensures
            final(self).same_instance(old(self)),
            stacks_are(
                old(self).stacks(),
                spec_pure_op(old(self).stacks(), PureOp::VBin(Shape::I32x4, LaneBinOp::MaxU)),
                r,
                final(self).stacks(),
            ),
    {
        self.pure_op(PureOp::VBin(Shape::I32x4, LaneBinOp::MaxU))
    }

    /// `i32x4.dot_i16x8_s`.
    pub fn i32x4_dot_i16x8_s(&mut self) -> (r: VMState)
        ensures
            final(self).same_instance(old(self)),
            stacks_are(
                old(self).stacks(),
                spec_pure_op(old(self).stacks(), PureOp::VMix(MixOp::Dot)),
                r,
                final(self).stacks(),
            ),
    {
        self.pure_op(PureOp::VMix(MixOp::Dot))
    }

    /// `i32x4.extmul_low_i16x8_s`.
    pub fn i32x4_extmul_low_i16x8_s(&mut self) -> (r: VMState)
        ensures
            final(self).same_instance(old(self)),
            stacks_are(
                old(self).stacks(),
                spec_pure_op(old(self).stacks(), PureOp::VMix(MixOp::ExtMul(Shape::I32x4, false, true))),
                r,
                final(self).stacks(),
            ),
    {
        self.pure_op(PureOp::VMix(MixOp::ExtMul(Shape::I32x4, false, true)))
    }

    /// `i32x4.extmul_high_i16x8_s`.
    pub fn i32x4_extmul_high_i16x8_s(&mut self) -> (r: VMState)
        ensures
            final(self).same_instance(old(self)),
            stacks_are(
                old(self).stacks(),
                spec_pure_op(old(self).stacks(), PureOp::VMix(MixOp::ExtMul(Shape::I32x4, true, true))),
                r,
                final(self).stacks(),
            ),
    {
        self.pure_op(PureOp::VMix(MixOp::ExtMul(Shape::I32x4, true, true)))
    }

    /// `i32x4.extmul_low_i16x8_u`.
    pub fn i32x4_extmul_low_i16x8_u(&mut self) -> (r: VMState)
        ensures
            final(self).same_instance(old(self)),
            stacks_are(
                old(self).stacks(),
                spec_pure_op(old(self).stacks(), PureOp::VMix(MixOp::ExtMul(Shape::I32x4, false, false))),
                r,
                final(self).stacks(),
            ),
    {
        self.pure_op(PureOp::VMix(MixOp::ExtMul(Shape::I32x4, false, false)))
    }

    /// `i32x4.extmul_high_i16x8_u`.
    pub fn i32x4_extmul_high_i16x8_u(&mut self) -> (r: VMState)
        ensures
            final(self).same_instance(old(self)),
            stacks_are(
                old(self).stacks(),
                spec_pure_op(old(self).stacks(), PureOp::VMix(MixOp::ExtMul(Shape::I32x4, true, false))),
                r,
                final(self).stacks(),
            ),
    {
        self.pure_op(PureOp::VMix(MixOp::ExtMul(Shape::I32x4, true, false)))
    }

    /// `i64x2.abs`.
    pub fn i64x2_abs(&mut self) -> (r: VMState)
        ensures
            final(self).same_instance(old(self)),
            stacks_are(
                old(self).stacks(),
                spec_pure_op(old(self).stacks(), PureOp::VUn(Shape::I64x2, IUnOp::Abs)),
                r,
                final(self).stacks(),
            ),
    {
        self.pure_op(PureOp::VUn(Shape::I64x2, IUnOp::Abs))
    }

    /// `i64x2.neg`.
    pub fn i64x2_neg(&mut self) -> (r: VMState)
        ensures
            final(self).same_instance(old(self)),
            stacks_are(
                old(self).stacks(),
                spec_pure_op(old(self).stacks(), PureOp::VUn(Shape::I64x2, IUnOp::Neg)),
                r,
                final(self).stacks(),
            ),
    {
        self.pure_op(PureOp::VUn(Shape::I64x2, IUnOp::Neg))
    }

    /// `i64x2.all_true`.
    pub fn i64x2_all_true(&mut self) -> (r: VMState)
        ensures
            final(self).same_instance(old(self)),
            stacks_are(
                old(self).stacks(),
                spec_pure_op(old(self).stacks(), PureOp::VAllTrue(Shape::I64x2)),
                r,
                final(self).stacks(),
            ),
    {
        self.pure_op(PureOp::VAllTrue(Shape::I64x2))
    }

    /// `i64x2.bitmask`.
    pub fn i64x2_bitmask(&mut self) -> (r: VMState)
        ensures
            final(self).same_instance(old(self)),
            stacks_are(
                old(self).stacks(),
                spec_pure_op(old(self).stacks(), PureOp::VBitmask(Shape::I64x2)),
                r,
                final(self).stacks(),
            ),
    {
        self.pure_op(PureOp::VBitmask(Shape::I64x2))
    }

    /// `i64x2.extend_low_i32x4_s`.
    pub fn i64x2_extend_low_i32x4_s(&mut self) -> (r: VMState)
        ensures
            final(self).same_instance(old(self)),
            stacks_are(
                old(self).stacks(),
                spec_pure_op(old(self).stacks(), PureOp::VMix(MixOp::Extend(Shape::I64x2, false, true))),
                r,
                final(self).stacks(),
            ),
    {
        self.pure_op(PureOp::VMix(MixOp::Extend(Shape::I64x2, false, true)))
    }

    /// `i64x2.extend_high_i32x4_s`.
    pub fn i64x2_extend_high_i32x4_s(&mut self) -> (r: VMState)
        ensures
            final(self).same_instance(old(self)),
            stacks_are(
                old(self).stacks(),
                spec_pure_op(old(self).stacks(), PureOp::VMix(MixOp::Extend(Shape::I64x2, true, true))),
                r,
                final(self).stacks(),
            ),
    {
        self.pure_op(PureOp::VMix(MixOp::Extend(Shape::I64x2, true, true)))
    }

    /// `i64x2.extend_low_i32x4_u`.
    pub fn i64x2_extend_low_i32x4_u(&mut self) -> (r: VMState)
        ensures
            final(self).same_instance(old(self)),
            stacks_are(
                old(self).stacks(),
                spec_pure_op(old(self).stacks(), PureOp::VMix(MixOp::Extend(Shape::I64x2, false, false))),
                r,
                final(self).stacks(),
            ),
    {
        self.pure_op(PureOp::VMix(MixOp::Extend(Shape::I64x2, false, false)))
    }

    /// `i64x2.extend_high_i32x4_u`.
    pub fn i64x2_extend_high_i32x4_u(&mut self) -> (r: VMState)
        ensures
            final(self).same_instance(old(self)),
            stacks_are(
                old(self).stacks(),
                spec_pure_op(old(self).stacks(), PureOp::VMix(MixOp::Extend(Shape::I64x2, true, false))),
                r,
                final(self).stacks(),
            ),
    {
        self.pure_op(PureOp::VMix(MixOp::Extend(Shape::I64x2, true, false)))
    }

    /// `i64x2.shl`.
    pub fn i64x2_shl(&mut self) -> (r: VMState)
        ensures
            final(self).same_instance(old(self)),
            stacks_are(
                old(self).stacks(),
                spec_pure_op(old(self).stacks(), PureOp::VShift(Shape::I64x2, IBinOp::Shl)),
                r,
                final(self).stacks(),
            ),
    {
        self.pure_op(PureOp::VShift(Shape::I64x2, IBinOp::Shl))
    }

    /// `i64x2.shr_s`.
    pub fn i64x2_shr_s(&mut self) -> (r: VMState)
        ensures
            final(self).same_instance(old(self)),
            stacks_are(
                old(self).stacks(),
                spec_pure_op(old(self).stacks(), PureOp::VShift(Shape::I64x2, IBinOp::ShrS)),
                r,
                final(self).stacks(),
            ),
    {
        self.pure_op(PureOp::VShift(Shape::I64x2, IBinOp::ShrS))
    }

    /// `i64x2.shr_u`.
    pub fn i64x2_shr_u(&mut self) -> (r: VMState)
        ensures
            final(self).same_instance(old(self)),
            stacks_are(
                old(self).stacks(),
                spec_pure_op(old(self).stacks(), PureOp::VShift(Shape::I64x2, IBinOp::ShrU)),
                r,
                final(self).stacks(),
            ),
    {
        self.pure_op(PureOp::VShift(Shape::I64x2, IBinOp::ShrU))
    }

    /// `i64x2.add`.
    pub fn i64x2_add(&mut self) -> (r: VMState)
        ensures
            final(self).same_instance(old(self)),
            stacks_are(
                old(self).stacks(),
                spec_pure_op(old(self).stacks(), PureOp::VBin(Shape::I64x2, LaneBinOp::Int(IBinOp::Add))),
                r,
                final(self).stacks(),
            ),
    {
        self.pure_op(PureOp::VBin(Shape::I64x2, LaneBinOp::Int(IBinOp::Add)))
    }

    /// `i64x2.sub`.
    pub fn i64x2_sub(&mut self) -> (r: VMState)
        ensures
            final(self).same_instance(old(self)),
            stacks_are(
                old(self).stacks(),
                spec_pure_op(old(self).stacks(), PureOp::VBin(Shape::I64x2, LaneBinOp::Int(IBinOp::Sub))),
                r,
                final(self).stacks(),
            ),
    {
        self.pure_op(PureOp::VBin(Shape::I64x2, LaneBinOp::Int(IBinOp::Sub)))
    }

    /// `i64x2.mul`.
    pub fn i64x2_mul(&mut self) -> (r: VMState)
        ensures
            final(self).same_instance(old(self)),
            stacks_are(
                old(self).stacks(),
                spec_pure_op(old(self).stacks(), PureOp::VBin(Shape::I64x2, LaneBinOp::Int(IBinOp::Mul))),
                r,
                final(self).stacks(),
            ),
    {
        self.pure_op(PureOp::VBin(Shape::I64x2, LaneBinOp::Int(IBinOp::Mul)))
    }

    /// `i64x2.eq`.
    pub fn i64x2_eq(&mut self) -> (r: VMState)
        ensures
            final(self).same_instance(old(self)),
            stacks_are(
                old(self).stacks(),
                spec_pure_op(old(self).stacks(), PureOp::VBin(Shape::I64x2, LaneBinOp::Rel(IRelOp::Eq))),
                r,
                final(self).stacks(),
            ),
    {
        self.pure_op(PureOp::VBin(Shape::I64x2, LaneBinOp::Rel(IRelOp::Eq)))
    }

    /// `i64x2.ne`.
    pub fn i64x2_ne(&mut self) -> (r: VMState)
        ensures
            final(self).same_instance(old(self)),
            stacks_are(
                old(self).stacks(),
                spec_pure_op(old(self).stacks(), PureOp::VBin(Shape::I64x2, LaneBinOp::Rel(IRelOp::Ne))),
                r,
                final(self).stacks(),
            ),
    {
        self.pure_op(PureOp::VBin(Shape::I64x2, LaneBinOp::Rel(IRelOp::Ne)))
    }

    /// `i64x2.lt_s`.
    pub fn i64x2_lt_s(&mut self) -> (r: VMState)
        ensures
            final(self).same_instance(old(self)),
            stacks_are(
                old(self).stacks(),
                spec_pure_op(old(self).stacks(), PureOp::VBin(Shape::I64x2, LaneBinOp::Rel(IRelOp::LtS))),
                r,
                final(self).stacks(),
            ),
    {
        self.pure_op(PureOp::VBin(Shape::I64x2, LaneBinOp::Rel(IRelOp::LtS)))
    }

    /// `i64x2.gt_s`.
    pub fn i64x2_gt_s(&mut self) -> (r: VMState)
        ensures
            final(self).same_instance(old(self)),
            stacks_are(
                old(self).stacks(),
                spec_pure_op(old(self).stacks(), PureOp::VBin(Shape::I64x2, LaneBinOp::Rel(IRelOp::GtS))),
                r,
                final(self).stacks(),
            ),
    {
        self.pure_op(PureOp::VBin(Shape::I64x2, LaneBinOp::Rel(IRelOp::GtS)))
    }

    /// `i64x2.le_s`.
    pub fn i64x2_le_s(&mut self) -> (r: VMState)
        ensures
            final(self).same_instance(old(self)),
            stacks_are(
                old(self).stacks(),
                spec_pure_op(old(self).stacks(), PureOp::VBin(Shape::I64x2, LaneBinOp::Rel(IRelOp::LeS))),
                r,
                final(self).stacks(),
            ),
    {
        self.pure_op(PureOp::VBin(Shape::I64x2, LaneBinOp::Rel(IRelOp::LeS)))
    }

    /// `i64x2.ge_s`.
    pub fn i64x2_ge_s(&mut self) -> (r: VMState)
        ensures
            final(self).same_instance(old(self)),
            stacks_are(
                old(self).stacks(),
                spec_pure_op(old(self).stacks(), PureOp::VBin(Shape::I64x2, LaneBinOp::Rel(IRelOp::GeS))),
                r,
                final(self).stacks(),
            ),
    {
        self.pure_op(PureOp::VBin(Shape::I64x2, LaneBinOp::Rel(IRelOp::GeS)))
    }

    /// `i64x2.extmul_low_i32x4_s`.
    pub fn i64x2_extmul_low_i32x4_s(&mut self) -> (r: VMState)
        ensures
            final(self).same_instance(old(self)),
            stacks_are(
                old(self).stacks(),
                spec_pure_op(old(self).stacks(), PureOp::VMix(MixOp::ExtMul(Shape::I64x2, false, true))),
                r,
                final(self).stacks(),
            ),
    {
        self.pure_op(PureOp::VMix(MixOp::ExtMul(Shape::I64x2, false, true)))
    }

    /// `i64x2.extmul_high_i32x4_s`.
    pub fn i64x2_extmul_high_i32x4_s(&mut self) -> (r: VMState)
        ensures
            final(self).same_instance(old(self)),
            stacks_are(
                old(self).stacks(),
                spec_pure_op(old(self).stacks(), PureOp::VMix(MixOp::ExtMul(Shape::I64x2, true, true))),
                r,
                final(self).stacks(),
            ),
    {
        self.pure_op(PureOp::VMix(MixOp::ExtMul(Shape::I64x2, true, true)))
    }

    /// `i64x2.extmul_low_i32x4_u`.
    pub fn i64x2_extmul_low_i32x4_u(&mut self) -> (r: VMState)
        ensures
            final(self).same_instance(old(self)),
            stacks_are(
                old(self).stacks(),
                spec_pure_op(old(self).stacks(), PureOp::VMix(MixOp::ExtMul(Shape::I64x2, false, false))),
                r,
                final(self).stacks(),
            ),
    {
        self.pure_op(PureOp::VMix(MixOp::ExtMul(Shape::I64x2, false, false)))
    }

    /// `i64x2.extmul_high_i32x4_u`.
    pub fn i64x2_extmul_high_i32x4_u(&mut self) -> (r: VMState)
        ensures
            final(self).same_instance(old(self)),
            stacks_are(
                old(self).stacks(),
                spec_pure_op(old(self).stacks(), PureOp::VMix(MixOp::ExtMul(Shape::I64x2, true, false))),
                r,
                final(self).stacks(),
            ),
    {
        self.pure_op(PureOp::VMix(MixOp::ExtMul(Shape::I64x2, true, false)))
    }

    /// `f32x4.abs`.
    pub fn f32x4_abs(&mut self) -> (r: VMState)
        ensures
            final(self).same_instance(old(self)),
            stacks_are(
                old(self).stacks(),
                spec_pure_op(old(self).stacks(), PureOp::VFBit(Width::W32, FBitOp::Abs)),
                r,
                final(self).stacks(),
            ),
    {
        self.pure_op(PureOp::VFBit(Width::W32, FBitOp::Abs))
    }

    /// `f32x4.neg`.
    pub fn f32x4_neg(&mut self) -> (r: VMState)
        ensures
            final(self).same_instance(old(self)),
            stacks_are(
                old(self).stacks(),
                spec_pure_op(old(self).stacks(), PureOp::VFBit(Width::W32, FBitOp::Neg)),
                r,
                final(self).stacks(),
            ),
    {
        self.pure_op(PureOp::VFBit(Width::W32, FBitOp::Neg))
    }

    /// `f64x2.abs`.
    pub fn f64x2_abs(&mut self) -> (r: VMState)
        ensures
            final(self).same_instance(old(self)),
            stacks_are(
                old(self).stacks(),
                spec_pure_op(old(self).stacks(), PureOp::VFBit(Width::W64, FBitOp::Abs)),
                r,
                final(self).stacks(),
            ),
    {
        self.pure_op(PureOp::VFBit(Width::W64, FBitOp::Abs))
    }

    /// `f64x2.neg`.
    pub fn f64x2_neg(&mut self) -> (r: VMState)
        ensures
            final(self).same_instance(old(self)),
            stacks_are(
                old(self).stacks(),
                spec_pure_op(old(self).stacks(), PureOp::VFBit(Width::W64, FBitOp::Neg)),
                r,
                final(self).stacks(),
            ),
    {
        self.pure_op(PureOp::VFBit(Width::W64, FBitOp::Neg))
    }

    /// `i32x4.trunc_sat_f32x4_s`.
    pub fn i32x4_trunc_sat_f32x4_s(&mut self) -> (r: VMState)
        ensures
            final(self).same_instance(old(self)),
            stacks_are(
                old(self).stacks(),
                spec_pure_op(old(self).stacks(), PureOp::VTruncSat(Width::W32, true)),
                r,
                final(self).stacks(),
            ),
    {
        self.pure_op(PureOp::VTruncSat(Width::W32, true))
    }

    /// `i32x4.trunc_sat_f32x4_u`.
    pub fn i32x4_trunc_sat_f32x4_u(&mut self) -> (r: VMState)
        ensures
            final(self).same_instance(old(self)),
            stacks_are(
                old(self).stacks(),
                spec_pure_op(old(self).stacks(), PureOp::VTruncSat(Width::W32, false)),
                r,
                final(self).stacks(),
            ),
    {
        self.pure_op(PureOp::VTruncSat(Width::W32, false))
    }

    /// `i32x4.trunc_sat_f64x2_s_zero`.
    pub fn i32x4_trunc_sat_f64x2_s_zero(&mut self) -> (r: VMState)
        ensures
            final(self).same_instance(old(self)),
            stacks_are(
                old(self).stacks(),
                spec_pure_op(old(self).stacks(), PureOp::VTruncSat(Width::W64, true)),
                r,
                final(self).stacks(),
            ),
    {
        self.pure_op(PureOp::VTruncSat(Width::W64, true))
    }

    /// `i32x4.trunc_sat_f64x2_u_zero`.
    pub fn i32x4_trunc_sat_f64x2_u_zero(&mut self) -> (r: VMState)
        ensures
            final(self).same_instance(old(self)),
            stacks_are(
                old(self).stacks(),
                spec_pure_op(old(self).stacks(), PureOp::VTruncSat(Width::W64, false)),
                r,
                final(self).stacks(),
            ),
    {
        self.pure_op(PureOp::VTruncSat(Width::W64, false))
    }
}

} // verus!
