//! The dispatcher: what each instruction does to the machine, and the
//! steps of a run.

use vstd::prelude::*;

use super::alu::IBinOp;
use super::alu::IRelOp;
use super::alu::IUnOp;
use super::alu::Width;
use super::control::indirect_is;
use super::control::spec_block;
use super::control::spec_br;
use super::control::spec_br_if;
use super::control::spec_br_table;
use super::control::spec_call_indirect_op;
use super::control::spec_call_op;
use super::control::spec_exit_block;
use super::control::spec_if;
use super::control::spec_return;
use super::float::FRelOp;
use super::lanes::LaneBinOp;
use super::lanes::MixOp;
use super::lanes::Shape;
use super::memory::bulk_post;
use super::memory::spec_load;
use super::memory::spec_load_lane;
use super::memory::spec_memory_copy;
use super::memory::spec_memory_fill;
use super::memory::spec_memory_init;
use super::memory::spec_memory_size;
use super::memory::Load;
use super::memory::StoreOp;
use super::parametric::spec_drop;
use super::parametric::spec_select;
use super::pure::FBitOp;
use super::pure::LaneGet;
use super::pure::PureOp;
use super::pure::VBitOp;
use super::reference::spec_ref_func;
use super::reference::spec_ref_null;
use super::table::spec_table_copy;
use super::trunc_sat::TruncSize;
use super::table::spec_table_fill;
use super::table::spec_table_get;
use super::table::spec_table_init;
use super::table::spec_table_set;
use super::table::spec_table_size;
use super::table::table_post;
use super::variable::spec_global_get;
use super::variable::spec_local_get;
use super::variable::spec_local_set;
use super::variable::spec_local_tee;
use crate::binary::instruction::Instruction;
use crate::binary::instruction::MemoryArg;
use crate::execution::errors::Trap;
use crate::execution::errors::VMState;
use crate::execution::errors::VmError;
use crate::execution::inst::function::share;
use crate::execution::stack::frame::Frame;
use crate::execution::stack::frame::LabelKind;
use crate::execution::value::spec_v128_from_bytes;
use crate::execution::value::v128;
use crate::execution::value::ValInst;
use crate::execution::vm::spec_pure_op;
use crate::execution::vm::stacks_are;
use crate::execution::vm::Stacks;
use crate::execution::vm::Step;
use crate::execution::vm::Store;
use crate::execution::vm::VM;

verus! {

/// The computation that an instruction stands for, if it only computes.
pub open spec fn spec_pure_of(i: Instruction) -> Option<PureOp> {
    match i {
        Instruction::I32Const(x) => Some(PureOp::Const(ValInst::I32(x))),
        Instruction::I64Const(x) => Some(PureOp::Const(ValInst::I64(x))),
        Instruction::F32Const(x) => Some(PureOp::Const(ValInst::F32(x))),
        Instruction::F64Const(x) => Some(PureOp::Const(ValInst::F64(x))),
        Instruction::I32Eqz => Some(PureOp::IEqz(Width::W32)),
        Instruction::I32Eq => Some(PureOp::IRel(Width::W32, IRelOp::Eq)),
        Instruction::I32Ne => Some(PureOp::IRel(Width::W32, IRelOp::Ne)),
        Instruction::I32LtS => Some(PureOp::IRel(Width::W32, IRelOp::LtS)),
        Instruction::I32LtU => Some(PureOp::IRel(Width::W32, IRelOp::LtU)),
        Instruction::I32GtS => Some(PureOp::IRel(Width::W32, IRelOp::GtS)),
        Instruction::I32GtU => Some(PureOp::IRel(Width::W32, IRelOp::GtU)),
        Instruction::I32LeS => Some(PureOp::IRel(Width::W32, IRelOp::LeS)),
        Instruction::I32LeU => Some(PureOp::IRel(Width::W32, IRelOp::LeU)),
        Instruction::I32GeS => Some(PureOp::IRel(Width::W32, IRelOp::GeS)),
        Instruction::I32GeU => Some(PureOp::IRel(Width::W32, IRelOp::GeU)),
        Instruction::I64Eqz => Some(PureOp::IEqz(Width::W64)),
        Instruction::I64Eq => Some(PureOp::IRel(Width::W64, IRelOp::Eq)),
        Instruction::I64Ne => Some(PureOp::IRel(Width::W64, IRelOp::Ne)),
        Instruction::I64LtS => Some(PureOp::IRel(Width::W64, IRelOp::LtS)),
        Instruction::I64LtU => Some(PureOp::IRel(Width::W64, IRelOp::LtU)),
        Instruction::I64GtS => Some(PureOp::IRel(Width::W64, IRelOp::GtS)),
        Instruction::I64GtU => Some(PureOp::IRel(Width::W64, IRelOp::GtU)),
        Instruction::I64LeS => Some(PureOp::IRel(Width::W64, IRelOp::LeS)),
        Instruction::I64LeU => Some(PureOp::IRel(Width::W64, IRelOp::LeU)),
        Instruction::I64GeS => Some(PureOp::IRel(Width::W64, IRelOp::GeS)),
        Instruction::I64GeU => Some(PureOp::IRel(Width::W64, IRelOp::GeU)),
        Instruction::F32Eq => Some(PureOp::FRel(Width::W32, FRelOp::Eq)),
        Instruction::F32Ne => Some(PureOp::FRel(Width::W32, FRelOp::Ne)),
        Instruction::F32Lt => Some(PureOp::FRel(Width::W32, FRelOp::Lt)),
        Instruction::F32Gt => Some(PureOp::FRel(Width::W32, FRelOp::Gt)),
        Instruction::F32Le => Some(PureOp::FRel(Width::W32, FRelOp::Le)),
        Instruction::F32Ge => Some(PureOp::FRel(Width::W32, FRelOp::Ge)),
        Instruction::F64Eq => Some(PureOp::FRel(Width::W64, FRelOp::Eq)),
        Instruction::F64Ne => Some(PureOp::FRel(Width::W64, FRelOp::Ne)),
        Instruction::F64Lt => Some(PureOp::FRel(Width::W64, FRelOp::Lt)),
        Instruction::F64Gt => Some(PureOp::FRel(Width::W64, FRelOp::Gt)),
        Instruction::F64Le => Some(PureOp::FRel(Width::W64, FRelOp::Le)),
        Instruction::F64Ge => Some(PureOp::FRel(Width::W64, FRelOp::Ge)),
        Instruction::I32Clz => Some(PureOp::IUn(Width::W32, IUnOp::Clz)),
        Instruction::I32Ctz => Some(PureOp::IUn(Width::W32, IUnOp::Ctz)),
        Instruction::I32Popcnt => Some(PureOp::IUn(Width::W32, IUnOp::Popcnt)),
        Instruction::I32Add => Some(PureOp::IBin(Width::W32, IBinOp::Add)),
        Instruction::I32Sub => Some(PureOp::IBin(Width::W32, IBinOp::Sub)),
        Instruction::I32Mul => Some(PureOp::IBin(Width::W32, IBinOp::Mul)),
        Instruction::I32DivS => Some(PureOp::IBin(Width::W32, IBinOp::DivS)),
        Instruction::I32DivU => Some(PureOp::IBin(Width::W32, IBinOp::DivU)),
        Instruction::I32RemS => Some(PureOp::IBin(Width::W32, IBinOp::RemS)),
        Instruction::I32RemU => Some(PureOp::IBin(Width::W32, IBinOp::RemU)),
        Instruction::I32And => Some(PureOp::IBin(Width::W32, IBinOp::And)),
        Instruction::I32Or => Some(PureOp::IBin(Width::W32, IBinOp::Or)),
        Instruction::I32Xor => Some(PureOp::IBin(Width::W32, IBinOp::Xor)),
        Instruction::I32Shl => Some(PureOp::IBin(Width::W32, IBinOp::Shl)),
        Instruction::I32ShrS => Some(PureOp::IBin(Width::W32, IBinOp::ShrS)),
        Instruction::I32ShrU => Some(PureOp::IBin(Width::W32, IBinOp::ShrU)),
        Instruction::I32Rotl => Some(PureOp::IBin(Width::W32, IBinOp::Rotl)),
        Instruction::I32Rotr => Some(PureOp::IBin(Width::W32, IBinOp::Rotr)),
        Instruction::I64Clz => Some(PureOp::IUn(Width::W64, IUnOp::Clz)),
        Instruction::I64Ctz => Some(PureOp::IUn(Width::W64, IUnOp::Ctz)),
        Instruction::I64Popcnt => Some(PureOp::IUn(Width::W64, IUnOp::Popcnt)),
        Instruction::I64Add => Some(PureOp::IBin(Width::W64, IBinOp::Add)),
        Instruction::I64Sub => Some(PureOp::IBin(Width::W64, IBinOp::Sub)),
        Instruction::I64Mul => Some(PureOp::IBin(Width::W64, IBinOp::Mul)),
        Instruction::I64DivS => Some(PureOp::IBin(Width::W64, IBinOp::DivS)),
        Instruction::I64DivU => Some(PureOp::IBin(Width::W64, IBinOp::DivU)),
        Instruction::I64RemS => Some(PureOp::IBin(Width::W64, IBinOp::RemS)),
        Instruction::I64RemU => Some(PureOp::IBin(Width::W64, IBinOp::RemU)),
        Instruction::I64And => Some(PureOp::IBin(Width::W64, IBinOp::And)),
        Instruction::I64Or => Some(PureOp::IBin(Width::W64, IBinOp::Or)),
        Instruction::I64Xor => Some(PureOp::IBin(Width::W64, IBinOp::Xor)),
        Instruction::I64Shl => Some(PureOp::IBin(Width::W64, IBinOp::Shl)),
        Instruction::I64ShrS => Some(PureOp::IBin(Width::W64, IBinOp::ShrS)),
        Instruction::I64ShrU => Some(PureOp::IBin(Width::W64, IBinOp::ShrU)),
        Instruction::I64Rotl => Some(PureOp::IBin(Width::W64, IBinOp::Rotl)),
        Instruction::I64Rotr => Some(PureOp::IBin(Width::W64, IBinOp::Rotr)),
        Instruction::F32Abs => Some(PureOp::FBit(Width::W32, FBitOp::Abs)),
        Instruction::F32Neg => Some(PureOp::FBit(Width::W32, FBitOp::Neg)),
        Instruction::F32Copysign => Some(PureOp::FBit(Width::W32, FBitOp::Copysign)),
        Instruction::F64Abs => Some(PureOp::FBit(Width::W64, FBitOp::Abs)),
        Instruction::F64Neg => Some(PureOp::FBit(Width::W64, FBitOp::Neg)),
        Instruction::F64Copysign => Some(PureOp::FBit(Width::W64, FBitOp::Copysign)),
        Instruction::I32WrapI64 => Some(PureOp::Wrap),
        Instruction::I32TruncF32S => Some(PureOp::Trunc(Width::W32, TruncSize::N32, true, false)),
        Instruction::I32TruncF32U => Some(PureOp::Trunc(Width::W32, TruncSize::N32, false, false)),
        Instruction::I32TruncF64S => Some(PureOp::Trunc(Width::W64, TruncSize::N32, true, false)),
        Instruction::I32TruncF64U => Some(PureOp::Trunc(Width::W64, TruncSize::N32, false, false)),
        Instruction::I64ExtendI32S => Some(PureOp::Extend(true)),
        Instruction::I64ExtendI32U => Some(PureOp::Extend(false)),
        Instruction::I64TruncF32S => Some(PureOp::Trunc(Width::W32, TruncSize::N64, true, false)),
        Instruction::I64TruncF32U => Some(PureOp::Trunc(Width::W32, TruncSize::N64, false, false)),
        Instruction::I64TruncF64S => Some(PureOp::Trunc(Width::W64, TruncSize::N64, true, false)),
        Instruction::I64TruncF64U => Some(PureOp::Trunc(Width::W64, TruncSize::N64, false, false)),
        Instruction::I32ReinterpretF32 => Some(PureOp::FloatBits(Width::W32)),
        Instruction::I64ReinterpretF64 => Some(PureOp::FloatBits(Width::W64)),
        Instruction::F32ReinterpretI32 => Some(PureOp::BitsFloat(Width::W32)),
        Instruction::F64ReinterpretI64 => Some(PureOp::BitsFloat(Width::W64)),
        Instruction::I32Extend8S => Some(PureOp::IUn(Width::W32, IUnOp::Extend8S)),
        Instruction::I32Extend16S => Some(PureOp::IUn(Width::W32, IUnOp::Extend16S)),
        Instruction::I64Extend8S => Some(PureOp::IUn(Width::W64, IUnOp::Extend8S)),
        Instruction::I64Extend16S => Some(PureOp::IUn(Width::W64, IUnOp::Extend16S)),
        Instruction::I64Extend32S => Some(PureOp::IUn(Width::W64, IUnOp::Extend32S)),
        Instruction::RefIsNull => Some(PureOp::RefIsNull),
        Instruction::I32TruncSatF32S => Some(PureOp::Trunc(Width::W32, TruncSize::N32, true, true)),
        Instruction::I32TruncSatF32U => Some(PureOp::Trunc(Width::W32, TruncSize::N32, false, true)),
        Instruction::I32TruncSatF64S => Some(PureOp::Trunc(Width::W64, TruncSize::N32, true, true)),
        Instruction::I32TruncSatF64U => Some(PureOp::Trunc(Width::W64, TruncSize::N32, false, true)),
        Instruction::I64TruncSatF32S => Some(PureOp::Trunc(Width::W32, TruncSize::N64, true, true)),
        Instruction::I64TruncSatF32U => Some(PureOp::Trunc(Width::W32, TruncSize::N64, false, true)),
        Instruction::I64TruncSatF64S => Some(PureOp::Trunc(Width::W64, TruncSize::N64, true, true)),
        Instruction::I64TruncSatF64U => Some(PureOp::Trunc(Width::W64, TruncSize::N64, false, true)),
        Instruction::V128Const(x) => Some(PureOp::Const(ValInst::V128(x))),
        Instruction::I8x16Shuffle(l) => Some(PureOp::VShuffle(spec_v128_from_bytes(l@))),
        Instruction::I8x16Swizzle => Some(PureOp::VMix(MixOp::Swizzle)),
        Instruction::I8x16Splat => Some(PureOp::VSplat(Shape::I8x16, false)),
        Instruction::I16x8Splat => Some(PureOp::VSplat(Shape::I16x8, false)),
        Instruction::I32x4Splat => Some(PureOp::VSplat(Shape::I32x4, false)),
        Instruction::I64x2Splat => Some(PureOp::VSplat(Shape::I64x2, false)),
        Instruction::F32x4Splat => Some(PureOp::VSplat(Shape::I32x4, true)),
        Instruction::F64x2Splat => Some(PureOp::VSplat(Shape::I64x2, true)),
        Instruction::I8x16ExtractLaneS(l) => Some(PureOp::VExtract(Shape::I8x16, LaneGet::Signed, l)),
        Instruction::I8x16ExtractLaneU(l) => Some(PureOp::VExtract(Shape::I8x16, LaneGet::Unsigned, l)),
        Instruction::I8x16ReplaceLane(l) => Some(PureOp::VReplace(Shape::I8x16, false, l)),
        Instruction::I16x8ExtractLaneS(l) => Some(PureOp::VExtract(Shape::I16x8, LaneGet::Signed, l)),
        Instruction::I16x8ExtractLaneU(l) => Some(PureOp::VExtract(Shape::I16x8, LaneGet::Unsigned, l)),
        Instruction::I16x8ReplaceLane(l) => Some(PureOp::VReplace(Shape::I16x8, false, l)),
        Instruction::I32x4ExtractLane(l) => Some(PureOp::VExtract(Shape::I32x4, LaneGet::Signed, l)),
        Instruction::I32x4ReplaceLane(l) => Some(PureOp::VReplace(Shape::I32x4, false, l)),
        Instruction::I64x2ExtractLane(l) => Some(PureOp::VExtract(Shape::I64x2, LaneGet::Signed, l)),
        Instruction::I64x2ReplaceLane(l) => Some(PureOp::VReplace(Shape::I64x2, false, l)),
        Instruction::F32x4ExtractLane(l) => Some(PureOp::VExtract(Shape::I32x4, LaneGet::Float, l)),
        Instruction::F32x4ReplaceLane(l) => Some(PureOp::VReplace(Shape::I32x4, true, l)),
        Instruction::F64x2ExtractLane(l) => Some(PureOp::VExtract(Shape::I64x2, LaneGet::Float, l)),
        Instruction::F64x2ReplaceLane(l) => Some(PureOp::VReplace(Shape::I64x2, true, l)),
        Instruction::I8x16Eq => Some(PureOp::VBin(Shape::I8x16, LaneBinOp::Rel(IRelOp::Eq))),
        Instruction::I8x16Ne => Some(PureOp::VBin(Shape::I8x16, LaneBinOp::Rel(IRelOp::Ne))),
        Instruction::I8x16LtS => Some(PureOp::VBin(Shape::I8x16, LaneBinOp::Rel(IRelOp::LtS))),
        Instruction::I8x16LtU => Some(PureOp::VBin(Shape::I8x16, LaneBinOp::Rel(IRelOp::LtU))),
        Instruction::I8x16GtS => Some(PureOp::VBin(Shape::I8x16, LaneBinOp::Rel(IRelOp::GtS))),
        Instruction::I8x16GtU => Some(PureOp::VBin(Shape::I8x16, LaneBinOp::Rel(IRelOp::GtU))),
        Instruction::I8x16LeS => Some(PureOp::VBin(Shape::I8x16, LaneBinOp::Rel(IRelOp::LeS))),
        Instruction::I8x16LeU => Some(PureOp::VBin(Shape::I8x16, LaneBinOp::Rel(IRelOp::LeU))),
        Instruction::I8x16GeS => Some(PureOp::VBin(Shape::I8x16, LaneBinOp::Rel(IRelOp::GeS))),
        Instruction::I8x16GeU => Some(PureOp::VBin(Shape::I8x16, LaneBinOp::Rel(IRelOp::GeU))),
        Instruction::I16x8Eq => Some(PureOp::VBin(Shape::I16x8, LaneBinOp::Rel(IRelOp::Eq))),
        Instruction::I16x8Ne => Some(PureOp::VBin(Shape::I16x8, LaneBinOp::Rel(IRelOp::Ne))),
        Instruction::I16x8LtS => Some(PureOp::VBin(Shape::I16x8, LaneBinOp::Rel(IRelOp::LtS))),
        Instruction::I16x8LtU => Some(PureOp::VBin(Shape::I16x8, LaneBinOp::Rel(IRelOp::LtU))),
        Instruction::I16x8GtS => Some(PureOp::VBin(Shape::I16x8, LaneBinOp::Rel(IRelOp::GtS))),
        Instruction::I16x8GtU => Some(PureOp::VBin(Shape::I16x8, LaneBinOp::Rel(IRelOp::GtU))),
        Instruction::I16x8LeS => Some(PureOp::VBin(Shape::I16x8, LaneBinOp::Rel(IRelOp::LeS))),
        Instruction::I16x8LeU => Some(PureOp::VBin(Shape::I16x8, LaneBinOp::Rel(IRelOp::LeU))),
        Instruction::I16x8GeS => Some(PureOp::VBin(Shape::I16x8, LaneBinOp::Rel(IRelOp::GeS))),
        Instruction::I16x8GeU => Some(PureOp::VBin(Shape::I16x8, LaneBinOp::Rel(IRelOp::GeU))),
        Instruction::I32x4Eq => Some(PureOp::VBin(Shape::I32x4, LaneBinOp::Rel(IRelOp::Eq))),
        Instruction::I32x4Ne => Some(PureOp::VBin(Shape::I32x4, LaneBinOp::Rel(IRelOp::Ne))),
        Instruction::I32x4LtS => Some(PureOp::VBin(Shape::I32x4, LaneBinOp::Rel(IRelOp::LtS))),
        Instruction::I32x4LtU => Some(PureOp::VBin(Shape::I32x4, LaneBinOp::Rel(IRelOp::LtU))),
        Instruction::I32x4GtS => Some(PureOp::VBin(Shape::I32x4, LaneBinOp::Rel(IRelOp::GtS))),
        Instruction::I32x4GtU => Some(PureOp::VBin(Shape::I32x4, LaneBinOp::Rel(IRelOp::GtU))),
        Instruction::I32x4LeS => Some(PureOp::VBin(Shape::I32x4, LaneBinOp::Rel(IRelOp::LeS))),
        Instruction::I32x4LeU => Some(PureOp::VBin(Shape::I32x4, LaneBinOp::Rel(IRelOp::LeU))),
        Instruction::I32x4GeS => Some(PureOp::VBin(Shape::I32x4, LaneBinOp::Rel(IRelOp::GeS))),
        Instruction::I32x4GeU => Some(PureOp::VBin(Shape::I32x4, LaneBinOp::Rel(IRelOp::GeU))),
        Instruction::F32x4Eq => Some(PureOp::VFRel(Width::W32, FRelOp::Eq)),
        Instruction::F32x4Ne => Some(PureOp::VFRel(Width::W32, FRelOp::Ne)),
        Instruction::F32x4Lt => Some(PureOp::VFRel(Width::W32, FRelOp::Lt)),
        Instruction::F32x4Gt => Some(PureOp::VFRel(Width::W32, FRelOp::Gt)),
        Instruction::F32x4Le => Some(PureOp::VFRel(Width::W32, FRelOp::Le)),
        Instruction::F32x4Ge => Some(PureOp::VFRel(Width::W32, FRelOp::Ge)),
        Instruction::F64x2Eq => Some(PureOp::VFRel(Width::W64, FRelOp::Eq)),
        Instruction::F64x2Ne => Some(PureOp::VFRel(Width::W64, FRelOp::Ne)),
        Instruction::F64x2Lt => Some(PureOp::VFRel(Width::W64, FRelOp::Lt)),
        Instruction::F64x2Gt => Some(PureOp::VFRel(Width::W64, FRelOp::Gt)),
        Instruction::F64x2Le => Some(PureOp::VFRel(Width::W64, FRelOp::Le)),
        Instruction::F64x2Ge => Some(PureOp::VFRel(Width::W64, FRelOp::Ge)),
        Instruction::V128Not => Some(PureOp::VNot),
        Instruction::V128And => Some(PureOp::VBit(VBitOp::And)),
        Instruction::V128Andnot => Some(PureOp::VBit(VBitOp::Andnot)),
        Instruction::V128Or => Some(PureOp::VBit(VBitOp::Or)),
        Instruction::V128Xor => Some(PureOp::VBit(VBitOp::Xor)),
        Instruction::V128Bitselect => Some(PureOp::VBitselect),
        Instruction::V128AnyTrue => Some(PureOp::VAnyTrue),
        Instruction::I8x16Abs => Some(PureOp::VUn(Shape::I8x16, IUnOp::Abs)),
        Instruction::I8x16Neg => Some(PureOp::VUn(Shape::I8x16, IUnOp::Neg)),
        Instruction::I8x16Popcnt => Some(PureOp::VUn(Shape::I8x16, IUnOp::Popcnt)),
        Instruction::I8x16AllTrue => Some(PureOp::VAllTrue(Shape::I8x16)),
        Instruction::I8x16Bitmask => Some(PureOp::VBitmask(Shape::I8x16)),
        Instruction::I8x16NarrowI16x8S => Some(PureOp::VMix(MixOp::Narrow(Shape::I8x16, true))),
        Instruction::I8x16NarrowI16x8U => Some(PureOp::VMix(MixOp::Narrow(Shape::I8x16, false))),
        Instruction::I8x16Shl => Some(PureOp::VShift(Shape::I8x16, IBinOp::Shl)),
        Instruction::I8x16ShrS => Some(PureOp::VShift(Shape::I8x16, IBinOp::ShrS)),
        Instruction::I8x16ShrU => Some(PureOp::VShift(Shape::I8x16, IBinOp::ShrU)),
        Instruction::I8x16Add => Some(PureOp::VBin(Shape::I8x16, LaneBinOp::Int(IBinOp::Add))),
        Instruction::I8x16AddSatS => Some(PureOp::VBin(Shape::I8x16, LaneBinOp::AddSatS)),
        Instruction::I8x16AddSatU => Some(PureOp::VBin(Shape::I8x16, LaneBinOp::AddSatU)),
        Instruction::I8x16Sub => Some(PureOp::VBin(Shape::I8x16, LaneBinOp::Int(IBinOp::Sub))),
        Instruction::I8x16SubSatS => Some(PureOp::VBin(Shape::I8x16, LaneBinOp::SubSatS)),
        Instruction::I8x16SubSatU => Some(PureOp::VBin(Shape::I8x16, LaneBinOp::SubSatU)),
        Instruction::I8x16MinS => Some(PureOp::VBin(Shape::I8x16, LaneBinOp::MinS)),
        Instruction::I8x16MinU => Some(PureOp::VBin(Shape::I8x16, LaneBinOp::MinU)),
        Instruction::I8x16MaxS => Some(PureOp::VBin(Shape::I8x16, LaneBinOp::MaxS)),
        Instruction::I8x16MaxU => Some(PureOp::VBin(Shape::I8x16, LaneBinOp::MaxU)),
        Instruction::I8x16AvgrU => Some(PureOp::VBin(Shape::I8x16, LaneBinOp::AvgrU)),
        Instruction::I16x8ExtaddPairwiseI8x16S => Some(PureOp::VMix(MixOp::ExtAdd(Shape::I16x8, true))),
        Instruction::I16x8ExtaddPairwiseI8x16U => Some(PureOp::VMix(MixOp::ExtAdd(Shape::I16x8, false))),
        Instruction::I32x4ExtaddPairwiseI16x8S => Some(PureOp::VMix(MixOp::ExtAdd(Shape::I32x4, true))),
        Instruction::I32x4ExtaddPairwiseI16x8U => Some(PureOp::VMix(MixOp::ExtAdd(Shape::I32x4, false))),
        Instruction::I16x8Abs(_) => Some(PureOp::VUn(Shape::I16x8, IUnOp::Abs)),
        Instruction::I16x8Neg(_) => Some(PureOp::VUn(Shape::I16x8, IUnOp::Neg)),
        Instruction::I16x8Q15mulrSatS(_) => Some(PureOp::VBin(Shape::I16x8, LaneBinOp::Q15MulrSatS)),
        Instruction::I16x8AllTrue(_) => Some(PureOp::VAllTrue(Shape::I16x8)),
        Instruction::I16x8Bitmask(_) => Some(PureOp::VBitmask(Shape::I16x8)),
        Instruction::I16x8NarrowI32x4S(_) => Some(PureOp::VMix(MixOp::Narrow(Shape::I16x8, true))),
        Instruction::I16x8NarrowI32x4U(_) => Some(PureOp::VMix(MixOp::Narrow(Shape::I16x8, false))),
        Instruction::I16x8ExtendLowI8x16S(_) => Some(PureOp::VMix(MixOp::Extend(Shape::I16x8, false, true))),
        Instruction::I16x8ExtendHighI8x16S(_) => Some(PureOp::VMix(MixOp::Extend(Shape::I16x8, true, true))),
        Instruction::I16x8ExtendLowI8x16U(_) => Some(PureOp::VMix(MixOp::Extend(Shape::I16x8, false, false))),
        Instruction::I16x8ExtendHighI8x16U(_) => Some(PureOp::VMix(MixOp::Extend(Shape::I16x8, true, false))),
        Instruction::I16x8Shl(_) => Some(PureOp::VShift(Shape::I16x8, IBinOp::Shl)),
        Instruction::I16x8ShrS(_) => Some(PureOp::VShift(Shape::I16x8, IBinOp::ShrS)),
        Instruction::I16x8ShrU(_) => Some(PureOp::VShift(Shape::I16x8, IBinOp::ShrU)),
        Instruction::I16x8Add(_) => Some(PureOp::VBin(Shape::I16x8, LaneBinOp::Int(IBinOp::Add))),
        Instruction::I16x8AddSatS(_) => Some(PureOp::VBin(Shape::I16x8, LaneBinOp::AddSatS)),
        Instruction::I16x8AddSatU(_) => Some(PureOp::VBin(Shape::I16x8, LaneBinOp::AddSatU)),
        Instruction::I16x8Sub(_) => Some(PureOp::VBin(Shape::I16x8, LaneBinOp::Int(IBinOp::Sub))),
        Instruction::I16x8SubSatS(_) => Some(PureOp::VBin(Shape::I16x8, LaneBinOp::SubSatS)),
        Instruction::I16x8SubSatU(_) => Some(PureOp::VBin(Shape::I16x8, LaneBinOp::SubSatU)),
        Instruction::I16x8Mul(_) => Some(PureOp::VBin(Shape::I16x8, LaneBinOp::Int(IBinOp::Mul))),
        Instruction::I16x8MinS(_) => Some(PureOp::VBin(Shape::I16x8, LaneBinOp::MinS)),
        Instruction::I16x8MinU(_) => Some(PureOp::VBin(Shape::I16x8, LaneBinOp::MinU)),
        Instruction::I16x8MaxS(_) => Some(PureOp::VBin(Shape::I16x8, LaneBinOp::MaxS)),
        Instruction::I16x8MaxU(_) => Some(PureOp::VBin(Shape::I16x8, LaneBinOp::MaxU)),
        Instruction::I16x8AvgrU(_) => Some(PureOp::VBin(Shape::I16x8, LaneBinOp::AvgrU)),
        Instruction::I16x8ExtmulLowI8x16S(_) => Some(PureOp::VMix(MixOp::ExtMul(Shape::I16x8, false, true))),
        Instruction::I16x8ExtmulHighI8x16S(_) => Some(PureOp::VMix(MixOp::ExtMul(Shape::I16x8, true, true))),
        Instruction::I16x8ExtmulLowI8x16U(_) => Some(PureOp::VMix(MixOp::ExtMul(Shape::I16x8, false, false))),
        Instruction::I16x8ExtmulHighI8x16U(_) => Some(PureOp::VMix(MixOp::ExtMul(Shape::I16x8, true, false))),
        Instruction::I32x4Abs(_) => Some(PureOp::VUn(Shape::I32x4, IUnOp::Abs)),
        Instruction::I32x4Neg(_) => Some(PureOp::VUn(Shape::I32x4, IUnOp::Neg)),
        Instruction::I32x4AllTrue(_) => Some(PureOp::VAllTrue(Shape::I32x4)),
        Instruction::I32x4Bitmask(_) => Some(PureOp::VBitmask(Shape::I32x4)),
        Instruction::I32x4ExtendLowI16x8S(_) => Some(PureOp::VMix(MixOp::Extend(Shape::I32x4, false, true))),
        Instruction::I32x4ExtendHighI16x8S(_) => Some(PureOp::VMix(MixOp::Extend(Shape::I32x4, true, true))),
        Instruction::I32x4ExtendLowI16x8U(_) => Some(PureOp::VMix(MixOp::Extend(Shape::I32x4, false, false))),
        Instruction::I32x4ExtendHighI16x8U(_) => Some(PureOp::VMix(MixOp::Extend(Shape::I32x4, true, false))),
        Instruction::I32x4Shl(_) => Some(PureOp::VShift(Shape::I32x4, IBinOp::Shl)),
        Instruction::I32x4ShrS(_) => Some(PureOp::VShift(Shape::I32x4, IBinOp::ShrS)),
        Instruction::I32x4ShrU(_) => Some(PureOp::VShift(Shape::I32x4, IBinOp::ShrU)),
        Instruction::I32x4Add(_) => Some(PureOp::VBin(Shape::I32x4, LaneBinOp::Int(IBinOp::Add))),
        Instruction::I32x4Sub(_) => Some(PureOp::VBin(Shape::I32x4, LaneBinOp::Int(IBinOp::Sub))),
        Instruction::I32x4Mul(_) => Some(PureOp::VBin(Shape::I32x4, LaneBinOp::Int(IBinOp::Mul))),
        Instruction::I32x4MinS(_) => Some(PureOp::VBin(Shape::I32x4, LaneBinOp::MinS)),
        Instruction::I32x4MinU(_) => Some(PureOp::VBin(Shape::I32x4, LaneBinOp::MinU)),
        Instruction::I32x4MaxS(_) => Some(PureOp::VBin(Shape::I32x4, LaneBinOp::MaxS)),
        Instruction::I32x4MaxU(_) => Some(PureOp::VBin(Shape::I32x4, LaneBinOp::MaxU)),
        Instruction::I32x4DotI16x8S(_) => Some(PureOp::VMix(MixOp::Dot)),
        Instruction::I32x4ExtmulLowI16x8S(_) => Some(PureOp::VMix(MixOp::ExtMul(Shape::I32x4, false, true))),
        Instruction::I32x4ExtmulHighI16x8S(_) => Some(PureOp::VMix(MixOp::ExtMul(Shape::I32x4, true, true))),
        Instruction::I32x4ExtmulLowI16x8U(_) => Some(PureOp::VMix(MixOp::ExtMul(Shape::I32x4, false, false))),
        Instruction::I32x4ExtmulHighI16x8U(_) => Some(PureOp::VMix(MixOp::ExtMul(Shape::I32x4, true, false))),
        Instruction::I64x2Abs(_) => Some(PureOp::VUn(Shape::I64x2, IUnOp::Abs)),
        Instruction::I64x2Neg(_) => Some(PureOp::VUn(Shape::I64x2, IUnOp::Neg)),
        Instruction::I64x2AllTrue(_) => Some(PureOp::VAllTrue(Shape::I64x2)),
        Instruction::I64x2Bitmask(_) => Some(PureOp::VBitmask(Shape::I64x2)),
        Instruction::I64x2ExtendLowI32x4S(_) => Some(PureOp::VMix(MixOp::Extend(Shape::I64x2, false, true))),
        Instruction::I64x2ExtendHighI32x4S(_) => Some(PureOp::VMix(MixOp::Extend(Shape::I64x2, true, true))),
        Instruction::I64x2ExtendLowI32x4U(_) => Some(PureOp::VMix(MixOp::Extend(Shape::I64x2, false, false))),
        Instruction::I64x2ExtendHighI32x4U(_) => Some(PureOp::VMix(MixOp::Extend(Shape::I64x2, true, false))),
        Instruction::I64x2Shl(_) => Some(PureOp::VShift(Shape::I64x2, IBinOp::Shl)),
        Instruction::I64x2ShrS(_) => Some(PureOp::VShift(Shape::I64x2, IBinOp::ShrS)),
        Instruction::I64x2ShrU(_) => Some(PureOp::VShift(Shape::I64x2, IBinOp::ShrU)),
        Instruction::I64x2Add(_) => Some(PureOp::VBin(Shape::I64x2, LaneBinOp::Int(IBinOp::Add))),
        Instruction::I64x2Sub(_) => Some(PureOp::VBin(Shape::I64x2, LaneBinOp::Int(IBinOp::Sub))),
        Instruction::I64x2Mul(_) => Some(PureOp::VBin(Shape::I64x2, LaneBinOp::Int(IBinOp::Mul))),
        Instruction::I64x2Eq(_) => Some(PureOp::VBin(Shape::I64x2, LaneBinOp::Rel(IRelOp::Eq))),
        Instruction::I64x2Ne(_) => Some(PureOp::VBin(Shape::I64x2, LaneBinOp::Rel(IRelOp::Ne))),
        Instruction::I64x2LtS(_) => Some(PureOp::VBin(Shape::I64x2, LaneBinOp::Rel(IRelOp::LtS))),
        Instruction::I64x2GtS(_) => Some(PureOp::VBin(Shape::I64x2, LaneBinOp::Rel(IRelOp::GtS))),
        Instruction::I64x2LeS(_) => Some(PureOp::VBin(Shape::I64x2, LaneBinOp::Rel(IRelOp::LeS))),
        Instruction::I64x2GeS(_) => Some(PureOp::VBin(Shape::I64x2, LaneBinOp::Rel(IRelOp::GeS))),
        Instruction::I64x2ExtmulLowI32x4S(_) => Some(PureOp::VMix(MixOp::ExtMul(Shape::I64x2, false, true))),
        Instruction::I64x2ExtmulHighI32x4S(_) => Some(PureOp::VMix(MixOp::ExtMul(Shape::I64x2, true, true))),
        Instruction::I64x2ExtmulLowI32x4U(_) => Some(PureOp::VMix(MixOp::ExtMul(Shape::I64x2, false, false))),
        Instruction::I64x2ExtmulHighI32x4U(_) => Some(PureOp::VMix(MixOp::ExtMul(Shape::I64x2, true, false))),
        Instruction::F32x4Abs(_) => Some(PureOp::VFBit(Width::W32, FBitOp::Abs)),
        Instruction::F32x4Neg(_) => Some(PureOp::VFBit(Width::W32, FBitOp::Neg)),
        Instruction::F64x2Abs(_) => Some(PureOp::VFBit(Width::W64, FBitOp::Abs)),
        Instruction::F64x2Neg(_) => Some(PureOp::VFBit(Width::W64, FBitOp::Neg)),
        Instruction::I32x4TruncSatF32x4S(_) => Some(PureOp::VTruncSat(Width::W32, true)),
        Instruction::I32x4TruncSatF32x4U(_) => Some(PureOp::VTruncSat(Width::W32, false)),
        Instruction::I32x4TruncSatF64x2SZero(_) => Some(PureOp::VTruncSat(Width::W64, true)),
        Instruction::I32x4TruncSatF64x2UZero(_) => Some(PureOp::VTruncSat(Width::W64, false)),
        _ => None,
    }
}

pub fn pure_of(i: &Instruction) -> (r: Option<PureOp>)
    ensures
        r == spec_pure_of(*i),
{
    match i {
        Instruction::I32Const(x) => Some(PureOp::Const(ValInst::I32(*x))),
        Instruction::I64Const(x) => Some(PureOp::Const(ValInst::I64(*x))),
        Instruction::F32Const(x) => Some(PureOp::Const(ValInst::F32(*x))),
        Instruction::F64Const(x) => Some(PureOp::Const(ValInst::F64(*x))),
        Instruction::I32Eqz => Some(PureOp::IEqz(Width::W32)),
        Instruction::I32Eq => Some(PureOp::IRel(Width::W32, IRelOp::Eq)),
        Instruction::I32Ne => Some(PureOp::IRel(Width::W32, IRelOp::Ne)),
        Instruction::I32LtS => Some(PureOp::IRel(Width::W32, IRelOp::LtS)),
        Instruction::I32LtU => Some(PureOp::IRel(Width::W32, IRelOp::LtU)),
        Instruction::I32GtS => Some(PureOp::IRel(Width::W32, IRelOp::GtS)),
        Instruction::I32GtU => Some(PureOp::IRel(Width::W32, IRelOp::GtU)),
        Instruction::I32LeS => Some(PureOp::IRel(Width::W32, IRelOp::LeS)),
        Instruction::I32LeU => Some(PureOp::IRel(Width::W32, IRelOp::LeU)),
        Instruction::I32GeS => Some(PureOp::IRel(Width::W32, IRelOp::GeS)),
        Instruction::I32GeU => Some(PureOp::IRel(Width::W32, IRelOp::GeU)),
        Instruction::I64Eqz => Some(PureOp::IEqz(Width::W64)),
        Instruction::I64Eq => Some(PureOp::IRel(Width::W64, IRelOp::Eq)),
        Instruction::I64Ne => Some(PureOp::IRel(Width::W64, IRelOp::Ne)),
        Instruction::I64LtS => Some(PureOp::IRel(Width::W64, IRelOp::LtS)),
        Instruction::I64LtU => Some(PureOp::IRel(Width::W64, IRelOp::LtU)),
        Instruction::I64GtS => Some(PureOp::IRel(Width::W64, IRelOp::GtS)),
        Instruction::I64GtU => Some(PureOp::IRel(Width::W64, IRelOp::GtU)),
        Instruction::I64LeS => Some(PureOp::IRel(Width::W64, IRelOp::LeS)),
        Instruction::I64LeU => Some(PureOp::IRel(Width::W64, IRelOp::LeU)),
        Instruction::I64GeS => Some(PureOp::IRel(Width::W64, IRelOp::GeS)),
        Instruction::I64GeU => Some(PureOp::IRel(Width::W64, IRelOp::GeU)),
        Instruction::F32Eq => Some(PureOp::FRel(Width::W32, FRelOp::Eq)),
        Instruction::F32Ne => Some(PureOp::FRel(Width::W32, FRelOp::Ne)),
        Instruction::F32Lt => Some(PureOp::FRel(Width::W32, FRelOp::Lt)),
        Instruction::F32Gt => Some(PureOp::FRel(Width::W32, FRelOp::Gt)),
        Instruction::F32Le => Some(PureOp::FRel(Width::W32, FRelOp::Le)),
        Instruction::F32Ge => Some(PureOp::FRel(Width::W32, FRelOp::Ge)),
        Instruction::F64Eq => Some(PureOp::FRel(Width::W64, FRelOp::Eq)),
        Instruction::F64Ne => Some(PureOp::FRel(Width::W64, FRelOp::Ne)),
        Instruction::F64Lt => Some(PureOp::FRel(Width::W64, FRelOp::Lt)),
        Instruction::F64Gt => Some(PureOp::FRel(Width::W64, FRelOp::Gt)),
        Instruction::F64Le => Some(PureOp::FRel(Width::W64, FRelOp::Le)),
        Instruction::F64Ge => Some(PureOp::FRel(Width::W64, FRelOp::Ge)),
        Instruction::I32Clz => Some(PureOp::IUn(Width::W32, IUnOp::Clz)),
        Instruction::I32Ctz => Some(PureOp::IUn(Width::W32, IUnOp::Ctz)),
        Instruction::I32Popcnt => Some(PureOp::IUn(Width::W32, IUnOp::Popcnt)),
        Instruction::I32Add => Some(PureOp::IBin(Width::W32, IBinOp::Add)),
        Instruction::I32Sub => Some(PureOp::IBin(Width::W32, IBinOp::Sub)),
        Instruction::I32Mul => Some(PureOp::IBin(Width::W32, IBinOp::Mul)),
        Instruction::I32DivS => Some(PureOp::IBin(Width::W32, IBinOp::DivS)),
        Instruction::I32DivU => Some(PureOp::IBin(Width::W32, IBinOp::DivU)),
        Instruction::I32RemS => Some(PureOp::IBin(Width::W32, IBinOp::RemS)),
        Instruction::I32RemU => Some(PureOp::IBin(Width::W32, IBinOp::RemU)),
        Instruction::I32And => Some(PureOp::IBin(Width::W32, IBinOp::And)),
        Instruction::I32Or => Some(PureOp::IBin(Width::W32, IBinOp::Or)),
        Instruction::I32Xor => Some(PureOp::IBin(Width::W32, IBinOp::Xor)),
        Instruction::I32Shl => Some(PureOp::IBin(Width::W32, IBinOp::Shl)),
        Instruction::I32ShrS => Some(PureOp::IBin(Width::W32, IBinOp::ShrS)),
        Instruction::I32ShrU => Some(PureOp::IBin(Width::W32, IBinOp::ShrU)),
        Instruction::I32Rotl => Some(PureOp::IBin(Width::W32, IBinOp::Rotl)),
        Instruction::I32Rotr => Some(PureOp::IBin(Width::W32, IBinOp::Rotr)),
        Instruction::I64Clz => Some(PureOp::IUn(Width::W64, IUnOp::Clz)),
        Instruction::I64Ctz => Some(PureOp::IUn(Width::W64, IUnOp::Ctz)),
        Instruction::I64Popcnt => Some(PureOp::IUn(Width::W64, IUnOp::Popcnt)),
        Instruction::I64Add => Some(PureOp::IBin(Width::W64, IBinOp::Add)),
        Instruction::I64Sub => Some(PureOp::IBin(Width::W64, IBinOp::Sub)),
        Instruction::I64Mul => Some(PureOp::IBin(Width::W64, IBinOp::Mul)),
        Instruction::I64DivS => Some(PureOp::IBin(Width::W64, IBinOp::DivS)),
        Instruction::I64DivU => Some(PureOp::IBin(Width::W64, IBinOp::DivU)),
        Instruction::I64RemS => Some(PureOp::IBin(Width::W64, IBinOp::RemS)),
        Instruction::I64RemU => Some(PureOp::IBin(Width::W64, IBinOp::RemU)),
        Instruction::I64And => Some(PureOp::IBin(Width::W64, IBinOp::And)),
        Instruction::I64Or => Some(PureOp::IBin(Width::W64, IBinOp::Or)),
        Instruction::I64Xor => Some(PureOp::IBin(Width::W64, IBinOp::Xor)),
        Instruction::I64Shl => Some(PureOp::IBin(Width::W64, IBinOp::Shl)),
        Instruction::I64ShrS => Some(PureOp::IBin(Width::W64, IBinOp::ShrS)),
        Instruction::I64ShrU => Some(PureOp::IBin(Width::W64, IBinOp::ShrU)),
        Instruction::I64Rotl => Some(PureOp::IBin(Width::W64, IBinOp::Rotl)),
        Instruction::I64Rotr => Some(PureOp::IBin(Width::W64, IBinOp::Rotr)),
        Instruction::F32Abs => Some(PureOp::FBit(Width::W32, FBitOp::Abs)),
        Instruction::F32Neg => Some(PureOp::FBit(Width::W32, FBitOp::Neg)),
        Instruction::F32Copysign => Some(PureOp::FBit(Width::W32, FBitOp::Copysign)),
        Instruction::F64Abs => Some(PureOp::FBit(Width::W64, FBitOp::Abs)),
        Instruction::F64Neg => Some(PureOp::FBit(Width::W64, FBitOp::Neg)),
        Instruction::F64Copysign => Some(PureOp::FBit(Width::W64, FBitOp::Copysign)),
        Instruction::I32WrapI64 => Some(PureOp::Wrap),
        Instruction::I32TruncF32S => Some(PureOp::Trunc(Width::W32, TruncSize::N32, true, false)),
        Instruction::I32TruncF32U => Some(PureOp::Trunc(Width::W32, TruncSize::N32, false, false)),
        Instruction::I32TruncF64S => Some(PureOp::Trunc(Width::W64, TruncSize::N32, true, false)),
        Instruction::I32TruncF64U => Some(PureOp::Trunc(Width::W64, TruncSize::N32, false, false)),
        Instruction::I64ExtendI32S => Some(PureOp::Extend(true)),
        Instruction::I64ExtendI32U => Some(PureOp::Extend(false)),
        Instruction::I64TruncF32S => Some(PureOp::Trunc(Width::W32, TruncSize::N64, true, false)),
        Instruction::I64TruncF32U => Some(PureOp::Trunc(Width::W32, TruncSize::N64, false, false)),
        Instruction::I64TruncF64S => Some(PureOp::Trunc(Width::W64, TruncSize::N64, true, false)),
        Instruction::I64TruncF64U => Some(PureOp::Trunc(Width::W64, TruncSize::N64, false, false)),
        Instruction::I32ReinterpretF32 => Some(PureOp::FloatBits(Width::W32)),
        Instruction::I64ReinterpretF64 => Some(PureOp::FloatBits(Width::W64)),
        Instruction::F32ReinterpretI32 => Some(PureOp::BitsFloat(Width::W32)),
        Instruction::F64ReinterpretI64 => Some(PureOp::BitsFloat(Width::W64)),
        Instruction::I32Extend8S => Some(PureOp::IUn(Width::W32, IUnOp::Extend8S)),
        Instruction::I32Extend16S => Some(PureOp::IUn(Width::W32, IUnOp::Extend16S)),
        Instruction::I64Extend8S => Some(PureOp::IUn(Width::W64, IUnOp::Extend8S)),
        Instruction::I64Extend16S => Some(PureOp::IUn(Width::W64, IUnOp::Extend16S)),
        Instruction::I64Extend32S => Some(PureOp::IUn(Width::W64, IUnOp::Extend32S)),
        Instruction::RefIsNull => Some(PureOp::RefIsNull),
        Instruction::I32TruncSatF32S => Some(PureOp::Trunc(Width::W32, TruncSize::N32, true, true)),
        Instruction::I32TruncSatF32U => Some(PureOp::Trunc(Width::W32, TruncSize::N32, false, true)),
        Instruction::I32TruncSatF64S => Some(PureOp::Trunc(Width::W64, TruncSize::N32, true, true)),
        Instruction::I32TruncSatF64U => Some(PureOp::Trunc(Width::W64, TruncSize::N32, false, true)),
        Instruction::I64TruncSatF32S => Some(PureOp::Trunc(Width::W32, TruncSize::N64, true, true)),
        Instruction::I64TruncSatF32U => Some(PureOp::Trunc(Width::W32, TruncSize::N64, false, true)),
        Instruction::I64TruncSatF64S => Some(PureOp::Trunc(Width::W64, TruncSize::N64, true, true)),
        Instruction::I64TruncSatF64U => Some(PureOp::Trunc(Width::W64, TruncSize::N64, false, true)),
        Instruction::V128Const(x) => Some(PureOp::Const(ValInst::V128(*x))),
        Instruction::I8x16Shuffle(l) => Some(PureOp::VShuffle(v128::new(*l))),
        Instruction::I8x16Swizzle => Some(PureOp::VMix(MixOp::Swizzle)),
        Instruction::I8x16Splat => Some(PureOp::VSplat(Shape::I8x16, false)),
        Instruction::I16x8Splat => Some(PureOp::VSplat(Shape::I16x8, false)),
        Instruction::I32x4Splat => Some(PureOp::VSplat(Shape::I32x4, false)),
        Instruction::I64x2Splat => Some(PureOp::VSplat(Shape::I64x2, false)),
        Instruction::F32x4Splat => Some(PureOp::VSplat(Shape::I32x4, true)),
        Instruction::F64x2Splat => Some(PureOp::VSplat(Shape::I64x2, true)),
        Instruction::I8x16ExtractLaneS(l) => Some(PureOp::VExtract(Shape::I8x16, LaneGet::Signed, *l)),
        Instruction::I8x16ExtractLaneU(l) => Some(PureOp::VExtract(Shape::I8x16, LaneGet::Unsigned, *l)),
        Instruction::I8x16ReplaceLane(l) => Some(PureOp::VReplace(Shape::I8x16, false, *l)),
        Instruction::I16x8ExtractLaneS(l) => Some(PureOp::VExtract(Shape::I16x8, LaneGet::Signed, *l)),
        Instruction::I16x8ExtractLaneU(l) => Some(PureOp::VExtract(Shape::I16x8, LaneGet::Unsigned, *l)),
        Instruction::I16x8ReplaceLane(l) => Some(PureOp::VReplace(Shape::I16x8, false, *l)),
        Instruction::I32x4ExtractLane(l) => Some(PureOp::VExtract(Shape::I32x4, LaneGet::Signed, *l)),
        Instruction::I32x4ReplaceLane(l) => Some(PureOp::VReplace(Shape::I32x4, false, *l)),
        Instruction::I64x2ExtractLane(l) => Some(PureOp::VExtract(Shape::I64x2, LaneGet::Signed, *l)),
        Instruction::I64x2ReplaceLane(l) => Some(PureOp::VReplace(Shape::I64x2, false, *l)),
        Instruction::F32x4ExtractLane(l) => Some(PureOp::VExtract(Shape::I32x4, LaneGet::Float, *l)),
        Instruction::F32x4ReplaceLane(l) => Some(PureOp::VReplace(Shape::I32x4, true, *l)),
        Instruction::F64x2ExtractLane(l) => Some(PureOp::VExtract(Shape::I64x2, LaneGet::Float, *l)),
        Instruction::F64x2ReplaceLane(l) => Some(PureOp::VReplace(Shape::I64x2, true, *l)),
        Instruction::I8x16Eq => Some(PureOp::VBin(Shape::I8x16, LaneBinOp::Rel(IRelOp::Eq))),
        Instruction::I8x16Ne => Some(PureOp::VBin(Shape::I8x16, LaneBinOp::Rel(IRelOp::Ne))),
        Instruction::I8x16LtS => Some(PureOp::VBin(Shape::I8x16, LaneBinOp::Rel(IRelOp::LtS))),
        Instruction::I8x16LtU => Some(PureOp::VBin(Shape::I8x16, LaneBinOp::Rel(IRelOp::LtU))),
        Instruction::I8x16GtS => Some(PureOp::VBin(Shape::I8x16, LaneBinOp::Rel(IRelOp::GtS))),
        Instruction::I8x16GtU => Some(PureOp::VBin(Shape::I8x16, LaneBinOp::Rel(IRelOp::GtU))),
        Instruction::I8x16LeS => Some(PureOp::VBin(Shape::I8x16, LaneBinOp::Rel(IRelOp::LeS))),
        Instruction::I8x16LeU => Some(PureOp::VBin(Shape::I8x16, LaneBinOp::Rel(IRelOp::LeU))),
        Instruction::I8x16GeS => Some(PureOp::VBin(Shape::I8x16, LaneBinOp::Rel(IRelOp::GeS))),
        Instruction::I8x16GeU => Some(PureOp::VBin(Shape::I8x16, LaneBinOp::Rel(IRelOp::GeU))),
        Instruction::I16x8Eq => Some(PureOp::VBin(Shape::I16x8, LaneBinOp::Rel(IRelOp::Eq))),
        Instruction::I16x8Ne => Some(PureOp::VBin(Shape::I16x8, LaneBinOp::Rel(IRelOp::Ne))),
        Instruction::I16x8LtS => Some(PureOp::VBin(Shape::I16x8, LaneBinOp::Rel(IRelOp::LtS))),
        Instruction::I16x8LtU => Some(PureOp::VBin(Shape::I16x8, LaneBinOp::Rel(IRelOp::LtU))),
        Instruction::I16x8GtS => Some(PureOp::VBin(Shape::I16x8, LaneBinOp::Rel(IRelOp::GtS))),
        Instruction::I16x8GtU => Some(PureOp::VBin(Shape::I16x8, LaneBinOp::Rel(IRelOp::GtU))),
        Instruction::I16x8LeS => Some(PureOp::VBin(Shape::I16x8, LaneBinOp::Rel(IRelOp::LeS))),
        Instruction::I16x8LeU => Some(PureOp::VBin(Shape::I16x8, LaneBinOp::Rel(IRelOp::LeU))),
        Instruction::I16x8GeS => Some(PureOp::VBin(Shape::I16x8, LaneBinOp::Rel(IRelOp::GeS))),
        Instruction::I16x8GeU => Some(PureOp::VBin(Shape::I16x8, LaneBinOp::Rel(IRelOp::GeU))),
        Instruction::I32x4Eq => Some(PureOp::VBin(Shape::I32x4, LaneBinOp::Rel(IRelOp::Eq))),
        Instruction::I32x4Ne => Some(PureOp::VBin(Shape::I32x4, LaneBinOp::Rel(IRelOp::Ne))),
        Instruction::I32x4LtS => Some(PureOp::VBin(Shape::I32x4, LaneBinOp::Rel(IRelOp::LtS))),
        Instruction::I32x4LtU => Some(PureOp::VBin(Shape::I32x4, LaneBinOp::Rel(IRelOp::LtU))),
        Instruction::I32x4GtS => Some(PureOp::VBin(Shape::I32x4, LaneBinOp::Rel(IRelOp::GtS))),
        Instruction::I32x4GtU => Some(PureOp::VBin(Shape::I32x4, LaneBinOp::Rel(IRelOp::GtU))),
        Instruction::I32x4LeS => Some(PureOp::VBin(Shape::I32x4, LaneBinOp::Rel(IRelOp::LeS))),
        Instruction::I32x4LeU => Some(PureOp::VBin(Shape::I32x4, LaneBinOp::Rel(IRelOp::LeU))),
        Instruction::I32x4GeS => Some(PureOp::VBin(Shape::I32x4, LaneBinOp::Rel(IRelOp::GeS))),
        Instruction::I32x4GeU => Some(PureOp::VBin(Shape::I32x4, LaneBinOp::Rel(IRelOp::GeU))),
        Instruction::F32x4Eq => Some(PureOp::VFRel(Width::W32, FRelOp::Eq)),
        Instruction::F32x4Ne => Some(PureOp::VFRel(Width::W32, FRelOp::Ne)),
        Instruction::F32x4Lt => Some(PureOp::VFRel(Width::W32, FRelOp::Lt)),
        Instruction::F32x4Gt => Some(PureOp::VFRel(Width::W32, FRelOp::Gt)),
        Instruction::F32x4Le => Some(PureOp::VFRel(Width::W32, FRelOp::Le)),
        Instruction::F32x4Ge => Some(PureOp::VFRel(Width::W32, FRelOp::Ge)),
        Instruction::F64x2Eq => Some(PureOp::VFRel(Width::W64, FRelOp::Eq)),
        Instruction::F64x2Ne => Some(PureOp::VFRel(Width::W64, FRelOp::Ne)),
        Instruction::F64x2Lt => Some(PureOp::VFRel(Width::W64, FRelOp::Lt)),
        Instruction::F64x2Gt => Some(PureOp::VFRel(Width::W64, FRelOp::Gt)),
        Instruction::F64x2Le => Some(PureOp::VFRel(Width::W64, FRelOp::Le)),
        Instruction::F64x2Ge => Some(PureOp::VFRel(Width::W64, FRelOp::Ge)),
        Instruction::V128Not => Some(PureOp::VNot),
        Instruction::V128And => Some(PureOp::VBit(VBitOp::And)),
        Instruction::V128Andnot => Some(PureOp::VBit(VBitOp::Andnot)),
        Instruction::V128Or => Some(PureOp::VBit(VBitOp::Or)),
        Instruction::V128Xor => Some(PureOp::VBit(VBitOp::Xor)),
        Instruction::V128Bitselect => Some(PureOp::VBitselect),
        Instruction::V128AnyTrue => Some(PureOp::VAnyTrue),
        Instruction::I8x16Abs => Some(PureOp::VUn(Shape::I8x16, IUnOp::Abs)),
        Instruction::I8x16Neg => Some(PureOp::VUn(Shape::I8x16, IUnOp::Neg)),
        Instruction::I8x16Popcnt => Some(PureOp::VUn(Shape::I8x16, IUnOp::Popcnt)),
        Instruction::I8x16AllTrue => Some(PureOp::VAllTrue(Shape::I8x16)),
        Instruction::I8x16Bitmask => Some(PureOp::VBitmask(Shape::I8x16)),
        Instruction::I8x16NarrowI16x8S => Some(PureOp::VMix(MixOp::Narrow(Shape::I8x16, true))),
        Instruction::I8x16NarrowI16x8U => Some(PureOp::VMix(MixOp::Narrow(Shape::I8x16, false))),
        Instruction::I8x16Shl => Some(PureOp::VShift(Shape::I8x16, IBinOp::Shl)),
        Instruction::I8x16ShrS => Some(PureOp::VShift(Shape::I8x16, IBinOp::ShrS)),
        Instruction::I8x16ShrU => Some(PureOp::VShift(Shape::I8x16, IBinOp::ShrU)),
        Instruction::I8x16Add => Some(PureOp::VBin(Shape::I8x16, LaneBinOp::Int(IBinOp::Add))),
        Instruction::I8x16AddSatS => Some(PureOp::VBin(Shape::I8x16, LaneBinOp::AddSatS)),
        Instruction::I8x16AddSatU => Some(PureOp::VBin(Shape::I8x16, LaneBinOp::AddSatU)),
        Instruction::I8x16Sub => Some(PureOp::VBin(Shape::I8x16, LaneBinOp::Int(IBinOp::Sub))),
        Instruction::I8x16SubSatS => Some(PureOp::VBin(Shape::I8x16, LaneBinOp::SubSatS)),
        Instruction::I8x16SubSatU => Some(PureOp::VBin(Shape::I8x16, LaneBinOp::SubSatU)),
        Instruction::I8x16MinS => Some(PureOp::VBin(Shape::I8x16, LaneBinOp::MinS)),
        Instruction::I8x16MinU => Some(PureOp::VBin(Shape::I8x16, LaneBinOp::MinU)),
        Instruction::I8x16MaxS => Some(PureOp::VBin(Shape::I8x16, LaneBinOp::MaxS)),
        Instruction::I8x16MaxU => Some(PureOp::VBin(Shape::I8x16, LaneBinOp::MaxU)),
        Instruction::I8x16AvgrU => Some(PureOp::VBin(Shape::I8x16, LaneBinOp::AvgrU)),
        Instruction::I16x8ExtaddPairwiseI8x16S => Some(PureOp::VMix(MixOp::ExtAdd(Shape::I16x8, true))),
        Instruction::I16x8ExtaddPairwiseI8x16U => Some(PureOp::VMix(MixOp::ExtAdd(Shape::I16x8, false))),
        Instruction::I32x4ExtaddPairwiseI16x8S => Some(PureOp::VMix(MixOp::ExtAdd(Shape::I32x4, true))),
        Instruction::I32x4ExtaddPairwiseI16x8U => Some(PureOp::VMix(MixOp::ExtAdd(Shape::I32x4, false))),
        Instruction::I16x8Abs(_) => Some(PureOp::VUn(Shape::I16x8, IUnOp::Abs)),
        Instruction::I16x8Neg(_) => Some(PureOp::VUn(Shape::I16x8, IUnOp::Neg)),
        Instruction::I16x8Q15mulrSatS(_) => Some(PureOp::VBin(Shape::I16x8, LaneBinOp::Q15MulrSatS)),
        Instruction::I16x8AllTrue(_) => Some(PureOp::VAllTrue(Shape::I16x8)),
        Instruction::I16x8Bitmask(_) => Some(PureOp::VBitmask(Shape::I16x8)),
        Instruction::I16x8NarrowI32x4S(_) => Some(PureOp::VMix(MixOp::Narrow(Shape::I16x8, true))),
        Instruction::I16x8NarrowI32x4U(_) => Some(PureOp::VMix(MixOp::Narrow(Shape::I16x8, false))),
        Instruction::I16x8ExtendLowI8x16S(_) => Some(PureOp::VMix(MixOp::Extend(Shape::I16x8, false, true))),
        Instruction::I16x8ExtendHighI8x16S(_) => Some(PureOp::VMix(MixOp::Extend(Shape::I16x8, true, true))),
        Instruction::I16x8ExtendLowI8x16U(_) => Some(PureOp::VMix(MixOp::Extend(Shape::I16x8, false, false))),
        Instruction::I16x8ExtendHighI8x16U(_) => Some(PureOp::VMix(MixOp::Extend(Shape::I16x8, true, false))),
        Instruction::I16x8Shl(_) => Some(PureOp::VShift(Shape::I16x8, IBinOp::Shl)),
        Instruction::I16x8ShrS(_) => Some(PureOp::VShift(Shape::I16x8, IBinOp::ShrS)),
        Instruction::I16x8ShrU(_) => Some(PureOp::VShift(Shape::I16x8, IBinOp::ShrU)),
        Instruction::I16x8Add(_) => Some(PureOp::VBin(Shape::I16x8, LaneBinOp::Int(IBinOp::Add))),
        Instruction::I16x8AddSatS(_) => Some(PureOp::VBin(Shape::I16x8, LaneBinOp::AddSatS)),
        Instruction::I16x8AddSatU(_) => Some(PureOp::VBin(Shape::I16x8, LaneBinOp::AddSatU)),
        Instruction::I16x8Sub(_) => Some(PureOp::VBin(Shape::I16x8, LaneBinOp::Int(IBinOp::Sub))),
        Instruction::I16x8SubSatS(_) => Some(PureOp::VBin(Shape::I16x8, LaneBinOp::SubSatS)),
        Instruction::I16x8SubSatU(_) => Some(PureOp::VBin(Shape::I16x8, LaneBinOp::SubSatU)),
        Instruction::I16x8Mul(_) => Some(PureOp::VBin(Shape::I16x8, LaneBinOp::Int(IBinOp::Mul))),
        Instruction::I16x8MinS(_) => Some(PureOp::VBin(Shape::I16x8, LaneBinOp::MinS)),
        Instruction::I16x8MinU(_) => Some(PureOp::VBin(Shape::I16x8, LaneBinOp::MinU)),
        Instruction::I16x8MaxS(_) => Some(PureOp::VBin(Shape::I16x8, LaneBinOp::MaxS)),
        Instruction::I16x8MaxU(_) => Some(PureOp::VBin(Shape::I16x8, LaneBinOp::MaxU)),
        Instruction::I16x8AvgrU(_) => Some(PureOp::VBin(Shape::I16x8, LaneBinOp::AvgrU)),
        Instruction::I16x8ExtmulLowI8x16S(_) => Some(PureOp::VMix(MixOp::ExtMul(Shape::I16x8, false, true))),
        Instruction::I16x8ExtmulHighI8x16S(_) => Some(PureOp::VMix(MixOp::ExtMul(Shape::I16x8, true, true))),
        Instruction::I16x8ExtmulLowI8x16U(_) => Some(PureOp::VMix(MixOp::ExtMul(Shape::I16x8, false, false))),
        Instruction::I16x8ExtmulHighI8x16U(_) => Some(PureOp::VMix(MixOp::ExtMul(Shape::I16x8, true, false))),
        Instruction::I32x4Abs(_) => Some(PureOp::VUn(Shape::I32x4, IUnOp::Abs)),
        Instruction::I32x4Neg(_) => Some(PureOp::VUn(Shape::I32x4, IUnOp::Neg)),
        Instruction::I32x4AllTrue(_) => Some(PureOp::VAllTrue(Shape::I32x4)),
        Instruction::I32x4Bitmask(_) => Some(PureOp::VBitmask(Shape::I32x4)),
        Instruction::I32x4ExtendLowI16x8S(_) => Some(PureOp::VMix(MixOp::Extend(Shape::I32x4, false, true))),
        Instruction::I32x4ExtendHighI16x8S(_) => Some(PureOp::VMix(MixOp::Extend(Shape::I32x4, true, true))),
        Instruction::I32x4ExtendLowI16x8U(_) => Some(PureOp::VMix(MixOp::Extend(Shape::I32x4, false, false))),
        Instruction::I32x4ExtendHighI16x8U(_) => Some(PureOp::VMix(MixOp::Extend(Shape::I32x4, true, false))),
        Instruction::I32x4Shl(_) => Some(PureOp::VShift(Shape::I32x4, IBinOp::Shl)),
        Instruction::I32x4ShrS(_) => Some(PureOp::VShift(Shape::I32x4, IBinOp::ShrS)),
        Instruction::I32x4ShrU(_) => Some(PureOp::VShift(Shape::I32x4, IBinOp::ShrU)),
        Instruction::I32x4Add(_) => Some(PureOp::VBin(Shape::I32x4, LaneBinOp::Int(IBinOp::Add))),
        Instruction::I32x4Sub(_) => Some(PureOp::VBin(Shape::I32x4, LaneBinOp::Int(IBinOp::Sub))),
        Instruction::I32x4Mul(_) => Some(PureOp::VBin(Shape::I32x4, LaneBinOp::Int(IBinOp::Mul))),
        Instruction::I32x4MinS(_) => Some(PureOp::VBin(Shape::I32x4, LaneBinOp::MinS)),
        Instruction::I32x4MinU(_) => Some(PureOp::VBin(Shape::I32x4, LaneBinOp::MinU)),
        Instruction::I32x4MaxS(_) => Some(PureOp::VBin(Shape::I32x4, LaneBinOp::MaxS)),
        Instruction::I32x4MaxU(_) => Some(PureOp::VBin(Shape::I32x4, LaneBinOp::MaxU)),
        Instruction::I32x4DotI16x8S(_) => Some(PureOp::VMix(MixOp::Dot)),
        Instruction::I32x4ExtmulLowI16x8S(_) => Some(PureOp::VMix(MixOp::ExtMul(Shape::I32x4, false, true))),
        Instruction::I32x4ExtmulHighI16x8S(_) => Some(PureOp::VMix(MixOp::ExtMul(Shape::I32x4, true, true))),
        Instruction::I32x4ExtmulLowI16x8U(_) => Some(PureOp::VMix(MixOp::ExtMul(Shape::I32x4, false, false))),
        Instruction::I32x4ExtmulHighI16x8U(_) => Some(PureOp::VMix(MixOp::ExtMul(Shape::I32x4, true, false))),
        Instruction::I64x2Abs(_) => Some(PureOp::VUn(Shape::I64x2, IUnOp::Abs)),
        Instruction::I64x2Neg(_) => Some(PureOp::VUn(Shape::I64x2, IUnOp::Neg)),
        Instruction::I64x2AllTrue(_) => Some(PureOp::VAllTrue(Shape::I64x2)),
        Instruction::I64x2Bitmask(_) => Some(PureOp::VBitmask(Shape::I64x2)),
        Instruction::I64x2ExtendLowI32x4S(_) => Some(PureOp::VMix(MixOp::Extend(Shape::I64x2, false, true))),
        Instruction::I64x2ExtendHighI32x4S(_) => Some(PureOp::VMix(MixOp::Extend(Shape::I64x2, true, true))),
        Instruction::I64x2ExtendLowI32x4U(_) => Some(PureOp::VMix(MixOp::Extend(Shape::I64x2, false, false))),
        Instruction::I64x2ExtendHighI32x4U(_) => Some(PureOp::VMix(MixOp::Extend(Shape::I64x2, true, false))),
        Instruction::I64x2Shl(_) => Some(PureOp::VShift(Shape::I64x2, IBinOp::Shl)),
        Instruction::I64x2ShrS(_) => Some(PureOp::VShift(Shape::I64x2, IBinOp::ShrS)),
        Instruction::I64x2ShrU(_) => Some(PureOp::VShift(Shape::I64x2, IBinOp::ShrU)),
        Instruction::I64x2Add(_) => Some(PureOp::VBin(Shape::I64x2, LaneBinOp::Int(IBinOp::Add))),
        Instruction::I64x2Sub(_) => Some(PureOp::VBin(Shape::I64x2, LaneBinOp::Int(IBinOp::Sub))),
        Instruction::I64x2Mul(_) => Some(PureOp::VBin(Shape::I64x2, LaneBinOp::Int(IBinOp::Mul))),
        Instruction::I64x2Eq(_) => Some(PureOp::VBin(Shape::I64x2, LaneBinOp::Rel(IRelOp::Eq))),
        Instruction::I64x2Ne(_) => Some(PureOp::VBin(Shape::I64x2, LaneBinOp::Rel(IRelOp::Ne))),
        Instruction::I64x2LtS(_) => Some(PureOp::VBin(Shape::I64x2, LaneBinOp::Rel(IRelOp::LtS))),
        Instruction::I64x2GtS(_) => Some(PureOp::VBin(Shape::I64x2, LaneBinOp::Rel(IRelOp::GtS))),
        Instruction::I64x2LeS(_) => Some(PureOp::VBin(Shape::I64x2, LaneBinOp::Rel(IRelOp::LeS))),
        Instruction::I64x2GeS(_) => Some(PureOp::VBin(Shape::I64x2, LaneBinOp::Rel(IRelOp::GeS))),
        Instruction::I64x2ExtmulLowI32x4S(_) => Some(PureOp::VMix(MixOp::ExtMul(Shape::I64x2, false, true))),
        Instruction::I64x2ExtmulHighI32x4S(_) => Some(PureOp::VMix(MixOp::ExtMul(Shape::I64x2, true, true))),
        Instruction::I64x2ExtmulLowI32x4U(_) => Some(PureOp::VMix(MixOp::ExtMul(Shape::I64x2, false, false))),
        Instruction::I64x2ExtmulHighI32x4U(_) => Some(PureOp::VMix(MixOp::ExtMul(Shape::I64x2, true, false))),
        Instruction::F32x4Abs(_) => Some(PureOp::VFBit(Width::W32, FBitOp::Abs)),
        Instruction::F32x4Neg(_) => Some(PureOp::VFBit(Width::W32, FBitOp::Neg)),
        Instruction::F64x2Abs(_) => Some(PureOp::VFBit(Width::W64, FBitOp::Abs)),
        Instruction::F64x2Neg(_) => Some(PureOp::VFBit(Width::W64, FBitOp::Neg)),
        Instruction::I32x4TruncSatF32x4S(_) => Some(PureOp::VTruncSat(Width::W32, true)),
        Instruction::I32x4TruncSatF32x4U(_) => Some(PureOp::VTruncSat(Width::W32, false)),
        Instruction::I32x4TruncSatF64x2SZero(_) => Some(PureOp::VTruncSat(Width::W64, true)),
        Instruction::I32x4TruncSatF64x2UZero(_) => Some(PureOp::VTruncSat(Width::W64, false)),
        _ => None,
    }
}

/// The load that an instruction stands for, if it is one.
pub open spec fn spec_load_of(i: Instruction) -> Option<(Load, MemoryArg)> {
    match i {
        Instruction::I32Load(m) => Some((Load::Int { to: Width::W32, from: Width::W32, signed: false }, m)),
        Instruction::I64Load(m) => Some((Load::Int { to: Width::W64, from: Width::W64, signed: false }, m)),
        Instruction::F32Load(m) => Some((Load::Float(Width::W32), m)),
        Instruction::F64Load(m) => Some((Load::Float(Width::W64), m)),
        Instruction::I32Load8S(m) => Some((Load::Int { to: Width::W32, from: Width::W8, signed: true }, m)),
        Instruction::I32Load8U(m) => Some((Load::Int { to: Width::W32, from: Width::W8, signed: false }, m)),
        Instruction::I32Load16S(m) => Some((Load::Int { to: Width::W32, from: Width::W16, signed: true }, m)),
        Instruction::I32Load16U(m) => Some((Load::Int { to: Width::W32, from: Width::W16, signed: false }, m)),
        Instruction::I64Load8S(m) => Some((Load::Int { to: Width::W64, from: Width::W8, signed: true }, m)),
        Instruction::I64Load8U(m) => Some((Load::Int { to: Width::W64, from: Width::W8, signed: false }, m)),
        Instruction::I64Load16S(m) => Some((Load::Int { to: Width::W64, from: Width::W16, signed: true }, m)),
        Instruction::I64Load16U(m) => Some((Load::Int { to: Width::W64, from: Width::W16, signed: false }, m)),
        Instruction::I64Load32S(m) => Some((Load::Int { to: Width::W64, from: Width::W32, signed: true }, m)),
        Instruction::I64Load32U(m) => Some((Load::Int { to: Width::W64, from: Width::W32, signed: false }, m)),
        Instruction::V128Load(m) => Some((Load::V128, m)),
        Instruction::V128Load8x8S(m) => Some((Load::Extend(Shape::I16x8, true), m)),
        Instruction::V128Load8x8U(m) => Some((Load::Extend(Shape::I16x8, false), m)),
        Instruction::V128Load16x4S(m) => Some((Load::Extend(Shape::I32x4, true), m)),
        Instruction::V128Load16x4U(m) => Some((Load::Extend(Shape::I32x4, false), m)),
        Instruction::V128Load32x2S(m) => Some((Load::Extend(Shape::I64x2, true), m)),
        Instruction::V128Load32x2U(m) => Some((Load::Extend(Shape::I64x2, false), m)),
        Instruction::V128Load8Splat(m) => Some((Load::Splat(Shape::I8x16), m)),
        Instruction::V128Load16Splat(m) => Some((Load::Splat(Shape::I16x8), m)),
        Instruction::V128Load32Splat(m) => Some((Load::Splat(Shape::I32x4), m)),
        Instruction::V128Load64Splat(m) => Some((Load::Splat(Shape::I64x2), m)),
        Instruction::V128Load32Zero(m) => Some((Load::Zero(Shape::I32x4), m)),
        Instruction::V128Load64Zero(m) => Some((Load::Zero(Shape::I64x2), m)),
        _ => None,
    }
}

pub fn load_of(i: &Instruction) -> (r: Option<(Load, MemoryArg)>)
    ensures
        r == spec_load_of(*i),
{
    match i {
        Instruction::I32Load(m) => Some((Load::Int { to: Width::W32, from: Width::W32, signed: false }, *m)),
        Instruction::I64Load(m) => Some((Load::Int { to: Width::W64, from: Width::W64, signed: false }, *m)),
        Instruction::F32Load(m) => Some((Load::Float(Width::W32), *m)),
        Instruction::F64Load(m) => Some((Load::Float(Width::W64), *m)),
        Instruction::I32Load8S(m) => Some((Load::Int { to: Width::W32, from: Width::W8, signed: true }, *m)),
        Instruction::I32Load8U(m) => Some((Load::Int { to: Width::W32, from: Width::W8, signed: false }, *m)),
        Instruction::I32Load16S(m) => Some((Load::Int { to: Width::W32, from: Width::W16, signed: true }, *m)),
        Instruction::I32Load16U(m) => Some((Load::Int { to: Width::W32, from: Width::W16, signed: false }, *m)),
        Instruction::I64Load8S(m) => Some((Load::Int { to: Width::W64, from: Width::W8, signed: true }, *m)),
        Instruction::I64Load8U(m) => Some((Load::Int { to: Width::W64, from: Width::W8, signed: false }, *m)),
        Instruction::I64Load16S(m) => Some((Load::Int { to: Width::W64, from: Width::W16, signed: true }, *m)),
        Instruction::I64Load16U(m) => Some((Load::Int { to: Width::W64, from: Width::W16, signed: false }, *m)),
        Instruction::I64Load32S(m) => Some((Load::Int { to: Width::W64, from: Width::W32, signed: true }, *m)),
        Instruction::I64Load32U(m) => Some((Load::Int { to: Width::W64, from: Width::W32, signed: false }, *m)),
        Instruction::V128Load(m) => Some((Load::V128, *m)),
        Instruction::V128Load8x8S(m) => Some((Load::Extend(Shape::I16x8, true), *m)),
        Instruction::V128Load8x8U(m) => Some((Load::Extend(Shape::I16x8, false), *m)),
        Instruction::V128Load16x4S(m) => Some((Load::Extend(Shape::I32x4, true), *m)),
        Instruction::V128Load16x4U(m) => Some((Load::Extend(Shape::I32x4, false), *m)),
        Instruction::V128Load32x2S(m) => Some((Load::Extend(Shape::I64x2, true), *m)),
        Instruction::V128Load32x2U(m) => Some((Load::Extend(Shape::I64x2, false), *m)),
        Instruction::V128Load8Splat(m) => Some((Load::Splat(Shape::I8x16), *m)),
        Instruction::V128Load16Splat(m) => Some((Load::Splat(Shape::I16x8), *m)),
        Instruction::V128Load32Splat(m) => Some((Load::Splat(Shape::I32x4), *m)),
        Instruction::V128Load64Splat(m) => Some((Load::Splat(Shape::I64x2), *m)),
        Instruction::V128Load32Zero(m) => Some((Load::Zero(Shape::I32x4), *m)),
        Instruction::V128Load64Zero(m) => Some((Load::Zero(Shape::I64x2), *m)),
        _ => None,
    }
}

/// The store that an instruction stands for, if it is one.
pub open spec fn spec_store_of(i: Instruction) -> Option<(StoreOp, MemoryArg)> {
    match i {
        Instruction::I32Store(m) => Some((StoreOp::Int { from: Width::W32, to: Width::W32 }, m)),
        Instruction::I64Store(m) => Some((StoreOp::Int { from: Width::W64, to: Width::W64 }, m)),
        Instruction::F32Store(m) => Some((StoreOp::Float(Width::W32), m)),
        Instruction::F64Store(m) => Some((StoreOp::Float(Width::W64), m)),
        Instruction::I32Store8(m) => Some((StoreOp::Int { from: Width::W32, to: Width::W8 }, m)),
        Instruction::I32Store16(m) => Some((StoreOp::Int { from: Width::W32, to: Width::W16 }, m)),
        Instruction::I64Store8(m) => Some((StoreOp::Int { from: Width::W64, to: Width::W8 }, m)),
        Instruction::I64Store16(m) => Some((StoreOp::Int { from: Width::W64, to: Width::W16 }, m)),
        Instruction::I64Store32(m) => Some((StoreOp::Int { from: Width::W64, to: Width::W32 }, m)),
        Instruction::V128Store(m) => Some((StoreOp::V128, m)),
        Instruction::V128Store8Lane(m, l) => Some((StoreOp::Lane(Shape::I8x16, l), m)),
        Instruction::V128Store16Lane(m, l) => Some((StoreOp::Lane(Shape::I16x8, l), m)),
        Instruction::V128Store32Lane(m, l) => Some((StoreOp::Lane(Shape::I32x4, l), m)),
        Instruction::V128Store64Lane(m, l) => Some((StoreOp::Lane(Shape::I64x2, l), m)),
        _ => None,
    }
}

pub fn store_of(i: &Instruction) -> (r: Option<(StoreOp, MemoryArg)>)
    ensures
        r == spec_store_of(*i),
{
    match i {
        Instruction::I32Store(m) => Some((StoreOp::Int { from: Width::W32, to: Width::W32 }, *m)),
        Instruction::I64Store(m) => Some((StoreOp::Int { from: Width::W64, to: Width::W64 }, *m)),
        Instruction::F32Store(m) => Some((StoreOp::Float(Width::W32), *m)),
        Instruction::F64Store(m) => Some((StoreOp::Float(Width::W64), *m)),
        Instruction::I32Store8(m) => Some((StoreOp::Int { from: Width::W32, to: Width::W8 }, *m)),
        Instruction::I32Store16(m) => Some((StoreOp::Int { from: Width::W32, to: Width::W16 }, *m)),
        Instruction::I64Store8(m) => Some((StoreOp::Int { from: Width::W64, to: Width::W8 }, *m)),
        Instruction::I64Store16(m) => Some((StoreOp::Int { from: Width::W64, to: Width::W16 }, *m)),
        Instruction::I64Store32(m) => Some((StoreOp::Int { from: Width::W64, to: Width::W32 }, *m)),
        Instruction::V128Store(m) => Some((StoreOp::V128, *m)),
        Instruction::V128Store8Lane(m, l) => Some((StoreOp::Lane(Shape::I8x16, *l), *m)),
        Instruction::V128Store16Lane(m, l) => Some((StoreOp::Lane(Shape::I16x8, *l), *m)),
        Instruction::V128Store32Lane(m, l) => Some((StoreOp::Lane(Shape::I32x4, *l), *m)),
        Instruction::V128Store64Lane(m, l) => Some((StoreOp::Lane(Shape::I64x2, *l), *m)),
        _ => None,
    }
}

/// The shape, the lane and the address of a load into a lane, if the
/// instruction is one.
pub open spec fn spec_lane_load_of(i: Instruction) -> Option<(Shape, u8, MemoryArg)> {
    match i {
        Instruction::V128Load8Lane(m, l) => Some((Shape::I8x16, l, m)),
        Instruction::V128Load16Lane(m, l) => Some((Shape::I16x8, l, m)),
        Instruction::V128Load32Lane(m, l) => Some((Shape::I32x4, l, m)),
        Instruction::V128Load64Lane(m, l) => Some((Shape::I64x2, l, m)),
        _ => None,
    }
}

pub fn lane_load_of(i: &Instruction) -> (r: Option<(Shape, u8, MemoryArg)>)
    ensures
        r == spec_lane_load_of(*i),
{
    match i {
        Instruction::V128Load8Lane(m, l) => Some((Shape::I8x16, *l, *m)),
        Instruction::V128Load16Lane(m, l) => Some((Shape::I16x8, *l, *m)),
        Instruction::V128Load32Lane(m, l) => Some((Shape::I32x4, *l, *m)),
        Instruction::V128Load64Lane(m, l) => Some((Shape::I64x2, *l, *m)),
        _ => None,
    }
}

/// Whether an instruction computes with floats, so that the machine hands
/// it to its driver.
pub open spec fn spec_is_float(i: Instruction) -> bool {
    match i {
        Instruction::F32Ceil => true,
        Instruction::F32Floor => true,
        Instruction::F32Trunc => true,
        Instruction::F32Nearest => true,
        Instruction::F32Sqrt => true,
        Instruction::F32Add => true,
        Instruction::F32Sub => true,
        Instruction::F32Mul => true,
        Instruction::F32Div => true,
        Instruction::F32Min => true,
        Instruction::F32Max => true,
        Instruction::F64Ceil => true,
        Instruction::F64Floor => true,
        Instruction::F64Trunc => true,
        Instruction::F64Nearest => true,
        Instruction::F64Sqrt => true,
        Instruction::F64Add => true,
        Instruction::F64Sub => true,
        Instruction::F64Mul => true,
        Instruction::F64Div => true,
        Instruction::F64Min => true,
        Instruction::F64Max => true,
        Instruction::F32ConvertI32S => true,
        Instruction::F32ConvertI32U => true,
        Instruction::F32ConvertI64S => true,
        Instruction::F32ConvertI64U => true,
        Instruction::F32DemoteF64 => true,
        Instruction::F64ConvertI32S => true,
        Instruction::F64ConvertI32U => true,
        Instruction::F64ConvertI64S => true,
        Instruction::F64ConvertI64U => true,
        Instruction::F64PromoteF32 => true,
        Instruction::F32x4DemoteF64x2Zero => true,
        Instruction::F64x2PromoteLowF32x4 => true,
        Instruction::F32x4Ceil => true,
        Instruction::F32x4Floor => true,
        Instruction::F32x4Trunc => true,
        Instruction::F32x4Nearest => true,
        Instruction::F64x2Ceil => true,
        Instruction::F64x2Floor => true,
        Instruction::F64x2Trunc => true,
        Instruction::F64x2Nearest(_) => true,
        Instruction::F32x4Sqrt(_) => true,
        Instruction::F32x4Add(_) => true,
        Instruction::F32x4Sub(_) => true,
        Instruction::F32x4Mul(_) => true,
        Instruction::F32x4Div(_) => true,
        Instruction::F32x4Min(_) => true,
        Instruction::F32x4Max(_) => true,
        Instruction::F32x4Pmin(_) => true,
        Instruction::F32x4Pmax(_) => true,
        Instruction::F64x2Sqrt(_) => true,
        Instruction::F64x2Add(_) => true,
        Instruction::F64x2Sub(_) => true,
        Instruction::F64x2Mul(_) => true,
        Instruction::F64x2Div(_) => true,
        Instruction::F64x2Min(_) => true,
        Instruction::F64x2Max(_) => true,
        Instruction::F64x2Pmin(_) => true,
        Instruction::F64x2Pmax(_) => true,
        Instruction::F32x4ConvertI32x4S(_) => true,
        Instruction::F32x4ConvertI32x4U(_) => true,
        Instruction::F64x2ConvertLowI32x4S(_) => true,
        Instruction::F64x2ConvertLowI32x4U(_) => true,
        _ => false,
    }
}

pub fn is_float(i: &Instruction) -> (r: bool)
    ensures
        r == spec_is_float(*i),
{
    match i {
        Instruction::F32Ceil => true,
        Instruction::F32Floor => true,
        Instruction::F32Trunc => true,
        Instruction::F32Nearest => true,
        Instruction::F32Sqrt => true,
        Instruction::F32Add => true,
        Instruction::F32Sub => true,
        Instruction::F32Mul => true,
        Instruction::F32Div => true,
        Instruction::F32Min => true,
        Instruction::F32Max => true,
        Instruction::F64Ceil => true,
        Instruction::F64Floor => true,
        Instruction::F64Trunc => true,
        Instruction::F64Nearest => true,
        Instruction::F64Sqrt => true,
        Instruction::F64Add => true,
        Instruction::F64Sub => true,
        Instruction::F64Mul => true,
        Instruction::F64Div => true,
        Instruction::F64Min => true,
        Instruction::F64Max => true,
        Instruction::F32ConvertI32S => true,
        Instruction::F32ConvertI32U => true,
        Instruction::F32ConvertI64S => true,
        Instruction::F32ConvertI64U => true,
        Instruction::F32DemoteF64 => true,
        Instruction::F64ConvertI32S => true,
        Instruction::F64ConvertI32U => true,
        Instruction::F64ConvertI64S => true,
        Instruction::F64ConvertI64U => true,
        Instruction::F64PromoteF32 => true,
        Instruction::F32x4DemoteF64x2Zero => true,
        Instruction::F64x2PromoteLowF32x4 => true,
        Instruction::F32x4Ceil => true,
        Instruction::F32x4Floor => true,
        Instruction::F32x4Trunc => true,
        Instruction::F32x4Nearest => true,
        Instruction::F64x2Ceil => true,
        Instruction::F64x2Floor => true,
        Instruction::F64x2Trunc => true,
        Instruction::F64x2Nearest(_) => true,
        Instruction::F32x4Sqrt(_) => true,
        Instruction::F32x4Add(_) => true,
        Instruction::F32x4Sub(_) => true,
        Instruction::F32x4Mul(_) => true,
        Instruction::F32x4Div(_) => true,
        Instruction::F32x4Min(_) => true,
        Instruction::F32x4Max(_) => true,
        Instruction::F32x4Pmin(_) => true,
        Instruction::F32x4Pmax(_) => true,
        Instruction::F64x2Sqrt(_) => true,
        Instruction::F64x2Add(_) => true,
        Instruction::F64x2Sub(_) => true,
        Instruction::F64x2Mul(_) => true,
        Instruction::F64x2Div(_) => true,
        Instruction::F64x2Min(_) => true,
        Instruction::F64x2Max(_) => true,
        Instruction::F64x2Pmin(_) => true,
        Instruction::F64x2Pmax(_) => true,
        Instruction::F32x4ConvertI32x4S(_) => true,
        Instruction::F32x4ConvertI32x4U(_) => true,
        Instruction::F64x2ConvertLowI32x4S(_) => true,
        Instruction::F64x2ConvertLowI32x4U(_) => true,
        _ => false,
    }
}

/// What an instruction that changes nothing but the stacks makes of them,
/// if it is such an instruction.
pub open spec fn spec_stack_effect(vm: VM, store: &Store, i: Instruction) -> Option<
    Result<Stacks, Trap>,
> {
    let s = vm.stacks();
    if spec_pure_of(i) is Some {
        Some(spec_pure_op(s, spec_pure_of(i)->0))
    } else if spec_load_of(i) is Some {
        Some(spec_load(vm, store, spec_load_of(i).unwrap().0, spec_load_of(i).unwrap().1))
    } else if spec_lane_load_of(i) is Some {
        Some(
            spec_load_lane(
                vm,
                store,
                spec_lane_load_of(i).unwrap().0,
                spec_lane_load_of(i).unwrap().1,
                spec_lane_load_of(i).unwrap().2,
            ),
        )
    } else {
        match i {
            Instruction::Unreachable => Some(Err(Trap::Unreachable)),
            Instruction::Nop => Some(Ok(s)),
            Instruction::Else => Some(Ok(s)),
            Instruction::End => Some(Ok(s)),
            Instruction::Block(b) => Some(
                spec_block(s, vm.module.type_sec@, LabelKind::Block, b.type_, b.expr),
            ),
            Instruction::Loop(b) => Some(
                spec_block(s, vm.module.type_sec@, LabelKind::Loop, b.type_, b.expr),
            ),
            Instruction::If(b) => Some(spec_if(s, vm.module.type_sec@, b)),
            Instruction::Br(l) => Some(spec_br(s, l)),
            Instruction::BrIf(l) => Some(spec_br_if(s, l)),
            Instruction::BrTable(arg) => Some(spec_br_table(s, arg.labels@, arg.default)),
            Instruction::Return => Some(spec_return(s)),
            Instruction::Drop => Some(spec_drop(s)),
            Instruction::Select => Some(spec_select(s)),
            Instruction::Select2(_, _) => Some(spec_select(s)),
            Instruction::LocalGet(idx) => Some(spec_local_get(s, idx)),
            Instruction::LocalSet(idx) => Some(spec_local_set(s, idx)),
            Instruction::LocalTee(idx) => Some(spec_local_tee(s, idx)),
            Instruction::GlobalGet(idx) => Some(spec_global_get(vm, store, idx)),
            Instruction::TableGet(idx) => Some(spec_table_get(vm, store, idx)),
            Instruction::TableSize(idx) => Some(spec_table_size(vm, store, idx)),
            Instruction::MemorySize(idx) => Some(spec_memory_size(vm, store, idx)),
            Instruction::RefNull(v) => Some(spec_ref_null(s, v)),
            Instruction::RefFunc(idx) => Some(spec_ref_func(s, vm.funcs@, idx)),
            _ => None,
        }
    }
}

/// The result of an instruction without what it asks of the driver.
pub open spec fn plain(r: VMState<Step>) -> VMState {
    match r {
        Ok(_) => Ok(()),
        Err(e) => Err(e),
    }
}

/// What an instruction does to a machine and to the store. An
/// instruction on floats changes nothing and is handed to the driver. An
/// instruction that changes nothing but the stacks goes by
/// `spec_stack_effect`. A call goes on, or asks the driver to call. The
/// others change a memory, a table, a global or a segment as their own
/// contracts say.
pub open spec fn exec_post(
    pre: VM,
    pre_store: &Store,
    i: Instruction,
    r: VMState<Step>,
    post: VM,
    post_store: &Store,
) -> bool {
    let goes_on = r is Ok ==> r->Ok_0 is Next;
    if spec_is_float(i) {
        r is Ok && r->Ok_0 is Float && r->Ok_0->Float_0 == i.spec_discriminant() && post == pre
            && *post_store == *pre_store
    } else if spec_stack_effect(pre, pre_store, i) is Some {
        goes_on && post.same_instance(&pre) && *post_store == *pre_store && stacks_are(
            pre.stacks(),
            spec_stack_effect(pre, pre_store, i)->0,
            plain(r),
            post.stacks(),
        )
    } else if spec_store_of(i) is Some {
        goes_on && VM::store_post(
            pre,
            pre_store,
            plain(r),
            post,
            post_store,
            spec_store_of(i).unwrap().0,
            spec_store_of(i).unwrap().1,
        )
    } else {
        match i {
            Instruction::Call(idx) => post.same_instance(&pre) && *post_store == *pre_store
                && indirect_is(pre.stacks(), spec_call_op(pre, pre_store, idx), r, post.stacks()),
            Instruction::CallIndirect(type_idx, table_idx) => post.same_instance(&pre)
                && *post_store == *pre_store && indirect_is(
                pre.stacks(),
                spec_call_indirect_op(pre, pre_store, type_idx, table_idx),
                r,
                post.stacks(),
            ),
            Instruction::GlobalSet(idx) => goes_on && VM::global_set_post(
                pre,
                pre_store,
                plain(r),
                post,
                post_store,
                idx,
            ),
            Instruction::TableSet(idx) => goes_on && table_post(
                pre,
                pre_store,
                plain(r),
                post,
                post_store,
                2,
                spec_table_set(pre, pre_store, idx),
            ),
            Instruction::MemoryGrow(idx) => goes_on && VM::memory_grow_post(
                pre,
                pre_store,
                plain(r),
                post,
                post_store,
                idx,
            ),
            Instruction::MemoryInit(segment, idx) => goes_on && bulk_post(
                pre,
                pre_store,
                plain(r),
                post,
                post_store,
                spec_memory_init(pre, pre_store, segment, idx),
            ),
            Instruction::DataDrop(idx) => goes_on && *post_store == *pre_store
                && VM::data_drop_post(pre, plain(r), post, idx),
            Instruction::MemoryCopy(src, dst) => goes_on && bulk_post(
                pre,
                pre_store,
                plain(r),
                post,
                post_store,
                spec_memory_copy(pre, pre_store, src, dst),
            ),
            Instruction::MemoryFill(idx) => goes_on && bulk_post(
                pre,
                pre_store,
                plain(r),
                post,
                post_store,
                spec_memory_fill(pre, pre_store, idx),
            ),
            Instruction::TableInit(elem_idx, table_idx) => goes_on && table_post(
                pre,
                pre_store,
                plain(r),
                post,
                post_store,
                3,
                spec_table_init(pre, pre_store, elem_idx, table_idx),
            ),
            Instruction::ElemDrop(idx) => goes_on && *post_store == *pre_store
                && VM::elem_drop_post(pre, plain(r), post, idx),
            Instruction::TableCopy(dst, src) => goes_on && table_post(
                pre,
                pre_store,
                plain(r),
                post,
                post_store,
                3,
                spec_table_copy(pre, pre_store, dst, src),
            ),
            Instruction::TableGrow(idx) => goes_on && VM::table_grow_post(
                pre,
                pre_store,
                plain(r),
                post,
                post_store,
                idx,
            ),
            Instruction::TableFill(idx) => goes_on && table_post(
                pre,
                pre_store,
                plain(r),
                post,
                post_store,
                3,
                spec_table_fill(pre, pre_store, idx),
            ),
            _ => false,
        }
    }
}

/// Turns the result of an instruction that asks nothing of the driver
/// into the result of a step.
fn go_on(r: VMState) -> (s: VMState<Step>)
    ensures
        plain(s) == r,
        s is Ok ==> s->Ok_0 is Next,
{
    match r {
        Ok(u) => {
            assert(u == ());
            Ok(Step::Next)
        },
        Err(e) => Err(e),
    }
}

impl VM {
    /// Runs an instruction that changes nothing but the stacks and is
    /// neither a computation nor a load.
    fn exec_stack_instr(&mut self, store: &Store, instr: &Instruction) -> (r: VMState)
        requires
            spec_pure_of(*instr) is None,
            spec_load_of(*instr) is None,
            spec_lane_load_of(*instr) is None,
            spec_is_stack_instr(*instr),
        ensures
            final(self).same_instance(old(self)),
            stacks_are(
                old(self).stacks(),
                spec_stack_effect(*old(self), store, *instr)->0,
                r,
                final(self).stacks(),
            ),
    {
        match instr {
            Instruction::Unreachable => self.unreachable(),
            Instruction::Block(b) => self.block(b),
            Instruction::Loop(b) => self.loop_(b),
            Instruction::If(b) => self.if_(b),
            Instruction::Br(l) => self.br(*l),
            Instruction::BrIf(l) => self.br_if(*l),
            Instruction::BrTable(arg) => self.br_table(arg),
            Instruction::Return => self.return_(),
            Instruction::Drop => self.drop_(),
            Instruction::Select => self.select(),
            Instruction::Select2(x, t) => self.select2(*x, t),
            Instruction::LocalGet(idx) => self.local_get(*idx),
            Instruction::LocalSet(idx) => self.local_set(*idx),
            Instruction::LocalTee(idx) => self.local_tee(*idx),
            Instruction::GlobalGet(idx) => self.global_get(store, *idx),
            Instruction::TableGet(idx) => self.table_get(store, *idx),
            Instruction::TableSize(idx) => self.table_size(store, *idx),
            Instruction::MemorySize(idx) => self.memory_size(store, *idx),
            Instruction::RefNull(v) => self.ref_null(*v),
            Instruction::RefFunc(idx) => self.ref_func(*idx),
            _ => Ok(()),
        }
    }

    /// Runs an instruction that changes a memory, a table, a global or a
    /// segment, or that calls.
    fn exec_store_instr(&mut self, store: &mut Store, instr: &Instruction) -> (r: VMState<Step>)
        requires
            !spec_is_float(*instr),
            spec_stack_effect(*old(self), old(store), *instr) is None,
            spec_store_of(*instr) is None,
        ensures
            exec_post(*old(self), old(store), *instr, r, *final(self), final(store)),
    {
        match instr {
            Instruction::Call(idx) => self.call(store, *idx),
            Instruction::CallIndirect(type_idx, table_idx) => self.call_indirect(
                store,
                *type_idx,
                *table_idx,
            ),
            Instruction::GlobalSet(idx) => go_on(self.global_set(store, *idx)),
            Instruction::TableSet(idx) => go_on(self.table_set(store, *idx)),
            Instruction::MemoryGrow(idx) => go_on(self.memory_grow(store, *idx)),
            Instruction::MemoryInit(segment, idx) => go_on(self.memory_init(store, *segment, *idx)),
            Instruction::DataDrop(idx) => go_on(self.data_drop(*idx)),
            Instruction::MemoryCopy(src, dst) => go_on(self.memory_copy(store, *src, *dst)),
            Instruction::MemoryFill(idx) => go_on(self.memory_fill(store, *idx)),
            Instruction::TableInit(elem_idx, table_idx) => go_on(
                self.table_init(store, *elem_idx, *table_idx),
            ),
            Instruction::ElemDrop(idx) => go_on(self.elem_drop(*idx)),
            Instruction::TableCopy(dst, src) => go_on(self.table_copy(store, *dst, *src)),
            Instruction::TableGrow(idx) => go_on(self.table_grow(store, *idx)),
            Instruction::TableFill(idx) => go_on(self.table_fill(store, *idx)),
            _ => {
                proof {
                    lemma_every_instruction_has_a_kind(*old(self), old(store), *instr);
                }
                Err(VmError::Trap(Trap::NoOpcode))
            },
        }
    }

    /// Runs one instruction.
    pub fn exec_instr(&mut self, store: &mut Store, instr: &Instruction) -> (r: VMState<Step>)
        ensures
            exec_post(*old(self), old(store), *instr, r, *final(self), final(store)),
    {
        if is_float(instr) {
            return Ok(Step::Float(instr.discriminant()));
        }
        if let Some(op) = pure_of(instr) {
            return go_on(self.pure_op(op));
        }
        if let Some((kind, memarg)) = load_of(instr) {
            return go_on(self.load(store, kind, &memarg));
        }
        if let Some((shape, lane, memarg)) = lane_load_of(instr) {
            return go_on(self.load_lane(store, shape, lane, &memarg));
        }
        if is_stack_instr(instr) {
            return go_on(self.exec_stack_instr(store, instr));
        }
        assert(spec_stack_effect(*self, store, *instr) is None);
        if let Some((op, memarg)) = store_of(instr) {
            return go_on(self.store(store, op, &memarg));
        }
        self.exec_store_instr(store, instr)
    }
}

/// Whether an instruction is one of control, of variables or of
/// references that changes nothing but the stacks.
pub open spec fn spec_is_stack_instr(i: Instruction) -> bool {
    match i {
        Instruction::Unreachable => true,
        Instruction::Nop => true,
        Instruction::Else => true,
        Instruction::End => true,
        Instruction::Block(_) => true,
        Instruction::Loop(_) => true,
        Instruction::If(_) => true,
        Instruction::Br(_) => true,
        Instruction::BrIf(_) => true,
        Instruction::BrTable(_) => true,
        Instruction::Return => true,
        Instruction::Drop => true,
        Instruction::Select => true,
        Instruction::Select2(_, _) => true,
        Instruction::LocalGet(_) => true,
        Instruction::LocalSet(_) => true,
        Instruction::LocalTee(_) => true,
        Instruction::GlobalGet(_) => true,
        Instruction::TableGet(_) => true,
        Instruction::TableSize(_) => true,
        Instruction::MemorySize(_) => true,
        Instruction::RefNull(_) => true,
        Instruction::RefFunc(_) => true,
        _ => false,
    }
}

fn is_stack_instr(i: &Instruction) -> (r: bool)
    ensures
        r == spec_is_stack_instr(*i),
{
    match i {
        Instruction::Unreachable => true,
        Instruction::Nop => true,
        Instruction::Else => true,
        Instruction::End => true,
        Instruction::Block(_) => true,
        Instruction::Loop(_) => true,
        Instruction::If(_) => true,
        Instruction::Br(_) => true,
        Instruction::BrIf(_) => true,
        Instruction::BrTable(_) => true,
        Instruction::Return => true,
        Instruction::Drop => true,
        Instruction::Select => true,
        Instruction::Select2(_, _) => true,
        Instruction::LocalGet(_) => true,
        Instruction::LocalSet(_) => true,
        Instruction::LocalTee(_) => true,
        Instruction::GlobalGet(_) => true,
        Instruction::TableGet(_) => true,
        Instruction::TableSize(_) => true,
        Instruction::MemorySize(_) => true,
        Instruction::RefNull(_) => true,
        Instruction::RefFunc(_) => true,
        _ => false,
    }
}

/// The stacks with the top frame moved on by one instruction.
pub open spec fn advanced(s: Stacks) -> Stacks {
    Stacks {
        frames: s.frames.update(
            s.frames.len() - 1,
            Frame { pc: (s.frames.last().pc + 1) as usize, ..s.frames.last() },
        ),
        ..s
    }
}

/// What a step does. Without a frame it is `NoOpcode`. At the end of the
/// body of the top frame, the frame is left. Else the top frame moves on
/// by one instruction, and that instruction is run.
#[verifier::opaque]
pub open spec fn step_post(
    pre: VM,
    pre_store: &Store,
    r: VMState<Step>,
    post: VM,
    post_store: &Store,
) -> bool {
    if pre.frames@.len() == 0 {
        r == Err::<Step, VmError>(VmError::Trap(Trap::NoOpcode)) && post == pre && *post_store
            == *pre_store
    } else {
        let top = pre.frames@.last();
        if top.pc >= top.expr@.len() {
            (r is Ok ==> r->Ok_0 is Next) && post.same_instance(&pre) && *post_store == *pre_store
                && stacks_are(
                pre.stacks(),
                spec_exit_block(pre.stacks()),
                plain(r),
                post.stacks(),
            )
        } else {
            exists|mid: VM|
                #![trigger mid.stacks()]
                mid.same_instance(&pre) && mid.stacks() == advanced(pre.stacks()) && exec_post(
                    mid,
                    pre_store,
                    top.expr@[top.pc as int],
                    r,
                    post,
                    post_store,
                )
        }
    }
}

/// Whether each state of a trace but the last has more than `base`
/// frames and leads to the next state by a step that goes on.
pub open spec fn spec_trace(trace: Seq<(VM, Store)>, base: usize) -> bool {
    forall|k: int|
        0 <= k < trace.len() - 1 ==> (#[trigger] trace[k]).0.frames@.len() > base && step_post(
            trace[k].0,
            &trace[k].1,
            Ok(Step::Next),
            trace[k + 1].0,
            &trace[k + 1].1,
        )
}

/// What a run of at most `fuel` steps does: steps that go on are taken
/// while there are more than `base` frames. The run is `Done` when no
/// more than `base` frames are left, it is `Next` when the fuel is used
/// up before that, and it ends early with what a step asks of the driver
/// or with the error of a step. The states that the run goes through
/// form a trace from the state before to the state that the last step
/// was taken in.
pub open spec fn run_post(
    pre: VM,
    pre_store: Store,
    r: VMState<Step>,
    post: VM,
    post_store: Store,
    base: usize,
    fuel: u64,
) -> bool {
    exists|trace: Seq<(VM, Store)>|
        #![trigger spec_trace(trace, base)]
        trace.len() >= 1 && trace.len() - 1 <= fuel && trace[0] == (pre, pre_store) && spec_trace(
            trace,
            base,
        ) && if r is Ok && r->Ok_0 is Done {
            trace.last() == (post, post_store) && post.frames@.len() <= base
        } else if r is Ok && r->Ok_0 is Next {
            trace.len() - 1 == fuel && trace.last() == (post, post_store) && post.frames@.len()
                > base
        } else {
            trace.len() - 1 < fuel && trace.last().0.frames@.len() > base && step_post(
                trace.last().0,
                &trace.last().1,
                r,
                post,
                &post_store,
            )
        }
}

impl VM {
    /// Takes one step: leaves the top frame at the end of its body, or
    /// runs its next instruction.
    pub fn step(&mut self, store: &mut Store) -> (r: VMState<Step>)
        ensures
            step_post(*old(self), old(store), r, *final(self), final(store)),
            !(r is Ok && r->Ok_0 is Done),
    {
        proof {
            reveal(step_post);
        }
        let d = self.frames.len();
        if d == 0 {
            return Err(VmError::Trap(Trap::NoOpcode));
        }
        let pc = self.frames[d - 1].pc;
        let expr = share(&self.frames[d - 1].expr);
        if pc >= expr.len() {
            return go_on(self.exit_block());
        }
        let ghost before = self.frames@;
        self.frames[d - 1].pc = pc + 1;
        proof {
            assert(self.frames@ =~= before.update(
                d - 1,
                Frame { pc: (pc + 1) as usize, ..before[d - 1] },
            ));
        }
        let ghost mid = *self;
        let r = self.exec_instr(store, &expr[pc]);
        proof {
            assert(mid.stacks() == advanced(old(self).stacks()));
            lemma_never_done(mid, old(store), expr@[pc as int], r, *self, store);
        }
        r
    }

    /// Takes steps while there are more than `base` frames, at most `fuel`
    /// of them.
    pub fn start_loop(&mut self, store: &mut Store, base: usize, fuel: u64) -> (r: VMState<Step>)
        ensures
            run_post(*old(self), *old(store), r, *final(self), *final(store), base, fuel),
    {
        let mut left: u64 = fuel;
        let ghost mut trace: Seq<(VM, Store)> = seq![(*self, *store)];
        while left > 0 && self.frames.len() > base
            invariant
                trace.len() >= 1,
                trace.len() - 1 + left == fuel,
                trace[0] == (*old(self), *old(store)),
                trace.last() == (*self, *store),
                spec_trace(trace, base),
            decreases left,
        {
            let r = self.step(store);
            match r {
                Ok(Step::Next) => {
                    left = left - 1;
                    proof {
                        let longer = trace.push((*self, *store));
                        assert(r == Ok::<Step, VmError>(Step::Next));
                        assert forall|k: int| 0 <= k < longer.len() - 1 implies (
                        #[trigger] longer[k]).0.frames@.len() > base && step_post(
                            longer[k].0,
                            &longer[k].1,
                            Ok(Step::Next),
                            longer[k + 1].0,
                            &longer[k + 1].1,
                        ) by {
                            if k < trace.len() - 1 {
                                assert(trace[k] == longer[k]);
                                assert(trace[k + 1] == longer[k + 1]);
                            }
                        }
                        trace = longer;
                    }
                },
                other => {
                    return other;
                },
            }
        }
        if self.frames.len() <= base {
            Ok(Step::Done)
        } else {
            Ok(Step::Next)
        }
    }
}

/// No instruction says that a run is done.
pub proof fn lemma_never_done(
    pre: VM,
    pre_store: &Store,
    i: Instruction,
    r: VMState<Step>,
    post: VM,
    post_store: &Store,
)
    requires
        exec_post(pre, pre_store, i, r, post, post_store),
    ensures
        !(r is Ok && r->Ok_0 is Done),
{
}

/// Every instruction computes with floats, changes only the stacks,
/// stores, calls, or changes an instance or a segment.
pub proof fn lemma_every_instruction_has_a_kind(vm: VM, store: &Store, i: Instruction)
    ensures
        spec_is_float(i) || spec_stack_effect(vm, store, i) is Some || spec_store_of(i) is Some
            || i is Call || i is CallIndirect || i is GlobalSet || i is TableSet || i
            is MemoryGrow || i is MemoryInit || i is DataDrop || i is MemoryCopy || i
            is MemoryFill || i is TableInit || i is ElemDrop || i is TableCopy || i is TableGrow
            || i is TableFill,
{
}

} // verus!
