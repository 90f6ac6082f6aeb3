//! Loads, stores and the other instructions on memories.

use vstd::prelude::*;

use super::alu::to_u;
use super::alu::unsigned;
use super::alu::wrap;
use super::alu::wrap_s;
use super::alu::Width;
use super::lanes::from_lanes;
use super::lanes::ints;
use super::lanes::lanes;
use super::lanes::le_bytes;
use super::lanes::le_value;
use super::lanes::lemma_le_value_bound;
use super::lanes::spec_from_lanes;
use super::lanes::spec_lanes;
use super::lanes::Shape;
use crate::binary::instruction::MemoryArg;
use crate::execution::errors::InstError;
use crate::execution::errors::Trap;
use crate::execution::errors::VMState;
use crate::execution::errors::VmError;
use crate::execution::inst::memory::spec_grown;
use crate::execution::inst::memory::spec_reads;
use crate::execution::inst::memory::spec_writes;
use crate::execution::inst::memory::MemInst;
use crate::execution::value::spec_v128_bytes;
use crate::execution::value::spec_v128_from_bytes;
use crate::execution::value::v128;
use crate::execution::value::ValInst;
use crate::execution::vm::stacks_are;
use crate::execution::vm::with_operands;
use crate::execution::vm::Stacks;
use crate::execution::vm::Store;
use crate::execution::vm::VM;

verus! {

/// What a load reads and what it makes of it.
#[derive(Debug, Clone, Copy, PartialEq, Eq, Structural)]
pub enum Load {
    /// An integer of width `to`, read from as many bytes as `from` has and
    /// extended as signed or as unsigned.
    Int { to: Width, from: Width, signed: bool },
    /// The bits of a float.
    Float(Width),
    V128,
    /// Eight bytes, as lanes of half the width of the shape, each
    /// extended to a lane of the shape.
    Extend(Shape, bool),
    /// One lane, repeated in every lane of the shape.
    Splat(Shape),
    /// One lane of the shape, followed by zero lanes.
    Zero(Shape),
}

/// What a store takes and how many of its low bytes it writes.
#[derive(Debug, Clone, Copy, PartialEq, Eq, Structural)]
pub enum StoreOp {
    /// The low bytes of an integer of width `from`, as many as `to` has.
    Int { from: Width, to: Width },
    /// The bits of a float.
    Float(Width),
    V128,
    /// One lane of a vector of the given shape.
    Lane(Shape, u8),
}

/// The number of bytes of a width.
pub open spec fn spec_width_bytes(w: Width) -> int {
    w.spec_bits() / 8
}

impl Load {
    /// The number of bytes that the load reads.
    pub open spec fn spec_size(self) -> int {
        match self {
            Load::Int { to, from, signed } => spec_width_bytes(from),
            Load::Float(w) => spec_width_bytes(w),
            Load::V128 => 16,
            Load::Extend(_, _) => 8,
            Load::Splat(s) => s.spec_bytes(),
            Load::Zero(s) => s.spec_bytes(),
        }
    }

    pub fn size(&self) -> (r: u64)
        ensures
            r == self.spec_size(),
            1 <= r <= 16,
    {
        match self {
            Load::Int { to, from, signed } => (from.bits() / 8) as u64,
            Load::Float(w) => (w.bits() / 8) as u64,
            Load::V128 => 16,
            Load::Extend(_, _) => 8,
            Load::Splat(s) => s.bytes() as u64,
            Load::Zero(s) => s.bytes() as u64,
        }
    }

    /// Whether the parts of the load go together: an integer is no wider
    /// than 64 bits and read from no more bytes than it has, a float has
    /// 32 or 64 bits, lanes are extended from half their width, and a
    /// lane before zeros has 32 or 64 bits.
    pub open spec fn spec_sound(self) -> bool {
        match self {
            Load::Int { to, from, signed } => (to == Width::W32 || to == Width::W64)
                && from.spec_bits() <= to.spec_bits(),
            Load::Float(w) => w == Width::W32 || w == Width::W64,
            Load::V128 => true,
            Load::Extend(s, _) => s != Shape::I8x16,
            Load::Splat(_) => true,
            Load::Zero(s) => s == Shape::I32x4 || s == Shape::I64x2,
        }
    }

    pub fn sound(&self) -> (r: bool)
        ensures
            r == self.spec_sound(),
    {
        match self {
            Load::Int { to, from, signed } => matches!(to, Width::W32 | Width::W64) && from.bits()
                <= to.bits(),
            Load::Float(w) => matches!(w, Width::W32 | Width::W64),
            Load::V128 => true,
            Load::Extend(s, _) => !matches!(s, Shape::I8x16),
            Load::Splat(_) => true,
            Load::Zero(s) => matches!(s, Shape::I32x4 | Shape::I64x2),
        }
    }
}

/// The value that a load makes of the bytes it read.
pub open spec fn spec_loaded(kind: Load, b: Seq<u8>) -> ValInst {
    match kind {
        Load::Int { to, from, signed } => {
            let x = if signed {
                wrap_s(le_value(b), from)
            } else {
                le_value(b)
            };
            if to == Width::W64 {
                ValInst::I64(wrap_s(x, to) as i64)
            } else {
                ValInst::I32(wrap_s(x, to) as i32)
            }
        },
        Load::Float(w) => if w == Width::W64 {
            ValInst::F64(le_value(b) as u64)
        } else {
            ValInst::F32(le_value(b) as u32)
        },
        Load::V128 => ValInst::V128(spec_v128_from_bytes(b)),
        Load::Extend(s, signed) => ValInst::V128(
            spec_from_lanes(
                Seq::new(
                    s.spec_count() as nat,
                    |k: int|
                        {
                            let x = le_value(
                                b.subrange(
                                    k * s.spec_half().spec_bytes(),
                                    (k + 1) * s.spec_half().spec_bytes(),
                                ),
                            );
                            if signed {
                                wrap_s(x, s.spec_half().spec_width())
                            } else {
                                x
                            }
                        },
                ),
                s,
            ),
        ),
        Load::Splat(s) => ValInst::V128(
            spec_from_lanes(Seq::new(s.spec_count() as nat, |k: int| le_value(b)), s),
        ),
        Load::Zero(s) => ValInst::V128(
            spec_from_lanes(
                Seq::new(
                    s.spec_count() as nat,
                    |k: int|
                        if k == 0 {
                            le_value(b)
                        } else {
                            0
                        },
                ),
                s,
            ),
        ),
    }
}

/// The number that the `n` bytes from `base` on stand for, least
/// significant byte first.
fn le_of(bytes: &[u8], base: usize, n: usize) -> (r: i128)
    requires
        n <= 8,
        base + n <= bytes@.len(),
    ensures
        r == le_value(bytes@.subrange(base as int, base + n)),
        0 <= r < 0x1_0000_0000_0000_0000,
        n == 1 ==> r < 0x100,
        n == 2 ==> r < 0x1_0000,
        n == 4 ==> r < 0x1_0000_0000,
{
    let ghost part = bytes@.subrange(base as int, base + n);
    let total: usize = bytes.len();
    let mut acc: i128 = 0;
    let mut j: usize = n;
    proof {
        assert(part.subrange(j as int, n as int) =~= Seq::<u8>::empty());
        lemma_le_value_bound(part);
    }
    while j > 0
        invariant
            j <= n,
            n <= 8,
            base + n <= total,
            total == bytes@.len(),
            part == bytes@.subrange(base as int, base + n),
            acc == le_value(part.subrange(j as int, n as int)),
            0 <= acc < 0x1_0000_0000_0000_0000,
        decreases j,
    {
        j -= 1;
        proof {
            let tail = part.subrange(j as int, n as int);
            assert(tail.drop_first() =~= part.subrange(j + 1, n as int));
            assert(tail[0] == bytes@[base + j]);
            lemma_le_value_bound(tail);
        }
        acc = acc * 0x100 + bytes[base + j] as i128;
    }
    proof {
        assert(part.subrange(0, n as int) =~= part);
    }
    acc
}

/// Makes the value of a load of the bytes it read.
pub fn loaded(kind: Load, bytes: &[u8]) -> (r: ValInst)
    requires
        kind.spec_sound(),
        bytes@.len() == kind.spec_size(),
    ensures
        r == spec_loaded(kind, bytes@),
{
    proof {
        assert(bytes@.subrange(0, bytes@.len() as int) =~= bytes@);
    }
    match kind {
        Load::Int { to, from, signed } => {
            let n = (from.bits() / 8) as usize;
            let raw = le_of(bytes, 0, n);
            let x: i128 = if signed {
                wrap(raw, from) as i128
            } else {
                raw
            };
            let v = wrap(x, to);
            match to {
                Width::W64 => ValInst::I64(v),
                _ => ValInst::I32(v as i32),
            }
        },
        Load::Float(w) => {
            let n = (w.bits() / 8) as usize;
            let raw = le_of(bytes, 0, n);
            match w {
                Width::W64 => ValInst::F64(raw as u64),
                _ => ValInst::F32(raw as u32),
            }
        },
        Load::V128 => {
            let mut out: [u8; 16] = [0u8;16];
            let mut i: usize = 0;
            while i < 16
                invariant
                    i <= 16,
                    bytes@.len() == 16,
                    forall|j: int| 0 <= j < i ==> out@[j] == bytes@[j],
                decreases 16 - i,
            {
                out[i] = bytes[i];
                i += 1;
            }
            assert(out@ =~= bytes@);
            ValInst::V128(v128::new(out))
        },
        Load::Extend(s, signed) => {
            let half = s.half();
            let n = half.bytes();
            let w = half.width();
            let mut out: Vec<i64> = Vec::new();
            let mut k: usize = 0;
            while k < s.count()
                invariant
                    k <= s.spec_count(),
                    s != Shape::I8x16,
                    half == s.spec_half(),
                    n == half.spec_bytes(),
                    w == half.spec_width(),
                    bytes@.len() == 8,
                    out@.len() == k,
                    forall|i: int|
                        0 <= i < k ==> (#[trigger] out@[i]) as int == {
                            let x = le_value(bytes@.subrange(i * n, (i + 1) * n));
                            if signed {
                                wrap_s(x, w)
                            } else {
                                x
                            }
                        },
                decreases s.spec_count() - k,
            {
                assert(k * n + n <= 8 && k * n + n == (k + 1) * n) by (nonlinear_arith)
                    requires
                        k < s.spec_count(),
                        n * s.spec_count() == 8,
                        n >= 1,
                ;
                let raw = le_of(bytes, k * n, n);
                let x: i64 = if signed {
                    wrap(raw, w)
                } else {
                    raw as i64
                };
                out.push(x);
                k += 1;
            }
            proof {
                assert(ints(out@) =~= Seq::new(
                    s.spec_count() as nat,
                    |k: int|
                        {
                            let x = le_value(
                                bytes@.subrange(
                                    k * s.spec_half().spec_bytes(),
                                    (k + 1) * s.spec_half().spec_bytes(),
                                ),
                            );
                            if signed {
                                wrap_s(x, s.spec_half().spec_width())
                            } else {
                                x
                            }
                        },
                ));
            }
            ValInst::V128(from_lanes(&out, s))
        },
        Load::Splat(s) => {
            let raw = le_of(bytes, 0, s.bytes());
            let x: i64 = wrap(raw, Width::W64);
            let mut out: Vec<i64> = Vec::new();
            let mut k: usize = 0;
            while k < s.count()
                invariant
                    k <= s.spec_count(),
                    out@.len() == k,
                    forall|i: int| 0 <= i < k ==> (#[trigger] out@[i]) == x,
                decreases s.spec_count() - k,
            {
                out.push(x);
                k += 1;
            }
            proof {
                lemma_splat_wraps(raw as int, s);
                assert(ints(out@) =~= Seq::new(s.spec_count() as nat, |k: int| x as int));
            }
            ValInst::V128(from_lanes(&out, s))
        },
        Load::Zero(s) => {
            let raw = le_of(bytes, 0, s.bytes());
            let x: i64 = wrap(raw, Width::W64);
            let mut out: Vec<i64> = Vec::new();
            out.push(x);
            let mut k: usize = 1;
            while k < s.count()
                invariant
                    1 <= k <= s.spec_count(),
                    out@.len() == k,
                    out@[0] == x,
                    forall|i: int| 1 <= i < k ==> (#[trigger] out@[i]) == 0,
                decreases s.spec_count() - k,
            {
                out.push(0);
                k += 1;
            }
            proof {
                lemma_zero_wraps(raw as int, s);
                assert(ints(out@) =~= Seq::new(
                    s.spec_count() as nat,
                    |k: int|
                        if k == 0 {
                            x as int
                        } else {
                            0
                        },
                ));
            }
            ValInst::V128(from_lanes(&out, s))
        },
    }
}

/// A vector made of lanes depends only on the lanes wrapped to 64 bits.
pub proof fn lemma_splat_wraps(x: int, s: Shape)
    requires
        0 <= x < 0x1_0000_0000_0000_0000,
    ensures
        spec_from_lanes(Seq::new(s.spec_count() as nat, |k: int| wrap_s(x, Width::W64)), s)
            == spec_from_lanes(Seq::new(s.spec_count() as nat, |k: int| x), s),
{
    let a = Seq::new(s.spec_count() as nat, |k: int| wrap_s(x, Width::W64));
    let b = Seq::new(s.spec_count() as nat, |k: int| x);
    lemma_lane_bytes_congruent(a, b, s, s.spec_count());
}

/// A vector made of a lane and zeros depends only on the lane wrapped to
/// 64 bits.
pub proof fn lemma_zero_wraps(x: int, s: Shape)
    requires
        0 <= x < 0x1_0000_0000_0000_0000,
    ensures
        spec_from_lanes(
            Seq::new(
                s.spec_count() as nat,
                |k: int|
                    if k == 0 {
                        wrap_s(x, Width::W64)
                    } else {
                        0
                    },
            ),
            s,
        ) == spec_from_lanes(
            Seq::new(
                s.spec_count() as nat,
                |k: int|
                    if k == 0 {
                        x
                    } else {
                        0
                    },
            ),
            s,
        ),
{
    let a = Seq::new(
        s.spec_count() as nat,
        |k: int|
            if k == 0 {
                wrap_s(x, Width::W64)
            } else {
                0
            },
    );
    let b = Seq::new(
        s.spec_count() as nat,
        |k: int|
            if k == 0 {
                x
            } else {
                0
            },
    );
    lemma_lane_bytes_congruent(a, b, s, s.spec_count());
}

/// Lanes that differ by multiples of 2^64 give the same bytes.
pub proof fn lemma_lane_bytes_congruent(a: Seq<int>, b: Seq<int>, s: Shape, k: int)
    requires
        0 <= k <= a.len(),
        a.len() == b.len(),
        forall|i: int|
            0 <= i < a.len() ==> (#[trigger] a[i] == b[i] || a[i] == b[i] - 0x1_0000_0000_0000_0000),
    ensures
        super::lanes::spec_lane_bytes(a, s, k) == super::lanes::spec_lane_bytes(b, s, k),
    decreases k,
{
    if k > 0 {
        lemma_lane_bytes_congruent(a, b, s, k - 1);
        let w = s.spec_width();
        let m = w.modulus();
        let x = b[k - 1];
        assert(a[k - 1] == b[k - 1] || a[k - 1] == b[k - 1] - 0x1_0000_0000_0000_0000);
        if a[k - 1] != x {
            let q: int = 0x1_0000_0000_0000_0000int / m;
            assert(q * m == 0x1_0000_0000_0000_0000);
            vstd::arithmetic::div_mod::lemma_mod_multiples_vanish(-q, x, m);
            assert(x + (-q) * m == x - q * m) by (nonlinear_arith);
        }
    }
}

/// The vector `v` with one lane replaced by the number that bytes stand
/// for.
fn lane_loaded(v: v128, s: Shape, lane: u8, bytes: &[u8]) -> (r: v128)
    requires
        lane < s.spec_count(),
        bytes@.len() == s.spec_bytes(),
    ensures
        r == spec_from_lanes(spec_lanes(v, s).update(lane as int, le_value(bytes@)), s),
{
    let x = le_of(bytes, 0, s.bytes());
    let mut la = lanes(v, s);
    la[lane as usize] = wrap(x, Width::W64);
    proof {
        assert(bytes@.subrange(0, bytes@.len() as int) =~= bytes@);
        let got = spec_lanes(v, s).update(lane as int, wrap_s(x as int, Width::W64));
        assert(ints(la@) =~= got);
        lemma_lane_bytes_congruent(
            got,
            spec_lanes(v, s).update(lane as int, x as int),
            s,
            s.spec_count(),
        );
    }
    from_lanes(&la, s)
}

/// The bytes that a store writes of the value on top of the operands, if
/// the value is of the type that the store takes.
pub open spec fn spec_stored(op: StoreOp, v: ValInst) -> Option<Seq<u8>> {
    match (op, v) {
        (StoreOp::Int { from: Width::W32, to }, ValInst::I32(x)) => Some(
            le_bytes(to_u(x as int, Width::W32), spec_width_bytes(to) as nat),
        ),
        (StoreOp::Int { from: Width::W64, to }, ValInst::I64(x)) => Some(
            le_bytes(to_u(x as int, Width::W64), spec_width_bytes(to) as nat),
        ),
        (StoreOp::Float(Width::W32), ValInst::F32(x)) => Some(le_bytes(x as int, 4)),
        (StoreOp::Float(Width::W64), ValInst::F64(x)) => Some(le_bytes(x as int, 8)),
        (StoreOp::V128, ValInst::V128(x)) => Some(spec_v128_bytes(x)),
        (StoreOp::Lane(s, lane), ValInst::V128(x)) => if lane < s.spec_count() {
            Some(
                le_bytes(
                    to_u(spec_lanes(x, s)[lane as int], s.spec_width()),
                    s.spec_bytes() as nat,
                ),
            )
        } else {
            None
        },
        _ => None,
    }
}

/// The `n` low bytes of a number, least significant byte first.
fn bytes_of(x: i128, n: usize) -> (r: Vec<u8>)
    requires
        0 <= x,
    ensures
        r@ == le_bytes(x as int, n as nat),
{
    let mut out: Vec<u8> = Vec::new();
    let mut rest: i128 = x;
    let mut j: usize = 0;
    proof {
        assert(le_bytes(x as int, n as nat) =~= out@ + le_bytes(rest as int, (n - j) as nat));
    }
    while j < n
        invariant
            j <= n,
            0 <= rest,
            le_bytes(x as int, n as nat) == out@ + le_bytes(rest as int, (n - j) as nat),
        decreases n - j,
    {
        let b: u8 = (rest % 0x100) as u8;
        proof {
            assert(out@.push(b) + le_bytes(rest as int / 0x100, (n - j - 1) as nat) =~= out@ + (
            seq![b] + le_bytes(rest as int / 0x100, (n - j - 1) as nat)));
        }
        out.push(b);
        rest = rest / 0x100;
        j += 1;
    }
    proof {
        assert(out@ + le_bytes(rest as int, 0) =~= out@);
    }
    out
}

/// The bytes that a store writes of a value.
pub fn stored(op: StoreOp, v: &ValInst) -> (r: Option<Vec<u8>>)
    ensures
        match spec_stored(op, *v) {
            Some(b) => r is Some && r->0@ == b,
            None => r is None,
        },
{
    match (op, v) {
        (StoreOp::Int { from: Width::W32, to }, ValInst::I32(x)) => Some(
            bytes_of(unsigned(*x as i64, Width::W32), (to.bits() / 8) as usize),
        ),
        (StoreOp::Int { from: Width::W64, to }, ValInst::I64(x)) => Some(
            bytes_of(unsigned(*x, Width::W64), (to.bits() / 8) as usize),
        ),
        (StoreOp::Float(Width::W32), ValInst::F32(x)) => Some(bytes_of(*x as i128, 4)),
        (StoreOp::Float(Width::W64), ValInst::F64(x)) => Some(bytes_of(*x as i128, 8)),
        (StoreOp::V128, ValInst::V128(x)) => Some(x.to_bytes()),
        (StoreOp::Lane(s, lane), ValInst::V128(x)) => {
            if (lane as usize) < s.count() {
                let la = lanes(*x, s);
                assert(ints(la@)[lane as int] == la@[lane as int]);
                Some(bytes_of(unsigned(la[lane as usize], s.width()), s.bytes()))
            } else {
                None
            }
        },
        _ => None,
    }
}

/// The address that an instruction on memories works at: the operand,
/// read as unsigned, plus the offset of the instruction.
pub open spec fn spec_ea(base: i32, memarg: MemoryArg) -> u64 {
    (memarg.offset as int + base as u32 as int) as u64
}

/// Whether the memories `post` are the memories `pre` but for the bytes
/// of the memory at the address `a`.
pub open spec fn mems_written(pre: Seq<MemInst>, post: Seq<MemInst>, a: int, bytes: Seq<u8>) -> bool {
    &&& post.len() == pre.len()
    &&& forall|i: int| 0 <= i < pre.len() && i != a ==> post[i] == pre[i]
    &&& post[a].bytes() == bytes
    &&& post[a].spec_type() == pre[a].spec_type()
}

/// Whether two stores hold the same instances but for their memories.
pub open spec fn same_but_mems(pre: &Store, post: &Store) -> bool {
    post.funcs == pre.funcs && post.tables == pre.tables && post.globals == pre.globals
}

/// The stacks after a load: the address is taken off the operands, and
/// the value that the load makes of the bytes at the address is put on.
/// Without an address it is `ArgNotEq`, with an operand that is no 32-bit
/// integer `ValTypeNotEq`, and without a memory, or with bytes beyond it,
/// `OutofRange`.
pub open spec fn spec_load(vm: VM, store: &Store, kind: Load, memarg: MemoryArg) -> Result<
    Stacks,
    Trap,
> {
    let ops = vm.operands@;
    if ops.len() == 0 {
        Err(Trap::ArgNotEq)
    } else if !kind.spec_sound() {
        Err(Trap::ValTypeNotEq)
    } else {
        match ops.last() {
            ValInst::I32(base) => match vm.spec_mem(store, vm.mem_idx as int) {
                Some(a) => match spec_reads(
                    store.mems@[a].bytes(),
                    spec_ea(base, memarg),
                    kind.spec_size() as u64,
                ) {
                    Some(bytes) => Ok(
                        with_operands(vm.stacks(), ops.drop_last().push(spec_loaded(kind, bytes))),
                    ),
                    None => Err(Trap::OutofRange),
                },
                None => Err(Trap::OutofRange),
            },
            _ => Err(Trap::ValTypeNotEq),
        }
    }
}

/// The stacks after a load into a lane: the vector and below it the
/// address are taken off the operands, and the vector is put back with
/// the lane replaced by the number at the address. A lane that is not
/// there is `OutofRange`.
pub open spec fn spec_load_lane(vm: VM, store: &Store, s: Shape, lane: u8, memarg: MemoryArg) -> Result<
    Stacks,
    Trap,
> {
    let ops = vm.operands@;
    let n = ops.len() as int;
    if n < 2 {
        Err(Trap::ArgNotEq)
    } else {
        match (ops[n - 2], ops[n - 1]) {
            (ValInst::I32(base), ValInst::V128(v)) => if lane >= s.spec_count() {
                Err(Trap::OutofRange)
            } else {
                match vm.spec_mem(store, vm.mem_idx as int) {
                    Some(a) => match spec_reads(
                        store.mems@[a].bytes(),
                        spec_ea(base, memarg),
                        s.spec_bytes() as u64,
                    ) {
                        Some(bytes) => Ok(
                            with_operands(
                                vm.stacks(),
                                ops.take(n - 2).push(
                                    ValInst::V128(
                                        spec_from_lanes(
                                            spec_lanes(v, s).update(lane as int, le_value(bytes)),
                                            s,
                                        ),
                                    ),
                                ),
                            ),
                        ),
                        None => Err(Trap::OutofRange),
                    },
                    None => Err(Trap::OutofRange),
                }
            },
            _ => Err(Trap::ValTypeNotEq),
        }
    }
}

/// The stacks after `memory.size`: the number of pages of the memory is
/// put on the operands. Without the memory it is `OutofRange`.
pub open spec fn spec_memory_size(vm: VM, store: &Store, idx: u8) -> Result<Stacks, Trap> {
    match vm.spec_mem(store, idx as int) {
        Some(a) => Ok(
            with_operands(
                vm.stacks(),
                vm.operands@.push(ValInst::I32(store.mems@[a].spec_mem_size() as i32)),
            ),
        ),
        None => Err(Trap::OutofRange),
    }
}

impl VM {
    /// The address in the store of the memory with the index `idx` of the
    /// module, if there is one.
    pub open spec fn spec_mem(&self, store: &Store, idx: int) -> Option<int> {
        if 0 <= idx < self.mems@.len() && self.mems@[idx] < store.mems@.len() {
            Some(self.mems@[idx] as int)
        } else {
            None
        }
    }

    pub fn mem(&self, store: &Store, idx: usize) -> (r: Option<usize>)
        ensures
            match self.spec_mem(store, idx as int) {
                Some(a) => r == Some(a as usize) && a < store.mems@.len(),
                None => r is None,
            },
    {
        if idx < self.mems.len() && self.mems[idx] < store.mems.len() {
            Some(self.mems[idx])
        } else {
            None
        }
    }

    /// The address that the operand on top and the offset give together;
    /// the operand stays.
    pub fn mem_addr(&self, memarg: &MemoryArg) -> (r: u64)
        requires
            self.operands@.len() > 0,
            self.operands@.last() is I32,
        ensures
            r == spec_ea(self.operands@.last()->I32_0, *memarg),
    {
        match self.operands[self.operands.len() - 1] {
            ValInst::I32(x) => memarg.offset as u64 + (x as u32) as u64,
            _ => 0,
        }
    }

    /// Takes the address off the operands and adds the offset to it.
    pub fn get_mem_addr(&mut self, memarg: &MemoryArg) -> (r: u64)
        requires
            old(self).operands@.len() > 0,
            old(self).operands@.last() is I32,
        ensures
            r == spec_ea(old(self).operands@.last()->I32_0, *memarg),
            final(self).operands@ == old(self).operands@.drop_last(),
            final(self).same_but_operands(old(self)),
    {
        let v = self.pop_u32() as u64;
        let offset = memarg.offset as u64;
        offset + v
    }

    /// Runs a load.
    pub fn load(&mut self, store: &Store, kind: Load, memarg: &MemoryArg) -> (r: VMState)
        ensures
            final(self).same_instance(old(self)),
            stacks_are(
                old(self).stacks(),
                spec_load(*old(self), store, kind, *memarg),
                r,
                final(self).stacks(),
            ),
    {
        let n = self.operands.len();
        if n == 0 {
            return Err(VmError::Trap(Trap::ArgNotEq));
        }
        if !kind.sound() {
            return Err(VmError::Trap(Trap::ValTypeNotEq));
        }
        if !matches!(self.operands[n - 1], ValInst::I32(_)) {
            return Err(VmError::Trap(Trap::ValTypeNotEq));
        }
        let a = match self.mem(store, self.mem_idx) {
            Some(a) => a,
            None => {
                return Err(VmError::Trap(Trap::OutofRange));
            },
        };
        let addr = self.mem_addr(memarg);
        let data = match store.mems[a].mem_reads(addr, kind.size()) {
            Ok(data) => data,
            Err(e) => {
                return Err(e);
            },
        };
        let v = loaded(kind, data.as_slice());
        let _ = self.pop();
        self.push(v);
        Ok(())
    }

    /// Runs a load into a lane of a vector.
    pub fn load_lane(&mut self, store: &Store, s: Shape, lane: u8, memarg: &MemoryArg) -> (r:
        VMState)
        ensures
            final(self).same_instance(old(self)),
            stacks_are(
                old(self).stacks(),
                spec_load_lane(*old(self), store, s, lane, *memarg),
                r,
                final(self).stacks(),
            ),
    {
        let n = self.operands.len();
        if n < 2 {
            return Err(VmError::Trap(Trap::ArgNotEq));
        }
        let v = match (self.operands[n - 2], self.operands[n - 1]) {
            (ValInst::I32(_), ValInst::V128(v)) => v,
            _ => {
                return Err(VmError::Trap(Trap::ValTypeNotEq));
            },
        };
        if (lane as usize) >= s.count() {
            return Err(VmError::Trap(Trap::OutofRange));
        }
        let a = match self.mem(store, self.mem_idx) {
            Some(a) => a,
            None => {
                return Err(VmError::Trap(Trap::OutofRange));
            },
        };
        let addr = match self.operands[n - 2] {
            ValInst::I32(x) => memarg.offset as u64 + (x as u32) as u64,
            _ => {
                return Err(VmError::Trap(Trap::ValTypeNotEq));
            },
        };
        let data = match store.mems[a].mem_reads(addr, s.bytes() as u64) {
            Ok(data) => data,
            Err(e) => {
                return Err(e);
            },
        };
        let value = lane_loaded(v, s, lane, data.as_slice());
        let _ = self.pop();
        let _ = self.pop();
        proof {
            assert(self.operands@ =~= old(self).operands@.take(n - 2));
        }
        self.push(ValInst::V128(value));
        Ok(())
    }

    /// What a store does: the value and below it the address are taken
    /// off the operands, and the bytes of the value are written at the
    /// address. With fewer than two operands it is `ArgNotEq`, with
    /// operands of other types `ValTypeNotEq`, without a memory
    /// `OutofRange`, and with bytes beyond the memory `OutofBoundMem`;
    /// in all these cases the store is unchanged.
    pub open spec fn store_post(
        pre: VM,
        pre_store: &Store,
        r: VMState,
        post: VM,
        post_store: &Store,
        op: StoreOp,
        memarg: MemoryArg,
    ) -> bool {
        let ops = pre.operands@;
        let n = ops.len() as int;
        &&& post.same_instance(&pre)
        &&& r is Err ==> post.stacks() == pre.stacks()
        &&& same_but_mems(pre_store, post_store)
        &&& if n < 2 {
            r == Err::<(), VmError>(VmError::Trap(Trap::ArgNotEq)) && post_store.mems
                == pre_store.mems
        } else {
            match (ops[n - 2], spec_stored(op, ops[n - 1])) {
                (ValInst::I32(base), Some(bytes)) => match pre.spec_mem(
                    pre_store,
                    pre.mem_idx as int,
                ) {
                    Some(a) => match spec_writes(
                        pre_store.mems@[a].bytes(),
                        spec_ea(base, memarg),
                        bytes,
                    ) {
                        Some(data) => r is Ok && post.operands@ == ops.take(n - 2)
                            && post.same_but_operands(&pre) && mems_written(
                            pre_store.mems@,
                            post_store.mems@,
                            a,
                            data,
                        ),
                        None => r == Err::<(), VmError>(VmError::Inst(InstError::OutofBoundMem))
                            && mems_written(
                            pre_store.mems@,
                            post_store.mems@,
                            a,
                            pre_store.mems@[a].bytes(),
                        ),
                    },
                    None => r == Err::<(), VmError>(VmError::Trap(Trap::OutofRange))
                        && post_store.mems == pre_store.mems,
                },
                _ => r == Err::<(), VmError>(VmError::Trap(Trap::ValTypeNotEq)) && post_store.mems
                    == pre_store.mems,
            }
        }
    }

    /// Runs a store.
    pub fn store(&mut self, store: &mut Store, op: StoreOp, memarg: &MemoryArg) -> (r: VMState)
        ensures
            Self::store_post(*old(self), old(store), r, *final(self), final(store), op, *memarg),
    {
        let n = self.operands.len();
        if n < 2 {
            return Err(VmError::Trap(Trap::ArgNotEq));
        }
        if !matches!(self.operands[n - 2], ValInst::I32(_)) {
            return Err(VmError::Trap(Trap::ValTypeNotEq));
        }
        let bytes = match stored(op, &self.operands[n - 1]) {
            Some(b) => b,
            None => {
                return Err(VmError::Trap(Trap::ValTypeNotEq));
            },
        };
        let a = match self.mem(store, self.mem_idx) {
            Some(a) => a,
            None => {
                return Err(VmError::Trap(Trap::OutofRange));
            },
        };
        let addr = match self.operands[n - 2] {
            ValInst::I32(x) => memarg.offset as u64 + (x as u32) as u64,
            _ => {
                return Err(VmError::Trap(Trap::ValTypeNotEq));
            },
        };
        match store.mems[a].mem_writes(addr, bytes.as_slice()) {
            Ok(_) => {
                self.drop_n(2);
                Ok(())
            },
            Err(e) => Err(e),
        }
    }

    /// Puts the number of pages of a memory on the operands.
    pub fn memory_size(&mut self, store: &Store, idx: u8) -> (r: VMState)
        ensures
            final(self).same_instance(old(self)),
            stacks_are(
                old(self).stacks(),
                spec_memory_size(*old(self), store, idx),
                r,
                final(self).stacks(),
            ),
    {
        let a = match self.mem(store, idx as usize) {
            Some(a) => a,
            None => {
                return Err(VmError::Trap(Trap::OutofRange));
            },
        };
        let size = store.mems[a].mem_size();
        self.push_u32(size);
        Ok(())
    }

    /// What `memory.grow` does: the number of pages to add is taken off
    /// the operands, the memory grows by them if it may, and the number of
    /// pages before, or -1, is put on the operands.
    pub open spec fn memory_grow_post(
        pre: VM,
        pre_store: &Store,
        r: VMState,
        post: VM,
        post_store: &Store,
        idx: u8,
    ) -> bool {
        let ops = pre.operands@;
        &&& post.same_instance(&pre)
        &&& r is Err ==> post.stacks() == pre.stacks()
        &&& same_but_mems(pre_store, post_store)
        &&& if ops.len() == 0 {
            r == Err::<(), VmError>(VmError::Trap(Trap::ArgNotEq)) && post_store.mems
                == pre_store.mems
        } else {
            match (ops.last(), pre.spec_mem(pre_store, idx as int)) {
                (ValInst::I32(size), Some(a)) => {
                    let m = pre_store.mems@[a];
                    let grown = spec_grown(m.spec_mem_size() as u32, size as u32, m.spec_type().max);
                    &&& r is Ok
                    &&& post.same_but_operands(&pre)
                    &&& post_store.mems@.len() == pre_store.mems@.len()
                    &&& forall|i: int|
                        0 <= i < pre_store.mems@.len() && i != a ==> post_store.mems@[i]
                            == pre_store.mems@[i]
                    &&& match grown {
                        Some(pages) if pages * 65536 <= usize::MAX => {
                            &&& post.operands@ == ops.drop_last().push(
                                ValInst::I32(m.spec_mem_size() as i32),
                            )
                            &&& post_store.mems@[a].bytes() == m.bytes() + Seq::new(
                                (size as u32 * 65536) as nat,
                                |i: int| 0u8,
                            )
                        },
                        _ => post.operands@ == ops.drop_last().push(ValInst::I32(-1i32))
                            && post_store.mems@[a].bytes() == m.bytes(),
                    }
                },
                (ValInst::I32(_), None) => r == Err::<(), VmError>(VmError::Trap(Trap::OutofRange))
                    && post_store.mems == pre_store.mems,
                _ => r == Err::<(), VmError>(VmError::Trap(Trap::ValTypeNotEq)) && post_store.mems
                    == pre_store.mems,
            }
        }
    }

    /// Runs `memory.grow`.
    pub fn memory_grow(&mut self, store: &mut Store, idx: u8) -> (r: VMState)
        ensures
            Self::memory_grow_post(*old(self), old(store), r, *final(self), final(store), idx),
    {
        let n = self.operands.len();
        if n == 0 {
            return Err(VmError::Trap(Trap::ArgNotEq));
        }
        if !matches!(self.operands[n - 1], ValInst::I32(_)) {
            return Err(VmError::Trap(Trap::ValTypeNotEq));
        }
        let a = match self.mem(store, idx as usize) {
            Some(a) => a,
            None => {
                return Err(VmError::Trap(Trap::OutofRange));
            },
        };
        let size = self.pop_u32();
        let old_size = store.mems[a].mem_grow(size);
        self.push_i32(old_size);
        Ok(())
    }
}

/// Whether the memories `post` hold the same bytes and have the same
/// types as the memories `pre`.
pub open spec fn mems_alike(pre: Seq<MemInst>, post: Seq<MemInst>) -> bool {
    &&& post.len() == pre.len()
    &&& forall|i: int|
        0 <= i < pre.len() ==> (#[trigger] post[i]).bytes() == pre[i].bytes()
            && post[i].spec_type() == pre[i].spec_type()
}

/// The top three operands as unsigned 32-bit numbers, the topmost last.
/// Fewer operands are `ArgNotEq`, other types `ValTypeNotEq`.
pub open spec fn spec_top3(ops: Seq<ValInst>) -> Result<(u32, u32, u32), Trap> {
    let n = ops.len() as int;
    if n < 3 {
        Err(Trap::ArgNotEq)
    } else {
        match (ops[n - 3], ops[n - 2], ops[n - 1]) {
            (ValInst::I32(a), ValInst::I32(b), ValInst::I32(c)) => Ok(
                (a as u32, b as u32, c as u32),
            ),
            _ => Err(Trap::ValTypeNotEq),
        }
    }
}

/// What an instruction that writes a run of bytes does: its three
/// operands are taken off, and the bytes of one memory change. With an
/// error, the memories hold what they held.
pub open spec fn bulk_post(
    pre: VM,
    pre_store: &Store,
    r: VMState,
    post: VM,
    post_store: &Store,
    want: Result<(int, Seq<u8>), VmError>,
) -> bool {
    &&& post.same_instance(&pre)
    &&& r is Err ==> post.stacks() == pre.stacks()
    &&& same_but_mems(pre_store, post_store)
    &&& match want {
        Ok((a, data)) => r is Ok && post.operands@ == pre.operands@.take(pre.operands@.len() - 3)
            && post.same_but_operands(&pre) && mems_written(
            pre_store.mems@,
            post_store.mems@,
            a,
            data,
        ),
        Err(e) => r == Err::<(), VmError>(e) && mems_alike(pre_store.mems@, post_store.mems@),
    }
}

/// What `memory.init` writes where: the operands are the address in the
/// memory, the offset in the data segment and the number of bytes. A
/// segment that is not there, bytes beyond the segment, and a memory that
/// is not there are `OutofRange`; bytes beyond the memory are
/// `OutofBoundMem`.
pub open spec fn spec_memory_init(vm: VM, store: &Store, segment: u32, idx: u32) -> Result<
    (int, Seq<u8>),
    VmError,
> {
    match spec_top3(vm.operands@) {
        Err(t) => Err(VmError::Trap(t)),
        Ok((dst, addr, n)) => if segment >= vm.datas@.len() || addr + n
            > vm.datas@[segment as int]@.len() {
            Err(VmError::Trap(Trap::OutofRange))
        } else {
            match vm.spec_mem(store, idx as int) {
                None => Err(VmError::Trap(Trap::OutofRange)),
                Some(a) => match spec_writes(
                    store.mems@[a].bytes(),
                    dst as u64,
                    vm.datas@[segment as int]@.subrange(addr as int, addr + n),
                ) {
                    Some(data) => Ok((a, data)),
                    None => Err(VmError::Inst(InstError::OutofBoundMem)),
                },
            }
        },
    }
}

/// What `memory.copy` writes where: the operands are the address to
/// write at, the address to read at and the number of bytes. The bytes
/// are read before any is written, so that the ranges may overlap.
pub open spec fn spec_memory_copy(vm: VM, store: &Store, src_idx: u32, dst_idx: u32) -> Result<
    (int, Seq<u8>),
    VmError,
> {
    match spec_top3(vm.operands@) {
        Err(t) => Err(VmError::Trap(t)),
        Ok((dest, addr, n)) => match (
            vm.spec_mem(store, src_idx as int),
            vm.spec_mem(store, dst_idx as int),
        ) {
            (Some(from), Some(to)) => match spec_reads(
                store.mems@[from].bytes(),
                addr as u64,
                n as u64,
            ) {
                None => Err(VmError::Trap(Trap::OutofRange)),
                Some(bytes) => match spec_writes(store.mems@[to].bytes(), dest as u64, bytes) {
                    Some(data) => Ok((to, data)),
                    None => Err(VmError::Inst(InstError::OutofBoundMem)),
                },
            },
            _ => Err(VmError::Trap(Trap::OutofRange)),
        },
    }
}

/// What `memory.fill` writes where: the operands are the address, the
/// value whose low byte is written, and the number of bytes.
pub open spec fn spec_memory_fill(vm: VM, store: &Store, idx: u32) -> Result<
    (int, Seq<u8>),
    VmError,
> {
    match spec_top3(vm.operands@) {
        Err(t) => Err(VmError::Trap(t)),
        Ok((addr, val, n)) => match vm.spec_mem(store, idx as int) {
            None => Err(VmError::Trap(Trap::OutofRange)),
            Some(a) => match spec_writes(
                store.mems@[a].bytes(),
                addr as u64,
                Seq::new(n as nat, |i: int| val as u8),
            ) {
                Some(data) => Ok((a, data)),
                None => Err(VmError::Inst(InstError::OutofBoundMem)),
            },
        },
    }
}

impl VM {
    /// The top three operands as unsigned 32-bit numbers; they stay.
    pub fn top3(&self) -> (r: Result<(u32, u32, u32), Trap>)
        ensures
            r == spec_top3(self.operands@),
    {
        let n = self.operands.len();
        if n < 3 {
            return Err(Trap::ArgNotEq);
        }
        match (self.operands[n - 3], self.operands[n - 2], self.operands[n - 1]) {
            (ValInst::I32(a), ValInst::I32(b), ValInst::I32(c)) => Ok(
                (a as u32, b as u32, c as u32),
            ),
            _ => Err(Trap::ValTypeNotEq),
        }
    }

    /// Takes `k` operands off.
    pub fn drop_n(&mut self, k: usize)
        requires
            k <= old(self).operands@.len(),
        ensures
            final(self).same_but_operands(old(self)),
            final(self).operands@ == old(self).operands@.take(old(self).operands@.len() - k),
    {
        let n = self.operands.len();
        self.operands.truncate(n - k);
        proof {
            assert(self.operands@ =~= old(self).operands@.take(n - k));
        }
    }

    /// Copies bytes of a data segment into a memory.
    pub fn memory_init(&mut self, store: &mut Store, segment: u32, idx: u32) -> (r: VMState)
        ensures
            bulk_post(
                *old(self),
                old(store),
                r,
                *final(self),
                final(store),
                spec_memory_init(*old(self), old(store), segment, idx),
            ),
    {
        let (dst, addr, n) = match self.top3() {
            Ok(t) => t,
            Err(t) => {
                return Err(VmError::Trap(t));
            },
        };
        if (segment as usize) >= self.datas.len() {
            return Err(VmError::Trap(Trap::OutofRange));
        }
        let data = &self.datas[segment as usize];
        if addr as u64 + n as u64 > data.len() as u64 {
            return Err(VmError::Trap(Trap::OutofRange));
        }
        let a = match self.mem(store, idx as usize) {
            Some(a) => a,
            None => {
                return Err(VmError::Trap(Trap::OutofRange));
            },
        };
        let bytes = vstd::slice::slice_subrange(
            data.as_slice(),
            addr as usize,
            addr as usize + n as usize,
        );
        let ghost before = store.mems@;
        let r = store.mems[a].mem_writes(dst as u64, bytes);
        proof {
            assert(r is Err ==> mems_alike(before, store.mems@));
        }
        match r {
            Ok(_) => {
                self.drop_n(3);
                Ok(())
            },
            Err(e) => Err(e),
        }
    }

    /// What `data.drop` does: the bytes of the data segment are cleared;
    /// nothing else changes. A segment that is not there is `OutofRange`.
    pub open spec fn data_drop_post(pre: VM, r: VMState, post: VM, data_idx: u32) -> bool {
        &&& post.operands == pre.operands
        &&& post.frames == pre.frames
        &&& post.local_idx == pre.local_idx
        &&& post.id == pre.id
        &&& post.name == pre.name
        &&& post.module == pre.module
        &&& post.funcs == pre.funcs
        &&& post.tables == pre.tables
        &&& post.mems == pre.mems
        &&& post.globals == pre.globals
        &&& post.exports == pre.exports
        &&& post.elements == pre.elements
        &&& post.mem_idx == pre.mem_idx
        &&& if data_idx >= pre.datas@.len() {
            r == Err::<(), VmError>(VmError::Trap(Trap::OutofRange)) && post.datas == pre.datas
        } else {
            &&& r is Ok
            &&& post.datas@.len() == pre.datas@.len()
            &&& post.datas@[data_idx as int]@ == Seq::<u8>::empty()
            &&& forall|i: int|
                0 <= i < pre.datas@.len() && i != data_idx ==> post.datas@[i] == pre.datas@[i]
        }
    }

    /// Clears a data segment.
    pub fn data_drop(&mut self, data_idx: u32) -> (r: VMState)
        ensures
            Self::data_drop_post(*old(self), r, *final(self), data_idx),
    {
        if (data_idx as usize) >= self.datas.len() {
            return Err(VmError::Trap(Trap::OutofRange));
        }
        self.datas[data_idx as usize] = Vec::new();
        Ok(())
    }

    /// Copies bytes from one place of a memory to another, or between
    /// memories.
    pub fn memory_copy(&mut self, store: &mut Store, src_idx: u32, dst_idx: u32) -> (r: VMState)
        ensures
            bulk_post(
                *old(self),
                old(store),
                r,
                *final(self),
                final(store),
                spec_memory_copy(*old(self), old(store), src_idx, dst_idx),
            ),
    {
        let (dest, addr, n) = match self.top3() {
            Ok(t) => t,
            Err(t) => {
                return Err(VmError::Trap(t));
            },
        };
        let (from, to) = match (self.mem(store, src_idx as usize), self.mem(store, dst_idx as usize)) {
            (Some(from), Some(to)) => (from, to),
            _ => {
                return Err(VmError::Trap(Trap::OutofRange));
            },
        };
        let data = store.mems[from].mem_reads(addr as u64, n as u64)?;
        let ghost before = store.mems@;
        let r = store.mems[to].mem_writes(dest as u64, data.as_slice());
        proof {
            assert(r is Err ==> mems_alike(before, store.mems@));
        }
        match r {
            Ok(_) => {
                self.drop_n(3);
                Ok(())
            },
            Err(e) => Err(e),
        }
    }

    /// Fills a run of bytes of a memory with one byte.
    pub fn memory_fill(&mut self, store: &mut Store, idx: u32) -> (r: VMState)
        ensures
            bulk_post(
                *old(self),
                old(store),
                r,
                *final(self),
                final(store),
                spec_memory_fill(*old(self), old(store), idx),
            ),
    {
        let (addr, val, n) = match self.top3() {
            Ok(t) => t,
            Err(t) => {
                return Err(VmError::Trap(t));
            },
        };
        let a = match self.mem(store, idx as usize) {
            Some(a) => a,
            None => {
                return Err(VmError::Trap(Trap::OutofRange));
            },
        };
        let mut data: Vec<u8> = Vec::new();
        data.resize(n as usize, val as u8);
        proof {
            assert(data@ =~= Seq::new(n as nat, |i: int| val as u8));
        }
        let ghost before = store.mems@;
        let r = store.mems[a].mem_writes(addr as u64, data.as_slice());
        proof {
            assert(r is Err ==> mems_alike(before, store.mems@));
        }
        match r {
            Ok(_) => {
                self.drop_n(3);
                Ok(())
            },
            Err(e) => Err(e),
        }
    }
}

/// Copying within a memory reads all the bytes before it writes any: the
/// bytes at the destination are afterwards what the bytes at the source
/// were before, also where the two ranges overlap.
pub proof fn lemma_copy_as_if_buffered(data: Seq<u8>, src: u64, dst: u64, n: u64)
    requires
        spec_reads(data, src, n) is Some,
        spec_writes(data, dst, spec_reads(data, src, n)->0) is Some,
    ensures
        spec_writes(data, dst, spec_reads(data, src, n)->0)->0.subrange(dst as int, dst + n)
            == data.subrange(src as int, src + n),
        spec_writes(data, dst, spec_reads(data, src, n)->0)->0.len() == data.len(),
{
    let after = spec_writes(data, dst, spec_reads(data, src, n)->0)->0;
    assert(after.subrange(dst as int, dst + n) =~= data.subrange(src as int, src + n));
}

/// A load at the last address that leaves room for its bytes reads them,
/// and a load at any address after that is beyond the memory.
pub proof fn lemma_load_boundary(data: Seq<u8>, kind: Load)
    requires
        kind.spec_size() <= data.len(),
        data.len() <= 0x1_0000_0000,
    ensures
        spec_reads(data, (data.len() - kind.spec_size()) as u64, kind.spec_size() as u64)
            is Some,
        spec_reads(data, (data.len() - kind.spec_size() + 1) as u64, kind.spec_size() as u64)
            is None,
{
}

// Each load and store by its name.
impl VM {
    /// `i32.load`.
    pub fn i32_load(&mut self, store: &Store, memarg: &MemoryArg) -> (r: VMState)
        ensures
            final(self).same_instance(old(self)),
            stacks_are(
                old(self).stacks(),
                spec_load(*old(self), store, Load::Int { to: Width::W32, from: Width::W32, signed: false }, *memarg),
                r,
                final(self).stacks(),
            ),
    {
        self.load(store, Load::Int { to: Width::W32, from: Width::W32, signed: false }, memarg)
    }

    /// `i64.load`.
    pub fn i64_load(&mut self, store: &Store, memarg: &MemoryArg) -> (r: VMState)
        ensures
            final(self).same_instance(old(self)),
            stacks_are(
                old(self).stacks(),
                spec_load(*old(self), store, Load::Int { to: Width::W64, from: Width::W64, signed: false }, *memarg),
                r,
                final(self).stacks(),
            ),
    {
        self.load(store, Load::Int { to: Width::W64, from: Width::W64, signed: false }, memarg)
    }

    /// `f32.load`.
    pub fn f32_load(&mut self, store: &Store, memarg: &MemoryArg) -> (r: VMState)
        ensures
            final(self).same_instance(old(self)),
            stacks_are(
                old(self).stacks(),
                spec_load(*old(self), store, Load::Float(Width::W32), *memarg),
                r,
                final(self).stacks(),
            ),
    {
        self.load(store, Load::Float(Width::W32), memarg)
    }

    /// `f64.load`.
    pub fn f64_load(&mut self, store: &Store, memarg: &MemoryArg) -> (r: VMState)
        ensures
            final(self).same_instance(old(self)),
            stacks_are(
                old(self).stacks(),
                spec_load(*old(self), store, Load::Float(Width::W64), *memarg),
                r,
                final(self).stacks(),
            ),
    {
        self.load(store, Load::Float(Width::W64), memarg)
    }

    /// `i32.load8_s`.
    pub fn i32_load8_s(&mut self, store: &Store, memarg: &MemoryArg) -> (r: VMState)
        ensures
            final(self).same_instance(old(self)),
            stacks_are(
                old(self).stacks(),
                spec_load(*old(self), store, Load::Int { to: Width::W32, from: Width::W8, signed: true }, *memarg),
                r,
                final(self).stacks(),
            ),
    {
        self.load(store, Load::Int { to: Width::W32, from: Width::W8, signed: true }, memarg)
    }

    /// `i32.load8_u`.
    pub fn i32_load8_u(&mut self, store: &Store, memarg: &MemoryArg) -> (r: VMState)
        ensures
            final(self).same_instance(old(self)),
            stacks_are(
                old(self).stacks(),
                spec_load(*old(self), store, Load::Int { to: Width::W32, from: Width::W8, signed: false }, *memarg),
                r,
                final(self).stacks(),
            ),
    {
        self.load(store, Load::Int { to: Width::W32, from: Width::W8, signed: false }, memarg)
    }

    /// `i32.load16_s`.
    pub fn i32_load16_s(&mut self, store: &Store, memarg: &MemoryArg) -> (r: VMState)
        ensures
            final(self).same_instance(old(self)),
            stacks_are(
                old(self).stacks(),
                spec_load(*old(self), store, Load::Int { to: Width::W32, from: Width::W16, signed: true }, *memarg),
                r,
                final(self).stacks(),
            ),
    {
        self.load(store, Load::Int { to: Width::W32, from: Width::W16, signed: true }, memarg)
    }

    /// `i32.load16_u`.
    pub fn i32_load16_u(&mut self, store: &Store, memarg: &MemoryArg) -> (r: VMState)
        ensures
            final(self).same_instance(old(self)),
            stacks_are(
                old(self).stacks(),
                spec_load(*old(self), store, Load::Int { to: Width::W32, from: Width::W16, signed: false }, *memarg),
                r,
                final(self).stacks(),
            ),
    {
        self.load(store, Load::Int { to: Width::W32, from: Width::W16, signed: false }, memarg)
    }

    /// `i64.load8_s`.
    pub fn i64_load8_s(&mut self, store: &Store, memarg: &MemoryArg) -> (r: VMState)
        ensures
            final(self).same_instance(old(self)),
            stacks_are(
                old(self).stacks(),
                spec_load(*old(self), store, Load::Int { to: Width::W64, from: Width::W8, signed: true }, *memarg),
                r,
                final(self).stacks(),
            ),
    {
        self.load(store, Load::Int { to: Width::W64, from: Width::W8, signed: true }, memarg)
    }

    /// `i64.load8_u`.
    pub fn i64_load8_u(&mut self, store: &Store, memarg: &MemoryArg) -> (r: VMState)
        ensures
            final(self).same_instance(old(self)),
            stacks_are(
                old(self).stacks(),
                spec_load(*old(self), store, Load::Int { to: Width::W64, from: Width::W8, signed: false }, *memarg),
                r,
                final(self).stacks(),
            ),
    {
        self.load(store, Load::Int { to: Width::W64, from: Width::W8, signed: false }, memarg)
    }

    /// `i64.load16_s`.
    pub fn i64_load16_s(&mut self, store: &Store, memarg: &MemoryArg) -> (r: VMState)
        ensures
            final(self).same_instance(old(self)),
            stacks_are(
                old(self).stacks(),
                spec_load(*old(self), store, Load::Int { to: Width::W64, from: Width::W16, signed: true }, *memarg),
                r,
                final(self).stacks(),
            ),
    {
        self.load(store, Load::Int { to: Width::W64, from: Width::W16, signed: true }, memarg)
    }

    /// `i64.load16_u`.
    pub fn i64_load16_u(&mut self, store: &Store, memarg: &MemoryArg) -> (r: VMState)
        ensures
            final(self).same_instance(old(self)),
            stacks_are(
                old(self).stacks(),
                spec_load(*old(self), store, Load::Int { to: Width::W64, from: Width::W16, signed: false }, *memarg),
                r,
                final(self).stacks(),
            ),
    {
        self.load(store, Load::Int { to: Width::W64, from: Width::W16, signed: false }, memarg)
    }

    /// `i64.load32_s`.
    pub fn i64_load32_s(&mut self, store: &Store, memarg: &MemoryArg) -> (r: VMState)
        ensures
            final(self).same_instance(old(self)),
            stacks_are(
                old(self).stacks(),
                spec_load(*old(self), store, Load::Int { to: Width::W64, from: Width::W32, signed: true }, *memarg),
                r,
                final(self).stacks(),
            ),
    {
        self.load(store, Load::Int { to: Width::W64, from: Width::W32, signed: true }, memarg)
    }

    /// `i64.load32_u`.
    pub fn i64_load32_u(&mut self, store: &Store, memarg: &MemoryArg) -> (r: VMState)
        ensures
            final(self).same_instance(old(self)),
            stacks_are(
                old(self).stacks(),
                spec_load(*old(self), store, Load::Int { to: Width::W64, from: Width::W32, signed: false }, *memarg),
                r,
                final(self).stacks(),
            ),
    {
        self.load(store, Load::Int { to: Width::W64, from: Width::W32, signed: false }, memarg)
    }

    /// `i32.store`.
    pub fn i32_store(&mut self, store: &mut Store, memarg: &MemoryArg) -> (r: VMState)
        ensures
            Self::store_post(
                *old(self),
                old(store),
                r,
                *final(self),
                final(store),
                StoreOp::Int { from: Width::W32, to: Width::W32 },
                *memarg,
            ),
    {
        self.store(store, StoreOp::Int { from: Width::W32, to: Width::W32 }, memarg)
    }

    /// `i64.store`.
    pub fn i64_store(&mut self, store: &mut Store, memarg: &MemoryArg) -> (r: VMState)
        ensures
            Self::store_post(
                *old(self),
                old(store),
                r,
                *final(self),
                final(store),
                StoreOp::Int { from: Width::W64, to: Width::W64 },
                *memarg,
            ),
    {
        self.store(store, StoreOp::Int { from: Width::W64, to: Width::W64 }, memarg)
    }

    /// `f32.store`.
    pub fn f32_store(&mut self, store: &mut Store, memarg: &MemoryArg) -> (r: VMState)
        ensures
            Self::store_post(
                *old(self),
                old(store),
                r,
                *final(self),
                final(store),
                StoreOp::Float(Width::W32),
                *memarg,
            ),
    {
        self.store(store, StoreOp::Float(Width::W32), memarg)
    }

    /// `f64.store`.
    pub fn f64_store(&mut self, store: &mut Store, memarg: &MemoryArg) -> (r: VMState)
        ensures
            Self::store_post(
                *old(self),
                old(store),
                r,
                *final(self),
                final(store),
                StoreOp::Float(Width::W64),
                *memarg,
            ),
    {
        self.store(store, StoreOp::Float(Width::W64), memarg)
    }

    /// `i32.store8`.
    pub fn i32_store8(&mut self, store: &mut Store, memarg: &MemoryArg) -> (r: VMState)
        ensures
            Self::store_post(
                *old(self),
                old(store),
                r,
                *final(self),
                final(store),
                StoreOp::Int { from: Width::W32, to: Width::W8 },
                *memarg,
            ),
    {
        self.store(store, StoreOp::Int { from: Width::W32, to: Width::W8 }, memarg)
    }

    /// `i32.store16`.
    pub fn i32_store16(&mut self, store: &mut Store, memarg: &MemoryArg) -> (r: VMState)
        ensures
            Self::store_post(
                *old(self),
                old(store),
                r,
                *final(self),
                final(store),
                StoreOp::Int { from: Width::W32, to: Width::W16 },
                *memarg,
            ),
    {
        self.store(store, StoreOp::Int { from: Width::W32, to: Width::W16 }, memarg)
    }

    /// `i64.store8`.
    pub fn i64_store8(&mut self, store: &mut Store, memarg: &MemoryArg) -> (r: VMState)
        ensures
            Self::store_post(
                *old(self),
                old(store),
                r,
                *final(self),
                final(store),
                StoreOp::Int { from: Width::W64, to: Width::W8 },
                *memarg,
            ),
    {
        self.store(store, StoreOp::Int { from: Width::W64, to: Width::W8 }, memarg)
    }

    /// `i64.store16`.
    pub fn i64_store16(&mut self, store: &mut Store, memarg: &MemoryArg) -> (r: VMState)
        ensures
            Self::store_post(
                *old(self),
                old(store),
                r,
                *final(self),
                final(store),
                StoreOp::Int { from: Width::W64, to: Width::W16 },
                *memarg,
            ),
    {
        self.store(store, StoreOp::Int { from: Width::W64, to: Width::W16 }, memarg)
    }

    /// `i64.store32`.
    pub fn i64_store32(&mut self, store: &mut Store, memarg: &MemoryArg) -> (r: VMState)
        ensures
            Self::store_post(
                *old(self),
                old(store),
                r,
                *final(self),
                final(store),
                StoreOp::Int { from: Width::W64, to: Width::W32 },
                *memarg,
            ),
    {
        self.store(store, StoreOp::Int { from: Width::W64, to: Width::W32 }, memarg)
    }
}

} // verus!
