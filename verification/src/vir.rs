use vstd::prelude::*;

use crate::grammar::{FnDecl, Stmt, TypeKind};

verus! {

/// A program: its top-level statements and function declarations, in order.
#[derive(Debug)]
pub struct Program {
    pub items: Vec<Item>,
}

#[derive(Debug)]
pub enum Item {
    Stmt(Stmt),
    Function(FnDecl),
}

/// A constant. A floating-point constant is held as the literal text it was
/// read from, which `float_syntax` accepts.
#[derive(Clone, Debug, PartialEq)]
pub enum Constant {
    I8(i8),
    I16(i16),
    I32(i32),
    I64(i64),
    U8(u8),
    U16(u16),
    U32(u32),
    U64(u64),
    F32(String),
    F64(String),
    Bool(bool),
    String(String),
}

/// The type of a constant.
pub open spec fn constant_ty(c: Constant) -> TypeKind {
    match c {
        Constant::I8(_) => TypeKind::I8,
        Constant::I16(_) => TypeKind::I16,
        Constant::I32(_) => TypeKind::I32,
        Constant::I64(_) => TypeKind::I64,
        Constant::U8(_) => TypeKind::U8,
        Constant::U16(_) => TypeKind::U16,
        Constant::U32(_) => TypeKind::U32,
        Constant::U64(_) => TypeKind::U64,
        Constant::F32(_) => TypeKind::F32,
        Constant::F64(_) => TypeKind::F64,
        Constant::Bool(_) => TypeKind::Bool,
        Constant::String(_) => TypeKind::String,
    }
}

impl Constant {
    /// The type of this constant.
    pub fn ty(&self) -> (r: TypeKind)
        ensures
            r == constant_ty(*self),
    {
        match self {
            Constant::I8(_) => TypeKind::I8,
            Constant::I16(_) => TypeKind::I16,
            Constant::I32(_) => TypeKind::I32,
            Constant::I64(_) => TypeKind::I64,
            Constant::U8(_) => TypeKind::U8,
            Constant::U16(_) => TypeKind::U16,
            Constant::U32(_) => TypeKind::U32,
            Constant::U64(_) => TypeKind::U64,
            Constant::F32(_) => TypeKind::F32,
            Constant::F64(_) => TypeKind::F64,
            Constant::Bool(_) => TypeKind::Bool,
            Constant::String(_) => TypeKind::String,
        }
    }
}

/// The lowered program: one function per body of code.
#[derive(Debug)]
pub struct Vir {
    pub functions: Vec<VirFunction>,
}

/// A function in SSA form: blocks of instructions, where values flow between
/// blocks through block parameters.
#[derive(Debug)]
pub struct VirFunction {
    pub block_params: Vec<BlockParamData>,
    pub blocks: Vec<Block>,
    pub entry: BlockId,
    pub insts: Vec<Inst>,
    pub name: String,
    pub sig: FunctionSig,
}

#[derive(Debug)]
pub struct Block {
    pub insts: Vec<InstId>,
    pub params: Vec<ParamId>,
}

#[derive(Debug)]
pub enum Inst {
    Value(ValueInst),
    Effect(EffectInst),
}

#[derive(Debug)]
pub struct FunctionSig {
    pub param_tys: Vec<TypeKind>,
    pub ret_ty: Option<TypeKind>,
}

#[derive(Clone, Debug, PartialEq)]
pub struct ValueInst {
    pub kind: ValueInstKind,
    pub ty: TypeKind,
}

#[derive(Clone, Debug, PartialEq)]
pub enum ValueInstKind {
    Const { value: Constant },
    Add { lhs: ValueId, rhs: ValueId },
    Sub { lhs: ValueId, rhs: ValueId },
    Mul { lhs: ValueId, rhs: ValueId },
    Div { lhs: ValueId, rhs: ValueId },
    Neg { value: ValueId },
}

#[derive(Debug)]
pub enum EffectInst {
    Print { value: ValueId },
    Return { value: Option<ValueId> },
    Jump { target: BlockId, args: Vec<ValueId> },
    Branch {
        cond: ValueId,
        then_block: BlockId,
        then_args: Vec<ValueId>,
        else_block: BlockId,
        else_args: Vec<ValueId>,
    },
}

#[derive(Clone, Copy, Debug, PartialEq, Eq, Structural)]
pub struct BlockParamData {
    pub block: BlockId,
    pub ty: TypeKind,
}

#[derive(Clone, Copy, Debug, PartialEq, Eq, Hash, Structural)]
pub struct ParamId(pub u32);

#[derive(Clone, Copy, Debug, PartialEq, Eq, Hash, Structural)]
pub enum ValueId {
    Inst(InstId),
    Param(ParamId),
}

#[derive(Clone, Copy, Debug, PartialEq, Eq, Hash, Structural)]
pub struct InstId(pub u32);

#[derive(Clone, Copy, Debug, PartialEq, Eq, Hash, Structural)]
pub struct BlockId(pub u32);

/// An effect instruction, with its argument lists as sequences.
pub enum EffectV {
    Print { value: ValueId },
    Return { value: Option<ValueId> },
    Jump { target: BlockId, args: Seq<ValueId> },
    Branch {
        cond: ValueId,
        then_block: BlockId,
        then_args: Seq<ValueId>,
        else_block: BlockId,
        else_args: Seq<ValueId>,
    },
}

/// An instruction, with its argument lists as sequences.
pub enum InstV {
    Value(ValueInst),
    Effect(EffectV),
}

/// A block, with its lists as sequences.
pub struct BlockV {
    pub insts: Seq<InstId>,
    pub params: Seq<ParamId>,
}

/// A function, with its lists as sequences.
pub struct FuncV {
    pub block_params: Seq<BlockParamData>,
    pub blocks: Seq<BlockV>,
    pub entry: BlockId,
    pub insts: Seq<InstV>,
    pub name: Seq<char>,
    pub param_tys: Seq<TypeKind>,
    pub ret_ty: Option<TypeKind>,
}

impl View for EffectInst {
    type V = EffectV;

    open spec fn view(&self) -> EffectV {
        match self {
            EffectInst::Print { value } => EffectV::Print { value: *value },
            EffectInst::Return { value } => EffectV::Return { value: *value },
            EffectInst::Jump { target, args } => EffectV::Jump { target: *target, args: args@ },
            EffectInst::Branch { cond, then_block, then_args, else_block, else_args } => EffectV::Branch {
                cond: *cond,
                then_block: *then_block,
                then_args: then_args@,
                else_block: *else_block,
                else_args: else_args@,
            },
        }
    }
}

impl View for Inst {
    type V = InstV;

    open spec fn view(&self) -> InstV {
        match self {
            Inst::Value(v) => InstV::Value(*v),
            Inst::Effect(e) => InstV::Effect(e@),
        }
    }
}

impl View for Block {
    type V = BlockV;

    open spec fn view(&self) -> BlockV {
        BlockV { insts: self.insts@, params: self.params@ }
    }
}

/// The views of a sequence of blocks.
pub open spec fn blocks_view(bs: Seq<Block>) -> Seq<BlockV> {
    bs.map_values(|b: Block| b@)
}

/// The views of a sequence of instructions.
pub open spec fn insts_view(is: Seq<Inst>) -> Seq<InstV> {
    is.map_values(|i: Inst| i@)
}

impl View for VirFunction {
    type V = FuncV;

    open spec fn view(&self) -> FuncV {
        FuncV {
            block_params: self.block_params@,
            blocks: blocks_view(self.blocks@),
            entry: self.entry,
            insts: insts_view(self.insts@),
            name: self.name@,
            param_tys: self.sig.param_tys@,
            ret_ty: self.sig.ret_ty,
        }
    }
}

/// An empty block.
pub open spec fn empty_block() -> BlockV {
    BlockV { insts: Seq::empty(), params: Seq::empty() }
}

/// The function after a new, empty block is added at the end.
pub open spec fn add_block(f: FuncV) -> FuncV {
    FuncV { blocks: f.blocks.push(empty_block()), ..f }
}

/// The id that the next instruction gets: its index, as `u32`.
pub open spec fn next_inst_id(f: FuncV) -> InstId {
    InstId(f.insts.len() as u32)
}

/// The function after `inst` is added and placed at the end of block `b`.
pub open spec fn add_inst(f: FuncV, b: BlockId, inst: InstV) -> FuncV {
    let id = next_inst_id(f);
    let blk = f.blocks[b.0 as int];
    FuncV {
        insts: f.insts.push(inst),
        blocks: f.blocks.update(b.0 as int, BlockV { insts: blk.insts.push(id), ..blk }),
        ..f
    }
}

/// Whether `inst` ends a block: a return, a branch or a jump.
pub open spec fn terminator(inst: InstV) -> bool {
    match inst {
        InstV::Effect(EffectV::Print { .. }) => false,
        InstV::Effect(_) => true,
        InstV::Value(_) => false,
    }
}

/// The type of the value `v` names in `f`, where it names one.
pub open spec fn value_ty_spec(f: FuncV, v: ValueId) -> Option<TypeKind> {
    match v {
        ValueId::Inst(id) => if id.0 < f.insts.len() {
            match f.insts[id.0 as int] {
                InstV::Value(vi) => Some(vi.ty),
                InstV::Effect(_) => None,
            }
        } else {
            None
        },
        ValueId::Param(p) => if p.0 < f.block_params.len() {
            Some(f.block_params[p.0 as int].ty)
        } else {
            None
        },
    }
}

/// The function after `ensure_final_return`: a return without a value is added
/// to the last block unless it already ends in a terminator.
pub open spec fn with_final_return(f: FuncV) -> FuncV {
    let b = last_block(f);
    let last = f.blocks[b.0 as int];
    if last.insts.len() > 0 && terminator(f.insts[last.insts.last().0 as int]) {
        f
    } else {
        add_inst(f, b, InstV::Effect(EffectV::Return { value: None }))
    }
}

/// The block that `ensure_final_return` takes as the last one: its id is the
/// number of blocks, as `u32`, less one.
pub open spec fn last_block(f: FuncV) -> BlockId {
    BlockId(((f.blocks.len() as u32) - 1) as u32)
}

/// The last instruction id of the last block, if it lists any, is an index of an
/// instruction.
pub open spec fn last_inst_valid(f: FuncV) -> bool {
    let last = f.blocks[last_block(f).0 as int];
    last.insts.len() > 0 ==> last.insts.last().0 < f.insts.len()
}

/// Every instruction id that a block lists is an index of an instruction.
pub open spec fn placed_valid(f: FuncV) -> bool {
    forall|b: int, k: int|
        0 <= b < f.blocks.len() && 0 <= k < f.blocks[b].insts.len() ==> (#[trigger] f.blocks[b].insts[k]).0
            < f.insts.len()
}

/// A `usize` taken as `u32` is no larger.
pub proof fn lemma_u32_trunc(x: usize)
    ensures
        (x as u32) as int <= x as int,
{
    assert((x as u32) as usize <= x) by (bit_vector);
}

/// The function after a parameter of type `ty` is added to block `b`.
pub open spec fn add_param(f: FuncV, b: BlockId, ty: TypeKind) -> FuncV {
    let pid = ParamId(f.block_params.len() as u32);
    let blk = f.blocks[b.0 as int];
    FuncV {
        block_params: f.block_params.push(BlockParamData { block: b, ty }),
        blocks: f.blocks.update(b.0 as int, BlockV { params: blk.params.push(pid), ..blk }),
        ..f
    }
}

/// A new function named `name`: one empty entry block, no instructions, no
/// parameters and no return type.
pub open spec fn new_function(name: Seq<char>) -> FuncV {
    FuncV {
        block_params: Seq::empty(),
        blocks: seq![empty_block()],
        entry: BlockId(0),
        insts: Seq::empty(),
        name,
        param_tys: Seq::empty(),
        ret_ty: None,
    }
}

impl VirFunction {
    /// A function named `name` with one empty entry block.
    pub fn new(name: String) -> (f: VirFunction)
        ensures
            f@ == new_function(name@),
    {
        let mut blocks: Vec<Block> = Vec::new();
        blocks.push(Block { insts: Vec::new(), params: Vec::new() });
        let f = VirFunction {
            name,
            sig: FunctionSig { param_tys: Vec::new(), ret_ty: None },
            entry: BlockId(0),
            blocks,
            insts: Vec::new(),
            block_params: Vec::new(),
        };
        assert(f@.blocks =~= seq![empty_block()]);
        assert(f@.insts =~= Seq::<InstV>::empty());
        f
    }

    /// Adds an empty block at the end; its id is its index, as `u32`.
    pub fn new_block(&mut self) -> (id: BlockId)
        ensures
            id == BlockId(old(self).blocks.len() as u32),
            final(self)@ == add_block(old(self)@),
            placed_valid(old(self)@) ==> placed_valid(final(self)@),
            id.0 < final(self).blocks.len(),
            final(self).blocks.len() == old(self).blocks.len() + 1,
    {
        proof {
            lemma_u32_trunc(self.blocks.len());
        }
        let id = BlockId(#[verifier::truncate] (self.blocks.len() as u32));
        self.blocks.push(Block { insts: Vec::new(), params: Vec::new() });
        proof {
            assert(final(self)@.blocks =~= old(self)@.blocks.push(empty_block()));
            if placed_valid(old(self)@) {
                let nf = final(self)@;
                assert forall|b2: int, k: int|
                    0 <= b2 < nf.blocks.len() && 0 <= k < nf.blocks[b2].insts.len() implies (
                    #[trigger] nf.blocks[b2].insts[k]).0 < nf.insts.len() by {
                    assert(nf.blocks[b2].insts[k] == old(self)@.blocks[b2].insts[k]);
                }
            }
        }
        id
    }

    /// Adds `inst` and places it at the end of `block`; its id is its index, as `u32`.
    pub fn append_inst(&mut self, block: BlockId, inst: Inst) -> (id: InstId)
        requires
            block.0 < old(self).blocks.len(),
        ensures
            id == next_inst_id(old(self)@),
            final(self)@ == add_inst(old(self)@, block, inst@),
            placed_valid(old(self)@) ==> placed_valid(final(self)@),
            final(self).blocks.len() == old(self).blocks.len(),
    {
        proof {
            lemma_u32_trunc(self.insts.len());
        }
        let id = InstId(#[verifier::truncate] (self.insts.len() as u32));
        let ghost old_f = self@;
        let ghost iv = inst@;
        self.insts.push(inst);
        let b = block.0 as usize;
        let mut blk = Block { insts: Vec::new(), params: Vec::new() };
        std::mem::swap(&mut blk, &mut self.blocks[b]);
        blk.insts.push(id);
        std::mem::swap(&mut blk, &mut self.blocks[b]);
        proof {
            assert(self@.insts =~= old_f.insts.push(iv));
            assert(self@.blocks =~= add_inst(old_f, block, iv).blocks);
            if placed_valid(old_f) {
                let nf = self@;
                assert forall|b2: int, k: int|
                    0 <= b2 < nf.blocks.len() && 0 <= k < nf.blocks[b2].insts.len() implies (
                    #[trigger] nf.blocks[b2].insts[k]).0 < nf.insts.len() by {
                    if b2 != block.0 as int || k < old_f.blocks[b2].insts.len() {
                        assert(nf.blocks[b2].insts[k] == old_f.blocks[b2].insts[k]);
                    }
                }
            }
        }
        id
    }

    /// Adds `lhs + rhs` of type `ty` at the end of `block`.
    pub fn emit_add(&mut self, block: BlockId, lhs: ValueId, rhs: ValueId, ty: TypeKind) -> (v:
        ValueId)
        requires
            block.0 < old(self).blocks.len(),
        ensures
            v == ValueId::Inst(next_inst_id(old(self)@)),
            final(self)@ == add_inst(
                old(self)@,
                block,
                InstV::Value(ValueInst { kind: ValueInstKind::Add { lhs, rhs }, ty }),
            ),
            placed_valid(old(self)@) ==> placed_valid(final(self)@),
            final(self).blocks.len() == old(self).blocks.len(),
    {
        let inst = Inst::Value(ValueInst { kind: ValueInstKind::Add { lhs, rhs }, ty });
        let id = self.append_inst(block, inst);
        ValueId::Inst(id)
    }

    /// Adds `lhs - rhs` of type `ty` at the end of `block`.
    pub fn emit_sub(&mut self, block: BlockId, lhs: ValueId, rhs: ValueId, ty: TypeKind) -> (v:
        ValueId)
        requires
            block.0 < old(self).blocks.len(),
        ensures
            v == ValueId::Inst(next_inst_id(old(self)@)),
            final(self)@ == add_inst(
                old(self)@,
                block,
                InstV::Value(ValueInst { kind: ValueInstKind::Sub { lhs, rhs }, ty }),
            ),
            placed_valid(old(self)@) ==> placed_valid(final(self)@),
            final(self).blocks.len() == old(self).blocks.len(),
    {
        let inst = Inst::Value(ValueInst { kind: ValueInstKind::Sub { lhs, rhs }, ty });
        let id = self.append_inst(block, inst);
        ValueId::Inst(id)
    }

    /// Adds `-value` of type `ty` at the end of `block`.
    pub fn emit_neg(&mut self, block: BlockId, value: ValueId, ty: TypeKind) -> (v: ValueId)
        requires
            block.0 < old(self).blocks.len(),
        ensures
            v == ValueId::Inst(next_inst_id(old(self)@)),
            final(self)@ == add_inst(
                old(self)@,
                block,
                InstV::Value(ValueInst { kind: ValueInstKind::Neg { value }, ty }),
            ),
            placed_valid(old(self)@) ==> placed_valid(final(self)@),
            final(self).blocks.len() == old(self).blocks.len(),
    {
        let id = self.append_inst(
            block,
            Inst::Value(ValueInst { kind: ValueInstKind::Neg { value }, ty }),
        );
        ValueId::Inst(id)
    }

    /// Adds the constant `value`, typed by its own type, at the end of `block`.
    pub fn emit_const(&mut self, block: BlockId, value: Constant) -> (v: ValueId)
        requires
            block.0 < old(self).blocks.len(),
        ensures
            v == ValueId::Inst(next_inst_id(old(self)@)),
            final(self)@ == add_inst(
                old(self)@,
                block,
                InstV::Value(
                    ValueInst { kind: ValueInstKind::Const { value }, ty: constant_ty(value) },
                ),
            ),
            placed_valid(old(self)@) ==> placed_valid(final(self)@),
            final(self).blocks.len() == old(self).blocks.len(),
    {
        let ty = value.ty();
        let inst = Inst::Value(ValueInst { kind: ValueInstKind::Const { value }, ty });
        let id = self.append_inst(block, inst);
        ValueId::Inst(id)
    }

    /// Adds a print of `value` at the end of `block`.
    pub fn emit_print(&mut self, block: BlockId, value: ValueId) -> (id: InstId)
        requires
            block.0 < old(self).blocks.len(),
        ensures
            id == next_inst_id(old(self)@),
            final(self)@ == add_inst(old(self)@, block, InstV::Effect(EffectV::Print { value })),
            placed_valid(old(self)@) ==> placed_valid(final(self)@),
            final(self).blocks.len() == old(self).blocks.len(),
    {
        self.append_inst(block, Inst::Effect(EffectInst::Print { value }))
    }

    /// Adds a return of `value` at the end of `block`.
    pub(crate) fn emit_return(&mut self, block: BlockId, value: Option<ValueId>) -> (id: InstId)
        requires
            block.0 < old(self).blocks.len(),
        ensures
            id == next_inst_id(old(self)@),
            final(self)@ == add_inst(old(self)@, block, InstV::Effect(EffectV::Return { value })),
            placed_valid(old(self)@) ==> placed_valid(final(self)@),
            final(self).blocks.len() == old(self).blocks.len(),
    {
        self.append_inst(block, Inst::Effect(EffectInst::Return { value }))
    }

    /// Makes the last block end in a terminator: adds a return without a value
    /// unless its last instruction is a return, a branch or a jump.
    pub fn ensure_final_return(&mut self)
        requires
            old(self).blocks.len() as u32 >= 1,
            last_inst_valid(old(self)@),
        ensures
            final(self)@ == with_final_return(old(self)@),
            placed_valid(old(self)@) ==> placed_valid(final(self)@),
    {
        proof {
            lemma_u32_trunc(self.blocks.len());
        }
        let last_block_id = BlockId(#[verifier::truncate] (self.blocks.len() as u32) - 1);
        let last = last_block_id.0 as usize;
        let n = self.blocks[last].insts.len();
        let last_is_terminator = if n > 0 {
            let inst_id = self.blocks[last].insts[n - 1];
            assert(self@.blocks[last as int].insts[n - 1] == inst_id);
            is_terminator(&self.insts[inst_id.0 as usize])
        } else {
            false
        };
        if !last_is_terminator {
            self.emit_return(last_block_id, None);
        }
    }

    /// Adds a parameter of type `ty` to `block`; its id is its index, as `u32`.
    pub(crate) fn add_block_param(&mut self, block: BlockId, ty: TypeKind) -> (id: ParamId)
        requires
            block.0 < old(self).blocks.len(),
        ensures
            id == ParamId(old(self).block_params.len() as u32),
            final(self)@ == add_param(old(self)@, block, ty),
            placed_valid(old(self)@) ==> placed_valid(final(self)@),
            final(self).blocks.len() == old(self).blocks.len(),
    {
        let id = ParamId(#[verifier::truncate] (self.block_params.len() as u32));
        let ghost old_f = self@;
        self.block_params.push(BlockParamData { block, ty });
        let b = block.0 as usize;
        let mut blk = Block { insts: Vec::new(), params: Vec::new() };
        std::mem::swap(&mut blk, &mut self.blocks[b]);
        blk.params.push(id);
        std::mem::swap(&mut blk, &mut self.blocks[b]);
        proof {
            assert(self@.block_params =~= add_param(old_f, block, ty).block_params);
            assert(self@.blocks =~= add_param(old_f, block, ty).blocks);
            if placed_valid(old_f) {
                let nf = self@;
                assert forall|b2: int, k: int|
                    0 <= b2 < nf.blocks.len() && 0 <= k < nf.blocks[b2].insts.len() implies (
                    #[trigger] nf.blocks[b2].insts[k]).0 < nf.insts.len() by {
                    assert(nf.blocks[b2].insts[k] == old_f.blocks[b2].insts[k]);
                }
            }
        }
        id
    }

    /// The type of the value `value` names, if it names one.
    pub(crate) fn checked_value_ty(&self, value: ValueId) -> (r: Option<TypeKind>)
        ensures
            r == value_ty_spec(self@, value),
    {
        match value {
            ValueId::Inst(inst_id) => {
                if (inst_id.0 as usize) < self.insts.len() {
                    match &self.insts[inst_id.0 as usize] {
                        Inst::Value(v) => Some(v.ty),
                        Inst::Effect(_) => None,
                    }
                } else {
                    None
                }
            },
            ValueId::Param(param_id) => {
                if (param_id.0 as usize) < self.block_params.len() {
                    Some(self.block_params[param_id.0 as usize].ty)
                } else {
                    None
                }
            },
        }
    }

    /// The type of the value `value` names, which must name a value.
    pub fn value_ty(&self, value: ValueId) -> (r: &TypeKind)
        requires
            value_ty_spec(self@, value) is Some,
        ensures
            value_ty_spec(self@, value) == Some(*r),
    {
        match value {
            ValueId::Inst(inst_id) => match &self.insts[inst_id.0 as usize] {
                Inst::Value(ValueInst { ty, .. }) => ty,
                Inst::Effect(_) => {
                    proof {
                        assert(false);
                    }
                    &TypeKind::Unit
                },
            },
            ValueId::Param(param_id) => &self.block_params[param_id.0 as usize].ty,
        }
    }
}

/// Whether `inst` ends a block: a return, a branch or a jump.
pub fn is_terminator(inst: &Inst) -> (r: bool)
    ensures
        r == terminator(inst@),
{
    matches!(
        inst,
        Inst::Effect(EffectInst::Return { .. }) | Inst::Effect(EffectInst::Branch { .. })
            | Inst::Effect(EffectInst::Jump { .. })
    )
}

/// Whether `ty` is a numeric type.
pub fn is_numeric_ty(ty: &TypeKind) -> (r: bool)
    ensures
        r == crate::grammar::numeric_type(*ty),
{
    matches!(
        ty,
        TypeKind::I8 | TypeKind::I16 | TypeKind::I32 | TypeKind::I64 | TypeKind::U8
            | TypeKind::U16 | TypeKind::U32 | TypeKind::U64 | TypeKind::F32 | TypeKind::F64
    )
}

} // verus!
