//! The instructions of the format, and the tables from opcode to instruction.
use crate::bytes::views;
use vstd::prelude::*;

verus! {

/// One instruction. A structured instruction owns the instructions nested in it.
#[derive(PartialEq, Debug)]
pub enum Instruction {
    /// A byte kept as it is; the decoder never gives one.
    Raw(u8),
    Unreachable,
    Nop,
    /// A block: its block type and its body.
    Block(u8, Vec<Instruction>),
    /// A loop: its block type and its body.
    Loop(u8, Vec<Instruction>),
    /// A conditional: its block type, the first branch and, behind an `else`, the second.
    If(u8, Vec<Instruction>, Option<Vec<Instruction>>),
    Br(u32),
    BrIf(u32),
    /// A branch table: the labels and the default label.
    BrTable(Vec<u32>, u32),
    Return,
    Call(u32),
    /// An indirect call: the type index (the table index that follows it is not kept).
    CallIndirect(u32),
    Drop,
    Select,
    LocalGet(u32),
    LocalSet(u32),
    LocalTee(u32),
    GlobalGet(u32),
    GlobalSet(u32),
    I32Load(u32, u32),
    I64Load(u32, u32),
    F32Load(u32, u32),
    F64Load(u32, u32),
    I32Load8S(u32, u32),
    I32Load8U(u32, u32),
    I32Load16S(u32, u32),
    I32Load16U(u32, u32),
    I64Load8S(u32, u32),
    I64Load8U(u32, u32),
    I64Load16S(u32, u32),
    I64Load16U(u32, u32),
    I64Load32S(u32, u32),
    I64Load32U(u32, u32),
    I32Store(u32, u32),
    I64Store(u32, u32),
    F32Store(u32, u32),
    F64Store(u32, u32),
    I32Store8(u32, u32),
    I32Store16(u32, u32),
    I64Store8(u32, u32),
    I64Store16(u32, u32),
    I64Store32(u32, u32),
    /// `memory.size` (the reserved index that follows the opcode is not kept).
    MemorySize,
    /// `memory.grow` (the reserved index that follows the opcode is not kept).
    MemoryGrow,
    I32Const(i32),
    I64Const(i64),
    /// A 32-bit float constant, held as its bit pattern.
    F32Const(u32),
    /// A 64-bit float constant, held as its bit pattern.
    F64Const(u64),
    I32Eqz,
    I32Eq,
    I32Ne,
    I32LtS,
    I32LtU,
    I32GtS,
    I32GtU,
    I32LeS,
    I32LeU,
    I32GeS,
    I32GeU,
    I64Eqz,
    I64Eq,
    I64Ne,
    I64LtS,
    I64LtU,
    I64GtS,
    I64GtU,
    I64LeS,
    I64LeU,
    I64GeS,
    I64GeU,
    F32Eq,
    F32Ne,
    F32Lt,
    F32Gt,
    F32Le,
    F32Ge,
    F64Eq,
    F64Ne,
    F64Lt,
    F64Gt,
    F64Le,
    F64Ge,
    I32Clz,
    I32Ctz,
    I32Popcnt,
    I32Add,
    I32Sub,
    I32Mul,
    I32DivS,
    I32DivU,
    I32RemS,
    I32RemU,
    I32And,
    I32Or,
    I32Xor,
    I32Shl,
    I32ShrS,
    I32ShrU,
    I32Rotl,
    I32Rotr,
    I64Clz,
    I64Ctz,
    I64Popcnt,
    I64Add,
    I64Sub,
    I64Mul,
    I64DivS,
    I64DivU,
    I64RemS,
    I64RemU,
    I64And,
    I64Or,
    I64Xor,
    I64Shl,
    I64ShrS,
    I64ShrU,
    I64Rotl,
    I64Rotr,
    F32Abs,
    F32Neg,
    F32Ceil,
    F32Floor,
    F32Trunc,
    F32Nearest,
    F32Sqrt,
    F32Add,
    F32Sub,
    F32Mul,
    F32Div,
    F32Min,
    F32Max,
    F32Copysign,
    F64Abs,
    F64Neg,
    F64Ceil,
    F64Floor,
    F64Trunc,
    F64Nearest,
    F64Sqrt,
    F64Add,
    F64Sub,
    F64Mul,
    F64Div,
    F64Min,
    F64Max,
    F64Copysign,
    /// `i32.wrap_i64`.
    I32wrapF64,
    I32TruncSF32,
    I32TruncUF32,
    I32TruncSF64,
    I32TruncUF64,
    I64ExtendSI32,
    I64ExtendUI32,
    I64TruncSF32,
    I64TruncUF32,
    I64TruncSF64,
    I64TruncUF64,
    F32ConvertSI32,
    F32ConvertUI32,
    F32ConvertSI64,
    F32ConvertUI64,
    F32DemoteF64,
    F64ConvertSI32,
    F64ConvertUI32,
    F64ConvertSI64,
    F64ConvertUI64,
    F64PromoteF32,
    I32ReinterpretF32,
    I64ReinterpretF64,
    F32ReinterpretI32,
    F64ReinterpretI64,
}

/// What an instruction is in contracts: nested instructions are sequences, and an
/// instruction that nests nothing stands for itself.
pub enum InstructionModel {
    /// An instruction other than the four below.
    Plain(Instruction),
    /// A block: its block type and its body.
    Block(u8, Seq<InstructionModel>),
    /// A loop: its block type and its body.
    Loop(u8, Seq<InstructionModel>),
    /// A conditional: its block type and its one or two branches.
    If(u8, Seq<InstructionModel>, Option<Seq<InstructionModel>>),
    /// A branch table: the labels and the default label.
    BrTable(Seq<u32>, u32),
}

/// The model of an instruction.
pub open spec fn instruction_model(i: Instruction) -> InstructionModel
    decreases i,
{
    match i {
        Instruction::Block(t, body) => InstructionModel::Block(
            t,
            Seq::new(
                body@.len(),
                |k: int|
                    if 0 <= k < body@.len() {
                        instruction_model(body@[k])
                    } else {
                        InstructionModel::Plain(Instruction::Nop)
                    },
            ),
        ),
        Instruction::Loop(t, body) => InstructionModel::Loop(
            t,
            Seq::new(
                body@.len(),
                |k: int|
                    if 0 <= k < body@.len() {
                        instruction_model(body@[k])
                    } else {
                        InstructionModel::Plain(Instruction::Nop)
                    },
            ),
        ),
        Instruction::If(t, first, second) => InstructionModel::If(
            t,
            Seq::new(
                first@.len(),
                |k: int|
                    if 0 <= k < first@.len() {
                        instruction_model(first@[k])
                    } else {
                        InstructionModel::Plain(Instruction::Nop)
                    },
            ),
            match second {
                Some(branch) => Some(
                    Seq::new(
                        branch@.len(),
                        |k: int|
                            if 0 <= k < branch@.len() {
                                instruction_model(branch@[k])
                            } else {
                                InstructionModel::Plain(Instruction::Nop)
                            },
                    ),
                ),
                None => None,
            },
        ),
        Instruction::BrTable(labels, default) => InstructionModel::BrTable(labels@, default),
        other => InstructionModel::Plain(other),
    }
}

impl View for Instruction {
    type V = InstructionModel;

    open spec fn view(&self) -> InstructionModel {
        instruction_model(*self)
    }
}

/// The model of a structured instruction holds the models of the nested ones.
pub proof fn lemma_model_nested(i: Instruction)
    ensures
        i matches Instruction::Block(t, body) ==> i@ == InstructionModel::Block(t, views(body@)),
        i matches Instruction::Loop(t, body) ==> i@ == InstructionModel::Loop(t, views(body@)),
        i matches Instruction::If(t, first, None) ==> i@ == InstructionModel::If(
            t,
            views(first@),
            None,
        ),
        i matches Instruction::If(t, first, Some(second)) ==> i@ == InstructionModel::If(
            t,
            views(first@),
            Some(views(second@)),
        ),
{
    match i {
        Instruction::Block(t, body) => {
            assert(i@->Block_1 =~= views(body@));
        },
        Instruction::Loop(t, body) => {
            assert(i@->Loop_1 =~= views(body@));
        },
        Instruction::If(t, first, None) => {
            assert(i@->If_1 =~= views(first@));
        },
        Instruction::If(t, first, Some(second)) => {
            assert(i@->If_1 =~= views(first@));
            assert(i@->If_2->0 =~= views(second@));
        },
        _ => {},
    }
}

/// The instruction without operands that the opcode `op` stands for.
pub open spec fn spec_nullary(op: u8) -> Option<Instruction> {
    match op {
        0x00 => Some(Instruction::Unreachable),
        0x01 => Some(Instruction::Nop),
        0x0F => Some(Instruction::Return),
        0x1A => Some(Instruction::Drop),
        0x1B => Some(Instruction::Select),
        0x45 => Some(Instruction::I32Eqz),
        0x46 => Some(Instruction::I32Eq),
        0x47 => Some(Instruction::I32Ne),
        0x48 => Some(Instruction::I32LtS),
        0x49 => Some(Instruction::I32LtU),
        0x4A => Some(Instruction::I32GtS),
        0x4B => Some(Instruction::I32GtU),
        0x4C => Some(Instruction::I32LeS),
        0x4D => Some(Instruction::I32LeU),
        0x4E => Some(Instruction::I32GeS),
        0x4F => Some(Instruction::I32GeU),
        0x50 => Some(Instruction::I64Eqz),
        0x51 => Some(Instruction::I64Eq),
        0x52 => Some(Instruction::I64Ne),
        0x53 => Some(Instruction::I64LtS),
        0x54 => Some(Instruction::I64LtU),
        0x55 => Some(Instruction::I64GtS),
        0x56 => Some(Instruction::I64GtU),
        0x57 => Some(Instruction::I64LeS),
        0x58 => Some(Instruction::I64LeU),
        0x59 => Some(Instruction::I64GeS),
        0x5A => Some(Instruction::I64GeU),
        0x5B => Some(Instruction::F32Eq),
        0x5C => Some(Instruction::F32Ne),
        0x5D => Some(Instruction::F32Lt),
        0x5E => Some(Instruction::F32Gt),
        0x5F => Some(Instruction::F32Le),
        0x60 => Some(Instruction::F32Ge),
        0x61 => Some(Instruction::F64Eq),
        0x62 => Some(Instruction::F64Ne),
        0x63 => Some(Instruction::F64Lt),
        0x64 => Some(Instruction::F64Gt),
        0x65 => Some(Instruction::F64Le),
        0x66 => Some(Instruction::F64Ge),
        0x67 => Some(Instruction::I32Clz),
        0x68 => Some(Instruction::I32Ctz),
        0x69 => Some(Instruction::I32Popcnt),
        0x6A => Some(Instruction::I32Add),
        0x6B => Some(Instruction::I32Sub),
        0x6C => Some(Instruction::I32Mul),
        0x6D => Some(Instruction::I32DivS),
        0x6E => Some(Instruction::I32DivU),
        0x6F => Some(Instruction::I32RemS),
        0x70 => Some(Instruction::I32RemU),
        0x71 => Some(Instruction::I32And),
        0x72 => Some(Instruction::I32Or),
        0x73 => Some(Instruction::I32Xor),
        0x74 => Some(Instruction::I32Shl),
        0x75 => Some(Instruction::I32ShrS),
        0x76 => Some(Instruction::I32ShrU),
        0x77 => Some(Instruction::I32Rotl),
        0x78 => Some(Instruction::I32Rotr),
        0x79 => Some(Instruction::I64Clz),
        0x7A => Some(Instruction::I64Ctz),
        0x7B => Some(Instruction::I64Popcnt),
        0x7C => Some(Instruction::I64Add),
        0x7D => Some(Instruction::I64Sub),
        0x7E => Some(Instruction::I64Mul),
        0x7F => Some(Instruction::I64DivS),
        0x80 => Some(Instruction::I64DivU),
        0x81 => Some(Instruction::I64RemS),
        0x82 => Some(Instruction::I64RemU),
        0x83 => Some(Instruction::I64And),
        0x84 => Some(Instruction::I64Or),
        0x85 => Some(Instruction::I64Xor),
        0x86 => Some(Instruction::I64Shl),
        0x87 => Some(Instruction::I64ShrS),
        0x88 => Some(Instruction::I64ShrU),
        0x89 => Some(Instruction::I64Rotl),
        0x8A => Some(Instruction::I64Rotr),
        0x8B => Some(Instruction::F32Abs),
        0x8C => Some(Instruction::F32Neg),
        0x8D => Some(Instruction::F32Ceil),
        0x8E => Some(Instruction::F32Floor),
        0x8F => Some(Instruction::F32Trunc),
        0x90 => Some(Instruction::F32Nearest),
        0x91 => Some(Instruction::F32Sqrt),
        0x92 => Some(Instruction::F32Add),
        0x93 => Some(Instruction::F32Sub),
        0x94 => Some(Instruction::F32Mul),
        0x95 => Some(Instruction::F32Div),
        0x96 => Some(Instruction::F32Min),
        0x97 => Some(Instruction::F32Max),
        0x98 => Some(Instruction::F32Copysign),
        0x99 => Some(Instruction::F64Abs),
        0x9A => Some(Instruction::F64Neg),
        0x9B => Some(Instruction::F64Ceil),
        0x9C => Some(Instruction::F64Floor),
        0x9D => Some(Instruction::F64Trunc),
        0x9E => Some(Instruction::F64Nearest),
        0x9F => Some(Instruction::F64Sqrt),
        0xA0 => Some(Instruction::F64Add),
        0xA1 => Some(Instruction::F64Sub),
        0xA2 => Some(Instruction::F64Mul),
        0xA3 => Some(Instruction::F64Div),
        0xA4 => Some(Instruction::F64Min),
        0xA5 => Some(Instruction::F64Max),
        0xA6 => Some(Instruction::F64Copysign),
        0xA7 => Some(Instruction::I32wrapF64),
        0xA8 => Some(Instruction::I32TruncSF32),
        0xA9 => Some(Instruction::I32TruncUF32),
        0xAA => Some(Instruction::I32TruncSF64),
        0xAB => Some(Instruction::I32TruncUF64),
        0xAC => Some(Instruction::I64ExtendSI32),
        0xAD => Some(Instruction::I64ExtendUI32),
        0xAE => Some(Instruction::I64TruncSF32),
        0xAF => Some(Instruction::I64TruncUF32),
        0xB0 => Some(Instruction::I64TruncSF64),
        0xB1 => Some(Instruction::I64TruncUF64),
        0xB2 => Some(Instruction::F32ConvertSI32),
        0xB3 => Some(Instruction::F32ConvertUI32),
        0xB4 => Some(Instruction::F32ConvertSI64),
        0xB5 => Some(Instruction::F32ConvertUI64),
        0xB6 => Some(Instruction::F32DemoteF64),
        0xB7 => Some(Instruction::F64ConvertSI32),
        0xB8 => Some(Instruction::F64ConvertUI32),
        0xB9 => Some(Instruction::F64ConvertSI64),
        0xBA => Some(Instruction::F64ConvertUI64),
        0xBB => Some(Instruction::F64PromoteF32),
        0xBC => Some(Instruction::I32ReinterpretF32),
        0xBD => Some(Instruction::I64ReinterpretF64),
        0xBE => Some(Instruction::F32ReinterpretI32),
        0xBF => Some(Instruction::F64ReinterpretI64),
        _ => None,
    }
}

/// The instruction with one index `x` that the opcode `op` stands for.
pub open spec fn spec_indexed(op: u8, x: u32) -> Option<Instruction> {
    match op {
        0x0C => Some(Instruction::Br(x)),
        0x0D => Some(Instruction::BrIf(x)),
        0x10 => Some(Instruction::Call(x)),
        0x20 => Some(Instruction::LocalGet(x)),
        0x21 => Some(Instruction::LocalSet(x)),
        0x22 => Some(Instruction::LocalTee(x)),
        0x23 => Some(Instruction::GlobalGet(x)),
        0x24 => Some(Instruction::GlobalSet(x)),
        _ => None,
    }
}

/// The load or store with alignment `align` and offset `offset` that the
/// opcode `op` stands for.
pub open spec fn spec_memory(op: u8, align: u32, offset: u32) -> Option<Instruction> {
    match op {
        0x28 => Some(Instruction::I32Load(align, offset)),
        0x29 => Some(Instruction::I64Load(align, offset)),
        0x2A => Some(Instruction::F32Load(align, offset)),
        0x2B => Some(Instruction::F64Load(align, offset)),
        0x2C => Some(Instruction::I32Load8S(align, offset)),
        0x2D => Some(Instruction::I32Load8U(align, offset)),
        0x2E => Some(Instruction::I32Load16S(align, offset)),
        0x2F => Some(Instruction::I32Load16U(align, offset)),
        0x30 => Some(Instruction::I64Load8S(align, offset)),
        0x31 => Some(Instruction::I64Load8U(align, offset)),
        0x32 => Some(Instruction::I64Load16S(align, offset)),
        0x33 => Some(Instruction::I64Load16U(align, offset)),
        0x34 => Some(Instruction::I64Load32S(align, offset)),
        0x35 => Some(Instruction::I64Load32U(align, offset)),
        0x36 => Some(Instruction::I32Store(align, offset)),
        0x37 => Some(Instruction::I64Store(align, offset)),
        0x38 => Some(Instruction::F32Store(align, offset)),
        0x39 => Some(Instruction::F64Store(align, offset)),
        0x3A => Some(Instruction::I32Store8(align, offset)),
        0x3B => Some(Instruction::I32Store16(align, offset)),
        0x3C => Some(Instruction::I64Store8(align, offset)),
        0x3D => Some(Instruction::I64Store16(align, offset)),
        0x3E => Some(Instruction::I64Store32(align, offset)),
        _ => None,
    }
}

impl InstructionModel {
    /// The opcode that an instruction is decoded from; a raw byte has none.
    pub open spec fn opcode(self) -> Option<u8> {
        match self {
            InstructionModel::Block(_, _) => Some(0x02),
            InstructionModel::Loop(_, _) => Some(0x03),
            InstructionModel::If(_, _, _) => Some(0x04),
            InstructionModel::BrTable(_, _) => Some(0x0E),
            InstructionModel::Plain(i) => match i {
                Instruction::Raw(_) => None,
                Instruction::Unreachable => Some(0x00),
                Instruction::Nop => Some(0x01),
                Instruction::Block(_, _) => Some(0x02),
                Instruction::Loop(_, _) => Some(0x03),
                Instruction::If(_, _, _) => Some(0x04),
                Instruction::Br(_) => Some(0x0C),
                Instruction::BrIf(_) => Some(0x0D),
                Instruction::BrTable(_, _) => Some(0x0E),
                Instruction::Return => Some(0x0F),
                Instruction::Call(_) => Some(0x10),
                Instruction::CallIndirect(_) => Some(0x11),
                Instruction::Drop => Some(0x1A),
                Instruction::Select => Some(0x1B),
                Instruction::LocalGet(_) => Some(0x20),
                Instruction::LocalSet(_) => Some(0x21),
                Instruction::LocalTee(_) => Some(0x22),
                Instruction::GlobalGet(_) => Some(0x23),
                Instruction::GlobalSet(_) => Some(0x24),
                Instruction::I32Load(_, _) => Some(0x28),
                Instruction::I64Load(_, _) => Some(0x29),
                Instruction::F32Load(_, _) => Some(0x2A),
                Instruction::F64Load(_, _) => Some(0x2B),
                Instruction::I32Load8S(_, _) => Some(0x2C),
                Instruction::I32Load8U(_, _) => Some(0x2D),
                Instruction::I32Load16S(_, _) => Some(0x2E),
                Instruction::I32Load16U(_, _) => Some(0x2F),
                Instruction::I64Load8S(_, _) => Some(0x30),
                Instruction::I64Load8U(_, _) => Some(0x31),
                Instruction::I64Load16S(_, _) => Some(0x32),
                Instruction::I64Load16U(_, _) => Some(0x33),
                Instruction::I64Load32S(_, _) => Some(0x34),
                Instruction::I64Load32U(_, _) => Some(0x35),
                Instruction::I32Store(_, _) => Some(0x36),
                Instruction::I64Store(_, _) => Some(0x37),
                Instruction::F32Store(_, _) => Some(0x38),
                Instruction::F64Store(_, _) => Some(0x39),
                Instruction::I32Store8(_, _) => Some(0x3A),
                Instruction::I32Store16(_, _) => Some(0x3B),
                Instruction::I64Store8(_, _) => Some(0x3C),
                Instruction::I64Store16(_, _) => Some(0x3D),
                Instruction::I64Store32(_, _) => Some(0x3E),
                Instruction::MemorySize => Some(0x3F),
                Instruction::MemoryGrow => Some(0x40),
                Instruction::I32Const(_) => Some(0x41),
                Instruction::I64Const(_) => Some(0x42),
                Instruction::F32Const(_) => Some(0x43),
                Instruction::F64Const(_) => Some(0x44),
                Instruction::I32Eqz => Some(0x45),
                Instruction::I32Eq => Some(0x46),
                Instruction::I32Ne => Some(0x47),
                Instruction::I32LtS => Some(0x48),
                Instruction::I32LtU => Some(0x49),
                Instruction::I32GtS => Some(0x4A),
                Instruction::I32GtU => Some(0x4B),
                Instruction::I32LeS => Some(0x4C),
                Instruction::I32LeU => Some(0x4D),
                Instruction::I32GeS => Some(0x4E),
                Instruction::I32GeU => Some(0x4F),
                Instruction::I64Eqz => Some(0x50),
                Instruction::I64Eq => Some(0x51),
                Instruction::I64Ne => Some(0x52),
                Instruction::I64LtS => Some(0x53),
                Instruction::I64LtU => Some(0x54),
                Instruction::I64GtS => Some(0x55),
                Instruction::I64GtU => Some(0x56),
                Instruction::I64LeS => Some(0x57),
                Instruction::I64LeU => Some(0x58),
                Instruction::I64GeS => Some(0x59),
                Instruction::I64GeU => Some(0x5A),
                Instruction::F32Eq => Some(0x5B),
                Instruction::F32Ne => Some(0x5C),
                Instruction::F32Lt => Some(0x5D),
                Instruction::F32Gt => Some(0x5E),
                Instruction::F32Le => Some(0x5F),
                Instruction::F32Ge => Some(0x60),
                Instruction::F64Eq => Some(0x61),
                Instruction::F64Ne => Some(0x62),
                Instruction::F64Lt => Some(0x63),
                Instruction::F64Gt => Some(0x64),
                Instruction::F64Le => Some(0x65),
                Instruction::F64Ge => Some(0x66),
                Instruction::I32Clz => Some(0x67),
                Instruction::I32Ctz => Some(0x68),
                Instruction::I32Popcnt => Some(0x69),
                Instruction::I32Add => Some(0x6A),
                Instruction::I32Sub => Some(0x6B),
                Instruction::I32Mul => Some(0x6C),
                Instruction::I32DivS => Some(0x6D),
                Instruction::I32DivU => Some(0x6E),
                Instruction::I32RemS => Some(0x6F),
                Instruction::I32RemU => Some(0x70),
                Instruction::I32And => Some(0x71),
                Instruction::I32Or => Some(0x72),
                Instruction::I32Xor => Some(0x73),
                Instruction::I32Shl => Some(0x74),
                Instruction::I32ShrS => Some(0x75),
                Instruction::I32ShrU => Some(0x76),
                Instruction::I32Rotl => Some(0x77),
                Instruction::I32Rotr => Some(0x78),
                Instruction::I64Clz => Some(0x79),
                Instruction::I64Ctz => Some(0x7A),
                Instruction::I64Popcnt => Some(0x7B),
                Instruction::I64Add => Some(0x7C),
                Instruction::I64Sub => Some(0x7D),
                Instruction::I64Mul => Some(0x7E),
                Instruction::I64DivS => Some(0x7F),
                Instruction::I64DivU => Some(0x80),
                Instruction::I64RemS => Some(0x81),
                Instruction::I64RemU => Some(0x82),
                Instruction::I64And => Some(0x83),
                Instruction::I64Or => Some(0x84),
                Instruction::I64Xor => Some(0x85),
                Instruction::I64Shl => Some(0x86),
                Instruction::I64ShrS => Some(0x87),
                Instruction::I64ShrU => Some(0x88),
                Instruction::I64Rotl => Some(0x89),
                Instruction::I64Rotr => Some(0x8A),
                Instruction::F32Abs => Some(0x8B),
                Instruction::F32Neg => Some(0x8C),
                Instruction::F32Ceil => Some(0x8D),
                Instruction::F32Floor => Some(0x8E),
                Instruction::F32Trunc => Some(0x8F),
                Instruction::F32Nearest => Some(0x90),
                Instruction::F32Sqrt => Some(0x91),
                Instruction::F32Add => Some(0x92),
                Instruction::F32Sub => Some(0x93),
                Instruction::F32Mul => Some(0x94),
                Instruction::F32Div => Some(0x95),
                Instruction::F32Min => Some(0x96),
                Instruction::F32Max => Some(0x97),
                Instruction::F32Copysign => Some(0x98),
                Instruction::F64Abs => Some(0x99),
                Instruction::F64Neg => Some(0x9A),
                Instruction::F64Ceil => Some(0x9B),
                Instruction::F64Floor => Some(0x9C),
                Instruction::F64Trunc => Some(0x9D),
                Instruction::F64Nearest => Some(0x9E),
                Instruction::F64Sqrt => Some(0x9F),
                Instruction::F64Add => Some(0xA0),
                Instruction::F64Sub => Some(0xA1),
                Instruction::F64Mul => Some(0xA2),
                Instruction::F64Div => Some(0xA3),
                Instruction::F64Min => Some(0xA4),
                Instruction::F64Max => Some(0xA5),
                Instruction::F64Copysign => Some(0xA6),
                Instruction::I32wrapF64 => Some(0xA7),
                Instruction::I32TruncSF32 => Some(0xA8),
                Instruction::I32TruncUF32 => Some(0xA9),
                Instruction::I32TruncSF64 => Some(0xAA),
                Instruction::I32TruncUF64 => Some(0xAB),
                Instruction::I64ExtendSI32 => Some(0xAC),
                Instruction::I64ExtendUI32 => Some(0xAD),
                Instruction::I64TruncSF32 => Some(0xAE),
                Instruction::I64TruncUF32 => Some(0xAF),
                Instruction::I64TruncSF64 => Some(0xB0),
                Instruction::I64TruncUF64 => Some(0xB1),
                Instruction::F32ConvertSI32 => Some(0xB2),
                Instruction::F32ConvertUI32 => Some(0xB3),
                Instruction::F32ConvertSI64 => Some(0xB4),
                Instruction::F32ConvertUI64 => Some(0xB5),
                Instruction::F32DemoteF64 => Some(0xB6),
                Instruction::F64ConvertSI32 => Some(0xB7),
                Instruction::F64ConvertUI32 => Some(0xB8),
                Instruction::F64ConvertSI64 => Some(0xB9),
                Instruction::F64ConvertUI64 => Some(0xBA),
                Instruction::F64PromoteF32 => Some(0xBB),
                Instruction::I32ReinterpretF32 => Some(0xBC),
                Instruction::I64ReinterpretF64 => Some(0xBD),
                Instruction::F32ReinterpretI32 => Some(0xBE),
                Instruction::F64ReinterpretI64 => Some(0xBF),
            },
        }
    }
}

/// Looks up the instruction without operands that `op` stands for.
pub fn nullary(op: u8) -> (r: Option<Instruction>)
    ensures
        r == spec_nullary(op),
{
    match op {
        0x00 => Some(Instruction::Unreachable),
        0x01 => Some(Instruction::Nop),
        0x0F => Some(Instruction::Return),
        0x1A => Some(Instruction::Drop),
        0x1B => Some(Instruction::Select),
        0x45 => Some(Instruction::I32Eqz),
        0x46 => Some(Instruction::I32Eq),
        0x47 => Some(Instruction::I32Ne),
        0x48 => Some(Instruction::I32LtS),
        0x49 => Some(Instruction::I32LtU),
        0x4A => Some(Instruction::I32GtS),
        0x4B => Some(Instruction::I32GtU),
        0x4C => Some(Instruction::I32LeS),
        0x4D => Some(Instruction::I32LeU),
        0x4E => Some(Instruction::I32GeS),
        0x4F => Some(Instruction::I32GeU),
        0x50 => Some(Instruction::I64Eqz),
        0x51 => Some(Instruction::I64Eq),
        0x52 => Some(Instruction::I64Ne),
        0x53 => Some(Instruction::I64LtS),
        0x54 => Some(Instruction::I64LtU),
        0x55 => Some(Instruction::I64GtS),
        0x56 => Some(Instruction::I64GtU),
        0x57 => Some(Instruction::I64LeS),
        0x58 => Some(Instruction::I64LeU),
        0x59 => Some(Instruction::I64GeS),
        0x5A => Some(Instruction::I64GeU),
        0x5B => Some(Instruction::F32Eq),
        0x5C => Some(Instruction::F32Ne),
        0x5D => Some(Instruction::F32Lt),
        0x5E => Some(Instruction::F32Gt),
        0x5F => Some(Instruction::F32Le),
        0x60 => Some(Instruction::F32Ge),
        0x61 => Some(Instruction::F64Eq),
        0x62 => Some(Instruction::F64Ne),
        0x63 => Some(Instruction::F64Lt),
        0x64 => Some(Instruction::F64Gt),
        0x65 => Some(Instruction::F64Le),
        0x66 => Some(Instruction::F64Ge),
        0x67 => Some(Instruction::I32Clz),
        0x68 => Some(Instruction::I32Ctz),
        0x69 => Some(Instruction::I32Popcnt),
        0x6A => Some(Instruction::I32Add),
        0x6B => Some(Instruction::I32Sub),
        0x6C => Some(Instruction::I32Mul),
        0x6D => Some(Instruction::I32DivS),
        0x6E => Some(Instruction::I32DivU),
        0x6F => Some(Instruction::I32RemS),
        0x70 => Some(Instruction::I32RemU),
        0x71 => Some(Instruction::I32And),
        0x72 => Some(Instruction::I32Or),
        0x73 => Some(Instruction::I32Xor),
        0x74 => Some(Instruction::I32Shl),
        0x75 => Some(Instruction::I32ShrS),
        0x76 => Some(Instruction::I32ShrU),
        0x77 => Some(Instruction::I32Rotl),
        0x78 => Some(Instruction::I32Rotr),
        0x79 => Some(Instruction::I64Clz),
        0x7A => Some(Instruction::I64Ctz),
        0x7B => Some(Instruction::I64Popcnt),
        0x7C => Some(Instruction::I64Add),
        0x7D => Some(Instruction::I64Sub),
        0x7E => Some(Instruction::I64Mul),
        0x7F => Some(Instruction::I64DivS),
        0x80 => Some(Instruction::I64DivU),
        0x81 => Some(Instruction::I64RemS),
        0x82 => Some(Instruction::I64RemU),
        0x83 => Some(Instruction::I64And),
        0x84 => Some(Instruction::I64Or),
        0x85 => Some(Instruction::I64Xor),
        0x86 => Some(Instruction::I64Shl),
        0x87 => Some(Instruction::I64ShrS),
        0x88 => Some(Instruction::I64ShrU),
        0x89 => Some(Instruction::I64Rotl),
        0x8A => Some(Instruction::I64Rotr),
        0x8B => Some(Instruction::F32Abs),
        0x8C => Some(Instruction::F32Neg),
        0x8D => Some(Instruction::F32Ceil),
        0x8E => Some(Instruction::F32Floor),
        0x8F => Some(Instruction::F32Trunc),
        0x90 => Some(Instruction::F32Nearest),
        0x91 => Some(Instruction::F32Sqrt),
        0x92 => Some(Instruction::F32Add),
        0x93 => Some(Instruction::F32Sub),
        0x94 => Some(Instruction::F32Mul),
        0x95 => Some(Instruction::F32Div),
        0x96 => Some(Instruction::F32Min),
        0x97 => Some(Instruction::F32Max),
        0x98 => Some(Instruction::F32Copysign),
        0x99 => Some(Instruction::F64Abs),
        0x9A => Some(Instruction::F64Neg),
        0x9B => Some(Instruction::F64Ceil),
        0x9C => Some(Instruction::F64Floor),
        0x9D => Some(Instruction::F64Trunc),
        0x9E => Some(Instruction::F64Nearest),
        0x9F => Some(Instruction::F64Sqrt),
        0xA0 => Some(Instruction::F64Add),
        0xA1 => Some(Instruction::F64Sub),
        0xA2 => Some(Instruction::F64Mul),
        0xA3 => Some(Instruction::F64Div),
        0xA4 => Some(Instruction::F64Min),
        0xA5 => Some(Instruction::F64Max),
        0xA6 => Some(Instruction::F64Copysign),
        0xA7 => Some(Instruction::I32wrapF64),
        0xA8 => Some(Instruction::I32TruncSF32),
        0xA9 => Some(Instruction::I32TruncUF32),
        0xAA => Some(Instruction::I32TruncSF64),
        0xAB => Some(Instruction::I32TruncUF64),
        0xAC => Some(Instruction::I64ExtendSI32),
        0xAD => Some(Instruction::I64ExtendUI32),
        0xAE => Some(Instruction::I64TruncSF32),
        0xAF => Some(Instruction::I64TruncUF32),
        0xB0 => Some(Instruction::I64TruncSF64),
        0xB1 => Some(Instruction::I64TruncUF64),
        0xB2 => Some(Instruction::F32ConvertSI32),
        0xB3 => Some(Instruction::F32ConvertUI32),
        0xB4 => Some(Instruction::F32ConvertSI64),
        0xB5 => Some(Instruction::F32ConvertUI64),
        0xB6 => Some(Instruction::F32DemoteF64),
        0xB7 => Some(Instruction::F64ConvertSI32),
        0xB8 => Some(Instruction::F64ConvertUI32),
        0xB9 => Some(Instruction::F64ConvertSI64),
        0xBA => Some(Instruction::F64ConvertUI64),
        0xBB => Some(Instruction::F64PromoteF32),
        0xBC => Some(Instruction::I32ReinterpretF32),
        0xBD => Some(Instruction::I64ReinterpretF64),
        0xBE => Some(Instruction::F32ReinterpretI32),
        0xBF => Some(Instruction::F64ReinterpretI64),
        _ => None,
    }
}

/// Looks up the instruction with one index that `op` stands for.
pub fn indexed(op: u8, x: u32) -> (r: Option<Instruction>)
    ensures
        r == spec_indexed(op, x),
{
    match op {
        0x0C => Some(Instruction::Br(x)),
        0x0D => Some(Instruction::BrIf(x)),
        0x10 => Some(Instruction::Call(x)),
        0x20 => Some(Instruction::LocalGet(x)),
        0x21 => Some(Instruction::LocalSet(x)),
        0x22 => Some(Instruction::LocalTee(x)),
        0x23 => Some(Instruction::GlobalGet(x)),
        0x24 => Some(Instruction::GlobalSet(x)),
        _ => None,
    }
}

/// Looks up the load or store that `op` stands for.
pub fn memory(op: u8, align: u32, offset: u32) -> (r: Option<Instruction>)
    ensures
        r == spec_memory(op, align, offset),
{
    match op {
        0x28 => Some(Instruction::I32Load(align, offset)),
        0x29 => Some(Instruction::I64Load(align, offset)),
        0x2A => Some(Instruction::F32Load(align, offset)),
        0x2B => Some(Instruction::F64Load(align, offset)),
        0x2C => Some(Instruction::I32Load8S(align, offset)),
        0x2D => Some(Instruction::I32Load8U(align, offset)),
        0x2E => Some(Instruction::I32Load16S(align, offset)),
        0x2F => Some(Instruction::I32Load16U(align, offset)),
        0x30 => Some(Instruction::I64Load8S(align, offset)),
        0x31 => Some(Instruction::I64Load8U(align, offset)),
        0x32 => Some(Instruction::I64Load16S(align, offset)),
        0x33 => Some(Instruction::I64Load16U(align, offset)),
        0x34 => Some(Instruction::I64Load32S(align, offset)),
        0x35 => Some(Instruction::I64Load32U(align, offset)),
        0x36 => Some(Instruction::I32Store(align, offset)),
        0x37 => Some(Instruction::I64Store(align, offset)),
        0x38 => Some(Instruction::F32Store(align, offset)),
        0x39 => Some(Instruction::F64Store(align, offset)),
        0x3A => Some(Instruction::I32Store8(align, offset)),
        0x3B => Some(Instruction::I32Store16(align, offset)),
        0x3C => Some(Instruction::I64Store8(align, offset)),
        0x3D => Some(Instruction::I64Store16(align, offset)),
        0x3E => Some(Instruction::I64Store32(align, offset)),
        _ => None,
    }
}

impl Instruction {
    /// A copy of the instruction and of all that is nested in it.
    pub fn duplicate(&self) -> (r: Instruction)
        ensures
            r@ == self@,
        decreases self, 0nat,
    {
        proof {
            lemma_model_nested(*self);
        }
        let r = match self {
            Instruction::Block(t, body) => Instruction::Block(*t, duplicate_all(body)),
            Instruction::Loop(t, body) => Instruction::Loop(*t, duplicate_all(body)),
            Instruction::If(t, first, None) => Instruction::If(*t, duplicate_all(first), None),
            Instruction::If(t, first, Some(second)) => Instruction::If(
                *t,
                duplicate_all(first),
                Some(duplicate_all(second)),
            ),
            Instruction::BrTable(labels, default) => Instruction::BrTable(
                labels.clone(),
                *default,
            ),
            Instruction::Raw(a) => Instruction::Raw(*a),
            Instruction::Unreachable => Instruction::Unreachable,
            Instruction::Nop => Instruction::Nop,
            Instruction::Br(a) => Instruction::Br(*a),
            Instruction::BrIf(a) => Instruction::BrIf(*a),
            Instruction::Return => Instruction::Return,
            Instruction::Call(a) => Instruction::Call(*a),
            Instruction::CallIndirect(a) => Instruction::CallIndirect(*a),
            Instruction::Drop => Instruction::Drop,
            Instruction::Select => Instruction::Select,
            Instruction::LocalGet(a) => Instruction::LocalGet(*a),
            Instruction::LocalSet(a) => Instruction::LocalSet(*a),
            Instruction::LocalTee(a) => Instruction::LocalTee(*a),
            Instruction::GlobalGet(a) => Instruction::GlobalGet(*a),
            Instruction::GlobalSet(a) => Instruction::GlobalSet(*a),
            Instruction::I32Load(a, b) => Instruction::I32Load(*a, *b),
            Instruction::I64Load(a, b) => Instruction::I64Load(*a, *b),
            Instruction::F32Load(a, b) => Instruction::F32Load(*a, *b),
            Instruction::F64Load(a, b) => Instruction::F64Load(*a, *b),
            Instruction::I32Load8S(a, b) => Instruction::I32Load8S(*a, *b),
            Instruction::I32Load8U(a, b) => Instruction::I32Load8U(*a, *b),
            Instruction::I32Load16S(a, b) => Instruction::I32Load16S(*a, *b),
            Instruction::I32Load16U(a, b) => Instruction::I32Load16U(*a, *b),
            Instruction::I64Load8S(a, b) => Instruction::I64Load8S(*a, *b),
            Instruction::I64Load8U(a, b) => Instruction::I64Load8U(*a, *b),
            Instruction::I64Load16S(a, b) => Instruction::I64Load16S(*a, *b),
            Instruction::I64Load16U(a, b) => Instruction::I64Load16U(*a, *b),
            Instruction::I64Load32S(a, b) => Instruction::I64Load32S(*a, *b),
            Instruction::I64Load32U(a, b) => Instruction::I64Load32U(*a, *b),
            Instruction::I32Store(a, b) => Instruction::I32Store(*a, *b),
            Instruction::I64Store(a, b) => Instruction::I64Store(*a, *b),
            Instruction::F32Store(a, b) => Instruction::F32Store(*a, *b),
            Instruction::F64Store(a, b) => Instruction::F64Store(*a, *b),
            Instruction::I32Store8(a, b) => Instruction::I32Store8(*a, *b),
            Instruction::I32Store16(a, b) => Instruction::I32Store16(*a, *b),
            Instruction::I64Store8(a, b) => Instruction::I64Store8(*a, *b),
            Instruction::I64Store16(a, b) => Instruction::I64Store16(*a, *b),
            Instruction::I64Store32(a, b) => Instruction::I64Store32(*a, *b),
            Instruction::MemorySize => Instruction::MemorySize,
            Instruction::MemoryGrow => Instruction::MemoryGrow,
            Instruction::I32Const(a) => Instruction::I32Const(*a),
            Instruction::I64Const(a) => Instruction::I64Const(*a),
            Instruction::F32Const(a) => Instruction::F32Const(*a),
            Instruction::F64Const(a) => Instruction::F64Const(*a),
            Instruction::I32Eqz => Instruction::I32Eqz,
            Instruction::I32Eq => Instruction::I32Eq,
            Instruction::I32Ne => Instruction::I32Ne,
            Instruction::I32LtS => Instruction::I32LtS,
            Instruction::I32LtU => Instruction::I32LtU,
            Instruction::I32GtS => Instruction::I32GtS,
            Instruction::I32GtU => Instruction::I32GtU,
            Instruction::I32LeS => Instruction::I32LeS,
            Instruction::I32LeU => Instruction::I32LeU,
            Instruction::I32GeS => Instruction::I32GeS,
            Instruction::I32GeU => Instruction::I32GeU,
            Instruction::I64Eqz => Instruction::I64Eqz,
            Instruction::I64Eq => Instruction::I64Eq,
            Instruction::I64Ne => Instruction::I64Ne,
            Instruction::I64LtS => Instruction::I64LtS,
            Instruction::I64LtU => Instruction::I64LtU,
            Instruction::I64GtS => Instruction::I64GtS,
            Instruction::I64GtU => Instruction::I64GtU,
            Instruction::I64LeS => Instruction::I64LeS,
            Instruction::I64LeU => Instruction::I64LeU,
            Instruction::I64GeS => Instruction::I64GeS,
            Instruction::I64GeU => Instruction::I64GeU,
            Instruction::F32Eq => Instruction::F32Eq,
            Instruction::F32Ne => Instruction::F32Ne,
            Instruction::F32Lt => Instruction::F32Lt,
            Instruction::F32Gt => Instruction::F32Gt,
            Instruction::F32Le => Instruction::F32Le,
            Instruction::F32Ge => Instruction::F32Ge,
            Instruction::F64Eq => Instruction::F64Eq,
            Instruction::F64Ne => Instruction::F64Ne,
            Instruction::F64Lt => Instruction::F64Lt,
            Instruction::F64Gt => Instruction::F64Gt,
            Instruction::F64Le => Instruction::F64Le,
            Instruction::F64Ge => Instruction::F64Ge,
            Instruction::I32Clz => Instruction::I32Clz,
            Instruction::I32Ctz => Instruction::I32Ctz,
            Instruction::I32Popcnt => Instruction::I32Popcnt,
            Instruction::I32Add => Instruction::I32Add,
            Instruction::I32Sub => Instruction::I32Sub,
            Instruction::I32Mul => Instruction::I32Mul,
            Instruction::I32DivS => Instruction::I32DivS,
            Instruction::I32DivU => Instruction::I32DivU,
            Instruction::I32RemS => Instruction::I32RemS,
            Instruction::I32RemU => Instruction::I32RemU,
            Instruction::I32And => Instruction::I32And,
            Instruction::I32Or => Instruction::I32Or,
            Instruction::I32Xor => Instruction::I32Xor,
            Instruction::I32Shl => Instruction::I32Shl,
            Instruction::I32ShrS => Instruction::I32ShrS,
            Instruction::I32ShrU => Instruction::I32ShrU,
            Instruction::I32Rotl => Instruction::I32Rotl,
            Instruction::I32Rotr => Instruction::I32Rotr,
            Instruction::I64Clz => Instruction::I64Clz,
            Instruction::I64Ctz => Instruction::I64Ctz,
            Instruction::I64Popcnt => Instruction::I64Popcnt,
            Instruction::I64Add => Instruction::I64Add,
            Instruction::I64Sub => Instruction::I64Sub,
            Instruction::I64Mul => Instruction::I64Mul,
            Instruction::I64DivS => Instruction::I64DivS,
            Instruction::I64DivU => Instruction::I64DivU,
            Instruction::I64RemS => Instruction::I64RemS,
            Instruction::I64RemU => Instruction::I64RemU,
            Instruction::I64And => Instruction::I64And,
            Instruction::I64Or => Instruction::I64Or,
            Instruction::I64Xor => Instruction::I64Xor,
            Instruction::I64Shl => Instruction::I64Shl,
            Instruction::I64ShrS => Instruction::I64ShrS,
            Instruction::I64ShrU => Instruction::I64ShrU,
            Instruction::I64Rotl => Instruction::I64Rotl,
            Instruction::I64Rotr => Instruction::I64Rotr,
            Instruction::F32Abs => Instruction::F32Abs,
            Instruction::F32Neg => Instruction::F32Neg,
            Instruction::F32Ceil => Instruction::F32Ceil,
            Instruction::F32Floor => Instruction::F32Floor,
            Instruction::F32Trunc => Instruction::F32Trunc,
            Instruction::F32Nearest => Instruction::F32Nearest,
            Instruction::F32Sqrt => Instruction::F32Sqrt,
            Instruction::F32Add => Instruction::F32Add,
            Instruction::F32Sub => Instruction::F32Sub,
            Instruction::F32Mul => Instruction::F32Mul,
            Instruction::F32Div => Instruction::F32Div,
            Instruction::F32Min => Instruction::F32Min,
            Instruction::F32Max => Instruction::F32Max,
            Instruction::F32Copysign => Instruction::F32Copysign,
            Instruction::F64Abs => Instruction::F64Abs,
            Instruction::F64Neg => Instruction::F64Neg,
            Instruction::F64Ceil => Instruction::F64Ceil,
            Instruction::F64Floor => Instruction::F64Floor,
            Instruction::F64Trunc => Instruction::F64Trunc,
            Instruction::F64Nearest => Instruction::F64Nearest,
            Instruction::F64Sqrt => Instruction::F64Sqrt,
            Instruction::F64Add => Instruction::F64Add,
            Instruction::F64Sub => Instruction::F64Sub,
            Instruction::F64Mul => Instruction::F64Mul,
            Instruction::F64Div => Instruction::F64Div,
            Instruction::F64Min => Instruction::F64Min,
            Instruction::F64Max => Instruction::F64Max,
            Instruction::F64Copysign => Instruction::F64Copysign,
            Instruction::I32wrapF64 => Instruction::I32wrapF64,
            Instruction::I32TruncSF32 => Instruction::I32TruncSF32,
            Instruction::I32TruncUF32 => Instruction::I32TruncUF32,
            Instruction::I32TruncSF64 => Instruction::I32TruncSF64,
            Instruction::I32TruncUF64 => Instruction::I32TruncUF64,
            Instruction::I64ExtendSI32 => Instruction::I64ExtendSI32,
            Instruction::I64ExtendUI32 => Instruction::I64ExtendUI32,
            Instruction::I64TruncSF32 => Instruction::I64TruncSF32,
            Instruction::I64TruncUF32 => Instruction::I64TruncUF32,
            Instruction::I64TruncSF64 => Instruction::I64TruncSF64,
            Instruction::I64TruncUF64 => Instruction::I64TruncUF64,
            Instruction::F32ConvertSI32 => Instruction::F32ConvertSI32,
            Instruction::F32ConvertUI32 => Instruction::F32ConvertUI32,
            Instruction::F32ConvertSI64 => Instruction::F32ConvertSI64,
            Instruction::F32ConvertUI64 => Instruction::F32ConvertUI64,
            Instruction::F32DemoteF64 => Instruction::F32DemoteF64,
            Instruction::F64ConvertSI32 => Instruction::F64ConvertSI32,
            Instruction::F64ConvertUI32 => Instruction::F64ConvertUI32,
            Instruction::F64ConvertSI64 => Instruction::F64ConvertSI64,
            Instruction::F64ConvertUI64 => Instruction::F64ConvertUI64,
            Instruction::F64PromoteF32 => Instruction::F64PromoteF32,
            Instruction::I32ReinterpretF32 => Instruction::I32ReinterpretF32,
            Instruction::I64ReinterpretF64 => Instruction::I64ReinterpretF64,
            Instruction::F32ReinterpretI32 => Instruction::F32ReinterpretI32,
            Instruction::F64ReinterpretI64 => Instruction::F64ReinterpretI64,
        };
        proof {
            lemma_model_nested(r);
        }
        r
    }
}

impl Clone for Instruction {
    fn clone(&self) -> (r: Instruction)
        ensures
            r@ == self@,
    {
        self.duplicate()
    }
}

/// Copies of the instructions of `v`, in order.
pub fn duplicate_all(v: &Vec<Instruction>) -> (r: Vec<Instruction>)
    ensures
        views(r@) == views(v@),
    decreases v, 1nat,
{
    let mut out: Vec<Instruction> = Vec::new();
    let mut i: usize = 0;
    while i < v.len()
        invariant
            i <= v.len(),
            out@.len() == i,
            forall|k: int| 0 <= k < i ==> out@[k]@ == v@[k]@,
        decreases v.len() - i,
    {
        let item = v[i].duplicate();
        out.push(item);
        i = i + 1;
    }
    assert(views(out@) =~= views(v@));
    out
}

} // verus!
