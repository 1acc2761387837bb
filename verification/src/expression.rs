//! Instructions and expressions: the streams of instructions that an `end`
//! byte closes.
use crate::bytes::{
    advances, agrees, agrees_view, bits32, bits64, byte, lemma_views_push, spec_bits32,
    spec_bits64, spec_byte, spec_many, spec_vec, vector, views, Decode,
};
use crate::error::ParseError;
use crate::instructions::{
    indexed, lemma_model_nested, memory, nullary, spec_indexed, spec_memory, spec_nullary,
    Instruction, InstructionModel,
};
use crate::leb::{
    lemma_integer_advances, spec_i32, spec_i64, spec_u32, wasm_i32, wasm_i64, wasm_u32,
};
use vstd::prelude::*;

verus! {

/// The opcode of `block`.
pub const BLOCK: u8 = 0x02;

/// The opcode of `loop`.
pub const LOOP: u8 = 0x03;

/// The opcode of `if`.
pub const IF: u8 = 0x04;

/// The byte that parts the two branches of an `if`.
pub const ELSE: u8 = 0x05;

/// The byte that closes an expression.
pub const END: u8 = 0x0B;

/// The opcode of `br_table`.
pub const BR_TABLE: u8 = 0x0E;

/// The opcode of `call_indirect`.
pub const CALL_INDIRECT: u8 = 0x11;

/// The opcode of `memory.size`.
pub const MEMORY_SIZE: u8 = 0x3F;

/// The opcode of `memory.grow`.
pub const MEMORY_GROW: u8 = 0x40;

/// The opcode of `i32.const`.
pub const I32_CONST: u8 = 0x41;

/// The opcode of `i64.const`.
pub const I64_CONST: u8 = 0x42;

/// The opcode of `f32.const`.
pub const F32_CONST: u8 = 0x43;

/// The opcode of `f64.const`.
pub const F64_CONST: u8 = 0x44;

/// How many blocks, loops and conditionals may be open at once. A module that
/// nests deeper is refused, so that decoding needs a bounded stack.
pub const MAX_NESTING: usize = 1024;

/// Whether `op` is the opcode of an instruction of the format.
pub open spec fn is_opcode(op: u8) -> bool {
    op <= 0x04 || 0x0C <= op <= 0x11 || op == 0x1A || op == 0x1B || 0x20 <= op <= 0x24 || 0x28
        <= op <= 0xBF
}

/// An instruction at `pos` that nests nothing and is no branch table: the
/// opcode, then operands in the shape that the opcode asks for.
pub open spec fn spec_plain(s: Seq<u8>, pos: int) -> Result<(Instruction, int), ParseError> {
    match spec_byte(s, pos) {
        Err(e) => Err(e),
        Ok((op, at)) => if spec_nullary(op) is Some {
            Ok((spec_nullary(op)->0, at))
        } else if spec_indexed(op, 0) is Some {
            match spec_u32(s, at) {
                Ok((x, next)) => Ok((spec_indexed(op, x)->0, next)),
                Err(e) => Err(e),
            }
        } else if spec_memory(op, 0, 0) is Some {
            match spec_u32(s, at) {
                Ok((align, mid)) => match spec_u32(s, mid) {
                    Ok((offset, next)) => Ok((spec_memory(op, align, offset)->0, next)),
                    Err(e) => Err(e),
                },
                Err(e) => Err(e),
            }
        } else if op == CALL_INDIRECT {
            match spec_u32(s, at) {
                Ok((type_index, mid)) => match spec_u32(s, mid) {
                    Ok((_, next)) => Ok((Instruction::CallIndirect(type_index), next)),
                    Err(e) => Err(e),
                },
                Err(e) => Err(e),
            }
        } else if op == MEMORY_SIZE || op == MEMORY_GROW {
            match spec_u32(s, at) {
                Ok((_, next)) => Ok(
                    (
                        if op == MEMORY_SIZE {
                            Instruction::MemorySize
                        } else {
                            Instruction::MemoryGrow
                        },
                        next,
                    ),
                ),
                Err(e) => Err(e),
            }
        } else if op == I32_CONST {
            match spec_i32(s, at) {
                Ok((v, next)) => Ok((Instruction::I32Const(v), next)),
                Err(e) => Err(e),
            }
        } else if op == I64_CONST {
            match spec_i64(s, at) {
                Ok((v, next)) => Ok((Instruction::I64Const(v), next)),
                Err(e) => Err(e),
            }
        } else if op == F32_CONST {
            match spec_bits32(s, at) {
                Ok((v, next)) => Ok((Instruction::F32Const(v), next)),
                Err(e) => Err(e),
            }
        } else if op == F64_CONST {
            match spec_bits64(s, at) {
                Ok((v, next)) => Ok((Instruction::F64Const(v), next)),
                Err(e) => Err(e),
            }
        } else {
            Err(ParseError::UnknownExpression)
        },
    }
}

/// A branch table behind its opcode: a vector of labels, then the default label.
pub open spec fn spec_br_table(s: Seq<u8>, pos: int) -> Result<(InstructionModel, int), ParseError> {
    match spec_vec(|s: Seq<u8>, p: int| spec_u32(s, p), s, pos) {
        Ok((labels, mid)) => match spec_u32(s, mid) {
            Ok((default, next)) => Ok((InstructionModel::BrTable(labels, default), next)),
            Err(e) => Err(e),
        },
        Err(e) => Err(e),
    }
}

/// The instruction at `pos`, with `depth` structured instructions open around it.
///
/// A block, loop or conditional is its opcode, a block type byte and a stream
/// up to `end`; the first stream of a conditional may stop at `else`, and a
/// second one up to `end` then follows.
pub open spec fn spec_instruction(s: Seq<u8>, pos: int, depth: nat) -> Result<
    (InstructionModel, int),
    ParseError,
>
    decreases MAX_NESTING - depth, s.len() - pos, 0nat,
{
    match spec_byte(s, pos) {
        Err(e) => Err(e),
        Ok((op, at)) => if op == BLOCK || op == LOOP || op == IF {
            if depth >= MAX_NESTING {
                Err(ParseError::NestingTooDeep)
            } else {
                match spec_byte(s, at) {
                    Err(e) => Err(e),
                    Ok((block_type, body)) => match spec_stream(
                        s,
                        body,
                        depth + 1,
                        Seq::empty(),
                        op == IF,
                    ) {
                        Err(e) => Err(e),
                        Ok((first, next, at_else)) => if op == BLOCK {
                            Ok((InstructionModel::Block(block_type, first), next))
                        } else if op == LOOP {
                            Ok((InstructionModel::Loop(block_type, first), next))
                        } else if !at_else {
                            Ok((InstructionModel::If(block_type, first, None), next))
                        } else {
                            match spec_stream(s, next, depth + 1, Seq::empty(), false) {
                                Err(e) => Err(e),
                                Ok((second, end, _)) => Ok(
                                    (InstructionModel::If(block_type, first, Some(second)), end),
                                ),
                            }
                        },
                    },
                }
            }
        } else if op == BR_TABLE {
            spec_br_table(s, at)
        } else {
            match spec_plain(s, pos) {
                Ok((i, next)) => Ok((InstructionModel::Plain(i), next)),
                Err(e) => Err(e),
            }
        },
    }
}

/// The instructions from `pos` up to the byte that closes the stream, appended
/// to `acc`; then the position behind that byte, and whether it was `else`.
/// `end` closes every stream, `else` only one that `stops_at_else`.
///
/// (An instruction is at least one byte long and lies inside the input. The
/// test on `next` says so where termination is decided; it never fails.)
pub open spec fn spec_stream(
    s: Seq<u8>,
    pos: int,
    depth: nat,
    acc: Seq<InstructionModel>,
    stops_at_else: bool,
) -> Result<(Seq<InstructionModel>, int, bool), ParseError>
    decreases MAX_NESTING - depth, s.len() - pos, 1nat,
{
    if pos < 0 || pos >= s.len() {
        Err(ParseError::UnexpectedEnd)
    } else if s[pos] == END {
        Ok((acc, pos + 1, false))
    } else if stops_at_else && s[pos] == ELSE {
        Ok((acc, pos + 1, true))
    } else {
        match spec_instruction(s, pos, depth) {
            Err(e) => Err(e),
            Ok((i, next)) => if pos < next <= s.len() {
                spec_stream(s, next, depth, acc.push(i), stops_at_else)
            } else {
                Err(ParseError::UnexpectedEnd)
            },
        }
    }
}

/// An expression at `pos`: the instructions up to the `end` that closes it.
pub open spec fn spec_expression(s: Seq<u8>, pos: int) -> Result<
    (Seq<InstructionModel>, int),
    ParseError,
> {
    match spec_stream(s, pos, 0, Seq::empty(), false) {
        Ok((code, next, _)) => Ok((code, next)),
        Err(e) => Err(e),
    }
}

/// A run of integers that is decoded from `pos` on ends inside the input.
proof fn lemma_labels_advance(s: Seq<u8>, pos: int, n: nat, acc: Seq<u32>)
    requires
        0 <= pos <= s.len(),
    ensures
        spec_many(|s: Seq<u8>, p: int| spec_u32(s, p), s, pos, n, acc) matches Ok((_, next))
            ==> pos <= next <= s.len(),
    decreases n,
{
    if n > 0 {
        lemma_integer_advances(s, pos);
        if let Ok((x, next)) = spec_u32(s, pos) {
            lemma_labels_advance(s, next, (n - 1) as nat, acc.push(x));
        }
    }
}

/// An instruction that is decoded at `pos` ends behind `pos` and inside the input.
pub proof fn lemma_instruction_advances(s: Seq<u8>, pos: int, depth: nat)
    ensures
        spec_instruction(s, pos, depth) matches Ok((_, next)) ==> 0 <= pos < next <= s.len(),
    decreases MAX_NESTING - depth, s.len() - pos, 0nat,
{
    if let Ok((op, at)) = spec_byte(s, pos) {
        lemma_integer_advances(s, at);
        if op == BLOCK || op == LOOP || op == IF {
            if depth < MAX_NESTING {
                if let Ok((_, body)) = spec_byte(s, at) {
                    lemma_stream_closed(s, body, depth + 1, Seq::empty(), op == IF);
                    if let Ok((_, next, _)) = spec_stream(s, body, depth + 1, Seq::empty(), op == IF) {
                        lemma_stream_closed(s, next, depth + 1, Seq::empty(), false);
                    }
                }
            }
        } else if op == BR_TABLE {
            if let Ok((n, start)) = spec_u32(s, at) {
                lemma_labels_advance(s, start, n as nat, Seq::empty());
                if let Ok((_, mid)) = spec_many(
                    |s: Seq<u8>, p: int| spec_u32(s, p),
                    s,
                    start,
                    n as nat,
                    Seq::empty(),
                ) {
                    lemma_integer_advances(s, mid);
                }
            }
        } else {
            if let Ok((_, mid)) = spec_u32(s, at) {
                lemma_integer_advances(s, mid);
            }
        }
    }
}

/// A stream that is decoded from `pos` on ends inside the input, behind the
/// byte that closes it: `else` where it says so, which only a stream that
/// stops at `else` does, and `end` otherwise.
pub proof fn lemma_stream_closed(
    s: Seq<u8>,
    pos: int,
    depth: nat,
    acc: Seq<InstructionModel>,
    stops_at_else: bool,
)
    ensures
        spec_stream(s, pos, depth, acc, stops_at_else) matches Ok((_, next, at_else)) ==> 0 <= pos
            < next <= s.len() && s[next - 1] == (if at_else {
            ELSE
        } else {
            END
        }) && (at_else ==> stops_at_else),
    decreases MAX_NESTING - depth, s.len() - pos, 1nat,
{
    if pos < 0 || pos >= s.len() {
    } else if s[pos] == END {
    } else if stops_at_else && s[pos] == ELSE {
    } else {
        lemma_instruction_advances(s, pos, depth);
        if let Ok((i, next)) = spec_instruction(s, pos, depth) {
            lemma_stream_closed(s, next, depth, acc.push(i), stops_at_else);
        }
    }
}

/// Every block and loop is closed by an `end` of its own, and so is every
/// conditional; the branches of a conditional that has two are parted by one
/// `else`.
pub proof fn lemma_structured_closed(s: Seq<u8>, pos: int, depth: nat)
    ensures
        match spec_instruction(s, pos, depth) {
            Ok((InstructionModel::Block(_, body), next)) => s[pos] == BLOCK && s[next - 1] == END
                && spec_stream(s, pos + 2, depth + 1, Seq::empty(), false) == Ok::<
                (Seq<InstructionModel>, int, bool),
                ParseError,
            >((body, next, false)),
            Ok((InstructionModel::Loop(_, body), next)) => s[pos] == LOOP && s[next - 1] == END
                && spec_stream(s, pos + 2, depth + 1, Seq::empty(), false) == Ok::<
                (Seq<InstructionModel>, int, bool),
                ParseError,
            >((body, next, false)),
            Ok((InstructionModel::If(_, first, None), next)) => s[pos] == IF && s[next - 1] == END
                && spec_stream(s, pos + 2, depth + 1, Seq::empty(), true) == Ok::<
                (Seq<InstructionModel>, int, bool),
                ParseError,
            >((first, next, false)),
            Ok((InstructionModel::If(_, first, Some(second)), next)) => s[pos] == IF && s[next - 1]
                == END && exists|mid: int|
                pos + 2 < mid < next && s[mid - 1] == ELSE && spec_stream(
                    s,
                    pos + 2,
                    depth + 1,
                    Seq::empty(),
                    true,
                ) == Ok::<(Seq<InstructionModel>, int, bool), ParseError>((first, mid, true))
                    && #[trigger] spec_stream(s, mid, depth + 1, Seq::empty(), false) == Ok::<
                    (Seq<InstructionModel>, int, bool),
                    ParseError,
                >((second, next, false)),
            _ => true,
        },
{
    if let Ok((op, at)) = spec_byte(s, pos) {
        if op == BLOCK || op == LOOP || op == IF {
            if depth < MAX_NESTING {
                if let Ok((_, body)) = spec_byte(s, at) {
                    lemma_stream_closed(s, body, depth + 1, Seq::empty(), op == IF);
                    if let Ok((_, mid, at_else)) = spec_stream(
                        s,
                        body,
                        depth + 1,
                        Seq::empty(),
                        op == IF,
                    ) {
                        lemma_stream_closed(s, mid, depth + 1, Seq::empty(), false);
                    }
                }
            }
        }
    }
}

/// A byte that is no opcode is refused, and an instruction that is decoded
/// has the opcode that it was decoded from: two opcodes never give the same
/// kind of instruction.
pub proof fn lemma_opcode_totality(s: Seq<u8>, pos: int, depth: nat)
    requires
        0 <= pos < s.len(),
    ensures
        !is_opcode(s[pos]) ==> spec_instruction(s, pos, depth) == Err::<
            (InstructionModel, int),
            ParseError,
        >(ParseError::UnknownExpression),
        spec_instruction(s, pos, depth) matches Ok((i, _)) ==> is_opcode(s[pos]) && i.opcode()
            == Some(s[pos]),
{
}

/// Decodes an instruction that nests nothing and is no branch table.
pub fn plain(input: &[u8], pos: usize) -> (r: Result<(Instruction, usize), ParseError>)
    ensures
        agrees(r, spec_plain(input@, pos as int)),
        advances(r, pos, input@.len()),
{
    let (op, at) = byte(input, pos)?;
    if let Some(i) = nullary(op) {
        return Ok((i, at));
    }
    if let Some(_) = indexed(op, 0) {
        let (x, next) = wasm_u32(input, at)?;
        return match indexed(op, x) {
            Some(i) => Ok((i, next)),
            None => Err(ParseError::UnknownExpression),
        };
    }
    if let Some(_) = memory(op, 0, 0) {
        let (align, mid) = wasm_u32(input, at)?;
        let (offset, next) = wasm_u32(input, mid)?;
        return match memory(op, align, offset) {
            Some(i) => Ok((i, next)),
            None => Err(ParseError::UnknownExpression),
        };
    }
    if op == CALL_INDIRECT {
        let (type_index, mid) = wasm_u32(input, at)?;
        let (_, next) = wasm_u32(input, mid)?;
        Ok((Instruction::CallIndirect(type_index), next))
    } else if op == MEMORY_SIZE {
        let (_, next) = wasm_u32(input, at)?;
        Ok((Instruction::MemorySize, next))
    } else if op == MEMORY_GROW {
        let (_, next) = wasm_u32(input, at)?;
        Ok((Instruction::MemoryGrow, next))
    } else if op == I32_CONST {
        let (v, next) = wasm_i32(input, at)?;
        Ok((Instruction::I32Const(v), next))
    } else if op == I64_CONST {
        let (v, next) = wasm_i64(input, at)?;
        Ok((Instruction::I64Const(v), next))
    } else if op == F32_CONST {
        let (v, next) = bits32(input, at)?;
        Ok((Instruction::F32Const(v), next))
    } else if op == F64_CONST {
        let (v, next) = bits64(input, at)?;
        Ok((Instruction::F64Const(v), next))
    } else {
        Err(ParseError::UnknownExpression)
    }
}

/// Decodes the operands of a branch table.
pub fn br_table(input: &[u8], pos: usize) -> (r: Result<(Instruction, usize), ParseError>)
    ensures
        agrees_view(r, spec_br_table(input@, pos as int)),
        advances(r, pos, input@.len()),
{
    assert((|s: Seq<u8>, p: int| spec_u32(s, p)) =~= (|s: Seq<u8>, p: int| u32::spec_decode(s, p)));
    let (labels, mid) = vector::<u32>(input, pos)?;
    assert(views(labels@) =~= labels@);
    let (default, next) = wasm_u32(input, mid)?;
    Ok((Instruction::BrTable(labels, default), next))
}

/// Decodes the instruction at `pos` inside `depth` open structured instructions.
fn instruction_at(input: &[u8], pos: usize, depth: usize) -> (r: Result<
    (Instruction, usize),
    ParseError,
>)
    requires
        depth <= MAX_NESTING,
    ensures
        agrees_view(r, spec_instruction(input@, pos as int, depth as nat)),
        advances(r, pos, input@.len()),
    decreases MAX_NESTING - depth, 0nat,
{
    let (op, at) = byte(input, pos)?;
    if op == BLOCK || op == LOOP || op == IF {
        if depth >= MAX_NESTING {
            return Err(ParseError::NestingTooDeep);
        }
        let (block_type, body) = byte(input, at)?;
        let (first, next, at_else) = stream(input, body, depth + 1, op == IF)?;
        let r = if op == BLOCK {
            (Instruction::Block(block_type, first), next)
        } else if op == LOOP {
            (Instruction::Loop(block_type, first), next)
        } else if !at_else {
            (Instruction::If(block_type, first, None), next)
        } else {
            let (second, end, _) = stream(input, next, depth + 1, false)?;
            (Instruction::If(block_type, first, Some(second)), end)
        };
        proof {
            lemma_model_nested(r.0);
        }
        Ok(r)
    } else if op == BR_TABLE {
        br_table(input, at)
    } else {
        plain(input, pos)
    }
}

/// Decodes the instructions from `pos` up to the byte that closes the stream.
fn stream(input: &[u8], pos: usize, depth: usize, stops_at_else: bool) -> (r: Result<
    (Vec<Instruction>, usize, bool),
    ParseError,
>)
    requires
        depth <= MAX_NESTING,
    ensures
        match r {
            Ok((code, next, at_else)) => spec_stream(
                input@,
                pos as int,
                depth as nat,
                Seq::empty(),
                stops_at_else,
            ) == Ok::<(Seq<InstructionModel>, int, bool), ParseError>(
                (views(code@), next as int, at_else),
            ) && pos < next <= input@.len(),
            Err(e) => spec_stream(input@, pos as int, depth as nat, Seq::empty(), stops_at_else)
                == Err::<(Seq<InstructionModel>, int, bool), ParseError>(e),
        },
    decreases MAX_NESTING - depth, 1nat,
{
    let mut code: Vec<Instruction> = Vec::new();
    let mut at: usize = pos;
    assert(views(code@) =~= Seq::empty());
    loop
        invariant
            depth <= MAX_NESTING,
            pos <= at,
            spec_stream(input@, pos as int, depth as nat, Seq::empty(), stops_at_else)
                == spec_stream(input@, at as int, depth as nat, views(code@), stops_at_else),
        decreases input@.len() - at,
    {
        if at >= input.len() {
            return Err(ParseError::UnexpectedEnd);
        }
        let op = input[at];
        if op == END {
            return Ok((code, at + 1, false));
        }
        if stops_at_else && op == ELSE {
            return Ok((code, at + 1, true));
        }
        let (i, next) = instruction_at(input, at, depth)?;
        proof {
            lemma_views_push(code@, i);
        }
        code.push(i);
        at = next;
    }
}

/// Decodes the instruction at `pos`.
pub fn instruction(input: &[u8], pos: usize) -> (r: Result<(Instruction, usize), ParseError>)
    ensures
        agrees_view(r, spec_instruction(input@, pos as int, 0)),
        advances(r, pos, input@.len()),
{
    instruction_at(input, pos, 0)
}

/// Decodes the expression at `pos`: the instructions up to the `end` that
/// closes it, which is read and not kept.
pub fn expression(input: &[u8], pos: usize) -> (r: Result<(Vec<Instruction>, usize), ParseError>)
    ensures
        match r {
            Ok((code, next)) => spec_expression(input@, pos as int) == Ok::<
                (Seq<InstructionModel>, int),
                ParseError,
            >((views(code@), next as int)),
            Err(e) => spec_expression(input@, pos as int) == Err::<
                (Seq<InstructionModel>, int),
                ParseError,
            >(e),
        },
        advances(r, pos, input@.len()),
{
    let (code, next, _) = stream(input, pos, 0, false)?;
    Ok((code, next))
}

} // verus!
