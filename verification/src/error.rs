//! The ways in which decoding a module, or looking something up in one, fails.
use vstd::prelude::*;

verus! {

/// Why a byte sequence is not a module this decoder accepts.
#[derive(Clone, Copy, Debug, PartialEq, Eq, Structural)]
pub enum ParseError {
    /// The input does not start with the four bytes `\0asm`.
    BadMagic,
    /// The four bytes behind the magic are not `01 00 00 00`.
    BadVersion,
    /// The input, or the section being read, ends before the item does.
    UnexpectedEnd,
    /// A section id above 11.
    UnknownSection,
    /// A section's contents are shorter than the length it declares.
    SectionLength,
    /// A variable-length integer runs on for too many bytes, or an unsigned
    /// one does not fit in 32 bits.
    LebOverflow,
    /// A name is not valid UTF-8.
    InvalidUtf8,
    /// A byte that stands for no value type.
    UnknownValueType,
    /// A type entry that does not start with the function marker.
    UnknownTypeForm,
    /// An import kind other than function, table, memory or global.
    UnknownImportKind,
    /// An export kind other than function, table, memory or global.
    UnknownExportKind,
    /// A table whose element type is not the function reference marker.
    UnknownElementType,
    /// A limits flag other than 0 or 1.
    UnknownLimitsFlag,
    /// A byte that is no opcode of the format.
    UnknownExpression,
    /// Blocks nested deeper than [`crate::expression::MAX_NESTING`].
    NestingTooDeep,
}

impl ParseError {
    /// The text of [`ParseError::message`].
    pub open spec fn text(self) -> Seq<char> {
        match self {
            ParseError::BadMagic => "invalid magic number"@,
            ParseError::BadVersion => "unsupported version"@,
            ParseError::UnexpectedEnd => "unexpected end of input"@,
            ParseError::UnknownSection => "unknown section"@,
            ParseError::SectionLength => "section length mismatch"@,
            ParseError::LebOverflow => "leb128 overflow"@,
            ParseError::InvalidUtf8 => "invalid utf-8"@,
            ParseError::UnknownValueType => "unknown value type"@,
            ParseError::UnknownTypeForm => "unknown type"@,
            ParseError::UnknownImportKind => "unknown import kind"@,
            ParseError::UnknownExportKind => "unknown export kind"@,
            ParseError::UnknownElementType => "unknown table element type"@,
            ParseError::UnknownLimitsFlag => "unknown limits flag"@,
            ParseError::UnknownExpression => "unknown expression"@,
            ParseError::NestingTooDeep => "nesting too deep"@,
        }
    }

    /// A short constant description of the error.
    pub fn message(&self) -> (r: &'static str)
        ensures
            r@ == self.text(),
    {
        match self {
            ParseError::BadMagic => "invalid magic number",
            ParseError::BadVersion => "unsupported version",
            ParseError::UnexpectedEnd => "unexpected end of input",
            ParseError::UnknownSection => "unknown section",
            ParseError::SectionLength => "section length mismatch",
            ParseError::LebOverflow => "leb128 overflow",
            ParseError::InvalidUtf8 => "invalid utf-8",
            ParseError::UnknownValueType => "unknown value type",
            ParseError::UnknownTypeForm => "unknown type",
            ParseError::UnknownImportKind => "unknown import kind",
            ParseError::UnknownExportKind => "unknown export kind",
            ParseError::UnknownElementType => "unknown table element type",
            ParseError::UnknownLimitsFlag => "unknown limits flag",
            ParseError::UnknownExpression => "unknown expression",
            ParseError::NestingTooDeep => "nesting too deep",
        }
    }
}

/// Why a lookup in a decoded module finds nothing.
#[derive(Clone, Copy, Debug, PartialEq, Eq, Structural)]
pub enum AccessError {
    /// The module has no export section.
    NoExportSection,
    /// The module has no code section.
    NoCodeSection,
    /// No function is exported under the name.
    ExportNotFound,
    /// The code section has no block at the index.
    CodeBlockOutOfRange,
}

impl AccessError {
    /// The text of [`AccessError::message`].
    pub open spec fn text(self) -> Seq<char> {
        match self {
            AccessError::NoExportSection => "no export section"@,
            AccessError::NoCodeSection => "no code section"@,
            AccessError::ExportNotFound => "export not found"@,
            AccessError::CodeBlockOutOfRange => "code block index out of range"@,
        }
    }

    /// A short constant description of the error.
    pub fn message(&self) -> (r: &'static str)
        ensures
            r@ == self.text(),
    {
        match self {
            AccessError::NoExportSection => "no export section",
            AccessError::NoCodeSection => "no code section",
            AccessError::ExportNotFound => "export not found",
            AccessError::CodeBlockOutOfRange => "code block index out of range",
        }
    }
}

} // verus!
