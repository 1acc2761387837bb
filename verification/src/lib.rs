//! A decoder for WebAssembly binary modules (format version 1).
//!
//! [`parse`] turns the bytes of a module into a [`ProgramView`], whose names
//! and payloads borrow from the input; [`ProgramView::to_owned`] copies them
//! into a [`Program`]. Every decoder is specified by a function on byte
//! sequences and proved to compute it.
pub mod access;
pub mod bytes;
pub mod error;
pub mod expression;
pub mod instructions;
pub mod interpreter;
pub mod leb;
pub mod parser;
pub mod program;
pub mod sections;
pub mod types;
pub mod view;

pub use crate::error::{AccessError, ParseError};
pub use crate::instructions::Instruction;
pub use crate::interpreter::{ExecutionResponse, ExecutionUnit, InterperableProgram, Interpreter};
pub use crate::parser::{parse, parse_module};
pub use crate::program::{
    CustomSection, DataBlock, DataSection, Export, ExportSection, FunctionImport, GlobalImport,
    ImportSection, MemoryImport, Program, Section, TableImport, UnknownSection, WasmExport,
    WasmImport,
};
pub use crate::types::{
    value_type_to_string, CodeBlock, CodeSection, ElementSection, ExternalKind, FunctionSection,
    FunctionType, Global, GlobalSection, MemorySection, StartSection, Table, TableSection,
    TypeSection, ValueType, WasmElement, WasmMemory, WasmType,
};
pub use crate::view::{
    CustomSectionView, DataBlockView, DataSectionView, ExportSectionView, ExportView,
    FunctionImportView, GlobalImportView, ImportSectionView, MemoryImportView, ProgramView,
    SectionView, TableImportView, UnknownSectionView, WasmExportView, WasmImportView,
};
