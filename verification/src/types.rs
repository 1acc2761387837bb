//! The contents of a module: value types, function types, and what each
//! section holds. The types here own their data; those that borrow names and
//! payloads from the input are in [`crate::view`].
use crate::bytes::views;
use crate::error::ParseError;
use crate::instructions::{duplicate_all, Instruction, InstructionModel};
use vstd::prelude::*;
use vstd::slice::slice_to_vec;

verus! {

/// The type of a value.
#[derive(Clone, Copy, PartialEq, Eq, Debug, Structural)]
pub enum ValueType {
    I32,
    I64,
    F32,
    F64,
}

impl ValueType {
    /// The value type that the byte `b` stands for.
    pub open spec fn from_byte(b: u8) -> Option<ValueType> {
        if b == 0x7F {
            Some(ValueType::I32)
        } else if b == 0x7E {
            Some(ValueType::I64)
        } else if b == 0x7D {
            Some(ValueType::F32)
        } else if b == 0x7C {
            Some(ValueType::F64)
        } else {
            None
        }
    }

    /// The value type that the byte `b` stands for.
    pub fn try_from(b: u8) -> (r: Result<ValueType, ParseError>)
        ensures
            match r {
                Ok(v) => ValueType::from_byte(b) == Some(v),
                Err(e) => ValueType::from_byte(b) is None && e == ParseError::UnknownValueType,
            },
    {
        if b == 0x7F {
            Ok(ValueType::I32)
        } else if b == 0x7E {
            Ok(ValueType::I64)
        } else if b == 0x7D {
            Ok(ValueType::F32)
        } else if b == 0x7C {
            Ok(ValueType::F64)
        } else {
            Err(ParseError::UnknownValueType)
        }
    }

    /// The name of the value type in capitals.
    pub open spec fn name(self) -> Seq<char> {
        match self {
            ValueType::I32 => "I32"@,
            ValueType::I64 => "I64"@,
            ValueType::F32 => "F32"@,
            ValueType::F64 => "F64"@,
        }
    }
}

impl View for ValueType {
    type V = ValueType;

    open spec fn view(&self) -> ValueType {
        *self
    }
}

/// The name of a value type in capitals.
pub fn value_type_to_string(v: &ValueType) -> (r: String)
    ensures
        r@ == v.name(),
{
    match v {
        ValueType::I32 => "I32".to_owned(),
        ValueType::I64 => "I64".to_owned(),
        ValueType::F32 => "F32".to_owned(),
        ValueType::F64 => "F64".to_owned(),
    }
}

/// What kind of item an import or export is.
#[derive(Clone, Copy, PartialEq, Eq, Debug, Structural)]
pub enum ExternalKind {
    Function,
    Table,
    Memory,
    Global,
}

impl ExternalKind {
    /// The kind that the byte `b` stands for.
    pub open spec fn from_byte(b: u8) -> Option<ExternalKind> {
        if b == 0 {
            Some(ExternalKind::Function)
        } else if b == 1 {
            Some(ExternalKind::Table)
        } else if b == 2 {
            Some(ExternalKind::Memory)
        } else if b == 3 {
            Some(ExternalKind::Global)
        } else {
            None
        }
    }

    /// The kind that the byte `b` stands for, if it stands for one.
    pub fn decode(b: u8) -> (r: Option<ExternalKind>)
        ensures
            r == ExternalKind::from_byte(b),
    {
        if b == 0 {
            Some(ExternalKind::Function)
        } else if b == 1 {
            Some(ExternalKind::Table)
        } else if b == 2 {
            Some(ExternalKind::Memory)
        } else if b == 3 {
            Some(ExternalKind::Global)
        } else {
            None
        }
    }
}

/// The type of a function: what it takes and what it gives.
#[derive(PartialEq, Eq, Debug)]
pub struct FunctionType {
    pub inputs: Vec<ValueType>,
    pub outputs: Vec<ValueType>,
}

/// A function type in contracts.
pub struct FunctionTypeModel {
    pub inputs: Seq<ValueType>,
    pub outputs: Seq<ValueType>,
}

impl View for FunctionType {
    type V = FunctionTypeModel;

    open spec fn view(&self) -> FunctionTypeModel {
        FunctionTypeModel { inputs: self.inputs@, outputs: self.outputs@ }
    }
}

impl Clone for FunctionType {
    fn clone(&self) -> (r: FunctionType)
        ensures
            r@ == self@,
    {
        FunctionType { inputs: self.inputs.clone(), outputs: self.outputs.clone() }
    }
}

/// An entry of the type section.
#[derive(PartialEq, Eq, Debug)]
pub enum WasmType {
    Function(FunctionType),
}

impl View for WasmType {
    type V = FunctionTypeModel;

    open spec fn view(&self) -> FunctionTypeModel {
        match self {
            WasmType::Function(f) => f@,
        }
    }
}

impl Clone for WasmType {
    fn clone(&self) -> (r: WasmType)
        ensures
            r@ == self@,
    {
        match self {
            WasmType::Function(f) => WasmType::Function(f.clone()),
        }
    }
}

/// The type section: the function types of the module.
#[derive(PartialEq, Eq, Debug)]
pub struct TypeSection {
    pub types: Vec<WasmType>,
}

impl Clone for TypeSection {
    fn clone(&self) -> (r: TypeSection)
        ensures
            views(r.types@) == views(self.types@),
    {
        let types = self.types.clone();
        assert(views(types@) =~= views(self.types@));
        TypeSection { types }
    }
}

/// The function section: for each function of the module, the index of its type.
#[derive(PartialEq, Eq, Debug)]
pub struct FunctionSection {
    pub function_types: Vec<u32>,
}

impl Clone for FunctionSection {
    fn clone(&self) -> (r: FunctionSection)
        ensures
            r.function_types@ == self.function_types@,
    {
        FunctionSection { function_types: self.function_types.clone() }
    }
}

/// The body of a function: runs of local variables, and the code.
#[derive(PartialEq, Debug)]
pub struct CodeBlock {
    /// For each run, how many locals it declares, and of which type.
    pub locals: Vec<(u32, ValueType)>,
    pub code: Vec<Instruction>,
}

/// The body of a function in contracts.
pub struct CodeBlockModel {
    pub locals: Seq<(u32, ValueType)>,
    pub code: Seq<InstructionModel>,
}

impl View for CodeBlock {
    type V = CodeBlockModel;

    open spec fn view(&self) -> CodeBlockModel {
        CodeBlockModel { locals: self.locals@, code: views(self.code@) }
    }
}

impl Clone for CodeBlock {
    fn clone(&self) -> (r: CodeBlock)
        ensures
            r@ == self@,
    {
        CodeBlock { locals: slice_to_vec(self.locals.as_slice()), code: duplicate_all(&self.code) }
    }
}

/// The code section: the bodies of the module's functions, in the order of
/// the function section.
#[derive(PartialEq, Debug)]
pub struct CodeSection {
    pub code_blocks: Vec<CodeBlock>,
}

impl Clone for CodeSection {
    fn clone(&self) -> (r: CodeSection)
        ensures
            views(r.code_blocks@) == views(self.code_blocks@),
    {
        let code_blocks = self.code_blocks.clone();
        assert(views(code_blocks@) =~= views(self.code_blocks@));
        CodeSection { code_blocks }
    }
}

/// A memory: its size in pages, at least and at most.
#[derive(Clone, Copy, PartialEq, Eq, Debug, Structural)]
pub struct WasmMemory {
    pub min_pages: usize,
    pub max_pages: Option<usize>,
}

impl View for WasmMemory {
    type V = WasmMemory;

    open spec fn view(&self) -> WasmMemory {
        *self
    }
}

/// The memory section.
#[derive(PartialEq, Eq, Debug)]
pub struct MemorySection {
    pub memories: Vec<WasmMemory>,
}

impl Clone for MemorySection {
    fn clone(&self) -> (r: MemorySection)
        ensures
            r.memories@ == self.memories@,
    {
        MemorySection { memories: self.memories.clone() }
    }
}

/// A table: the type of its elements and its size, at least and at most.
#[derive(Clone, Copy, PartialEq, Eq, Debug, Structural)]
pub struct Table {
    pub element_type: u8,
    pub min: usize,
    pub max: Option<usize>,
}

impl View for Table {
    type V = Table;

    open spec fn view(&self) -> Table {
        *self
    }
}

/// The table section.
#[derive(PartialEq, Eq, Debug)]
pub struct TableSection {
    pub tables: Vec<Table>,
}

impl Clone for TableSection {
    fn clone(&self) -> (r: TableSection)
        ensures
            r.tables@ == self.tables@,
    {
        TableSection { tables: self.tables.clone() }
    }
}

/// A global variable: its type, whether it can be assigned to, and the
/// expression that gives its first value.
#[derive(PartialEq, Debug)]
pub struct Global {
    pub value_type: ValueType,
    pub is_mutable: bool,
    pub expression: Vec<Instruction>,
}

/// A global variable in contracts.
pub struct GlobalModel {
    pub value_type: ValueType,
    pub is_mutable: bool,
    pub expression: Seq<InstructionModel>,
}

impl View for Global {
    type V = GlobalModel;

    open spec fn view(&self) -> GlobalModel {
        GlobalModel {
            value_type: self.value_type,
            is_mutable: self.is_mutable,
            expression: views(self.expression@),
        }
    }
}

impl Clone for Global {
    fn clone(&self) -> (r: Global)
        ensures
            r@ == self@,
    {
        Global {
            value_type: self.value_type,
            is_mutable: self.is_mutable,
            expression: duplicate_all(&self.expression),
        }
    }
}

/// The global section.
#[derive(PartialEq, Debug)]
pub struct GlobalSection {
    pub globals: Vec<Global>,
}

impl Clone for GlobalSection {
    fn clone(&self) -> (r: GlobalSection)
        ensures
            views(r.globals@) == views(self.globals@),
    {
        let globals = self.globals.clone();
        assert(views(globals@) =~= views(self.globals@));
        GlobalSection { globals }
    }
}

/// The start section: the function that runs when the module is set up.
#[derive(Clone, Copy, PartialEq, Eq, Debug, Structural)]
pub struct StartSection {
    pub start_function: usize,
}

/// An element segment: functions to put into a table from an offset on.
#[derive(PartialEq, Debug)]
pub struct WasmElement {
    pub table: usize,
    /// The expression that gives the offset.
    pub expression: Vec<Instruction>,
    pub functions: Vec<usize>,
}

/// An element segment in contracts.
pub struct ElementModel {
    pub table: usize,
    pub expression: Seq<InstructionModel>,
    pub functions: Seq<usize>,
}

impl View for WasmElement {
    type V = ElementModel;

    open spec fn view(&self) -> ElementModel {
        ElementModel {
            table: self.table,
            expression: views(self.expression@),
            functions: self.functions@,
        }
    }
}

impl Clone for WasmElement {
    fn clone(&self) -> (r: WasmElement)
        ensures
            r@ == self@,
    {
        WasmElement {
            table: self.table,
            expression: duplicate_all(&self.expression),
            functions: self.functions.clone(),
        }
    }
}

/// The element section.
#[derive(PartialEq, Debug)]
pub struct ElementSection {
    pub elements: Vec<WasmElement>,
}

impl Clone for ElementSection {
    fn clone(&self) -> (r: ElementSection)
        ensures
            views(r.elements@) == views(self.elements@),
    {
        let elements = self.elements.clone();
        assert(views(elements@) =~= views(self.elements@));
        ElementSection { elements }
    }
}

/// An export in contracts: what is exported, under which name, and its index
/// among the items of its kind.
pub struct ExportModel {
    pub kind: ExternalKind,
    pub name: Seq<char>,
    pub index: usize,
}

/// What an import brings in.
#[derive(Clone, Copy, PartialEq, Eq, Debug, Structural)]
pub enum ImportDesc {
    /// A function of the type with this index.
    Function(usize),
    Table(Table),
    Memory(WasmMemory),
    /// A global of this type, which can be assigned to or not.
    Global(ValueType, bool),
}

/// An import in contracts: the module and the name it comes from, and what it is.
pub struct ImportModel {
    pub module_name: Seq<char>,
    pub name: Seq<char>,
    pub desc: ImportDesc,
}

/// A data segment in contracts: bytes to put into a memory from an offset on.
pub struct DataBlockModel {
    pub memory: usize,
    pub offset_expression: Seq<InstructionModel>,
    pub data: Seq<u8>,
}

/// A section in contracts.
pub enum SectionModel {
    Type(Seq<FunctionTypeModel>),
    Import(Seq<ImportModel>),
    Function(Seq<u32>),
    Table(Seq<Table>),
    Memory(Seq<WasmMemory>),
    Global(Seq<GlobalModel>),
    Export(Seq<ExportModel>),
    Start(usize),
    Element(Seq<ElementModel>),
    Code(Seq<CodeBlockModel>),
    Data(Seq<DataBlockModel>),
    /// A custom section: its name and its bytes.
    Custom(Seq<char>, Seq<u8>),
    /// A section with an id that the format does not define: the id and the bytes.
    Unknown(u8, Seq<u8>),
}

impl SectionModel {
    /// The id byte that the section is stored under.
    pub open spec fn id(self) -> u8 {
        match self {
            SectionModel::Custom(_, _) => 0,
            SectionModel::Type(_) => 1,
            SectionModel::Import(_) => 2,
            SectionModel::Function(_) => 3,
            SectionModel::Table(_) => 4,
            SectionModel::Memory(_) => 5,
            SectionModel::Global(_) => 6,
            SectionModel::Export(_) => 7,
            SectionModel::Start(_) => 8,
            SectionModel::Element(_) => 9,
            SectionModel::Code(_) => 10,
            SectionModel::Data(_) => 11,
            SectionModel::Unknown(id, _) => id,
        }
    }
}

} // verus!
