//! A decoded module that owns all of its data.
use crate::bytes::views;
use crate::instructions::Instruction;
use crate::types::{
    CodeSection, DataBlockModel, ElementSection, ExportModel, ExternalKind, FunctionSection,
    GlobalSection, ImportDesc, ImportModel, MemorySection, SectionModel, StartSection, Table,
    TableSection, TypeSection, ValueType, WasmMemory,
};
use vstd::prelude::*;

verus! {

/// Something that a module offers under a name.
#[derive(Clone, PartialEq, Eq, Debug)]
pub struct Export {
    pub name: String,
    /// The index among the items of the export's kind.
    pub index: usize,
}

/// An export, by the kind of what is exported.
#[derive(Clone, PartialEq, Eq, Debug)]
pub enum WasmExport {
    Function(Export),
    Table(Export),
    Memory(Export),
    Global(Export),
}

impl View for WasmExport {
    type V = ExportModel;

    open spec fn view(&self) -> ExportModel {
        match self {
            WasmExport::Function(e) => ExportModel {
                kind: ExternalKind::Function,
                name: e.name@,
                index: e.index,
            },
            WasmExport::Table(e) => ExportModel {
                kind: ExternalKind::Table,
                name: e.name@,
                index: e.index,
            },
            WasmExport::Memory(e) => ExportModel {
                kind: ExternalKind::Memory,
                name: e.name@,
                index: e.index,
            },
            WasmExport::Global(e) => ExportModel {
                kind: ExternalKind::Global,
                name: e.name@,
                index: e.index,
            },
        }
    }
}

/// The export section.
#[derive(Clone, PartialEq, Eq, Debug)]
pub struct ExportSection {
    pub exports: Vec<WasmExport>,
}

/// A function that a module takes from outside.
#[derive(Clone, PartialEq, Eq, Debug)]
pub struct FunctionImport {
    pub module_name: String,
    pub name: String,
    pub type_index: usize,
}

/// A global that a module takes from outside.
#[derive(Clone, PartialEq, Eq, Debug)]
pub struct GlobalImport {
    pub module_name: String,
    pub name: String,
    pub value_type: ValueType,
    pub is_mutable: bool,
}

/// A memory that a module takes from outside.
#[derive(Clone, PartialEq, Eq, Debug)]
pub struct MemoryImport {
    pub module_name: String,
    pub name: String,
    pub min_pages: usize,
    pub max_pages: Option<usize>,
}

/// A table that a module takes from outside.
#[derive(Clone, PartialEq, Eq, Debug)]
pub struct TableImport {
    pub module_name: String,
    pub name: String,
    pub element_type: u8,
    pub min: usize,
    pub max: Option<usize>,
}

/// An import, by the kind of what is imported.
#[derive(Clone, PartialEq, Eq, Debug)]
pub enum WasmImport {
    Function(FunctionImport),
    Global(GlobalImport),
    Memory(MemoryImport),
    Table(TableImport),
}

impl View for WasmImport {
    type V = ImportModel;

    open spec fn view(&self) -> ImportModel {
        match self {
            WasmImport::Function(f) => ImportModel {
                module_name: f.module_name@,
                name: f.name@,
                desc: ImportDesc::Function(f.type_index),
            },
            WasmImport::Global(g) => ImportModel {
                module_name: g.module_name@,
                name: g.name@,
                desc: ImportDesc::Global(g.value_type, g.is_mutable),
            },
            WasmImport::Memory(m) => ImportModel {
                module_name: m.module_name@,
                name: m.name@,
                desc: ImportDesc::Memory(
                    WasmMemory { min_pages: m.min_pages, max_pages: m.max_pages },
                ),
            },
            WasmImport::Table(t) => ImportModel {
                module_name: t.module_name@,
                name: t.name@,
                desc: ImportDesc::Table(
                    Table { element_type: t.element_type, min: t.min, max: t.max },
                ),
            },
        }
    }
}

/// The import section.
#[derive(Clone, PartialEq, Eq, Debug)]
pub struct ImportSection {
    pub imports: Vec<WasmImport>,
}

/// A data segment: bytes to put into a memory from an offset on.
#[derive(Clone, PartialEq, Debug)]
pub struct DataBlock {
    pub memory: usize,
    /// The expression that gives the offset.
    pub offset_expression: Vec<Instruction>,
    pub data: Vec<u8>,
}

impl View for DataBlock {
    type V = DataBlockModel;

    open spec fn view(&self) -> DataBlockModel {
        DataBlockModel {
            memory: self.memory,
            offset_expression: views(self.offset_expression@),
            data: self.data@,
        }
    }
}

/// The data section.
#[derive(Clone, PartialEq, Debug)]
pub struct DataSection {
    pub data_blocks: Vec<DataBlock>,
}

/// A custom section: a name, and bytes that mean something to whoever knows
/// the name.
#[derive(Clone, PartialEq, Eq, Debug)]
pub struct CustomSection {
    pub name: String,
    pub data: Vec<u8>,
}

/// A section with an id that the format does not define. The decoder refuses
/// such a section; the type is for modules that are put together by hand.
#[derive(Clone, PartialEq, Eq, Debug)]
pub struct UnknownSection {
    pub id: u8,
    pub data: Vec<u8>,
}

/// One section of a module.
#[derive(Clone, PartialEq, Debug)]
pub enum Section {
    Type(TypeSection),
    Function(FunctionSection),
    Code(CodeSection),
    Export(ExportSection),
    Import(ImportSection),
    Memory(MemorySection),
    Start(StartSection),
    Global(GlobalSection),
    Table(TableSection),
    Data(DataSection),
    Custom(CustomSection),
    Element(ElementSection),
    Unknown(UnknownSection),
}

impl View for Section {
    type V = SectionModel;

    open spec fn view(&self) -> SectionModel {
        match self {
            Section::Type(x) => SectionModel::Type(views(x.types@)),
            Section::Function(x) => SectionModel::Function(x.function_types@),
            Section::Code(x) => SectionModel::Code(views(x.code_blocks@)),
            Section::Export(x) => SectionModel::Export(views(x.exports@)),
            Section::Import(x) => SectionModel::Import(views(x.imports@)),
            Section::Memory(x) => SectionModel::Memory(x.memories@),
            Section::Start(x) => SectionModel::Start(x.start_function),
            Section::Global(x) => SectionModel::Global(views(x.globals@)),
            Section::Table(x) => SectionModel::Table(x.tables@),
            Section::Data(x) => SectionModel::Data(views(x.data_blocks@)),
            Section::Custom(x) => SectionModel::Custom(x.name@, x.data@),
            Section::Element(x) => SectionModel::Element(views(x.elements@)),
            Section::Unknown(x) => SectionModel::Unknown(x.id, x.data@),
        }
    }
}

/// A module: its sections in the order in which they were read.
#[derive(Clone, PartialEq, Debug)]
pub struct Program {
    pub sections: Vec<Section>,
}

impl View for Program {
    type V = Seq<SectionModel>;

    open spec fn view(&self) -> Seq<SectionModel> {
        views(self.sections@)
    }
}

} // verus!
