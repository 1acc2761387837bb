//! A decoded module whose names and payloads borrow from the bytes that it was
//! decoded from, and the copy that turns it into one that owns them.
use crate::bytes::views;
use crate::instructions::{duplicate_all, Instruction};
use crate::program::{
    CustomSection, DataBlock, DataSection, Export, ExportSection, FunctionImport, GlobalImport,
    ImportSection, MemoryImport, Program, Section, TableImport, UnknownSection, WasmExport,
    WasmImport,
};
use crate::types::{
    CodeSection, DataBlockModel, ElementSection, ExportModel, ExternalKind, FunctionSection,
    GlobalSection, ImportDesc, ImportModel, MemorySection, SectionModel, StartSection, Table,
    TableSection, TypeSection, ValueType, WasmMemory,
};
use vstd::prelude::*;
use vstd::slice::slice_to_vec;

verus! {

/// Something that a module offers under a name.
#[derive(Clone, PartialEq, Eq, Debug)]
pub struct ExportView<'p> {
    pub name: &'p str,
    /// The index among the items of the export's kind.
    pub index: usize,
}

impl<'p> ExportView<'p> {
    /// A copy that owns its name.
    pub fn to_owned(&self) -> (r: Export)
        ensures
            r.name@ == self.name@,
            r.index == self.index,
    {
        Export { name: self.name.to_owned(), index: self.index }
    }
}

/// An export, by the kind of what is exported.
#[derive(Clone, PartialEq, Eq, Debug)]
pub enum WasmExportView<'p> {
    Function(ExportView<'p>),
    Table(ExportView<'p>),
    Memory(ExportView<'p>),
    Global(ExportView<'p>),
}

impl<'p> View for WasmExportView<'p> {
    type V = ExportModel;

    open spec fn view(&self) -> ExportModel {
        match self {
            WasmExportView::Function(e) => ExportModel {
                kind: ExternalKind::Function,
                name: e.name@,
                index: e.index,
            },
            WasmExportView::Table(e) => ExportModel {
                kind: ExternalKind::Table,
                name: e.name@,
                index: e.index,
            },
            WasmExportView::Memory(e) => ExportModel {
                kind: ExternalKind::Memory,
                name: e.name@,
                index: e.index,
            },
            WasmExportView::Global(e) => ExportModel {
                kind: ExternalKind::Global,
                name: e.name@,
                index: e.index,
            },
        }
    }
}

impl<'p> WasmExportView<'p> {
    /// A copy that owns its name.
    pub fn to_owned(&self) -> (r: WasmExport)
        ensures
            r@ == self@,
    {
        match self {
            WasmExportView::Function(e) => WasmExport::Function(e.to_owned()),
            WasmExportView::Table(e) => WasmExport::Table(e.to_owned()),
            WasmExportView::Memory(e) => WasmExport::Memory(e.to_owned()),
            WasmExportView::Global(e) => WasmExport::Global(e.to_owned()),
        }
    }
}

/// The export section.
#[derive(Clone, PartialEq, Eq, Debug)]
pub struct ExportSectionView<'p> {
    pub exports: Vec<WasmExportView<'p>>,
}

impl<'p> ExportSectionView<'p> {
    /// A copy that owns its names.
    pub fn to_owned(&self) -> (r: ExportSection)
        ensures
            views(r.exports@) == views(self.exports@),
    {
        let mut exports: Vec<WasmExport> = Vec::new();
        let mut i: usize = 0;
        while i < self.exports.len()
            invariant
                i <= self.exports@.len(),
                exports@.len() == i,
                forall|k: int| 0 <= k < i ==> exports@[k]@ == self.exports@[k]@,
            decreases self.exports@.len() - i,
        {
            exports.push(self.exports[i].to_owned());
            i = i + 1;
        }
        assert(views(exports@) =~= views(self.exports@));
        ExportSection { exports }
    }
}

/// A function that a module takes from outside.
#[derive(Clone, PartialEq, Eq, Debug)]
pub struct FunctionImportView<'p> {
    pub module_name: &'p str,
    pub name: &'p str,
    pub type_index: usize,
}

/// A global that a module takes from outside.
#[derive(Clone, PartialEq, Eq, Debug)]
pub struct GlobalImportView<'p> {
    pub module_name: &'p str,
    pub name: &'p str,
    pub value_type: ValueType,
    pub is_mutable: bool,
}

/// A memory that a module takes from outside.
#[derive(Clone, PartialEq, Eq, Debug)]
pub struct MemoryImportView<'p> {
    pub module_name: &'p str,
    pub name: &'p str,
    pub min_pages: usize,
    pub max_pages: Option<usize>,
}

/// A table that a module takes from outside.
#[derive(Clone, PartialEq, Eq, Debug)]
pub struct TableImportView<'p> {
    pub module_name: &'p str,
    pub name: &'p str,
    pub element_type: u8,
    pub min: usize,
    pub max: Option<usize>,
}

/// An import, by the kind of what is imported.
#[derive(Clone, PartialEq, Eq, Debug)]
pub enum WasmImportView<'p> {
    Function(FunctionImportView<'p>),
    Global(GlobalImportView<'p>),
    Memory(MemoryImportView<'p>),
    Table(TableImportView<'p>),
}

impl<'p> View for WasmImportView<'p> {
    type V = ImportModel;

    open spec fn view(&self) -> ImportModel {
        match self {
            WasmImportView::Function(f) => ImportModel {
                module_name: f.module_name@,
                name: f.name@,
                desc: ImportDesc::Function(f.type_index),
            },
            WasmImportView::Global(g) => ImportModel {
                module_name: g.module_name@,
                name: g.name@,
                desc: ImportDesc::Global(g.value_type, g.is_mutable),
            },
            WasmImportView::Memory(m) => ImportModel {
                module_name: m.module_name@,
                name: m.name@,
                desc: ImportDesc::Memory(
                    WasmMemory { min_pages: m.min_pages, max_pages: m.max_pages },
                ),
            },
            WasmImportView::Table(t) => ImportModel {
                module_name: t.module_name@,
                name: t.name@,
                desc: ImportDesc::Table(
                    Table { element_type: t.element_type, min: t.min, max: t.max },
                ),
            },
        }
    }
}

impl<'p> WasmImportView<'p> {
    /// A copy that owns its names.
    pub fn to_owned(&self) -> (r: WasmImport)
        ensures
            r@ == self@,
    {
        match self {
            WasmImportView::Function(f) => WasmImport::Function(
                FunctionImport {
                    module_name: f.module_name.to_owned(),
                    name: f.name.to_owned(),
                    type_index: f.type_index,
                },
            ),
            WasmImportView::Global(g) => WasmImport::Global(
                GlobalImport {
                    module_name: g.module_name.to_owned(),
                    name: g.name.to_owned(),
                    value_type: g.value_type,
                    is_mutable: g.is_mutable,
                },
            ),
            WasmImportView::Memory(m) => WasmImport::Memory(
                MemoryImport {
                    module_name: m.module_name.to_owned(),
                    name: m.name.to_owned(),
                    min_pages: m.min_pages,
                    max_pages: m.max_pages,
                },
            ),
            WasmImportView::Table(t) => WasmImport::Table(
                TableImport {
                    module_name: t.module_name.to_owned(),
                    name: t.name.to_owned(),
                    element_type: t.element_type,
                    min: t.min,
                    max: t.max,
                },
            ),
        }
    }
}

/// The import section.
#[derive(Clone, PartialEq, Eq, Debug)]
pub struct ImportSectionView<'p> {
    pub imports: Vec<WasmImportView<'p>>,
}

impl<'p> ImportSectionView<'p> {
    /// A copy that owns its names.
    pub fn to_owned(&self) -> (r: ImportSection)
        ensures
            views(r.imports@) == views(self.imports@),
    {
        let mut imports: Vec<WasmImport> = Vec::new();
        let mut i: usize = 0;
        while i < self.imports.len()
            invariant
                i <= self.imports@.len(),
                imports@.len() == i,
                forall|k: int| 0 <= k < i ==> imports@[k]@ == self.imports@[k]@,
            decreases self.imports@.len() - i,
        {
            imports.push(self.imports[i].to_owned());
            i = i + 1;
        }
        assert(views(imports@) =~= views(self.imports@));
        ImportSection { imports }
    }
}

/// A data segment: bytes to put into a memory from an offset on.
#[derive(Clone, PartialEq, Debug)]
pub struct DataBlockView<'p> {
    pub memory: usize,
    /// The expression that gives the offset.
    pub offset_expression: Vec<Instruction>,
    pub data: &'p [u8],
}

impl<'p> View for DataBlockView<'p> {
    type V = DataBlockModel;

    open spec fn view(&self) -> DataBlockModel {
        DataBlockModel {
            memory: self.memory,
            offset_expression: views(self.offset_expression@),
            data: self.data@,
        }
    }
}

impl<'p> DataBlockView<'p> {
    /// A copy that owns its bytes.
    pub fn to_owned(&self) -> (r: DataBlock)
        ensures
            r@ == self@,
    {
        DataBlock {
            memory: self.memory,
            offset_expression: duplicate_all(&self.offset_expression),
            data: slice_to_vec(self.data),
        }
    }
}

/// The data section.
#[derive(Clone, PartialEq, Debug)]
pub struct DataSectionView<'p> {
    pub data_blocks: Vec<DataBlockView<'p>>,
}

impl<'p> DataSectionView<'p> {
    /// A copy that owns its bytes.
    pub fn to_owned(&self) -> (r: DataSection)
        ensures
            views(r.data_blocks@) == views(self.data_blocks@),
    {
        let mut data_blocks: Vec<DataBlock> = Vec::new();
        let mut i: usize = 0;
        while i < self.data_blocks.len()
            invariant
                i <= self.data_blocks@.len(),
                data_blocks@.len() == i,
                forall|k: int| 0 <= k < i ==> data_blocks@[k]@ == self.data_blocks@[k]@,
            decreases self.data_blocks@.len() - i,
        {
            data_blocks.push(self.data_blocks[i].to_owned());
            i = i + 1;
        }
        assert(views(data_blocks@) =~= views(self.data_blocks@));
        DataSection { data_blocks }
    }
}

/// A custom section: a name, and bytes that mean something to whoever knows
/// the name.
#[derive(Clone, PartialEq, Eq, Debug)]
pub struct CustomSectionView<'p> {
    pub name: &'p str,
    pub data: &'p [u8],
}

impl<'p> CustomSectionView<'p> {
    /// A copy that owns its name and bytes.
    pub fn to_owned(&self) -> (r: CustomSection)
        ensures
            r.name@ == self.name@,
            r.data@ == self.data@,
    {
        CustomSection { name: self.name.to_owned(), data: slice_to_vec(self.data) }
    }
}

/// A section with an id that the format does not define. The decoder refuses
/// such a section; the type is for modules that are put together by hand.
#[derive(Clone, PartialEq, Eq, Debug)]
pub struct UnknownSectionView<'p> {
    pub id: u8,
    pub data: &'p [u8],
}

impl<'p> UnknownSectionView<'p> {
    /// A copy that owns its bytes.
    pub fn to_owned(&self) -> (r: UnknownSection)
        ensures
            r.id == self.id,
            r.data@ == self.data@,
    {
        UnknownSection { id: self.id, data: slice_to_vec(self.data) }
    }
}

/// One section of a module.
#[derive(Clone, PartialEq, Debug)]
pub enum SectionView<'p> {
    Type(TypeSection),
    Function(FunctionSection),
    Code(CodeSection),
    Export(ExportSectionView<'p>),
    Import(ImportSectionView<'p>),
    Memory(MemorySection),
    Start(StartSection),
    Global(GlobalSection),
    Table(TableSection),
    Data(DataSectionView<'p>),
    Custom(CustomSectionView<'p>),
    Element(ElementSection),
    Unknown(UnknownSectionView<'p>),
}

impl<'p> View for SectionView<'p> {
    type V = SectionModel;

    open spec fn view(&self) -> SectionModel {
        match self {
            SectionView::Type(x) => SectionModel::Type(views(x.types@)),
            SectionView::Function(x) => SectionModel::Function(x.function_types@),
            SectionView::Code(x) => SectionModel::Code(views(x.code_blocks@)),
            SectionView::Export(x) => SectionModel::Export(views(x.exports@)),
            SectionView::Import(x) => SectionModel::Import(views(x.imports@)),
            SectionView::Memory(x) => SectionModel::Memory(x.memories@),
            SectionView::Start(x) => SectionModel::Start(x.start_function),
            SectionView::Global(x) => SectionModel::Global(views(x.globals@)),
            SectionView::Table(x) => SectionModel::Table(x.tables@),
            SectionView::Data(x) => SectionModel::Data(views(x.data_blocks@)),
            SectionView::Custom(x) => SectionModel::Custom(x.name@, x.data@),
            SectionView::Element(x) => SectionModel::Element(views(x.elements@)),
            SectionView::Unknown(x) => SectionModel::Unknown(x.id, x.data@),
        }
    }
}

impl<'p> SectionView<'p> {
    /// A copy that owns its names and bytes.
    pub fn to_owned(&self) -> (r: Section)
        ensures
            r@ == self@,
    {
        match self {
            SectionView::Type(x) => Section::Type(x.clone()),
            SectionView::Function(x) => Section::Function(x.clone()),
            SectionView::Code(x) => Section::Code(x.clone()),
            SectionView::Export(x) => Section::Export(x.to_owned()),
            SectionView::Import(x) => Section::Import(x.to_owned()),
            SectionView::Memory(x) => Section::Memory(x.clone()),
            SectionView::Start(x) => Section::Start(*x),
            SectionView::Global(x) => Section::Global(x.clone()),
            SectionView::Table(x) => Section::Table(x.clone()),
            SectionView::Data(x) => Section::Data(x.to_owned()),
            SectionView::Custom(x) => Section::Custom(x.to_owned()),
            SectionView::Element(x) => Section::Element(x.clone()),
            SectionView::Unknown(x) => Section::Unknown(x.to_owned()),
        }
    }
}

/// A module: its sections in the order in which they were read.
#[derive(Clone, PartialEq, Debug)]
pub struct ProgramView<'p> {
    pub sections: Vec<SectionView<'p>>,
}

impl<'p> View for ProgramView<'p> {
    type V = Seq<SectionModel>;

    open spec fn view(&self) -> Seq<SectionModel> {
        views(self.sections@)
    }
}

impl<'p> ProgramView<'p> {
    /// A module with the same contents that owns its names and bytes, and so
    /// outlives the input.
    pub fn to_owned(&self) -> (r: Program)
        ensures
            r@ == self@,
    {
        let mut sections: Vec<Section> = Vec::new();
        let mut i: usize = 0;
        while i < self.sections.len()
            invariant
                i <= self.sections@.len(),
                sections@.len() == i,
                forall|k: int| 0 <= k < i ==> sections@[k]@ == self.sections@[k]@,
            decreases self.sections@.len() - i,
        {
            sections.push(self.sections[i].to_owned());
            i = i + 1;
        }
        assert(views(sections@) =~= views(self.sections@));
        Program { sections }
    }
}

} // verus!
