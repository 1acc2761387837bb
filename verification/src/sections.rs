//! The decoders of the sections, and of the entries that the sections hold.
use crate::bytes::{
    advances, agrees, agrees_view, byte, byte_vec, index, name, spec_byte, spec_byte_vec,
    spec_index, spec_name, spec_take, spec_vec, take, vector, views, Decode,
};
use crate::error::ParseError;
use crate::expression::{expression, spec_expression};
use crate::leb::{spec_u32, wasm_u32};
use crate::types::{
    CodeBlock, CodeBlockModel, CodeSection, DataBlockModel, ElementModel, ElementSection,
    ExportModel, ExternalKind, FunctionSection, FunctionType, FunctionTypeModel, Global,
    GlobalModel, GlobalSection, ImportDesc, ImportModel, MemorySection, SectionModel,
    StartSection, Table, TableSection, TypeSection, ValueType, WasmElement, WasmMemory, WasmType,
};
use crate::view::{
    CustomSectionView, DataBlockView, DataSectionView, ExportSectionView, ExportView,
    FunctionImportView, GlobalImportView, ImportSectionView, MemoryImportView, SectionView,
    TableImportView, WasmExportView, WasmImportView,
};
use vstd::prelude::*;
use vstd::slice::slice_subrange;
use vstd::utf8::{decode_utf8_encode_utf8, encode_utf8, valid_utf8};

verus! {

/// The byte that marks a function type in the type section.
pub const FUNCTION_TYPE: u8 = 0x60;

/// The byte that marks a table of function references.
pub const FUNCREF: u8 = 0x70;

/// The highest section id of the format.
pub const LAST_SECTION: u8 = 11;

/// A value type: one byte.
pub open spec fn spec_value_type(s: Seq<u8>, pos: int) -> Result<(ValueType, int), ParseError> {
    match spec_byte(s, pos) {
        Ok((b, next)) => match ValueType::from_byte(b) {
            Some(v) => Ok((v, next)),
            None => Err(ParseError::UnknownValueType),
        },
        Err(e) => Err(e),
    }
}

/// An entry of the type section: the function marker, the types of the
/// inputs, the types of the outputs.
pub open spec fn spec_function_type(s: Seq<u8>, pos: int) -> Result<
    (FunctionTypeModel, int),
    ParseError,
> {
    match spec_byte(s, pos) {
        Err(e) => Err(e),
        Ok((form, at)) => if form != FUNCTION_TYPE {
            Err(ParseError::UnknownTypeForm)
        } else {
            match spec_vec(|s: Seq<u8>, p: int| spec_value_type(s, p), s, at) {
                Err(e) => Err(e),
                Ok((inputs, mid)) => match spec_vec(
                    |s: Seq<u8>, p: int| spec_value_type(s, p),
                    s,
                    mid,
                ) {
                    Err(e) => Err(e),
                    Ok((outputs, next)) => Ok((FunctionTypeModel { inputs, outputs }, next)),
                },
            }
        },
    }
}

/// Limits: a flag byte, the minimum and, where the flag is 1, the maximum.
pub open spec fn spec_limits(s: Seq<u8>, pos: int) -> Result<
    ((usize, Option<usize>), int),
    ParseError,
> {
    match spec_byte(s, pos) {
        Err(e) => Err(e),
        Ok((flag, at)) => if flag == 0 {
            match spec_index(s, at) {
                Ok((min, next)) => Ok(((min, None), next)),
                Err(e) => Err(e),
            }
        } else if flag == 1 {
            match spec_index(s, at) {
                Ok((min, mid)) => match spec_index(s, mid) {
                    Ok((max, next)) => Ok(((min, Some(max)), next)),
                    Err(e) => Err(e),
                },
                Err(e) => Err(e),
            }
        } else {
            Err(ParseError::UnknownLimitsFlag)
        },
    }
}

/// A memory: its limits.
pub open spec fn spec_memory(s: Seq<u8>, pos: int) -> Result<(WasmMemory, int), ParseError> {
    match spec_limits(s, pos) {
        Ok(((min, max), next)) => Ok((WasmMemory { min_pages: min, max_pages: max }, next)),
        Err(e) => Err(e),
    }
}

/// A table: the function reference marker, then its limits.
pub open spec fn spec_table(s: Seq<u8>, pos: int) -> Result<(Table, int), ParseError> {
    match spec_byte(s, pos) {
        Err(e) => Err(e),
        Ok((element_type, at)) => if element_type != FUNCREF {
            Err(ParseError::UnknownElementType)
        } else {
            match spec_limits(s, at) {
                Ok(((min, max), next)) => Ok((Table { element_type, min, max }, next)),
                Err(e) => Err(e),
            }
        },
    }
}

/// The type of a global: its value type, then a byte that is 1 where the
/// global can be assigned to.
pub open spec fn spec_global_type(s: Seq<u8>, pos: int) -> Result<
    ((ValueType, bool), int),
    ParseError,
> {
    match spec_value_type(s, pos) {
        Err(e) => Err(e),
        Ok((value_type, at)) => match spec_byte(s, at) {
            Ok((mutability, next)) => Ok(((value_type, mutability == 1), next)),
            Err(e) => Err(e),
        },
    }
}

/// A global: its type, then the expression that gives its first value.
pub open spec fn spec_global(s: Seq<u8>, pos: int) -> Result<(GlobalModel, int), ParseError> {
    match spec_global_type(s, pos) {
        Err(e) => Err(e),
        Ok(((value_type, is_mutable), at)) => match spec_expression(s, at) {
            Ok((expression, next)) => Ok(
                (GlobalModel { value_type, is_mutable, expression }, next),
            ),
            Err(e) => Err(e),
        },
    }
}

/// An export: its name, a kind byte, and the index of what is exported.
pub open spec fn spec_export(s: Seq<u8>, pos: int) -> Result<(ExportModel, int), ParseError> {
    match spec_name(s, pos) {
        Err(e) => Err(e),
        Ok((name, at)) => match spec_byte(s, at) {
            Err(e) => Err(e),
            Ok((b, mid)) => match ExternalKind::from_byte(b) {
                None => Err(ParseError::UnknownExportKind),
                Some(kind) => match spec_index(s, mid) {
                    Ok((index, next)) => Ok((ExportModel { kind, name, index }, next)),
                    Err(e) => Err(e),
                },
            },
        },
    }
}

/// What an import of the given kind brings in: a type index for a function,
/// a table, a memory, or the type of a global.
pub open spec fn spec_import_desc(kind: ExternalKind, s: Seq<u8>, pos: int) -> Result<
    (ImportDesc, int),
    ParseError,
> {
    match kind {
        ExternalKind::Function => match spec_index(s, pos) {
            Ok((type_index, next)) => Ok((ImportDesc::Function(type_index), next)),
            Err(e) => Err(e),
        },
        ExternalKind::Table => match spec_table(s, pos) {
            Ok((table, next)) => Ok((ImportDesc::Table(table), next)),
            Err(e) => Err(e),
        },
        ExternalKind::Memory => match spec_memory(s, pos) {
            Ok((memory, next)) => Ok((ImportDesc::Memory(memory), next)),
            Err(e) => Err(e),
        },
        ExternalKind::Global => match spec_global_type(s, pos) {
            Ok(((value_type, is_mutable), next)) => Ok(
                (ImportDesc::Global(value_type, is_mutable), next),
            ),
            Err(e) => Err(e),
        },
    }
}

/// An import: the name of the module, the name of the item, a kind byte, and
/// what the kind asks for.
pub open spec fn spec_import(s: Seq<u8>, pos: int) -> Result<(ImportModel, int), ParseError> {
    match spec_name(s, pos) {
        Err(e) => Err(e),
        Ok((module_name, at)) => match spec_name(s, at) {
            Err(e) => Err(e),
            Ok((name, mid)) => match spec_byte(s, mid) {
                Err(e) => Err(e),
                Ok((b, start)) => match ExternalKind::from_byte(b) {
                    None => Err(ParseError::UnknownImportKind),
                    Some(kind) => match spec_import_desc(kind, s, start) {
                        Ok((desc, next)) => Ok((ImportModel { module_name, name, desc }, next)),
                        Err(e) => Err(e),
                    },
                },
            },
        },
    }
}

/// An element segment: a table index, the expression that gives the offset,
/// and a vector of function indices.
pub open spec fn spec_element(s: Seq<u8>, pos: int) -> Result<(ElementModel, int), ParseError> {
    match spec_index(s, pos) {
        Err(e) => Err(e),
        Ok((table, at)) => match spec_expression(s, at) {
            Err(e) => Err(e),
            Ok((expression, mid)) => match spec_vec(
                |s: Seq<u8>, p: int| spec_index(s, p),
                s,
                mid,
            ) {
                Ok((functions, next)) => Ok((ElementModel { table, expression, functions }, next)),
                Err(e) => Err(e),
            },
        },
    }
}

/// A run of locals: how many, and of which type.
pub open spec fn spec_local(s: Seq<u8>, pos: int) -> Result<((u32, ValueType), int), ParseError> {
    match spec_u32(s, pos) {
        Err(e) => Err(e),
        Ok((count, at)) => match spec_value_type(s, at) {
            Ok((value_type, next)) => Ok(((count, value_type), next)),
            Err(e) => Err(e),
        },
    }
}

/// The body of a function: its size, which is read and not used, a vector of
/// runs of locals, and the code.
pub open spec fn spec_code_block(s: Seq<u8>, pos: int) -> Result<(CodeBlockModel, int), ParseError> {
    match spec_u32(s, pos) {
        Err(e) => Err(e),
        Ok((_, at)) => match spec_vec(|s: Seq<u8>, p: int| spec_local(s, p), s, at) {
            Err(e) => Err(e),
            Ok((locals, mid)) => match spec_expression(s, mid) {
                Ok((code, next)) => Ok((CodeBlockModel { locals, code }, next)),
                Err(e) => Err(e),
            },
        },
    }
}

/// A data segment: a memory index, the expression that gives the offset, and
/// a byte vector.
pub open spec fn spec_data_block(s: Seq<u8>, pos: int) -> Result<(DataBlockModel, int), ParseError> {
    match spec_index(s, pos) {
        Err(e) => Err(e),
        Ok((memory, at)) => match spec_expression(s, at) {
            Err(e) => Err(e),
            Ok((offset_expression, mid)) => match spec_byte_vec(s, mid) {
                Ok((data, next)) => Ok((DataBlockModel { memory, offset_expression, data }, next)),
                Err(e) => Err(e),
            },
        },
    }
}

/// The value of a decoder that has to use up all `len` bytes.
pub open spec fn spec_whole<T>(r: Result<(T, int), ParseError>, len: nat) -> Result<T, ParseError> {
    match r {
        Ok((v, next)) => if next == len {
            Ok(v)
        } else {
            Err(ParseError::SectionLength)
        },
        Err(e) => Err(e),
    }
}

/// A custom section: a name, and whatever follows it in `body`.
#[verifier::opaque]
pub open spec fn spec_custom_section(body: Seq<u8>) -> Result<SectionModel, ParseError> {
    match spec_name(body, 0) {
        Ok((name, next)) => Ok(SectionModel::Custom(name, body.subrange(next, body.len() as int))),
        Err(e) => Err(e),
    }
}

/// The start section: one function index, which fills `body`.
#[verifier::opaque]
pub open spec fn spec_start_section(body: Seq<u8>) -> Result<SectionModel, ParseError> {
    match spec_whole(spec_index(body, 0), body.len()) {
        Ok(v) => Ok(SectionModel::Start(v)),
        Err(e) => Err(e),
    }
}

/// The type section: a vector of function types, which fills `body`.
#[verifier::opaque]
pub open spec fn spec_type_section(body: Seq<u8>) -> Result<SectionModel, ParseError> {
    match spec_whole(spec_vec(|s: Seq<u8>, p: int| spec_function_type(s, p), body, 0), body.len()) {
        Ok(v) => Ok(SectionModel::Type(v)),
        Err(e) => Err(e),
    }
}

/// The import section: a vector of imports, which fills `body`.
#[verifier::opaque]
pub open spec fn spec_import_section(body: Seq<u8>) -> Result<SectionModel, ParseError> {
    match spec_whole(spec_vec(|s: Seq<u8>, p: int| spec_import(s, p), body, 0), body.len()) {
        Ok(v) => Ok(SectionModel::Import(v)),
        Err(e) => Err(e),
    }
}

/// The function section: a vector of type indices, one for each function, which fills `body`.
#[verifier::opaque]
pub open spec fn spec_function_section(body: Seq<u8>) -> Result<SectionModel, ParseError> {
    match spec_whole(spec_vec(|s: Seq<u8>, p: int| spec_u32(s, p), body, 0), body.len()) {
        Ok(v) => Ok(SectionModel::Function(v)),
        Err(e) => Err(e),
    }
}

/// The table section: a vector of tables, which fills `body`.
#[verifier::opaque]
pub open spec fn spec_table_section(body: Seq<u8>) -> Result<SectionModel, ParseError> {
    match spec_whole(spec_vec(|s: Seq<u8>, p: int| spec_table(s, p), body, 0), body.len()) {
        Ok(v) => Ok(SectionModel::Table(v)),
        Err(e) => Err(e),
    }
}

/// The memory section: a vector of memories, which fills `body`.
#[verifier::opaque]
pub open spec fn spec_memory_section(body: Seq<u8>) -> Result<SectionModel, ParseError> {
    match spec_whole(spec_vec(|s: Seq<u8>, p: int| spec_memory(s, p), body, 0), body.len()) {
        Ok(v) => Ok(SectionModel::Memory(v)),
        Err(e) => Err(e),
    }
}

/// The global section: a vector of globals, which fills `body`.
#[verifier::opaque]
pub open spec fn spec_global_section(body: Seq<u8>) -> Result<SectionModel, ParseError> {
    match spec_whole(spec_vec(|s: Seq<u8>, p: int| spec_global(s, p), body, 0), body.len()) {
        Ok(v) => Ok(SectionModel::Global(v)),
        Err(e) => Err(e),
    }
}

/// The export section: a vector of exports, which fills `body`.
#[verifier::opaque]
pub open spec fn spec_export_section(body: Seq<u8>) -> Result<SectionModel, ParseError> {
    match spec_whole(spec_vec(|s: Seq<u8>, p: int| spec_export(s, p), body, 0), body.len()) {
        Ok(v) => Ok(SectionModel::Export(v)),
        Err(e) => Err(e),
    }
}

/// The element section: a vector of element segments, which fills `body`.
#[verifier::opaque]
pub open spec fn spec_element_section(body: Seq<u8>) -> Result<SectionModel, ParseError> {
    match spec_whole(spec_vec(|s: Seq<u8>, p: int| spec_element(s, p), body, 0), body.len()) {
        Ok(v) => Ok(SectionModel::Element(v)),
        Err(e) => Err(e),
    }
}

/// The code section: a vector of function bodies, which fills `body`.
#[verifier::opaque]
pub open spec fn spec_code_section(body: Seq<u8>) -> Result<SectionModel, ParseError> {
    match spec_whole(spec_vec(|s: Seq<u8>, p: int| spec_code_block(s, p), body, 0), body.len()) {
        Ok(v) => Ok(SectionModel::Code(v)),
        Err(e) => Err(e),
    }
}

/// The data section: a vector of data segments, which fills `body`.
#[verifier::opaque]
pub open spec fn spec_data_section(body: Seq<u8>) -> Result<SectionModel, ParseError> {
    match spec_whole(spec_vec(|s: Seq<u8>, p: int| spec_data_block(s, p), body, 0), body.len()) {
        Ok(v) => Ok(SectionModel::Data(v)),
        Err(e) => Err(e),
    }
}

/// The section with the given id whose contents are exactly `body`.
pub open spec fn spec_section_body(id: u8, body: Seq<u8>) -> Result<SectionModel, ParseError> {
    if id == 0 {
        spec_custom_section(body)
    } else if id == 1 {
        spec_type_section(body)
    } else if id == 2 {
        spec_import_section(body)
    } else if id == 3 {
        spec_function_section(body)
    } else if id == 4 {
        spec_table_section(body)
    } else if id == 5 {
        spec_memory_section(body)
    } else if id == 6 {
        spec_global_section(body)
    } else if id == 7 {
        spec_export_section(body)
    } else if id == 8 {
        spec_start_section(body)
    } else if id == 9 {
        spec_element_section(body)
    } else if id == 10 {
        spec_code_section(body)
    } else if id == 11 {
        spec_data_section(body)
    } else {
        Err(ParseError::UnknownSection)
    }
}

/// A section that is decoded from the contents stored under `id` has that id.
pub proof fn lemma_section_id(id: u8, body: Seq<u8>)
    ensures
        spec_section_body(id, body) matches Ok(section) ==> section.id() == id,
{
    assert(spec_custom_section(body) matches Ok(s) ==> s is Custom) by {
        reveal(spec_custom_section);
    }
    assert(spec_start_section(body) matches Ok(s) ==> s is Start) by {
        reveal(spec_start_section);
    }
    assert(spec_type_section(body) matches Ok(s) ==> s is Type) by {
        reveal(spec_type_section);
    }
    assert(spec_import_section(body) matches Ok(s) ==> s is Import) by {
        reveal(spec_import_section);
    }
    assert(spec_function_section(body) matches Ok(s) ==> s is Function) by {
        reveal(spec_function_section);
    }
    assert(spec_table_section(body) matches Ok(s) ==> s is Table) by {
        reveal(spec_table_section);
    }
    assert(spec_memory_section(body) matches Ok(s) ==> s is Memory) by {
        reveal(spec_memory_section);
    }
    assert(spec_global_section(body) matches Ok(s) ==> s is Global) by {
        reveal(spec_global_section);
    }
    assert(spec_export_section(body) matches Ok(s) ==> s is Export) by {
        reveal(spec_export_section);
    }
    assert(spec_element_section(body) matches Ok(s) ==> s is Element) by {
        reveal(spec_element_section);
    }
    assert(spec_code_section(body) matches Ok(s) ==> s is Code) by {
        reveal(spec_code_section);
    }
    assert(spec_data_section(body) matches Ok(s) ==> s is Data) by {
        reveal(spec_data_section);
    }
}

/// The section at `pos`: an id byte, the length of the contents, and the
/// contents, which the section has to fill.
#[verifier::opaque]
pub open spec fn spec_section(s: Seq<u8>, pos: int) -> Result<(SectionModel, int), ParseError> {
    match spec_byte(s, pos) {
        Err(e) => Err(e),
        Ok((id, at)) => if id > LAST_SECTION {
            Err(ParseError::UnknownSection)
        } else {
            match spec_u32(s, at) {
                Err(e) => Err(e),
                Ok((len, start)) => match spec_take(s, start, len as nat) {
                    Err(e) => Err(e),
                    Ok((body, next)) => match spec_section_body(id, body) {
                        Ok(section) => Ok((section, next)),
                        Err(e) => Err(e),
                    },
                },
            }
        },
    }
}

/// A name that is decoded is the text of bytes that are valid UTF-8: those of
/// the byte vector at the same place. The names of imports and exports and
/// the name of a custom section are decoded so.
pub proof fn lemma_names_are_utf8(s: Seq<u8>, pos: int)
    ensures
        spec_name(s, pos) matches Ok((name, next)) ==> spec_byte_vec(s, pos) == Ok::<
            (Seq<u8>, int),
            ParseError,
        >((encode_utf8(name), next)) && valid_utf8(encode_utf8(name)),
        spec_export(s, pos) matches Ok((export, _)) ==> (spec_name(s, pos) matches Ok((name, _))
            && name == export.name),
        spec_import(s, pos) matches Ok((import, _)) ==> (spec_name(s, pos) matches Ok(
            (module_name, at),
        ) && module_name == import.module_name && (spec_name(s, at) matches Ok((name, _)) && name
            == import.name)),
        spec_section_body(0, s) matches Ok(SectionModel::Custom(name, _)) ==> (spec_name(
            s,
            0,
        ) matches Ok((found, _)) && found == name),
{
    reveal(spec_custom_section);
    if let Ok((raw, _)) = spec_byte_vec(s, pos) {
        if valid_utf8(raw) {
            decode_utf8_encode_utf8(raw);
        }
    }
}

/// Decodes a value type.
pub fn value_type(input: &[u8], pos: usize) -> (r: Result<(ValueType, usize), ParseError>)
    ensures
        agrees(r, spec_value_type(input@, pos as int)),
        advances(r, pos, input@.len()),
{
    let (b, next) = byte(input, pos)?;
    let v = ValueType::try_from(b)?;
    Ok((v, next))
}

/// Decodes an entry of the type section.
pub fn function_type(input: &[u8], pos: usize) -> (r: Result<(WasmType, usize), ParseError>)
    ensures
        agrees_view(r, spec_function_type(input@, pos as int)),
        advances(r, pos, input@.len()),
{
    let (form, at) = byte(input, pos)?;
    if form != FUNCTION_TYPE {
        return Err(ParseError::UnknownTypeForm);
    }
    assert((|s: Seq<u8>, p: int| spec_value_type(s, p)) =~= (|s: Seq<u8>, p: int|
        ValueType::spec_decode(s, p)));
    let (inputs, mid) = vector::<ValueType>(input, at)?;
    let (outputs, next) = vector::<ValueType>(input, mid)?;
    assert(views(inputs@) =~= inputs@);
    assert(views(outputs@) =~= outputs@);
    Ok((WasmType::Function(FunctionType { inputs, outputs }), next))
}

/// Decodes limits.
pub fn limits(input: &[u8], pos: usize) -> (r: Result<((usize, Option<usize>), usize), ParseError>)
    ensures
        agrees(r, spec_limits(input@, pos as int)),
        advances(r, pos, input@.len()),
{
    let (flag, at) = byte(input, pos)?;
    if flag == 0 {
        let (min, next) = index(input, at)?;
        Ok(((min, None), next))
    } else if flag == 1 {
        let (min, mid) = index(input, at)?;
        let (max, next) = index(input, mid)?;
        Ok(((min, Some(max)), next))
    } else {
        Err(ParseError::UnknownLimitsFlag)
    }
}

/// Decodes a memory.
pub fn memory(input: &[u8], pos: usize) -> (r: Result<(WasmMemory, usize), ParseError>)
    ensures
        agrees(r, spec_memory(input@, pos as int)),
        advances(r, pos, input@.len()),
{
    let ((min, max), next) = limits(input, pos)?;
    Ok((WasmMemory { min_pages: min, max_pages: max }, next))
}

/// Decodes a table.
pub fn table(input: &[u8], pos: usize) -> (r: Result<(Table, usize), ParseError>)
    ensures
        agrees(r, spec_table(input@, pos as int)),
        advances(r, pos, input@.len()),
{
    let (element_type, at) = byte(input, pos)?;
    if element_type != FUNCREF {
        return Err(ParseError::UnknownElementType);
    }
    let ((min, max), next) = limits(input, at)?;
    Ok((Table { element_type, min, max }, next))
}

/// Decodes the type of a global.
pub fn global_type(input: &[u8], pos: usize) -> (r: Result<((ValueType, bool), usize), ParseError>)
    ensures
        agrees(r, spec_global_type(input@, pos as int)),
        advances(r, pos, input@.len()),
{
    let (value_type, at) = value_type(input, pos)?;
    let (mutability, next) = byte(input, at)?;
    Ok(((value_type, mutability == 1), next))
}

/// Decodes a global.
pub fn global(input: &[u8], pos: usize) -> (r: Result<(Global, usize), ParseError>)
    ensures
        agrees_view(r, spec_global(input@, pos as int)),
        advances(r, pos, input@.len()),
{
    let ((value_type, is_mutable), at) = global_type(input, pos)?;
    let (expression, next) = expression(input, at)?;
    Ok((Global { value_type, is_mutable, expression }, next))
}

/// Decodes an export.
pub fn export<'p>(input: &'p [u8], pos: usize) -> (r: Result<
    (WasmExportView<'p>, usize),
    ParseError,
>)
    ensures
        agrees_view(r, spec_export(input@, pos as int)),
        advances(r, pos, input@.len()),
{
    let (name, at) = name(input, pos)?;
    let (b, mid) = byte(input, at)?;
    let kind = match ExternalKind::decode(b) {
        Some(kind) => kind,
        None => { return Err(ParseError::UnknownExportKind); },
    };
    let (index, next) = index(input, mid)?;
    let e = ExportView { name, index };
    let export = match kind {
        ExternalKind::Function => WasmExportView::Function(e),
        ExternalKind::Table => WasmExportView::Table(e),
        ExternalKind::Memory => WasmExportView::Memory(e),
        ExternalKind::Global => WasmExportView::Global(e),
    };
    Ok((export, next))
}

/// Decodes an import.
pub fn import<'p>(input: &'p [u8], pos: usize) -> (r: Result<
    (WasmImportView<'p>, usize),
    ParseError,
>)
    ensures
        agrees_view(r, spec_import(input@, pos as int)),
        advances(r, pos, input@.len()),
{
    let (module_name, at) = name(input, pos)?;
    let (name, mid) = name(input, at)?;
    let (b, start) = byte(input, mid)?;
    let kind = match ExternalKind::decode(b) {
        Some(kind) => kind,
        None => { return Err(ParseError::UnknownImportKind); },
    };
    match kind {
        ExternalKind::Function => {
            let (type_index, next) = index(input, start)?;
            Ok((WasmImportView::Function(FunctionImportView { module_name, name, type_index }), next))
        },
        ExternalKind::Table => {
            let (t, next) = table(input, start)?;
            Ok(
                (
                    WasmImportView::Table(
                        TableImportView {
                            module_name,
                            name,
                            element_type: t.element_type,
                            min: t.min,
                            max: t.max,
                        },
                    ),
                    next,
                ),
            )
        },
        ExternalKind::Memory => {
            let (m, next) = memory(input, start)?;
            Ok(
                (
                    WasmImportView::Memory(
                        MemoryImportView {
                            module_name,
                            name,
                            min_pages: m.min_pages,
                            max_pages: m.max_pages,
                        },
                    ),
                    next,
                ),
            )
        },
        ExternalKind::Global => {
            let ((value_type, is_mutable), next) = global_type(input, start)?;
            Ok(
                (
                    WasmImportView::Global(
                        GlobalImportView { module_name, name, value_type, is_mutable },
                    ),
                    next,
                ),
            )
        },
    }
}

/// Decodes an element segment.
pub fn element(input: &[u8], pos: usize) -> (r: Result<(WasmElement, usize), ParseError>)
    ensures
        agrees_view(r, spec_element(input@, pos as int)),
        advances(r, pos, input@.len()),
{
    let (table, at) = index(input, pos)?;
    let (expression, mid) = expression(input, at)?;
    assert((|s: Seq<u8>, p: int| spec_index(s, p)) =~= (|s: Seq<u8>, p: int|
        usize::spec_decode(s, p)));
    let (functions, next) = vector::<usize>(input, mid)?;
    assert(views(functions@) =~= functions@);
    Ok((WasmElement { table, expression, functions }, next))
}

/// Decodes a run of locals.
pub fn local(input: &[u8], pos: usize) -> (r: Result<((u32, ValueType), usize), ParseError>)
    ensures
        agrees(r, spec_local(input@, pos as int)),
        advances(r, pos, input@.len()),
{
    let (count, at) = wasm_u32(input, pos)?;
    let (value_type, next) = value_type(input, at)?;
    Ok(((count, value_type), next))
}

/// Decodes the body of a function.
pub fn code_block(input: &[u8], pos: usize) -> (r: Result<(CodeBlock, usize), ParseError>)
    ensures
        agrees_view(r, spec_code_block(input@, pos as int)),
        advances(r, pos, input@.len()),
{
    let (_, at) = wasm_u32(input, pos)?;
    assert((|s: Seq<u8>, p: int| spec_local(s, p)) =~= (|s: Seq<u8>, p: int|
        <(u32, ValueType)>::spec_decode(s, p)));
    let (locals, mid) = vector::<(u32, ValueType)>(input, at)?;
    assert(views(locals@) =~= locals@);
    let (code, next) = expression(input, mid)?;
    Ok((CodeBlock { locals, code }, next))
}

/// Decodes a data segment and borrows its bytes.
pub fn data_block<'p>(input: &'p [u8], pos: usize) -> (r: Result<
    (DataBlockView<'p>, usize),
    ParseError,
>)
    ensures
        agrees_view(r, spec_data_block(input@, pos as int)),
        advances(r, pos, input@.len()),
{
    let (memory, at) = index(input, pos)?;
    let (offset_expression, mid) = expression(input, at)?;
    let (data, next) = byte_vec(input, mid)?;
    Ok((DataBlockView { memory, offset_expression, data }, next))
}

impl<'p> Decode<'p> for ValueType {
    open spec fn spec_decode(s: Seq<u8>, pos: int) -> Result<(ValueType, int), ParseError> {
        spec_value_type(s, pos)
    }

    fn decode(input: &'p [u8], pos: usize) -> (r: Result<(ValueType, usize), ParseError>) {
        value_type(input, pos)
    }
}

impl<'p> Decode<'p> for WasmType {
    open spec fn spec_decode(s: Seq<u8>, pos: int) -> Result<(FunctionTypeModel, int), ParseError> {
        spec_function_type(s, pos)
    }

    fn decode(input: &'p [u8], pos: usize) -> (r: Result<(WasmType, usize), ParseError>) {
        function_type(input, pos)
    }
}

impl<'p> Decode<'p> for WasmImportView<'p> {
    open spec fn spec_decode(s: Seq<u8>, pos: int) -> Result<(ImportModel, int), ParseError> {
        spec_import(s, pos)
    }

    fn decode(input: &'p [u8], pos: usize) -> (r: Result<(WasmImportView<'p>, usize), ParseError>) {
        import(input, pos)
    }
}

impl<'p> Decode<'p> for Table {
    open spec fn spec_decode(s: Seq<u8>, pos: int) -> Result<(Table, int), ParseError> {
        spec_table(s, pos)
    }

    fn decode(input: &'p [u8], pos: usize) -> (r: Result<(Table, usize), ParseError>) {
        table(input, pos)
    }
}

impl<'p> Decode<'p> for WasmMemory {
    open spec fn spec_decode(s: Seq<u8>, pos: int) -> Result<(WasmMemory, int), ParseError> {
        spec_memory(s, pos)
    }

    fn decode(input: &'p [u8], pos: usize) -> (r: Result<(WasmMemory, usize), ParseError>) {
        memory(input, pos)
    }
}

impl<'p> Decode<'p> for Global {
    open spec fn spec_decode(s: Seq<u8>, pos: int) -> Result<(GlobalModel, int), ParseError> {
        spec_global(s, pos)
    }

    fn decode(input: &'p [u8], pos: usize) -> (r: Result<(Global, usize), ParseError>) {
        global(input, pos)
    }
}

impl<'p> Decode<'p> for WasmExportView<'p> {
    open spec fn spec_decode(s: Seq<u8>, pos: int) -> Result<(ExportModel, int), ParseError> {
        spec_export(s, pos)
    }

    fn decode(input: &'p [u8], pos: usize) -> (r: Result<(WasmExportView<'p>, usize), ParseError>) {
        export(input, pos)
    }
}

impl<'p> Decode<'p> for WasmElement {
    open spec fn spec_decode(s: Seq<u8>, pos: int) -> Result<(ElementModel, int), ParseError> {
        spec_element(s, pos)
    }

    fn decode(input: &'p [u8], pos: usize) -> (r: Result<(WasmElement, usize), ParseError>) {
        element(input, pos)
    }
}

impl<'p> Decode<'p> for (u32, ValueType) {
    open spec fn spec_decode(s: Seq<u8>, pos: int) -> Result<((u32, ValueType), int), ParseError> {
        spec_local(s, pos)
    }

    fn decode(input: &'p [u8], pos: usize) -> (r: Result<((u32, ValueType), usize), ParseError>) {
        local(input, pos)
    }
}

impl<'p> Decode<'p> for CodeBlock {
    open spec fn spec_decode(s: Seq<u8>, pos: int) -> Result<(CodeBlockModel, int), ParseError> {
        spec_code_block(s, pos)
    }

    fn decode(input: &'p [u8], pos: usize) -> (r: Result<(CodeBlock, usize), ParseError>) {
        code_block(input, pos)
    }
}

impl<'p> Decode<'p> for DataBlockView<'p> {
    open spec fn spec_decode(s: Seq<u8>, pos: int) -> Result<(DataBlockModel, int), ParseError> {
        spec_data_block(s, pos)
    }

    fn decode(input: &'p [u8], pos: usize) -> (r: Result<(DataBlockView<'p>, usize), ParseError>) {
        data_block(input, pos)
    }
}

/// Decodes the section with the given id from its contents, all of them.
pub fn section_body<'p>(id: u8, body: &'p [u8]) -> (r: Result<SectionView<'p>, ParseError>)
    ensures
        match r {
            Ok(section) => spec_section_body(id, body@) == Ok::<SectionModel, ParseError>(section@),
            Err(e) => spec_section_body(id, body@) == Err::<SectionModel, ParseError>(e),
        },
{
    if id == 0 {
        reveal(spec_custom_section);
        let (name, next) = name(body, 0)?;
        let data = slice_subrange(body, next, body.len());
        return Ok(SectionView::Custom(CustomSectionView { name, data }));
    }
    let (section, next) = if id == 1 {
        reveal(spec_type_section);
        assert((|s: Seq<u8>, p: int| spec_function_type(s, p)) =~= (|s: Seq<u8>, p: int|
            <WasmType>::spec_decode(s, p)));
        let (types, next) = vector::<WasmType>(body, 0)?;
        (SectionView::Type(TypeSection { types }), next)
    } else if id == 2 {
        reveal(spec_import_section);
        assert((|s: Seq<u8>, p: int| spec_import(s, p)) =~= (|s: Seq<u8>, p: int|
            <WasmImportView<'p>>::spec_decode(s, p)));
        let (imports, next) = vector::<WasmImportView<'p>>(body, 0)?;
        (SectionView::Import(ImportSectionView { imports }), next)
    } else if id == 3 {
        reveal(spec_function_section);
        assert((|s: Seq<u8>, p: int| spec_u32(s, p)) =~= (|s: Seq<u8>, p: int|
            <u32>::spec_decode(s, p)));
        let (function_types, next) = vector::<u32>(body, 0)?;
        assert(views(function_types@) =~= function_types@);
        (SectionView::Function(FunctionSection { function_types }), next)
    } else if id == 4 {
        reveal(spec_table_section);
        assert((|s: Seq<u8>, p: int| spec_table(s, p)) =~= (|s: Seq<u8>, p: int|
            <Table>::spec_decode(s, p)));
        let (tables, next) = vector::<Table>(body, 0)?;
        assert(views(tables@) =~= tables@);
        (SectionView::Table(TableSection { tables }), next)
    } else if id == 5 {
        reveal(spec_memory_section);
        assert((|s: Seq<u8>, p: int| spec_memory(s, p)) =~= (|s: Seq<u8>, p: int|
            <WasmMemory>::spec_decode(s, p)));
        let (memories, next) = vector::<WasmMemory>(body, 0)?;
        assert(views(memories@) =~= memories@);
        (SectionView::Memory(MemorySection { memories }), next)
    } else if id == 6 {
        reveal(spec_global_section);
        assert((|s: Seq<u8>, p: int| spec_global(s, p)) =~= (|s: Seq<u8>, p: int|
            <Global>::spec_decode(s, p)));
        let (globals, next) = vector::<Global>(body, 0)?;
        (SectionView::Global(GlobalSection { globals }), next)
    } else if id == 7 {
        reveal(spec_export_section);
        assert((|s: Seq<u8>, p: int| spec_export(s, p)) =~= (|s: Seq<u8>, p: int|
            <WasmExportView<'p>>::spec_decode(s, p)));
        let (exports, next) = vector::<WasmExportView<'p>>(body, 0)?;
        (SectionView::Export(ExportSectionView { exports }), next)
    } else if id == 8 {
        reveal(spec_start_section);
        let (start_function, next) = index(body, 0)?;
        (SectionView::Start(StartSection { start_function }), next)
    } else if id == 9 {
        reveal(spec_element_section);
        assert((|s: Seq<u8>, p: int| spec_element(s, p)) =~= (|s: Seq<u8>, p: int|
            <WasmElement>::spec_decode(s, p)));
        let (elements, next) = vector::<WasmElement>(body, 0)?;
        (SectionView::Element(ElementSection { elements }), next)
    } else if id == 10 {
        reveal(spec_code_section);
        assert((|s: Seq<u8>, p: int| spec_code_block(s, p)) =~= (|s: Seq<u8>, p: int|
            <CodeBlock>::spec_decode(s, p)));
        let (code_blocks, next) = vector::<CodeBlock>(body, 0)?;
        (SectionView::Code(CodeSection { code_blocks }), next)
    } else if id == 11 {
        reveal(spec_data_section);
        assert((|s: Seq<u8>, p: int| spec_data_block(s, p)) =~= (|s: Seq<u8>, p: int|
            <DataBlockView<'p>>::spec_decode(s, p)));
        let (data_blocks, next) = vector::<DataBlockView<'p>>(body, 0)?;
        (SectionView::Data(DataSectionView { data_blocks }), next)
    } else {
        return Err(ParseError::UnknownSection);
    };
    if next == body.len() {
        Ok(section)
    } else {
        Err(ParseError::SectionLength)
    }
}

/// Decodes the section at `pos`.
pub fn section<'p>(input: &'p [u8], pos: usize) -> (r: Result<(SectionView<'p>, usize), ParseError>)
    ensures
        agrees_view(r, spec_section(input@, pos as int)),
        advances(r, pos, input@.len()),
{
    reveal(spec_section);
    let (id, at) = byte(input, pos)?;
    if id > LAST_SECTION {
        return Err(ParseError::UnknownSection);
    }
    let (len, start) = wasm_u32(input, at)?;
    let (body, next) = take(input, start, len as usize)?;
    let section = section_body(id, body)?;
    Ok((section, next))
}

} // verus!
