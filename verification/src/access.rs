//! Looking things up in a decoded module: a function by the name it is
//! exported under, and the body of a function by its index.
use crate::bytes::views;
use crate::error::AccessError;
use crate::program::{Export, Program, Section, WasmExport};
use crate::types::{CodeBlock, CodeBlockModel, ExportModel, ExternalKind, SectionModel};
use crate::view::{ExportView, ProgramView, SectionView, WasmExportView};
use vstd::prelude::*;
use vstd::string::StringSliceAdditionalSpecFns;
use vstd::utf8::encode_utf8_decode_utf8;

verus! {

/// The index of the first export section among the sections from `from` on.
pub open spec fn export_section_from(sections: Seq<SectionModel>, from: int) -> Option<int>
    decreases sections.len() - from,
{
    if from < 0 || from >= sections.len() {
        None
    } else if sections[from] is Export {
        Some(from)
    } else {
        export_section_from(sections, from + 1)
    }
}

/// The index of the first code section among the sections from `from` on.
pub open spec fn code_section_from(sections: Seq<SectionModel>, from: int) -> Option<int>
    decreases sections.len() - from,
{
    if from < 0 || from >= sections.len() {
        None
    } else if sections[from] is Code {
        Some(from)
    } else {
        code_section_from(sections, from + 1)
    }
}

/// The index of the first function among the exports from `from` on that is
/// exported under `name`.
pub open spec fn function_export_from(exports: Seq<ExportModel>, name: Seq<char>, from: int) -> Option<
    int,
>
    decreases exports.len() - from,
{
    if from < 0 || from >= exports.len() {
        None
    } else if exports[from].kind == ExternalKind::Function && exports[from].name == name {
        Some(from)
    } else {
        function_export_from(exports, name, from + 1)
    }
}

/// The function that the first export section exports under `name`, in a
/// module that has a code section.
pub open spec fn spec_find_exported_function(sections: Seq<SectionModel>, name: Seq<char>) -> Result<
    ExportModel,
    AccessError,
> {
    match export_section_from(sections, 0) {
        None => Err(AccessError::NoExportSection),
        Some(at) => if code_section_from(sections, 0) is None {
            Err(AccessError::NoCodeSection)
        } else {
            let exports = sections[at]->Export_0;
            match function_export_from(exports, name, 0) {
                None => Err(AccessError::ExportNotFound),
                Some(i) => Ok(exports[i]),
            }
        },
    }
}

/// The body with the given index in the first code section.
pub open spec fn spec_find_code_block(sections: Seq<SectionModel>, index: int) -> Result<
    CodeBlockModel,
    AccessError,
> {
    match code_section_from(sections, 0) {
        None => Err(AccessError::NoCodeSection),
        Some(at) => {
            let blocks = sections[at]->Code_0;
            if 0 <= index < blocks.len() {
                Ok(blocks[index])
            } else {
                Err(AccessError::CodeBlockOutOfRange)
            }
        },
    }
}

/// Whether two strings hold the same text.
pub fn same_text(a: &str, b: &str) -> (r: bool)
    ensures
        r == (a@ == b@),
{
    let x = a.as_bytes();
    let y = b.as_bytes();
    proof {
        encode_utf8_decode_utf8(a@);
        encode_utf8_decode_utf8(b@);
    }
    if x.len() != y.len() {
        return false;
    }
    let mut i: usize = 0;
    while i < x.len()
        invariant
            i <= x@.len(),
            x@.len() == y@.len(),
            x@ == a.spec_bytes(),
            y@ == b.spec_bytes(),
            forall|k: int| 0 <= k < i ==> x@[k] == y@[k],
        decreases x@.len() - i,
    {
        if x[i] != y[i] {
            return false;
        }
        i = i + 1;
    }
    assert(x@ =~= y@);
    true
}

impl<'p> ProgramView<'p> {
    /// The first export section, if the module has one.
    fn export_section(&self) -> (r: Option<usize>)
        ensures
            match r {
                Some(at) => export_section_from(self@, 0) == Some(at as int) && at
                    < self.sections@.len() && self.sections@[at as int] is Export,
                None => export_section_from(self@, 0) is None,
            },
    {
        let mut i: usize = 0;
        while i < self.sections.len()
            invariant
                i <= self.sections@.len(),
                export_section_from(self@, 0) == export_section_from(self@, i as int),
            decreases self.sections@.len() - i,
        {
            if let SectionView::Export(_) = &self.sections[i] {
                return Some(i);
            }
            i = i + 1;
        }
        None
    }

    /// The first code section, if the module has one.
    fn code_section(&self) -> (r: Option<usize>)
        ensures
            match r {
                Some(at) => code_section_from(self@, 0) == Some(at as int) && at
                    < self.sections@.len() && self.sections@[at as int] is Code,
                None => code_section_from(self@, 0) is None,
            },
    {
        let mut i: usize = 0;
        while i < self.sections.len()
            invariant
                i <= self.sections@.len(),
                code_section_from(self@, 0) == code_section_from(self@, i as int),
            decreases self.sections@.len() - i,
        {
            if let SectionView::Code(_) = &self.sections[i] {
                return Some(i);
            }
            i = i + 1;
        }
        None
    }

    /// Finds the function that the module exports under `name`: the first
    /// such entry of the first export section. A module without a code section
    /// exports no function.
    pub fn find_exported_function(&self, name: &str) -> (r: Result<&ExportView<'p>, AccessError>)
        ensures
            match r {
                Ok(e) => spec_find_exported_function(self@, name@) == Ok::<
                    ExportModel,
                    AccessError,
                >(ExportModel { kind: ExternalKind::Function, name: e.name@, index: e.index }),
                Err(x) => spec_find_exported_function(self@, name@) == Err::<
                    ExportModel,
                    AccessError,
                >(x),
            },
    {
        let at = match self.export_section() {
            Some(at) => at,
            None => { return Err(AccessError::NoExportSection); },
        };
        if self.code_section().is_none() {
            return Err(AccessError::NoCodeSection);
        }
        match &self.sections[at] {
            SectionView::Export(section) => {
                let mut i: usize = 0;
                while i < section.exports.len()
                    invariant
                        i <= section.exports@.len(),
                        export_section_from(self@, 0) == Some(at as int),
                        code_section_from(self@, 0) is Some,
                        self@[at as int] == SectionModel::Export(views(section.exports@)),
                        function_export_from(views(section.exports@), name@, 0)
                            == function_export_from(views(section.exports@), name@, i as int),
                    decreases section.exports@.len() - i,
                {
                    if let WasmExportView::Function(e) = &section.exports[i] {
                        if same_text(e.name, name) {
                            return Ok(e);
                        }
                    }
                    i = i + 1;
                }
                Err(AccessError::ExportNotFound)
            },
            _ => Err(AccessError::NoExportSection),
        }
    }

    /// Finds the body with the given index in the first code section.
    pub fn find_code_block(&self, index: usize) -> (r: Result<&CodeBlock, AccessError>)
        ensures
            match r {
                Ok(block) => spec_find_code_block(self@, index as int) == Ok::<
                    CodeBlockModel,
                    AccessError,
                >(block@),
                Err(x) => spec_find_code_block(self@, index as int) == Err::<
                    CodeBlockModel,
                    AccessError,
                >(x),
            },
    {
        let at = match self.code_section() {
            Some(at) => at,
            None => { return Err(AccessError::NoCodeSection); },
        };
        match &self.sections[at] {
            SectionView::Code(section) => {
                if index < section.code_blocks.len() {
                    Ok(&section.code_blocks[index])
                } else {
                    Err(AccessError::CodeBlockOutOfRange)
                }
            },
            _ => Err(AccessError::NoCodeSection),
        }
    }
}

impl Program {
    /// The first export section, if the module has one.
    fn export_section(&self) -> (r: Option<usize>)
        ensures
            match r {
                Some(at) => export_section_from(self@, 0) == Some(at as int) && at
                    < self.sections@.len() && self.sections@[at as int] is Export,
                None => export_section_from(self@, 0) is None,
            },
    {
        let mut i: usize = 0;
        while i < self.sections.len()
            invariant
                i <= self.sections@.len(),
                export_section_from(self@, 0) == export_section_from(self@, i as int),
            decreases self.sections@.len() - i,
        {
            if let Section::Export(_) = &self.sections[i] {
                return Some(i);
            }
            i = i + 1;
        }
        None
    }

    /// The first code section, if the module has one.
    fn code_section(&self) -> (r: Option<usize>)
        ensures
            match r {
                Some(at) => code_section_from(self@, 0) == Some(at as int) && at
                    < self.sections@.len() && self.sections@[at as int] is Code,
                None => code_section_from(self@, 0) is None,
            },
    {
        let mut i: usize = 0;
        while i < self.sections.len()
            invariant
                i <= self.sections@.len(),
                code_section_from(self@, 0) == code_section_from(self@, i as int),
            decreases self.sections@.len() - i,
        {
            if let Section::Code(_) = &self.sections[i] {
                return Some(i);
            }
            i = i + 1;
        }
        None
    }

    /// Finds the function that the module exports under `name`: the first
    /// such entry of the first export section. A module without a code section
    /// exports no function.
    pub fn find_exported_function(&self, name: &str) -> (r: Result<&Export, AccessError>)
        ensures
            match r {
                Ok(e) => spec_find_exported_function(self@, name@) == Ok::<
                    ExportModel,
                    AccessError,
                >(ExportModel { kind: ExternalKind::Function, name: e.name@, index: e.index }),
                Err(x) => spec_find_exported_function(self@, name@) == Err::<
                    ExportModel,
                    AccessError,
                >(x),
            },
    {
        let at = match self.export_section() {
            Some(at) => at,
            None => { return Err(AccessError::NoExportSection); },
        };
        if self.code_section().is_none() {
            return Err(AccessError::NoCodeSection);
        }
        match &self.sections[at] {
            Section::Export(section) => {
                let mut i: usize = 0;
                while i < section.exports.len()
                    invariant
                        i <= section.exports@.len(),
                        export_section_from(self@, 0) == Some(at as int),
                        code_section_from(self@, 0) is Some,
                        self@[at as int] == SectionModel::Export(views(section.exports@)),
                        function_export_from(views(section.exports@), name@, 0)
                            == function_export_from(views(section.exports@), name@, i as int),
                    decreases section.exports@.len() - i,
                {
                    if let WasmExport::Function(e) = &section.exports[i] {
                        if same_text(e.name.as_str(), name) {
                            return Ok(e);
                        }
                    }
                    i = i + 1;
                }
                Err(AccessError::ExportNotFound)
            },
            _ => Err(AccessError::NoExportSection),
        }
    }

    /// Finds the body with the given index in the first code section.
    pub fn find_code_block(&self, index: usize) -> (r: Result<&CodeBlock, AccessError>)
        ensures
            match r {
                Ok(block) => spec_find_code_block(self@, index as int) == Ok::<
                    CodeBlockModel,
                    AccessError,
                >(block@),
                Err(x) => spec_find_code_block(self@, index as int) == Err::<
                    CodeBlockModel,
                    AccessError,
                >(x),
            },
    {
        let at = match self.code_section() {
            Some(at) => at,
            None => { return Err(AccessError::NoCodeSection); },
        };
        match &self.sections[at] {
            Section::Code(section) => {
                if index < section.code_blocks.len() {
                    Ok(&section.code_blocks[index])
                } else {
                    Err(AccessError::CodeBlockOutOfRange)
                }
            },
            _ => Err(AccessError::NoCodeSection),
        }
    }
}

} // verus!
