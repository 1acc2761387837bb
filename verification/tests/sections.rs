use watson::sections::{
    code_block, data_block, element, export, function_type, global, import, limits, local,
    memory, section, section_body, table, value_type,
};
use watson::{
    parse, parse_module, CodeBlock, CodeSection, CustomSectionView, DataBlockView,
    DataSectionView, ElementSection, ExportSectionView, ExportView, FunctionImportView,
    FunctionSection, FunctionType, Global, GlobalImportView, GlobalSection, ImportSectionView,
    Instruction, MemoryImportView, MemorySection, ParseError, Program, ProgramView, Section,
    SectionView, StartSection, Table, TableImportView, TableSection, TypeSection, ValueType,
    WasmElement, WasmExportView, WasmImportView, WasmMemory, WasmType,
};

fn preamble() -> Vec<u8> {
    vec![0x00, 0x61, 0x73, 0x6d, 0x01, 0x00, 0x00, 0x00]
}

fn framed(id: u8, body: &[u8]) -> Vec<u8> {
    assert!(body.len() < 128);
    let mut out = vec![id, body.len() as u8];
    out.extend_from_slice(body);
    out
}

fn module(sections: &[Vec<u8>]) -> Vec<u8> {
    let mut out = preamble();
    for s in sections {
        out.extend_from_slice(s);
    }
    out
}

fn type_section_bytes() -> Vec<u8> {
    framed(1, &[0x02, 0x60, 0x02, 0x7F, 0x7E, 0x01, 0x7D, 0x60, 0x00, 0x01, 0x7C])
}

fn type_section() -> TypeSection {
    TypeSection {
        types: vec![
            WasmType::Function(FunctionType {
                inputs: vec![ValueType::I32, ValueType::I64],
                outputs: vec![ValueType::F32],
            }),
            WasmType::Function(FunctionType { inputs: vec![], outputs: vec![ValueType::F64] }),
        ],
    }
}

fn import_section_bytes() -> Vec<u8> {
    framed(
        2,
        &[
            0x04, 0x03, b'e', b'n', b'v', 0x01, b'f', 0x00, 0x01, 0x03, b'e', b'n', b'v', 0x01,
            b't', 0x01, 0x70, 0x01, 0x01, 0x0A, 0x03, b'e', b'n', b'v', 0x01, b'm', 0x02, 0x00,
            0x02, 0x03, b'e', b'n', b'v', 0x01, b'g', 0x03, 0x7E, 0x01,
        ],
    )
}

fn import_section() -> ImportSectionView<'static> {
    ImportSectionView {
        imports: vec![
            WasmImportView::Function(FunctionImportView {
                module_name: "env",
                name: "f",
                type_index: 1,
            }),
            WasmImportView::Table(TableImportView {
                module_name: "env",
                name: "t",
                element_type: 0x70,
                min: 1,
                max: Some(10),
            }),
            WasmImportView::Memory(MemoryImportView {
                module_name: "env",
                name: "m",
                min_pages: 2,
                max_pages: None,
            }),
            WasmImportView::Global(GlobalImportView {
                module_name: "env",
                name: "g",
                value_type: ValueType::I64,
                is_mutable: true,
            }),
        ],
    }
}

fn export_section_bytes() -> Vec<u8> {
    framed(
        7,
        &[
            0x04, 0x04, b'm', b'a', b'i', b'n', 0x00, 0x01, 0x03, b't', b'a', b'b', 0x01, 0x00,
            0x03, b'm', b'e', b'm', 0x02, 0x00, 0x01, b'g', 0x03, 0x02,
        ],
    )
}

fn export_section() -> ExportSectionView<'static> {
    ExportSectionView {
        exports: vec![
            WasmExportView::Function(ExportView { name: "main", index: 1 }),
            WasmExportView::Table(ExportView { name: "tab", index: 0 }),
            WasmExportView::Memory(ExportView { name: "mem", index: 0 }),
            WasmExportView::Global(ExportView { name: "g", index: 2 }),
        ],
    }
}

fn code_section_bytes() -> Vec<u8> {
    framed(
        10,
        &[
            0x02, 0x02, 0x00, 0x0B, 0x09, 0x02, 0x02, 0x7F, 0x01, 0x7C, 0x20, 0x00, 0x1A, 0x0B,
        ],
    )
}

fn code_section() -> CodeSection {
    CodeSection {
        code_blocks: vec![
            CodeBlock { locals: vec![], code: vec![] },
            CodeBlock {
                locals: vec![(2, ValueType::I32), (1, ValueType::F64)],
                code: vec![Instruction::LocalGet(0), Instruction::Drop],
            },
        ],
    }
}

fn data_section_bytes() -> Vec<u8> {
    framed(11, &[0x01, 0x00, 0x41, 0x10, 0x0B, 0x03, 0xDE, 0xAD, 0xFF])
}

fn all_sections_bytes() -> Vec<u8> {
    module(&[
        framed(0, &[0x04, b'n', b'a', b'm', b'e', 0x01, 0x02, 0x03]),
        type_section_bytes(),
        import_section_bytes(),
        framed(3, &[0x02, 0x00, 0x01]),
        framed(4, &[0x01, 0x70, 0x00, 0x05]),
        framed(5, &[0x02, 0x00, 0x01, 0x01, 0x01, 0x80, 0x02]),
        framed(6, &[0x01, 0x7F, 0x00, 0x41, 0x2A, 0x0B]),
        export_section_bytes(),
        framed(8, &[0x01]),
        framed(9, &[0x01, 0x00, 0x41, 0x00, 0x0B, 0x02, 0x00, 0x01]),
        code_section_bytes(),
        data_section_bytes(),
    ])
}

#[test]
fn a_module_with_every_section() {
    let bytes = all_sections_bytes();
    let program = parse(&bytes).unwrap();
    let expected = ProgramView {
        sections: vec![
            SectionView::Custom(CustomSectionView { name: "name", data: &[0x01, 0x02, 0x03] }),
            SectionView::Type(type_section()),
            SectionView::Import(import_section()),
            SectionView::Function(FunctionSection { function_types: vec![0, 1] }),
            SectionView::Table(TableSection {
                tables: vec![Table { element_type: 0x70, min: 5, max: None }],
            }),
            SectionView::Memory(MemorySection {
                memories: vec![
                    WasmMemory { min_pages: 1, max_pages: None },
                    WasmMemory { min_pages: 1, max_pages: Some(256) },
                ],
            }),
            SectionView::Global(GlobalSection {
                globals: vec![Global {
                    value_type: ValueType::I32,
                    is_mutable: false,
                    expression: vec![Instruction::I32Const(42)],
                }],
            }),
            SectionView::Export(export_section()),
            SectionView::Start(StartSection { start_function: 1 }),
            SectionView::Element(ElementSection {
                elements: vec![WasmElement {
                    table: 0,
                    expression: vec![Instruction::I32Const(0)],
                    functions: vec![0, 1],
                }],
            }),
            SectionView::Code(code_section()),
            SectionView::Data(DataSectionView {
                data_blocks: vec![DataBlockView {
                    memory: 0,
                    offset_expression: vec![Instruction::I32Const(16)],
                    data: &[0xDE, 0xAD, 0xFF],
                }],
            }),
        ],
    };
    assert_eq!(program, expected);
}

#[test]
fn sections_keep_their_number_and_order() {
    let bytes = module(&[
        framed(8, &[0x02]),
        framed(0, &[0x01, b'a']),
        framed(3, &[0x00]),
        framed(8, &[0x03]),
        framed(0, &[0x01, b'b', 0x09]),
        framed(3, &[0x00]),
    ]);
    let program = parse(&bytes).unwrap();
    let ids: Vec<u8> = program
        .sections
        .iter()
        .map(|s| match s {
            SectionView::Custom(_) => 0,
            SectionView::Function(_) => 3,
            SectionView::Start(_) => 8,
            _ => 255,
        })
        .collect();
    assert_eq!(ids, vec![8, 0, 3, 8, 0, 3]);
    assert_eq!(program.sections[0], SectionView::Start(StartSection { start_function: 2 }));
    assert_eq!(program.sections[3], SectionView::Start(StartSection { start_function: 3 }));
    assert_eq!(
        program.sections[4],
        SectionView::Custom(CustomSectionView { name: "b", data: &[0x09] })
    );
}

#[test]
fn the_copy_of_a_view_is_the_owned_module() {
    let bytes = all_sections_bytes();
    let view = parse(&bytes).unwrap();
    let copy = view.to_owned();
    let direct = Program::parse(&bytes).unwrap();
    assert_eq!(copy, direct);
    assert_eq!(copy.sections.len(), 12);
    match (&copy.sections[0], &copy.sections[7], &copy.sections[11]) {
        (Section::Custom(c), Section::Export(e), Section::Data(d)) => {
            assert_eq!(c.name, "name");
            assert_eq!(c.data, vec![0x01, 0x02, 0x03]);
            assert_eq!(e.exports.len(), 4);
            assert_eq!(d.data_blocks[0].data, vec![0xDE, 0xAD, 0xFF]);
            assert_eq!(d.data_blocks[0].offset_expression, vec![Instruction::I32Const(16)]);
        }
        other => panic!("{:?}", other),
    }
    match (&copy.sections[1], &copy.sections[2], &copy.sections[10]) {
        (Section::Type(t), Section::Import(i), Section::Code(c)) => {
            assert_eq!(*t, type_section());
            assert_eq!(i.imports.len(), 4);
            assert_eq!(*c, code_section());
        }
        other => panic!("{:?}", other),
    }
}

#[test]
fn the_copy_outlives_the_input() {
    let copy = {
        let bytes = module(&[export_section_bytes()]);
        let view = parse(&bytes).unwrap();
        view.to_owned()
    };
    match &copy.sections[0] {
        Section::Export(e) => match &e.exports[0] {
            watson::WasmExport::Function(f) => {
                assert_eq!(f.name, "main");
                assert_eq!(f.index, 1);
            }
            other => panic!("{:?}", other),
        },
        other => panic!("{:?}", other),
    }
}

#[test]
fn decoding_twice_gives_the_same() {
    let bytes = all_sections_bytes();
    assert_eq!(parse(&bytes), parse(&bytes));
    assert_eq!(parse(&bytes), parse(&bytes.clone()));
    let broken = module(&[framed(8, &[0x02]), framed(1, &[0x01, 0x61])]);
    assert_eq!(parse(&broken), parse(&broken));
    assert_eq!(parse(&broken), Err("unknown type"));
}

#[test]
fn inputs_without_the_header_are_refused() {
    assert_eq!(parse(&[]), Err("invalid magic number"));
    assert_eq!(parse(&[0x00, 0x61, 0x73]), Err("invalid magic number"));
    assert_eq!(parse(&[0x00, 0x61, 0x73, 0x6e, 0x01, 0x00, 0x00, 0x00]), Err("invalid magic number"));
    assert_eq!(parse(&[0x01, 0x61, 0x73, 0x6d, 0x01, 0x00, 0x00, 0x00]), Err("invalid magic number"));
    assert_eq!(parse(&[0x00, 0x61, 0x73, 0x6d]), Err("unsupported version"));
    assert_eq!(parse(&[0x00, 0x61, 0x73, 0x6d, 0x01, 0x00, 0x00]), Err("unsupported version"));
    assert_eq!(parse(&[0x00, 0x61, 0x73, 0x6d, 0x02, 0x00, 0x00, 0x00]), Err("unsupported version"));
    assert_eq!(parse(&[0x00, 0x61, 0x73, 0x6d, 0x01, 0x00, 0x00, 0x01]), Err("unsupported version"));
    assert_eq!(
        parse_module(&[0x00, 0x61, 0x73, 0x6d, 0x01, 0x00, 0x00, 0x01, 0x08, 0x01, 0x00]),
        Err((ProgramView { sections: vec![] }, ParseError::BadVersion))
    );
    assert_eq!(
        Program::parse(&[0x7F, 0x45, 0x4C, 0x46]),
        Err((Program { sections: vec![] }, "invalid magic number"))
    );
}

#[test]
fn the_sections_in_front_of_an_error_come_back() {
    let bytes = module(&[framed(8, &[0x07]), framed(3, &[0x01, 0x05]), framed(12, &[])]);
    let expected = vec![
        SectionView::Start(StartSection { start_function: 7 }),
        SectionView::Function(FunctionSection { function_types: vec![5] }),
    ];
    assert_eq!(
        parse_module(&bytes),
        Err((ProgramView { sections: expected }, ParseError::UnknownSection))
    );
    assert_eq!(parse(&bytes), Err("unknown section"));
    assert_eq!(
        Program::parse(&bytes),
        Err((
            Program {
                sections: vec![
                    Section::Start(StartSection { start_function: 7 }),
                    Section::Function(FunctionSection { function_types: vec![5] }),
                ]
            },
            "unknown section"
        ))
    );
}

#[test]
fn a_section_has_to_fill_its_length() {
    assert_eq!(parse(&module(&[framed(8, &[0x00, 0x00])])), Err("section length mismatch"));
    assert_eq!(parse(&module(&[framed(3, &[0x01, 0x00, 0x00])])), Err("section length mismatch"));
    assert_eq!(parse(&module(&[framed(1, &[0x00, 0x60])])), Err("section length mismatch"));
    assert_eq!(section_body(8, &[0x00, 0x00]), Err(ParseError::SectionLength));
    assert_eq!(section_body(8, &[0x80, 0x00]), Ok(SectionView::Start(StartSection { start_function: 0 })));
}

#[test]
fn a_section_cannot_reach_beyond_its_length() {
    let mut bytes = preamble();
    bytes.extend_from_slice(&[0x03, 0x02, 0x02, 0x00]);
    bytes.extend_from_slice(&[0x08, 0x01, 0x00]);
    assert_eq!(parse(&bytes), Err("unexpected end of input"));
    let mut bytes = preamble();
    bytes.extend_from_slice(&[0x01, 0x05, 0x01]);
    assert_eq!(parse(&bytes), Err("unexpected end of input"));
    let mut bytes = preamble();
    bytes.extend_from_slice(&[0x01]);
    assert_eq!(parse(&bytes), Err("unexpected end of input"));
    let mut bytes = preamble();
    bytes.extend_from_slice(&[0x00, 0x02, 0x05, b'a']);
    assert_eq!(parse(&bytes), Err("unexpected end of input"));
}

#[test]
fn a_section_at_a_position() {
    let bytes = module(&[framed(8, &[0x04]), framed(3, &[0x01, 0x02])]);
    assert_eq!(section(&bytes, 8), Ok((SectionView::Start(StartSection { start_function: 4 }), 11)));
    assert_eq!(
        section(&bytes, 11),
        Ok((SectionView::Function(FunctionSection { function_types: vec![2] }), 15))
    );
    assert_eq!(section(&bytes, 15), Err(ParseError::UnexpectedEnd));
    assert_eq!(section(&[0x0C, 0x00], 0), Err(ParseError::UnknownSection));
    assert_eq!(section(&[0xFF], 0), Err(ParseError::UnknownSection));
    assert_eq!(section(&[0x08, 0xFF, 0xFF, 0xFF, 0xFF, 0x7F], 0), Err(ParseError::LebOverflow));
    assert_eq!(section_body(12, &[]), Err(ParseError::UnknownSection));
}

#[test]
fn unknown_sections_are_refused() {
    assert_eq!(parse(&module(&[framed(12, &[0x01])])), Err("unknown section"));
    assert_eq!(parse(&module(&[framed(0x7F, &[])])), Err("unknown section"));
}

#[test]
fn a_custom_section_keeps_what_follows_its_name() {
    assert_eq!(
        section_body(0, &[0x02, b'h', b'i']),
        Ok(SectionView::Custom(CustomSectionView { name: "hi", data: &[] }))
    );
    assert_eq!(
        section_body(0, &[0x00, 0xFF, 0xFE]),
        Ok(SectionView::Custom(CustomSectionView { name: "", data: &[0xFF, 0xFE] }))
    );
    assert_eq!(section_body(0, &[0x01, 0xFF]), Err(ParseError::InvalidUtf8));
    assert_eq!(section_body(0, &[]), Err(ParseError::UnexpectedEnd));
    assert_eq!(parse(&module(&[framed(0, &[0x02, 0xC3, 0x28])])), Err("invalid utf-8"));
}

#[test]
fn names_that_are_not_utf8_are_refused() {
    assert_eq!(parse(&module(&[framed(7, &[0x01, 0x01, 0xFF, 0x00, 0x00])])), Err("invalid utf-8"));
    assert_eq!(
        parse(&module(&[framed(2, &[0x01, 0x01, 0x80, 0x01, b'f', 0x00, 0x00])])),
        Err("invalid utf-8")
    );
    assert_eq!(
        parse(&module(&[framed(2, &[0x01, 0x01, b'm', 0x01, 0xFE, 0x00, 0x00])])),
        Err("invalid utf-8")
    );
    let named = module(&[framed(7, &[0x01, 0x02, 0xC3, 0xA9, 0x00, 0x00])]);
    match &parse(&named).unwrap().sections[0] {
        SectionView::Export(e) => assert_eq!(
            e.exports,
            vec![WasmExportView::Function(ExportView { name: "\u{e9}", index: 0 })]
        ),
        other => panic!("{:?}", other),
    }
}

#[test]
fn entries_of_the_type_section() {
    assert_eq!(value_type(&[0x7F], 0), Ok((ValueType::I32, 1)));
    assert_eq!(value_type(&[0x40], 0), Err(ParseError::UnknownValueType));
    assert_eq!(value_type(&[], 0), Err(ParseError::UnexpectedEnd));
    assert_eq!(
        function_type(&[0x60, 0x01, 0x7F, 0x01, 0x7E], 0),
        Ok((
            WasmType::Function(FunctionType {
                inputs: vec![ValueType::I32],
                outputs: vec![ValueType::I64]
            }),
            5
        ))
    );
    assert_eq!(function_type(&[0x61, 0x00, 0x00], 0), Err(ParseError::UnknownTypeForm));
    assert_eq!(function_type(&[0x60, 0x01, 0x00, 0x00], 0), Err(ParseError::UnknownValueType));
    assert_eq!(function_type(&[0x60, 0x00, 0x01, 0x70], 0), Err(ParseError::UnknownValueType));
    assert_eq!(parse(&module(&[framed(1, &[0x01, 0x40, 0x00, 0x00])])), Err("unknown type"));
    assert_eq!(
        parse(&module(&[framed(1, &[0x01, 0x60, 0x01, 0x6F, 0x00])])),
        Err("unknown value type")
    );
}

#[test]
fn limits_memories_and_tables() {
    assert_eq!(limits(&[0x00, 0x03], 0), Ok(((3, None), 2)));
    assert_eq!(limits(&[0x01, 0x03, 0x80, 0x01], 0), Ok(((3, Some(128)), 4)));
    assert_eq!(limits(&[0x01, 0x05, 0x02], 0), Ok(((5, Some(2)), 3)));
    assert_eq!(limits(&[0x02, 0x03], 0), Err(ParseError::UnknownLimitsFlag));
    assert_eq!(limits(&[0x01, 0x03], 0), Err(ParseError::UnexpectedEnd));
    assert_eq!(memory(&[0x00, 0x11], 0), Ok((WasmMemory { min_pages: 17, max_pages: None }, 2)));
    assert_eq!(
        table(&[0x70, 0x01, 0x00, 0x04], 0),
        Ok((Table { element_type: 0x70, min: 0, max: Some(4) }, 4))
    );
    assert_eq!(table(&[0x6F, 0x00, 0x00], 0), Err(ParseError::UnknownElementType));
    assert_eq!(
        parse(&module(&[framed(4, &[0x01, 0x7F, 0x00, 0x00])])),
        Err("unknown table element type")
    );
    assert_eq!(parse(&module(&[framed(5, &[0x01, 0x03, 0x00])])), Err("unknown limits flag"));
}

#[test]
fn globals() {
    assert_eq!(
        global(&[0x7E, 0x01, 0x42, 0x7F, 0x0B], 0),
        Ok((
            Global {
                value_type: ValueType::I64,
                is_mutable: true,
                expression: vec![Instruction::I64Const(-1)]
            },
            5
        ))
    );
    assert_eq!(
        global(&[0x7D, 0x00, 0x23, 0x00, 0x0B], 0),
        Ok((
            Global {
                value_type: ValueType::F32,
                is_mutable: false,
                expression: vec![Instruction::GlobalGet(0)]
            },
            5
        ))
    );
    assert_eq!(global(&[0x7B, 0x00, 0x0B], 0), Err(ParseError::UnknownValueType));
    assert_eq!(global(&[0x7F, 0x00, 0xFC, 0x0B], 0), Err(ParseError::UnknownExpression));
}

#[test]
fn exports_and_imports() {
    assert_eq!(
        export(&[0x01, b'f', 0x00, 0x05], 0),
        Ok((WasmExportView::Function(ExportView { name: "f", index: 5 }), 4))
    );
    assert_eq!(
        export(&[0x01, b'g', 0x03, 0x00], 0),
        Ok((WasmExportView::Global(ExportView { name: "g", index: 0 }), 4))
    );
    assert_eq!(export(&[0x01, b'f', 0x04, 0x05], 0), Err(ParseError::UnknownExportKind));
    assert_eq!(
        import(&[0x01, b'a', 0x01, b'b', 0x02, 0x01, 0x01, 0x02], 0),
        Ok((
            WasmImportView::Memory(MemoryImportView {
                module_name: "a",
                name: "b",
                min_pages: 1,
                max_pages: Some(2)
            }),
            8
        ))
    );
    assert_eq!(
        import(&[0x01, b'a', 0x01, b'b', 0x03, 0x7F, 0x00], 0),
        Ok((
            WasmImportView::Global(GlobalImportView {
                module_name: "a",
                name: "b",
                value_type: ValueType::I32,
                is_mutable: false
            }),
            7
        ))
    );
    assert_eq!(
        import(&[0x01, b'a', 0x01, b'b', 0x04, 0x00], 0),
        Err(ParseError::UnknownImportKind)
    );
    assert_eq!(
        import(&[0x01, b'a', 0x01, b'b', 0x01, 0x00, 0x00, 0x00], 0),
        Err(ParseError::UnknownElementType)
    );
    assert_eq!(
        parse(&module(&[framed(7, &[0x01, 0x00, 0x09, 0x00])])),
        Err("unknown export kind")
    );
    assert_eq!(
        parse(&module(&[framed(2, &[0x01, 0x00, 0x00, 0x09, 0x00])])),
        Err("unknown import kind")
    );
}

#[test]
fn elements_code_and_data() {
    assert_eq!(
        element(&[0x00, 0x41, 0x02, 0x0B, 0x03, 0x07, 0x08, 0x09], 0),
        Ok((
            WasmElement {
                table: 0,
                expression: vec![Instruction::I32Const(2)],
                functions: vec![7, 8, 9]
            },
            8
        ))
    );
    assert_eq!(local(&[0x03, 0x7C], 0), Ok(((3, ValueType::F64), 2)));
    assert_eq!(local(&[0x03, 0x00], 0), Err(ParseError::UnknownValueType));
    assert_eq!(
        code_block(&[0x63, 0x01, 0x02, 0x7E, 0x01, 0x0B, 0xAA], 0),
        Ok((CodeBlock { locals: vec![(2, ValueType::I64)], code: vec![Instruction::Nop] }, 6))
    );
    assert_eq!(
        data_block(&[0x00, 0x41, 0x00, 0x0B, 0x02, 0x01, 0x02, 0x03], 0),
        Ok((
            DataBlockView {
                memory: 0,
                offset_expression: vec![Instruction::I32Const(0)],
                data: &[0x01, 0x02]
            },
            7
        ))
    );
    assert_eq!(
        data_block(&[0x00, 0x41, 0x00, 0x0B, 0x04, 0x01, 0x02, 0x03], 0),
        Err(ParseError::UnexpectedEnd)
    );
}

#[test]
fn a_count_larger_than_the_input_is_refused() {
    assert_eq!(
        parse(&module(&[framed(3, &[0xFF, 0xFF, 0xFF, 0xFF, 0x0F, 0x00])])),
        Err("unexpected end of input")
    );
    assert_eq!(
        parse(&module(&[framed(3, &[0xFF, 0xFF, 0xFF, 0xFF, 0x1F])])),
        Err("leb128 overflow")
    );
}

#[test]
fn nesting_too_deep_in_a_module() {
    let mut code = Vec::new();
    for _ in 0..1025 {
        code.extend_from_slice(&[0x02, 0x40]);
    }
    let mut bytes = preamble();
    bytes.extend_from_slice(&[0x0A, 0x85, 0x10, 0x01, 0x00, 0x00]);
    bytes.extend_from_slice(&code);
    assert_eq!(parse(&bytes), Err("nesting too deep"));
}
