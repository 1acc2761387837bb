use watson::{
    parse, CodeBlock, CodeSection, FunctionType, Instruction, Program, ProgramView, Section,
    SectionView, StartSection, TypeSection, WasmType,
};

fn header() -> Vec<u8> {
    vec![0x00, 0x61, 0x73, 0x6d, 0x01, 0x00, 0x00, 0x00]
}

fn section(id: u8, body: &[u8]) -> Vec<u8> {
    assert!(body.len() < 128);
    let mut out = vec![id, body.len() as u8];
    out.extend_from_slice(body);
    out
}

fn module_with_body(code: &[u8]) -> Vec<u8> {
    let mut body = vec![0x00];
    body.extend_from_slice(code);
    let mut entries = vec![0x01, body.len() as u8];
    entries.extend_from_slice(&body);
    let mut out = header();
    out.extend_from_slice(&section(10, &entries));
    out
}

fn code_of(bytes: &[u8]) -> Vec<Instruction> {
    let program = parse(bytes).unwrap();
    assert_eq!(program.sections.len(), 1);
    match &program.sections[0] {
        SectionView::Code(s) => {
            assert_eq!(s.code_blocks.len(), 1);
            assert_eq!(s.code_blocks[0].locals, vec![]);
            s.code_blocks[0].code.clone()
        }
        other => panic!("not a code section: {:?}", other),
    }
}

#[test]
fn minimal_module() {
    let bytes = header();
    assert_eq!(parse(&bytes), Ok(ProgramView { sections: vec![] }));
    assert_eq!(Program::parse(&bytes), Ok(Program { sections: vec![] }));
}

#[test]
fn type_section_with_one_empty_type() {
    let mut bytes = header();
    bytes.extend_from_slice(&[0x01, 0x04, 0x01, 0x60, 0x00, 0x00]);
    let expected = TypeSection {
        types: vec![WasmType::Function(FunctionType { inputs: vec![], outputs: vec![] })],
    };
    assert_eq!(
        parse(&bytes),
        Ok(ProgramView { sections: vec![SectionView::Type(expected.clone())] })
    );
    assert_eq!(Program::parse(&bytes), Ok(Program { sections: vec![Section::Type(expected)] }));
}

#[test]
fn start_section() {
    let mut bytes = header();
    bytes.extend_from_slice(&[0x08, 0x01, 0x00]);
    assert_eq!(
        parse(&bytes),
        Ok(ProgramView { sections: vec![SectionView::Start(StartSection { start_function: 0 })] })
    );
}

#[test]
fn i32_const_and_end_in_a_code_body() {
    let bytes = module_with_body(&[0x41, 0x2A, 0x0B]);
    let expected = CodeSection {
        code_blocks: vec![CodeBlock { locals: vec![], code: vec![Instruction::I32Const(42)] }],
    };
    assert_eq!(parse(&bytes), Ok(ProgramView { sections: vec![SectionView::Code(expected)] }));
}

#[test]
fn nested_block() {
    let bytes = module_with_body(&[0x02, 0x40, 0x02, 0x40, 0x0B, 0x0B, 0x0B]);
    assert_eq!(
        code_of(&bytes),
        vec![Instruction::Block(0x40, vec![Instruction::Block(0x40, vec![])])]
    );
}

#[test]
fn if_else() {
    let bytes =
        module_with_body(&[0x41, 0x01, 0x04, 0x40, 0x41, 0x01, 0x05, 0x41, 0x02, 0x0B, 0x0B]);
    assert_eq!(
        code_of(&bytes),
        vec![
            Instruction::I32Const(1),
            Instruction::If(
                0x40,
                vec![Instruction::I32Const(1)],
                Some(vec![Instruction::I32Const(2)])
            ),
        ]
    );
}

#[test]
fn unknown_opcode() {
    let bytes = module_with_body(&[0xFC, 0x0B]);
    assert_eq!(parse(&bytes), Err("unknown expression"));
    let bytes = module_with_body(&[0x41, 0x00, 0xFC, 0x00, 0x0B]);
    assert_eq!(parse(&bytes), Err("unknown expression"));
}

#[test]
fn br_table() {
    let bytes = module_with_body(&[0x0E, 0x02, 0x00, 0x01, 0x02, 0x0B]);
    assert_eq!(code_of(&bytes), vec![Instruction::BrTable(vec![0, 1], 2)]);
}
