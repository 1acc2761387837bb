use watson::bytes::{
    bits32, bits64, byte, byte_vec, index, many_n, name, tag, take, vector, Decode,
};
use watson::leb::{wasm_i32, wasm_i64, wasm_u32};
use watson::{value_type_to_string, ParseError, ValueType};

#[test]
fn unsigned_values() {
    assert_eq!(wasm_u32(&[0x00], 0), Ok((0, 1)));
    assert_eq!(wasm_u32(&[0x7F], 0), Ok((127, 1)));
    assert_eq!(wasm_u32(&[0x80, 0x01], 0), Ok((128, 2)));
    assert_eq!(wasm_u32(&[0xE5, 0x8E, 0x26], 0), Ok((624485, 3)));
    assert_eq!(wasm_u32(&[0xFF, 0xFF, 0xFF, 0xFF, 0x0F], 0), Ok((u32::MAX, 5)));
}

#[test]
fn unsigned_value_at_an_offset_leaves_the_rest() {
    assert_eq!(wasm_u32(&[0xAA, 0x05, 0x06], 1), Ok((5, 2)));
    assert_eq!(wasm_u32(&[0xAA, 0x85, 0x01, 0x06], 1), Ok((133, 3)));
}

#[test]
fn unsigned_value_with_padding_is_accepted() {
    assert_eq!(wasm_u32(&[0x80, 0x00], 0), Ok((0, 2)));
    assert_eq!(wasm_u32(&[0x81, 0x80, 0x80, 0x80, 0x00], 0), Ok((1, 5)));
}

#[test]
fn unsigned_value_that_does_not_fit_is_refused() {
    assert_eq!(wasm_u32(&[0xFF, 0xFF, 0xFF, 0xFF, 0x10], 0), Err(ParseError::LebOverflow));
    assert_eq!(wasm_u32(&[0x80, 0x80, 0x80, 0x80, 0x7F], 0), Err(ParseError::LebOverflow));
}

#[test]
fn integers_of_too_many_bytes_are_refused() {
    let six = [0x80, 0x80, 0x80, 0x80, 0x80, 0x00];
    assert_eq!(wasm_u32(&six, 0), Err(ParseError::LebOverflow));
    assert_eq!(wasm_i32(&six, 0), Err(ParseError::LebOverflow));
    let five_and_no_more = [0x80, 0x80, 0x80, 0x80, 0x80];
    assert_eq!(wasm_u32(&five_and_no_more, 0), Err(ParseError::LebOverflow));
    assert_eq!(wasm_i32(&five_and_no_more, 0), Err(ParseError::LebOverflow));
    let mut eleven = vec![0x80; 10];
    eleven.push(0x00);
    assert_eq!(wasm_i64(&eleven, 0), Err(ParseError::LebOverflow));
    assert_eq!(wasm_i64(&eleven[..10], 0), Err(ParseError::LebOverflow));
}

#[test]
fn integers_that_run_off_the_end_are_refused() {
    assert_eq!(wasm_u32(&[], 0), Err(ParseError::UnexpectedEnd));
    assert_eq!(wasm_u32(&[0x80], 0), Err(ParseError::UnexpectedEnd));
    assert_eq!(wasm_u32(&[0x01], 1), Err(ParseError::UnexpectedEnd));
    assert_eq!(wasm_u32(&[0x01], 7), Err(ParseError::UnexpectedEnd));
    assert_eq!(wasm_i32(&[0xFF, 0xFF], 0), Err(ParseError::UnexpectedEnd));
    assert_eq!(wasm_i64(&[0xFF, 0xFF, 0xFF, 0xFF, 0xFF, 0xFF], 0), Err(ParseError::UnexpectedEnd));
    assert_eq!(wasm_i64(&[], 3), Err(ParseError::UnexpectedEnd));
}

#[test]
fn signed_32_bit_values() {
    assert_eq!(wasm_i32(&[0x00], 0), Ok((0, 1)));
    assert_eq!(wasm_i32(&[0x2A], 0), Ok((42, 1)));
    assert_eq!(wasm_i32(&[0x3F], 0), Ok((63, 1)));
    assert_eq!(wasm_i32(&[0x40], 0), Ok((-64, 1)));
    assert_eq!(wasm_i32(&[0x7F], 0), Ok((-1, 1)));
    assert_eq!(wasm_i32(&[0x80, 0x01], 0), Ok((128, 2)));
    assert_eq!(wasm_i32(&[0xC0, 0xBB, 0x78], 0), Ok((-123456, 3)));
    assert_eq!(wasm_i32(&[0xFF, 0xFF, 0xFF, 0xFF, 0x07], 0), Ok((i32::MAX, 5)));
    assert_eq!(wasm_i32(&[0x80, 0x80, 0x80, 0x80, 0x78], 0), Ok((i32::MIN, 5)));
}

#[test]
fn signed_32_bit_value_of_five_bytes_is_reduced() {
    assert_eq!(wasm_i32(&[0x80, 0x80, 0x80, 0x80, 0x08], 0), Ok((i32::MIN, 5)));
    assert_eq!(wasm_i32(&[0x81, 0x80, 0x80, 0x80, 0x70], 0), Ok((1, 5)));
}

#[test]
fn signed_64_bit_values() {
    assert_eq!(wasm_i64(&[0x00], 0), Ok((0, 1)));
    assert_eq!(wasm_i64(&[0x7F], 0), Ok((-1, 1)));
    assert_eq!(wasm_i64(&[0xC0, 0xBB, 0x78], 0), Ok((-123456, 3)));
    assert_eq!(wasm_i64(&[0x80, 0x80, 0x80, 0x80, 0x10], 0), Ok((1 << 32, 5)));
    let mut max = vec![0xFF; 9];
    max.push(0x00);
    assert_eq!(wasm_i64(&max, 0), Ok((i64::MAX, 10)));
    let mut min = vec![0x80; 9];
    min.push(0x7F);
    assert_eq!(wasm_i64(&min, 0), Ok((i64::MIN, 10)));
}

#[test]
fn a_byte_and_a_run_of_bytes() {
    let input = [1u8, 2, 3, 4];
    assert_eq!(byte(&input, 0), Ok((1, 1)));
    assert_eq!(byte(&input, 3), Ok((4, 4)));
    assert_eq!(byte(&input, 4), Err(ParseError::UnexpectedEnd));
    assert_eq!(take(&input, 1, 2), Ok((&input[1..3], 3)));
    assert_eq!(take(&input, 4, 0), Ok((&input[4..4], 4)));
    assert_eq!(take(&input, 2, 3), Err(ParseError::UnexpectedEnd));
    assert_eq!(take(&input, 5, 0), Err(ParseError::UnexpectedEnd));
    assert_eq!(take(&input, 1, usize::MAX), Err(ParseError::UnexpectedEnd));
}

#[test]
fn a_fixed_tag() {
    let input = [9u8, 0, 0x61, 0x73, 0x6d];
    assert_eq!(tag(&input, 1, &[0, 0x61, 0x73, 0x6d]), Some(5));
    assert_eq!(tag(&input, 1, &[0, 0x61]), Some(3));
    assert_eq!(tag(&input, 1, &[]), Some(1));
    assert_eq!(tag(&input, 0, &[0, 0x61]), None);
    assert_eq!(tag(&input, 3, &[0x73, 0x6d, 0x00]), None);
    assert_eq!(tag(&input, 6, &[]), None);
}

#[test]
fn little_endian_words() {
    let input = [0x78u8, 0x56, 0x34, 0x12, 0xF0, 0xDE, 0xBC, 0x9A, 0xFF];
    assert_eq!(bits32(&input, 0), Ok((0x1234_5678, 4)));
    assert_eq!(bits32(&input, 5), Ok((0xFF9A_BCDE, 9)));
    assert_eq!(bits32(&input, 6), Err(ParseError::UnexpectedEnd));
    assert_eq!(bits64(&input, 0), Ok((0x9ABC_DEF0_1234_5678, 8)));
    assert_eq!(bits64(&input, 1), Ok((0xFF9A_BCDE_F012_3456, 9)));
    assert_eq!(bits64(&input, 2), Err(ParseError::UnexpectedEnd));
    assert_eq!(bits64(&[0xFF; 8], 0), Ok((u64::MAX, 8)));
}

#[test]
fn indices_and_vectors() {
    assert_eq!(index(&[0xE5, 0x8E, 0x26], 0), Ok((624485usize, 3)));
    assert_eq!(vector::<u32>(&[0x00], 0), Ok((vec![], 1)));
    assert_eq!(vector::<u32>(&[0x03, 0x01, 0x80, 0x01, 0x02, 0x09], 0), Ok((vec![1, 128, 2], 5)));
    assert_eq!(vector::<u32>(&[0x03, 0x01, 0x02], 0), Err(ParseError::UnexpectedEnd));
    assert_eq!(vector::<usize>(&[0x07, 0x02, 0x05, 0x06], 1), Ok((vec![5, 6], 4)));
    assert_eq!(u32::decode(&[0x07, 0x85, 0x01], 1), Ok((133, 3)));
    assert_eq!(usize::decode(&[0x07], 0), Ok((7, 1)));
    assert_eq!(byte_vec(&[0x02, 0xAA, 0xBB, 0xCC], 0), Ok((&[0xAAu8, 0xBB][..], 3)));
    assert_eq!(byte_vec(&[0x03, 0xAA, 0xBB], 0), Err(ParseError::UnexpectedEnd));
    assert_eq!(
        byte_vec(&[0xFF, 0xFF, 0xFF, 0xFF, 0x0F, 0x00], 0),
        Err(ParseError::UnexpectedEnd)
    );
}

#[test]
fn items_one_behind_the_other() {
    let input = [0x01u8, 0x80, 0x01, 0x02, 0x80];
    assert_eq!(many_n::<u32>(&input, 0, 0), Ok((vec![], 0)));
    assert_eq!(many_n::<u32>(&input, 0, 1), Ok((vec![1], 1)));
    assert_eq!(many_n::<u32>(&input, 0, 3), Ok((vec![1, 128, 2], 4)));
    assert_eq!(many_n::<u32>(&input, 1, 2), Ok((vec![128, 2], 4)));
    assert_eq!(many_n::<u32>(&input, 0, 4), Err(ParseError::UnexpectedEnd));
    assert_eq!(many_n::<u32>(&input, 5, 0), Ok((vec![], 5)));
    assert_eq!(many_n::<u32>(&input, 5, 1), Err(ParseError::UnexpectedEnd));
    assert_eq!(many_n::<ValueType>(&[0x7F, 0x7C], 0, 2), Ok((vec![ValueType::I32, ValueType::F64], 2)));
    assert_eq!(many_n::<ValueType>(&[0x7F, 0x00, 0x7C], 0, 3), Err(ParseError::UnknownValueType));
    assert_eq!(many_n::<u32>(&[], 0, u32::MAX), Err(ParseError::UnexpectedEnd));
}

#[test]
fn names_are_utf8() {
    assert_eq!(name(&[0x03, b'a', b'd', b'd', 0x00], 0), Ok(("add", 4)));
    assert_eq!(name(&[0x00], 0), Ok(("", 1)));
    let text = "h\u{e9}llo \u{4e16}\u{754c} \u{1F600}";
    let mut input = vec![text.len() as u8];
    input.extend_from_slice(text.as_bytes());
    assert_eq!(name(&input, 0), Ok((text, input.len())));
    assert_eq!(name(&[0x01, 0xFF], 0), Err(ParseError::InvalidUtf8));
    assert_eq!(name(&[0x02, 0xC3, 0x28], 0), Err(ParseError::InvalidUtf8));
    assert_eq!(name(&[0x03, 0xED, 0xA0, 0x80], 0), Err(ParseError::InvalidUtf8));
    assert_eq!(name(&[0x02, 0xC0, 0x80], 0), Err(ParseError::InvalidUtf8));
    assert_eq!(name(&[0x02, b'a'], 0), Err(ParseError::UnexpectedEnd));
}

#[test]
fn value_types() {
    assert_eq!(ValueType::try_from(0x7F), Ok(ValueType::I32));
    assert_eq!(ValueType::try_from(0x7E), Ok(ValueType::I64));
    assert_eq!(ValueType::try_from(0x7D), Ok(ValueType::F32));
    assert_eq!(ValueType::try_from(0x7C), Ok(ValueType::F64));
    assert_eq!(ValueType::try_from(0x7B), Err(ParseError::UnknownValueType));
    assert_eq!(ValueType::try_from(0x00), Err(ParseError::UnknownValueType));
    assert_eq!(value_type_to_string(&ValueType::I32), "I32");
    assert_eq!(value_type_to_string(&ValueType::I64), "I64");
    assert_eq!(value_type_to_string(&ValueType::F32), "F32");
    assert_eq!(value_type_to_string(&ValueType::F64), "F64");
}

#[test]
fn messages() {
    assert_eq!(ParseError::BadMagic.message(), "invalid magic number");
    assert_eq!(ParseError::BadVersion.message(), "unsupported version");
    assert_eq!(ParseError::UnexpectedEnd.message(), "unexpected end of input");
    assert_eq!(ParseError::UnknownSection.message(), "unknown section");
    assert_eq!(ParseError::SectionLength.message(), "section length mismatch");
    assert_eq!(ParseError::LebOverflow.message(), "leb128 overflow");
    assert_eq!(ParseError::InvalidUtf8.message(), "invalid utf-8");
    assert_eq!(ParseError::UnknownValueType.message(), "unknown value type");
    assert_eq!(ParseError::UnknownTypeForm.message(), "unknown type");
    assert_eq!(ParseError::UnknownImportKind.message(), "unknown import kind");
    assert_eq!(ParseError::UnknownExportKind.message(), "unknown export kind");
    assert_eq!(ParseError::UnknownElementType.message(), "unknown table element type");
    assert_eq!(ParseError::UnknownLimitsFlag.message(), "unknown limits flag");
    assert_eq!(ParseError::UnknownExpression.message(), "unknown expression");
    assert_eq!(ParseError::NestingTooDeep.message(), "nesting too deep");
    assert_eq!(watson::AccessError::NoExportSection.message(), "no export section");
    assert_eq!(watson::AccessError::NoCodeSection.message(), "no code section");
    assert_eq!(watson::AccessError::ExportNotFound.message(), "export not found");
    assert_eq!(
        watson::AccessError::CodeBlockOutOfRange.message(),
        "code block index out of range"
    );
}
