use wasm_vm::error::Error;
use wasm_vm::module::Module;
use wasm_vm::types::{
    Export, ExportDesc, FuncType, Function, FunctionLocal, Instruction, Opcode, SectionCode,
    ValueType,
};

const FUNC_LOCAL: &str = "(module (func (local i32) (local i64 i64)))";
const FUNC_ADD: &str =
    "(module (func (param i32 i32) (result i32) (local.get 0) (local.get 1) i32.add))";
const FUNC_EXPORT_START_I64ADD: &str = "(module (func (export \"_start\") (param i64 i64) (result i64) (local.get 0) (local.get 1) i64.add))";
const I64_CONST: &str = "(module (func (i64.const 42)))";

const HEADER: [u8; 8] = [0x00, 0x61, 0x73, 0x6D, 0x01, 0x00, 0x00, 0x00];

fn with_header(rest: &[u8]) -> Vec<u8> {
    let mut v = HEADER.to_vec();
    v.extend_from_slice(rest);
    v
}

#[test]
fn decode_simplest_module() {
    let wasm = wat::parse_str("(module)").unwrap();
    let module = Module::new(&wasm).unwrap();
    assert_eq!(module, Module::default());
}

#[test]
fn decode_simplest_func() {
    let wasm = wat::parse_str("(module (func))").unwrap();
    let module = Module::new(&wasm).unwrap();
    assert_eq!(
        module,
        Module {
            type_section: Some(vec![FuncType::default()]),
            function_section: Some(vec![0]),
            code_section: Some(vec![Function {
                locals: vec![],
                code: vec![Instruction::End],
            }]),
            ..Default::default()
        }
    );
}

#[test]
fn decode_func_param() {
    let wasm = wat::parse_str("(module (func (param i32 i64)))").unwrap();
    let module = Module::new(&wasm).unwrap();
    assert_eq!(
        module,
        Module {
            type_section: Some(vec![FuncType {
                params: vec![ValueType::I32, ValueType::I64],
                results: vec![],
            }]),
            function_section: Some(vec![0]),
            code_section: Some(vec![Function {
                locals: vec![],
                code: vec![Instruction::End],
            }]),
            ..Default::default()
        }
    );
}

#[test]
fn decode_func_local() {
    let wasm = wat::parse_str(FUNC_LOCAL).unwrap();
    let module = Module::new(&wasm).unwrap();
    assert_eq!(
        module,
        Module {
            type_section: Some(vec![FuncType::default()]),
            function_section: Some(vec![0]),
            code_section: Some(vec![Function {
                locals: vec![
                    FunctionLocal {
                        type_count: 1,
                        value_type: ValueType::I32,
                    },
                    FunctionLocal {
                        type_count: 2,
                        value_type: ValueType::I64,
                    },
                ],
                code: vec![Instruction::End],
            }]),
            ..Default::default()
        }
    );
}

#[test]
fn decode_func_add() {
    let wasm = wat::parse_str(FUNC_ADD).unwrap();
    let module = Module::new(&wasm).unwrap();
    assert_eq!(
        module,
        Module {
            type_section: Some(vec![FuncType {
                params: vec![ValueType::I32, ValueType::I32],
                results: vec![ValueType::I32],
            }]),
            function_section: Some(vec![0]),
            code_section: Some(vec![Function {
                locals: vec![],
                code: vec![
                    Instruction::LocalGet(0),
                    Instruction::LocalGet(1),
                    Instruction::I32Add,
                    Instruction::End
                ],
            }]),
            ..Default::default()
        }
    );
}

#[test]
fn decode_export_func_add() {
    let wasm = wat::parse_str(FUNC_EXPORT_START_I64ADD).unwrap();
    let module = Module::new(&wasm).unwrap();
    assert_eq!(
        module,
        Module {
            type_section: Some(vec![FuncType {
                params: vec![ValueType::I64, ValueType::I64],
                results: vec![ValueType::I64],
            }]),
            function_section: Some(vec![0]),
            code_section: Some(vec![Function {
                locals: vec![],
                code: vec![
                    Instruction::LocalGet(0),
                    Instruction::LocalGet(1),
                    Instruction::I64Add,
                    Instruction::End
                ],
            }]),
            export_section: Some(vec![Export {
                name: "_start".to_string(),
                desc: ExportDesc::Func(0),
            }]),
            ..Default::default()
        }
    );
}

#[test]
fn decode_i64_const() {
    let wasm = wat::parse_str(I64_CONST).unwrap();
    let module = Module::new(&wasm).unwrap();
    assert_eq!(
        module,
        Module {
            type_section: Some(vec![FuncType {
                params: vec![],
                results: vec![],
            }]),
            function_section: Some(vec![0]),
            code_section: Some(vec![Function {
                locals: vec![],
                code: vec![Instruction::I64Const(42), Instruction::End],
            }]),
            ..Default::default()
        }
    );
}

#[test]
fn header_only_keeps_version_and_has_no_sections() {
    let mut bytes = HEADER.to_vec();
    bytes[4] = 0x02;
    bytes[5] = 0x01;
    let module = Module::new(&bytes).unwrap();
    assert_eq!(module, Module::empty(0x0102));
    assert_eq!(module.magic, "\0asm");
    assert!(module.type_section.is_none());
    assert!(module.function_section.is_none());
    assert!(module.code_section.is_none());
    assert!(module.export_section.is_none());
}

#[test]
fn bad_magic_is_rejected() {
    assert_eq!(Module::new(&[0x00, 0x61, 0x73]), Err(Error::BadMagic));
    assert_eq!(
        Module::new(&[0x01, 0x61, 0x73, 0x6D, 1, 0, 0, 0]),
        Err(Error::BadMagic)
    );
}

#[test]
fn missing_version_is_rejected() {
    assert_eq!(
        Module::new(&[0x00, 0x61, 0x73, 0x6D, 1, 0]),
        Err(Error::UnexpectedEnd)
    );
}

#[test]
fn truncated_section_payload_is_rejected() {
    // a type section that declares 5 payload bytes but holds 2
    let bytes = with_header(&[0x01, 0x05, 0x01, 0x60]);
    assert_eq!(Module::new(&bytes), Err(Error::UnexpectedEnd));
    assert_eq!(Module::new(&bytes), Module::new(&bytes));
}

#[test]
fn unknown_section_code_is_rejected() {
    let bytes = with_header(&[0x0C, 0x00]);
    assert_eq!(Module::new(&bytes), Err(Error::UnknownSection(0x0C)));
}

#[test]
fn unsupported_section_code_is_rejected() {
    // an empty memory section
    let bytes = with_header(&[0x05, 0x01, 0x00]);
    assert_eq!(Module::new(&bytes), Err(Error::UnsupportedSection(5)));
}

#[test]
fn unknown_opcode_is_rejected() {
    // one body: no locals, then opcode 0x01
    let bytes = with_header(&[0x0A, 0x04, 0x01, 0x02, 0x00, 0x01]);
    assert_eq!(Module::new(&bytes), Err(Error::UnknownOpcode(0x01)));
}

#[test]
fn unknown_value_type_is_rejected() {
    let bytes = with_header(&[0x01, 0x05, 0x01, 0x60, 0x01, 0x7D, 0x00]);
    assert_eq!(Module::new(&bytes), Err(Error::UnknownValueType(0x7D)));
}

#[test]
fn truncated_varint_is_rejected() {
    let bytes = with_header(&[0x03, 0x02, 0x01, 0x80]);
    assert_eq!(Module::new(&bytes), Err(Error::BadInteger));
}

#[test]
fn invalid_utf8_export_name_is_rejected() {
    let bytes = with_header(&[0x07, 0x05, 0x01, 0x01, 0xFF, 0x00, 0x00]);
    assert_eq!(Module::new(&bytes), Err(Error::InvalidUtf8));
}

#[test]
fn unsupported_export_kind_is_rejected() {
    let bytes = with_header(&[0x07, 0x05, 0x01, 0x01, b'm', 0x02, 0x00]);
    assert_eq!(Module::new(&bytes), Err(Error::UnsupportedExportKind(2)));
}

#[test]
fn multi_byte_immediates_are_decoded() {
    // local.get 300; i64.const -2; i64.const 624485; end
    let body = [
        0x00, 0x20, 0xAC, 0x02, 0x42, 0x7E, 0x42, 0xE5, 0x8E, 0x26, 0x0B,
    ];
    let mut payload = vec![0x01, body.len() as u8];
    payload.extend_from_slice(&body);
    let mut bytes = vec![0x0A, payload.len() as u8];
    bytes.extend_from_slice(&payload);
    let module = Module::new(&with_header(&bytes)).unwrap();
    assert_eq!(
        module.code_section,
        Some(vec![Function {
            locals: vec![],
            code: vec![
                Instruction::LocalGet(300),
                Instruction::I64Const(-2),
                Instruction::I64Const(624485),
                Instruction::End,
            ],
        }])
    );
}

#[test]
fn plain_instructions_round_trip() {
    let body = [0x00, 0x6A, 0x7C, 0x0B, 0x0B];
    let bytes = with_header(&[0x0A, 0x07, 0x01, 0x05, body[0], body[1], body[2], body[3], body[4]]);
    let module = Module::new(&bytes).unwrap();
    assert_eq!(
        module.code_section.unwrap()[0].code,
        vec![
            Instruction::I32Add,
            Instruction::I64Add,
            Instruction::End,
            Instruction::End
        ]
    );
}

#[test]
fn later_section_replaces_earlier() {
    let bytes = with_header(&[0x03, 0x02, 0x01, 0x05, 0x03, 0x02, 0x01, 0x07]);
    let module = Module::new(&bytes).unwrap();
    assert_eq!(module.function_section, Some(vec![7]));
}

#[test]
fn byte_mappings() {
    assert_eq!(ValueType::from_byte(0x7F), Some(ValueType::I32));
    assert_eq!(ValueType::from_byte(0x7E), Some(ValueType::I64));
    assert_eq!(ValueType::from_byte(0x7D), None);
    assert_eq!(Opcode::from_byte(0x0B), Some(Opcode::End));
    assert_eq!(Opcode::from_byte(0x20), Some(Opcode::LocalGet));
    assert_eq!(Opcode::from_byte(0x42), Some(Opcode::I64Const));
    assert_eq!(Opcode::from_byte(0x6A), Some(Opcode::I32Add));
    assert_eq!(Opcode::from_byte(0x7C), Some(Opcode::I64Add));
    assert_eq!(Opcode::from_byte(0x00), None);
    assert_eq!(SectionCode::from_byte(1), Some(SectionCode::Type));
    assert_eq!(SectionCode::from_byte(10), Some(SectionCode::Code));
    assert_eq!(SectionCode::from_byte(12), None);
}
