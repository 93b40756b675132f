use wasm_vm::error::Error;
use wasm_vm::module::Module;
use wasm_vm::runtime::{stack_unwind, Runtime};
use wasm_vm::store::{FuncInst, Store};
use wasm_vm::types::ValueType;
use wasm_vm::value::Value;

const FUNC_EXPORT_START_I64ADD: &str = "(module (func (export \"_start\") (param i64 i64) (result i64) (local.get 0) (local.get 1) i64.add))";

fn runtime_of(text: &str) -> Runtime {
    let wasm = wat::parse_str(text).unwrap();
    Runtime::instantiate(&wasm).unwrap()
}

#[test]
fn execute_export_start_i64add() {
    let mut runtime = runtime_of(FUNC_EXPORT_START_I64ADD);
    let tests = vec![(2, 3, 5)];
    for (lhs, rhs, want) in tests {
        let args = vec![Value::I64(lhs), Value::I64(rhs)];
        let result = runtime.call("_start", args).unwrap();
        assert_eq!(result, Some(Value::I64(want)))
    }
}

#[test]
fn execute_export_i32add() {
    let mut runtime = runtime_of(
        "(module (func (export \"add\") (param i32 i32) (result i32) (local.get 0) (local.get 1) i32.add))",
    );
    let result = runtime.call("add", vec![Value::I32(2), Value::I32(3)]).unwrap();
    assert_eq!(result, Some(Value::I32(5)));
    assert!(runtime.stack.is_empty());
}

#[test]
fn i32_add_wraps() {
    let mut runtime = runtime_of(
        "(module (func (export \"add\") (param i32 i32) (result i32) (local.get 0) (local.get 1) i32.add))",
    );
    let result = runtime
        .call("add", vec![Value::I32(i32::MAX), Value::I32(1)])
        .unwrap();
    assert_eq!(result, Some(Value::I32(i32::MIN)));
}

#[test]
fn i64_const_without_result_leaves_stack_depth() {
    let mut runtime = runtime_of("(module (func (export \"c\") (i64.const 42)))");
    runtime.stack.push(Value::I32(9));
    let result = runtime.call("c", vec![]).unwrap();
    assert_eq!(result, None);
    assert_eq!(runtime.stack, vec![Value::I32(9)]);
    assert!(runtime.call_stack.is_empty());
}

#[test]
fn declared_locals_are_flattened_and_zeroed() {
    let wasm = wat::parse_str("(module (func (local i32) (local i64 i64)))").unwrap();
    let store = Store::new(Module::new(&wasm).unwrap()).unwrap();
    let FuncInst::Internal(f) = &store.funcs[0];
    assert_eq!(
        f.code.locals,
        vec![ValueType::I32, ValueType::I64, ValueType::I64]
    );
    let mut runtime = runtime_of(
        "(module (func (export \"l\") (result i64) (local i32) (local i64 i64) (local.get 2)))",
    );
    assert_eq!(runtime.call("l", vec![]).unwrap(), Some(Value::I64(0)));
    let mut runtime = runtime_of(
        "(module (func (export \"l\") (result i32) (local i32) (local i64 i64) (local.get 0)))",
    );
    assert_eq!(runtime.call("l", vec![]).unwrap(), Some(Value::I32(0)));
}

#[test]
fn missing_export_fails_and_resets() {
    let mut runtime = runtime_of(FUNC_EXPORT_START_I64ADD);
    assert_eq!(runtime.call("nope", vec![]), Err(Error::ExportNotFound));
    assert!(runtime.stack.is_empty());
    assert!(runtime.store.funcs.is_empty());
    assert_eq!(
        runtime.call("_start", vec![Value::I64(1), Value::I64(2)]),
        Err(Error::ExportNotFound)
    );
}

#[test]
fn mismatched_operands_fail() {
    let mut runtime = runtime_of(
        "(module (func (export \"add\") (param i32 i64) (result i32) (local.get 0) (local.get 1) i32.add))",
    );
    assert_eq!(
        runtime.call("add", vec![Value::I32(1), Value::I64(2)]),
        Err(Error::TypeMismatch)
    );
    assert_eq!(Value::I32(1).add(Value::I64(2)), None);
    assert_eq!(Value::I64(1).add(Value::I32(2)), None);
}

#[test]
fn add_of_wrong_width_fails() {
    let mut runtime = runtime_of(
        "(module (func (export \"add\") (param i64 i64) (result i64) (local.get 0) (local.get 1) i32.add))",
    );
    assert_eq!(
        runtime.call("add", vec![Value::I64(1), Value::I64(2)]),
        Err(Error::TypeMismatch)
    );
}

#[test]
fn value_add_and_from() {
    assert_eq!(Value::I32(2).add(Value::I32(3)), Some(Value::I32(5)));
    assert_eq!(Value::I64(-2).add(Value::I64(3)), Some(Value::I64(1)));
    assert_eq!(
        Value::I64(i64::MAX).add(Value::I64(1)),
        Some(Value::I64(i64::MIN))
    );
    assert_eq!(Value::from(7i32), Value::I32(7));
    assert_eq!(Value::from(7i64), Value::I64(7));
    assert_eq!(Value::zero(ValueType::I64), Value::I64(0));
}

#[test]
fn missing_local_fails() {
    let mut runtime = runtime_of("(module (func (export \"f\") (local.get 3)))");
    assert_eq!(runtime.call("f", vec![]), Err(Error::LocalNotFound));
    assert!(runtime.call_stack.is_empty());
}

#[test]
fn too_few_operands_fail() {
    let mut runtime = runtime_of("(module (func (export \"f\") (i64.const 1) i64.add))");
    assert_eq!(runtime.call("f", vec![]), Err(Error::StackUnderflow));
}

#[test]
fn too_few_arguments_fail() {
    let mut runtime = runtime_of(FUNC_EXPORT_START_I64ADD);
    assert_eq!(
        runtime.call("_start", vec![Value::I64(1)]),
        Err(Error::StackUnderflow)
    );
}

#[test]
fn missing_return_value_fails() {
    let mut runtime = runtime_of("(module (func (export \"f\") (result i64)))");
    assert_eq!(runtime.call("f", vec![]), Err(Error::NoReturnValue));
}

#[test]
fn export_of_missing_function_fails() {
    // one export "f" of function 3, no functions
    let bytes = [
        0x00, 0x61, 0x73, 0x6D, 0x01, 0x00, 0x00, 0x00, 0x07, 0x05, 0x01, 0x01, b'f', 0x00, 0x03,
    ];
    let mut runtime = Runtime::instantiate(&bytes).unwrap();
    assert_eq!(runtime.call("f", vec![]), Err(Error::FuncNotFound));
}

#[test]
fn later_export_with_same_name_wins() {
    let text = "(module (func (export \"f\") (result i64) (i64.const 1)) (func (export \"g\") (result i64) (i64.const 2)))";
    let wasm = wat::parse_str(text).unwrap();
    let mut module = Module::new(&wasm).unwrap();
    let exports = module.export_section.as_mut().unwrap();
    exports[1].name = "f".to_string();
    let store = Store::new(module).unwrap();
    let mut runtime = Runtime {
        store,
        stack: vec![],
        call_stack: vec![],
    };
    assert_eq!(runtime.call("f", vec![]).unwrap(), Some(Value::I64(2)));
}

#[test]
fn store_construction_errors() {
    // function section names type 0, but there is no type section
    let bytes = [
        0x00, 0x61, 0x73, 0x6D, 0x01, 0x00, 0x00, 0x00, 0x03, 0x02, 0x01, 0x00, 0x0A, 0x04, 0x01,
        0x02, 0x00, 0x0B,
    ];
    assert_eq!(
        Runtime::instantiate(&bytes).err(),
        Some(Error::FuncTypeNotFound)
    );
    // two function entries, one body
    let bytes = [
        0x00, 0x61, 0x73, 0x6D, 0x01, 0x00, 0x00, 0x00, 0x01, 0x04, 0x01, 0x60, 0x00, 0x00, 0x03,
        0x03, 0x02, 0x00, 0x00, 0x0A, 0x04, 0x01, 0x02, 0x00, 0x0B,
    ];
    assert_eq!(
        Runtime::instantiate(&bytes).err(),
        Some(Error::FunctionCountMismatch)
    );
}

#[test]
fn unwind_keeps_one_result() {
    let mut stack = vec![Value::I32(1), Value::I32(2), Value::I32(3)];
    stack_unwind(&mut stack, 1, 1).unwrap();
    assert_eq!(stack, vec![Value::I32(1), Value::I32(3)]);
    let mut stack = vec![Value::I32(1), Value::I32(2), Value::I32(3)];
    stack_unwind(&mut stack, 1, 0).unwrap();
    assert_eq!(stack, vec![Value::I32(1)]);
    let mut stack = vec![];
    assert_eq!(stack_unwind(&mut stack, 0, 1), Err(Error::NoReturnValue));
    let mut stack = vec![Value::I32(1)];
    assert_eq!(stack_unwind(&mut stack, 2, 0), Err(Error::StackUnderflow));
    assert_eq!(stack, vec![Value::I32(1)]);
}
