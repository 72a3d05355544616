use wevm::exec::{check_constructor, Executable, LoadableFunction, Value, ValueType};
use wevm::vm::{Frame, Vm, MAX_FRAMES};
use wevm::{Error, ExecutableError, JvmError, RuntimeError};

fn wat2wasm(wat: &str) -> Result<Vec<u8>, wat::Error> {
    wat::parse_str(wat)
}

#[test]
fn exec_test_executable_valid_bytecode() {
    let wat = r#"
    (module
        (type $t0 (func (result i32)))
        (func $_constructor (export "_constructor") (type $t0) (result i32)
            (i32.add
                (i32.const 2)
                (i32.const 2)
            )
        )
    )
    "#;

    let bytecode = wat2wasm(wat).expect("WAT code parsing failed");
    let exec = Executable::validate_bytecode(&bytecode);

    assert!(exec.is_ok());
}

#[test]
fn exec_test_executable_invalid_bytecode() {
    let wat = r#"
    (module
        (type $t0 (func (result i32)))
        (func $run (export "run") (type $t0) (result i32)
            (i32.add
                (i32.const 2)
                (i32.const 2)
            )
        )
    )
    "#;

    let bytecode = wat2wasm(wat).expect("WAT code parsing failed");
    let exec = Executable::validate_bytecode(&bytecode);

    assert!(exec.is_err());
    assert_eq!(
        exec.unwrap_err(),
        Error::Executable(ExecutableError::ConstructorNotFound)
    );
}

#[test]
fn garbage_bytecode_is_invalid() {
    let exec = Executable::validate_bytecode(&[1, 2, 3, 4]);
    assert!(matches!(
        exec,
        Err(Error::Executable(ExecutableError::InvalidBytecode(_)))
    ));
    let mut executable = Executable::new(1, 1, 100);
    assert!(executable.load_bytecode(&[0, 1]).is_err());
    assert!(executable.module().is_err());
}

#[test]
fn loading_valid_bytecode_keeps_the_module() {
    let wat = r#"(module (func (export "_constructor")))"#;
    let bytecode = wat2wasm(wat).expect("WAT code parsing failed");
    let mut executable = Executable::new(2, 16, 1000);
    assert!(executable.module().is_err());
    executable.load_bytecode(&bytecode).expect("loads");
    assert!(executable.module().is_ok());
    assert_eq!(executable.memory_limits(), (2, 16));
    assert_eq!(executable.fuel_limit(), 1000);
}

#[test]
fn constructor_must_be_exported_exactly_once() {
    let names = vec!["run".to_string(), "_constructor".to_string()];
    assert!(check_constructor(&names).is_ok());
    let none = vec!["run".to_string()];
    assert_eq!(
        check_constructor(&none),
        Err(Error::Executable(ExecutableError::ConstructorNotFound))
    );
    let twice = vec!["_constructor".to_string(), "_constructor".to_string()];
    assert!(check_constructor(&twice).is_err());
}

#[test]
fn loadable_function_names() {
    let f = LoadableFunction::from_str("_constructor").expect("named");
    assert!(matches!(f, LoadableFunction::Constructor));
    assert_eq!(f.to_string(), "_constructor");
    let g = LoadableFunction::from_str("run").expect("named");
    assert!(matches!(g, LoadableFunction::Call(ref n) if n == "run"));
    assert_eq!(g.to_string(), "run");
}

#[test]
fn arguments_are_type_checked() {
    let types = [ValueType::I32, ValueType::I64];
    let args = vec!["7".to_string(), "-9000000000".to_string()];
    assert_eq!(
        Executable::type_check_arguments(&types, &args),
        Ok(vec![Value::I32(7), Value::I64(-9000000000)])
    );
    assert_eq!(
        Executable::type_check_arguments(&types, &args[0..1]),
        Err(Error::Executable(ExecutableError::InvalidNumArgs))
    );
    let bad = vec!["x".to_string(), "1".to_string()];
    assert!(matches!(
        Executable::type_check_arguments(&types, &bad),
        Err(Error::Executable(ExecutableError::FailedParseFuncArgs(_)))
    ));
    let too_big = vec!["4294967296".to_string(), "1".to_string()];
    assert!(Executable::type_check_arguments(&types, &too_big).is_err());
    assert!(Executable::type_check_arguments(&[ValueType::Other], &["1".to_string()]).is_err());
}

#[test]
fn results_buffer_and_heap_base() {
    assert_eq!(
        Executable::prepare_results_buffer(&[ValueType::I64, ValueType::I32]),
        vec![Value::I64(0), Value::I32(0)]
    );
    assert_eq!(Executable::heap_base_from_global(Some(Value::I32(1024))), Ok(1024));
    assert_eq!(
        Executable::heap_base_from_global(Some(Value::I64(1))),
        Err(Error::Executable(ExecutableError::HeapBaseNotFound))
    );
    assert_eq!(
        Executable::heap_base_from_global(Some(Value::I32(-1))),
        Err(Error::Executable(ExecutableError::HeapBaseNotFound))
    );
    assert_eq!(
        Executable::heap_base_from_global(None),
        Err(Error::Executable(ExecutableError::HeapBaseNotFound))
    );
}

#[test]
fn error_test_error() {
    let message: String = String::from("Error message");

    assert_eq!(
        ExecutableError::InvalidBytecode(message.clone()).as_jint(),
        100
    );
    assert_eq!(JvmError::JvmNotFound.as_jint(), 200);
    assert_eq!(RuntimeError::Exception(message.clone()).as_jint(), 300);

    assert_eq!(
        ExecutableError::InvalidBytecode(message.clone()).as_i32(),
        100
    );
    assert_eq!(JvmError::JvmNotFound.as_i32(), 200);
    assert_eq!(RuntimeError::Exception(message.clone()).as_i32(), 300);
}

#[test]
fn exec_test_error() {
    assert_eq!(ExecutableError::InvalidBytecode(String::new()).as_jint(), 100);
}

#[test]
fn error_codes_by_family() {
    assert_eq!(Error::Executable(ExecutableError::StackOverflow).as_i32(), 112);
    assert_eq!(Error::Executable(ExecutableError::FailedDeserialize).as_i32(), 110);
    assert_eq!(Error::Jvm(JvmError::ReceiveBoolean).as_i32(), 213);
    assert_eq!(Error::Runtime(RuntimeError::InvalidResult(String::new())).as_i32(), 303);
    assert_eq!(Error::Runtime(RuntimeError::ParseError).as_jint(), 308);
}

#[test]
fn stack_depth_is_bounded() {
    let mut vm = Vm::new(vec![1], vec![], (1, 1), 10);
    for i in 0..MAX_FRAMES {
        assert!(vm.push_frame(Frame::new(vec![2], vec![], i as u64)).is_ok());
    }
    assert_eq!(vm.depth(), MAX_FRAMES);
    assert_eq!(
        vm.push_frame(Frame::new(vec![3], vec![], 99)),
        Err(Error::Executable(ExecutableError::StackOverflow))
    );
    assert_eq!(vm.depth(), MAX_FRAMES);
    assert_eq!(vm.top_frame().contract_id(), vec![2]);
}

#[test]
fn frames_push_and_pop_in_balance() {
    let mut vm = Vm::new(vec![1], vec![0xaa], (2, 16), 10);
    assert_eq!(vm.top_frame().contract_id(), vec![1]);
    assert_eq!(vm.get_caller_current_frame(), Vec::<u8>::new());
    vm.push_frame(Frame::new(vec![2], vec![], 1)).expect("pushed");
    assert_eq!(vm.get_caller_current_frame(), vec![1]);
    vm.push_frame(Frame::new(vec![3], vec![], 2)).expect("pushed");
    assert_eq!(vm.get_caller_current_frame(), vec![2]);
    assert_eq!(vm.top_frame().payment_id(), vec![3, 0, 0, 0, 0, 0, 0, 0, 2]);
    assert_eq!(vm.finish_call(Ok::<i32, Error>(5)), Ok(5));
    vm.pop_frame();
    assert_eq!(vm.depth(), 0);
    vm.pop_frame();
    assert_eq!(vm.depth(), 0);
    assert_eq!(vm.top_frame().bytecode(), &vec![0xaa]);
    assert_eq!(vm.memory(), (2, 16));
    assert_eq!(vm.fuel_limit(), 10);
}

#[test]
fn nonces_increase() {
    let mut vm = Vm::new(vec![1], vec![], (1, 1), 10);
    assert_eq!(vm.get_nonce(), 1);
    assert_eq!(vm.get_nonce(), 2);
    assert!(vm.has_fresh_nonce());
}

#[test]
fn contract_settings_are_deterministic() {
    let settings = wevm::exec::engine_settings();
    assert!(!settings.floats);
    assert!(!settings.mutable_global);
    assert!(!settings.sign_extension);
    assert!(!settings.saturating_float_to_int);
    assert!(settings.multi_value);
    assert!(settings.consume_fuel);
}

#[test]
fn floating_point_modules_are_refused() {
    let wat = r#"(module (func (export "_constructor") (result f32) (f32.const 1)))"#;
    let bytecode = wat2wasm(wat).expect("WAT code parsing failed");
    assert!(matches!(
        Executable::validate_bytecode(&bytecode),
        Err(Error::Executable(ExecutableError::InvalidBytecode(_)))
    ));
}
