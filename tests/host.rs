use std::cell::RefCell;
use wevm::env::call_contract::{
    call_arg_binary, call_arg_bool, call_arg_int, call_payment, call_result_status, prepare_call,
};
use wevm::env::crypto::{blake2b256, keccak256, sha256};
use wevm::env::memory::{
    binary_equals, contains, drop, drop_right, join, string_equals, take, take_right, to_le_bytes,
};
use wevm::env::storage::{storage_bool, storage_bytes, storage_int};
use wevm::env::{get_asset_holder, read_memory};
use wevm::exec::Value;
use wevm::node::Node;
use wevm::runtime::data_entry::DataEntry;
use wevm::runtime::Runtime;
use wevm::vm::{Frame, Vm};
use wevm::env::Field;
use wevm::env::asset::{get_balance, transfer};
use wevm::env::converts::{parse_bool, parse_int, to_bytes, to_int, to_string_bool, to_string_int};
use wevm::env::crypto::{fast_hash, sig_verify};
use wevm::env::memory::index_of;
use wevm::env::storage::{get_storage_int, set_storage_int};
use wevm::env::tx::{contains_key, get_block_field, get_payments, payments_count};
use wevm::env::utils::caller;
use wevm::env::utils::require;
use wevm::env::utils::{base58, to_base58_string};
use wevm::env::call_contract::prepare_call_with;
use wevm::env::call_contract::registration_status;
use wevm::env::tx::payments_status;
use wevm::{Error, ExecutableError, JvmError, RuntimeError};

#[derive(Default)]
struct TestNode {
    payments: RefCell<Vec<(Vec<u8>, Vec<u8>, Vec<u8>)>>,
}

type R<T> = Result<T, Error>;

impl Node for TestNode {
    fn get_chain_id(&self) -> R<i8> {
        Ok(84)
    }
    fn get_bytecode(&self, contract_id: &[u8]) -> R<Vec<u8>> {
        if contract_id == b"two" {
            Ok(vec![0, 97, 115, 109])
        } else {
            Err(Error::Jvm(JvmError::MethodCall(String::new())))
        }
    }
    fn add_payments(&self, contract_id: &[u8], payment_id: &[u8], payments: &[u8]) -> R<()> {
        self.payments
            .borrow_mut()
            .push((contract_id.to_vec(), payment_id.to_vec(), payments.to_vec()));
        Ok(())
    }
    fn get_balance(&self, _: &[u8], _: &[u8]) -> R<i64> {
        Ok(0)
    }
    fn transfer(&self, _: &[u8], _: &[u8], _: &[u8], _: i64) -> R<()> {
        Ok(())
    }
    fn issue(&self, _: &[u8], _: &[u8], _: &[u8], _: i64, _: i64, _: bool) -> R<Vec<u8>> {
        Ok(vec![])
    }
    fn burn(&self, _: &[u8], _: &[u8], _: i64) -> R<()> {
        Ok(())
    }
    fn reissue(&self, _: &[u8], _: &[u8], _: i64, _: bool) -> R<()> {
        Ok(())
    }
    fn block(&self, _: &[u8]) -> R<Vec<u8>> {
        Ok(vec![])
    }
    fn fast_hash(&self, _: &[u8]) -> R<Vec<u8>> {
        Ok(vec![])
    }
    fn secure_hash(&self, _: &[u8]) -> R<Vec<u8>> {
        Ok(vec![])
    }
    fn sig_verify(&self, _: &[u8], _: &[u8], _: &[u8]) -> R<bool> {
        Ok(true)
    }
    fn lease(&self, _: &[u8], _: &[u8], _: i64) -> R<Vec<u8>> {
        Ok(vec![])
    }
    fn cancel_lease(&self, _: &[u8], _: &[u8]) -> R<()> {
        Ok(())
    }
    fn contains_key(&self, _: &[u8], _: &[u8]) -> R<bool> {
        Ok(false)
    }
    fn get_storage(&self, _: &[u8], _: &[u8]) -> R<Vec<u8>> {
        Ok(vec![])
    }
    fn set_storage(&self, _: &[u8], _: &[u8]) -> R<()> {
        Ok(())
    }
    fn get_tx_payments(&self, _: &[u8]) -> R<i64> {
        Ok(0)
    }
    fn get_tx_payment_asset_id(&self, _: &[u8], _: i64) -> R<Vec<u8>> {
        Ok(vec![])
    }
    fn get_tx_payment_amount(&self, _: &[u8], _: i64) -> R<i64> {
        Ok(0)
    }
    fn tx(&self, _: &[u8]) -> R<Vec<u8>> {
        Ok(vec![])
    }
    fn require(&self, _: &[u8]) -> R<()> {
        Ok(())
    }
}

#[test]
fn byte_string_equality_and_search() {
    let memory = b"abcabcxyz";
    assert_eq!(binary_equals(memory, 0, 3, 3, 3), (0, 1));
    assert_eq!(binary_equals(memory, 0, 3, 6, 3), (0, 0));
    assert_eq!(binary_equals(memory, 0, 3, 8, 3), (102, 0));
    assert_eq!(string_equals(memory, 0, 3, 3, 3), (0, 1));
    assert_eq!(string_equals(&[0xff, 0x61], 0, 1, 1, 1), (302, 0));
    assert_eq!(contains(memory, 0, 9, 6, 3), (0, 1));
    assert_eq!(contains(memory, 0, 6, 6, 3), (0, 0));
    assert_eq!(contains(memory, 0, 2, 0, 3), (0, 0));
    assert_eq!(contains(memory, 0, 9, 0, 0), (0, 1));
    assert_eq!(contains(memory, 0, 10, 0, 1), (102, 0));
}

#[test]
fn slicing_offsets() {
    assert_eq!(drop(10, 5, 2), (0, 12, 3));
    assert_eq!(drop(10, 5, 6), (305, 0, 0));
    assert_eq!(drop(10, 5, -1), (305, 0, 0));
    assert_eq!(drop_right(10, 5, 2), (0, 10, 3));
    assert_eq!(take(10, 5, 2), (0, 10, 2));
    assert_eq!(take(10, 5, 1 << 40), (305, 0, 0));
    assert_eq!(take_right(10, 5, 2), (0, 13, 2));
    assert_eq!(take_right(10, 5, 7), (305, 0, 0));
}

#[test]
fn results_written_at_heap_base() {
    let mut memory = [0u8; 32];
    memory[0..4].copy_from_slice(b"abcd");
    let mut runtime = Runtime::new();
    runtime.set_heap_base(16);
    assert_eq!(join(&mut runtime, &mut memory, 0, 2, 2, 2), (0, 16, 4));
    assert_eq!(&memory[16..20], b"abcd");
    assert_eq!(to_le_bytes(&mut runtime, &mut memory, 0, 3), (0, 20, 3));
    assert_eq!(&memory[20..23], b"cba");
    assert_eq!(runtime.heap_base(), 23);
    assert_eq!(join(&mut runtime, &mut memory, 0, 2, 40, 2), (102, 0, 0));
    assert_eq!(runtime.heap_base(), 23);
}

#[test]
fn digests_are_written_back() {
    let mut memory = [0u8; 128];
    memory[0..3].copy_from_slice(b"abc");
    let mut runtime = Runtime::new();
    runtime.set_heap_base(8);
    assert_eq!(sha256(&mut runtime, &mut memory, 0, 3), (0, 8, 32));
    assert_eq!(
        &memory[8..12],
        &[0xba, 0x78, 0x16, 0xbf],
    );
    assert_eq!(keccak256(&mut runtime, &mut memory, 0, 0), (0, 40, 32));
    assert_eq!(&memory[40..44], &[0xc5, 0xd2, 0x46, 0x01]);
    assert_eq!(blake2b256(&mut runtime, &mut memory, 0, 3), (0, 72, 32));
    assert_ne!(&memory[72..104], &[0u8; 32]);
    assert_eq!(blake2b256(&mut runtime, &mut memory, 0, 3), (102, 0, 0));
}

#[test]
fn stored_entries_are_checked_for_type() {
    let int = DataEntry::Integer(-5).serialize(Some(b"k"));
    assert_eq!(storage_int(&int), (0, -5));
    assert_eq!(storage_bool(&int), (110, 0));
    let text = DataEntry::String(b"hi".to_vec()).serialize(Some(b"k"));
    assert_eq!(storage_bytes(&text, false), Some(b"hi".to_vec()));
    assert_eq!(storage_bytes(&text, true), None);
    assert_eq!(storage_int(&[1, 2]), (110, 0));
}

#[test]
fn asset_holder_from_codes() {
    assert_eq!(get_asset_holder(0, 2, 84, vec![5]), Ok(vec![0, 2, 84, 5]));
    assert_eq!(
        get_asset_holder(3, 1, 84, vec![5]),
        Err(Error::Runtime(RuntimeError::AssetHolderTypeNotFound))
    );
    assert_eq!(
        get_asset_holder(1, 3, 84, vec![5]),
        Err(Error::Runtime(RuntimeError::AddressVersionNotFound))
    );
    assert_eq!(read_memory(&[1, 2, 3], 1, 2), Some(vec![2, 3]));
    assert_eq!(read_memory(&[1, 2, 3], 2, 2), None);
}

#[test]
fn callee_result_must_be_one_status() {
    assert_eq!(call_result_status(&Ok(vec![Value::I32(7)])), 7);
    assert_eq!(call_result_status(&Ok(vec![])), 303);
    assert_eq!(call_result_status(&Ok(vec![Value::I64(0)])), 303);
    assert_eq!(call_result_status(&Ok(vec![Value::I32(0), Value::I32(0)])), 303);
    assert_eq!(
        call_result_status(&Err(Error::Executable(ExecutableError::StackOverflow))),
        112
    );
}

#[test]
fn two_calls_into_the_same_contract_get_distinct_payment_ids() {
    let node = TestNode::default();
    let mut vm = Vm::new(b"one".to_vec(), vec![], (1, 1), 10);
    let mut runtime = Runtime::new();
    let memory = b"twosum".to_vec();

    call_arg_int(&mut runtime, 1);
    call_arg_bool(&mut runtime, 1);
    assert_eq!(call_arg_binary(&mut runtime, &memory, 0, 3), 0);
    assert_eq!(call_payment(&mut runtime, &memory, 0, 0, 42), 0);
    let first = prepare_call(&mut runtime, &mut vm, &node, &memory, 0, 3, 3, 3, None)
        .unwrap_or_else(|code| panic!("call failed: {}", code));
    assert_eq!(first.callee, b"two".to_vec());
    assert_eq!(first.func_name, "sum");
    assert_eq!(first.bytecode, vec![0, 97, 115, 109]);
    assert_eq!(&first.params[0..2], &[0, 3]);
    assert_eq!(first.nonce, 1);
    assert_eq!(first.payment_id, b"two\0\0\0\0\0\0\0\x01".to_vec());

    let second = prepare_call(&mut runtime, &mut vm, &node, &memory, 0, 3, 3, 3, None)
        .unwrap_or_else(|code| panic!("call failed: {}", code));
    assert_eq!(second.params, vec![0, 0]);
    assert_eq!(second.nonce, 2);
    assert_ne!(first.payment_id, second.payment_id);

    let registered = node.payments.borrow();
    assert_eq!(registered.len(), 1);
    assert_eq!(registered[0].0, b"one".to_vec());
    assert_eq!(registered[0].1, first.payment_id);
    assert_eq!(registered[0].2, vec![0, 1, 0, 0, 0, 0, 0, 0, 0, 0, 42]);
}

#[test]
fn call_preparation_failures() {
    let node = TestNode::default();
    let mut vm = Vm::new(b"one".to_vec(), vec![], (1, 1), 10);
    let mut runtime = Runtime::new();
    let memory = b"twosum\xff".to_vec();
    assert_eq!(
        prepare_call(&mut runtime, &mut vm, &node, &memory, 5, 9, 3, 3, None).err(),
        Some(102)
    );
    assert_eq!(
        prepare_call(&mut runtime, &mut vm, &node, &memory, 3, 3, 3, 3, None).err(),
        Some(203)
    );
    assert_eq!(
        prepare_call(&mut runtime, &mut vm, &node, &memory, 0, 3, 6, 1, None).err(),
        Some(302)
    );
    let explicit = prepare_call(&mut runtime, &mut vm, &node, &memory, 0, 3, 3, 3, Some((3, 3)))
        .unwrap_or_else(|code| panic!("call failed: {}", code));
    assert_eq!(explicit.params, b"sum".to_vec());
    vm.push_frame(Frame::new(b"two".to_vec(), vec![], explicit.nonce))
        .expect("pushed");
    assert_eq!(vm.depth(), 1);
    vm.pop_frame();
    assert_eq!(vm.depth(), 0);
}

#[test]
fn conversions_between_text_bytes_and_numbers() {
    let memory = b"-42true\xffx".to_vec();
    assert_eq!(parse_int(&memory, 0, 3), (0, -42));
    assert_eq!(parse_int(&memory, 3, 4), (308, 0));
    assert_eq!(parse_int(&memory, 7, 1), (302, 0));
    assert_eq!(parse_bool(&memory, 3, 4), (0, 1));
    assert_eq!(parse_bool(&memory, 0, 3), (308, 0));
    assert_eq!(parse_bool(&memory, 9, 4), (102, 0));

    let mut out = [0u8; 64];
    let mut runtime = Runtime::new();
    assert_eq!(to_string_int(&mut runtime, &mut out, -1234), (0, 0, 5));
    assert_eq!(&out[0..5], b"-1234");
    assert_eq!(to_string_bool(&mut runtime, &mut out, 7), (0, 5, 4));
    assert_eq!(&out[5..9], b"true");
    assert_eq!(to_string_bool(&mut runtime, &mut out, 0), (0, 9, 5));
    assert_eq!(&out[9..14], b"false");
    assert_eq!(to_bytes(&mut runtime, &mut out, 258), (0, 14, 8));
    assert_eq!(&out[14..22], &[0, 0, 0, 0, 0, 0, 1, 2]);
    assert_eq!(to_int(&out, 14, 8), (0, 258));
    assert_eq!(to_int(&out, 14, 7), (305, 0));
}

#[test]
fn substring_positions() {
    let memory = b"abcabcbc".to_vec();
    assert_eq!(index_of(false, &memory, 0, 8, 6, 2), (0, 1));
    assert_eq!(index_of(true, &memory, 0, 8, 6, 2), (0, 6));
    assert_eq!(index_of(false, &memory, 0, 3, 3, 3), (0, 0));
    assert_eq!(index_of(false, &memory, 0, 2, 2, 1), (0, -1));
    assert_eq!(index_of(false, &[0xff], 0, 1, 0, 1), (302, 0));
}

#[test]
fn base58_both_ways() {
    let mut memory = [0u8; 64];
    memory[0..3].copy_from_slice(&[0, 1, 2]);
    let mut runtime = Runtime::new();
    runtime.set_heap_base(16);
    assert_eq!(to_base58_string(&mut runtime, &mut memory, 0, 3), (0, 16, 3));
    assert_eq!(&memory[16..19], b"15T");
    assert_eq!(base58(&mut runtime, &mut memory, 16, 3), (0, 19, 3));
    assert_eq!(&memory[19..22], &[0, 1, 2]);
    memory[30] = b'0';
    assert_eq!(base58(&mut runtime, &mut memory, 30, 1), (304, 0, 0));
}

#[test]
fn caller_of_the_running_frame() {
    let mut vm = Vm::new(b"one".to_vec(), vec![], (1, 1), 10);
    vm.push_frame(Frame::new(b"two".to_vec(), vec![], 1)).expect("pushed");
    let mut memory = [0u8; 16];
    let mut runtime = Runtime::new();
    assert_eq!(caller(&mut runtime, &vm, &mut memory), (0, 0, 3));
    assert_eq!(&memory[0..3], b"one");
}

#[test]
fn node_backed_host_functions() {
    let node = TestNode::default();
    let vm = Vm::new(b"one".to_vec(), vec![], (1, 1), 10);
    let memory = b"assetkey\xff".to_vec();
    assert_eq!(get_balance(&vm, &node, &memory, 0, 5, 0, 5, 2, 1), (306, 0));
    assert_eq!(get_balance(&vm, &node, &memory, 0, 5, 0, 5, 0, 3), (307, 0));
    assert_eq!(get_balance(&vm, &node, &memory, 0, 5, 0, 0, 0, 1), (0, 0));
    assert_eq!(get_balance(&vm, &node, &memory, 7, 5, 0, 0, 0, 1), (102, 0));
    assert_eq!(transfer(&vm, &node, &memory, 0, 5, 0, 5, 0, 2, 10), 0);
    assert_eq!(transfer(&vm, &node, &memory, 0, 5, 0, 5, 5, 2, 10), 306);
    assert_eq!(set_storage_int(&vm, &node, &memory, 5, 3, 9), 0);
    assert_eq!(set_storage_int(&vm, &node, &memory, 5, 9, 9), 102);
    assert_eq!(get_storage_int(&vm, &node, &memory, 0, 0, 5, 3), (110, 0));
    assert_eq!(contains_key(&vm, &node, &memory, 0, 0, 5, 3), (0, 0));
    assert_eq!(get_block_field(&node, &memory, Field::String("height".to_string())), (305, 0));
    assert_eq!(payments_count(&vm, &node), (0, 0));
    assert_eq!(get_payments(&vm, &node), (0, 0));
    assert_eq!(require(&node, &memory, 0, 5), 0);
    assert_eq!(require(&node, &memory, 8, 1), 302);
    assert_eq!(sig_verify(&node, &memory, 0, 1, 1, 1, 2, 1), (0, 1));
    let mut out = [0u8; 8];
    let mut runtime = Runtime::new();
    assert_eq!(fast_hash(&mut runtime, &node, &mut out, 0, 9), (102, 0, 0));
    assert_eq!(fast_hash(&mut runtime, &node, &mut out, 0, 1), (0, 0, 0));
}

#[test]
fn explicit_parameter_blob_keeps_gathered_arguments() {
    let mut vm = Vm::new(b"one".to_vec(), vec![], (1, 1), 10);
    let mut runtime = Runtime::new();
    call_arg_int(&mut runtime, 3);
    assert_eq!(call_payment(&mut runtime, b"x", 0, 1, 5), 0);
    let memory = b"sumblob".to_vec();
    let call = prepare_call_with(&mut runtime, &mut vm, &memory, b"two".to_vec(), vec![1], 0, 3, Some((3, 4)))
        .unwrap_or_else(|code| panic!("call failed: {}", code));
    assert_eq!(call.params, b"blob".to_vec());
    assert_eq!(call.caller, b"one".to_vec());
    assert_eq!(call.payments, Some(vec![0, 1, 1, b'x', 0, 0, 0, 0, 0, 0, 0, 5]));
    assert_eq!(runtime.params_len(), 1);
    assert_eq!(runtime.take_payments(), None);
    assert_eq!(
        prepare_call_with(&mut runtime, &mut vm, &memory, b"two".to_vec(), vec![], 0, 3, Some((5, 9)))
            .err(),
        Some(102)
    );
    assert_eq!(vm.get_nonce(), 2);
}

#[test]
fn node_answers_become_statuses() {
    assert_eq!(registration_status(Ok(())), Ok(()));
    assert_eq!(
        registration_status(Err(Error::Jvm(JvmError::MethodCall(String::new())))),
        Err(203)
    );
    assert_eq!(payments_status(Ok(3)), (0, 3));
    assert_eq!(payments_status(Ok(1 << 40)), (305, 0));
    assert_eq!(payments_status(Err(Error::Jvm(JvmError::ReceiveLong))), (212, 0));
}

#[test]
fn overlong_base58_text_is_refused() {
    let mut memory = [b'1'; 300];
    let mut runtime = Runtime::new();
    runtime.set_heap_base(200);
    assert_eq!(base58(&mut runtime, &mut memory, 0, 133), (304, 0, 0));
    assert_eq!(base58(&mut runtime, &mut memory, 0, 4), (0, 200, 4));
    assert_eq!(&memory[200..204], &[0, 0, 0, 0]);
}
