use wevm::runtime::data_entry::DataEntry;
use wevm::runtime::params::Params;
use wevm::runtime::payment_id::PaymentId;
use wevm::runtime::payments::Payments;
use wevm::runtime::Runtime;
use wevm::runtime::asset_holder::{AddressVersion, AssetHolder, Type};
use wevm::vm::create_payment_id;

const PAYMENTS_BYTES: [u8; 52] = [
    0, 2, 0, 0, 0, 0, 0, 0, 0, 0, 42, 1, 1, 3, 3, 7, 1, 3, 3, 7, 1, 3, 3, 7, 1, 3, 3, 7, 1, 3, 3,
    7, 1, 3, 3, 7, 1, 3, 3, 7, 1, 3, 3, 7, 0, 0, 0, 0, 0, 0, 0, 24,
];

#[test]
fn test_serialize_payments() {
    let mut payments = Payments::default();

    payments.push(&[], 42);
    payments.push(
        &[
            1, 3, 3, 7, 1, 3, 3, 7, 1, 3, 3, 7, 1, 3, 3, 7, 1, 3, 3, 7, 1, 3, 3, 7, 1, 3, 3, 7, 1,
            3, 3, 7,
        ],
        24,
    );

    assert_eq!(payments.as_bytes(), PAYMENTS_BYTES.to_vec());
}

const PAYMENT_ID_BYTES: [u8; 72] = [
    1, 3, 3, 7, 1, 3, 3, 7, 1, 3, 3, 7, 1, 3, 3, 7, 1, 3, 3, 7, 1, 3, 3, 7, 1, 3, 3, 7, 1, 3, 3,
    7, 1, 3, 3, 7, 1, 3, 3, 7, 1, 3, 3, 7, 1, 3, 3, 7, 1, 3, 3, 7, 1, 3, 3, 7, 1, 3, 3, 7, 1, 3,
    3, 7, 0, 0, 0, 0, 0, 0, 0, 0,
];

#[test]
fn test_serialize_payment_id() {
    let bytes = vec![
        1, 3, 3, 7, 1, 3, 3, 7, 1, 3, 3, 7, 1, 3, 3, 7, 1, 3, 3, 7, 1, 3, 3, 7, 1, 3, 3, 7, 1, 3,
        3, 7, 1, 3, 3, 7, 1, 3, 3, 7, 1, 3, 3, 7, 1, 3, 3, 7, 1, 3, 3, 7, 1, 3, 3, 7, 1, 3, 3, 7,
        1, 3, 3, 7,
    ];

    let payment_id = PaymentId::new(bytes, 0);

    assert_eq!(payment_id.as_bytes(), PAYMENT_ID_BYTES.to_vec());
}

#[test]
fn payment_ids_differ_by_nonce() {
    let a = create_payment_id(vec![9, 9], 1);
    let b = create_payment_id(vec![9, 9], 2);
    assert_ne!(a, b);
    assert_eq!(a, vec![9, 9, 0, 0, 0, 0, 0, 0, 0, 1]);
    assert_eq!(b, vec![9, 9, 0, 0, 0, 0, 0, 0, 0, 2]);
    assert_eq!(
        create_payment_id(vec![], 0x0102030405060708),
        vec![1, 2, 3, 4, 5, 6, 7, 8]
    );
}

#[test]
fn payments_reset_and_empty() {
    let mut payments = Payments::new();
    assert!(payments.is_empty());
    assert_eq!(payments.as_bytes(), vec![0, 0]);
    payments.push(&[5], -1);
    assert!(!payments.is_empty());
    assert_eq!(
        payments.as_bytes(),
        vec![0, 1, 1, 5, 255, 255, 255, 255, 255, 255, 255, 255]
    );
    payments.reset();
    assert!(payments.is_empty());
}

#[test]
fn params_encode_with_count() {
    let mut params = Params::new();
    assert_eq!(params.as_bytes(), vec![0, 0]);
    params.push(DataEntry::Integer(1));
    params.push(DataEntry::Boolean(0));
    assert_eq!(params.len(), 2);
    assert_eq!(
        params.as_bytes(),
        vec![0, 2, 0, 0, 0, 0, 0, 0, 0, 0, 0, 0, 1, 0, 0, 1, 0]
    );
    params.reset();
    assert_eq!(params.len(), 0);
    assert_eq!(params.as_bytes(), vec![0, 0]);
}

#[test]
fn asset_holder_prefixes() {
    let account = AssetHolder::from_bytes(Type::Account, AddressVersion::Address, 84, vec![7]);
    assert_eq!(account.as_bytes(), vec![0, 7]);
    let alias = AssetHolder::from_bytes(Type::Account, AddressVersion::Alias, 84, vec![7]);
    assert_eq!(alias.as_bytes(), vec![0, 2, 84, 7]);
    let contract = AssetHolder::from_bytes(Type::Contract, AddressVersion::Address, 84, vec![7]);
    assert_eq!(contract.as_bytes(), vec![1, 7]);
    assert!(Type::try_from(2).is_err());
    assert!(AddressVersion::try_from(0).is_err());
    assert_eq!(Type::try_from(1), Ok(Type::Contract));
    assert_eq!(AddressVersion::try_from(2), Ok(AddressVersion::Alias));
}

#[test]
fn heap_base_advances_by_each_write() {
    let mut runtime = Runtime::new();
    runtime.set_heap_base(4);
    let mut memory = [0u8; 16];
    assert_eq!(runtime.write_memory(&mut memory, &[1, 2, 3]), (0, 4, 3));
    assert_eq!(runtime.heap_base(), 7);
    assert_eq!(runtime.write_memory(&mut memory, &[9, 9]), (0, 7, 2));
    assert_eq!(runtime.heap_base(), 9);
    assert_eq!(&memory[4..9], &[1, 2, 3, 9, 9]);
    assert_eq!(runtime.write_memory(&mut memory, &[]), (0, 9, 0));
    assert_eq!(runtime.heap_base(), 9);
}

#[test]
fn write_past_memory_fails_without_change() {
    let mut runtime = Runtime::new();
    runtime.set_heap_base(14);
    let mut memory = [0u8; 16];
    assert_eq!(runtime.write_memory(&mut memory, &[1, 2, 3]), (102, 0, 0));
    assert_eq!(runtime.heap_base(), 14);
    assert_eq!(memory, [0u8; 16]);
    assert_eq!(runtime.write_memory(&mut memory, &[1, 2]), (0, 14, 2));
}

#[test]
fn pending_lists_are_taken_once() {
    let mut runtime = Runtime::new();
    runtime.push_argument(DataEntry::Integer(5));
    runtime.push_payment(&[], 10);
    assert_eq!(runtime.params_len(), 1);
    let params = runtime.take_params();
    assert_eq!(params, vec![0, 1, 0, 0, 0, 0, 0, 0, 0, 0, 0, 0, 5]);
    assert_eq!(runtime.take_params(), vec![0, 0]);
    let payments = runtime.take_payments();
    assert_eq!(payments, Some(vec![0, 1, 0, 0, 0, 0, 0, 0, 0, 0, 10]));
    assert_eq!(runtime.take_payments(), None);
    assert!(runtime.memory().is_none());
}
