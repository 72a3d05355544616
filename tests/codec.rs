use std::str::FromStr;
use wevm::data_entry::DataEntry as StoredEntry;
use wevm::runtime::data_entry::DataEntry;
use wevm::{Error, ExecutableError, RuntimeError};

#[test]
fn test_deserialize_storage() {
    let input = [
        0, 8, 116, 101, 115, 116, 95, 107, 101, 121, 0, 0, 0, 0, 0, 0, 0, 0, 1,
    ];
    let result = StoredEntry::deserialize_storage(&input).expect("Error deserialize DataEntry");
    assert_eq!(result, StoredEntry::Integer(1));

    let input = [0, 8, 116, 101, 115, 116, 95, 107, 101, 121, 1, 1];
    let result = StoredEntry::deserialize_storage(&input).expect("Error deserialize DataEntry");
    assert_eq!(result, StoredEntry::Boolean(1));

    let vec: Vec<u8> = vec![116, 101, 115, 116, 95, 118, 97, 108, 117, 101];

    let input = [
        0, 8, 116, 101, 115, 116, 95, 107, 101, 121, 2, 0, 0, 0, 10, 116, 101, 115, 116, 95, 118, 97,
        108, 117, 101,
    ];
    let result = StoredEntry::deserialize_storage(&input).expect("Error deserialize DataEntry");
    assert_eq!(result, StoredEntry::Binary(vec.clone()));

    let input = [
        0, 8, 116, 101, 115, 116, 95, 107, 101, 121, 3, 0, 0, 0, 10, 116, 101, 115, 116, 95, 118, 97,
        108, 117, 101,
    ];
    let result = StoredEntry::deserialize_storage(&input).expect("Error deserialize DataEntry");
    assert_eq!(result, StoredEntry::String(vec.clone()));
}

#[test]
fn test_deserialize_args() {
    let input = [
        0, 4, 0, 8, 116, 101, 115, 116, 95, 107, 101, 121, 0, 0, 0, 0, 0, 0, 0, 0, 1, 0, 8,
        116, 101, 115, 116, 95, 107, 101, 121, 1, 1, 0, 8, 116, 101, 115, 116, 95, 107, 101,
        121, 2, 0, 0, 0, 10, 116, 101, 115, 116, 95, 118, 97, 108, 117, 101, 0, 8, 116, 101,
        115, 116, 95, 107, 101, 121, 3, 0, 0, 0, 10, 116, 101, 115, 116, 95, 118, 97, 108, 117,
        101,
    ];

    let mut memory = [0u8; 1000];
    let mut offset_memory = 100;

    let result = StoredEntry::deserialize_args(&input, &mut memory, &mut offset_memory)
        .expect("Error deserialize DataEntry");

    assert_eq!(result.len(), 6);
    assert_eq!(result[0], "1");
    assert_eq!(result[1], "1");

    let data = [116, 101, 115, 116, 95, 118, 97, 108, 117, 101];

    let offset = usize::from_str(&result[2]).expect("Failed usize from_str");
    let length = usize::from_str(&result[3]).expect("Failed usize from_str");
    assert_eq!(memory[offset..offset + length], data);

    let offset = usize::from_str(&result[4]).expect("Failed usize from_str");
    let length = usize::from_str(&result[5]).expect("Failed usize from_str");
    assert_eq!(memory[offset..offset + length], data);
}

#[test]
fn test_deserialize() {
    let input = [
        0, 8, 116, 101, 115, 116, 95, 107, 101, 121, 0, 0, 0, 0, 0, 0, 0, 0, 1,
    ];
    let result = DataEntry::deserialize(&input).expect("Error deserialize DataEntry");
    assert_eq!(result, DataEntry::Integer(1));

    let input = [0, 8, 116, 101, 115, 116, 95, 107, 101, 121, 1, 1];
    let result = DataEntry::deserialize(&input).expect("Error deserialize DataEntry");
    assert_eq!(result, DataEntry::Boolean(1));

    let vec: Vec<u8> = vec![116, 101, 115, 116, 95, 118, 97, 108, 117, 101];

    let input = [
        0, 8, 116, 101, 115, 116, 95, 107, 101, 121, 2, 0, 0, 0, 10, 116, 101, 115, 116, 95,
        118, 97, 108, 117, 101,
    ];
    let result = DataEntry::deserialize(&input).expect("Error deserialize DataEntry");
    assert_eq!(result, DataEntry::Binary(vec.clone()));

    let input = [
        0, 8, 116, 101, 115, 116, 95, 107, 101, 121, 3, 0, 0, 0, 10, 116, 101, 115, 116, 95,
        118, 97, 108, 117, 101,
    ];
    let result = DataEntry::deserialize(&input).expect("Error deserialize DataEntry");
    assert_eq!(result, DataEntry::String(vec.clone()));
}

#[test]
fn test_deserialize_with_key() {
    let input = [
        0, 8, 116, 101, 115, 116, 95, 107, 101, 121, 0, 0, 0, 0, 0, 0, 0, 0, 1,
    ];
    let (key, value) =
        DataEntry::deserialize_with_key(&input).expect("Error deserialize DataEntry");

    assert_eq!(key, "test_key".to_string());
    assert_eq!(value, DataEntry::Integer(1));
}

#[test]
fn test_deserialize_params() {
    let input = [
        0, 4, 0, 8, 116, 101, 115, 116, 95, 107, 101, 121, 0, 0, 0, 0, 0, 0, 0, 0, 1, 0, 8,
        116, 101, 115, 116, 95, 107, 101, 121, 1, 1, 0, 8, 116, 101, 115, 116, 95, 107, 101,
        121, 2, 0, 0, 0, 10, 116, 101, 115, 116, 95, 118, 97, 108, 117, 101, 0, 8, 116, 101,
        115, 116, 95, 107, 101, 121, 3, 0, 0, 0, 10, 116, 101, 115, 116, 95, 118, 97, 108, 117,
        101,
    ];

    let mut memory = [0u8; 1000];
    let mut offset_memory = 100;

    let result = DataEntry::deserialize_params(&input, &mut memory, &mut offset_memory)
        .expect("Error deserialize DataEntry");

    assert_eq!(result.len(), 6);
    assert_eq!(result[0], "1");
    assert_eq!(result[1], "1");

    let data = [116, 101, 115, 116, 95, 118, 97, 108, 117, 101];

    let offset = usize::from_str(&result[2]).expect("Failed usize from_str");
    let length = usize::from_str(&result[3]).expect("Failed usize from_str");
    assert_eq!(memory[offset..offset + length], data);

    let offset = usize::from_str(&result[4]).expect("Failed usize from_str");
    let length = usize::from_str(&result[5]).expect("Failed usize from_str");
    assert_eq!(memory[offset..offset + length], data);
}

#[test]
fn serialize_integer_with_key_gives_exact_bytes() {
    let bytes = DataEntry::Integer(1).serialize(Some(b"test_key"));
    assert_eq!(
        bytes,
        vec![0, 8, 116, 101, 115, 116, 95, 107, 101, 121, 0, 0, 0, 0, 0, 0, 0, 0, 1]
    );
}

#[test]
fn serialize_without_key_writes_zero_length() {
    assert_eq!(DataEntry::Boolean(1).serialize(None), vec![0, 0, 1, 1]);
    assert_eq!(
        DataEntry::String(b"ab".to_vec()).serialize(None),
        vec![0, 0, 3, 0, 0, 0, 2, 97, 98]
    );
    assert_eq!(
        DataEntry::Integer(-2).serialize(None),
        vec![0, 0, 0, 255, 255, 255, 255, 255, 255, 255, 254]
    );
}

#[test]
fn storage_entries_round_trip_through_both_forms() {
    let stored = StoredEntry::Binary(vec![7]).serialize(b"k");
    assert_eq!(StoredEntry::deserialize_storage(&stored), Ok(StoredEntry::Binary(vec![7])));
    assert_eq!(DataEntry::deserialize(&stored), Ok(DataEntry::Binary(vec![7])));
    let mut memory = [0u8; 8];
    let mut offset = 9usize;
    assert_eq!(
        DataEntry::deserialize_params(&[0, 0], &mut memory, &mut offset),
        Err(Error::Executable(ExecutableError::FailedDeserialize))
    );
}

#[test]
fn keyed_serialize_matches_runtime_codec() {
    let stored = StoredEntry::Binary(vec![7, 8]).serialize(b"k");
    let current = DataEntry::Binary(vec![7, 8]).serialize(Some(b"k"));
    assert_eq!(stored, current);
    assert_eq!(stored, vec![0, 1, 107, 2, 0, 0, 0, 2, 7, 8]);
}

#[test]
fn round_trip_each_kind_of_value() {
    let values = vec![
        DataEntry::Integer(i64::MIN),
        DataEntry::Integer(i64::MAX),
        DataEntry::Boolean(0),
        DataEntry::Boolean(255),
        DataEntry::Binary(vec![]),
        DataEntry::Binary(vec![0, 1, 2, 255]),
        DataEntry::String(b"hello".to_vec()),
    ];
    for v in values {
        let bytes = v.serialize(Some(b"key"));
        assert_eq!(DataEntry::deserialize(&bytes).expect("decodes"), v);
        let (key, value) = DataEntry::deserialize_with_key(&bytes).expect("decodes");
        assert_eq!(key, "key");
        assert_eq!(value, v);
    }
}

#[test]
fn round_trip_parameter_list() {
    let values = vec![
        DataEntry::Integer(1),
        DataEntry::Boolean(1),
        DataEntry::Binary(b"test_value".to_vec()),
        DataEntry::String(b"test_value".to_vec()),
    ];
    let bytes = DataEntry::serialize_slice(&values);
    assert_eq!(&bytes[0..2], &[0, 4]);

    let mut memory = [0u8; 64];
    let mut offset = 10usize;
    let args = DataEntry::deserialize_params(&bytes, &mut memory, &mut offset).expect("decodes");
    assert_eq!(args, vec!["1", "1", "10", "10", "20", "10"]);
    assert_eq!(offset, 30);
    assert_eq!(&memory[10..20], b"test_value");
    assert_eq!(&memory[20..30], b"test_value");
    assert_eq!(&memory[0..10], &[0u8; 10]);
}

#[test]
fn empty_lists_encode_and_decode() {
    assert_eq!(DataEntry::serialize_slice(&[]), vec![0, 0]);
    let mut memory = [0u8; 4];
    let mut offset = 0usize;
    let args = DataEntry::deserialize_params(&[], &mut memory, &mut offset).expect("decodes");
    assert!(args.is_empty());
    let args = DataEntry::deserialize_params(&[0, 0], &mut memory, &mut offset).expect("decodes");
    assert!(args.is_empty());
    assert_eq!(offset, 0);
}

#[test]
fn truncated_or_unknown_input_fails_to_decode() {
    let failed = Error::Executable(ExecutableError::FailedDeserialize);
    assert_eq!(DataEntry::deserialize(&[]), Err(failed.clone()));
    assert_eq!(DataEntry::deserialize(&[0, 8, 116]), Err(failed.clone()));
    assert_eq!(DataEntry::deserialize(&[0, 0, 4, 1]), Err(failed.clone()));
    assert_eq!(DataEntry::deserialize(&[0, 0, 0, 1, 2]), Err(failed.clone()));
    assert_eq!(DataEntry::deserialize(&[0, 0, 2, 0, 0, 0, 5, 1]), Err(failed.clone()));
    let mut memory = [0u8; 4];
    let mut offset = 0usize;
    assert_eq!(
        DataEntry::deserialize_params(&[0, 2, 0, 0, 1, 1], &mut memory, &mut offset),
        Err(failed.clone())
    );
}

#[test]
fn payload_past_the_end_of_memory_fails() {
    let bytes = DataEntry::serialize_slice(&[DataEntry::Binary(vec![1, 2, 3, 4, 5])]);
    let mut memory = [0u8; 8];
    let mut offset = 4usize;
    assert_eq!(
        DataEntry::deserialize_params(&bytes, &mut memory, &mut offset),
        Err(Error::Executable(ExecutableError::FailedDeserialize))
    );
}

#[test]
fn key_that_is_not_utf8_is_refused() {
    let input = [0, 1, 0xff, 1, 1];
    assert_eq!(
        DataEntry::deserialize_with_key(&input),
        Err(Error::Runtime(RuntimeError::Utf8Error))
    );
    assert_eq!(DataEntry::deserialize(&input), Ok(DataEntry::Boolean(1)));
}
