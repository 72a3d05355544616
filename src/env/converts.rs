//! Host functions that convert between text, bytes and numbers.
use crate::env::memory::{numeric_error_code, utf8_error_code, wrote};
use crate::env::{memory_error_code, read_memory, region};
use crate::runtime::text::{
    ascii_of, decimal_text, i64_text_bytes, parse_i64, parsed_i64, utf8_decode, utf8_string,
};
use crate::runtime::utils::{be_bytes, be_value, write_be};
use crate::runtime::Runtime;
use vstd::prelude::*;

verus! {

/// The status `ParseError`: text that is not a value of the type asked for.
pub open spec fn parse_error_code() -> i32 {
    308
}

/// Parses a decimal integer from guest memory: `(0, value)` or an error status.
pub fn parse_int(memory: &[u8], offset: u32, length: u32) -> (r: (i32, i64))
    ensures
        match region(memory@, offset, length) {
            Some(b) => match utf8_decode(b) {
                Some(text) => match parsed_i64(text) {
                    Some(v) => r == (0i32, v),
                    None => r == (parse_error_code(), 0i64),
                },
                None => r == (utf8_error_code(), 0i64),
            },
            None => r == (memory_error_code(), 0i64),
        },
{
    let bytes = match read_memory(memory, offset, length) {
        Some(b) => b,
        None => return (102, 0),
    };
    let text = match utf8_string(bytes) {
        Some(s) => s,
        None => return (302, 0),
    };
    match parse_i64(text.as_str()) {
        Some(v) => (0, v),
        None => (308, 0),
    }
}

/// Parses `true` or `false` from guest memory: `(0, 1)` or `(0, 0)`, else an
/// error status.
pub fn parse_bool(memory: &[u8], offset: u32, length: u32) -> (r: (i32, i32))
    ensures
        match region(memory@, offset, length) {
            Some(b) => match utf8_decode(b) {
                Some(text) => if text == "true"@ {
                    r == (0i32, 1i32)
                } else if text == "false"@ {
                    r == (0i32, 0i32)
                } else {
                    r == (parse_error_code(), 0i32)
                },
                None => r == (utf8_error_code(), 0i32),
            },
            None => r == (memory_error_code(), 0i32),
        },
{
    proof {
        reveal_strlit("true");
        reveal_strlit("false");
    }
    let bytes = match read_memory(memory, offset, length) {
        Some(b) => b,
        None => return (102, 0),
    };
    let text = match utf8_string(bytes) {
        Some(s) => s,
        None => return (302, 0),
    };
    if text == "true".to_owned() {
        (0, 1)
    } else if text == "false".to_owned() {
        (0, 0)
    } else {
        (308, 0)
    }
}

/// Hands the guest the 8 big-endian bytes of `value`.
pub fn to_bytes(ctx: &mut Runtime, memory: &mut [u8], value: i64) -> (r: (i32, i32, i32))
    requires
        old(ctx).wf(),
    ensures
        final(ctx).wf(),
        wrote(*old(ctx), *final(ctx), old(memory)@, final(memory)@, be_bytes((value as u64) as nat, 8), r),
{
    let mut bytes: Vec<u8> = Vec::new();
    write_be(&mut bytes, value as u64, 8);
    assert(bytes@ =~= be_bytes((value as u64) as nat, 8));
    ctx.write_memory(memory, bytes.as_slice())
}

/// Reads 8 big-endian bytes of guest memory as an integer: `(0, value)`, or
/// `ConvertingNumericTypes` for any other length.
pub fn to_int(memory: &[u8], offset: u32, length: u32) -> (r: (i32, i64))
    ensures
        match region(memory@, offset, length) {
            Some(b) => if b.len() == 8 {
                r == (0i32, (be_value(b) as u64) as i64)
            } else {
                r == (numeric_error_code(), 0i64)
            },
            None => r == (memory_error_code(), 0i64),
        },
{
    let bytes = match read_memory(memory, offset, length) {
        Some(b) => b,
        None => return (102, 0),
    };
    crate::env::tx::block_int(bytes.as_slice())
}

/// Hands the guest the decimal text of `value`.
pub fn to_string_int(ctx: &mut Runtime, memory: &mut [u8], value: i64) -> (r: (i32, i32, i32))
    requires
        old(ctx).wf(),
    ensures
        final(ctx).wf(),
        wrote(*old(ctx), *final(ctx), old(memory)@, final(memory)@, ascii_of(decimal_text(value as int)), r),
{
    let bytes = i64_text_bytes(value);
    ctx.write_memory(memory, bytes.as_slice())
}

/// The text of a boolean.
pub open spec fn bool_text(value: bool) -> Seq<u8> {
    if value {
        seq![116u8, 114u8, 117u8, 101u8]
    } else {
        seq![102u8, 97u8, 108u8, 115u8, 101u8]
    }
}

/// Hands the guest `true` or `false`, by whether `value` is non-zero.
pub fn to_string_bool(ctx: &mut Runtime, memory: &mut [u8], value: i32) -> (r: (i32, i32, i32))
    requires
        old(ctx).wf(),
    ensures
        final(ctx).wf(),
        wrote(*old(ctx), *final(ctx), old(memory)@, final(memory)@, bool_text(value != 0), r),
{
    let bytes: Vec<u8> = if value != 0 {
        vec![116u8, 114u8, 117u8, 101u8]
    } else {
        vec![102u8, 97u8, 108u8, 115u8, 101u8]
    };
    assert(bytes@ =~= bool_text(value != 0));
    ctx.write_memory(memory, bytes.as_slice())
}

} // verus!
