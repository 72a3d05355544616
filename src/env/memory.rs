//! Host functions on byte strings in guest memory.
use crate::env::{memory_error_code, read_memory, region};
use crate::runtime::text::{
    find_text, first_occurrence, last_occurrence, rfind_text, utf8_decode, utf8_string,
};
use vstd::utf8::encode_utf8;
use crate::runtime::{written, Runtime};
use vstd::prelude::*;

verus! {

/// The status `ConvertingNumericTypes`: a count that does not fit.
pub open spec fn numeric_error_code() -> i32 {
    305
}

/// The status `Utf8Error`: text that is not UTF-8.
pub open spec fn utf8_error_code() -> i32 {
    302
}

/// Whether `sub` occurs in `bytes` at some position.
pub open spec fn occurs_in(bytes: Seq<u8>, sub: Seq<u8>) -> bool {
    exists|i: int| 0 <= i <= bytes.len() - sub.len() && #[trigger] bytes.subrange(i, i + sub.len()) == sub
}

fn bytes_eq(a: &Vec<u8>, b: &Vec<u8>) -> (r: bool)
    ensures
        r == (a@ == b@),
{
    if a.len() != b.len() {
        return false;
    }
    let mut i: usize = 0;
    while i < a.len()
        invariant
            a@.len() == b@.len(),
            i <= a@.len(),
            a@.subrange(0, i as int) == b@.subrange(0, i as int),
        decreases a@.len() - i,
    {
        if a[i] != b[i] {
            assert(a@[i as int] != b@[i as int]);
            return false;
        }
        i = i + 1;
        assert(a@.subrange(0, i as int) =~= a@.subrange(0, (i - 1) as int).push(a@[i - 1]));
        assert(b@.subrange(0, i as int) =~= b@.subrange(0, (i - 1) as int).push(b@[i - 1]));
    }
    assert(a@ =~= a@.subrange(0, i as int));
    assert(b@ =~= b@.subrange(0, i as int));
    true
}

/// Whether `sub` occurs in `bytes` at `at`.
fn occurs_at(bytes: &Vec<u8>, sub: &Vec<u8>, at: usize) -> (r: bool)
    requires
        at + sub@.len() <= bytes@.len(),
    ensures
        r == (bytes@.subrange(at as int, at + sub@.len()) == sub@),
{
    let mut i: usize = 0;
    let total = bytes.len();
    while i < sub.len()
        invariant
            total == bytes@.len(),
            at + sub@.len() <= bytes@.len(),
            i <= sub@.len(),
            bytes@.subrange(at as int, at + i) == sub@.subrange(0, i as int),
        decreases sub@.len() - i,
    {
        if bytes[at + i] != sub[i] {
            assert(bytes@.subrange(at as int, at + sub@.len())[i as int] != sub@[i as int]);
            return false;
        }
        i = i + 1;
        assert(bytes@.subrange(at as int, at + i) =~= bytes@.subrange(at as int, at + i - 1).push(
            bytes@[at + i - 1],
        ));
        assert(sub@.subrange(0, i as int) =~= sub@.subrange(0, i - 1).push(sub@[i - 1]));
    }
    assert(sub@ =~= sub@.subrange(0, i as int));
    true
}

/// Compares two byte strings of guest memory: `(0, 1)` when equal, `(0, 0)` when not.
pub fn binary_equals(
    memory: &[u8],
    offset_left: u32,
    length_left: u32,
    offset_right: u32,
    length_right: u32,
) -> (r: (i32, i32))
    ensures
        match (region(memory@, offset_left, length_left), region(memory@, offset_right, length_right)) {
            (Some(a), Some(b)) => r == (0i32, if a == b { 1i32 } else { 0i32 }),
            _ => r == (memory_error_code(), 0i32),
        },
{
    let left = match read_memory(memory, offset_left, length_left) {
        Some(b) => b,
        None => return (102, 0),
    };
    let right = match read_memory(memory, offset_right, length_right) {
        Some(b) => b,
        None => return (102, 0),
    };
    (0, if bytes_eq(&left, &right) { 1 } else { 0 })
}

/// Compares two UTF-8 strings of guest memory: `(0, 1)` when equal, `(0, 0)`
/// when not, `Utf8Error` when either is not UTF-8.
pub fn string_equals(
    memory: &[u8],
    offset_left: u32,
    length_left: u32,
    offset_right: u32,
    length_right: u32,
) -> (r: (i32, i32))
    ensures
        match (region(memory@, offset_left, length_left), region(memory@, offset_right, length_right)) {
            (Some(a), Some(b)) => match (utf8_decode(a), utf8_decode(b)) {
                (Some(x), Some(y)) => r == (0i32, if x == y { 1i32 } else { 0i32 }),
                _ => r == (utf8_error_code(), 0i32),
            },
            _ => r == (memory_error_code(), 0i32),
        },
{
    let left = match read_memory(memory, offset_left, length_left) {
        Some(b) => b,
        None => return (102, 0),
    };
    let right = match read_memory(memory, offset_right, length_right) {
        Some(b) => b,
        None => return (102, 0),
    };
    let left = match utf8_string(left) {
        Some(s) => s,
        None => return (302, 0),
    };
    let right = match utf8_string(right) {
        Some(s) => s,
        None => return (302, 0),
    };
    (0, if left == right { 1 } else { 0 })
}

/// Writes the concatenation of two byte strings of guest memory back to the guest.
pub fn join(
    ctx: &mut Runtime,
    memory: &mut [u8],
    offset_left: u32,
    length_left: u32,
    offset_right: u32,
    length_right: u32,
) -> (r: (i32, i32, i32))
    requires
        old(ctx).wf(),
    ensures
        final(ctx).wf(),
        match (
            region(old(memory)@, offset_left, length_left),
            region(old(memory)@, offset_right, length_right),
        ) {
            (Some(a), Some(b)) => wrote(*old(ctx), *final(ctx), old(memory)@, final(memory)@, a + b, r),
            _ => r == (memory_error_code(), 0i32, 0i32) && *final(ctx) == *old(ctx) && final(memory)@
                == old(memory)@,
        },
{
    let left = match read_memory(memory, offset_left, length_left) {
        Some(b) => b,
        None => return (102, 0, 0),
    };
    let mut result = match read_memory(memory, offset_right, length_right) {
        Some(b) => b,
        None => return (102, 0, 0),
    };
    let mut joined = left;
    joined.append(&mut result);
    ctx.write_memory(memory, joined.as_slice())
}

/// What handing `data` to the guest through the runtime does: the write
/// succeeds at the cursor when it fits, or reports `MemoryError` and changes
/// nothing.
pub open spec fn wrote(
    before: Runtime,
    after: Runtime,
    mem: Seq<u8>,
    mem_after: Seq<u8>,
    data: Seq<u8>,
    r: (i32, i32, i32),
) -> bool {
    let at = before.spec_heap_base() as int;
    let n = data.len() as int;
    &&& after.has_memory() == before.has_memory()
    &&& after.pending_params() == before.pending_params()
    &&& after.pending_payments() == before.pending_payments()
    &&& if at + n <= mem.len() && at + n <= i32::MAX {
        &&& r == written(at, n)
        &&& mem_after == mem.subrange(0, at) + data + mem.subrange(at + n, mem.len() as int)
        &&& after.spec_heap_base() == at + n
        &&& after.writes() == before.writes().push((at, n))
    } else {
        &&& r == (memory_error_code(), 0i32, 0i32)
        &&& mem_after == mem
        &&& after.spec_heap_base() == before.spec_heap_base()
        &&& after.writes() == before.writes()
    }
}

/// Whether `sub` occurs in `bytes`, both in guest memory: `(0, 1)` or `(0, 0)`.
/// The empty string occurs everywhere.
pub fn contains(
    memory: &[u8],
    offset_bytes: u32,
    length_bytes: u32,
    offset_subbytes: u32,
    length_subbytes: u32,
) -> (r: (i32, i32))
    ensures
        match (
            region(memory@, offset_bytes, length_bytes),
            region(memory@, offset_subbytes, length_subbytes),
        ) {
            (Some(a), Some(b)) => r == (0i32, if occurs_in(a, b) { 1i32 } else { 0i32 }),
            _ => r == (memory_error_code(), 0i32),
        },
{
    let bytes = match read_memory(memory, offset_bytes, length_bytes) {
        Some(b) => b,
        None => return (102, 0),
    };
    let sub = match read_memory(memory, offset_subbytes, length_subbytes) {
        Some(b) => b,
        None => return (102, 0),
    };
    if sub.len() > bytes.len() {
        assert(!occurs_in(bytes@, sub@));
        return (0, 0);
    }
    let last = bytes.len() - sub.len();
    let mut i: usize = 0;
    loop
        invariant
            last == bytes@.len() - sub@.len(),
            region(memory@, offset_bytes, length_bytes) == Some(bytes@),
            region(memory@, offset_subbytes, length_subbytes) == Some(sub@),
            i <= last,
            forall|j: int| 0 <= j < i ==> #[trigger] bytes@.subrange(j, j + sub@.len()) != sub@,
        decreases last - i,
    {
        if occurs_at(&bytes, &sub, i) {
            let ghost w = i as int;
            assert(bytes@.subrange(w, w + sub@.len()) == sub@);
            assert(occurs_in(bytes@, sub@));
            return (0, 1);
        }
        if i == last {
            assert(!occurs_in(bytes@, sub@)) by {
                if occurs_in(bytes@, sub@) {
                    let j = choose|j: int|
                        0 <= j <= bytes@.len() - sub@.len() && #[trigger] bytes@.subrange(
                            j,
                            j + sub@.len(),
                        ) == sub@;
                    assert(j <= last);
                }
            }
            return (0, 0);
        }
        i = i + 1;
    }
}

/// The guest's count `n` as a `u32`, if it is one.
pub open spec fn as_u32(n: i64) -> Option<u32> {
    if 0 <= n <= u32::MAX {
        Some(n as u32)
    } else {
        None
    }
}

/// The string without its first `n` bytes: `(0, offset + n, length - n)`.
pub fn drop(offset_bytes: u32, length_bytes: u32, n: i64) -> (r: (i32, u32, u32))
    ensures
        match as_u32(n) {
            Some(v) => if v <= length_bytes && offset_bytes + v <= u32::MAX {
                r == (0i32, (offset_bytes + v) as u32, (length_bytes - v) as u32)
            } else {
                r == (numeric_error_code(), 0u32, 0u32)
            },
            None => r == (numeric_error_code(), 0u32, 0u32),
        },
{
    if n < 0 || n > u32::MAX as i64 {
        return (305, 0, 0);
    }
    let value = n as u32;
    if value > length_bytes || offset_bytes > u32::MAX - value {
        return (305, 0, 0);
    }
    (0, offset_bytes + value, length_bytes - value)
}

/// The string without its last `n` bytes: `(0, offset, length - n)`.
pub fn drop_right(offset_bytes: u32, length_bytes: u32, n: i64) -> (r: (i32, u32, u32))
    ensures
        match as_u32(n) {
            Some(v) => if v <= length_bytes {
                r == (0i32, offset_bytes, (length_bytes - v) as u32)
            } else {
                r == (numeric_error_code(), 0u32, 0u32)
            },
            None => r == (numeric_error_code(), 0u32, 0u32),
        },
{
    if n < 0 || n > u32::MAX as i64 {
        return (305, 0, 0);
    }
    let value = n as u32;
    if value > length_bytes {
        return (305, 0, 0);
    }
    (0, offset_bytes, length_bytes - value)
}

/// The first `n` bytes of the string: `(0, offset, n)`.
pub fn take(offset_bytes: u32, length_bytes: u32, n: i64) -> (r: (i32, u32, u32))
    ensures
        match as_u32(n) {
            Some(v) => r == (0i32, offset_bytes, v),
            None => r == (numeric_error_code(), 0u32, 0u32),
        },
{
    if n < 0 || n > u32::MAX as i64 {
        return (305, 0, 0);
    }
    (0, offset_bytes, n as u32)
}

/// The last `n` bytes of the string: `(0, offset + length - n, n)`.
pub fn take_right(offset_bytes: u32, length_bytes: u32, n: i64) -> (r: (i32, u32, u32))
    ensures
        match as_u32(n) {
            Some(v) => if v <= length_bytes && offset_bytes + (length_bytes - v) <= u32::MAX {
                r == (0i32, (offset_bytes + (length_bytes - v)) as u32, v)
            } else {
                r == (numeric_error_code(), 0u32, 0u32)
            },
            None => r == (numeric_error_code(), 0u32, 0u32),
        },
{
    if n < 0 || n > u32::MAX as i64 {
        return (305, 0, 0);
    }
    let value = n as u32;
    if value > length_bytes || offset_bytes > u32::MAX - (length_bytes - value) {
        return (305, 0, 0);
    }
    (0, offset_bytes + (length_bytes - value), value)
}

/// Writes the guest's byte string back in reverse order.
pub fn to_le_bytes(ctx: &mut Runtime, memory: &mut [u8], offset_bytes: u32, length_bytes: u32) -> (r:
    (i32, i32, i32))
    requires
        old(ctx).wf(),
    ensures
        final(ctx).wf(),
        match region(old(memory)@, offset_bytes, length_bytes) {
            Some(a) => wrote(*old(ctx), *final(ctx), old(memory)@, final(memory)@, a.reverse(), r),
            None => r == (memory_error_code(), 0i32, 0i32) && *final(ctx) == *old(ctx)
                && final(memory)@ == old(memory)@,
        },
{
    let bytes = match read_memory(memory, offset_bytes, length_bytes) {
        Some(b) => b,
        None => return (102, 0, 0),
    };
    let mut reversed: Vec<u8> = Vec::new();
    let mut i: usize = bytes.len();
    while i > 0
        invariant
            i <= bytes@.len(),
            reversed@ == bytes@.subrange(i as int, bytes@.len() as int).reverse(),
        decreases i,
    {
        i = i - 1;
        reversed.push(bytes[i]);
        assert(reversed@ =~= bytes@.subrange(i as int, bytes@.len() as int).reverse());
    }
    assert(bytes@.subrange(0, bytes@.len() as int) =~= bytes@);
    ctx.write_memory(memory, reversed.as_slice())
}

/// The status and result for a substring position: the index when it fits
/// an `i64` (else `ConvertingNumericTypes`), or `-1` when there is none.
pub open spec fn position_status(found: Option<usize>) -> (i32, i64) {
    match found {
        Some(i) => if i <= i64::MAX {
            (0i32, i as i64)
        } else {
            (numeric_error_code(), 0i64)
        },
        None => (0i32, -1i64),
    }
}

/// Where a UTF-8 string of guest memory first (or, when `is_last` holds, last)
/// contains another, as a byte index: `(0, index)`, or `(0, -1)` when it does not.
pub fn index_of(
    is_last: bool,
    memory: &[u8],
    offset_string: u32,
    length_string: u32,
    offset_substring: u32,
    length_substring: u32,
) -> (r: (i32, i64))
    ensures
        match (
            region(memory@, offset_string, length_string),
            region(memory@, offset_substring, length_substring),
        ) {
            (Some(a), Some(b)) => match (utf8_decode(a), utf8_decode(b)) {
                (Some(x), Some(y)) => exists|found: Option<usize>|
                    (if is_last {
                        last_occurrence(encode_utf8(x), encode_utf8(y), found)
                    } else {
                        first_occurrence(encode_utf8(x), encode_utf8(y), found)
                    }) && r == #[trigger] position_status(found),
                _ => r == (utf8_error_code(), 0i64),
            },
            _ => r == (memory_error_code(), 0i64),
        },
{
    let string = match read_memory(memory, offset_string, length_string) {
        Some(b) => b,
        None => return (102, 0),
    };
    let substring = match read_memory(memory, offset_substring, length_substring) {
        Some(b) => b,
        None => return (102, 0),
    };
    let string = match utf8_string(string) {
        Some(s) => s,
        None => return (302, 0),
    };
    let substring = match utf8_string(substring) {
        Some(s) => s,
        None => return (302, 0),
    };
    let found = if is_last {
        rfind_text(string.as_str(), substring.as_str())
    } else {
        find_text(string.as_str(), substring.as_str())
    };
    let r = match found {
        Some(index) => if index as u64 > i64::MAX as u64 {
            (305, 0)
        } else {
            (0, index as i64)
        },
        None => (0, -1),
    };
    assert(r == position_status(found));
    r
}

} // verus!
