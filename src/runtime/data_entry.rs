//! The wire codec of typed values: `[key length: u16][key][tag][payload]`.
use crate::error::{Error, ExecutableError, Result, RuntimeError};
use crate::runtime::text::{decimal_text, i64_text, usize_text, utf8_decode, utf8_string};
use crate::runtime::utils::{
    be_bytes, be_value, deserialize_error, extend_bytes, get_bytes, get_u16, get_u32, get_u64, get_u8,
    lemma_be_bytes_len, lemma_be_round_trip_exact, lemma_be_value_bound, lemma_pow256_values,
    pow256, write_be,
};
use vstd::prelude::*;

verus! {

/// A typed value, as stored under a key or passed as a call argument.
#[derive(Debug, PartialEq, Eq, Clone)]
pub enum DataEntry {
    Integer(i64),
    Boolean(i32),
    Binary(Vec<u8>),
    String(Vec<u8>),
}

/// The mathematical value a `DataEntry` stands for.
pub enum DataValue {
    Integer(i64),
    Boolean(i32),
    Binary(Seq<u8>),
    String(Seq<u8>),
}

impl View for DataEntry {
    type V = DataValue;

    open spec fn view(&self) -> DataValue {
        match self {
            DataEntry::Integer(v) => DataValue::Integer(*v),
            DataEntry::Boolean(v) => DataValue::Boolean(*v),
            DataEntry::Binary(b) => DataValue::Binary(b@),
            DataEntry::String(b) => DataValue::String(b@),
        }
    }
}

/// A value that survives the wire format unchanged: a boolean fits a byte and a
/// byte string's length fits the 4-byte length field.
pub open spec fn value_wf(v: DataValue) -> bool {
    match v {
        DataValue::Integer(_) => true,
        DataValue::Boolean(b) => 0 <= b < 256,
        DataValue::Binary(b) => b.len() < pow256(4),
        DataValue::String(b) => b.len() < pow256(4),
    }
}

/// The tag and payload of a value.
pub open spec fn value_bytes(v: DataValue) -> Seq<u8> {
    match v {
        DataValue::Integer(i) => seq![0u8] + be_bytes((i as u64) as nat, 8),
        DataValue::Boolean(b) => seq![1u8, b as u8],
        DataValue::Binary(b) => seq![2u8] + be_bytes(b.len(), 4) + b,
        DataValue::String(b) => seq![3u8] + be_bytes(b.len(), 4) + b,
    }
}

/// The key prefix: its 2-byte length and its bytes, or a zero length.
pub open spec fn key_bytes(key: Option<Seq<u8>>) -> Seq<u8> {
    match key {
        Some(k) => be_bytes(k.len(), 2) + k,
        None => be_bytes(0, 2),
    }
}

/// The full encoding of a value under an optional key.
pub open spec fn entry_bytes(v: DataValue, key: Option<Seq<u8>>) -> Seq<u8> {
    key_bytes(key) + value_bytes(v)
}

pub open spec fn key_view(key: Option<&[u8]>) -> Option<Seq<u8>> {
    match key {
        Some(k) => Some(k@),
        None => None,
    }
}

/// The encodings of `vs`, one after the other, each without a key.
pub open spec fn entries_bytes(vs: Seq<DataValue>) -> Seq<u8>
    decreases vs.len(),
{
    if vs.len() == 0 {
        Seq::empty()
    } else {
        entries_bytes(vs.drop_last()) + entry_bytes(vs.last(), None)
    }
}

/// A list encoding: a 2-byte count, then the entries.
pub open spec fn list_bytes(vs: Seq<DataValue>) -> Seq<u8> {
    be_bytes(vs.len(), 2) + entries_bytes(vs)
}

/// The big-endian number in `s[off..off + n]`.
pub open spec fn be_at(s: Seq<u8>, off: int, n: int) -> nat {
    be_value(s.subrange(off, off + n))
}

/// Parses a tag and payload at `off`: the value and the offset past it.
pub open spec fn parse_value_at(s: Seq<u8>, off: int) -> Option<(DataValue, int)> {
    if off < 0 || off >= s.len() {
        None
    } else {
        let tag = s[off];
        if tag == 0 {
            if off + 9 <= s.len() {
                Some((DataValue::Integer((be_at(s, off + 1, 8) as u64) as i64), off + 9))
            } else {
                None
            }
        } else if tag == 1 {
            if off + 2 <= s.len() {
                Some((DataValue::Boolean(s[off + 1] as i32), off + 2))
            } else {
                None
            }
        } else if tag == 2 || tag == 3 {
            if off + 5 <= s.len() {
                let n = be_at(s, off + 1, 4);
                if off + 5 + n <= s.len() {
                    let b = s.subrange(off + 5, off + 5 + n);
                    Some(
                        (
                            if tag == 2 {
                                DataValue::Binary(b)
                            } else {
                                DataValue::String(b)
                            },
                            off + 5 + n,
                        ),
                    )
                } else {
                    None
                }
            } else {
                None
            }
        } else {
            None
        }
    }
}

/// Parses a key prefix at `off`: the key and the offset past it.
pub open spec fn parse_key_at(s: Seq<u8>, off: int) -> Option<(Seq<u8>, int)> {
    if off < 0 || off + 2 > s.len() {
        None
    } else {
        let n = be_at(s, off, 2);
        if off + 2 + n <= s.len() {
            Some((s.subrange(off + 2, off + 2 + n), off + 2 + n))
        } else {
            None
        }
    }
}

/// Parses a whole entry at `off`: its key, its value and the offset past it.
pub open spec fn parse_entry_at(s: Seq<u8>, off: int) -> Option<(Seq<u8>, DataValue, int)> {
    match parse_key_at(s, off) {
        Some((k, next)) => match parse_value_at(s, next) {
            Some((v, end)) => Some((k, v, end)),
            None => None,
        },
        None => None,
    }
}

/// Parses `n` entries in a row from `off`: their values and the offset past them.
pub open spec fn parse_entries_at(s: Seq<u8>, off: int, n: nat) -> Option<(Seq<DataValue>, int)>
    decreases n,
{
    if n == 0 {
        Some((Seq::empty(), off))
    } else {
        match parse_entry_at(s, off) {
            Some((_, v, next)) => match parse_entries_at(s, next, (n - 1) as nat) {
                Some((rest, end)) => Some((seq![v] + rest, end)),
                None => None,
            },
            None => None,
        }
    }
}

/// Parses a list: nothing from the empty input, else a 2-byte count and as
/// many entries.
pub open spec fn parse_list(s: Seq<u8>) -> Option<Seq<DataValue>> {
    if s.len() == 0 {
        Some(Seq::empty())
    } else if s.len() < 2 {
        None
    } else {
        match parse_entries_at(s, 2, be_at(s, 0, 2)) {
            Some((vs, _)) => Some(vs),
            None => None,
        }
    }
}

/// The bytes a value leaves in guest memory: the payload of a byte string.
pub open spec fn payload(v: DataValue) -> Seq<u8> {
    match v {
        DataValue::Binary(b) => b,
        DataValue::String(b) => b,
        _ => Seq::empty(),
    }
}

/// The payloads of `vs`, one after the other.
pub open spec fn payloads(vs: Seq<DataValue>) -> Seq<u8>
    decreases vs.len(),
{
    if vs.len() == 0 {
        Seq::empty()
    } else {
        payloads(vs.drop_last()) + payload(vs.last())
    }
}

/// The argument texts of one value whose payload lands at `at`: the number
/// itself, or the offset and length of the payload.
pub open spec fn value_args(v: DataValue, at: int) -> Seq<Seq<char>> {
    match v {
        DataValue::Integer(i) => seq![decimal_text(i as int)],
        DataValue::Boolean(b) => seq![decimal_text(b as int)],
        DataValue::Binary(b) => seq![decimal_text(at), decimal_text(b.len() as int)],
        DataValue::String(b) => seq![decimal_text(at), decimal_text(b.len() as int)],
    }
}

/// The argument texts of `vs` when their payloads are laid out from `at`.
pub open spec fn list_args(vs: Seq<DataValue>, at: int) -> Seq<Seq<char>>
    decreases vs.len(),
{
    if vs.len() == 0 {
        Seq::empty()
    } else {
        list_args(vs.drop_last(), at) + value_args(
            vs.last(),
            at + payloads(vs.drop_last()).len(),
        )
    }
}

/// `mem` with `data` written over it from `at`.
pub open spec fn splice(mem: Seq<u8>, at: int, data: Seq<u8>) -> Seq<u8> {
    mem.subrange(0, at) + data + mem.subrange(at + data.len(), mem.len() as int)
}

/// What decoding the list `input` into guest-call arguments gives, with
/// payloads laid out in `mem` from `at`: the argument texts, the memory after
/// the copies and the cursor past them; or the decoding error when the list is
/// malformed or its payloads do not fit.
pub open spec fn decoded_args(
    input: Seq<u8>,
    mem: Seq<u8>,
    at: int,
    r: Result<Vec<String>>,
    mem_after: Seq<u8>,
    at_after: int,
) -> bool {
    if at > mem.len() {
        r == Err::<Vec<String>, Error>(deserialize_error())
    } else {
    match parse_list(input) {
        Some(vs) => if at + payloads(vs).len() <= mem.len() {
            &&& r matches Ok(args) && texts(args@) == list_args(vs, at)
            &&& mem_after == splice(mem, at, payloads(vs))
            &&& at_after == at + payloads(vs).len()
        } else {
            r == Err::<Vec<String>, Error>(deserialize_error())
        },
        None => r == Err::<Vec<String>, Error>(deserialize_error()),
    }
    }
}

pub open spec fn texts(v: Seq<String>) -> Seq<Seq<char>> {
    v.map_values(|s: String| s@)
}

pub proof fn lemma_payloads_append(a: Seq<DataValue>, b: Seq<DataValue>)
    ensures
        payloads(a + b) == payloads(a) + payloads(b),
    decreases b.len(),
{
    if b.len() == 0 {
        assert(a + b =~= a);
        assert(payloads(a) + payloads(b) =~= payloads(a));
    } else {
        lemma_payloads_append(a, b.drop_last());
        assert((a + b).drop_last() =~= a + b.drop_last());
        assert(payloads(a + b) =~= payloads(a) + payloads(b));
    }
}

pub proof fn lemma_payloads_single(v: DataValue)
    ensures
        payloads(seq![v]) == payload(v),
{
    let one = seq![v];
    assert(one.drop_last() =~= Seq::<DataValue>::empty());
    assert(payloads(one.drop_last()) == Seq::<u8>::empty());
    assert(one.last() == v);
    assert(payloads(one) =~= payload(v));
}

impl DataEntry {
    /// Encodes the value under `key`, or under the empty key.
    pub fn serialize(&self, key: Option<&[u8]>) -> (r: Vec<u8>)
        ensures
            r@ == entry_bytes(self@, key_view(key)),
    {
        let mut result: Vec<u8> = Vec::new();
        match key {
            Some(bytes) => {
                write_be(&mut result, bytes.len() as u64, 2);
                extend_bytes(&mut result, bytes);
            },
            None => {
                write_be(&mut result, 0, 2);
            },
        }
        match self {
            DataEntry::Integer(value) => {
                result.push(0u8);
                write_be(&mut result, *value as u64, 8);
            },
            DataEntry::Boolean(value) => {
                result.push(1u8);
                result.push(#[verifier::truncate] (*value as u8));
            },
            DataEntry::Binary(value) => {
                result.push(2u8);
                write_be(&mut result, value.len() as u64, 4);
                extend_bytes(&mut result, value.as_slice());
            },
            DataEntry::String(value) => {
                result.push(3u8);
                write_be(&mut result, value.len() as u64, 4);
                extend_bytes(&mut result, value.as_slice());
            },
        }
        proof {
            let ghost k = key_view(key);
            assert(result@ =~= entry_bytes(self@, k)) by {
                lemma_pow256_values();
                if let Some(kb) = k {
                    assert(be_bytes(key.unwrap()@.len() as u64 as nat, 2) == be_bytes(kb.len(), 2))
                        by {
                        lemma_be_bytes_mod(kb.len(), 2);
                        lemma_be_bytes_mod(kb.len() as u64 as nat, 2);
                    }
                }
                match self {
                    DataEntry::Binary(b) => {
                        lemma_be_bytes_mod(b@.len(), 4);
                        lemma_be_bytes_mod(b@.len() as u64 as nat, 4);
                    },
                    DataEntry::String(b) => {
                        lemma_be_bytes_mod(b@.len(), 4);
                        lemma_be_bytes_mod(b@.len() as u64 as nat, 4);
                    },
                    _ => {},
                }
            }
        }
        result
    }

    /// Encodes a list of values: a 2-byte count, then each value without a key.
    pub fn serialize_slice(data_entry: &[DataEntry]) -> (r: Vec<u8>)
        ensures
            r@ == list_bytes(data_entry@.map_values(|e: DataEntry| e@)),
    {
        let ghost vs = data_entry@.map_values(|e: DataEntry| e@);
        let mut result: Vec<u8> = Vec::new();
        {
            write_be(&mut result, data_entry.len() as u64, 2);
            let ghost head = result@;
            let mut i: usize = 0;
            while i < data_entry.len()
                invariant
                    i <= data_entry@.len(),
                    vs == data_entry@.map_values(|e: DataEntry| e@),
                    result@ == head + entries_bytes(vs.subrange(0, i as int)),
                decreases data_entry@.len() - i,
            {
                let item = data_entry[i].serialize(None);
                let mut j: usize = 0;
                let ghost before = result@;
                while j < item.len()
                    invariant
                        j <= item@.len(),
                        result@ == before + item@.subrange(0, j as int),
                    decreases item@.len() - j,
                {
                    result.push(item[j]);
                    j = j + 1;
                    assert(result@ =~= before + item@.subrange(0, j as int));
                }
                assert(item@.subrange(0, j as int) =~= item@);
                assert(vs.subrange(0, i + 1).drop_last() =~= vs.subrange(0, i as int));
                i = i + 1;
                assert(result@ =~= head + entries_bytes(vs.subrange(0, i as int)));
            }
            assert(vs.subrange(0, i as int) =~= vs);
            proof {
                lemma_be_bytes_mod(vs.len(), 2);
                lemma_be_bytes_mod(data_entry@.len() as u64 as nat, 2);
                lemma_pow256_values();
            }
        }
        result
    }

    /// Decodes a stored entry, skipping its key.
    pub fn deserialize(input: &[u8]) -> (r: Result<Self>)
        ensures
            match parse_entry_at(input@, 0) {
                Some((_, v, _)) => r matches Ok(e) && e@ == v,
                None => r == Err::<DataEntry, Error>(deserialize_error()),
            },
    {
        let mut offset_input: usize = 0;
        Self::skip_key(input, &mut offset_input)?;
        Self::get_value(input, &mut offset_input)
    }

    /// Decodes a stored entry together with its key, which must be UTF-8.
    pub fn deserialize_with_key(input: &[u8]) -> (r: Result<(String, Self)>)
        ensures
            match parse_entry_at(input@, 0) {
                Some((k, v, _)) => match utf8_decode(k) {
                    Some(text) => r matches Ok((key, e)) && key@ == text && e@ == v,
                    None => r == Err::<(String, DataEntry), Error>(
                        Error::Runtime(RuntimeError::Utf8Error),
                    ),
                },
                None => r is Err,
            },
    {
        let mut offset_input: usize = 0;
        let key = Self::get_key(input, &mut offset_input)?;
        let value = Self::get_value(input, &mut offset_input)?;
        Ok((key, value))
    }

    fn get_key(input: &[u8], offset: &mut usize) -> (r: Result<String>)
        ensures
            match parse_key_at(input@, *old(offset) as int) {
                Some((k, next)) => match utf8_decode(k) {
                    Some(text) => r matches Ok(key) && key@ == text && *final(offset) == next,
                    None => r == Err::<String, Error>(Error::Runtime(RuntimeError::Utf8Error)),
                },
                None => r == Err::<String, Error>(deserialize_error()),
            },
    {
        let length = get_u16(input, offset)?;
        let key = get_bytes(input, offset, length as usize)?;
        match utf8_string(key) {
            Some(text) => Ok(text),
            None => Err(Error::Runtime(RuntimeError::Utf8Error)),
        }
    }

    pub(crate) fn skip_key(input: &[u8], offset: &mut usize) -> (r: Result<()>)
        ensures
            match parse_key_at(input@, *old(offset) as int) {
                Some((_, next)) => r is Ok && *final(offset) == next,
                None => r == Err::<(), Error>(deserialize_error()),
            },
    {
        let length = get_u16(input, offset)?;
        let start = *offset;
        if length as usize > input.len() - start {
            return Err(Error::Executable(ExecutableError::FailedDeserialize));
        }
        *offset = start + length as usize;
        Ok(())
    }

    pub(crate) fn get_value(input: &[u8], offset: &mut usize) -> (r: Result<Self>)
        ensures
            match parse_value_at(input@, *old(offset) as int) {
                Some((v, next)) => r matches Ok(e) && e@ == v && *final(offset) == next,
                None => r == Err::<DataEntry, Error>(deserialize_error()),
            },
    {
        let start = *offset;
        let byte = get_u8(input, offset)?;
        if byte == 0u8 {
            let integer = get_u64(input, offset)?;
            Ok(DataEntry::Integer(integer as i64))
        } else if byte == 1u8 {
            let boolean = get_u8(input, offset)?;
            Ok(DataEntry::Boolean(boolean as i32))
        } else if byte == 2u8 || byte == 3u8 {
            let length = get_u32(input, offset)?;
            let bytes = get_bytes(input, offset, length as usize)?;
            if byte == 2u8 {
                Ok(DataEntry::Binary(bytes))
            } else {
                Ok(DataEntry::String(bytes))
            }
        } else {
            Err(Error::Executable(ExecutableError::FailedDeserialize))
        }
    }

    /// Decodes a parameter list into the textual arguments of a guest call.
    ///
    /// Numbers give their decimal text. The payload of a byte string is copied
    /// into `output` at `*offset_output`, which then moves past it, and gives
    /// two texts: the offset and the length of the copy.
    /// A cursor past the end of `output` fails with `FailedDeserialize`.
    #[verifier::spinoff_prover]
    #[verifier::rlimit(40)]
    pub fn deserialize_params(input: &[u8], output: &mut [u8], offset_output: &mut usize) -> (r:
        Result<Vec<String>>)
        ensures
            decoded_args(
                input@,
                old(output)@,
                *old(offset_output) as int,
                r,
                final(output)@,
                *final(offset_output) as int,
            ),
    {
        if *offset_output > output.len() {
            return Err(Error::Executable(ExecutableError::FailedDeserialize));
        }
        let mut params: Vec<String> = Vec::new();
        if input.len() == 0 {
            assert(texts(params@) =~= Seq::<Seq<char>>::empty());
            assert(splice(output@, *offset_output as int, Seq::empty()) =~= output@);
            return Ok(params);
        }
        let mut offset_input: usize = 0;
        let count: u16 = get_u16(input, &mut offset_input)?;
        let ghost s = input@;
        let ghost mem0 = output@;
        let ghost at0 = *offset_output as int;
        let ghost total = parse_entries_at(s, 2, count as nat);
        let ghost mut done: Seq<DataValue> = Seq::empty();
        let mut remaining: u16 = count;
        proof {
            assert(be_at(s, 0, 2) == count as nat);
            assert(texts(params@) =~= list_args(done, at0));
            assert(splice(mem0, at0, payloads(done)) =~= mem0);
            assert(total == match parse_entries_at(s, 2, count as nat) {
                Some((rest, end)) => Some((done + rest, end)),
                None => None,
            }) by {
                if let Some((rest, end)) = parse_entries_at(s, 2, count as nat) {
                    assert(done + rest =~= rest);
                }
            }
        }
        while remaining > 0
            invariant
                s == input@,
                at0 == *old(offset_output),
                mem0 == old(output)@,
                parse_list(s) == match total {
                    Some((vs, _)) => Some(vs),
                    None => None,
                },
                mem0.len() == output@.len(),
                at0 + payloads(done).len() <= mem0.len(),
                *offset_output == at0 + payloads(done).len(),
                output@ == splice(mem0, at0, payloads(done)),
                texts(params@) == list_args(done, at0),
                total == match parse_entries_at(s, offset_input as int, remaining as nat) {
                    Some((rest, end)) => Some((done + rest, end)),
                    None => None,
                },
            decreases remaining,
        {
            let ghost cur = offset_input as int;
            let ghost rem = remaining as nat;
            match Self::skip_key(input, &mut offset_input) {
                Ok(()) => {},
                Err(e) => {
                    assert(parse_entries_at(s, cur, rem) is None);
                    return Err(e);
                },
            }
            let value = match Self::get_value(input, &mut offset_input) {
                Ok(value) => value,
                Err(e) => {
                    assert(parse_entries_at(s, cur, rem) is None);
                    return Err(e);
                },
            };
            let ghost v = value@;
            let ghost next = offset_input as int;
            let ghost rest_total = parse_entries_at(s, next, (rem - 1) as nat);
            assert(parse_entry_at(s, cur) matches Some((_, pv, pn)) && pv == v && pn == next);
            let ghost at = *offset_output as int;
            let ok = match value {
                DataEntry::Integer(i) => {
                    params.push(i64_text(i));
                    true
                },
                DataEntry::Boolean(b) => {
                    params.push(i64_text(b as i64));
                    true
                },
                DataEntry::Binary(bytes) => {
                    let w = Self::write_payload(output, offset_output, &bytes, &mut params);
                    assert(w is Err ==> at + payload(v).len() > mem0.len());
                    w.is_ok()
                },
                DataEntry::String(bytes) => {
                    let w = Self::write_payload(output, offset_output, &bytes, &mut params);
                    assert(w is Err ==> at + payload(v).len() > mem0.len());
                    w.is_ok()
                },
            };
            if !ok {
                proof {
                    assert(at + payload(v).len() > mem0.len());
                    if let Some((rest, end)) = rest_total {
                        let vs = done + (seq![v] + rest);
                        assert(parse_entries_at(s, cur, rem) == Some((seq![v] + rest, end)));
                        assert(total == Some((vs, end)));
                        assert(parse_list(s) == Some(vs));
                        lemma_payloads_append(done, seq![v] + rest);
                        lemma_payloads_append(seq![v], rest);
                        lemma_payloads_single(v);
                        assert(payloads(vs).len() >= payloads(done).len() + payload(v).len());
                    } else {
                        assert(parse_entries_at(s, cur, rem) is None);
                    }
                    assert(match parse_list(s) {
                        Some(vs) => at0 + payloads(vs).len() > mem0.len(),
                        None => true,
                    });
                }
                return Err(Error::Executable(ExecutableError::FailedDeserialize));
            }
            proof {
                lemma_payloads_append(done, seq![v]);
                let d2 = done.push(v);
                assert(d2.drop_last() =~= done);
                assert(done + seq![v] =~= d2);
                lemma_payloads_single(v);
                if let Some((rest, end)) = rest_total {
                    assert(done + (seq![v] + rest) =~= d2 + rest);
                }
                assert(texts(params@) =~= list_args(d2, at0));
                done = d2;
            }
            remaining = remaining - 1;
        }
        proof {
            assert(done + Seq::<DataValue>::empty() =~= done);
        }
        Ok(params)
    }

    /// Copies a byte-string payload into `output` at the cursor and records its
    /// offset and length as arguments.
    fn write_payload(
        output: &mut [u8],
        offset_output: &mut usize,
        bytes: &Vec<u8>,
        params: &mut Vec<String>,
    ) -> (r: Result<()>)
        ensures
            *old(offset_output) + bytes@.len() <= old(output)@.len() ==> {
                &&& r is Ok
                &&& final(output)@ == splice(old(output)@, *old(offset_output) as int, bytes@)
                &&& *final(offset_output) == *old(offset_output) + bytes@.len()
                &&& texts(final(params)@) == texts(old(params)@) + seq![
                    decimal_text(*old(offset_output) as int),
                    decimal_text(bytes@.len() as int),
                ]
            },
            *old(offset_output) + bytes@.len() > old(output)@.len() ==> r == Err::<(), Error>(
                deserialize_error(),
            ),
    {
        let start = *offset_output;
        let length = bytes.len();
        if start > output.len() || length > output.len() - start {
            return Err(Error::Executable(ExecutableError::FailedDeserialize));
        }
        let ghost mem = output@;
        let mut i: usize = 0;
        let n = output.len();
        while i < length
            invariant
                n == output@.len(),
                start + length <= n,
                length == bytes@.len(),
                mem.len() == output@.len(),
                i <= length,
                output@ == mem.subrange(0, start as int) + bytes@.subrange(0, i as int)
                    + mem.subrange(start + i, mem.len() as int),
            decreases length - i,
        {
            output[start + i] = bytes[i];
            i = i + 1;
            assert(output@ =~= mem.subrange(0, start as int) + bytes@.subrange(0, i as int)
                + mem.subrange(start + i, mem.len() as int));
        }
        assert(bytes@.subrange(0, i as int) =~= bytes@);
        params.push(usize_text(start));
        params.push(usize_text(length));
        *offset_output = start + length;
        assert(texts(params@) =~= texts(old(params)@) + seq![
            decimal_text(start as int),
            decimal_text(length as int),
        ]);
        Ok(())
    }
}

/// A value's tag and payload parse back to the value, wherever they stand.
pub proof fn lemma_parse_value(pre: Seq<u8>, v: DataValue, post: Seq<u8>)
    requires
        value_wf(v),
    ensures
        parse_value_at(pre + value_bytes(v) + post, pre.len() as int) == Some(
            (v, (pre.len() + value_bytes(v).len()) as int),
        ),
{
    let s = pre + value_bytes(v) + post;
    let o = pre.len() as int;
    lemma_pow256_values();
    match v {
        DataValue::Integer(i) => {
            let x = (i as u64) as nat;
            lemma_be_bytes_len(x, 8);
            assert(s.subrange(o + 1, o + 9) =~= be_bytes(x, 8));
            lemma_be_round_trip_exact(x, 8);
            assert(s[o] == 0u8);
            assert(((i as u64) as i64) == i) by (bit_vector);
        },
        DataValue::Boolean(b) => {
            assert(s[o] == 1u8);
            assert(s[o + 1] == b as u8);
        },
        DataValue::Binary(b) => {
            lemma_be_bytes_len(b.len(), 4);
            assert(s[o] == 2u8);
            assert(s.subrange(o + 1, o + 5) =~= be_bytes(b.len(), 4));
            lemma_be_round_trip_exact(b.len(), 4);
            assert(s.subrange(o + 5, o + 5 + b.len()) =~= b);
        },
        DataValue::String(b) => {
            lemma_be_bytes_len(b.len(), 4);
            assert(s[o] == 3u8);
            assert(s.subrange(o + 1, o + 5) =~= be_bytes(b.len(), 4));
            lemma_be_round_trip_exact(b.len(), 4);
            assert(s.subrange(o + 5, o + 5 + b.len()) =~= b);
        },
    }
}

/// The key a value is stored under; an absent key reads back as the empty one.
pub open spec fn key_of(key: Option<Seq<u8>>) -> Seq<u8> {
    match key {
        Some(k) => k,
        None => Seq::empty(),
    }
}

/// A keyed entry parses back to its key and value, wherever it stands.
pub proof fn lemma_parse_entry(pre: Seq<u8>, v: DataValue, key: Option<Seq<u8>>, post: Seq<u8>)
    requires
        value_wf(v),
        key_of(key).len() < pow256(2),
    ensures
        parse_entry_at(pre + entry_bytes(v, key) + post, pre.len() as int) == Some(
            (key_of(key), v, (pre.len() + entry_bytes(v, key).len()) as int),
        ),
{
    let kb = key_bytes(key);
    let k = key_of(key);
    let s = pre + entry_bytes(v, key) + post;
    let o = pre.len() as int;
    lemma_pow256_values();
    lemma_be_bytes_len(k.len(), 2);
    assert(kb =~= be_bytes(k.len(), 2) + k);
    assert(s.subrange(o, o + 2) =~= be_bytes(k.len(), 2));
    lemma_be_round_trip_exact(k.len(), 2);
    assert(s.subrange(o + 2, o + 2 + k.len()) =~= k);
    assert(s =~= (pre + kb) + value_bytes(v) + post);
    lemma_parse_value(pre + kb, v, post);
}

pub proof fn lemma_entries_bytes_append(a: Seq<DataValue>, b: Seq<DataValue>)
    ensures
        entries_bytes(a + b) == entries_bytes(a) + entries_bytes(b),
    decreases b.len(),
{
    if b.len() == 0 {
        assert(a + b =~= a);
        assert(entries_bytes(a) + entries_bytes(b) =~= entries_bytes(a));
    } else {
        lemma_entries_bytes_append(a, b.drop_last());
        assert((a + b).drop_last() =~= a + b.drop_last());
        assert(entries_bytes(a + b) =~= entries_bytes(a) + entries_bytes(b));
    }
}

/// Entries written one after the other parse back, in order, wherever they stand.
pub proof fn lemma_parse_entries(pre: Seq<u8>, vs: Seq<DataValue>, post: Seq<u8>)
    requires
        forall|i: int| 0 <= i < vs.len() ==> value_wf(#[trigger] vs[i]),
    ensures
        parse_entries_at(pre + entries_bytes(vs) + post, pre.len() as int, vs.len()) == Some(
            (vs, (pre.len() + entries_bytes(vs).len()) as int),
        ),
    decreases vs.len(),
{
    if vs.len() == 0 {
        assert(vs =~= Seq::<DataValue>::empty());
    } else {
        let v = vs[0];
        let rest = vs.drop_first();
        assert(vs =~= seq![v] + rest);
        lemma_entries_bytes_append(seq![v], rest);
        let one = seq![v];
        assert(one.drop_last() =~= Seq::<DataValue>::empty());
        assert(entries_bytes(one.drop_last()) == Seq::<u8>::empty());
        assert(one.last() == v);
        assert(entries_bytes(one) =~= entry_bytes(v, None));
        lemma_pow256_values();
        let s = pre + entries_bytes(vs) + post;
        assert(s =~= pre + entry_bytes(v, None) + (entries_bytes(rest) + post));
        lemma_parse_entry(pre, v, None, entries_bytes(rest) + post);
        let pre2 = pre + entry_bytes(v, None);
        assert(s =~= pre2 + entries_bytes(rest) + post);
        lemma_parse_entries(pre2, rest, post);
        assert(seq![v] + rest =~= vs);
    }
}

/// Encoding a value under a key and decoding the entry gives the key and the
/// value back.
pub proof fn lemma_entry_round_trip(v: DataValue, key: Seq<u8>)
    requires
        value_wf(v),
        key.len() < pow256(2),
    ensures
        parse_entry_at(entry_bytes(v, Some(key)), 0) matches Some((k, w, _)) && k == key && w
            == v,
{
    let e = entry_bytes(v, Some(key));
    assert(Seq::<u8>::empty() + e + Seq::<u8>::empty() =~= e);
    lemma_parse_entry(Seq::empty(), v, Some(key), Seq::empty());
}

/// Encoding a list of values and decoding it gives the same values in the same order.
pub proof fn lemma_list_round_trip(vs: Seq<DataValue>)
    requires
        vs.len() < pow256(2),
        forall|i: int| 0 <= i < vs.len() ==> value_wf(#[trigger] vs[i]),
    ensures
        parse_list(list_bytes(vs)) == Some(vs),
{
    {
        let s = list_bytes(vs);
        lemma_pow256_values();
        lemma_be_bytes_len(vs.len(), 2);
        assert(s.subrange(0, 2) =~= be_bytes(vs.len(), 2));
        lemma_be_round_trip_exact(vs.len(), 2);
        assert(s =~= be_bytes(vs.len(), 2) + entries_bytes(vs) + Seq::<u8>::empty());
        lemma_parse_entries(be_bytes(vs.len(), 2), vs, Seq::empty());
    }
}

/// Decoding the list encoding of values into guest-call arguments recovers
/// them in order: each number as its decimal text, and each byte string as the
/// offset and length of a copy of the same bytes laid out from `at`.
pub proof fn lemma_params_round_trip(
    vs: Seq<DataValue>,
    mem: Seq<u8>,
    at: int,
    r: Result<Vec<String>>,
    mem_after: Seq<u8>,
    at_after: int,
)
    requires
        vs.len() < pow256(2),
        forall|i: int| 0 <= i < vs.len() ==> value_wf(#[trigger] vs[i]),
        0 <= at,
        at + payloads(vs).len() <= mem.len(),
        decoded_args(list_bytes(vs), mem, at, r, mem_after, at_after),
    ensures
        r matches Ok(args) && texts(args@) == list_args(vs, at),
        mem_after == splice(mem, at, payloads(vs)),
        at_after == at + payloads(vs).len(),
{
    lemma_list_round_trip(vs);
}

/// Encoding only looks at the low bytes: `be_bytes(x, n)` depends on `x`
/// modulo `256^n` alone.
pub proof fn lemma_be_bytes_mod(x: nat, n: nat)
    ensures
        be_bytes(x, n) == be_bytes(x % pow256(n), n),
    decreases n,
{
    if n > 0 {
        let m = (n - 1) as nat;
        crate::runtime::utils::lemma_pow256_positive(m);
        let p = pow256(m);
        let y = x % pow256(n);
        vstd::arithmetic::div_mod::lemma_mod_breakdown(x as int, 256, p as int);
        assert(y / 256 == (x / 256) % p && y % 256 == x % 256) by (nonlinear_arith)
            requires
                y == 256 * ((x / 256) % p) + x % 256,
                0 <= x % 256 < 256,
                p > 0,
        ;
        lemma_be_bytes_mod(x / 256, m);
    }
}

} // verus!
