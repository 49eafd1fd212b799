//! A JSON document model: the tree the compiler protocols are framed in.
//!
//! Requests to the subprocess compilers are built as [`JsonValue`] trees and
//! serialized by the verified writer here; responses are parsed by
//! serde_json behind one trusted boundary and handed back as the same tree,
//! which verified code then picks apart.

use vstd::prelude::*;

verus! {

use vstd::string::StringSliceAdditionalSpecFns;

/// The UTF-8 bytes a `String` holds.
pub open spec fn str_bytes(s: String) -> Seq<u8> {
    vstd::utf8::encode_utf8(s@)
}

/// One JSON value. A number is kept as its raw source text: none of the
/// protocols here does arithmetic on one. An object keeps its members in
/// order, first occurrence first.
#[derive(Debug)]
pub enum JsonValue {
    Null,
    Bool(bool),
    Num(String),
    Str(String),
    Arr(Vec<JsonValue>),
    Obj(Vec<(String, JsonValue)>),
}

/// What serde_json parses a byte string to, mapped onto [`JsonValue`];
/// `None` where the bytes are not one JSON document. Left uninterpreted:
/// the JSON grammar is the outside parser's work.
pub uninterp spec fn json_parsed(s: Seq<u8>) -> Option<JsonValue>;

#[verifier::external_type_specification]
#[verifier::external_body]
pub struct ExValue(serde_json::Value);

/// Relies on serde_json's `Value` tree: each variant is carried over
/// one-for-one ([`json_parse`] is its only caller, and states the one
/// contract of the pair).
#[verifier::external_body]
fn json_value_convert(v: serde_json::Value) -> JsonValue {
    match v {
        serde_json::Value::Null => JsonValue::Null,
        serde_json::Value::Bool(b) => JsonValue::Bool(b),
        serde_json::Value::Number(n) => JsonValue::Num(n.to_string()),
        serde_json::Value::String(s) => JsonValue::Str(s),
        serde_json::Value::Array(items) => JsonValue::Arr(
            items.into_iter().map(json_value_convert).collect(),
        ),
        serde_json::Value::Object(members) => JsonValue::Obj(
            members.into_iter().map(|(k, w)| (k, json_value_convert(w))).collect(),
        ),
    }
}

/// Relies on `serde_json::from_slice::<Value>`: whether bytes parse, and to
/// what tree, depends on the bytes alone; and every parsed object is backed
/// by an ordered map, so its member keys are pairwise distinct.
#[verifier::external_body]
pub fn json_parse(s: &[u8]) -> (r: Option<JsonValue>)
    ensures
        r == json_parsed(s@),
        r matches Option::Some(v) ==> json_objs_unique(v),
{
    match serde_json::from_slice::<serde_json::Value>(s) {
        Ok(v) => Some(json_value_convert(v)),
        Err(_) => None,
    }
}

/// The hex digit (lower case) for `n < 16`.
pub open spec fn hex_digit(n: u8) -> u8 {
    if n < 10 {
        (48 + n) as u8
    } else {
        (87 + n) as u8
    }
}

/// How one byte of a string stands in JSON text: the quote and the
/// backslash escaped, the short escapes for the usual control characters,
/// `\u00XX` for the other control bytes, every other byte as itself (a
/// UTF-8 continuation byte passes through unharmed).
pub open spec fn escape_byte(b: u8) -> Seq<u8> {
    if b == 34 {
        seq![92u8, 34u8]
    } else if b == 92 {
        seq![92u8, 92u8]
    } else if b == 8 {
        seq![92u8, 98u8]
    } else if b == 9 {
        seq![92u8, 116u8]
    } else if b == 10 {
        seq![92u8, 110u8]
    } else if b == 12 {
        seq![92u8, 102u8]
    } else if b == 13 {
        seq![92u8, 114u8]
    } else if b < 32 {
        seq![92u8, 117u8, 48u8, 48u8, hex_digit(b / 16), hex_digit(b % 16)]
    } else {
        seq![b]
    }
}

/// A byte string escaped for a JSON string literal, byte for byte.
pub open spec fn escape_bytes(bs: Seq<u8>) -> Seq<u8>
    decreases bs.len(),
{
    if bs.len() == 0 {
        Seq::empty()
    } else {
        escape_bytes(bs.drop_last()) + escape_byte(bs.last())
    }
}

/// The serialized form of a JSON value: no whitespace, members and items in
/// order, strings escaped by [`escape_bytes`].
pub open spec fn json_bytes_of(v: JsonValue) -> Seq<u8>
    decreases v, 0int,
{
    match v {
        JsonValue::Null => seq![110u8, 117u8, 108u8, 108u8],
        JsonValue::Bool(b) => if b {
            seq![116u8, 114u8, 117u8, 101u8]
        } else {
            seq![102u8, 97u8, 108u8, 115u8, 101u8]
        },
        JsonValue::Num(s) => str_bytes(s),
        JsonValue::Str(s) => seq![34u8] + escape_bytes(str_bytes(s)) + seq![34u8],
        JsonValue::Arr(items) => seq![91u8] + arr_bytes(items@) + seq![93u8],
        JsonValue::Obj(members) => seq![123u8] + obj_bytes(members@) + seq![125u8],
    }
}

/// The comma-separated serialized items of an array.
pub open spec fn arr_bytes(items: Seq<JsonValue>) -> Seq<u8>
    decreases items, 1int,
{
    if items.len() == 0 {
        Seq::empty()
    } else if items.len() == 1 {
        json_bytes_of(items[0])
    } else {
        arr_bytes(items.drop_last()) + seq![44u8] + json_bytes_of(items.last())
    }
}

/// One serialized object member: the quoted, escaped key, a colon, the
/// value.
pub open spec fn member_bytes(key: String, v: JsonValue) -> Seq<u8>
    decreases v, 1int,
{
    seq![34u8] + escape_bytes(str_bytes(key)) + seq![34u8, 58u8] + json_bytes_of(v)
}

/// The comma-separated serialized members of an object.
pub open spec fn obj_bytes(members: Seq<(String, JsonValue)>) -> Seq<u8>
    decreases members, 1int,
{
    if members.len() == 0 {
        Seq::empty()
    } else if members.len() == 1 {
        member_bytes(members[0].0, members[0].1)
    } else {
        obj_bytes(members.drop_last()) + seq![44u8] + member_bytes(
            members.last().0,
            members.last().1,
        )
    }
}

/// Append the escaped form of `bs` to `out`.
fn escape_into(bs: &[u8], out: &mut Vec<u8>)
    ensures
        final(out)@ == old(out)@ + escape_bytes(bs@),
{
    let ghost base = out@;
    let mut i: usize = 0;
    proof {
        assert(bs@.take(0) =~= Seq::<u8>::empty());
        assert(base + Seq::<u8>::empty() =~= base);
    }
    while i < bs.len()
        invariant
            i <= bs@.len(),
            out@ == base + escape_bytes(bs@.take(i as int)),
        decreases bs@.len() - i,
    {
        let b = bs[i];
        if b == 34 {
            out.push(92);
            out.push(34);
        } else if b == 92 {
            out.push(92);
            out.push(92);
        } else if b == 8 {
            out.push(92);
            out.push(98);
        } else if b == 9 {
            out.push(92);
            out.push(116);
        } else if b == 10 {
            out.push(92);
            out.push(110);
        } else if b == 12 {
            out.push(92);
            out.push(102);
        } else if b == 13 {
            out.push(92);
            out.push(114);
        } else if b < 32 {
            out.push(92);
            out.push(117);
            out.push(48);
            out.push(48);
            let hi = b / 16;
            let lo = b % 16;
            out.push(if hi < 10 { 48 + hi } else { 87 + hi });
            out.push(if lo < 10 { 48 + lo } else { 87 + lo });
        } else {
            out.push(b);
        }
        proof {
            assert(bs@.take(i + 1).drop_last() =~= bs@.take(i as int));
            assert(bs@.take(i + 1).last() == bs@[i as int]);
            assert(out@ =~= base + escape_bytes(bs@.take(i + 1)));
        }
        i += 1;
    }
    proof {
        assert(bs@.take(bs@.len() as int) =~= bs@);
    }
}

/// Append the serialized form of `v` to `out`.
#[verifier::loop_isolation(false)]
#[verifier::rlimit(100)]
pub fn json_write(v: &JsonValue, out: &mut Vec<u8>)
    ensures
        final(out)@ == old(out)@ + json_bytes_of(*v),
    decreases *v, 0int,
{
    let ghost base = out@;
    match v {
        JsonValue::Null => {
            out.push(110);
            out.push(117);
            out.push(108);
            out.push(108);
            proof {
                assert(out@ =~= base + json_bytes_of(*v));
            }
        },
        JsonValue::Bool(b) => {
            if *b {
                out.push(116);
                out.push(114);
                out.push(117);
                out.push(101);
            } else {
                out.push(102);
                out.push(97);
                out.push(108);
                out.push(115);
                out.push(101);
            }
            proof {
                assert(out@ =~= base + json_bytes_of(*v));
            }
        },
        JsonValue::Num(s) => {
            let bs = s.as_str().as_bytes();
            let mut k: usize = 0;
            proof {
                assert(bs@ == str_bytes(*s));
            }
            while k < bs.len()
                invariant
                    k <= bs@.len(),
                    out@ == base + bs@.take(k as int),
                decreases bs@.len() - k,
            {
                out.push(bs[k]);
                proof {
                    assert(bs@.take(k + 1) =~= bs@.take(k as int).push(bs@[k as int]));
                }
                k += 1;
            }
            proof {
                assert(bs@.take(bs@.len() as int) =~= bs@);
            }
        },
        JsonValue::Str(s) => {
            out.push(34);
            escape_into(s.as_str().as_bytes(), out);
            out.push(34);
            proof {
                assert(out@ =~= base + json_bytes_of(*v));
            }
        },
        JsonValue::Arr(items) => {
            out.push(91);
            let mut j: usize = 0;
            while j < items.len()
                invariant
                    j <= items@.len(),
                    out@ == base + seq![91u8] + arr_bytes(items@.take(j as int)),
                decreases items@.len() - j,
            {
                if j > 0 {
                    out.push(44);
                }
                proof {
                    assert((*v)->Arr_0 == *items);
                    assert(decreases_to!(*v => (*v)->Arr_0));
                    assert(decreases_to!(*items => items@));
                    assert(decreases_to!(items@ => items@[j as int]));
                    assert(decreases_to!(*v, 0int => items@[j as int], 0int));
                }
                json_write(&items[j], out);
                proof {
                    assert(items@.take(j + 1).drop_last() =~= items@.take(j as int));
                    assert(items@.take(j + 1).last() == items@[j as int]);
                    if j == 0 {
                        assert(items@.take(1) =~= seq![items@[0]]);
                    }
                    assert(out@ =~= base + seq![91u8] + arr_bytes(items@.take(j + 1)));
                }
                j += 1;
            }
            out.push(93);
            proof {
                assert(items@.take(items@.len() as int) =~= items@);
                assert(out@ =~= base + json_bytes_of(*v));
            }
        },
        JsonValue::Obj(members) => {
            out.push(123);
            let mut j: usize = 0;
            while j < members.len()
                invariant
                    j <= members@.len(),
                    out@ == base + seq![123u8] + obj_bytes(members@.take(j as int)),
                decreases members@.len() - j,
            {
                if j > 0 {
                    out.push(44);
                }
                let ghost mid = out@;
                out.push(34);
                let key_bytes = members[j].0.as_str().as_bytes();
                proof {
                    assert(key_bytes@ == str_bytes(members@[j as int].0));
                }
                escape_into(key_bytes, out);
                out.push(34);
                out.push(58);
                let ghost mid2 = out@;
                proof {
                    assert((*v)->Obj_0 == *members);
                    assert(decreases_to!(*v => (*v)->Obj_0));
                    assert(decreases_to!(*members => members@));
                    assert(decreases_to!(members@ => members@[j as int]));
                    assert(decreases_to!(members@[j as int] => members@[j as int].1));
                    assert(decreases_to!(*v, 0int => members@[j as int].1, 0int));
                }
                json_write(&members[j].1, out);
                proof {
                    assert(mid2 =~= mid + seq![34u8] + escape_bytes(str_bytes(members@[j as int].0))
                        + seq![34u8, 58u8]);
                    assert(out@ =~= mid + member_bytes(members@[j as int].0, members@[j as int].1));
                    assert(members@.take(j + 1).drop_last() =~= members@.take(j as int));
                    assert(members@.take(j + 1).last() == members@[j as int]);
                    if j == 0 {
                        assert(members@.take(1) =~= seq![members@[0]]);
                    }
                    assert(out@ =~= base + seq![123u8] + obj_bytes(members@.take(j + 1)));
                }
                j += 1;
            }
            out.push(125);
            proof {
                assert(members@.take(members@.len() as int) =~= members@);
                assert(out@ =~= base + json_bytes_of(*v));
            }
        },
    }
}

/// Serialize `v`: no whitespace, members and items in order.
pub fn json_to_bytes(v: &JsonValue) -> (r: Vec<u8>)
    ensures
        r@ == json_bytes_of(*v),
{
    let mut out: Vec<u8> = Vec::new();
    json_write(v, &mut out);
    proof {
        assert(Seq::<u8>::empty() + json_bytes_of(*v) =~= json_bytes_of(*v));
    }
    out
}

/// Relies on `String::from_utf8`: valid UTF-8 bytes come back as the
/// string holding exactly those bytes (the requires excludes the rejected,
/// invalid inputs).
#[verifier::external_body]
pub fn string_from_utf8(v: Vec<u8>) -> (r: String)
    requires
        vstd::utf8::valid_utf8(v@),
    ensures
        str_bytes(r) == v@,
{
    String::from_utf8(v).unwrap_or_default()
}

/// Whether two string slices hold the same characters.
pub fn str_eq(a: &str, b: &str) -> (r: bool)
    ensures
        r == (a@ == b@),
{
    proof {
        vstd::utf8::encode_utf8_decode_utf8(a@);
        vstd::utf8::encode_utf8_decode_utf8(b@);
    }
    let x = a.as_bytes();
    let y = b.as_bytes();
    if x.len() != y.len() {
        return false;
    }
    let mut i: usize = 0;
    while i < x.len()
        invariant
            i <= x@.len(),
            x@.len() == y@.len(),
            x@ == a.spec_bytes(),
            y@ == b.spec_bytes(),
            forall|j: int| 0 <= j < i ==> x@[j] == y@[j],
        decreases x@.len() - i,
    {
        if x[i] != y[i] {
            return false;
        }
        i += 1;
    }
    proof {
        assert(x@ =~= y@);
    }
    true
}

/// The characters of a JSON string value, if `v` is one.
pub open spec fn jv_str_of(v: JsonValue) -> Option<Seq<char>> {
    match v {
        JsonValue::Str(s) => Option::Some(s@),
        _ => Option::None,
    }
}

/// The boolean a JSON value holds, if it is one.
pub open spec fn jv_bool_of(v: JsonValue) -> Option<bool> {
    match v {
        JsonValue::Bool(b) => Option::Some(b),
        _ => Option::None,
    }
}

/// The items of a JSON array, if `v` is one.
pub open spec fn jv_arr_of(v: JsonValue) -> Option<Seq<JsonValue>> {
    match v {
        JsonValue::Arr(items) => Option::Some(items@),
        _ => Option::None,
    }
}

/// The members of a JSON object, if `v` is one.
pub open spec fn jv_obj_of(v: JsonValue) -> Option<Seq<(String, JsonValue)>> {
    match v {
        JsonValue::Obj(members) => Option::Some(members@),
        _ => Option::None,
    }
}

impl JsonValue {
    /// The string this value holds, if it is one.
    pub fn as_str(&self) -> (r: Option<&String>)
        ensures
            match r {
                Option::Some(s) => jv_str_of(*self) == Option::Some(s@),
                Option::None => jv_str_of(*self) is None,
            },
    {
        match self {
            JsonValue::Str(s) => Some(s),
            _ => None,
        }
    }

    /// The boolean this value holds, if it is one.
    pub fn as_bool(&self) -> (r: Option<bool>)
        ensures
            match r {
                Option::Some(b) => jv_bool_of(*self) == Option::Some(b),
                Option::None => jv_bool_of(*self) is None,
            },
    {
        match self {
            JsonValue::Bool(b) => Some(*b),
            _ => None,
        }
    }

    /// The items this value holds, if it is an array.
    pub fn as_arr(&self) -> (r: Option<&Vec<JsonValue>>)
        ensures
            match r {
                Option::Some(items) => jv_arr_of(*self) == Option::Some(items@),
                Option::None => jv_arr_of(*self) is None,
            },
    {
        match self {
            JsonValue::Arr(items) => Some(items),
            _ => None,
        }
    }

    /// The members this value holds, if it is an object.
    pub fn as_obj(&self) -> (r: Option<&Vec<(String, JsonValue)>>)
        ensures
            match r {
                Option::Some(ms) => jv_obj_of(*self) == Option::Some(ms@),
                Option::None => jv_obj_of(*self) is None,
            },
    {
        match self {
            JsonValue::Obj(members) => Some(members),
            _ => None,
        }
    }

    /// Whether this value is the JSON null.
    pub fn is_null(&self) -> (r: bool)
        ensures
            r == (*self matches JsonValue::Null),
    {
        matches!(self, JsonValue::Null)
    }
}

/// That no two pairs of an association list share a key: what the
/// original's map types guaranteed by construction. Parsed documents have
/// it from the parse boundary below; the first-match lookups here are
/// well-defined with or without it.
pub open spec fn keys_unique<T>(pairs: Seq<(String, T)>) -> bool {
    forall|i: int, j: int|
        0 <= i < j < pairs.len() ==> (#[trigger] pairs[i]).0@ != (#[trigger] pairs[j]).0@
}

/// That every object anywhere in a JSON tree has pairwise-distinct member
/// keys, as the parse boundary's ordered-map backing guarantees.
pub open spec fn json_objs_unique(v: JsonValue) -> bool
    decreases v, 0int,
{
    match v {
        JsonValue::Arr(items) => arr_objs_unique(items@),
        JsonValue::Obj(members) => keys_unique(members@) && members_objs_unique(members@),
        _ => true,
    }
}

/// That every object inside each item of an array has distinct keys.
pub open spec fn arr_objs_unique(items: Seq<JsonValue>) -> bool
    decreases items, 1int,
{
    if items.len() == 0 {
        true
    } else {
        json_objs_unique(items.first()) && arr_objs_unique(items.drop_first())
    }
}

/// That every object inside each member's value has distinct keys.
pub open spec fn members_objs_unique(members: Seq<(String, JsonValue)>) -> bool
    decreases members, 1int,
{
    if members.len() == 0 {
        true
    } else {
        json_objs_unique(members.first().1) && members_objs_unique(members.drop_first())
    }
}

/// The value under the first member named `key`, if any.
pub open spec fn obj_lookup(members: Seq<(String, JsonValue)>, key: Seq<char>) -> Option<JsonValue>
    decreases members.len(),
{
    if members.len() == 0 {
        Option::None
    } else if members[0].0@ == key {
        Option::Some(members[0].1)
    } else {
        obj_lookup(members.drop_first(), key)
    }
}

/// The integer a run of decimal digit bytes denotes, accumulating onto
/// `acc`; `None` at the first non-digit.
pub open spec fn dec_digits_val(bs: Seq<u8>, acc: int) -> Option<int>
    decreases bs.len(),
{
    if bs.len() == 0 {
        Option::Some(acc)
    } else if 48 <= bs[0] <= 57 {
        dec_digits_val(bs.drop_first(), acc * 10 + (bs[0] - 48))
    } else {
        Option::None
    }
}

/// The integer a decimal byte string denotes: an optional leading minus,
/// then one or more digits; anything else (a fraction, an exponent, an
/// empty string) is none.
pub open spec fn dec_int_of(bs: Seq<u8>) -> Option<int> {
    if bs.len() == 0 {
        Option::None
    } else if bs[0] == 45 {
        if bs.len() == 1 {
            Option::None
        } else {
            match dec_digits_val(bs.skip(1), 0) {
                Option::Some(n) => Option::Some(-n),
                Option::None => Option::None,
            }
        }
    } else {
        dec_digits_val(bs, 0)
    }
}

/// Appending digits never shrinks a non-negative accumulator.
proof fn lemma_dec_digits_lower(bs: Seq<u8>, acc: int)
    requires
        acc >= 0,
    ensures
        match dec_digits_val(bs, acc) {
            Option::Some(n) => n >= acc,
            Option::None => true,
        },
    decreases bs.len(),
{
    if bs.len() > 0 && 48 <= bs[0] <= 57 {
        lemma_dec_digits_lower(bs.drop_first(), acc * 10 + (bs[0] - 48));
    }
}

/// The `i32` a JSON number denotes, when its raw text is a plain decimal
/// integer in range.
pub open spec fn jv_i32_of(v: JsonValue) -> Option<i32> {
    match v {
        JsonValue::Num(s) => match dec_int_of(str_bytes(s)) {
            Option::Some(n) => if -0x8000_0000 <= n <= 0x7fff_ffff {
                Option::Some(n as i32)
            } else {
                Option::None
            },
            Option::None => Option::None,
        },
        _ => Option::None,
    }
}

/// The `usize` a JSON number denotes, when its raw text is a plain
/// non-negative decimal integer in range.
pub open spec fn jv_usize_of(v: JsonValue) -> Option<usize> {
    match v {
        JsonValue::Num(s) => match dec_int_of(str_bytes(s)) {
            Option::Some(n) => if 0 <= n <= usize::MAX {
                Option::Some(n as usize)
            } else {
                Option::None
            },
            Option::None => Option::None,
        },
        _ => Option::None,
    }
}

/// Accumulate the digits of `b` from position `start` onto zero; `None`
/// past `cap` or at a non-digit.
fn dec_digits_exec(b: &[u8], start: usize, cap: u128) -> (r: Option<u128>)
    requires
        start <= b@.len(),
        cap <= 0xffff_ffff_ffff_ffff,
    ensures
        match r {
            Option::Some(n) => dec_digits_val(b@.skip(start as int), 0) == Option::Some(n as int)
                && n <= cap,
            Option::None => (match dec_digits_val(b@.skip(start as int), 0) {
                Option::Some(m) => m > cap,
                Option::None => true,
            }),
        },
{
    let mut acc: u128 = 0;
    let mut i = start;
    let n = b.len();
    proof {
        lemma_dec_digits_lower(b@.skip(start as int), 0);
    }
    while i < n
        invariant
            start <= i <= n,
            n == b@.len(),
            cap <= 0xffff_ffff_ffff_ffff,
            acc <= cap,
            dec_digits_val(b@.skip(start as int), 0) == dec_digits_val(
                b@.skip(i as int),
                acc as int,
            ),
        decreases n - i,
    {
        let d = b[i];
        if d < 48 || d > 57 {
            return None;
        }
        proof {
            assert(b@.skip(i as int)[0] == b@[i as int]);
            assert(b@.skip(i as int).drop_first() =~= b@.skip(i + 1));
        }
        let next = acc * 10 + ((d - 48) as u128);
        if next > cap {
            proof {
                lemma_dec_digits_lower(b@.skip(i + 1), next as int);
            }
            return None;
        }
        acc = next;
        i += 1;
    }
    proof {
        assert(b@.skip(n as int) =~= Seq::<u8>::empty());
    }
    Some(acc)
}

impl JsonValue {
    /// The `i32` this value denotes, if it is an in-range decimal integer.
    pub fn as_i32(&self) -> (r: Option<i32>)
        ensures
            r == jv_i32_of(*self),
    {
        let s = match self {
            JsonValue::Num(s) => s,
            _ => {
                return None;
            },
        };
        let b = s.as_str().as_bytes();
        if b.len() == 0 {
            return None;
        }
        if b[0] == 45 {
            if b.len() == 1 {
                return None;
            }
            match dec_digits_exec(b, 1, 0x8000_0000) {
                Some(n) => Some(-(n as i64) as i32),
                None => None,
            }
        } else {
            proof {
                assert(b@.skip(0) =~= b@);
            }
            match dec_digits_exec(b, 0, 0x7fff_ffff) {
                Some(n) => Some(n as i32),
                None => None,
            }
        }
    }

    /// The `usize` this value denotes, if it is an in-range non-negative
    /// decimal integer.
    pub fn as_usize(&self) -> (r: Option<usize>)
        ensures
            r == jv_usize_of(*self),
    {
        let s = match self {
            JsonValue::Num(s) => s,
            _ => {
                return None;
            },
        };
        let b = s.as_str().as_bytes();
        if b.len() == 0 {
            return None;
        }
        if b[0] == 45 {
            if b.len() == 1 {
                return None;
            }
            // a minus admits only the zero value
            return match dec_digits_exec(b, 1, usize::MAX as u128) {
                Some(n) => if n == 0 {
                    Some(0)
                } else {
                    None
                },
                None => None,
            };
        }
        proof {
            assert(b@.skip(0) =~= b@);
        }
        match dec_digits_exec(b, 0, usize::MAX as u128) {
            Some(n) => Some(n as usize),
            None => None,
        }
    }
}

/// Look up the first member named `key` in an object's member list.
pub fn obj_get<'a>(members: &'a [(String, JsonValue)], key: &str) -> (r: Option<&'a JsonValue>)
    ensures
        match r {
            Option::Some(v) => obj_lookup(members@, key@) == Option::Some(*v),
            Option::None => obj_lookup(members@, key@) is None,
        },
    decreases members@.len(),
{
    if members.len() == 0 {
        None
    } else if str_eq(members[0].0.as_str(), key) {
        Some(&members[0].1)
    } else {
        let rest = &members[1..members.len()];
        proof {
            assert(rest@ =~= members@.drop_first());
        }
        obj_get(rest, key)
    }
}

/// An optional string member: absent or null is none, a string is itself,
/// anything else refuses the document.
pub open spec fn opt_str_member(ms: Seq<(String, JsonValue)>, key: Seq<char>) -> Option<
    Option<Seq<char>>,
> {
    match obj_lookup(ms, key) {
        Option::None => Option::Some(Option::None),
        Option::Some(JsonValue::Null) => Option::Some(Option::None),
        Option::Some(JsonValue::Str(s)) => Option::Some(Option::Some(s@)),
        Option::Some(_) => Option::None,
    }
}

/// A required string member.
pub open spec fn req_str_member(ms: Seq<(String, JsonValue)>, key: Seq<char>) -> Option<Seq<char>> {
    match obj_lookup(ms, key) {
        Option::None => Option::None,
        Option::Some(v) => jv_str_of(v),
    }
}

/// A required boolean member.
pub open spec fn req_bool_member(ms: Seq<(String, JsonValue)>, key: Seq<char>) -> Option<bool> {
    match obj_lookup(ms, key) {
        Option::None => Option::None,
        Option::Some(v) => jv_bool_of(v),
    }
}

/// Read an optional string member: absent or null is none, a string is
/// itself, anything else refuses the document.
pub fn get_opt_str(ms: &Vec<(String, JsonValue)>, key: &str) -> (r: Option<Option<String>>)
    ensures
        match r {
            Option::None => opt_str_member(ms@, key@) is None,
            Option::Some(Option::None) => opt_str_member(ms@, key@) == Option::Some(
                Option::<Seq<char>>::None,
            ),
            Option::Some(Option::Some(s)) => opt_str_member(ms@, key@) == Option::Some(
                Option::Some(s@),
            ),
        },
{
    match obj_get(ms.as_slice(), key) {
        None => Some(None),
        Some(v) => {
            if v.is_null() {
                Some(None)
            } else {
                match v.as_str() {
                    Some(s) => Some(Some(s.clone())),
                    None => None,
                }
            }
        },
    }
}

/// Read a required string member.
pub fn get_req_str(ms: &Vec<(String, JsonValue)>, key: &str) -> (r: Option<String>)
    ensures
        match r {
            Option::Some(s) => req_str_member(ms@, key@) == Option::Some(s@),
            Option::None => req_str_member(ms@, key@) is None,
        },
{
    match obj_get(ms.as_slice(), key) {
        None => None,
        Some(v) => match v.as_str() {
            Some(s) => Some(s.clone()),
            None => None,
        },
    }
}

/// Read a required boolean member.
pub fn get_req_bool(ms: &Vec<(String, JsonValue)>, key: &str) -> (r: Option<bool>)
    ensures
        r == req_bool_member(ms@, key@),
{
    match obj_get(ms.as_slice(), key) {
        None => None,
        Some(v) => v.as_bool(),
    }
}

/// The key and value views of an object whose values are all strings;
/// `None` when any value is not one.
pub open spec fn str_map_view(members: Seq<(String, JsonValue)>) -> Option<
    Seq<(Seq<char>, Seq<char>)>,
>
    decreases members.len(),
{
    if members.len() == 0 {
        Option::Some(Seq::empty())
    } else {
        match jv_str_of(members[0].1) {
            Option::None => Option::None,
            Option::Some(s) => match str_map_view(members.drop_first()) {
                Option::None => Option::None,
                Option::Some(rest) => Option::Some(seq![(members[0].0@, s)] + rest),
            },
        }
    }
}

/// The pair views of a key-to-string list.
pub open spec fn str_pairs_views(ps: Seq<(String, String)>) -> Seq<(Seq<char>, Seq<char>)> {
    ps.map_values(|p: (String, String)| (p.0@, p.1@))
}

/// Collect an all-string object's members; `None` when any value is not a
/// string.
pub fn parse_str_map_members(members: &[(String, JsonValue)]) -> (r: Option<Vec<(String, String)>>)
    ensures
        match r {
            Option::Some(ps) => str_map_view(members@) == Option::Some(str_pairs_views(ps@)),
            Option::None => str_map_view(members@) is None,
        },
    decreases members@.len(),
{
    if members.len() == 0 {
        let ps: Vec<(String, String)> = Vec::new();
        proof {
            assert(str_pairs_views(ps@) =~= Seq::<(Seq<char>, Seq<char>)>::empty());
        }
        Some(ps)
    } else {
        match members[0].1.as_str() {
            None => None,
            Some(s) => {
                let rest = &members[1..members.len()];
                proof {
                    assert(rest@ =~= members@.drop_first());
                }
                match parse_str_map_members(rest) {
                    None => None,
                    Some(mut ps) => {
                        ps.insert(0, (members[0].0.clone(), s.clone()));
                        proof {
                            assert(str_pairs_views(ps@) =~~= seq![(members@[0].0@, s@)]
                                + str_map_view(members@.drop_first())->Some_0);
                        }
                        Some(ps)
                    },
                }
            },
        }
    }
}

/// The all-string object a value holds, if it is one.
pub open spec fn jv_str_map_of(v: JsonValue) -> Option<Seq<(Seq<char>, Seq<char>)>> {
    match jv_obj_of(v) {
        Option::None => Option::None,
        Option::Some(ms) => str_map_view(ms),
    }
}

/// Collect a value as an all-string object.
pub fn parse_str_map(v: &JsonValue) -> (r: Option<Vec<(String, String)>>)
    ensures
        match r {
            Option::Some(ps) => jv_str_map_of(*v) == Option::Some(str_pairs_views(ps@)),
            Option::None => jv_str_map_of(*v) is None,
        },
{
    match v.as_obj() {
        None => None,
        Some(ms) => parse_str_map_members(ms.as_slice()),
    }
}

/// A found member is one of the object's members (for termination
/// measures that descend through a lookup).
pub proof fn lemma_obj_lookup_is_member(ms: Seq<(String, JsonValue)>, key: Seq<char>)
    ensures
        match obj_lookup(ms, key) {
            Option::Some(x) => exists|k: int| 0 <= k < ms.len() && (#[trigger] ms[k]).1 == x,
            Option::None => true,
        },
    decreases ms.len(),
{
    if ms.len() > 0 && ms[0].0@ != key {
        lemma_obj_lookup_is_member(ms.drop_first(), key);
        if obj_lookup(ms, key) is Some {
            let k = choose|k: int|
                0 <= k < ms.drop_first().len() && ms.drop_first()[k].1 == obj_lookup(
                    ms,
                    key,
                )->Some_0;
            assert(ms[k + 1].1 == obj_lookup(ms, key)->Some_0);
        }
    }
}

/// An optional all-string-object member: absent or null is none, such an
/// object is itself, anything else refuses the document.
pub open spec fn opt_str_map_member(ms: Seq<(String, JsonValue)>, key: Seq<char>) -> Option<
    Option<Seq<(Seq<char>, Seq<char>)>>,
> {
    match obj_lookup(ms, key) {
        Option::None => Option::Some(Option::None),
        Option::Some(JsonValue::Null) => Option::Some(Option::None),
        Option::Some(v) => match jv_str_map_of(v) {
            Option::Some(m) => Option::Some(Option::Some(m)),
            Option::None => Option::None,
        },
    }
}

/// Read an optional all-string-object member.
pub fn get_opt_str_map(ms: &Vec<(String, JsonValue)>, key: &str) -> (r: Option<
    Option<Vec<(String, String)>>,
>)
    ensures
        match r {
            Option::None => opt_str_map_member(ms@, key@) is None,
            Option::Some(Option::None) => opt_str_map_member(ms@, key@) == Option::Some(
                Option::<Seq<(Seq<char>, Seq<char>)>>::None,
            ),
            Option::Some(Option::Some(ps)) => opt_str_map_member(ms@, key@) == Option::Some(
                Option::Some(str_pairs_views(ps@)),
            ),
        },
{
    match obj_get(ms.as_slice(), key) {
        None => Some(None),
        Some(v) => {
            if v.is_null() {
                Some(None)
            } else {
                match parse_str_map(v) {
                    Some(ps) => Some(Some(ps)),
                    None => None,
                }
            }
        },
    }
}

/// An optional non-negative integer member: absent or null is none.
pub open spec fn opt_usize_member(ms: Seq<(String, JsonValue)>, key: Seq<char>) -> Option<
    Option<usize>,
> {
    match obj_lookup(ms, key) {
        Option::None => Option::Some(Option::None),
        Option::Some(JsonValue::Null) => Option::Some(Option::None),
        Option::Some(v) => match jv_usize_of(v) {
            Option::Some(n) => Option::Some(Option::Some(n)),
            Option::None => Option::None,
        },
    }
}

/// Read an optional non-negative integer member.
pub fn get_opt_usize(ms: &Vec<(String, JsonValue)>, key: &str) -> (r: Option<Option<usize>>)
    ensures
        r == opt_usize_member(ms@, key@),
{
    match obj_get(ms.as_slice(), key) {
        None => Some(None),
        Some(v) => {
            if v.is_null() {
                Some(None)
            } else {
                match v.as_usize() {
                    Some(n) => Some(Some(n)),
                    None => None,
                }
            }
        },
    }
}

/// An optional integer member: absent or null is none.
pub open spec fn opt_i32_member(ms: Seq<(String, JsonValue)>, key: Seq<char>) -> Option<
    Option<i32>,
> {
    match obj_lookup(ms, key) {
        Option::None => Option::Some(Option::None),
        Option::Some(JsonValue::Null) => Option::Some(Option::None),
        Option::Some(v) => match jv_i32_of(v) {
            Option::Some(n) => Option::Some(Option::Some(n)),
            Option::None => Option::None,
        },
    }
}

/// Read an optional integer member.
pub fn get_opt_i32(ms: &Vec<(String, JsonValue)>, key: &str) -> (r: Option<Option<i32>>)
    ensures
        r == opt_i32_member(ms@, key@),
{
    match obj_get(ms.as_slice(), key) {
        None => Some(None),
        Some(v) => {
            if v.is_null() {
                Some(None)
            } else {
                match v.as_i32() {
                    Some(n) => Some(Some(n)),
                    None => None,
                }
            }
        },
    }
}

/// A required integer member.
pub open spec fn req_i32_member(ms: Seq<(String, JsonValue)>, key: Seq<char>) -> Option<i32> {
    match obj_lookup(ms, key) {
        Option::None => Option::None,
        Option::Some(v) => jv_i32_of(v),
    }
}

/// Read a required integer member.
pub fn get_req_i32(ms: &Vec<(String, JsonValue)>, key: &str) -> (r: Option<i32>)
    ensures
        r == req_i32_member(ms@, key@),
{
    match obj_get(ms.as_slice(), key) {
        None => None,
        Some(v) => v.as_i32(),
    }
}

/// The key views and integers of an object whose values are all in-range
/// decimal integers; `None` when any value is not one.
pub open spec fn i32_map_view(members: Seq<(String, JsonValue)>) -> Option<Seq<(Seq<char>, i32)>>
    decreases members.len(),
{
    if members.len() == 0 {
        Option::Some(Seq::empty())
    } else {
        match jv_i32_of(members[0].1) {
            Option::None => Option::None,
            Option::Some(n) => match i32_map_view(members.drop_first()) {
                Option::None => Option::None,
                Option::Some(rest) => Option::Some(seq![(members[0].0@, n)] + rest),
            },
        }
    }
}

/// The pair views of a key-to-integer list.
pub open spec fn i32_pairs_views(ps: Seq<(String, i32)>) -> Seq<(Seq<char>, i32)> {
    ps.map_values(|p: (String, i32)| (p.0@, p.1))
}

/// Collect an all-integer object's members.
pub fn parse_i32_map_members(members: &[(String, JsonValue)]) -> (r: Option<Vec<(String, i32)>>)
    ensures
        match r {
            Option::Some(ps) => i32_map_view(members@) == Option::Some(i32_pairs_views(ps@)),
            Option::None => i32_map_view(members@) is None,
        },
    decreases members@.len(),
{
    if members.len() == 0 {
        let ps: Vec<(String, i32)> = Vec::new();
        proof {
            assert(i32_pairs_views(ps@) =~= Seq::<(Seq<char>, i32)>::empty());
        }
        Some(ps)
    } else {
        match members[0].1.as_i32() {
            None => None,
            Some(n) => {
                let rest = &members[1..members.len()];
                proof {
                    assert(rest@ =~= members@.drop_first());
                }
                match parse_i32_map_members(rest) {
                    None => None,
                    Some(mut ps) => {
                        ps.insert(0, (members[0].0.clone(), n));
                        proof {
                            assert(i32_pairs_views(ps@) =~~= seq![(members@[0].0@, n)]
                                + i32_map_view(members@.drop_first())->Some_0);
                        }
                        Some(ps)
                    },
                }
            },
        }
    }
}

/// The all-integer object a value holds, if it is one.
pub open spec fn jv_i32_map_of(v: JsonValue) -> Option<Seq<(Seq<char>, i32)>> {
    match jv_obj_of(v) {
        Option::None => Option::None,
        Option::Some(ms) => i32_map_view(ms),
    }
}

/// Collect a value as an all-integer object.
pub fn parse_i32_map(v: &JsonValue) -> (r: Option<Vec<(String, i32)>>)
    ensures
        match r {
            Option::Some(ps) => jv_i32_map_of(*v) == Option::Some(i32_pairs_views(ps@)),
            Option::None => jv_i32_map_of(*v) is None,
        },
{
    match v.as_obj() {
        None => None,
        Some(ms) => parse_i32_map_members(ms.as_slice()),
    }
}

/// The key views and inner string maps of an object whose values are all
/// string maps; `None` when any value is not one.
pub open spec fn str_map_map_view(members: Seq<(String, JsonValue)>) -> Option<
    Seq<(Seq<char>, Seq<(Seq<char>, Seq<char>)>)>,
>
    decreases members.len(),
{
    if members.len() == 0 {
        Option::Some(Seq::empty())
    } else {
        match jv_str_map_of(members[0].1) {
            Option::None => Option::None,
            Option::Some(m) => match str_map_map_view(members.drop_first()) {
                Option::None => Option::None,
                Option::Some(rest) => Option::Some(seq![(members[0].0@, m)] + rest),
            },
        }
    }
}

/// The pair views of a key-to-string-map list.
pub open spec fn str_map_pairs_views(ps: Seq<(String, Vec<(String, String)>)>) -> Seq<
    (Seq<char>, Seq<(Seq<char>, Seq<char>)>),
> {
    ps.map_values(|p: (String, Vec<(String, String)>)| (p.0@, str_pairs_views(p.1@)))
}

/// Collect an object whose values are all string maps.
pub fn parse_str_map_map_members(members: &[(String, JsonValue)]) -> (r: Option<
    Vec<(String, Vec<(String, String)>)>,
>)
    ensures
        match r {
            Option::Some(ps) => str_map_map_view(members@) == Option::Some(
                str_map_pairs_views(ps@),
            ),
            Option::None => str_map_map_view(members@) is None,
        },
    decreases members@.len(),
{
    if members.len() == 0 {
        let ps: Vec<(String, Vec<(String, String)>)> = Vec::new();
        proof {
            assert(str_map_pairs_views(ps@) =~= Seq::<
                (Seq<char>, Seq<(Seq<char>, Seq<char>)>),
            >::empty());
        }
        Some(ps)
    } else {
        match parse_str_map(&members[0].1) {
            None => None,
            Some(m) => {
                let rest = &members[1..members.len()];
                proof {
                    assert(rest@ =~= members@.drop_first());
                }
                match parse_str_map_map_members(rest) {
                    None => None,
                    Some(mut ps) => {
                        let ghost mview = str_pairs_views(m@);
                        ps.insert(0, (members[0].0.clone(), m));
                        proof {
                            assert(str_map_pairs_views(ps@) =~~= seq![(members@[0].0@, mview)]
                                + str_map_map_view(members@.drop_first())->Some_0);
                        }
                        Some(ps)
                    },
                }
            },
        }
    }
}

/// The object-of-string-maps a value holds, if it is one.
pub open spec fn jv_str_map_map_of(v: JsonValue) -> Option<
    Seq<(Seq<char>, Seq<(Seq<char>, Seq<char>)>)>,
> {
    match jv_obj_of(v) {
        Option::None => Option::None,
        Option::Some(ms) => str_map_map_view(ms),
    }
}

/// Collect a value as an object of string maps.
pub fn parse_str_map_map(v: &JsonValue) -> (r: Option<Vec<(String, Vec<(String, String)>)>>)
    ensures
        match r {
            Option::Some(ps) => jv_str_map_map_of(*v) == Option::Some(str_map_pairs_views(ps@)),
            Option::None => jv_str_map_map_of(*v) is None,
        },
{
    match v.as_obj() {
        None => None,
        Some(ms) => parse_str_map_map_members(ms.as_slice()),
    }
}

/// An optional object-of-string-maps member: absent or null is none.
pub open spec fn opt_str_map_map_member(ms: Seq<(String, JsonValue)>, key: Seq<char>) -> Option<
    Option<Seq<(Seq<char>, Seq<(Seq<char>, Seq<char>)>)>>,
> {
    match obj_lookup(ms, key) {
        Option::None => Option::Some(Option::None),
        Option::Some(JsonValue::Null) => Option::Some(Option::None),
        Option::Some(v) => match jv_str_map_map_of(v) {
            Option::Some(m) => Option::Some(Option::Some(m)),
            Option::None => Option::None,
        },
    }
}

/// Read an optional object-of-string-maps member.
pub fn get_opt_str_map_map(ms: &Vec<(String, JsonValue)>, key: &str) -> (r: Option<
    Option<Vec<(String, Vec<(String, String)>)>>,
>)
    ensures
        match r {
            Option::None => opt_str_map_map_member(ms@, key@) is None,
            Option::Some(Option::None) => opt_str_map_map_member(ms@, key@) == Option::Some(
                Option::<Seq<(Seq<char>, Seq<(Seq<char>, Seq<char>)>)>>::None,
            ),
            Option::Some(Option::Some(ps)) => opt_str_map_map_member(ms@, key@) == Option::Some(
                Option::Some(str_map_pairs_views(ps@)),
            ),
        },
{
    match obj_get(ms.as_slice(), key) {
        None => Some(None),
        Some(v) => {
            if v.is_null() {
                Some(None)
            } else {
                match parse_str_map_map(v) {
                    Some(ps) => Some(Some(ps)),
                    None => None,
                }
            }
        },
    }
}

} // verus!
