//! ABI codec: function-selector hashing and fixed-width parameter
//! encoding/decoding, per the standard contract-ABI convention.
//!
//! A scalar parameter occupies a fixed-width big-endian word: 32 bytes for
//! `uint*`/`int*`, 20 bytes for `address`; the value is right-aligned and
//! left-padded with zero bytes. A function selector is the first 4 bytes of
//! the Keccak-256 digest of the canonical signature string.

use vstd::prelude::*;

verus! {

use vstd::string::StringSliceAdditionalSpecFns;

/// The Keccak-256 digest of a byte string; the digest itself is outside
/// code's work and is left uninterpreted.
pub uninterp spec fn keccak256_spec(data: Seq<u8>) -> Seq<u8>;

/// Relies on tiny_keccak (`Keccak::v256`, `Hasher::update`,
/// `Hasher::finalize`): the Keccak-256 digest is 32 bytes long and depends on
/// the input bytes alone.
#[verifier::external_body]
fn keccak256(data: &[u8]) -> (r: Vec<u8>)
    ensures
        r@ == keccak256_spec(data@),
        r@.len() == 32,
{
    let mut k = tiny_keccak::Keccak::v256();
    tiny_keccak::Hasher::update(&mut k, data);
    let mut out = [0u8; 32];
    tiny_keccak::Hasher::finalize(k, &mut out);
    out.to_vec()
}

/// The 4-byte function selector of a canonical signature, as a function of
/// the signature's UTF-8 bytes.
pub open spec fn selector_spec(sig: Seq<u8>) -> Seq<u8> {
    keccak256_spec(sig).take(4)
}

/// Compute the 4-byte function selector of a canonical signature string.
pub fn get_sig(signature: &str) -> (r: Vec<u8>)
    ensures
        r@ == selector_spec(signature.spec_bytes()),
        r@.len() == 4,
{
    let digest = keccak256(signature.as_bytes());
    let mut r: Vec<u8> = Vec::new();
    r.push(digest[0]);
    r.push(digest[1]);
    r.push(digest[2]);
    r.push(digest[3]);
    proof {
        assert(r@ =~= keccak256_spec(signature.spec_bytes()).take(4));
    }
    r
}

/// Selector computation is deterministic: equal canonical signatures give
/// equal selectors, on every call.
pub proof fn lemma_selector_deterministic(s1: Seq<u8>, s2: Seq<u8>)
    requires
        s1 == s2,
    ensures
        selector_spec(s1) == selector_spec(s2),
{
}

/// The scalar parameter kinds the codec supports. Array and tuple types are
/// unsupported by design and are rejected before any encoding happens.
#[derive(Debug)]
pub enum AbiType {
    Uint,
    Int,
    Address,
}

/// The encoded word width of a parameter kind, in bytes.
pub open spec fn type_width(t: AbiType) -> nat {
    match t {
        AbiType::Uint => 32,
        AbiType::Int => 32,
        AbiType::Address => 20,
    }
}

impl AbiType {
    /// The width in bytes of this kind's encoded word.
    pub fn len(&self) -> (r: usize)
        ensures
            r == type_width(*self),
    {
        match self {
            AbiType::Uint | AbiType::Int => 32,
            AbiType::Address => 20,
        }
    }
}

/// A scalar value already encoded to its fixed-width big-endian word.
#[derive(Debug)]
pub enum AbiValueType {
    Uint(Vec<u8>),
    Int(Vec<u8>),
    Address(Vec<u8>),
}

/// The encoded word held by an [`AbiValueType`].
pub open spec fn value_bytes(v: AbiValueType) -> Seq<u8> {
    match v {
        AbiValueType::Uint(b) => b@,
        AbiValueType::Int(b) => b@,
        AbiValueType::Address(b) => b@,
    }
}

/// A well-formed encoded value holds exactly its kind's width.
pub open spec fn value_wf(v: AbiValueType) -> bool {
    match v {
        AbiValueType::Uint(b) => b@.len() == 32,
        AbiValueType::Int(b) => b@.len() == 32,
        AbiValueType::Address(b) => b@.len() == 20,
    }
}

/// A sequence of `n` zero bytes.
pub open spec fn zeros(n: nat) -> Seq<u8> {
    Seq::new(n, |i: int| 0u8)
}

/// `data` left-padded with zero bytes up to width `w` (defined for
/// `data.len() <= w`): the value occupies the low, right-hand side of the
/// word, the big-endian numeric convention.
pub open spec fn pad_left(data: Seq<u8>, w: nat) -> Seq<u8> {
    zeros((w - data.len()) as nat) + data
}

impl AbiValueType {
    /// Left-pad `data` with zeroes to exactly `max` bytes. Oversize input is
    /// never truncated; it is excluded here and rejected by
    /// [`encode_parameter`].
    pub fn sanitize(data: &[u8], max: usize) -> (r: Vec<u8>)
        requires
            data@.len() <= max,
        ensures
            r@ == pad_left(data@, max as nat),
            r@.len() == max,
    {
        let mut r: Vec<u8> = Vec::new();
        let pad = max - data.len();
        let mut i: usize = 0;
        while i < pad
            invariant
                i <= pad,
                r@ =~= zeros(i as nat),
            decreases pad - i,
        {
            r.push(0u8);
            i += 1;
        }
        let mut j: usize = 0;
        while j < data.len()
            invariant
                j <= data@.len(),
                data@.len() + pad == max,
                r@ =~= zeros(pad as nat) + data@.take(j as int),
            decreases data@.len() - j,
        {
            r.push(data[j]);
            j += 1;
        }
        proof {
            assert(data@.take(data@.len() as int) =~= data@);
            assert(r@ =~= pad_left(data@, max as nat));
        }
        r
    }

    /// The encoded word inside this value.
    pub fn inner(&self) -> (r: &Vec<u8>)
        ensures
            r@ == value_bytes(*self),
    {
        match self {
            AbiValueType::Uint(inner) => inner,
            AbiValueType::Int(inner) => inner,
            AbiValueType::Address(inner) => inner,
        }
    }
}

/// The parameter kind declared by an ABI type name: a `uint*` prefix is an
/// unsigned word, an `int*` prefix a signed one, exactly `address` an
/// address. A name ending in `]` (array) or `)` (tuple) is unsupported, as
/// is anything else.
pub open spec fn abi_type_of(ty: Seq<u8>) -> Option<AbiType> {
    if ty.len() > 0 && (ty.last() == 93u8 || ty.last() == 41u8) {
        None
    } else if ty.len() >= 4 && ty.take(4) == uint_prefix() {
        Some(AbiType::Uint)
    } else if ty.len() >= 3 && ty.take(3) == int_prefix() {
        Some(AbiType::Int)
    } else if ty == address_name() {
        Some(AbiType::Address)
    } else {
        None
    }
}

/// The bytes of `"uint"`.
pub open spec fn uint_prefix() -> Seq<u8> {
    seq![117u8, 105u8, 110u8, 116u8]
}

/// The bytes of `"int"`.
pub open spec fn int_prefix() -> Seq<u8> {
    seq![105u8, 110u8, 116u8]
}

/// The bytes of `"address"`.
pub open spec fn address_name() -> Seq<u8> {
    seq![97u8, 100u8, 100u8, 114u8, 101u8, 115u8, 115u8]
}

/// Decide the parameter kind of an ABI type name, as [`abi_type_of`] does.
pub fn parse_abi_type(ty: &[u8]) -> (r: Option<AbiType>)
    ensures
        r == abi_type_of(ty@),
{
    let n = ty.len();
    if n > 0 && (ty[n - 1] == 93u8 || ty[n - 1] == 41u8) {
        None
    } else if n >= 4 && ty[0] == 117u8 && ty[1] == 105u8 && ty[2] == 110u8 && ty[3] == 116u8 {
        proof {
            assert(ty@.take(4) =~= uint_prefix());
        }
        Some(AbiType::Uint)
    } else if n >= 3 && ty[0] == 105u8 && ty[1] == 110u8 && ty[2] == 116u8 {
        proof {
            assert(ty@.take(3) =~= int_prefix());
            if ty@.len() >= 4 && ty@.take(4) == uint_prefix() {
                assert(ty@.take(4)[0] == 117u8);
                assert(ty@.take(4)[0] == ty@[0]);
            }
        }
        Some(AbiType::Int)
    } else if n == 7 && ty[0] == 97u8 && ty[1] == 100u8 && ty[2] == 100u8 && ty[3] == 114u8
        && ty[4] == 101u8 && ty[5] == 115u8 && ty[6] == 115u8 {
        proof {
            assert(ty@ =~= address_name());
        }
        Some(AbiType::Address)
    } else {
        proof {
            if ty@ == address_name() {
                assert(ty@.len() == 7);
                assert(ty@[0] == 97u8 && ty@[1] == 100u8 && ty@[2] == 100u8 && ty@[3] == 114u8
                    && ty@[4] == 101u8 && ty@[5] == 115u8 && ty@[6] == 115u8);
            }
            if ty@.len() >= 4 && ty@.take(4) == uint_prefix() {
                assert(ty@[0] == uint_prefix()[0] && ty@[1] == uint_prefix()[1]
                    && ty@[2] == uint_prefix()[2] && ty@[3] == uint_prefix()[3]);
            }
            if ty@.len() >= 3 && ty@.take(3) == int_prefix() {
                assert(ty@[0] == int_prefix()[0] && ty@[1] == int_prefix()[1]
                    && ty@[2] == int_prefix()[2]);
            }
        }
        None
    }
}

/// Why an encode or decode call failed. Every failure is total for the one
/// call: no partial result is ever returned.
#[derive(Debug)]
pub enum AbiError {
    /// The ABI type name is an array, a tuple, or otherwise unsupported.
    UnsupportedType,
    /// The raw value is wider than the declared type's word: it is rejected,
    /// never truncated.
    Oversize,
    /// The number of supplied values differs from the number of declared
    /// parameter types.
    ArityMismatch,
    /// The signature has no parenthesized type list.
    BadSignature,
    /// The data to decode is not exactly as long as the declared types' widths.
    LengthMismatch,
}

/// The parameter kind a value was encoded for.
pub open spec fn value_kind(v: AbiValueType) -> AbiType {
    match v {
        AbiValueType::Uint(_) => AbiType::Uint,
        AbiValueType::Int(_) => AbiType::Int,
        AbiValueType::Address(_) => AbiType::Address,
    }
}

/// The word `encode_parameter` produces: the value left-padded to its type's
/// width, or the error naming why none exists.
pub open spec fn encoded_word(ty: Seq<u8>, data: Seq<u8>) -> Result<Seq<u8>, AbiError> {
    match abi_type_of(ty) {
        Option::None => Result::Err(AbiError::UnsupportedType),
        Option::Some(t) => if data.len() > type_width(t) {
            Result::Err(AbiError::Oversize)
        } else {
            Result::Ok(pad_left(data, type_width(t)))
        },
    }
}

/// Encode one scalar parameter against its declared ABI type name: the raw
/// big-endian value is right-aligned in a 32-byte (`uint*`/`int*`) or
/// 20-byte (`address`) word. Oversize input and unsupported type names fail;
/// nothing is ever truncated.
pub fn encode_parameter(ty: &[u8], data: &[u8]) -> (r: Result<AbiValueType, AbiError>)
    ensures
        (match encoded_word(ty@, data@) {
            Result::Err(e) => r == Result::<AbiValueType, AbiError>::Err(e),
            Result::Ok(w) => (r matches Result::Ok(v) && value_bytes(v) == w
                && Option::Some(value_kind(v)) == abi_type_of(ty@) && value_wf(v)),
        }),
        data@.len() > 32 ==> r is Err,
{
    match parse_abi_type(ty) {
        None => Err(AbiError::UnsupportedType),
        Some(t) => {
            let w = t.len();
            if data.len() > w {
                Err(AbiError::Oversize)
            } else {
                let padded = AbiValueType::sanitize(data, w);
                Ok(
                    match t {
                        AbiType::Uint => AbiValueType::Uint(padded),
                        AbiType::Int => AbiValueType::Int(padded),
                        AbiType::Address => AbiValueType::Address(padded),
                    },
                )
            }
        },
    }
}

/// The concatenation of the encoded words of a sequence of values, in order.
pub open spec fn encode_concat(vs: Seq<AbiValueType>) -> Seq<u8>
    decreases vs.len(),
{
    if vs.len() == 0 {
        Seq::empty()
    } else {
        encode_concat(vs.drop_last()) + value_bytes(vs.last())
    }
}

/// Concatenate already-encoded parameter words, in order.
pub fn abi_encode(types: Vec<AbiValueType>) -> (r: Vec<u8>)
    ensures
        r@ == encode_concat(types@),
{
    let mut r: Vec<u8> = Vec::new();
    let mut i: usize = 0;
    while i < types.len()
        invariant
            i <= types@.len(),
            r@ == encode_concat(types@.take(i as int)),
        decreases types@.len() - i,
    {
        let w = types[i].inner();
        let mut k: usize = 0;
        while k < w.len()
            invariant
                k <= w@.len(),
                w@ == value_bytes(types@[i as int]),
                i < types@.len(),
                r@ == encode_concat(types@.take(i as int)) + w@.take(k as int),
            decreases w@.len() - k,
        {
            r.push(w[k]);
            k += 1;
        }
        proof {
            assert(w@.take(w@.len() as int) =~= w@);
            assert(types@.take(i + 1).drop_last() =~= types@.take(i as int));
            assert(types@.take(i + 1).last() == types@[i as int]);
        }
        i += 1;
    }
    proof {
        assert(types@.take(types@.len() as int) =~= types@);
    }
    r
}

/// The position of the first occurrence of `b` in `s`, if any.
pub open spec fn find_byte(s: Seq<u8>, b: u8) -> Option<int>
    decreases s.len(),
{
    if s.len() == 0 {
        Option::None
    } else if s[0] == b {
        Option::Some(0)
    } else {
        match find_byte(s.drop_first(), b) {
            Option::None => Option::None,
            Option::Some(i) => Option::Some(i + 1),
        }
    }
}

/// `find_byte` returns the first position holding `b`, and `None` exactly
/// when `b` does not occur.
pub proof fn lemma_find_byte(s: Seq<u8>, b: u8)
    ensures
        match find_byte(s, b) {
            Option::None => forall|j: int| 0 <= j < s.len() ==> s[j] != b,
            Option::Some(i) => 0 <= i < s.len() && s[i] == b && (forall|j: int|
                0 <= j < i ==> s[j] != b),
        },
    decreases s.len(),
{
    if s.len() > 0 && s[0] != b {
        lemma_find_byte(s.drop_first(), b);
        match find_byte(s.drop_first(), b) {
            Option::None => {
                assert forall|j: int| 0 <= j < s.len() implies s[j] != b by {
                    if j > 0 {
                        assert(s.drop_first()[j - 1] == s[j]);
                    }
                }
            },
            Option::Some(i) => {
                assert(s.drop_first()[i] == s[i + 1]);
                assert forall|j: int| 0 <= j < i + 1 implies s[j] != b by {
                    if j > 0 {
                        assert(s.drop_first()[j - 1] == s[j]);
                    }
                }
            },
        }
    }
}

/// Find the first occurrence of `b` in `s`.
pub fn find_byte_in(s: &[u8], b: u8) -> (r: Option<usize>)
    ensures
        match r {
            Option::None => find_byte(s@, b) is None,
            Option::Some(u) => find_byte(s@, b) == Option::Some(u as int),
        },
{
    proof {
        lemma_find_byte(s@, b);
    }
    let mut i: usize = 0;
    while i < s.len()
        invariant
            i <= s@.len(),
            forall|j: int| 0 <= j < i ==> s@[j] != b,
            match find_byte(s@, b) {
                Option::None => forall|j: int| 0 <= j < s@.len() ==> s@[j] != b,
                Option::Some(k) => 0 <= k < s@.len() && s@[k] == b && (forall|j: int|
                    0 <= j < k ==> s@[j] != b),
            },
        decreases s@.len() - i,
    {
        if s[i] == b {
            return Some(i);
        }
        i += 1;
    }
    None
}

/// The comma-separated fields of `s`: splitting the empty string gives one
/// empty field, as the original convention has it.
pub open spec fn split_commas(s: Seq<u8>) -> Seq<Seq<u8>>
    decreases s.len(),
{
    match find_byte(s, 44u8) {
        Option::None => seq![s],
        Option::Some(i) => if 0 <= i < s.len() {
            seq![s.take(i)] + split_commas(s.skip(i + 1))
        } else {
            seq![s]
        },
    }
}

/// Split `s` at every comma.
pub fn split_commas_exec(s: &[u8]) -> (r: Vec<Vec<u8>>)
    ensures
        r.deep_view() == split_commas(s@),
    decreases s@.len(),
{
    proof {
        lemma_find_byte(s@, 44u8);
    }
    match find_byte_in(s, 44u8) {
        None => {
            let mut r: Vec<Vec<u8>> = Vec::new();
            r.push(vstd::slice::slice_to_vec(s));
            proof {
                assert(r.deep_view() =~~= split_commas(s@));
            }
            r
        },
        Some(i) => {
            let n = s.len();
            proof {
                lemma_find_byte(s@, 44u8);
                assert(i < n);
            }
            let head = vstd::slice::slice_to_vec(&s[0..i]);
            let mut rest = split_commas_exec(&s[(i + 1)..n]);
            let mut r: Vec<Vec<u8>> = Vec::new();
            r.push(head);
            r.append(&mut rest);
            proof {
                assert(s@.subrange(0, i as int) =~= s@.take(i as int));
                assert(s@.subrange(i + 1, s@.len() as int) =~= s@.skip(i + 1));
                assert(r.deep_view() =~~= split_commas(s@));
            }
            r
        },
    }
}

/// The declared parameter-type names of a canonical signature
/// `name(t1,t2,...)`: the comma-split of what stands between the first `(`
/// and the final `)`, the empty list when nothing does. `None` when the
/// signature does not end in `)` or has no `(`.
pub open spec fn sig_types(sig: Seq<u8>) -> Option<Seq<Seq<u8>>> {
    if sig.len() == 0 || sig.last() != 41u8 {
        Option::None
    } else {
        match find_byte(sig, 40u8) {
            Option::None => Option::None,
            Option::Some(p) => {
                let inner = sig.subrange(p + 1, sig.len() - 1);
                if inner.len() == 0 {
                    Option::Some(Seq::empty())
                } else {
                    Option::Some(split_commas(inner))
                }
            },
        }
    }
}

/// Extract the declared parameter-type names of a canonical signature.
pub fn parse_sig_types(sig: &[u8]) -> (r: Option<Vec<Vec<u8>>>)
    ensures
        match r {
            Option::None => sig_types(sig@) is None,
            Option::Some(ts) => sig_types(sig@) == Option::Some(ts.deep_view()),
        },
{
    let n = sig.len();
    if n == 0 || sig[n - 1] != 41u8 {
        return None;
    }
    proof {
        lemma_find_byte(sig@, 40u8);
    }
    match find_byte_in(sig, 40u8) {
        None => None,
        Some(p) => {
            let inner = &sig[(p + 1)..(n - 1)];
            if inner.len() == 0 {
                let r: Vec<Vec<u8>> = Vec::new();
                proof {
                    assert(r.deep_view() =~= Seq::<Seq<u8>>::empty());
                }
                Some(r)
            } else {
                Some(split_commas_exec(inner))
            }
        },
    }
}

/// The concatenation of each value encoded against its positional type, or
/// the leftmost failure (defined for equal-length sequences).
pub open spec fn encode_words(types: Seq<Seq<u8>>, values: Seq<Seq<u8>>) -> Result<Seq<u8>, AbiError>
    decreases types.len(),
{
    if types.len() == 0 {
        Result::Ok(Seq::empty())
    } else {
        match encode_words(types.drop_last(), values.drop_last()) {
            Result::Err(e) => Result::Err(e),
            Result::Ok(pre) => match encoded_word(types.last(), values.last()) {
                Result::Err(e) => Result::Err(e),
                Result::Ok(w) => Result::Ok(pre + w),
            },
        }
    }
}

/// Whether `encode_call` succeeds: the signature parses, the arities agree,
/// and every value fits its declared type.
pub open spec fn encode_call_ok(sig: Seq<u8>, values: Seq<Seq<u8>>) -> bool {
    match sig_types(sig) {
        Option::None => false,
        Option::Some(ts) => ts.len() == values.len() && encode_words(ts, values) is Ok,
    }
}

/// What a successful `encode_call` returns: the 4-byte selector followed by
/// each value encoded against its positional declared type, in order.
pub open spec fn encode_call_value(sig: Seq<u8>, values: Seq<Seq<u8>>) -> Seq<u8> {
    selector_spec(sig) + encode_words(sig_types(sig).unwrap(), values)->Ok_0
}

/// The error a failing `encode_call` reports: a signature without a
/// parenthesized type list, then an arity mismatch, then the leftmost
/// per-parameter failure.
pub open spec fn encode_call_err(sig: Seq<u8>, values: Seq<Seq<u8>>) -> AbiError {
    match sig_types(sig) {
        Option::None => AbiError::BadSignature,
        Option::Some(ts) => if ts.len() != values.len() {
            AbiError::ArityMismatch
        } else {
            match encode_words(ts, values) {
                Result::Err(e) => e,
                Result::Ok(_) => AbiError::BadSignature,
            }
        },
    }
}

/// Encode a call: `selector || param1 || param2 || ...` against a canonical
/// signature. The number of supplied values must equal the number of
/// declared types, and each value must fit its type's width, or the call
/// fails with the error naming why.
pub fn encode_call(signature: &str, values: &Vec<Vec<u8>>) -> (r: Result<Vec<u8>, AbiError>)
    ensures
        r is Ok <==> encode_call_ok(signature.spec_bytes(), values.deep_view()),
        r matches Result::Ok(o) ==> o@ == encode_call_value(signature.spec_bytes(), values.deep_view()),
        r matches Result::Err(e) ==> e == encode_call_err(signature.spec_bytes(), values.deep_view()),
{
    let sig = signature.as_bytes();
    let ghost ghost_values: Seq<Seq<u8>> = values.deep_view();
    match parse_sig_types(sig) {
        None => Err(AbiError::BadSignature),
        Some(types) => {
            if types.len() != values.len() {
                return Err(AbiError::ArityMismatch);
            }
            let ghost ts: Seq<Seq<u8>> = types.deep_view();
            let mut words: Vec<AbiValueType> = Vec::new();
            let mut i: usize = 0;
            while i < types.len()
                invariant
                    i <= types@.len(),
                    types@.len() == values@.len(),
                    ts == types.deep_view(),
                    ghost_values == values.deep_view(),
                    sig_types(signature.spec_bytes()) == Option::Some(ts),
                    encode_words(ts.take(i as int), ghost_values.take(i as int))
                        == Result::<Seq<u8>, AbiError>::Ok(encode_concat(words@)),
                decreases types@.len() - i,
            {
                proof {
                    assert(ts.take(i + 1).drop_last() =~= ts.take(i as int));
                    assert(ghost_values.take(i + 1).drop_last() =~= ghost_values.take(i as int));
                    assert(ts.take(i + 1).last() == ts[i as int]);
                    assert(ghost_values.take(i + 1).last() == ghost_values[i as int]);
                    assert(types@[i as int]@ == ts[i as int]);
                    assert(values@[i as int]@ == ghost_values[i as int]);
                }
                let ghost pre_words = words@;
                match encode_parameter(types[i].as_slice(), values[i].as_slice()) {
                    Ok(w) => {
                        words.push(w);
                        proof {
                            assert(words@.drop_last() =~= pre_words);
                            assert(words@.last() == w);
                        }
                    },
                    Err(e) => {
                        proof {
                            lemma_encode_words_prefix_err(ts, ghost_values, i as int);
                        }
                        return Err(e);
                    },
                }
                i += 1;
            }
            proof {
                assert(ts.take(ts.len() as int) =~= ts);
                assert(ghost_values.take(ghost_values.len() as int) =~= ghost_values);
            }
            let selector = get_sig(signature);
            let body = abi_encode(words);
            let mut out = selector;
            let mut body_m = body;
            out.append(&mut body_m);
            Ok(out)
        },
    }
}

impl AbiValueType {
    /// Encode `data` against the declared ABI type name `value`, which must
    /// be a supported scalar type wide enough for `data`; the checked form
    /// is [`encode_parameter`].
    pub fn from(value: &str, data: &[u8]) -> (r: AbiValueType)
        requires
            encoded_word(value.spec_bytes(), data@) is Ok,
        ensures
            value_bytes(r) == encoded_word(value.spec_bytes(), data@)->Ok_0,
            Option::Some(value_kind(r)) == abi_type_of(value.spec_bytes()),
            value_wf(r),
    {
        match encode_parameter(value.as_bytes(), data) {
            Ok(v) => v,
            Err(_) => vstd::pervasive::unreached(),
        }
    }
}

/// Encode a call against a canonical signature, `selector || params...`;
/// the unchecked form of [`encode_call`], for arguments already known to
/// fit their declared types.
pub fn abi_encode_signature(signature: &str, values: Vec<Vec<u8>>) -> (r: Vec<u8>)
    requires
        encode_call_ok(signature.spec_bytes(), values.deep_view()),
    ensures
        r@ == encode_call_value(signature.spec_bytes(), values.deep_view()),
{
    match encode_call(signature, &values) {
        Ok(out) => out,
        Err(_) => vstd::pervasive::unreached(),
    }
}

/// An empty declared-type list encodes a call to exactly the 4-byte
/// selector, with no trailing bytes.
pub proof fn lemma_encode_call_no_args(sig: Seq<u8>)
    requires
        sig_types(sig) == Option::Some(Seq::<Seq<u8>>::empty()),
    ensures
        encode_call_ok(sig, Seq::empty()),
        encode_call_value(sig, Seq::empty()) == selector_spec(sig),
{
    assert(encode_words(Seq::empty(), Seq::empty()) == Result::<Seq<u8>, AbiError>::Ok(
        Seq::<u8>::empty(),
    ));
    assert(selector_spec(sig) + Seq::<u8>::empty() =~= selector_spec(sig));
}

/// When the first `i` pairs encode and pair `i` fails, the whole
/// `encode_words` fails with pair `i`'s error.
proof fn lemma_encode_words_prefix_err(ts: Seq<Seq<u8>>, vs: Seq<Seq<u8>>, i: int)
    requires
        ts.len() == vs.len(),
        0 <= i < ts.len(),
        encode_words(ts.take(i), vs.take(i)) is Ok,
        encoded_word(ts[i], vs[i]) is Err,
    ensures
        encode_words(ts, vs) == Result::<Seq<u8>, AbiError>::Err(encoded_word(ts[i], vs[i])->Err_0),
    decreases ts.len(),
{
    if ts.len() > i + 1 {
        assert(ts.drop_last().take(i) =~= ts.take(i));
        assert(vs.drop_last().take(i) =~= vs.take(i));
        assert(ts.drop_last()[i] == ts[i]);
        assert(vs.drop_last()[i] == vs[i]);
        lemma_encode_words_prefix_err(ts.drop_last(), vs.drop_last(), i);
    } else {
        assert(ts.drop_last() =~= ts.take(i));
        assert(vs.drop_last() =~= vs.take(i));
    }
}

/// The total encoded width, in bytes, of a list of declared types.
pub open spec fn widths_sum(ts: Seq<AbiType>) -> nat
    decreases ts.len(),
{
    if ts.len() == 0 {
        0
    } else {
        type_width(ts[0]) + widths_sum(ts.drop_first())
    }
}

/// Every type's width is at most 32, so the total is at most `32 * len`.
proof fn lemma_widths_sum_bound(ts: Seq<AbiType>)
    ensures
        widths_sum(ts) <= 32 * ts.len(),
    decreases ts.len(),
{
    if ts.len() > 0 {
        lemma_widths_sum_bound(ts.drop_first());
    }
}

/// `widths_sum` over one more trailing type adds that type's width.
proof fn lemma_widths_sum_snoc(ts: Seq<AbiType>, t: AbiType)
    ensures
        widths_sum(ts.push(t)) == widths_sum(ts) + type_width(t),
    decreases ts.len(),
{
    assert(ts.push(t).len() == ts.len() + 1);
    if ts.len() > 0 {
        lemma_widths_sum_snoc(ts.drop_first(), t);
        assert(ts.push(t)[0] == ts[0]);
        assert(ts.push(t).drop_first() =~= ts.drop_first().push(t));
        assert(widths_sum(ts.push(t)) == type_width(ts.push(t)[0]) + widths_sum(
            ts.push(t).drop_first(),
        ));
        assert(widths_sum(ts) == type_width(ts[0]) + widths_sum(ts.drop_first()));
    } else {
        assert(ts.push(t)[0] == t);
        assert(ts.push(t).drop_first() =~= Seq::<AbiType>::empty());
        assert(widths_sum(ts.push(t)) == type_width(ts.push(t)[0]) + widths_sum(
            ts.push(t).drop_first(),
        ));
        assert(widths_sum(Seq::<AbiType>::empty()) == 0);
    }
}

/// The parameter kinds of a sequence of encoded values, in order.
pub open spec fn kinds_of(vs: Seq<AbiValueType>) -> Seq<AbiType> {
    vs.map_values(|v: AbiValueType| value_kind(v))
}

/// Encoding and decoding agree on length: what `abi_encode` produces for
/// well-formed values is exactly as long as the decode side demands for
/// those values' kinds, so a decode of an encode never fails the length
/// check.
pub proof fn lemma_encoded_length(vs: Seq<AbiValueType>)
    requires
        forall|i: int| 0 <= i < vs.len() ==> value_wf(#[trigger] vs[i]),
    ensures
        encode_concat(vs).len() == widths_sum(kinds_of(vs)),
    decreases vs.len(),
{
    if vs.len() > 0 {
        lemma_encoded_length(vs.drop_last());
        lemma_widths_sum_snoc(kinds_of(vs.drop_last()), value_kind(vs.last()));
        assert(kinds_of(vs) =~= kinds_of(vs.drop_last()).push(value_kind(vs.last())));
        assert(value_wf(vs[vs.len() - 1]));
        assert(value_bytes(vs.last()).len() == type_width(value_kind(vs.last())));
    } else {
        assert(kinds_of(vs) =~= Seq::<AbiType>::empty());
    }
}

/// Slice returned data back per declared type, in order: the lengths must
/// agree exactly, and the slices concatenate back to the input. The checked
/// form is [`decode_return`].
pub fn abi_decode(data: &[u8], types: Vec<AbiType>) -> (r: Vec<u8>)
    requires
        data@.len() == widths_sum(types@),
    ensures
        r@ == data@,
{
    let mut r: Vec<u8> = Vec::new();
    let mut off: usize = 0;
    let mut i: usize = 0;
    let dlen = data.len();
    proof {
        assert(types@.skip(0) =~= types@);
    }
    while i < types.len()
        invariant
            i <= types@.len(),
            off <= dlen,
            dlen == data@.len(),
            data@.len() == widths_sum(types@),
            r@ == data@.take(off as int),
            data@.len() - off == widths_sum(types@.skip(i as int)),
        decreases types@.len() - i,
    {
        proof {
            assert(types@.skip(i as int).drop_first() =~= types@.skip(i + 1));
            assert(types@.skip(i as int)[0] == types@[i as int]);
        }
        let w = types[i].len();
        let mut k: usize = 0;
        while k < w
            invariant
                k <= w,
                dlen == data@.len(),
                off + w <= dlen,
                r@ == data@.take(off + k),
            decreases w - k,
        {
            r.push(data[off + k]);
            proof {
                assert(data@.take(off + k + 1) =~= data@.take(off + (k as int)).push(
                    data@[off + k],
                ));
            }
            k += 1;
        }
        off += w;
        i += 1;
    }
    proof {
        assert(types@.skip(types@.len() as int) =~= Seq::<AbiType>::empty());
        assert(data@.take(data@.len() as int) =~= data@);
    }
    r
}

/// Check that returned data is exactly as long as the declared types'
/// widths — no tolerance — and slice it per width, in order.
pub fn decode_return(data: &[u8], types: &Vec<AbiType>) -> (r: Result<Vec<u8>, AbiError>)
    ensures
        r is Ok <==> data@.len() == widths_sum(types@),
        r matches Result::Ok(o) ==> o@ == data@,
        r matches Result::Err(e) ==> e == AbiError::LengthMismatch,
{
    let mut sum: u128 = 0;
    let mut i: usize = 0;
    proof {
        lemma_widths_sum_bound(types@);
        assert(types@.take(0) =~= Seq::<AbiType>::empty());
    }
    while i < types.len()
        invariant
            i <= types@.len(),
            sum == widths_sum(types@.take(i as int)),
            sum <= 32 * i,
        decreases types@.len() - i,
    {
        proof {
            lemma_widths_sum_take_step(types@, i as int);
        }
        sum = sum + (types[i].len() as u128);
        i += 1;
    }
    proof {
        assert(types@.take(types@.len() as int) =~= types@);
    }
    if (data.len() as u128) == sum {
        let mut out: Vec<u8> = Vec::new();
        let mut k: usize = 0;
        while k < data.len()
            invariant
                k <= data@.len(),
                out@ == data@.take(k as int),
            decreases data@.len() - k,
        {
            out.push(data[k]);
            k += 1;
        }
        proof {
            assert(data@.take(data@.len() as int) =~= data@);
        }
        Ok(out)
    } else {
        Err(AbiError::LengthMismatch)
    }
}

/// `widths_sum` over one more leading element adds that element's width.
proof fn lemma_widths_sum_take_step(ts: Seq<AbiType>, i: int)
    requires
        0 <= i < ts.len(),
    ensures
        widths_sum(ts.take(i + 1)) == widths_sum(ts.take(i)) + type_width(ts[i]),
    decreases i,
{
    if i == 0 {
        assert(ts.take(1).drop_first() =~= Seq::<AbiType>::empty());
        assert(ts.take(0) =~= Seq::<AbiType>::empty());
    } else {
        lemma_widths_sum_take_step(ts.drop_first(), i - 1);
        assert(ts.take(i + 1).drop_first() =~= ts.drop_first().take(i));
        assert(ts.take(i).drop_first() =~= ts.drop_first().take(i - 1));
        assert(ts.drop_first()[i - 1] == ts[i]);
    }
}

} // verus!
