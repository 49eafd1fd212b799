//! The Solidity backend: the standard-JSON request shape, the compiler's
//! output schema, and the ABI-entry helpers.
//!
//! A request document is `{"language":"Solidity","sources":{file:
//! {content}},"settings":{outputSelection, remappings?}}`, fed to the
//! subprocess on standard input; the response is one JSON document against
//! the output schema below.

use vstd::prelude::*;

verus! {

use vstd::string::StringSliceAdditionalSpecFns;
use crate::json::{str_bytes, JsonValue};

/// One source file's content, as the request document carries it.
#[derive(Debug)]
pub struct Source {
    pub content: String,
}

/// The sources of a compile request, file name to content, in order; a
/// caller names each file once, as the original's map type forced.
#[derive(Debug)]
pub struct SolcSources {
    pub sources: Vec<(String, Source)>,
}

impl SolcSources {
    /// Wrap plain file-name/content pairs as request sources, keeping
    /// their order.
    pub fn new(source_content: Vec<(String, String)>) -> (r: SolcSources)
        ensures
            r.sources@.len() == source_content@.len(),
            forall|i: int|
                0 <= i < source_content@.len() ==> r.sources@[i].0 == source_content@[i].0
                    && r.sources@[i].1.content == source_content@[i].1,
    {
        let mut sources: Vec<(String, Source)> = Vec::new();
        let mut items = source_content;
        let ghost all = items@;
        while items.len() > 0
            invariant
                items@.len() + sources@.len() == all.len(),
                items@ == all.skip(sources@.len() as int),
                forall|k: int|
                    0 <= k < sources@.len() ==> sources@[k].0 == all[k].0 && sources@[k].1.content
                        == all[k].1,
            decreases items@.len(),
        {
            let (file, content) = items.remove(0);
            proof {
                let n = sources@.len() as int;
                assert(all.skip(n)[0] == all[n]);
                assert(all.skip(n).remove(0) =~= all.skip(n + 1));
            }
            sources.push((file, Source { content }));
        }
        SolcSources { sources }
    }
}

/// What the request asks the compiler to emit for each contract.
#[derive(Debug)]
pub enum OutputOption {
    Metadata,
    EvmBytecode,
    Abi,
}

/// The name an output option carries in the request document.
pub open spec fn output_option_name(o: OutputOption) -> Seq<char> {
    match o {
        OutputOption::Metadata => "metadata"@,
        OutputOption::EvmBytecode => "evm.bytecode"@,
        OutputOption::Abi => "abi"@,
    }
}

impl OutputOption {
    /// The option's name in the request document.
    pub fn name(&self) -> (r: &'static str)
        ensures
            r@ == output_option_name(*self),
    {
        match self {
            OutputOption::Metadata => "metadata",
            OutputOption::EvmBytecode => "evm.bytecode",
            OutputOption::Abi => "abi",
        }
    }
}

/// The request's settings: optional import remappings and the output
/// selection, file pattern to contract pattern to requested outputs. The
/// pattern-keyed lists serialize in order; a caller supplies each key
/// once, as the original's map type forced.
#[derive(Debug)]
pub struct Settings {
    pub remappings: Option<Vec<String>>,
    pub output_selection: Vec<(String, Vec<(String, Vec<OutputOption>)>)>,
}

/// A standard-JSON compile request for the Solidity compiler.
#[derive(Debug)]
pub struct Solc {
    pub language: String,
    pub sources: Vec<(String, Source)>,
    pub bin: bool,
    pub ast_compact_json: bool,
    pub settings: Option<Settings>,
}

/// That one member of a request's `sources` object carries one source: the
/// file name as the key, `{"content": text}` as the value.
pub open spec fn source_member_match(m: (String, JsonValue), s: (String, Source)) -> bool {
    &&& m.0@ == s.0@
    &&& match m.1 {
        JsonValue::Obj(c) => c@.len() == 1 && c@[0].0@ == "content"@ && (match c@[0].1 {
            JsonValue::Str(t) => t@ == s.1.content@,
            _ => false,
        }),
        _ => false,
    }
}

/// That a `sources` object carries exactly the request's sources, in order.
pub open spec fn sources_members_match(ms: Seq<(String, JsonValue)>, model: Seq<(String, Source)>) -> bool {
    &&& ms.len() == model.len()
    &&& forall|i: int| 0 <= i < ms.len() ==> #[trigger] source_member_match(ms[i], model[i])
}

/// That one array item names one output option.
pub open spec fn option_name_match(item: JsonValue, o: OutputOption) -> bool {
    match item {
        JsonValue::Str(s) => s@ == output_option_name(o),
        _ => false,
    }
}

/// That a JSON array names exactly these output options, in order.
pub open spec fn options_match(v: JsonValue, opts: Seq<OutputOption>) -> bool {
    match v {
        JsonValue::Arr(items) => items@.len() == opts.len() && (forall|k: int|
            0 <= k < opts.len() ==> #[trigger] option_name_match(items@[k], opts[k])),
        _ => false,
    }
}

/// That a JSON object maps each contract pattern to its options array.
pub open spec fn selection_inner_match(
    v: JsonValue,
    inner: Seq<(String, Vec<OutputOption>)>,
) -> bool {
    match v {
        JsonValue::Obj(cm) => cm@.len() == inner.len() && (forall|j: int|
            0 <= j < inner.len() ==> (#[trigger] cm@[j]).0@ == inner[j].0@ && options_match(
                cm@[j].1,
                inner[j].1@,
            )),
        _ => false,
    }
}

/// That a JSON object maps each file pattern to its per-contract
/// selection.
pub open spec fn selection_match(
    v: JsonValue,
    sel: Seq<(String, Vec<(String, Vec<OutputOption>)>)>,
) -> bool {
    match v {
        JsonValue::Obj(fm) => fm@.len() == sel.len() && (forall|j: int|
            0 <= j < sel.len() ==> (#[trigger] fm@[j]).0@ == sel[j].0@ && selection_inner_match(
                fm@[j].1,
                sel[j].1@,
            )),
        _ => false,
    }
}

/// That a JSON array holds exactly these strings, in order.
pub open spec fn str_array_match(v: JsonValue, rs: Seq<String>) -> bool {
    match v {
        JsonValue::Arr(items) => items@.len() == rs.len() && (forall|k: int|
            0 <= k < rs.len() ==> match #[trigger] items@[k] {
                JsonValue::Str(s) => s@ == rs[k]@,
                _ => false,
            }),
        _ => false,
    }
}

/// That a JSON value carries the request settings: the remappings array
/// only when one was given, then the output selection.
pub open spec fn settings_value_match(v: JsonValue, st: Settings) -> bool {
    match v {
        JsonValue::Obj(sm) => match st.remappings {
            Option::None => sm@.len() == 1 && sm@[0].0@ == "outputSelection"@ && selection_match(
                sm@[0].1,
                st.output_selection@,
            ),
            Option::Some(rs) => sm@.len() == 2 && sm@[0].0@ == "remappings"@ && str_array_match(
                sm@[0].1,
                rs@,
            ) && sm@[1].0@ == "outputSelection"@ && selection_match(
                sm@[1].1,
                st.output_selection@,
            ),
        },
        _ => false,
    }
}

/// That a JSON value is the standard-JSON request document of this
/// compile: `{"language", "sources", "settings"}` in order, with the
/// always-skipped flags left out.
pub open spec fn solc_request_match(v: JsonValue, s: Solc) -> bool {
    match v {
        JsonValue::Obj(ms) => {
            &&& ms@.len() == 3
            &&& ms@[0].0@ == "language"@
            &&& match ms@[0].1 {
                JsonValue::Str(l) => l@ == s.language@,
                _ => false,
            }
            &&& ms@[1].0@ == "sources"@
            &&& match ms@[1].1 {
                JsonValue::Obj(srcs) => sources_members_match(srcs@, s.sources@),
                _ => false,
            }
            &&& ms@[2].0@ == "settings"@
            &&& match s.settings {
                Option::None => ms@[2].1 is Null,
                Option::Some(st) => settings_value_match(ms@[2].1, st),
            }
        },
        _ => false,
    }
}

/// Build the JSON array naming these output options.
pub fn options_value(opts: &Vec<OutputOption>) -> (r: JsonValue)
    ensures
        options_match(r, opts@),
{
    let mut items: Vec<JsonValue> = Vec::new();
    let mut k: usize = 0;
    while k < opts.len()
        invariant
            k <= opts@.len(),
            items@.len() == k,
            forall|j: int| 0 <= j < k ==> #[trigger] option_name_match(items@[j], opts@[j]),
        decreases opts@.len() - k,
    {
        items.push(JsonValue::Str(opts[k].name().to_owned()));
        k += 1;
    }
    JsonValue::Arr(items)
}

/// Build the JSON object mapping contract patterns to options arrays.
pub fn selection_inner_value(inner: &Vec<(String, Vec<OutputOption>)>) -> (r: JsonValue)
    ensures
        selection_inner_match(r, inner@),
{
    let mut cm: Vec<(String, JsonValue)> = Vec::new();
    let mut j: usize = 0;
    while j < inner.len()
        invariant
            j <= inner@.len(),
            cm@.len() == j,
            forall|i: int|
                0 <= i < j ==> (#[trigger] cm@[i]).0@ == inner@[i].0@ && options_match(
                    cm@[i].1,
                    inner@[i].1@,
                ),
        decreases inner@.len() - j,
    {
        let opts = options_value(&inner[j].1);
        cm.push((inner[j].0.clone(), opts));
        j += 1;
    }
    JsonValue::Obj(cm)
}

/// Build the JSON object mapping file patterns to per-contract selections.
pub fn selection_value(sel: &Vec<(String, Vec<(String, Vec<OutputOption>)>)>) -> (r: JsonValue)
    ensures
        selection_match(r, sel@),
{
    let mut fm: Vec<(String, JsonValue)> = Vec::new();
    let mut j: usize = 0;
    while j < sel.len()
        invariant
            j <= sel@.len(),
            fm@.len() == j,
            forall|i: int|
                0 <= i < j ==> (#[trigger] fm@[i]).0@ == sel@[i].0@ && selection_inner_match(
                    fm@[i].1,
                    sel@[i].1@,
                ),
        decreases sel@.len() - j,
    {
        let inner = selection_inner_value(&sel[j].1);
        fm.push((sel[j].0.clone(), inner));
        j += 1;
    }
    JsonValue::Obj(fm)
}

/// Build the JSON array holding these strings.
pub fn str_array_value(rs: &Vec<String>) -> (r: JsonValue)
    ensures
        str_array_match(r, rs@),
{
    let mut items: Vec<JsonValue> = Vec::new();
    let mut k: usize = 0;
    while k < rs.len()
        invariant
            k <= rs@.len(),
            items@.len() == k,
            forall|j: int|
                0 <= j < k ==> match #[trigger] items@[j] {
                    JsonValue::Str(s) => s@ == rs@[j]@,
                    _ => false,
                },
        decreases rs@.len() - k,
    {
        items.push(JsonValue::Str(rs[k].clone()));
        k += 1;
    }
    JsonValue::Arr(items)
}

impl Settings {
    /// Build these settings as the request document carries them.
    pub fn request_value(&self) -> (r: JsonValue)
        ensures
            settings_value_match(r, *self),
    {
        let mut sm: Vec<(String, JsonValue)> = Vec::new();
        match &self.remappings {
            None => {},
            Some(rs) => {
                let arr = str_array_value(rs);
                sm.push(("remappings".to_owned(), arr));
            },
        }
        let sel = selection_value(&self.output_selection);
        sm.push(("outputSelection".to_owned(), sel));
        JsonValue::Obj(sm)
    }
}

/// Build the JSON object carrying these sources.
pub fn sources_value(sources: &Vec<(String, Source)>) -> (r: JsonValue)
    ensures
        (r matches JsonValue::Obj(srcs) && sources_members_match(srcs@, sources@)),
{
    let mut srcs: Vec<(String, JsonValue)> = Vec::new();
    let mut i: usize = 0;
    while i < sources.len()
        invariant
            i <= sources@.len(),
            srcs@.len() == i,
            forall|k: int| 0 <= k < i ==> #[trigger] source_member_match(srcs@[k], sources@[k]),
        decreases sources@.len() - i,
    {
        let mut content: Vec<(String, JsonValue)> = Vec::new();
        content.push(("content".to_owned(), JsonValue::Str(sources[i].1.content.clone())));
        srcs.push((sources[i].0.clone(), JsonValue::Obj(content)));
        i += 1;
    }
    JsonValue::Obj(srcs)
}

impl Solc {
    /// Build this request's standard-JSON document, as a value the
    /// serializer turns into the exact bytes fed to the subprocess.
    pub fn request_value(&self) -> (r: JsonValue)
        ensures
            solc_request_match(r, *self),
    {
        let mut ms: Vec<(String, JsonValue)> = Vec::new();
        ms.push(("language".to_owned(), JsonValue::Str(self.language.clone())));
        let srcs = sources_value(&self.sources);
        ms.push(("sources".to_owned(), srcs));
        let settings = match &self.settings {
            None => JsonValue::Null,
            Some(st) => st.request_value(),
        };
        ms.push(("settings".to_owned(), settings));
        JsonValue::Obj(ms)
    }

    /// Serialize this request to the bytes fed to the subprocess's
    /// standard input.
    pub fn to_request_json(&self) -> (r: Vec<u8>)
        ensures
            exists|v: JsonValue|
                #[trigger] crate::json::json_bytes_of(v) == r@ && solc_request_match(v, *self),
    {
        let v = self.request_value();
        let out = crate::json::json_to_bytes(&v);
        proof {
            assert(crate::json::json_bytes_of(v) == out@ && solc_request_match(v, *self));
        }
        out
    }
}

/// The error a failed backend run surfaces: the compiler's own message
/// text.
#[derive(Debug)]
pub struct JsonError {
    pub message: String,
}

impl JsonError {
    /// The compiler's message.
    pub fn message(&self) -> (r: &String)
        ensures
            r == &self.message,
    {
        &self.message
    }
}

/// The Rust type that a Solidity ABI type maps to in generated bindings
/// (only `uint*` scalars are supported; everything else is rejected).
pub open spec fn internal_type_of(ty: Seq<u8>) -> Option<Seq<char>> {
    if ty.len() > 0 && ty.last() == 93u8 {
        Option::None
    } else if ty.len() >= 5 && ty.take(5) == tuple_prefix() {
        Option::None
    } else if ty.len() >= 4 && ty.take(4) == crate::abi::uint_prefix() {
        Option::Some("u128"@)
    } else {
        Option::None
    }
}

/// The bytes of `"tuple"`.
pub open spec fn tuple_prefix() -> Seq<u8> {
    seq![116u8, 117u8, 112u8, 108u8, 101u8]
}

/// Map a Solidity ABI type name to the Rust type generated bindings use
/// for it; arrays, tuples and non-`uint` scalars are not supported.
pub fn internal_to_type(ty: &str) -> (r: Option<&'static str>)
    ensures
        match r {
            Option::Some(s) => internal_type_of(ty.spec_bytes()) == Option::Some(s@),
            Option::None => internal_type_of(ty.spec_bytes()) is None,
        },
{
    let b = ty.as_bytes();
    let n = b.len();
    if n > 0 && b[n - 1] == 93u8 {
        return None;
    }
    if n >= 5 && b[0] == 116u8 && b[1] == 117u8 && b[2] == 112u8 && b[3] == 108u8 && b[4]
        == 101u8 {
        proof {
            assert(b@.take(5) =~= tuple_prefix());
        }
        return None;
    }
    if n >= 4 && b[0] == 117u8 && b[1] == 105u8 && b[2] == 110u8 && b[3] == 116u8 {
        proof {
            assert(b@.take(4) =~= crate::abi::uint_prefix());
            if b@.len() >= 5 && b@.take(5) == tuple_prefix() {
                assert(b@.take(5)[0] == b@[0]);
            }
        }
        return Some("u128");
    }
    proof {
        if b@.len() >= 5 && b@.take(5) == tuple_prefix() {
            assert(b@.take(5)[0] == b@[0] && b@.take(5)[1] == b@[1] && b@.take(5)[2] == b@[2]
                && b@.take(5)[3] == b@[3] && b@.take(5)[4] == b@[4]);
        }
        if b@.len() >= 4 && b@.take(4) == crate::abi::uint_prefix() {
            assert(b@.take(4)[0] == b@[0] && b@.take(4)[1] == b@[1] && b@.take(4)[2] == b@[2]
                && b@.take(4)[3] == b@[3]);
        }
    }
    None
}

/// Where in a source file a diagnostic points.
#[derive(Debug)]
pub struct SourceLocation {
    pub file: String,
    pub start: i32,
    pub end: i32,
}

/// The kind of a compiler diagnostic.
#[derive(Debug)]
pub enum ErrType {
    TypeError,
    InternalCompilerError,
    Exception,
    JSONError,
    ParserError,
}

/// How severe a compiler diagnostic is.
#[derive(Debug)]
pub enum Severity {
    Error,
    Warning,
    Info,
}

/// One diagnostic of the compiler's output, generic over the location and
/// kind shapes the backend uses.
#[derive(Debug)]
pub struct OutError<S, E> {
    pub source_location: Option<S>,
    pub secondary_source_locations: Option<Vec<SourceLocation>>,
    pub err_type: E,
    pub component: String,
    pub severity: Severity,
    pub error_code: Option<String>,
    pub message: String,
    pub formatted_message: Option<String>,
}

/// Debug bookkeeping the compiler attaches to a function.
#[derive(Debug)]
pub struct DebugData {
    pub entry_point: i32,
    pub id: Option<i32>,
    pub parameter_slots: Option<i32>,
    pub return_slots: Option<i32>,
}

/// A compiler-generated auxiliary source.
#[derive(Debug)]
pub struct GeneratedSource {
    pub ast: Vec<(String, String)>,
    pub contents: String,
    pub id: i32,
    pub language: String,
    pub name: String,
}

/// The bytecode the compiler emitted, with its maps and references.
#[derive(Debug)]
pub struct BytecodeData {
    pub function_debug_data: Vec<(String, DebugData)>,
    pub object: String,
    pub opcodes: String,
    pub source_map: String,
    pub generated_sources: Vec<GeneratedSource>,
    pub link_references: Vec<(String, Vec<(String, Vec<SourceLocation>)>)>,
}

/// The deployed (runtime) bytecode, with its immutable references.
#[derive(Debug)]
pub struct DeployedBytecodeData {
    pub bytecode_data: BytecodeData,
    pub immutable_references: Vec<(String, String)>,
}

/// The EVM section of one contract's output.
#[derive(Debug)]
pub struct EvmOutput {
    pub assembly: Option<String>,
    pub legacy_assembly: Option<Vec<(String, String)>>,
    pub bytecode: Option<BytecodeData>,
    pub deployed_bytecode: Option<DeployedBytecodeData>,
    pub method_identifiers: Option<Vec<(String, String)>>,
    pub gas_estimates: Option<Vec<(String, Vec<(String, String)>)>>,
}

/// The contract's storage layout section (none of it is consumed here).
#[derive(Debug)]
pub struct StorageLayout {}

/// One named, typed slot of an ABI entry's inputs or outputs.
#[derive(Debug)]
pub struct TypeType {
    pub internal_type: Option<String>,
    pub name: String,
    pub type_type: String,
}

/// What an ABI entry can tell about itself.
pub trait EntryUtils {
    /// The entry's canonical signature string.
    fn signature(&self) -> String;
}

/// One entry of a contract's ABI.
#[derive(Debug)]
pub struct AbiEntry {
    pub inputs: Vec<TypeType>,
    pub name: String,
    pub outputs: Vec<TypeType>,
    pub state_mutability: String,
    pub entry_type: String,
}

/// The comma-separated declared input types of an entry, as UTF-8 bytes.
pub open spec fn types_join(ts: Seq<TypeType>) -> Seq<u8>
    decreases ts.len(),
{
    if ts.len() == 0 {
        Seq::empty()
    } else if ts.len() == 1 {
        str_bytes(ts[0].type_type)
    } else {
        types_join(ts.drop_last()) + vstd::utf8::encode_utf8(","@) + str_bytes(
            ts.last().type_type,
        )
    }
}

/// The canonical signature of an entry, as UTF-8 bytes:
/// `name(type1,type2,...)`.
pub open spec fn signature_bytes_of(e: AbiEntry) -> Seq<u8> {
    str_bytes(e.name) + vstd::utf8::encode_utf8("("@) + types_join(e.inputs@)
        + vstd::utf8::encode_utf8(")"@)
}

impl EntryUtils for AbiEntry {
    /// The canonical signature `name(type1,type2,...)` of this entry.
    fn signature(&self) -> (r: String)
        ensures
            str_bytes(r) == signature_bytes_of(*self),
    {
        broadcast use vstd::utf8::encode_utf8_valid_utf8, vstd::utf8::valid_utf8_concat;

        let mut out: Vec<u8> = Vec::new();
        out.extend_from_slice(self.name.as_str().as_bytes());
        out.extend_from_slice("(".as_bytes());
        let ghost head = out@;
        let mut i: usize = 0;
        while i < self.inputs.len()
            invariant
                i <= self.inputs@.len(),
                out@ == head + types_join(self.inputs@.take(i as int)),
                head == str_bytes(self.name) + vstd::utf8::encode_utf8("("@),
            decreases self.inputs@.len() - i,
        {
            if i > 0 {
                out.extend_from_slice(",".as_bytes());
            }
            out.extend_from_slice(self.inputs[i].type_type.as_str().as_bytes());
            proof {
                assert(self.inputs@.take(i + 1).drop_last() =~= self.inputs@.take(i as int));
                assert(self.inputs@.take(i + 1).last() == self.inputs@[i as int]);
                if i == 0 {
                    assert(self.inputs@.take(1) =~= seq![self.inputs@[0]]);
                }
                assert(out@ =~= head + types_join(self.inputs@.take(i + 1)));
            }
            i += 1;
        }
        out.extend_from_slice(")".as_bytes());
        proof {
            assert(self.inputs@.take(self.inputs@.len() as int) =~= self.inputs@);
            assert(out@ =~= signature_bytes_of(*self));
            lemma_types_join_valid(self.inputs@);
            assert(vstd::utf8::valid_utf8(str_bytes(self.name) + vstd::utf8::encode_utf8("("@)));
            assert(vstd::utf8::valid_utf8(
                (str_bytes(self.name) + vstd::utf8::encode_utf8("("@)) + types_join(self.inputs@),
            ));
            assert(vstd::utf8::valid_utf8(
                ((str_bytes(self.name) + vstd::utf8::encode_utf8("("@)) + types_join(self.inputs@))
                    + vstd::utf8::encode_utf8(")"@),
            ));
            assert(vstd::utf8::valid_utf8(out@));
        }
        crate::json::string_from_utf8(out)
    }
}

/// The comma-joined type names of ABI inputs are valid UTF-8.
proof fn lemma_types_join_valid(ts: Seq<TypeType>)
    ensures
        vstd::utf8::valid_utf8(types_join(ts)),
    decreases ts.len(),
{
    broadcast use vstd::utf8::encode_utf8_valid_utf8, vstd::utf8::valid_utf8_concat;

    if ts.len() > 1 {
        lemma_types_join_valid(ts.drop_last());
        assert(vstd::utf8::valid_utf8(
            types_join(ts.drop_last()) + vstd::utf8::encode_utf8(","@),
        ));
    }
}

/// One contract of the compiler's output.
#[derive(Debug)]
pub struct SolcContract {
    pub abi: Option<Vec<AbiEntry>>,
    pub metadata: Option<String>,
    pub user_doc: Option<Vec<(String, String)>>,
    pub dev_doc: Option<Vec<(String, String)>>,
    pub ir: Option<String>,
    pub ir_ast: Option<Vec<(String, String)>>,
    pub ir_optimized: Option<String>,
    pub ir_optimized_ast: Option<Vec<(String, String)>>,
    pub storage_layout: Option<StorageLayout>,
    pub evm: Option<EvmOutput>,
}

/// The compiler's whole output document: diagnostics, source ids, and the
/// compiled contracts by file and name. The name-keyed lists stand where
/// the upstream document had objects: in a parsed document their keys are
/// pairwise distinct (`crate::json::keys_unique`, from the parse
/// boundary's ordered-map backing), and the first-match lookups below are
/// well-defined either way.
#[derive(Debug)]
pub struct SolcOut {
    pub errors: Option<Vec<OutError<SourceLocation, ErrType>>>,
    pub sources: Vec<(String, Vec<(String, i32)>)>,
    pub contracts: Option<Vec<(String, Vec<(String, SolcContract)>)>>,
}

/// The message a failing compile surfaces: the first diagnostic's formatted
/// message, falling back to its plain message; none when the output lists
/// no diagnostic.
pub open spec fn first_error_msg(o: SolcOut) -> Option<String> {
    match o.errors {
        Option::None => Option::None,
        Option::Some(es) => if es@.len() == 0 {
            Option::None
        } else {
            match es@[0].formatted_message {
                Option::Some(f) => Option::Some(f),
                Option::None => Option::Some(es@[0].message),
            }
        },
    }
}

impl SolcOut {
    /// The first diagnostic's message, formatted when the compiler gave
    /// one: when several errors are reported, the first always wins.
    pub fn first_error_message(&self) -> (r: Option<&String>)
        ensures
            match r {
                Option::Some(m) => first_error_msg(*self) == Option::Some(*m),
                Option::None => first_error_msg(*self) is None,
            },
    {
        match &self.errors {
            None => None,
            Some(es) => {
                if es.len() == 0 {
                    None
                } else {
                    match &es[0].formatted_message {
                        Some(f) => Some(f),
                        None => Some(&es[0].message),
                    }
                }
            },
        }
    }

    /// The compiled contract under `file` and `name`, if the output holds
    /// one.
    pub fn contract<'a>(&'a self, file: &str, name: &str) -> (r: Option<&'a SolcContract>)
        ensures
            r is Some <==> contract_lookup(*self, file@, name@) is Some,
            r matches Option::Some(c) ==> contract_lookup(*self, file@, name@) == Option::Some(*c),
    {
        match &self.contracts {
            None => None,
            Some(files) => {
                match assoc_get(files.as_slice(), file) {
                    None => None,
                    Some(per_file) => assoc_get(per_file.as_slice(), name),
                }
            },
        }
    }
}

/// The contract the output holds under `file` and `name`, if any.
pub open spec fn contract_lookup(o: SolcOut, file: Seq<char>, name: Seq<char>) -> Option<
    SolcContract,
> {
    match o.contracts {
        Option::None => Option::None,
        Option::Some(files) => match assoc_lookup(files@, file) {
            Option::None => Option::None,
            Option::Some(per_file) => assoc_lookup(per_file@, name),
        },
    }
}

/// What a function's debug-data object holds.
pub open spec fn debug_data_view(v: JsonValue) -> Option<
    (i32, Option<i32>, Option<i32>, Option<i32>),
> {
    match crate::json::jv_obj_of(v) {
        Option::None => Option::None,
        Option::Some(ms) => match crate::json::req_i32_member(ms, "entryPoint"@) {
            Option::None => Option::None,
            Option::Some(ep) => match crate::json::opt_i32_member(ms, "id"@) {
                Option::None => Option::None,
                Option::Some(id) => match crate::json::opt_i32_member(ms, "parameterSlots"@) {
                    Option::None => Option::None,
                    Option::Some(ps) => match crate::json::opt_i32_member(ms, "returnSlots"@) {
                        Option::None => Option::None,
                        Option::Some(rs) => Option::Some((ep, id, ps, rs)),
                    },
                },
            },
        },
    }
}

/// The view a parsed debug-data record projects to.
pub open spec fn debug_data_as_view(d: DebugData) -> (i32, Option<i32>, Option<i32>, Option<i32>) {
    (d.entry_point, d.id, d.parameter_slots, d.return_slots)
}

/// Extract a debug-data object.
pub fn parse_debug_data(v: &JsonValue) -> (r: Option<DebugData>)
    ensures
        match r {
            Option::Some(d) => debug_data_view(*v) == Option::Some(debug_data_as_view(d)),
            Option::None => debug_data_view(*v) is None,
        },
{
    let ms = match v.as_obj() {
        Some(ms) => ms,
        None => {
            return None;
        },
    };
    let entry_point = match crate::json::get_req_i32(ms, "entryPoint") {
        Some(n) => n,
        None => {
            return None;
        },
    };
    let id = match crate::json::get_opt_i32(ms, "id") {
        Some(n) => n,
        None => {
            return None;
        },
    };
    let parameter_slots = match crate::json::get_opt_i32(ms, "parameterSlots") {
        Some(n) => n,
        None => {
            return None;
        },
    };
    let return_slots = match crate::json::get_opt_i32(ms, "returnSlots") {
        Some(n) => n,
        None => {
            return None;
        },
    };
    Some(DebugData { entry_point, id, parameter_slots, return_slots })
}

/// The views of an object mapping function names to debug data.
pub open spec fn debug_map_view(members: Seq<(String, JsonValue)>) -> Option<
    Seq<(Seq<char>, (i32, Option<i32>, Option<i32>, Option<i32>))>,
>
    decreases members.len(),
{
    if members.len() == 0 {
        Option::Some(Seq::empty())
    } else {
        match debug_data_view(members[0].1) {
            Option::None => Option::None,
            Option::Some(d) => match debug_map_view(members.drop_first()) {
                Option::None => Option::None,
                Option::Some(rest) => Option::Some(seq![(members[0].0@, d)] + rest),
            },
        }
    }
}

/// The pair views of a parsed name-to-debug-data list.
pub open spec fn debug_map_as_views(ps: Seq<(String, DebugData)>) -> Seq<
    (Seq<char>, (i32, Option<i32>, Option<i32>, Option<i32>)),
> {
    ps.map_values(|p: (String, DebugData)| (p.0@, debug_data_as_view(p.1)))
}

/// Extract an object mapping function names to debug data.
pub fn parse_debug_map(members: &[(String, JsonValue)]) -> (r: Option<Vec<(String, DebugData)>>)
    ensures
        match r {
            Option::Some(ps) => debug_map_view(members@) == Option::Some(debug_map_as_views(ps@)),
            Option::None => debug_map_view(members@) is None,
        },
    decreases members@.len(),
{
    if members.len() == 0 {
        let ps: Vec<(String, DebugData)> = Vec::new();
        proof {
            assert(debug_map_as_views(ps@) =~= debug_map_view(Seq::empty())->Some_0);
        }
        Some(ps)
    } else {
        match parse_debug_data(&members[0].1) {
            None => None,
            Some(d) => {
                let rest = &members[1..members.len()];
                proof {
                    assert(rest@ =~= members@.drop_first());
                }
                match parse_debug_map(rest) {
                    None => None,
                    Some(mut ps) => {
                        let ghost dv = debug_data_as_view(d);
                        ps.insert(0, (members[0].0.clone(), d));
                        proof {
                            assert(debug_map_as_views(ps@) =~~= seq![(members@[0].0@, dv)]
                                + debug_map_view(members@.drop_first())->Some_0);
                        }
                        Some(ps)
                    },
                }
            },
        }
    }
}

/// What a generated-source object holds.
pub open spec fn generated_source_view(v: JsonValue) -> Option<
    (Seq<(Seq<char>, Seq<char>)>, Seq<char>, i32, Seq<char>, Seq<char>),
> {
    match crate::json::jv_obj_of(v) {
        Option::None => Option::None,
        Option::Some(ms) => {
            let ast = match crate::json::obj_lookup(ms, "ast"@) {
                Option::None => Option::None,
                Option::Some(w) => crate::json::jv_str_map_of(w),
            };
            match ast {
                Option::None => Option::None,
                Option::Some(ast) => match crate::json::req_str_member(ms, "contents"@) {
                    Option::None => Option::None,
                    Option::Some(contents) => match crate::json::req_i32_member(ms, "id"@) {
                        Option::None => Option::None,
                        Option::Some(id) => match crate::json::req_str_member(ms, "language"@) {
                            Option::None => Option::None,
                            Option::Some(language) => match crate::json::req_str_member(
                                ms,
                                "name"@,
                            ) {
                                Option::None => Option::None,
                                Option::Some(name) => Option::Some(
                                    (ast, contents, id, language, name),
                                ),
                            },
                        },
                    },
                },
            }
        },
    }
}

/// The view a parsed generated source projects to.
pub open spec fn generated_source_as_view(g: GeneratedSource) -> (
    Seq<(Seq<char>, Seq<char>)>,
    Seq<char>,
    i32,
    Seq<char>,
    Seq<char>,
) {
    (crate::json::str_pairs_views(g.ast@), g.contents@, g.id, g.language@, g.name@)
}

/// Extract a generated-source object.
pub fn parse_generated_source(v: &JsonValue) -> (r: Option<GeneratedSource>)
    ensures
        match r {
            Option::Some(g) => generated_source_view(*v) == Option::Some(
                generated_source_as_view(g),
            ),
            Option::None => generated_source_view(*v) is None,
        },
{
    let ms = match v.as_obj() {
        Some(ms) => ms,
        None => {
            return None;
        },
    };
    let ast = match crate::json::obj_get(ms.as_slice(), "ast") {
        None => {
            return None;
        },
        Some(w) => match crate::json::parse_str_map(w) {
            Some(m) => m,
            None => {
                return None;
            },
        },
    };
    let contents = match crate::json::get_req_str(ms, "contents") {
        Some(c) => c,
        None => {
            return None;
        },
    };
    let id = match crate::json::get_req_i32(ms, "id") {
        Some(n) => n,
        None => {
            return None;
        },
    };
    let language = match crate::json::get_req_str(ms, "language") {
        Some(l) => l,
        None => {
            return None;
        },
    };
    let name = match crate::json::get_req_str(ms, "name") {
        Some(n) => n,
        None => {
            return None;
        },
    };
    Some(GeneratedSource { ast, contents, id, language, name })
}

/// The views of an array of generated sources.
pub open spec fn generated_sources_view(items: Seq<JsonValue>) -> Option<
    Seq<(Seq<(Seq<char>, Seq<char>)>, Seq<char>, i32, Seq<char>, Seq<char>)>,
>
    decreases items.len(),
{
    if items.len() == 0 {
        Option::Some(Seq::empty())
    } else {
        match generated_source_view(items[0]) {
            Option::None => Option::None,
            Option::Some(g) => match generated_sources_view(items.drop_first()) {
                Option::None => Option::None,
                Option::Some(rest) => Option::Some(seq![g] + rest),
            },
        }
    }
}

/// The views a list of parsed generated sources projects to.
pub open spec fn generated_sources_as_views(gs: Seq<GeneratedSource>) -> Seq<
    (Seq<(Seq<char>, Seq<char>)>, Seq<char>, i32, Seq<char>, Seq<char>),
> {
    gs.map_values(|g: GeneratedSource| generated_source_as_view(g))
}

/// Extract an array of generated sources.
pub fn parse_generated_sources(items: &[JsonValue]) -> (r: Option<Vec<GeneratedSource>>)
    ensures
        match r {
            Option::Some(gs) => generated_sources_view(items@) == Option::Some(
                generated_sources_as_views(gs@),
            ),
            Option::None => generated_sources_view(items@) is None,
        },
    decreases items@.len(),
{
    if items.len() == 0 {
        let gs: Vec<GeneratedSource> = Vec::new();
        proof {
            assert(generated_sources_as_views(gs@) =~= generated_sources_view(
                Seq::empty(),
            )->Some_0);
        }
        Some(gs)
    } else {
        match parse_generated_source(&items[0]) {
            None => None,
            Some(g) => {
                let rest = &items[1..items.len()];
                proof {
                    assert(rest@ =~= items@.drop_first());
                }
                match parse_generated_sources(rest) {
                    None => None,
                    Some(mut gs) => {
                        let ghost gv = generated_source_as_view(g);
                        gs.insert(0, g);
                        proof {
                            assert(generated_sources_as_views(gs@) =~~= seq![gv]
                                + generated_sources_view(items@.drop_first())->Some_0);
                        }
                        Some(gs)
                    },
                }
            },
        }
    }
}

/// The views of an object mapping contract names to their
/// source-location arrays (one file's link references).
pub open spec fn link_refs_inner_view(members: Seq<(String, JsonValue)>) -> Option<
    Seq<(Seq<char>, Seq<(Seq<char>, i32, i32)>)>,
>
    decreases members.len(),
{
    if members.len() == 0 {
        Option::Some(Seq::empty())
    } else {
        let locs = match crate::json::jv_arr_of(members[0].1) {
            Option::None => Option::None,
            Option::Some(items) => source_locations_view(items),
        };
        match locs {
            Option::None => Option::None,
            Option::Some(ls) => match link_refs_inner_view(members.drop_first()) {
                Option::None => Option::None,
                Option::Some(rest) => Option::Some(seq![(members[0].0@, ls)] + rest),
            },
        }
    }
}

/// The pair views of one file's parsed link references.
pub open spec fn link_refs_inner_as_views(ps: Seq<(String, Vec<SourceLocation>)>) -> Seq<
    (Seq<char>, Seq<(Seq<char>, i32, i32)>),
> {
    ps.map_values(|p: (String, Vec<SourceLocation>)| (p.0@, source_locations_as_views(p.1@)))
}

/// Extract one file's link references.
pub fn parse_link_refs_inner(members: &[(String, JsonValue)]) -> (r: Option<
    Vec<(String, Vec<SourceLocation>)>,
>)
    ensures
        match r {
            Option::Some(ps) => link_refs_inner_view(members@) == Option::Some(
                link_refs_inner_as_views(ps@),
            ),
            Option::None => link_refs_inner_view(members@) is None,
        },
    decreases members@.len(),
{
    if members.len() == 0 {
        let ps: Vec<(String, Vec<SourceLocation>)> = Vec::new();
        proof {
            assert(link_refs_inner_as_views(ps@) =~= link_refs_inner_view(Seq::empty())->Some_0);
        }
        Some(ps)
    } else {
        let ls = match members[0].1.as_arr() {
            None => {
                return None;
            },
            Some(items) => match parse_source_locations(items.as_slice()) {
                Some(ls) => ls,
                None => {
                    return None;
                },
            },
        };
        let rest = &members[1..members.len()];
        proof {
            assert(rest@ =~= members@.drop_first());
        }
        match parse_link_refs_inner(rest) {
            None => None,
            Some(mut ps) => {
                let ghost lv = source_locations_as_views(ls@);
                ps.insert(0, (members[0].0.clone(), ls));
                proof {
                    assert(link_refs_inner_as_views(ps@) =~~= seq![(members@[0].0@, lv)]
                        + link_refs_inner_view(members@.drop_first())->Some_0);
                }
                Some(ps)
            },
        }
    }
}

/// The views of an object mapping file names to their link references.
pub open spec fn link_refs_view(members: Seq<(String, JsonValue)>) -> Option<
    Seq<(Seq<char>, Seq<(Seq<char>, Seq<(Seq<char>, i32, i32)>)>)>,
>
    decreases members.len(),
{
    if members.len() == 0 {
        Option::Some(Seq::empty())
    } else {
        let inner = match crate::json::jv_obj_of(members[0].1) {
            Option::None => Option::None,
            Option::Some(ims) => link_refs_inner_view(ims),
        };
        match inner {
            Option::None => Option::None,
            Option::Some(named) => match link_refs_view(members.drop_first()) {
                Option::None => Option::None,
                Option::Some(rest) => Option::Some(seq![(members[0].0@, named)] + rest),
            },
        }
    }
}

/// The pair views of parsed link references.
pub open spec fn link_refs_as_views(
    ps: Seq<(String, Vec<(String, Vec<SourceLocation>)>)>,
) -> Seq<(Seq<char>, Seq<(Seq<char>, Seq<(Seq<char>, i32, i32)>)>)> {
    ps.map_values(
        |p: (String, Vec<(String, Vec<SourceLocation>)>)|
            (p.0@, link_refs_inner_as_views(p.1@)),
    )
}

/// Extract an object mapping file names to link references.
pub fn parse_link_refs(members: &[(String, JsonValue)]) -> (r: Option<
    Vec<(String, Vec<(String, Vec<SourceLocation>)>)>,
>)
    ensures
        match r {
            Option::Some(ps) => link_refs_view(members@) == Option::Some(link_refs_as_views(ps@)),
            Option::None => link_refs_view(members@) is None,
        },
    decreases members@.len(),
{
    if members.len() == 0 {
        let ps: Vec<(String, Vec<(String, Vec<SourceLocation>)>)> = Vec::new();
        proof {
            assert(link_refs_as_views(ps@) =~= link_refs_view(Seq::empty())->Some_0);
        }
        Some(ps)
    } else {
        let inner = match members[0].1.as_obj() {
            None => {
                return None;
            },
            Some(ims) => match parse_link_refs_inner(ims.as_slice()) {
                Some(named) => named,
                None => {
                    return None;
                },
            },
        };
        let rest = &members[1..members.len()];
        proof {
            assert(rest@ =~= members@.drop_first());
        }
        match parse_link_refs(rest) {
            None => None,
            Some(mut ps) => {
                let ghost iv = link_refs_inner_as_views(inner@);
                ps.insert(0, (members[0].0.clone(), inner));
                proof {
                    assert(link_refs_as_views(ps@) =~~= seq![(members@[0].0@, iv)]
                        + link_refs_view(members@.drop_first())->Some_0);
                }
                Some(ps)
            },
        }
    }
}

/// The view one parsed bytecode section projects to.
pub struct BdView {
    pub function_debug_data: Seq<(Seq<char>, (i32, Option<i32>, Option<i32>, Option<i32>))>,
    pub object: Seq<char>,
    pub opcodes: Seq<char>,
    pub source_map: Seq<char>,
    pub generated_sources: Seq<
        (Seq<(Seq<char>, Seq<char>)>, Seq<char>, i32, Seq<char>, Seq<char>),
    >,
    pub link_references: Seq<(Seq<char>, Seq<(Seq<char>, Seq<(Seq<char>, i32, i32)>)>)>,
}

/// What a bytecode-section object holds.
pub open spec fn bytecode_data_view(v: JsonValue) -> Option<BdView> {
    match crate::json::jv_obj_of(v) {
        Option::None => Option::None,
        Option::Some(ms) => {
            let fdd = match crate::json::obj_lookup(ms, "functionDebugData"@) {
                Option::None => Option::None,
                Option::Some(w) => match crate::json::jv_obj_of(w) {
                    Option::None => Option::None,
                    Option::Some(dms) => debug_map_view(dms),
                },
            };
            match fdd {
                Option::None => Option::None,
                Option::Some(fdd) => match crate::json::req_str_member(ms, "object"@) {
                    Option::None => Option::None,
                    Option::Some(object) => match crate::json::req_str_member(ms, "opcodes"@) {
                        Option::None => Option::None,
                        Option::Some(opcodes) => match crate::json::req_str_member(
                            ms,
                            "sourceMap"@,
                        ) {
                            Option::None => Option::None,
                            Option::Some(source_map) => {
                                let gs = match crate::json::obj_lookup(ms, "generatedSources"@) {
                                    Option::None => Option::None,
                                    Option::Some(w) => match crate::json::jv_arr_of(w) {
                                        Option::None => Option::None,
                                        Option::Some(items) => generated_sources_view(items),
                                    },
                                };
                                match gs {
                                    Option::None => Option::None,
                                    Option::Some(gs) => {
                                        let lr = match crate::json::obj_lookup(
                                            ms,
                                            "linkReferences"@,
                                        ) {
                                            Option::None => Option::None,
                                            Option::Some(w) => match crate::json::jv_obj_of(w) {
                                                Option::None => Option::None,
                                                Option::Some(lms) => link_refs_view(lms),
                                            },
                                        };
                                        match lr {
                                            Option::None => Option::None,
                                            Option::Some(lr) => Option::Some(
                                                BdView {
                                                    function_debug_data: fdd,
                                                    object,
                                                    opcodes,
                                                    source_map,
                                                    generated_sources: gs,
                                                    link_references: lr,
                                                },
                                            ),
                                        }
                                    },
                                }
                            },
                        },
                    },
                },
            }
        },
    }
}

/// The view a parsed bytecode section projects to.
pub open spec fn bytecode_data_as_view(b: BytecodeData) -> BdView {
    BdView {
        function_debug_data: debug_map_as_views(b.function_debug_data@),
        object: b.object@,
        opcodes: b.opcodes@,
        source_map: b.source_map@,
        generated_sources: generated_sources_as_views(b.generated_sources@),
        link_references: link_refs_as_views(b.link_references@),
    }
}

/// Extract a bytecode-section object.
pub fn parse_bytecode_data(v: &JsonValue) -> (r: Option<BytecodeData>)
    ensures
        match r {
            Option::Some(b) => bytecode_data_view(*v) == Option::Some(bytecode_data_as_view(b)),
            Option::None => bytecode_data_view(*v) is None,
        },
{
    let ms = match v.as_obj() {
        Some(ms) => ms,
        None => {
            return None;
        },
    };
    let function_debug_data = match crate::json::obj_get(ms.as_slice(), "functionDebugData") {
        None => {
            return None;
        },
        Some(w) => match w.as_obj() {
            None => {
                return None;
            },
            Some(dms) => match parse_debug_map(dms.as_slice()) {
                Some(m) => m,
                None => {
                    return None;
                },
            },
        },
    };
    let object = match crate::json::get_req_str(ms, "object") {
        Some(o) => o,
        None => {
            return None;
        },
    };
    let opcodes = match crate::json::get_req_str(ms, "opcodes") {
        Some(o) => o,
        None => {
            return None;
        },
    };
    let source_map = match crate::json::get_req_str(ms, "sourceMap") {
        Some(m) => m,
        None => {
            return None;
        },
    };
    let generated_sources = match crate::json::obj_get(ms.as_slice(), "generatedSources") {
        None => {
            return None;
        },
        Some(w) => match w.as_arr() {
            None => {
                return None;
            },
            Some(items) => match parse_generated_sources(items.as_slice()) {
                Some(gs) => gs,
                None => {
                    return None;
                },
            },
        },
    };
    let link_references = match crate::json::obj_get(ms.as_slice(), "linkReferences") {
        None => {
            return None;
        },
        Some(w) => match w.as_obj() {
            None => {
                return None;
            },
            Some(lms) => match parse_link_refs(lms.as_slice()) {
                Some(lr) => lr,
                None => {
                    return None;
                },
            },
        },
    };
    Some(
        BytecodeData {
            function_debug_data,
            object,
            opcodes,
            source_map,
            generated_sources,
            link_references,
        },
    )
}

/// What a deployed-bytecode object holds: the bytecode fields of the same
/// object, and the immutable references.
pub open spec fn deployed_bytecode_view(v: JsonValue) -> Option<
    (BdView, Seq<(Seq<char>, Seq<char>)>),
> {
    match bytecode_data_view(v) {
        Option::None => Option::None,
        Option::Some(b) => match crate::json::jv_obj_of(v) {
            Option::None => Option::None,
            Option::Some(ms) => match crate::json::obj_lookup(ms, "immutableReferences"@) {
                Option::None => Option::None,
                Option::Some(w) => match crate::json::jv_str_map_of(w) {
                    Option::None => Option::None,
                    Option::Some(m) => Option::Some((b, m)),
                },
            },
        },
    }
}

/// The view a parsed deployed-bytecode section projects to.
pub open spec fn deployed_bytecode_as_view(d: DeployedBytecodeData) -> (
    BdView,
    Seq<(Seq<char>, Seq<char>)>,
) {
    (
        bytecode_data_as_view(d.bytecode_data),
        crate::json::str_pairs_views(d.immutable_references@),
    )
}

/// Extract a deployed-bytecode object.
pub fn parse_deployed_bytecode(v: &JsonValue) -> (r: Option<DeployedBytecodeData>)
    ensures
        match r {
            Option::Some(d) => deployed_bytecode_view(*v) == Option::Some(
                deployed_bytecode_as_view(d),
            ),
            Option::None => deployed_bytecode_view(*v) is None,
        },
{
    let bytecode_data = match parse_bytecode_data(v) {
        Some(b) => b,
        None => {
            return None;
        },
    };
    let ms = match v.as_obj() {
        Some(ms) => ms,
        None => {
            return None;
        },
    };
    let imm = match crate::json::obj_get(ms.as_slice(), "immutableReferences") {
        None => {
            return None;
        },
        Some(w) => match crate::json::parse_str_map(w) {
            Some(m) => m,
            None => {
                return None;
            },
        },
    };
    Some(DeployedBytecodeData { bytecode_data, immutable_references: imm })
}

/// The view one parsed EVM section projects to.
pub struct SolcEvmView {
    pub assembly: Option<Seq<char>>,
    pub legacy_assembly: Option<Seq<(Seq<char>, Seq<char>)>>,
    pub bytecode: Option<BdView>,
    pub deployed_bytecode: Option<(BdView, Seq<(Seq<char>, Seq<char>)>)>,
    pub method_identifiers: Option<Seq<(Seq<char>, Seq<char>)>>,
    pub gas_estimates: Option<Seq<(Seq<char>, Seq<(Seq<char>, Seq<char>)>)>>,
}

/// What an EVM-section object holds.
pub open spec fn solc_evm_view(v: JsonValue) -> Option<SolcEvmView> {
    match crate::json::jv_obj_of(v) {
        Option::None => Option::None,
        Option::Some(ms) => match crate::json::opt_str_member(ms, "assembly"@) {
            Option::None => Option::None,
            Option::Some(assembly) => match crate::json::opt_str_map_member(
                ms,
                "legacyAssembly"@,
            ) {
                Option::None => Option::None,
                Option::Some(legacy) => {
                    let bc = match crate::json::obj_lookup(ms, "bytecode"@) {
                        Option::None => Option::Some(Option::None),
                        Option::Some(JsonValue::Null) => Option::Some(Option::None),
                        Option::Some(w) => match bytecode_data_view(w) {
                            Option::None => Option::None,
                            Option::Some(b) => Option::Some(Option::Some(b)),
                        },
                    };
                    match bc {
                        Option::None => Option::None,
                        Option::Some(bc) => {
                            let db = match crate::json::obj_lookup(ms, "deployedBytecode"@) {
                                Option::None => Option::Some(Option::None),
                                Option::Some(JsonValue::Null) => Option::Some(Option::None),
                                Option::Some(w) => match deployed_bytecode_view(w) {
                                    Option::None => Option::None,
                                    Option::Some(d) => Option::Some(Option::Some(d)),
                                },
                            };
                            match db {
                                Option::None => Option::None,
                                Option::Some(db) => match crate::json::opt_str_map_member(
                                    ms,
                                    "methodIdentifiers"@,
                                ) {
                                    Option::None => Option::None,
                                    Option::Some(methods) => match crate::json::opt_str_map_map_member(
                                        ms,
                                        "gasEstimates"@,
                                    ) {
                                        Option::None => Option::None,
                                        Option::Some(gas) => Option::Some(
                                            SolcEvmView {
                                                assembly,
                                                legacy_assembly: legacy,
                                                bytecode: bc,
                                                deployed_bytecode: db,
                                                method_identifiers: methods,
                                                gas_estimates: gas,
                                            },
                                        ),
                                    },
                                },
                            }
                        },
                    }
                },
            },
        },
    }
}

/// The view a parsed EVM section projects to.
pub open spec fn solc_evm_as_view(e: EvmOutput) -> SolcEvmView {
    SolcEvmView {
        assembly: e.assembly.deep_view(),
        legacy_assembly: match e.legacy_assembly {
            Option::Some(m) => Option::Some(crate::json::str_pairs_views(m@)),
            Option::None => Option::None,
        },
        bytecode: match e.bytecode {
            Option::Some(b) => Option::Some(bytecode_data_as_view(b)),
            Option::None => Option::None,
        },
        deployed_bytecode: match e.deployed_bytecode {
            Option::Some(d) => Option::Some(deployed_bytecode_as_view(d)),
            Option::None => Option::None,
        },
        method_identifiers: match e.method_identifiers {
            Option::Some(m) => Option::Some(crate::json::str_pairs_views(m@)),
            Option::None => Option::None,
        },
        gas_estimates: match e.gas_estimates {
            Option::Some(m) => Option::Some(crate::json::str_map_pairs_views(m@)),
            Option::None => Option::None,
        },
    }
}

/// Extract an EVM-section object.
pub fn parse_solc_evm(v: &JsonValue) -> (r: Option<EvmOutput>)
    ensures
        match r {
            Option::Some(e) => solc_evm_view(*v) == Option::Some(solc_evm_as_view(e)),
            Option::None => solc_evm_view(*v) is None,
        },
{
    let ms = match v.as_obj() {
        Some(ms) => ms,
        None => {
            return None;
        },
    };
    let assembly = match crate::json::get_opt_str(ms, "assembly") {
        Some(a) => a,
        None => {
            return None;
        },
    };
    let legacy_assembly = match crate::json::get_opt_str_map(ms, "legacyAssembly") {
        Some(m) => m,
        None => {
            return None;
        },
    };
    let bytecode = match crate::json::obj_get(ms.as_slice(), "bytecode") {
        None => None,
        Some(w) => {
            if w.is_null() {
                None
            } else {
                match parse_bytecode_data(w) {
                    Some(b) => Some(b),
                    None => {
                        return None;
                    },
                }
            }
        },
    };
    let deployed_bytecode = match crate::json::obj_get(ms.as_slice(), "deployedBytecode") {
        None => None,
        Some(w) => {
            if w.is_null() {
                None
            } else {
                match parse_deployed_bytecode(w) {
                    Some(d) => Some(d),
                    None => {
                        return None;
                    },
                }
            }
        },
    };
    let method_identifiers = match crate::json::get_opt_str_map(ms, "methodIdentifiers") {
        Some(m) => m,
        None => {
            return None;
        },
    };
    let gas_estimates = match crate::json::get_opt_str_map_map(ms, "gasEstimates") {
        Some(m) => m,
        None => {
            return None;
        },
    };
    Some(
        EvmOutput {
            assembly,
            legacy_assembly,
            bytecode,
            deployed_bytecode,
            method_identifiers,
            gas_estimates,
        },
    )
}

/// What one typed slot of an ABI entry holds.
pub open spec fn type_type_view(v: JsonValue) -> Option<(Option<Seq<char>>, Seq<char>, Seq<char>)> {
    match crate::json::jv_obj_of(v) {
        Option::None => Option::None,
        Option::Some(ms) => match crate::json::opt_str_member(ms, "internalType"@) {
            Option::None => Option::None,
            Option::Some(it) => match crate::json::req_str_member(ms, "name"@) {
                Option::None => Option::None,
                Option::Some(name) => match crate::json::req_str_member(ms, "type"@) {
                    Option::None => Option::None,
                    Option::Some(ty) => Option::Some((it, name, ty)),
                },
            },
        },
    }
}

/// The view a parsed typed slot projects to.
pub open spec fn type_type_as_view(t: TypeType) -> (Option<Seq<char>>, Seq<char>, Seq<char>) {
    (t.internal_type.deep_view(), t.name@, t.type_type@)
}

/// Extract one typed slot.
pub fn parse_type_type(v: &JsonValue) -> (r: Option<TypeType>)
    ensures
        match r {
            Option::Some(t) => type_type_view(*v) == Option::Some(type_type_as_view(t)),
            Option::None => type_type_view(*v) is None,
        },
{
    let ms = match v.as_obj() {
        Some(ms) => ms,
        None => {
            return None;
        },
    };
    let internal_type = match crate::json::get_opt_str(ms, "internalType") {
        Some(it) => it,
        None => {
            return None;
        },
    };
    let name = match crate::json::get_req_str(ms, "name") {
        Some(n) => n,
        None => {
            return None;
        },
    };
    let type_type = match crate::json::get_req_str(ms, "type") {
        Some(t) => t,
        None => {
            return None;
        },
    };
    Some(TypeType { internal_type, name, type_type })
}

/// The views of an array of typed slots.
pub open spec fn type_types_view(items: Seq<JsonValue>) -> Option<
    Seq<(Option<Seq<char>>, Seq<char>, Seq<char>)>,
>
    decreases items.len(),
{
    if items.len() == 0 {
        Option::Some(Seq::empty())
    } else {
        match type_type_view(items[0]) {
            Option::None => Option::None,
            Option::Some(t) => match type_types_view(items.drop_first()) {
                Option::None => Option::None,
                Option::Some(rest) => Option::Some(seq![t] + rest),
            },
        }
    }
}

/// The views a list of parsed typed slots projects to.
pub open spec fn type_types_as_views(ts: Seq<TypeType>) -> Seq<
    (Option<Seq<char>>, Seq<char>, Seq<char>),
> {
    ts.map_values(|t: TypeType| type_type_as_view(t))
}

/// Extract an array of typed slots.
pub fn parse_type_types(items: &[JsonValue]) -> (r: Option<Vec<TypeType>>)
    ensures
        match r {
            Option::Some(ts) => type_types_view(items@) == Option::Some(type_types_as_views(ts@)),
            Option::None => type_types_view(items@) is None,
        },
    decreases items@.len(),
{
    if items.len() == 0 {
        let ts: Vec<TypeType> = Vec::new();
        proof {
            assert(type_types_as_views(ts@) =~= type_types_view(Seq::empty())->Some_0);
        }
        Some(ts)
    } else {
        match parse_type_type(&items[0]) {
            None => None,
            Some(t) => {
                let rest = &items[1..items.len()];
                proof {
                    assert(rest@ =~= items@.drop_first());
                }
                match parse_type_types(rest) {
                    None => None,
                    Some(mut ts) => {
                        let ghost tv = type_type_as_view(t);
                        ts.insert(0, t);
                        proof {
                            assert(type_types_as_views(ts@) =~~= seq![tv] + type_types_view(
                                items@.drop_first(),
                            )->Some_0);
                        }
                        Some(ts)
                    },
                }
            },
        }
    }
}

/// The view one parsed ABI entry projects to.
pub struct SolcAbiView {
    pub inputs: Seq<(Option<Seq<char>>, Seq<char>, Seq<char>)>,
    pub name: Seq<char>,
    pub outputs: Seq<(Option<Seq<char>>, Seq<char>, Seq<char>)>,
    pub state_mutability: Seq<char>,
    pub entry_type: Seq<char>,
}

/// What one ABI-entry object holds.
pub open spec fn solc_abi_entry_view(v: JsonValue) -> Option<SolcAbiView> {
    match crate::json::jv_obj_of(v) {
        Option::None => Option::None,
        Option::Some(ms) => {
            let inputs = match crate::json::obj_lookup(ms, "inputs"@) {
                Option::None => Option::None,
                Option::Some(w) => match crate::json::jv_arr_of(w) {
                    Option::None => Option::None,
                    Option::Some(items) => type_types_view(items),
                },
            };
            match inputs {
                Option::None => Option::None,
                Option::Some(inputs) => match crate::json::req_str_member(ms, "name"@) {
                    Option::None => Option::None,
                    Option::Some(name) => {
                        let outputs = match crate::json::obj_lookup(ms, "outputs"@) {
                            Option::None => Option::None,
                            Option::Some(w) => match crate::json::jv_arr_of(w) {
                                Option::None => Option::None,
                                Option::Some(items) => type_types_view(items),
                            },
                        };
                        match outputs {
                            Option::None => Option::None,
                            Option::Some(outputs) => match crate::json::req_str_member(
                                ms,
                                "stateMutability"@,
                            ) {
                                Option::None => Option::None,
                                Option::Some(sm) => match crate::json::req_str_member(
                                    ms,
                                    "type"@,
                                ) {
                                    Option::None => Option::None,
                                    Option::Some(et) => Option::Some(
                                        SolcAbiView {
                                            inputs,
                                            name,
                                            outputs,
                                            state_mutability: sm,
                                            entry_type: et,
                                        },
                                    ),
                                },
                            },
                        }
                    },
                },
            }
        },
    }
}

/// The view a parsed ABI entry projects to.
pub open spec fn solc_abi_entry_as_view(e: AbiEntry) -> SolcAbiView {
    SolcAbiView {
        inputs: type_types_as_views(e.inputs@),
        name: e.name@,
        outputs: type_types_as_views(e.outputs@),
        state_mutability: e.state_mutability@,
        entry_type: e.entry_type@,
    }
}

/// Extract one ABI-entry object.
pub fn parse_solc_abi_entry(v: &JsonValue) -> (r: Option<AbiEntry>)
    ensures
        match r {
            Option::Some(e) => solc_abi_entry_view(*v) == Option::Some(solc_abi_entry_as_view(e)),
            Option::None => solc_abi_entry_view(*v) is None,
        },
{
    let ms = match v.as_obj() {
        Some(ms) => ms,
        None => {
            return None;
        },
    };
    let inputs = match crate::json::obj_get(ms.as_slice(), "inputs") {
        None => {
            return None;
        },
        Some(w) => match w.as_arr() {
            None => {
                return None;
            },
            Some(items) => match parse_type_types(items.as_slice()) {
                Some(ts) => ts,
                None => {
                    return None;
                },
            },
        },
    };
    let name = match crate::json::get_req_str(ms, "name") {
        Some(n) => n,
        None => {
            return None;
        },
    };
    let outputs = match crate::json::obj_get(ms.as_slice(), "outputs") {
        None => {
            return None;
        },
        Some(w) => match w.as_arr() {
            None => {
                return None;
            },
            Some(items) => match parse_type_types(items.as_slice()) {
                Some(ts) => ts,
                None => {
                    return None;
                },
            },
        },
    };
    let state_mutability = match crate::json::get_req_str(ms, "stateMutability") {
        Some(s) => s,
        None => {
            return None;
        },
    };
    let entry_type = match crate::json::get_req_str(ms, "type") {
        Some(t) => t,
        None => {
            return None;
        },
    };
    Some(AbiEntry { inputs, name, outputs, state_mutability, entry_type })
}

/// The views of an array of ABI entries.
pub open spec fn solc_abi_view(items: Seq<JsonValue>) -> Option<Seq<SolcAbiView>>
    decreases items.len(),
{
    if items.len() == 0 {
        Option::Some(Seq::empty())
    } else {
        match solc_abi_entry_view(items[0]) {
            Option::None => Option::None,
            Option::Some(e) => match solc_abi_view(items.drop_first()) {
                Option::None => Option::None,
                Option::Some(rest) => Option::Some(seq![e] + rest),
            },
        }
    }
}

/// The views a list of parsed ABI entries projects to.
pub open spec fn solc_abi_as_views(es: Seq<AbiEntry>) -> Seq<SolcAbiView> {
    es.map_values(|e: AbiEntry| solc_abi_entry_as_view(e))
}

/// Extract an array of ABI entries.
pub fn parse_solc_abi(items: &[JsonValue]) -> (r: Option<Vec<AbiEntry>>)
    ensures
        match r {
            Option::Some(es) => solc_abi_view(items@) == Option::Some(solc_abi_as_views(es@)),
            Option::None => solc_abi_view(items@) is None,
        },
    decreases items@.len(),
{
    if items.len() == 0 {
        let es: Vec<AbiEntry> = Vec::new();
        proof {
            assert(solc_abi_as_views(es@) =~= solc_abi_view(Seq::empty())->Some_0);
        }
        Some(es)
    } else {
        match parse_solc_abi_entry(&items[0]) {
            None => None,
            Some(e) => {
                let rest = &items[1..items.len()];
                proof {
                    assert(rest@ =~= items@.drop_first());
                }
                match parse_solc_abi(rest) {
                    None => None,
                    Some(mut es) => {
                        let ghost ev = solc_abi_entry_as_view(e);
                        es.insert(0, e);
                        proof {
                            assert(solc_abi_as_views(es@) =~~= seq![ev] + solc_abi_view(
                                items@.drop_first(),
                            )->Some_0);
                        }
                        Some(es)
                    },
                }
            },
        }
    }
}

/// The view one parsed contract projects to.
pub struct SolcContractView {
    pub abi: Option<Seq<SolcAbiView>>,
    pub metadata: Option<Seq<char>>,
    pub user_doc: Option<Seq<(Seq<char>, Seq<char>)>>,
    pub dev_doc: Option<Seq<(Seq<char>, Seq<char>)>>,
    pub ir: Option<Seq<char>>,
    pub ir_ast: Option<Seq<(Seq<char>, Seq<char>)>>,
    pub ir_optimized: Option<Seq<char>>,
    pub ir_optimized_ast: Option<Seq<(Seq<char>, Seq<char>)>>,
    pub storage_layout: bool,
    pub evm: Option<SolcEvmView>,
}

/// What one contract object of the output holds.
pub open spec fn solc_contract_view(v: JsonValue) -> Option<SolcContractView> {
    match crate::json::jv_obj_of(v) {
        Option::None => Option::None,
        Option::Some(ms) => {
            let abi = match crate::json::obj_lookup(ms, "abi"@) {
                Option::None => Option::Some(Option::None),
                Option::Some(JsonValue::Null) => Option::Some(Option::None),
                Option::Some(w) => match crate::json::jv_arr_of(w) {
                    Option::None => Option::None,
                    Option::Some(items) => match solc_abi_view(items) {
                        Option::None => Option::None,
                        Option::Some(es) => Option::Some(Option::Some(es)),
                    },
                },
            };
            match abi {
                Option::None => Option::None,
                Option::Some(abi) => match crate::json::opt_str_member(ms, "metadata"@) {
                    Option::None => Option::None,
                    Option::Some(metadata) => match crate::json::opt_str_map_member(
                        ms,
                        "userdoc"@,
                    ) {
                        Option::None => Option::None,
                        Option::Some(user_doc) => match crate::json::opt_str_map_member(
                            ms,
                            "devdoc"@,
                        ) {
                            Option::None => Option::None,
                            Option::Some(dev_doc) => match crate::json::opt_str_member(
                                ms,
                                "ir"@,
                            ) {
                                Option::None => Option::None,
                                Option::Some(ir) => match crate::json::opt_str_map_member(
                                    ms,
                                    "irAst"@,
                                ) {
                                    Option::None => Option::None,
                                    Option::Some(ir_ast) => match crate::json::opt_str_member(
                                        ms,
                                        "irOptimized"@,
                                    ) {
                                        Option::None => Option::None,
                                        Option::Some(ir_opt) => match crate::json::opt_str_map_member(
                                            ms,
                                            "irOptimizedAst"@,
                                        ) {
                                            Option::None => Option::None,
                                            Option::Some(ir_opt_ast) => {
                                                let layout = match crate::json::obj_lookup(
                                                    ms,
                                                    "storageLayout"@,
                                                ) {
                                                    Option::None => Option::Some(false),
                                                    Option::Some(JsonValue::Null) => Option::Some(
                                                        false,
                                                    ),
                                                    Option::Some(
                                                        JsonValue::Obj(_),
                                                    ) => Option::Some(true),
                                                    Option::Some(_) => Option::None,
                                                };
                                                match layout {
                                                    Option::None => Option::None,
                                                    Option::Some(layout) => {
                                                        let evm = match crate::json::obj_lookup(
                                                            ms,
                                                            "evm"@,
                                                        ) {
                                                            Option::None => Option::Some(
                                                                Option::None,
                                                            ),
                                                            Option::Some(
                                                                JsonValue::Null,
                                                            ) => Option::Some(Option::None),
                                                            Option::Some(w) => match solc_evm_view(
                                                                w,
                                                            ) {
                                                                Option::None => Option::None,
                                                                Option::Some(e) => Option::Some(
                                                                    Option::Some(e),
                                                                ),
                                                            },
                                                        };
                                                        match evm {
                                                            Option::None => Option::None,
                                                            Option::Some(evm) => Option::Some(
                                                                SolcContractView {
                                                                    abi,
                                                                    metadata,
                                                                    user_doc,
                                                                    dev_doc,
                                                                    ir,
                                                                    ir_ast,
                                                                    ir_optimized: ir_opt,
                                                                    ir_optimized_ast: ir_opt_ast,
                                                                    storage_layout: layout,
                                                                    evm,
                                                                },
                                                            ),
                                                        }
                                                    },
                                                }
                                            },
                                        },
                                    },
                                },
                            },
                        },
                    },
                },
            }
        },
    }
}

/// The view a parsed contract projects to.
pub open spec fn solc_contract_as_view(c: SolcContract) -> SolcContractView {
    SolcContractView {
        abi: match c.abi {
            Option::Some(es) => Option::Some(solc_abi_as_views(es@)),
            Option::None => Option::None,
        },
        metadata: c.metadata.deep_view(),
        user_doc: match c.user_doc {
            Option::Some(m) => Option::Some(crate::json::str_pairs_views(m@)),
            Option::None => Option::None,
        },
        dev_doc: match c.dev_doc {
            Option::Some(m) => Option::Some(crate::json::str_pairs_views(m@)),
            Option::None => Option::None,
        },
        ir: c.ir.deep_view(),
        ir_ast: match c.ir_ast {
            Option::Some(m) => Option::Some(crate::json::str_pairs_views(m@)),
            Option::None => Option::None,
        },
        ir_optimized: c.ir_optimized.deep_view(),
        ir_optimized_ast: match c.ir_optimized_ast {
            Option::Some(m) => Option::Some(crate::json::str_pairs_views(m@)),
            Option::None => Option::None,
        },
        storage_layout: c.storage_layout is Some,
        evm: match c.evm {
            Option::Some(e) => Option::Some(solc_evm_as_view(e)),
            Option::None => Option::None,
        },
    }
}

/// Extract one contract object.
pub fn parse_solc_contract(v: &JsonValue) -> (r: Option<SolcContract>)
    ensures
        match r {
            Option::Some(c) => solc_contract_view(*v) == Option::Some(solc_contract_as_view(c)),
            Option::None => solc_contract_view(*v) is None,
        },
{
    let ms = match v.as_obj() {
        Some(ms) => ms,
        None => {
            return None;
        },
    };
    let abi = match crate::json::obj_get(ms.as_slice(), "abi") {
        None => None,
        Some(w) => {
            if w.is_null() {
                None
            } else {
                match w.as_arr() {
                    None => {
                        return None;
                    },
                    Some(items) => match parse_solc_abi(items.as_slice()) {
                        Some(es) => Some(es),
                        None => {
                            return None;
                        },
                    },
                }
            }
        },
    };
    let metadata = match crate::json::get_opt_str(ms, "metadata") {
        Some(m) => m,
        None => {
            return None;
        },
    };
    let user_doc = match crate::json::get_opt_str_map(ms, "userdoc") {
        Some(m) => m,
        None => {
            return None;
        },
    };
    let dev_doc = match crate::json::get_opt_str_map(ms, "devdoc") {
        Some(m) => m,
        None => {
            return None;
        },
    };
    let ir = match crate::json::get_opt_str(ms, "ir") {
        Some(x) => x,
        None => {
            return None;
        },
    };
    let ir_ast = match crate::json::get_opt_str_map(ms, "irAst") {
        Some(m) => m,
        None => {
            return None;
        },
    };
    let ir_optimized = match crate::json::get_opt_str(ms, "irOptimized") {
        Some(x) => x,
        None => {
            return None;
        },
    };
    let ir_optimized_ast = match crate::json::get_opt_str_map(ms, "irOptimizedAst") {
        Some(m) => m,
        None => {
            return None;
        },
    };
    let storage_layout = match crate::json::obj_get(ms.as_slice(), "storageLayout") {
        None => None,
        Some(w) => {
            if w.is_null() {
                None
            } else {
                match w.as_obj() {
                    Some(_) => Some(StorageLayout {  }),
                    None => {
                        return None;
                    },
                }
            }
        },
    };
    let evm = match crate::json::obj_get(ms.as_slice(), "evm") {
        None => None,
        Some(w) => {
            if w.is_null() {
                None
            } else {
                match parse_solc_evm(w) {
                    Some(e) => Some(e),
                    None => {
                        return None;
                    },
                }
            }
        },
    };
    Some(
        SolcContract {
            abi,
            metadata,
            user_doc,
            dev_doc,
            ir,
            ir_ast,
            ir_optimized,
            ir_optimized_ast,
            storage_layout,
            evm,
        },
    )
}

/// The views of an object mapping contract names to contract objects.
pub open spec fn solc_named_contracts_view(members: Seq<(String, JsonValue)>) -> Option<
    Seq<(Seq<char>, SolcContractView)>,
>
    decreases members.len(),
{
    if members.len() == 0 {
        Option::Some(Seq::empty())
    } else {
        match solc_contract_view(members[0].1) {
            Option::None => Option::None,
            Option::Some(c) => match solc_named_contracts_view(members.drop_first()) {
                Option::None => Option::None,
                Option::Some(rest) => Option::Some(seq![(members[0].0@, c)] + rest),
            },
        }
    }
}

/// The pair views of a parsed name-to-contract list.
pub open spec fn solc_named_contracts_as_views(ps: Seq<(String, SolcContract)>) -> Seq<
    (Seq<char>, SolcContractView),
> {
    ps.map_values(|p: (String, SolcContract)| (p.0@, solc_contract_as_view(p.1)))
}

/// Extract an object mapping contract names to contracts.
pub fn parse_solc_named_contracts(members: &[(String, JsonValue)]) -> (r: Option<
    Vec<(String, SolcContract)>,
>)
    ensures
        match r {
            Option::Some(ps) => solc_named_contracts_view(members@) == Option::Some(
                solc_named_contracts_as_views(ps@),
            ),
            Option::None => solc_named_contracts_view(members@) is None,
        },
    decreases members@.len(),
{
    if members.len() == 0 {
        let ps: Vec<(String, SolcContract)> = Vec::new();
        proof {
            assert(solc_named_contracts_as_views(ps@) =~= solc_named_contracts_view(
                Seq::empty(),
            )->Some_0);
        }
        Some(ps)
    } else {
        match parse_solc_contract(&members[0].1) {
            None => None,
            Some(c) => {
                let rest = &members[1..members.len()];
                proof {
                    assert(rest@ =~= members@.drop_first());
                }
                match parse_solc_named_contracts(rest) {
                    None => None,
                    Some(mut ps) => {
                        let ghost cv = solc_contract_as_view(c);
                        ps.insert(0, (members[0].0.clone(), c));
                        proof {
                            assert(solc_named_contracts_as_views(ps@) =~~= seq![
                                (members@[0].0@, cv),
                            ] + solc_named_contracts_view(members@.drop_first())->Some_0);
                        }
                        Some(ps)
                    },
                }
            },
        }
    }
}

/// The views of an object mapping file names to their contract maps.
pub open spec fn solc_contract_files_view(members: Seq<(String, JsonValue)>) -> Option<
    Seq<(Seq<char>, Seq<(Seq<char>, SolcContractView)>)>,
>
    decreases members.len(),
{
    if members.len() == 0 {
        Option::Some(Seq::empty())
    } else {
        let inner = match crate::json::jv_obj_of(members[0].1) {
            Option::None => Option::None,
            Option::Some(cms) => solc_named_contracts_view(cms),
        };
        match inner {
            Option::None => Option::None,
            Option::Some(named) => match solc_contract_files_view(members.drop_first()) {
                Option::None => Option::None,
                Option::Some(rest) => Option::Some(seq![(members[0].0@, named)] + rest),
            },
        }
    }
}

/// The pair views of a parsed file-to-contracts list.
pub open spec fn solc_contract_files_as_views(
    ps: Seq<(String, Vec<(String, SolcContract)>)>,
) -> Seq<(Seq<char>, Seq<(Seq<char>, SolcContractView)>)> {
    ps.map_values(
        |p: (String, Vec<(String, SolcContract)>)|
            (p.0@, solc_named_contracts_as_views(p.1@)),
    )
}

/// Extract an object mapping file names to contract maps.
pub fn parse_solc_contract_files(members: &[(String, JsonValue)]) -> (r: Option<
    Vec<(String, Vec<(String, SolcContract)>)>,
>)
    ensures
        match r {
            Option::Some(ps) => solc_contract_files_view(members@) == Option::Some(
                solc_contract_files_as_views(ps@),
            ),
            Option::None => solc_contract_files_view(members@) is None,
        },
    decreases members@.len(),
{
    if members.len() == 0 {
        let ps: Vec<(String, Vec<(String, SolcContract)>)> = Vec::new();
        proof {
            assert(solc_contract_files_as_views(ps@) =~= solc_contract_files_view(
                Seq::empty(),
            )->Some_0);
        }
        Some(ps)
    } else {
        let inner = match members[0].1.as_obj() {
            None => {
                return None;
            },
            Some(cms) => match parse_solc_named_contracts(cms.as_slice()) {
                Some(named) => named,
                None => {
                    return None;
                },
            },
        };
        let rest = &members[1..members.len()];
        proof {
            assert(rest@ =~= members@.drop_first());
        }
        match parse_solc_contract_files(rest) {
            None => None,
            Some(mut ps) => {
                let ghost nv = solc_named_contracts_as_views(inner@);
                ps.insert(0, (members[0].0.clone(), inner));
                proof {
                    assert(solc_contract_files_as_views(ps@) =~~= seq![(members@[0].0@, nv)]
                        + solc_contract_files_view(members@.drop_first())->Some_0);
                }
                Some(ps)
            },
        }
    }
}

/// The views of an array of diagnostics.
pub open spec fn out_errors_view(items: Seq<JsonValue>) -> Option<
    Seq<
        (
            Option<(Seq<char>, i32, i32)>,
            Option<Seq<(Seq<char>, i32, i32)>>,
            ErrType,
            Seq<char>,
            Severity,
            Option<Seq<char>>,
            Seq<char>,
            Option<Seq<char>>,
        ),
    >,
>
    decreases items.len(),
{
    if items.len() == 0 {
        Option::Some(Seq::empty())
    } else {
        match out_error_view(items[0]) {
            Option::None => Option::None,
            Option::Some(e) => match out_errors_view(items.drop_first()) {
                Option::None => Option::None,
                Option::Some(rest) => Option::Some(seq![e] + rest),
            },
        }
    }
}

/// The views a list of parsed diagnostics projects to.
pub open spec fn out_errors_as_views(es: Seq<OutError<SourceLocation, ErrType>>) -> Seq<
    (
        Option<(Seq<char>, i32, i32)>,
        Option<Seq<(Seq<char>, i32, i32)>>,
        ErrType,
        Seq<char>,
        Severity,
        Option<Seq<char>>,
        Seq<char>,
        Option<Seq<char>>,
    ),
> {
    es.map_values(|e: OutError<SourceLocation, ErrType>| out_error_as_view(e))
}

/// Extract an array of diagnostics.
pub fn parse_out_errors(items: &[JsonValue]) -> (r: Option<
    Vec<OutError<SourceLocation, ErrType>>,
>)
    ensures
        match r {
            Option::Some(es) => out_errors_view(items@) == Option::Some(out_errors_as_views(es@)),
            Option::None => out_errors_view(items@) is None,
        },
    decreases items@.len(),
{
    if items.len() == 0 {
        let es: Vec<OutError<SourceLocation, ErrType>> = Vec::new();
        proof {
            assert(out_errors_as_views(es@) =~= out_errors_view(Seq::empty())->Some_0);
        }
        Some(es)
    } else {
        match parse_out_error(&items[0]) {
            None => None,
            Some(e) => {
                let rest = &items[1..items.len()];
                proof {
                    assert(rest@ =~= items@.drop_first());
                }
                match parse_out_errors(rest) {
                    None => None,
                    Some(mut es) => {
                        let ghost ev = out_error_as_view(e);
                        es.insert(0, e);
                        proof {
                            assert(out_errors_as_views(es@) =~~= seq![ev] + out_errors_view(
                                items@.drop_first(),
                            )->Some_0);
                        }
                        Some(es)
                    },
                }
            },
        }
    }
}

/// What a whole Solidity output document holds.
pub open spec fn solc_out_view(v: JsonValue) -> Option<
    (
        Option<
            Seq<
                (
                    Option<(Seq<char>, i32, i32)>,
                    Option<Seq<(Seq<char>, i32, i32)>>,
                    ErrType,
                    Seq<char>,
                    Severity,
                    Option<Seq<char>>,
                    Seq<char>,
                    Option<Seq<char>>,
                ),
            >,
        >,
        Seq<(Seq<char>, Seq<(Seq<char>, i32)>)>,
        Option<Seq<(Seq<char>, Seq<(Seq<char>, SolcContractView)>)>>,
    ),
> {
    match crate::json::jv_obj_of(v) {
        Option::None => Option::None,
        Option::Some(ms) => {
            let errors = match crate::json::obj_lookup(ms, "errors"@) {
                Option::None => Option::Some(Option::None),
                Option::Some(JsonValue::Null) => Option::Some(Option::None),
                Option::Some(w) => match crate::json::jv_arr_of(w) {
                    Option::None => Option::None,
                    Option::Some(items) => match out_errors_view(items) {
                        Option::None => Option::None,
                        Option::Some(es) => Option::Some(Option::Some(es)),
                    },
                },
            };
            match errors {
                Option::None => Option::None,
                Option::Some(errors) => {
                    let sources = match crate::json::obj_lookup(ms, "sources"@) {
                        Option::None => Option::None,
                        Option::Some(w) => match crate::json::jv_obj_of(w) {
                            Option::None => Option::None,
                            Option::Some(sms) => source_ids_view(sms),
                        },
                    };
                    match sources {
                        Option::None => Option::None,
                        Option::Some(sources) => {
                            let contracts = match crate::json::obj_lookup(ms, "contracts"@) {
                                Option::None => Option::Some(Option::None),
                                Option::Some(JsonValue::Null) => Option::Some(Option::None),
                                Option::Some(w) => match crate::json::jv_obj_of(w) {
                                    Option::None => Option::None,
                                    Option::Some(fms) => match solc_contract_files_view(fms) {
                                        Option::None => Option::None,
                                        Option::Some(fs) => Option::Some(Option::Some(fs)),
                                    },
                                },
                            };
                            match contracts {
                                Option::None => Option::None,
                                Option::Some(contracts) => Option::Some(
                                    (errors, sources, contracts),
                                ),
                            }
                        },
                    }
                },
            }
        },
    }
}

/// The view a parsed output document projects to.
pub open spec fn solc_out_as_view(o: SolcOut) -> (
    Option<
        Seq<
            (
                Option<(Seq<char>, i32, i32)>,
                Option<Seq<(Seq<char>, i32, i32)>>,
                ErrType,
                Seq<char>,
                Severity,
                Option<Seq<char>>,
                Seq<char>,
                Option<Seq<char>>,
            ),
        >,
    >,
    Seq<(Seq<char>, Seq<(Seq<char>, i32)>)>,
    Option<Seq<(Seq<char>, Seq<(Seq<char>, SolcContractView)>)>>,
) {
    (
        match o.errors {
            Option::Some(es) => Option::Some(out_errors_as_views(es@)),
            Option::None => Option::None,
        },
        source_ids_as_views(o.sources@),
        match o.contracts {
            Option::Some(fs) => Option::Some(solc_contract_files_as_views(fs@)),
            Option::None => Option::None,
        },
    )
}

/// Parse a whole Solidity output document. The document must be one JSON
/// object of the schema's shape, or the call fails with a structured
/// error; what every field holds is pinned by [`solc_out_view`].
pub fn parse_solc_output(s: &str) -> (r: Result<SolcOut, JsonError>)
    ensures
        match crate::json::json_parsed(s.spec_bytes()) {
            Option::None => r is Err,
            Option::Some(v) => {
                &&& r is Ok <==> solc_out_view(v) is Some
                &&& (r matches Result::Ok(o) ==> solc_out_view(v) == Option::Some(
                    solc_out_as_view(o),
                ))
            },
        },
        r matches Result::Err(e) ==> e.message@ == "failed to deserialize the compiler output"@,
{
    let refused = "failed to deserialize the compiler output";
    let v = match crate::json::json_parse(s.as_bytes()) {
        Some(v) => v,
        None => {
            return Err(JsonError { message: refused.to_owned() });
        },
    };
    let ms = match v.as_obj() {
        Some(ms) => ms,
        None => {
            return Err(JsonError { message: refused.to_owned() });
        },
    };
    let errors = match crate::json::obj_get(ms.as_slice(), "errors") {
        None => None,
        Some(w) => {
            if w.is_null() {
                None
            } else {
                match w.as_arr() {
                    None => {
                        return Err(JsonError { message: refused.to_owned() });
                    },
                    Some(items) => match parse_out_errors(items.as_slice()) {
                        Some(es) => Some(es),
                        None => {
                            return Err(JsonError { message: refused.to_owned() });
                        },
                    },
                }
            }
        },
    };
    let sources = match crate::json::obj_get(ms.as_slice(), "sources") {
        None => {
            return Err(JsonError { message: refused.to_owned() });
        },
        Some(w) => match w.as_obj() {
            None => {
                return Err(JsonError { message: refused.to_owned() });
            },
            Some(sms) => match parse_source_ids_members(sms.as_slice()) {
                Some(ids) => ids,
                None => {
                    return Err(JsonError { message: refused.to_owned() });
                },
            },
        },
    };
    let contracts = match crate::json::obj_get(ms.as_slice(), "contracts") {
        None => None,
        Some(w) => {
            if w.is_null() {
                None
            } else {
                match w.as_obj() {
                    None => {
                        return Err(JsonError { message: refused.to_owned() });
                    },
                    Some(fms) => match parse_solc_contract_files(fms.as_slice()) {
                        Some(fs) => Some(fs),
                        None => {
                            return Err(JsonError { message: refused.to_owned() });
                        },
                    },
                }
            }
        },
    };
    Ok(SolcOut { errors, sources, contracts })
}

impl SolcOut {
    /// This backend's output back out of the tagged union; another
    /// backend's is refused.
    pub fn try_from(value: crate::builder::CompilerOutput) -> (r: Result<SolcOut, String>)
        ensures
            match value {
                crate::builder::CompilerOutput::Solc(o) => r == Result::<SolcOut, String>::Ok(o),
                _ => (r matches Result::Err(e) && e@ == "Error with TryFrom !"@),
            },
    {
        match value {
            crate::builder::CompilerOutput::Solc(solc_out) => Ok(solc_out),
            _ => Err("Error with TryFrom !".to_owned()),
        }
    }
}

/// Classify one finished Solidity subprocess run. A failure exit surfaces
/// the captured standard error; output that did not parse against the
/// schema is a transport failure; a parsed output with a non-empty error
/// list fails with the first error's message, formatted when the compiler
/// gave one — otherwise the parsed structure is the result.
pub fn interpret(status_ok: bool, parsed: Option<SolcOut>, stderr: String) -> (r: Result<
    crate::builder::CompilerOutput,
    crate::builder::CompilerError,
>)
    ensures
        !status_ok ==> (r matches Result::Err(
            crate::builder::CompilerError::BinError(crate::builder::BinError::Json(j)),
        ) && j.message == stderr),
        status_ok && parsed is None ==> (r matches Result::Err(
            crate::builder::CompilerError::BinError(crate::builder::BinError::Json(j)),
        ) && j.message@ == "failed to deserialize the compiler output"@),
        status_ok ==> (parsed matches Option::Some(out) ==> match first_error_msg(out) {
            Option::Some(m) => (r matches Result::Err(
                crate::builder::CompilerError::BinError(crate::builder::BinError::Json(j)),
            ) && j.message@ == m@),
            Option::None => r == Result::<
                crate::builder::CompilerOutput,
                crate::builder::CompilerError,
            >::Ok(crate::builder::CompilerOutput::Solc(out)),
        }),
{
    if !status_ok {
        return Err(
            crate::builder::CompilerError::BinError(
                crate::builder::BinError::Json(JsonError { message: stderr }),
            ),
        );
    }
    match parsed {
        None => Err(
            crate::builder::CompilerError::BinError(
                crate::builder::BinError::Json(
                    JsonError { message: "failed to deserialize the compiler output".to_owned() },
                ),
            ),
        ),
        Some(out) => {
            let msg: Option<String> = match out.first_error_message() {
                Some(m) => Some(m.clone()),
                None => None,
            };
            match msg {
                Some(m) => Err(
                    crate::builder::CompilerError::BinError(
                        crate::builder::BinError::Json(JsonError { message: m }),
                    ),
                ),
                None => Ok(crate::builder::CompilerOutput::Solc(out)),
            }
        },
    }
}

/// The severity a diagnostic's lowercase name denotes.
pub open spec fn severity_of_chars(s: Seq<char>) -> Option<Severity> {
    if s == "error"@ {
        Option::Some(Severity::Error)
    } else if s == "warning"@ {
        Option::Some(Severity::Warning)
    } else if s == "info"@ {
        Option::Some(Severity::Info)
    } else {
        Option::None
    }
}

/// The severity a JSON value names, if it is one of the three.
pub open spec fn jv_severity_of(v: JsonValue) -> Option<Severity> {
    match crate::json::jv_str_of(v) {
        Option::None => Option::None,
        Option::Some(s) => severity_of_chars(s),
    }
}

/// Read a severity name.
pub fn parse_severity(v: &JsonValue) -> (r: Option<Severity>)
    ensures
        r == jv_severity_of(*v),
{
    match v.as_str() {
        None => None,
        Some(s) => {
            if crate::json::str_eq(s.as_str(), "error") {
                Some(Severity::Error)
            } else if crate::json::str_eq(s.as_str(), "warning") {
                Some(Severity::Warning)
            } else if crate::json::str_eq(s.as_str(), "info") {
                Some(Severity::Info)
            } else {
                None
            }
        },
    }
}

/// The diagnostic kind a JSON value names, if it is one of the schema's.
pub open spec fn jv_err_type_of(v: JsonValue) -> Option<ErrType> {
    match crate::json::jv_str_of(v) {
        Option::None => Option::None,
        Option::Some(s) => if s == "TypeError"@ {
            Option::Some(ErrType::TypeError)
        } else if s == "InternalCompilerError"@ {
            Option::Some(ErrType::InternalCompilerError)
        } else if s == "Exception"@ {
            Option::Some(ErrType::Exception)
        } else if s == "JSONError"@ {
            Option::Some(ErrType::JSONError)
        } else if s == "ParserError"@ {
            Option::Some(ErrType::ParserError)
        } else {
            Option::None
        },
    }
}

/// Read a diagnostic kind name.
pub fn parse_err_type(v: &JsonValue) -> (r: Option<ErrType>)
    ensures
        r == jv_err_type_of(*v),
{
    match v.as_str() {
        None => None,
        Some(s) => {
            if crate::json::str_eq(s.as_str(), "TypeError") {
                Some(ErrType::TypeError)
            } else if crate::json::str_eq(s.as_str(), "InternalCompilerError") {
                Some(ErrType::InternalCompilerError)
            } else if crate::json::str_eq(s.as_str(), "Exception") {
                Some(ErrType::Exception)
            } else if crate::json::str_eq(s.as_str(), "JSONError") {
                Some(ErrType::JSONError)
            } else if crate::json::str_eq(s.as_str(), "ParserError") {
                Some(ErrType::ParserError)
            } else {
                None
            }
        },
    }
}

/// What a source-location object holds: file, start, end.
pub open spec fn source_location_view(v: JsonValue) -> Option<(Seq<char>, i32, i32)> {
    match crate::json::jv_obj_of(v) {
        Option::None => Option::None,
        Option::Some(ms) => match crate::json::req_str_member(ms, "file"@) {
            Option::None => Option::None,
            Option::Some(f) => match crate::json::req_i32_member(ms, "start"@) {
                Option::None => Option::None,
                Option::Some(st) => match crate::json::req_i32_member(ms, "end"@) {
                    Option::None => Option::None,
                    Option::Some(e) => Option::Some((f, st, e)),
                },
            },
        },
    }
}

/// The view a parsed source location projects to.
pub open spec fn source_location_as_view(l: SourceLocation) -> (Seq<char>, i32, i32) {
    (l.file@, l.start, l.end)
}

/// Extract a source-location object.
pub fn parse_source_location(v: &JsonValue) -> (r: Option<SourceLocation>)
    ensures
        match r {
            Option::Some(l) => source_location_view(*v) == Option::Some(source_location_as_view(l)),
            Option::None => source_location_view(*v) is None,
        },
{
    let ms = match v.as_obj() {
        Some(ms) => ms,
        None => {
            return None;
        },
    };
    let file = match crate::json::get_req_str(ms, "file") {
        Some(f) => f,
        None => {
            return None;
        },
    };
    let start = match crate::json::get_req_i32(ms, "start") {
        Some(n) => n,
        None => {
            return None;
        },
    };
    let end = match crate::json::get_req_i32(ms, "end") {
        Some(n) => n,
        None => {
            return None;
        },
    };
    Some(SourceLocation { file, start, end })
}

/// The views of an array of source locations; `None` when any item is not
/// one.
pub open spec fn source_locations_view(items: Seq<JsonValue>) -> Option<
    Seq<(Seq<char>, i32, i32)>,
>
    decreases items.len(),
{
    if items.len() == 0 {
        Option::Some(Seq::empty())
    } else {
        match source_location_view(items[0]) {
            Option::None => Option::None,
            Option::Some(l) => match source_locations_view(items.drop_first()) {
                Option::None => Option::None,
                Option::Some(rest) => Option::Some(seq![l] + rest),
            },
        }
    }
}

/// The views a list of parsed source locations projects to.
pub open spec fn source_locations_as_views(ls: Seq<SourceLocation>) -> Seq<(Seq<char>, i32, i32)> {
    ls.map_values(|l: SourceLocation| source_location_as_view(l))
}

/// Extract an array of source locations.
pub fn parse_source_locations(items: &[JsonValue]) -> (r: Option<Vec<SourceLocation>>)
    ensures
        match r {
            Option::Some(ls) => source_locations_view(items@) == Option::Some(
                source_locations_as_views(ls@),
            ),
            Option::None => source_locations_view(items@) is None,
        },
    decreases items@.len(),
{
    if items.len() == 0 {
        let ls: Vec<SourceLocation> = Vec::new();
        proof {
            assert(source_locations_as_views(ls@) =~= Seq::<(Seq<char>, i32, i32)>::empty());
        }
        Some(ls)
    } else {
        match parse_source_location(&items[0]) {
            None => None,
            Some(l) => {
                let rest = &items[1..items.len()];
                proof {
                    assert(rest@ =~= items@.drop_first());
                }
                match parse_source_locations(rest) {
                    None => None,
                    Some(mut ls) => {
                        let ghost lv = source_location_as_view(l);
                        ls.insert(0, l);
                        proof {
                            assert(source_locations_as_views(ls@) =~~= seq![lv]
                                + source_locations_view(items@.drop_first())->Some_0);
                        }
                        Some(ls)
                    },
                }
            },
        }
    }
}

/// An optional member whose value must be an array of source locations.
pub open spec fn opt_locations_member(ms: Seq<(String, JsonValue)>, key: Seq<char>) -> Option<
    Option<Seq<(Seq<char>, i32, i32)>>,
> {
    match crate::json::obj_lookup(ms, key) {
        Option::None => Option::Some(Option::None),
        Option::Some(JsonValue::Null) => Option::Some(Option::None),
        Option::Some(v) => match crate::json::jv_arr_of(v) {
            Option::None => Option::None,
            Option::Some(items) => match source_locations_view(items) {
                Option::None => Option::None,
                Option::Some(ls) => Option::Some(Option::Some(ls)),
            },
        },
    }
}

/// Read an optional array-of-source-locations member.
pub fn get_opt_locations(ms: &Vec<(String, JsonValue)>, key: &str) -> (r: Option<
    Option<Vec<SourceLocation>>,
>)
    ensures
        match r {
            Option::None => opt_locations_member(ms@, key@) is None,
            Option::Some(Option::None) => opt_locations_member(ms@, key@) == Option::Some(
                Option::<Seq<(Seq<char>, i32, i32)>>::None,
            ),
            Option::Some(Option::Some(ls)) => opt_locations_member(ms@, key@) == Option::Some(
                Option::Some(source_locations_as_views(ls@)),
            ),
        },
{
    match crate::json::obj_get(ms.as_slice(), key) {
        None => Some(None),
        Some(v) => {
            if v.is_null() {
                Some(None)
            } else {
                match v.as_arr() {
                    None => None,
                    Some(items) => match parse_source_locations(items.as_slice()) {
                        Some(ls) => Some(Some(ls)),
                        None => None,
                    },
                }
            }
        },
    }
}

/// The views of an object mapping file names to their source-id objects;
/// `None` when any value is not an all-integer object.
pub open spec fn source_ids_view(members: Seq<(String, JsonValue)>) -> Option<
    Seq<(Seq<char>, Seq<(Seq<char>, i32)>)>,
>
    decreases members.len(),
{
    if members.len() == 0 {
        Option::Some(Seq::empty())
    } else {
        match crate::json::jv_i32_map_of(members[0].1) {
            Option::None => Option::None,
            Option::Some(ids) => match source_ids_view(members.drop_first()) {
                Option::None => Option::None,
                Option::Some(rest) => Option::Some(seq![(members[0].0@, ids)] + rest),
            },
        }
    }
}

/// The pair views of a parsed source-ids list.
pub open spec fn source_ids_as_views(ps: Seq<(String, Vec<(String, i32)>)>) -> Seq<
    (Seq<char>, Seq<(Seq<char>, i32)>),
> {
    ps.map_values(|p: (String, Vec<(String, i32)>)| (p.0@, crate::json::i32_pairs_views(p.1@)))
}

/// Extract an object mapping file names to source-id objects.
pub fn parse_source_ids_members(members: &[(String, JsonValue)]) -> (r: Option<
    Vec<(String, Vec<(String, i32)>)>,
>)
    ensures
        match r {
            Option::Some(ps) => source_ids_view(members@) == Option::Some(source_ids_as_views(ps@)),
            Option::None => source_ids_view(members@) is None,
        },
    decreases members@.len(),
{
    if members.len() == 0 {
        let ps: Vec<(String, Vec<(String, i32)>)> = Vec::new();
        proof {
            assert(source_ids_as_views(ps@) =~= Seq::<(Seq<char>, Seq<(Seq<char>, i32)>)>::empty());
        }
        Some(ps)
    } else {
        match crate::json::parse_i32_map(&members[0].1) {
            None => None,
            Some(ids) => {
                let rest = &members[1..members.len()];
                proof {
                    assert(rest@ =~= members@.drop_first());
                }
                match parse_source_ids_members(rest) {
                    None => None,
                    Some(mut ps) => {
                        let ghost iv = crate::json::i32_pairs_views(ids@);
                        ps.insert(0, (members[0].0.clone(), ids));
                        proof {
                            assert(source_ids_as_views(ps@) =~~= seq![(members@[0].0@, iv)]
                                + source_ids_view(members@.drop_first())->Some_0);
                        }
                        Some(ps)
                    },
                }
            },
        }
    }
}

/// What one diagnostic object of this backend holds.
pub open spec fn out_error_view(v: JsonValue) -> Option<
    (
        Option<(Seq<char>, i32, i32)>,
        Option<Seq<(Seq<char>, i32, i32)>>,
        ErrType,
        Seq<char>,
        Severity,
        Option<Seq<char>>,
        Seq<char>,
        Option<Seq<char>>,
    ),
> {
    match crate::json::jv_obj_of(v) {
        Option::None => Option::None,
        Option::Some(ms) => {
            let loc = match crate::json::obj_lookup(ms, "sourceLocation"@) {
                Option::None => Option::Some(Option::None),
                Option::Some(JsonValue::Null) => Option::Some(Option::None),
                Option::Some(w) => match source_location_view(w) {
                    Option::None => Option::None,
                    Option::Some(l) => Option::Some(Option::Some(l)),
                },
            };
            match loc {
                Option::None => Option::None,
                Option::Some(loc) => match opt_locations_member(ms, "secondarySourceLocation"@) {
                    Option::None => Option::None,
                    Option::Some(secondary) => match crate::json::obj_lookup(ms, "type"@) {
                        Option::None => Option::None,
                        Option::Some(tv) => match jv_err_type_of(tv) {
                            Option::None => Option::None,
                            Option::Some(kind) => match crate::json::req_str_member(
                                ms,
                                "component"@,
                            ) {
                                Option::None => Option::None,
                                Option::Some(component) => match crate::json::obj_lookup(
                                    ms,
                                    "severity"@,
                                ) {
                                    Option::None => Option::None,
                                    Option::Some(sv) => match jv_severity_of(sv) {
                                        Option::None => Option::None,
                                        Option::Some(severity) => match crate::json::opt_str_member(
                                            ms,
                                            "errorCode"@,
                                        ) {
                                            Option::None => Option::None,
                                            Option::Some(code) => match crate::json::req_str_member(
                                                ms,
                                                "message"@,
                                            ) {
                                                Option::None => Option::None,
                                                Option::Some(message) => match crate::json::opt_str_member(
                                                    ms,
                                                    "formattedMessage"@,
                                                ) {
                                                    Option::None => Option::None,
                                                    Option::Some(formatted) => Option::Some(
                                                        (
                                                            loc,
                                                            secondary,
                                                            kind,
                                                            component,
                                                            severity,
                                                            code,
                                                            message,
                                                            formatted,
                                                        ),
                                                    ),
                                                },
                                            },
                                        },
                                    },
                                },
                            },
                        },
                    },
                },
            }
        },
    }
}

/// The view a parsed diagnostic projects to.
pub open spec fn out_error_as_view(e: OutError<SourceLocation, ErrType>) -> (
    Option<(Seq<char>, i32, i32)>,
    Option<Seq<(Seq<char>, i32, i32)>>,
    ErrType,
    Seq<char>,
    Severity,
    Option<Seq<char>>,
    Seq<char>,
    Option<Seq<char>>,
) {
    (
        match e.source_location {
            Option::Some(l) => Option::Some(source_location_as_view(l)),
            Option::None => Option::None,
        },
        match e.secondary_source_locations {
            Option::Some(ls) => Option::Some(source_locations_as_views(ls@)),
            Option::None => Option::None,
        },
        e.err_type,
        e.component@,
        e.severity,
        e.error_code.deep_view(),
        e.message@,
        e.formatted_message.deep_view(),
    )
}

/// Extract one diagnostic object.
pub fn parse_out_error(v: &JsonValue) -> (r: Option<OutError<SourceLocation, ErrType>>)
    ensures
        match r {
            Option::Some(e) => out_error_view(*v) == Option::Some(out_error_as_view(e)),
            Option::None => out_error_view(*v) is None,
        },
{
    let ms = match v.as_obj() {
        Some(ms) => ms,
        None => {
            return None;
        },
    };
    let source_location = match crate::json::obj_get(ms.as_slice(), "sourceLocation") {
        None => None,
        Some(w) => {
            if w.is_null() {
                None
            } else {
                match parse_source_location(w) {
                    Some(l) => Some(l),
                    None => {
                        return None;
                    },
                }
            }
        },
    };
    let secondary_source_locations = match get_opt_locations(ms, "secondarySourceLocation") {
        Some(ls) => ls,
        None => {
            return None;
        },
    };
    let err_type = match crate::json::obj_get(ms.as_slice(), "type") {
        None => {
            return None;
        },
        Some(tv) => match parse_err_type(tv) {
            Some(k) => k,
            None => {
                return None;
            },
        },
    };
    let component = match crate::json::get_req_str(ms, "component") {
        Some(c) => c,
        None => {
            return None;
        },
    };
    let severity = match crate::json::obj_get(ms.as_slice(), "severity") {
        None => {
            return None;
        },
        Some(sv) => match parse_severity(sv) {
            Some(s) => s,
            None => {
                return None;
            },
        },
    };
    let error_code = match crate::json::get_opt_str(ms, "errorCode") {
        Some(c) => c,
        None => {
            return None;
        },
    };
    let message = match crate::json::get_req_str(ms, "message") {
        Some(m) => m,
        None => {
            return None;
        },
    };
    let formatted_message = match crate::json::get_opt_str(ms, "formattedMessage") {
        Some(f) => f,
        None => {
            return None;
        },
    };
    Some(
        OutError {
            source_location,
            secondary_source_locations,
            err_type,
            component,
            severity,
            error_code,
            message,
            formatted_message,
        },
    )
}

/// The value under the first pair whose key is `key`, if any.
pub open spec fn assoc_lookup<T>(pairs: Seq<(String, T)>, key: Seq<char>) -> Option<T>
    decreases pairs.len(),
{
    if pairs.len() == 0 {
        Option::None
    } else if pairs[0].0@ == key {
        Option::Some(pairs[0].1)
    } else {
        assoc_lookup(pairs.drop_first(), key)
    }
}

/// Look `key` up in an ordered association list.
pub fn assoc_get<'a, T>(pairs: &'a [(String, T)], key: &str) -> (r: Option<&'a T>)
    ensures
        match r {
            Option::Some(v) => assoc_lookup(pairs@, key@) == Option::Some(*v),
            Option::None => assoc_lookup(pairs@, key@) is None,
        },
    decreases pairs@.len(),
{
    if pairs.len() == 0 {
        None
    } else if crate::json::str_eq(pairs[0].0.as_str(), key) {
        Some(&pairs[0].1)
    } else {
        let rest = &pairs[1..pairs.len()];
        proof {
            assert(rest@ =~= pairs@.drop_first());
        }
        assoc_get(rest, key)
    }
}

} // verus!
