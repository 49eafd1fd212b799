//! The Vyper backend: the standard-JSON request shape and the compiler's
//! output schema.
//!
//! The transport is the Solidity one — a request document on standard
//! input, one JSON response document on standard output — with settings
//! that carry `{evmVersion, outputSelection}` instead, and the same
//! first-error-wins surfacing rule.

use vstd::prelude::*;

verus! {

use crate::solidity::{Source, StorageLayout};
use vstd::string::StringSliceAdditionalSpecFns;

/// The request's settings: the EVM version to target and the output
/// selection.
#[derive(Debug)]
pub struct Settings {
    pub evm_version: String,
    pub output_selection: Vec<(String, Vec<(String, Vec<OutputOption>)>)>,
}

/// What the request asks the compiler to emit for each contract.
#[derive(Debug)]
pub enum OutputOption {
    EvmBytecode,
    Abi,
}

/// The name an output option carries in the request document.
pub open spec fn output_option_name(o: OutputOption) -> Seq<char> {
    match o {
        OutputOption::EvmBytecode => "evm.bytecode"@,
        OutputOption::Abi => "abi"@,
    }
}

impl OutputOption {
    /// The option's name in the request document.
    pub fn name(&self) -> (r: &'static str)
        ensures
            r@ == output_option_name(*self),
    {
        match self {
            OutputOption::EvmBytecode => "evm.bytecode",
            OutputOption::Abi => "abi",
        }
    }
}

/// A standard-JSON compile request for the Vyper compiler.
#[derive(Debug)]
pub struct Vyperc {
    pub language: String,
    pub sources: Vec<(String, Source)>,
    pub settings: Option<Settings>,
}

/// That one array item names one output option.
pub open spec fn option_name_match(item: crate::json::JsonValue, o: OutputOption) -> bool {
    match item {
        crate::json::JsonValue::Str(s) => s@ == output_option_name(o),
        _ => false,
    }
}

/// That a JSON array names exactly these output options, in order.
pub open spec fn options_match(v: crate::json::JsonValue, opts: Seq<OutputOption>) -> bool {
    match v {
        crate::json::JsonValue::Arr(items) => items@.len() == opts.len() && (forall|k: int|
            0 <= k < opts.len() ==> #[trigger] option_name_match(items@[k], opts[k])),
        _ => false,
    }
}

/// That a JSON object maps each contract pattern to its options array.
pub open spec fn selection_inner_match(
    v: crate::json::JsonValue,
    inner: Seq<(String, Vec<OutputOption>)>,
) -> bool {
    match v {
        crate::json::JsonValue::Obj(cm) => cm@.len() == inner.len() && (forall|j: int|
            0 <= j < inner.len() ==> (#[trigger] cm@[j]).0@ == inner[j].0@ && options_match(
                cm@[j].1,
                inner[j].1@,
            )),
        _ => false,
    }
}

/// That a JSON object maps each file pattern to its per-contract
/// selection.
pub open spec fn selection_match(
    v: crate::json::JsonValue,
    sel: Seq<(String, Vec<(String, Vec<OutputOption>)>)>,
) -> bool {
    match v {
        crate::json::JsonValue::Obj(fm) => fm@.len() == sel.len() && (forall|j: int|
            0 <= j < sel.len() ==> (#[trigger] fm@[j]).0@ == sel[j].0@ && selection_inner_match(
                fm@[j].1,
                sel[j].1@,
            )),
        _ => false,
    }
}

/// That a JSON value carries the request settings: the EVM version, then
/// the output selection.
pub open spec fn settings_value_match(v: crate::json::JsonValue, st: Settings) -> bool {
    match v {
        crate::json::JsonValue::Obj(sm) => {
            &&& sm@.len() == 2
            &&& sm@[0].0@ == "evmVersion"@
            &&& match sm@[0].1 {
                crate::json::JsonValue::Str(e) => e@ == st.evm_version@,
                _ => false,
            }
            &&& sm@[1].0@ == "outputSelection"@
            &&& selection_match(sm@[1].1, st.output_selection@)
        },
        _ => false,
    }
}

/// That a JSON value is the standard-JSON request document of this
/// compile.
pub open spec fn vyperc_request_match(v: crate::json::JsonValue, s: Vyperc) -> bool {
    match v {
        crate::json::JsonValue::Obj(ms) => {
            &&& ms@.len() == 3
            &&& ms@[0].0@ == "language"@
            &&& match ms@[0].1 {
                crate::json::JsonValue::Str(l) => l@ == s.language@,
                _ => false,
            }
            &&& ms@[1].0@ == "sources"@
            &&& match ms@[1].1 {
                crate::json::JsonValue::Obj(srcs) => crate::solidity::sources_members_match(
                    srcs@,
                    s.sources@,
                ),
                _ => false,
            }
            &&& ms@[2].0@ == "settings"@
            &&& match s.settings {
                Option::None => ms@[2].1 is Null,
                Option::Some(st) => settings_value_match(ms@[2].1, st),
            }
        },
        _ => false,
    }
}

/// Build the JSON array naming these output options.
pub fn options_value(opts: &Vec<OutputOption>) -> (r: crate::json::JsonValue)
    ensures
        options_match(r, opts@),
{
    let mut items: Vec<crate::json::JsonValue> = Vec::new();
    let mut k: usize = 0;
    while k < opts.len()
        invariant
            k <= opts@.len(),
            items@.len() == k,
            forall|j: int| 0 <= j < k ==> #[trigger] option_name_match(items@[j], opts@[j]),
        decreases opts@.len() - k,
    {
        items.push(crate::json::JsonValue::Str(opts[k].name().to_owned()));
        k += 1;
    }
    crate::json::JsonValue::Arr(items)
}

/// Build the JSON object mapping contract patterns to options arrays.
pub fn selection_inner_value(inner: &Vec<(String, Vec<OutputOption>)>) -> (r:
    crate::json::JsonValue)
    ensures
        selection_inner_match(r, inner@),
{
    let mut cm: Vec<(String, crate::json::JsonValue)> = Vec::new();
    let mut j: usize = 0;
    while j < inner.len()
        invariant
            j <= inner@.len(),
            cm@.len() == j,
            forall|i: int|
                0 <= i < j ==> (#[trigger] cm@[i]).0@ == inner@[i].0@ && options_match(
                    cm@[i].1,
                    inner@[i].1@,
                ),
        decreases inner@.len() - j,
    {
        let opts = options_value(&inner[j].1);
        cm.push((inner[j].0.clone(), opts));
        j += 1;
    }
    crate::json::JsonValue::Obj(cm)
}

/// Build the JSON object mapping file patterns to per-contract selections.
pub fn selection_value(sel: &Vec<(String, Vec<(String, Vec<OutputOption>)>)>) -> (r:
    crate::json::JsonValue)
    ensures
        selection_match(r, sel@),
{
    let mut fm: Vec<(String, crate::json::JsonValue)> = Vec::new();
    let mut j: usize = 0;
    while j < sel.len()
        invariant
            j <= sel@.len(),
            fm@.len() == j,
            forall|i: int|
                0 <= i < j ==> (#[trigger] fm@[i]).0@ == sel@[i].0@ && selection_inner_match(
                    fm@[i].1,
                    sel@[i].1@,
                ),
        decreases sel@.len() - j,
    {
        let inner = selection_inner_value(&sel[j].1);
        fm.push((sel[j].0.clone(), inner));
        j += 1;
    }
    crate::json::JsonValue::Obj(fm)
}

impl Settings {
    /// Build these settings as the request document carries them.
    pub fn request_value(&self) -> (r: crate::json::JsonValue)
        ensures
            settings_value_match(r, *self),
    {
        let mut sm: Vec<(String, crate::json::JsonValue)> = Vec::new();
        sm.push(("evmVersion".to_owned(), crate::json::JsonValue::Str(self.evm_version.clone())));
        let sel = selection_value(&self.output_selection);
        sm.push(("outputSelection".to_owned(), sel));
        crate::json::JsonValue::Obj(sm)
    }
}

impl Vyperc {
    /// Build this request's standard-JSON document, as a value the
    /// serializer turns into the exact bytes fed to the subprocess.
    pub fn request_value(&self) -> (r: crate::json::JsonValue)
        ensures
            vyperc_request_match(r, *self),
    {
        let mut ms: Vec<(String, crate::json::JsonValue)> = Vec::new();
        ms.push(("language".to_owned(), crate::json::JsonValue::Str(self.language.clone())));
        let srcs = crate::solidity::sources_value(&self.sources);
        ms.push(("sources".to_owned(), srcs));
        let settings = match &self.settings {
            None => crate::json::JsonValue::Null,
            Some(st) => st.request_value(),
        };
        ms.push(("settings".to_owned(), settings));
        crate::json::JsonValue::Obj(ms)
    }

    /// Serialize this request to the bytes fed to the subprocess's
    /// standard input.
    pub fn to_request_json(&self) -> (r: Vec<u8>)
        ensures
            exists|v: crate::json::JsonValue|
                #[trigger] crate::json::json_bytes_of(v) == r@ && vyperc_request_match(v, *self),
    {
        let v = self.request_value();
        let out = crate::json::json_to_bytes(&v);
        proof {
            assert(crate::json::json_bytes_of(v) == out@ && vyperc_request_match(v, *self));
        }
        out
    }
}

/// Where in a source file a Vyper diagnostic points.
#[derive(Debug)]
pub struct SourceLocation {
    pub file: String,
    pub lineno: Option<usize>,
    pub col_offset: Option<usize>,
}

/// The kind of a Vyper diagnostic.
#[derive(Debug)]
pub enum ErrType {
    AttributeError,
    JSONError,
}

/// The name an ABI entry gets when the document carries none.
pub fn constructor() -> (r: String)
    ensures
        r@ == "constructor"@,
{
    "constructor".to_owned()
}

/// The bytecode the compiler emitted.
#[derive(Debug)]
pub struct BytecodeData {
    pub object: String,
    pub opcodes: String,
}

/// The deployed (runtime) bytecode, with its immutable references.
#[derive(Debug)]
pub struct DeployedBytecodeData {
    pub bytecode_data: BytecodeData,
    pub immutable_references: Vec<(String, String)>,
}

/// The EVM section of one contract's output.
#[derive(Debug)]
pub struct EvmOutput {
    pub assembly: Option<String>,
    pub legacy_assembly: Option<Vec<(String, String)>>,
    pub bytecode: Option<BytecodeData>,
    pub deployed_bytecode: Option<DeployedBytecodeData>,
    pub method_identifiers: Option<Vec<(String, String)>>,
    pub gas_estimates: Option<Vec<(String, Vec<(String, String)>)>>,
}

/// One entry of a contract's ABI; inputs and outputs nest entries of the
/// same shape.
#[derive(Debug)]
pub struct AbiEntry {
    pub name: String,
    pub entry_type: String,
    pub inputs: Option<Vec<AbiEntry>>,
    pub outputs: Option<Vec<AbiEntry>>,
    pub state_mutability: Option<String>,
}

/// The view of one parsed ABI entry: the resolved name (`constructor`
/// where the document carries none), the entry kind, the nested inputs and
/// outputs, and the mutability.
pub struct AbiEntryView {
    pub name: Seq<char>,
    pub entry_type: Seq<char>,
    pub inputs: Option<Seq<AbiEntryView>>,
    pub outputs: Option<Seq<AbiEntryView>>,
    pub state_mutability: Option<Seq<char>>,
}

/// What one ABI-entry object holds; entries nest through their inputs and
/// outputs (absent or null nests none; anything but an array of entries
/// refuses the document).
pub open spec fn abi_entry_view(v: crate::json::JsonValue) -> Option<AbiEntryView>
    decreases v, 0int,
{
    match crate::json::jv_obj_of(v) {
        Option::None => Option::None,
        Option::Some(ms) => {
            let name = match crate::json::obj_lookup(ms, "name"@) {
                Option::None => Option::Some("constructor"@),
                Option::Some(crate::json::JsonValue::Str(s)) => Option::Some(s@),
                Option::Some(_) => Option::None,
            };
            match name {
                Option::None => Option::None,
                Option::Some(name) => match crate::json::req_str_member(ms, "type"@) {
                    Option::None => Option::None,
                    Option::Some(entry_type) => {
                        let inputs = match crate::json::obj_lookup(ms, "inputs"@) {
                            Option::None => Option::Some(Option::None),
                            Option::Some(crate::json::JsonValue::Null) => Option::Some(
                                Option::None,
                            ),
                            Option::Some(w) => match crate::json::jv_arr_of(w) {
                                Option::None => Option::None,
                                Option::Some(items) => {
                                    proof {
                                        lemma_entry_member_decreases(v, ms, "inputs"@, w, items);
                                    }
                                    match abi_entries_view(items) {
                                        Option::None => Option::None,
                                        Option::Some(es) => Option::Some(Option::Some(es)),
                                    }
                                },
                            },
                        };
                        match inputs {
                            Option::None => Option::None,
                            Option::Some(inputs) => {
                                let outputs = match crate::json::obj_lookup(ms, "outputs"@) {
                                    Option::None => Option::Some(Option::None),
                                    Option::Some(crate::json::JsonValue::Null) => Option::Some(
                                        Option::None,
                                    ),
                                    Option::Some(w) => match crate::json::jv_arr_of(w) {
                                        Option::None => Option::None,
                                        Option::Some(items) => {
                                            proof {
                                                lemma_entry_member_decreases(
                                                    v,
                                                    ms,
                                                    "outputs"@,
                                                    w,
                                                    items,
                                                );
                                            }
                                            match abi_entries_view(items) {
                                                Option::None => Option::None,
                                                Option::Some(es) => Option::Some(Option::Some(es)),
                                            }
                                        },
                                    },
                                };
                                match outputs {
                                    Option::None => Option::None,
                                    Option::Some(outputs) => match crate::json::opt_str_member(
                                        ms,
                                        "stateMutability"@,
                                    ) {
                                        Option::None => Option::None,
                                        Option::Some(state_mutability) => Option::Some(
                                            AbiEntryView {
                                                name,
                                                entry_type,
                                                inputs,
                                                outputs,
                                                state_mutability,
                                            },
                                        ),
                                    },
                                }
                            },
                        }
                    },
                },
            }
        },
    }
}

/// A member's array nested in an object is below the object, for the
/// walker's termination measure.
pub proof fn lemma_entry_member_decreases(
    v: crate::json::JsonValue,
    ms: Seq<(String, crate::json::JsonValue)>,
    key: Seq<char>,
    w: crate::json::JsonValue,
    items: Seq<crate::json::JsonValue>,
)
    requires
        crate::json::jv_obj_of(v) == Option::Some(ms),
        crate::json::obj_lookup(ms, key) == Option::Some(w),
        crate::json::jv_arr_of(w) == Option::Some(items),
    ensures
        decreases_to!(v, 0int => items, 1int),
{
    crate::json::lemma_obj_lookup_is_member(ms, key);
    let k = choose|k: int| 0 <= k < ms.len() && ms[k].1 == w;
    assert(v->Obj_0@ == ms);
    assert(decreases_to!(v => v->Obj_0));
    assert(decreases_to!(v->Obj_0 => v->Obj_0@));
    assert(decreases_to!(ms => ms[k]));
    assert(decreases_to!(ms[k] => ms[k].1));
    assert(decreases_to!(w => w->Arr_0));
    assert(decreases_to!(w->Arr_0 => w->Arr_0@));
}

/// The views of an array of ABI entries; `None` when any item is not one.
pub open spec fn abi_entries_view(items: Seq<crate::json::JsonValue>) -> Option<Seq<AbiEntryView>>
    decreases items, 1int,
{
    if items.len() == 0 {
        Option::Some(Seq::empty())
    } else {
        match abi_entry_view(items[0]) {
            Option::None => Option::None,
            Option::Some(e) => match abi_entries_view(items.drop_first()) {
                Option::None => Option::None,
                Option::Some(rest) => Option::Some(seq![e] + rest),
            },
        }
    }
}

/// The view a parsed ABI entry projects to.
pub open spec fn abi_entry_as_view(e: AbiEntry) -> AbiEntryView
    decreases e, 0int,
{
    AbiEntryView {
        name: e.name@,
        entry_type: e.entry_type@,
        inputs: match e.inputs {
            Option::Some(es) => Option::Some(abi_entries_as_views(es@)),
            Option::None => Option::None,
        },
        outputs: match e.outputs {
            Option::Some(es) => Option::Some(abi_entries_as_views(es@)),
            Option::None => Option::None,
        },
        state_mutability: e.state_mutability.deep_view(),
    }
}

/// The views a list of parsed ABI entries projects to.
pub open spec fn abi_entries_as_views(es: Seq<AbiEntry>) -> Seq<AbiEntryView>
    decreases es, 1int,
{
    if es.len() == 0 {
        Seq::empty()
    } else {
        seq![abi_entry_as_view(es.first())] + abi_entries_as_views(es.drop_first())
    }
}

/// Extract one ABI-entry object.
pub fn parse_abi_entry(v: &crate::json::JsonValue) -> (r: Option<AbiEntry>)
    ensures
        match r {
            Option::Some(e) => abi_entry_view(*v) == Option::Some(abi_entry_as_view(e)),
            Option::None => abi_entry_view(*v) is None,
        },
    decreases *v, 0int,
{
    let ms = match v.as_obj() {
        Some(ms) => ms,
        None => {
            return None;
        },
    };
    let name = match crate::json::obj_get(ms.as_slice(), "name") {
        None => constructor(),
        Some(w) => match w.as_str() {
            Some(s) => s.clone(),
            None => {
                return None;
            },
        },
    };
    let entry_type = match crate::json::get_req_str(ms, "type") {
        Some(t) => t,
        None => {
            return None;
        },
    };
    let inputs = match crate::json::obj_get(ms.as_slice(), "inputs") {
        None => None,
        Some(w) => {
            if w.is_null() {
                None
            } else {
                match w.as_arr() {
                    None => {
                        return None;
                    },
                    Some(items) => {
                        proof {
                            lemma_entry_member_decreases(*v, ms@, "inputs"@, *w, items@);
                        }
                        match parse_abi_entries(items.as_slice()) {
                            Some(es) => Some(es),
                            None => {
                                return None;
                            },
                        }
                    },
                }
            }
        },
    };
    let outputs = match crate::json::obj_get(ms.as_slice(), "outputs") {
        None => None,
        Some(w) => {
            if w.is_null() {
                None
            } else {
                match w.as_arr() {
                    None => {
                        return None;
                    },
                    Some(items) => {
                        proof {
                            lemma_entry_member_decreases(*v, ms@, "outputs"@, *w, items@);
                        }
                        match parse_abi_entries(items.as_slice()) {
                            Some(es) => Some(es),
                            None => {
                                return None;
                            },
                        }
                    },
                }
            }
        },
    };
    let state_mutability = match crate::json::get_opt_str(ms, "stateMutability") {
        Some(x) => x,
        None => {
            return None;
        },
    };
    Some(AbiEntry { name, entry_type, inputs, outputs, state_mutability })
}

/// Extract an array of ABI entries.
pub fn parse_abi_entries(items: &[crate::json::JsonValue]) -> (r: Option<Vec<AbiEntry>>)
    ensures
        match r {
            Option::Some(es) => abi_entries_view(items@) == Option::Some(
                abi_entries_as_views(es@),
            ),
            Option::None => abi_entries_view(items@) is None,
        },
    decreases items@, 1int,
{
    if items.len() == 0 {
        let es: Vec<AbiEntry> = Vec::new();
        proof {
            assert(abi_entries_as_views(es@) =~= Seq::<AbiEntryView>::empty());
        }
        Some(es)
    } else {
        proof {
            assert(decreases_to!(items@ => items@[0]));
        }
        match parse_abi_entry(&items[0]) {
            None => None,
            Some(e) => {
                let rest = &items[1..items.len()];
                proof {
                    assert(rest@ =~= items@.drop_first());
                    assert(decreases_to!(items@ => items@.subrange(1, items@.len() as int)));
                }
                match parse_abi_entries(rest) {
                    None => None,
                    Some(mut es) => {
                        let ghost ev = abi_entry_as_view(e);
                        let ghost pre = es@;
                        es.insert(0, e);
                        proof {
                            assert(es@ =~= seq![e] + pre);
                            assert(es@.first() == e);
                            assert(es@.drop_first() =~= pre);
                            assert(abi_entries_as_views(es@) == seq![abi_entry_as_view(es@.first())]
                                + abi_entries_as_views(es@.drop_first()));
                            assert(abi_entries_as_views(es@) =~~= seq![ev] + abi_entries_view(
                                items@.drop_first(),
                            )->Some_0);
                        }
                        Some(es)
                    },
                }
            },
        }
    }
}

/// One contract of the compiler's output.
#[derive(Debug)]
pub struct VycContract {
    pub abi: Option<Vec<AbiEntry>>,
    pub user_doc: Option<Vec<(String, String)>>,
    pub dev_doc: Option<Vec<(String, String)>>,
    pub ir: Option<String>,
    pub ir_ast: Option<Vec<(String, String)>>,
    pub ir_optimized: Option<String>,
    pub ir_optimized_ast: Option<Vec<(String, String)>>,
    pub storage_layout: Option<StorageLayout>,
    pub evm: Option<EvmOutput>,
}

/// The compiler's whole output document: the compiler's own version tag,
/// diagnostics, source ids, and the compiled contracts by file and name.
/// The name-keyed lists stand where the upstream document had objects: in
/// a parsed document their keys are pairwise distinct
/// (`crate::json::keys_unique`, from the parse boundary's ordered-map
/// backing).
#[derive(Debug)]
pub struct VypercOut {
    pub compiler: String,
    pub errors: Option<Vec<crate::solidity::OutError<SourceLocation, ErrType>>>,
    pub sources: Option<Vec<(String, Vec<(String, i32)>)>>,
    pub contracts: Option<Vec<(String, Vec<(String, VycContract)>)>>,
}

/// The message a failing compile surfaces: the first diagnostic's
/// formatted message, falling back to its plain message; none when the
/// output lists no diagnostic.
pub open spec fn first_error_msg(o: VypercOut) -> Option<String> {
    match o.errors {
        Option::None => Option::None,
        Option::Some(es) => if es@.len() == 0 {
            Option::None
        } else {
            match es@[0].formatted_message {
                Option::Some(f) => Option::Some(f),
                Option::None => Option::Some(es@[0].message),
            }
        },
    }
}

impl VypercOut {
    /// The first diagnostic's message, formatted when the compiler gave
    /// one: when several errors are reported, the first always wins.
    pub fn first_error_message(&self) -> (r: Option<&String>)
        ensures
            match r {
                Option::Some(m) => first_error_msg(*self) == Option::Some(*m),
                Option::None => first_error_msg(*self) is None,
            },
    {
        match &self.errors {
            None => None,
            Some(es) => {
                if es.len() == 0 {
                    None
                } else {
                    match &es[0].formatted_message {
                        Some(f) => Some(f),
                        None => Some(&es[0].message),
                    }
                }
            },
        }
    }
}

/// What a Vyper source-location object holds: file, optional line,
/// optional column.
pub open spec fn vy_source_location_view(v: crate::json::JsonValue) -> Option<
    (Seq<char>, Option<usize>, Option<usize>),
> {
    match crate::json::jv_obj_of(v) {
        Option::None => Option::None,
        Option::Some(ms) => match crate::json::req_str_member(ms, "file"@) {
            Option::None => Option::None,
            Option::Some(f) => match crate::json::opt_usize_member(ms, "lineno"@) {
                Option::None => Option::None,
                Option::Some(line) => match crate::json::opt_usize_member(ms, "col_offset"@) {
                    Option::None => Option::None,
                    Option::Some(col) => Option::Some((f, line, col)),
                },
            },
        },
    }
}

/// The view a parsed Vyper source location projects to.
pub open spec fn vy_source_location_as_view(l: SourceLocation) -> (
    Seq<char>,
    Option<usize>,
    Option<usize>,
) {
    (l.file@, l.lineno, l.col_offset)
}

/// Extract a Vyper source-location object.
pub fn parse_vy_source_location(v: &crate::json::JsonValue) -> (r: Option<SourceLocation>)
    ensures
        match r {
            Option::Some(l) => vy_source_location_view(*v) == Option::Some(
                vy_source_location_as_view(l),
            ),
            Option::None => vy_source_location_view(*v) is None,
        },
{
    let ms = match v.as_obj() {
        Some(ms) => ms,
        None => {
            return None;
        },
    };
    let file = match crate::json::get_req_str(ms, "file") {
        Some(f) => f,
        None => {
            return None;
        },
    };
    let lineno = match crate::json::get_opt_usize(ms, "lineno") {
        Some(n) => n,
        None => {
            return None;
        },
    };
    let col_offset = match crate::json::get_opt_usize(ms, "col_offset") {
        Some(n) => n,
        None => {
            return None;
        },
    };
    Some(SourceLocation { file, lineno, col_offset })
}

/// The Vyper diagnostic kind a JSON value names, if it is one of the
/// schema's.
pub open spec fn jv_vy_err_type_of(v: crate::json::JsonValue) -> Option<ErrType> {
    match crate::json::jv_str_of(v) {
        Option::None => Option::None,
        Option::Some(s) => if s == "AttributeError"@ {
            Option::Some(ErrType::AttributeError)
        } else if s == "JSONError"@ {
            Option::Some(ErrType::JSONError)
        } else {
            Option::None
        },
    }
}

/// Read a Vyper diagnostic kind name.
pub fn parse_vy_err_type(v: &crate::json::JsonValue) -> (r: Option<ErrType>)
    ensures
        r == jv_vy_err_type_of(*v),
{
    match v.as_str() {
        None => None,
        Some(s) => {
            if crate::json::str_eq(s.as_str(), "AttributeError") {
                Some(ErrType::AttributeError)
            } else if crate::json::str_eq(s.as_str(), "JSONError") {
                Some(ErrType::JSONError)
            } else {
                None
            }
        },
    }
}

/// What one Vyper diagnostic object holds.
pub open spec fn vy_out_error_view(v: crate::json::JsonValue) -> Option<
    (
        Option<(Seq<char>, Option<usize>, Option<usize>)>,
        Option<Seq<(Seq<char>, i32, i32)>>,
        ErrType,
        Seq<char>,
        crate::solidity::Severity,
        Option<Seq<char>>,
        Seq<char>,
        Option<Seq<char>>,
    ),
> {
    match crate::json::jv_obj_of(v) {
        Option::None => Option::None,
        Option::Some(ms) => {
            let loc = match crate::json::obj_lookup(ms, "sourceLocation"@) {
                Option::None => Option::Some(Option::None),
                Option::Some(crate::json::JsonValue::Null) => Option::Some(Option::None),
                Option::Some(w) => match vy_source_location_view(w) {
                    Option::None => Option::None,
                    Option::Some(l) => Option::Some(Option::Some(l)),
                },
            };
            match loc {
                Option::None => Option::None,
                Option::Some(loc) => match crate::solidity::opt_locations_member(
                    ms,
                    "secondarySourceLocation"@,
                ) {
                    Option::None => Option::None,
                    Option::Some(secondary) => match crate::json::obj_lookup(ms, "type"@) {
                        Option::None => Option::None,
                        Option::Some(tv) => match jv_vy_err_type_of(tv) {
                            Option::None => Option::None,
                            Option::Some(kind) => match crate::json::req_str_member(
                                ms,
                                "component"@,
                            ) {
                                Option::None => Option::None,
                                Option::Some(component) => match crate::json::obj_lookup(
                                    ms,
                                    "severity"@,
                                ) {
                                    Option::None => Option::None,
                                    Option::Some(sv) => match crate::solidity::jv_severity_of(sv) {
                                        Option::None => Option::None,
                                        Option::Some(severity) => match crate::json::opt_str_member(
                                            ms,
                                            "errorCode"@,
                                        ) {
                                            Option::None => Option::None,
                                            Option::Some(code) => match crate::json::req_str_member(
                                                ms,
                                                "message"@,
                                            ) {
                                                Option::None => Option::None,
                                                Option::Some(message) => match crate::json::opt_str_member(
                                                    ms,
                                                    "formattedMessage"@,
                                                ) {
                                                    Option::None => Option::None,
                                                    Option::Some(formatted) => Option::Some(
                                                        (
                                                            loc,
                                                            secondary,
                                                            kind,
                                                            component,
                                                            severity,
                                                            code,
                                                            message,
                                                            formatted,
                                                        ),
                                                    ),
                                                },
                                            },
                                        },
                                    },
                                },
                            },
                        },
                    },
                },
            }
        },
    }
}

/// The view a parsed Vyper diagnostic projects to.
pub open spec fn vy_out_error_as_view(e: crate::solidity::OutError<SourceLocation, ErrType>) -> (
    Option<(Seq<char>, Option<usize>, Option<usize>)>,
    Option<Seq<(Seq<char>, i32, i32)>>,
    ErrType,
    Seq<char>,
    crate::solidity::Severity,
    Option<Seq<char>>,
    Seq<char>,
    Option<Seq<char>>,
) {
    (
        match e.source_location {
            Option::Some(l) => Option::Some(vy_source_location_as_view(l)),
            Option::None => Option::None,
        },
        match e.secondary_source_locations {
            Option::Some(ls) => Option::Some(crate::solidity::source_locations_as_views(ls@)),
            Option::None => Option::None,
        },
        e.err_type,
        e.component@,
        e.severity,
        e.error_code.deep_view(),
        e.message@,
        e.formatted_message.deep_view(),
    )
}

/// Extract one Vyper diagnostic object.
pub fn parse_vy_out_error(v: &crate::json::JsonValue) -> (r: Option<
    crate::solidity::OutError<SourceLocation, ErrType>,
>)
    ensures
        match r {
            Option::Some(e) => vy_out_error_view(*v) == Option::Some(vy_out_error_as_view(e)),
            Option::None => vy_out_error_view(*v) is None,
        },
{
    let ms = match v.as_obj() {
        Some(ms) => ms,
        None => {
            return None;
        },
    };
    let source_location = match crate::json::obj_get(ms.as_slice(), "sourceLocation") {
        None => None,
        Some(w) => {
            if w.is_null() {
                None
            } else {
                match parse_vy_source_location(w) {
                    Some(l) => Some(l),
                    None => {
                        return None;
                    },
                }
            }
        },
    };
    let secondary_source_locations = match crate::solidity::get_opt_locations(
        ms,
        "secondarySourceLocation",
    ) {
        Some(ls) => ls,
        None => {
            return None;
        },
    };
    let err_type = match crate::json::obj_get(ms.as_slice(), "type") {
        None => {
            return None;
        },
        Some(tv) => match parse_vy_err_type(tv) {
            Some(k) => k,
            None => {
                return None;
            },
        },
    };
    let component = match crate::json::get_req_str(ms, "component") {
        Some(c) => c,
        None => {
            return None;
        },
    };
    let severity = match crate::json::obj_get(ms.as_slice(), "severity") {
        None => {
            return None;
        },
        Some(sv) => match crate::solidity::parse_severity(sv) {
            Some(s) => s,
            None => {
                return None;
            },
        },
    };
    let error_code = match crate::json::get_opt_str(ms, "errorCode") {
        Some(c) => c,
        None => {
            return None;
        },
    };
    let message = match crate::json::get_req_str(ms, "message") {
        Some(m) => m,
        None => {
            return None;
        },
    };
    let formatted_message = match crate::json::get_opt_str(ms, "formattedMessage") {
        Some(f) => f,
        None => {
            return None;
        },
    };
    Some(
        crate::solidity::OutError {
            source_location,
            secondary_source_locations,
            err_type,
            component,
            severity,
            error_code,
            message,
            formatted_message,
        },
    )
}

/// The views of an array of Vyper diagnostics.
pub open spec fn vy_errors_view(items: Seq<crate::json::JsonValue>) -> Option<
    Seq<
        (
            Option<(Seq<char>, Option<usize>, Option<usize>)>,
            Option<Seq<(Seq<char>, i32, i32)>>,
            ErrType,
            Seq<char>,
            crate::solidity::Severity,
            Option<Seq<char>>,
            Seq<char>,
            Option<Seq<char>>,
        ),
    >,
>
    decreases items.len(),
{
    if items.len() == 0 {
        Option::Some(Seq::empty())
    } else {
        match vy_out_error_view(items[0]) {
            Option::None => Option::None,
            Option::Some(e) => match vy_errors_view(items.drop_first()) {
                Option::None => Option::None,
                Option::Some(rest) => Option::Some(seq![e] + rest),
            },
        }
    }
}

/// The views a list of parsed Vyper diagnostics projects to.
pub open spec fn vy_errors_as_views(
    es: Seq<crate::solidity::OutError<SourceLocation, ErrType>>,
) -> Seq<
    (
        Option<(Seq<char>, Option<usize>, Option<usize>)>,
        Option<Seq<(Seq<char>, i32, i32)>>,
        ErrType,
        Seq<char>,
        crate::solidity::Severity,
        Option<Seq<char>>,
        Seq<char>,
        Option<Seq<char>>,
    ),
> {
    es.map_values(
        |e: crate::solidity::OutError<SourceLocation, ErrType>| vy_out_error_as_view(e),
    )
}

/// Extract an array of Vyper diagnostics.
pub fn parse_vy_errors(items: &[crate::json::JsonValue]) -> (r: Option<
    Vec<crate::solidity::OutError<SourceLocation, ErrType>>,
>)
    ensures
        match r {
            Option::Some(es) => vy_errors_view(items@) == Option::Some(vy_errors_as_views(es@)),
            Option::None => vy_errors_view(items@) is None,
        },
    decreases items@.len(),
{
    if items.len() == 0 {
        let es: Vec<crate::solidity::OutError<SourceLocation, ErrType>> = Vec::new();
        proof {
            assert(vy_errors_as_views(es@) =~= vy_errors_view(Seq::empty())->Some_0);
        }
        Some(es)
    } else {
        match parse_vy_out_error(&items[0]) {
            None => None,
            Some(e) => {
                let rest = &items[1..items.len()];
                proof {
                    assert(rest@ =~= items@.drop_first());
                }
                match parse_vy_errors(rest) {
                    None => None,
                    Some(mut es) => {
                        let ghost ev = vy_out_error_as_view(e);
                        es.insert(0, e);
                        proof {
                            assert(vy_errors_as_views(es@) =~~= seq![ev] + vy_errors_view(
                                items@.drop_first(),
                            )->Some_0);
                        }
                        Some(es)
                    },
                }
            },
        }
    }
}

impl VypercOut {
    /// This backend's output back out of the tagged union; another
    /// backend's is refused.
    pub fn try_from(value: crate::builder::CompilerOutput) -> (r: Result<VypercOut, String>)
        ensures
            match value {
                crate::builder::CompilerOutput::Vyper(o) => r == Result::<VypercOut, String>::Ok(o),
                _ => (r matches Result::Err(e) && e@ == "Error with TryFrom !"@),
            },
    {
        match value {
            crate::builder::CompilerOutput::Vyper(vyc_out) => Ok(vyc_out),
            _ => Err("Error with TryFrom !".to_owned()),
        }
    }
}

/// What a bytecode object holds: the hex text and the opcode listing.
pub open spec fn bytecode_view(v: crate::json::JsonValue) -> Option<(Seq<char>, Seq<char>)> {
    match crate::json::jv_obj_of(v) {
        Option::None => Option::None,
        Option::Some(ms) => match crate::json::req_str_member(ms, "object"@) {
            Option::None => Option::None,
            Option::Some(o) => match crate::json::req_str_member(ms, "opcodes"@) {
                Option::None => Option::None,
                Option::Some(ops) => Option::Some((o, ops)),
            },
        },
    }
}

/// The view a parsed bytecode section projects to.
pub open spec fn bytecode_as_view(b: BytecodeData) -> (Seq<char>, Seq<char>) {
    (b.object@, b.opcodes@)
}

/// Extract a bytecode object.
pub fn parse_bytecode(v: &crate::json::JsonValue) -> (r: Option<BytecodeData>)
    ensures
        match r {
            Option::Some(b) => bytecode_view(*v) == Option::Some(bytecode_as_view(b)),
            Option::None => bytecode_view(*v) is None,
        },
{
    let ms = match v.as_obj() {
        Some(ms) => ms,
        None => {
            return None;
        },
    };
    let object = match crate::json::get_req_str(ms, "object") {
        Some(o) => o,
        None => {
            return None;
        },
    };
    let opcodes = match crate::json::get_req_str(ms, "opcodes") {
        Some(o) => o,
        None => {
            return None;
        },
    };
    Some(BytecodeData { object, opcodes })
}

/// What a deployed-bytecode object holds: the bytecode fields of the same
/// object, and the immutable references.
pub open spec fn deployed_view(v: crate::json::JsonValue) -> Option<
    ((Seq<char>, Seq<char>), Seq<(Seq<char>, Seq<char>)>),
> {
    match bytecode_view(v) {
        Option::None => Option::None,
        Option::Some(b) => match crate::json::jv_obj_of(v) {
            Option::None => Option::None,
            Option::Some(ms) => match crate::json::obj_lookup(ms, "immutableReferences"@) {
                Option::None => Option::None,
                Option::Some(w) => match crate::json::jv_str_map_of(w) {
                    Option::None => Option::None,
                    Option::Some(m) => Option::Some((b, m)),
                },
            },
        },
    }
}

/// The view a parsed deployed-bytecode section projects to.
pub open spec fn deployed_as_view(d: DeployedBytecodeData) -> (
    (Seq<char>, Seq<char>),
    Seq<(Seq<char>, Seq<char>)>,
) {
    (bytecode_as_view(d.bytecode_data), crate::json::str_pairs_views(d.immutable_references@))
}

/// Extract a deployed-bytecode object.
pub fn parse_deployed(v: &crate::json::JsonValue) -> (r: Option<DeployedBytecodeData>)
    ensures
        match r {
            Option::Some(d) => deployed_view(*v) == Option::Some(deployed_as_view(d)),
            Option::None => deployed_view(*v) is None,
        },
{
    let bytecode_data = match parse_bytecode(v) {
        Some(b) => b,
        None => {
            return None;
        },
    };
    let ms = match v.as_obj() {
        Some(ms) => ms,
        None => {
            return None;
        },
    };
    let imm = match crate::json::obj_get(ms.as_slice(), "immutableReferences") {
        None => {
            return None;
        },
        Some(w) => match crate::json::parse_str_map(w) {
            Some(m) => m,
            None => {
                return None;
            },
        },
    };
    Some(DeployedBytecodeData { bytecode_data, immutable_references: imm })
}

/// What an EVM-section object holds.
pub open spec fn evm_view(v: crate::json::JsonValue) -> Option<
    (
        Option<Seq<char>>,
        Option<Seq<(Seq<char>, Seq<char>)>>,
        Option<(Seq<char>, Seq<char>)>,
        Option<((Seq<char>, Seq<char>), Seq<(Seq<char>, Seq<char>)>)>,
        Option<Seq<(Seq<char>, Seq<char>)>>,
        Option<Seq<(Seq<char>, Seq<(Seq<char>, Seq<char>)>)>>,
    ),
> {
    match crate::json::jv_obj_of(v) {
        Option::None => Option::None,
        Option::Some(ms) => match crate::json::opt_str_member(ms, "assembly"@) {
            Option::None => Option::None,
            Option::Some(assembly) => match crate::json::opt_str_map_member(
                ms,
                "legacyAssembly"@,
            ) {
                Option::None => Option::None,
                Option::Some(legacy) => {
                    let bc = match crate::json::obj_lookup(ms, "bytecode"@) {
                        Option::None => Option::Some(Option::None),
                        Option::Some(crate::json::JsonValue::Null) => Option::Some(Option::None),
                        Option::Some(w) => match bytecode_view(w) {
                            Option::None => Option::None,
                            Option::Some(b) => Option::Some(Option::Some(b)),
                        },
                    };
                    match bc {
                        Option::None => Option::None,
                        Option::Some(bc) => {
                            let db = match crate::json::obj_lookup(ms, "deployedBytecode"@) {
                                Option::None => Option::Some(Option::None),
                                Option::Some(crate::json::JsonValue::Null) => Option::Some(
                                    Option::None,
                                ),
                                Option::Some(w) => match deployed_view(w) {
                                    Option::None => Option::None,
                                    Option::Some(d) => Option::Some(Option::Some(d)),
                                },
                            };
                            match db {
                                Option::None => Option::None,
                                Option::Some(db) => match crate::json::opt_str_map_member(
                                    ms,
                                    "methodIdentifiers"@,
                                ) {
                                    Option::None => Option::None,
                                    Option::Some(methods) => match crate::json::opt_str_map_map_member(
                                        ms,
                                        "gasEstimates"@,
                                    ) {
                                        Option::None => Option::None,
                                        Option::Some(gas) => Option::Some(
                                            (assembly, legacy, bc, db, methods, gas),
                                        ),
                                    },
                                },
                            }
                        },
                    }
                },
            },
        },
    }
}

/// The view a parsed EVM section projects to.
pub open spec fn evm_as_view(e: EvmOutput) -> (
    Option<Seq<char>>,
    Option<Seq<(Seq<char>, Seq<char>)>>,
    Option<(Seq<char>, Seq<char>)>,
    Option<((Seq<char>, Seq<char>), Seq<(Seq<char>, Seq<char>)>)>,
    Option<Seq<(Seq<char>, Seq<char>)>>,
    Option<Seq<(Seq<char>, Seq<(Seq<char>, Seq<char>)>)>>,
) {
    (
        e.assembly.deep_view(),
        match e.legacy_assembly {
            Option::Some(m) => Option::Some(crate::json::str_pairs_views(m@)),
            Option::None => Option::None,
        },
        match e.bytecode {
            Option::Some(b) => Option::Some(bytecode_as_view(b)),
            Option::None => Option::None,
        },
        match e.deployed_bytecode {
            Option::Some(d) => Option::Some(deployed_as_view(d)),
            Option::None => Option::None,
        },
        match e.method_identifiers {
            Option::Some(m) => Option::Some(crate::json::str_pairs_views(m@)),
            Option::None => Option::None,
        },
        match e.gas_estimates {
            Option::Some(m) => Option::Some(crate::json::str_map_pairs_views(m@)),
            Option::None => Option::None,
        },
    )
}

/// Extract an EVM-section object.
pub fn parse_evm(v: &crate::json::JsonValue) -> (r: Option<EvmOutput>)
    ensures
        match r {
            Option::Some(e) => evm_view(*v) == Option::Some(evm_as_view(e)),
            Option::None => evm_view(*v) is None,
        },
{
    let ms = match v.as_obj() {
        Some(ms) => ms,
        None => {
            return None;
        },
    };
    let assembly = match crate::json::get_opt_str(ms, "assembly") {
        Some(a) => a,
        None => {
            return None;
        },
    };
    let legacy_assembly = match crate::json::get_opt_str_map(ms, "legacyAssembly") {
        Some(m) => m,
        None => {
            return None;
        },
    };
    let bytecode = match crate::json::obj_get(ms.as_slice(), "bytecode") {
        None => None,
        Some(w) => {
            if w.is_null() {
                None
            } else {
                match parse_bytecode(w) {
                    Some(b) => Some(b),
                    None => {
                        return None;
                    },
                }
            }
        },
    };
    let deployed_bytecode = match crate::json::obj_get(ms.as_slice(), "deployedBytecode") {
        None => None,
        Some(w) => {
            if w.is_null() {
                None
            } else {
                match parse_deployed(w) {
                    Some(d) => Some(d),
                    None => {
                        return None;
                    },
                }
            }
        },
    };
    let method_identifiers = match crate::json::get_opt_str_map(ms, "methodIdentifiers") {
        Some(m) => m,
        None => {
            return None;
        },
    };
    let gas_estimates = match crate::json::get_opt_str_map_map(ms, "gasEstimates") {
        Some(m) => m,
        None => {
            return None;
        },
    };
    Some(
        EvmOutput {
            assembly,
            legacy_assembly,
            bytecode,
            deployed_bytecode,
            method_identifiers,
            gas_estimates,
        },
    )
}

/// What one contract object of the output holds.
pub open spec fn contract_view(v: crate::json::JsonValue) -> Option<
    (
        Option<Seq<AbiEntryView>>,
        Option<Seq<(Seq<char>, Seq<char>)>>,
        Option<Seq<(Seq<char>, Seq<char>)>>,
        Option<Seq<char>>,
        Option<Seq<(Seq<char>, Seq<char>)>>,
        Option<Seq<char>>,
        Option<Seq<(Seq<char>, Seq<char>)>>,
        bool,
        Option<
            (
                Option<Seq<char>>,
                Option<Seq<(Seq<char>, Seq<char>)>>,
                Option<(Seq<char>, Seq<char>)>,
                Option<((Seq<char>, Seq<char>), Seq<(Seq<char>, Seq<char>)>)>,
                Option<Seq<(Seq<char>, Seq<char>)>>,
                Option<Seq<(Seq<char>, Seq<(Seq<char>, Seq<char>)>)>>,
            ),
        >,
    ),
> {
    match crate::json::jv_obj_of(v) {
        Option::None => Option::None,
        Option::Some(ms) => {
            let abi = match crate::json::obj_lookup(ms, "abi"@) {
                Option::None => Option::Some(Option::None),
                Option::Some(crate::json::JsonValue::Null) => Option::Some(Option::None),
                Option::Some(w) => match crate::json::jv_arr_of(w) {
                    Option::None => Option::None,
                    Option::Some(items) => match abi_entries_view(items) {
                        Option::None => Option::None,
                        Option::Some(es) => Option::Some(Option::Some(es)),
                    },
                },
            };
            match abi {
                Option::None => Option::None,
                Option::Some(abi) => match crate::json::opt_str_map_member(ms, "userdoc"@) {
                    Option::None => Option::None,
                    Option::Some(user_doc) => match crate::json::opt_str_map_member(
                        ms,
                        "devdoc"@,
                    ) {
                        Option::None => Option::None,
                        Option::Some(dev_doc) => match crate::json::opt_str_member(ms, "ir"@) {
                            Option::None => Option::None,
                            Option::Some(ir) => match crate::json::opt_str_map_member(
                                ms,
                                "irAst"@,
                            ) {
                                Option::None => Option::None,
                                Option::Some(ir_ast) => match crate::json::opt_str_member(
                                    ms,
                                    "irOptimized"@,
                                ) {
                                    Option::None => Option::None,
                                    Option::Some(ir_opt) => match crate::json::opt_str_map_member(
                                        ms,
                                        "irOptimizedAst"@,
                                    ) {
                                        Option::None => Option::None,
                                        Option::Some(ir_opt_ast) => {
                                            let layout = match crate::json::obj_lookup(
                                                ms,
                                                "storageLayout"@,
                                            ) {
                                                Option::None => Option::Some(false),
                                                Option::Some(
                                                    crate::json::JsonValue::Null,
                                                ) => Option::Some(false),
                                                Option::Some(
                                                    crate::json::JsonValue::Obj(_),
                                                ) => Option::Some(true),
                                                Option::Some(_) => Option::None,
                                            };
                                            match layout {
                                                Option::None => Option::None,
                                                Option::Some(layout) => {
                                                    let evm = match crate::json::obj_lookup(
                                                        ms,
                                                        "evm"@,
                                                    ) {
                                                        Option::None => Option::Some(Option::None),
                                                        Option::Some(
                                                            crate::json::JsonValue::Null,
                                                        ) => Option::Some(Option::None),
                                                        Option::Some(w) => match evm_view(w) {
                                                            Option::None => Option::None,
                                                            Option::Some(e) => Option::Some(
                                                                Option::Some(e),
                                                            ),
                                                        },
                                                    };
                                                    match evm {
                                                        Option::None => Option::None,
                                                        Option::Some(evm) => Option::Some(
                                                            (
                                                                abi,
                                                                user_doc,
                                                                dev_doc,
                                                                ir,
                                                                ir_ast,
                                                                ir_opt,
                                                                ir_opt_ast,
                                                                layout,
                                                                evm,
                                                            ),
                                                        ),
                                                    }
                                                },
                                            }
                                        },
                                    },
                                },
                            },
                        },
                    },
                },
            }
        },
    }
}

/// The view a parsed contract projects to.
pub open spec fn contract_as_view(c: VycContract) -> (
    Option<Seq<AbiEntryView>>,
    Option<Seq<(Seq<char>, Seq<char>)>>,
    Option<Seq<(Seq<char>, Seq<char>)>>,
    Option<Seq<char>>,
    Option<Seq<(Seq<char>, Seq<char>)>>,
    Option<Seq<char>>,
    Option<Seq<(Seq<char>, Seq<char>)>>,
    bool,
    Option<
        (
            Option<Seq<char>>,
            Option<Seq<(Seq<char>, Seq<char>)>>,
            Option<(Seq<char>, Seq<char>)>,
            Option<((Seq<char>, Seq<char>), Seq<(Seq<char>, Seq<char>)>)>,
            Option<Seq<(Seq<char>, Seq<char>)>>,
            Option<Seq<(Seq<char>, Seq<(Seq<char>, Seq<char>)>)>>,
        ),
    >,
) {
    (
        match c.abi {
            Option::Some(es) => Option::Some(abi_entries_as_views(es@)),
            Option::None => Option::None,
        },
        match c.user_doc {
            Option::Some(m) => Option::Some(crate::json::str_pairs_views(m@)),
            Option::None => Option::None,
        },
        match c.dev_doc {
            Option::Some(m) => Option::Some(crate::json::str_pairs_views(m@)),
            Option::None => Option::None,
        },
        c.ir.deep_view(),
        match c.ir_ast {
            Option::Some(m) => Option::Some(crate::json::str_pairs_views(m@)),
            Option::None => Option::None,
        },
        c.ir_optimized.deep_view(),
        match c.ir_optimized_ast {
            Option::Some(m) => Option::Some(crate::json::str_pairs_views(m@)),
            Option::None => Option::None,
        },
        c.storage_layout is Some,
        match c.evm {
            Option::Some(e) => Option::Some(evm_as_view(e)),
            Option::None => Option::None,
        },
    )
}

/// Extract one contract object.
pub fn parse_contract(v: &crate::json::JsonValue) -> (r: Option<VycContract>)
    ensures
        match r {
            Option::Some(c) => contract_view(*v) == Option::Some(contract_as_view(c)),
            Option::None => contract_view(*v) is None,
        },
{
    let ms = match v.as_obj() {
        Some(ms) => ms,
        None => {
            return None;
        },
    };
    let abi = match crate::json::obj_get(ms.as_slice(), "abi") {
        None => None,
        Some(w) => {
            if w.is_null() {
                None
            } else {
                match w.as_arr() {
                    None => {
                        return None;
                    },
                    Some(items) => match parse_abi_entries(items.as_slice()) {
                        Some(es) => Some(es),
                        None => {
                            return None;
                        },
                    },
                }
            }
        },
    };
    let user_doc = match crate::json::get_opt_str_map(ms, "userdoc") {
        Some(m) => m,
        None => {
            return None;
        },
    };
    let dev_doc = match crate::json::get_opt_str_map(ms, "devdoc") {
        Some(m) => m,
        None => {
            return None;
        },
    };
    let ir = match crate::json::get_opt_str(ms, "ir") {
        Some(x) => x,
        None => {
            return None;
        },
    };
    let ir_ast = match crate::json::get_opt_str_map(ms, "irAst") {
        Some(m) => m,
        None => {
            return None;
        },
    };
    let ir_optimized = match crate::json::get_opt_str(ms, "irOptimized") {
        Some(x) => x,
        None => {
            return None;
        },
    };
    let ir_optimized_ast = match crate::json::get_opt_str_map(ms, "irOptimizedAst") {
        Some(m) => m,
        None => {
            return None;
        },
    };
    let storage_layout = match crate::json::obj_get(ms.as_slice(), "storageLayout") {
        None => None,
        Some(w) => {
            if w.is_null() {
                None
            } else {
                match w.as_obj() {
                    Some(_) => Some(StorageLayout {  }),
                    None => {
                        return None;
                    },
                }
            }
        },
    };
    let evm = match crate::json::obj_get(ms.as_slice(), "evm") {
        None => None,
        Some(w) => {
            if w.is_null() {
                None
            } else {
                match parse_evm(w) {
                    Some(e) => Some(e),
                    None => {
                        return None;
                    },
                }
            }
        },
    };
    Some(
        VycContract {
            abi,
            user_doc,
            dev_doc,
            ir,
            ir_ast,
            ir_optimized,
            ir_optimized_ast,
            storage_layout,
            evm,
        },
    )
}

/// The view one parsed contract projects to, boxed as a named value for
/// the map views below.
pub struct VycView {
    pub fields: (
        Option<Seq<AbiEntryView>>,
        Option<Seq<(Seq<char>, Seq<char>)>>,
        Option<Seq<(Seq<char>, Seq<char>)>>,
        Option<Seq<char>>,
        Option<Seq<(Seq<char>, Seq<char>)>>,
        Option<Seq<char>>,
        Option<Seq<(Seq<char>, Seq<char>)>>,
        bool,
        Option<
            (
                Option<Seq<char>>,
                Option<Seq<(Seq<char>, Seq<char>)>>,
                Option<(Seq<char>, Seq<char>)>,
                Option<((Seq<char>, Seq<char>), Seq<(Seq<char>, Seq<char>)>)>,
                Option<Seq<(Seq<char>, Seq<char>)>>,
                Option<Seq<(Seq<char>, Seq<(Seq<char>, Seq<char>)>)>>,
            ),
        >,
    ),
}

/// The views of an object mapping contract names to contract objects.
pub open spec fn named_contracts_view(members: Seq<(String, crate::json::JsonValue)>) -> Option<
    Seq<(Seq<char>, VycView)>,
>
    decreases members.len(),
{
    if members.len() == 0 {
        Option::Some(Seq::empty())
    } else {
        match contract_view(members[0].1) {
            Option::None => Option::None,
            Option::Some(c) => match named_contracts_view(members.drop_first()) {
                Option::None => Option::None,
                Option::Some(rest) => Option::Some(
                    seq![(members[0].0@, VycView { fields: c })] + rest,
                ),
            },
        }
    }
}

/// The pair views of a parsed name-to-contract list.
pub open spec fn named_contracts_as_views(ps: Seq<(String, VycContract)>) -> Seq<
    (Seq<char>, VycView),
> {
    ps.map_values(|p: (String, VycContract)| (p.0@, VycView { fields: contract_as_view(p.1) }))
}

/// Extract an object mapping contract names to contracts.
pub fn parse_named_contracts(members: &[(String, crate::json::JsonValue)]) -> (r: Option<
    Vec<(String, VycContract)>,
>)
    ensures
        match r {
            Option::Some(ps) => named_contracts_view(members@) == Option::Some(
                named_contracts_as_views(ps@),
            ),
            Option::None => named_contracts_view(members@) is None,
        },
    decreases members@.len(),
{
    if members.len() == 0 {
        let ps: Vec<(String, VycContract)> = Vec::new();
        proof {
            assert(named_contracts_as_views(ps@) =~= Seq::<(Seq<char>, VycView)>::empty());
        }
        Some(ps)
    } else {
        match parse_contract(&members[0].1) {
            None => None,
            Some(c) => {
                let rest = &members[1..members.len()];
                proof {
                    assert(rest@ =~= members@.drop_first());
                }
                match parse_named_contracts(rest) {
                    None => None,
                    Some(mut ps) => {
                        let ghost cv = VycView { fields: contract_as_view(c) };
                        ps.insert(0, (members[0].0.clone(), c));
                        proof {
                            assert(named_contracts_as_views(ps@) =~~= seq![(members@[0].0@, cv)]
                                + named_contracts_view(members@.drop_first())->Some_0);
                        }
                        Some(ps)
                    },
                }
            },
        }
    }
}

/// The views of an object mapping file names to their contract maps.
pub open spec fn contract_files_view(members: Seq<(String, crate::json::JsonValue)>) -> Option<
    Seq<(Seq<char>, Seq<(Seq<char>, VycView)>)>,
>
    decreases members.len(),
{
    if members.len() == 0 {
        Option::Some(Seq::empty())
    } else {
        let inner = match crate::json::jv_obj_of(members[0].1) {
            Option::None => Option::None,
            Option::Some(cms) => named_contracts_view(cms),
        };
        match inner {
            Option::None => Option::None,
            Option::Some(named) => match contract_files_view(members.drop_first()) {
                Option::None => Option::None,
                Option::Some(rest) => Option::Some(seq![(members[0].0@, named)] + rest),
            },
        }
    }
}

/// The pair views of a parsed file-to-contracts list.
pub open spec fn contract_files_as_views(ps: Seq<(String, Vec<(String, VycContract)>)>) -> Seq<
    (Seq<char>, Seq<(Seq<char>, VycView)>),
> {
    ps.map_values(
        |p: (String, Vec<(String, VycContract)>)| (p.0@, named_contracts_as_views(p.1@)),
    )
}

/// Extract an object mapping file names to contract maps.
pub fn parse_contract_files(members: &[(String, crate::json::JsonValue)]) -> (r: Option<
    Vec<(String, Vec<(String, VycContract)>)>,
>)
    ensures
        match r {
            Option::Some(ps) => contract_files_view(members@) == Option::Some(
                contract_files_as_views(ps@),
            ),
            Option::None => contract_files_view(members@) is None,
        },
    decreases members@.len(),
{
    if members.len() == 0 {
        let ps: Vec<(String, Vec<(String, VycContract)>)> = Vec::new();
        proof {
            assert(contract_files_as_views(ps@) =~= Seq::<
                (Seq<char>, Seq<(Seq<char>, VycView)>),
            >::empty());
        }
        Some(ps)
    } else {
        let inner = match members[0].1.as_obj() {
            None => {
                return None;
            },
            Some(cms) => match parse_named_contracts(cms.as_slice()) {
                None => {
                    return None;
                },
                Some(named) => named,
            },
        };
        let rest = &members[1..members.len()];
        proof {
            assert(rest@ =~= members@.drop_first());
        }
        match parse_contract_files(rest) {
            None => None,
            Some(mut ps) => {
                let ghost nv = named_contracts_as_views(inner@);
                ps.insert(0, (members[0].0.clone(), inner));
                proof {
                    assert(contract_files_as_views(ps@) =~~= seq![(members@[0].0@, nv)]
                        + contract_files_view(members@.drop_first())->Some_0);
                }
                Some(ps)
            },
        }
    }
}

/// What a whole Vyper output document holds: the compiler tag, the
/// diagnostics, the source ids and the contracts.
pub open spec fn vyperc_out_view(v: crate::json::JsonValue) -> Option<
    (
        Seq<char>,
        Option<
            Seq<
                (
                    Option<(Seq<char>, Option<usize>, Option<usize>)>,
                    Option<Seq<(Seq<char>, i32, i32)>>,
                    ErrType,
                    Seq<char>,
                    crate::solidity::Severity,
                    Option<Seq<char>>,
                    Seq<char>,
                    Option<Seq<char>>,
                ),
            >,
        >,
        Option<Seq<(Seq<char>, Seq<(Seq<char>, i32)>)>>,
        Option<Seq<(Seq<char>, Seq<(Seq<char>, VycView)>)>>,
    ),
> {
    match crate::json::jv_obj_of(v) {
        Option::None => Option::None,
        Option::Some(ms) => match crate::json::req_str_member(ms, "compiler"@) {
            Option::None => Option::None,
            Option::Some(compiler) => {
                let errors = match crate::json::obj_lookup(ms, "errors"@) {
                    Option::None => Option::Some(Option::None),
                    Option::Some(crate::json::JsonValue::Null) => Option::Some(Option::None),
                    Option::Some(w) => match crate::json::jv_arr_of(w) {
                        Option::None => Option::None,
                        Option::Some(items) => match vy_errors_view(items) {
                            Option::None => Option::None,
                            Option::Some(es) => Option::Some(Option::Some(es)),
                        },
                    },
                };
                match errors {
                    Option::None => Option::None,
                    Option::Some(errors) => {
                        let sources = match crate::json::obj_lookup(ms, "sources"@) {
                            Option::None => Option::Some(Option::None),
                            Option::Some(crate::json::JsonValue::Null) => Option::Some(
                                Option::None,
                            ),
                            Option::Some(w) => match crate::json::jv_obj_of(w) {
                                Option::None => Option::None,
                                Option::Some(sms) => match crate::solidity::source_ids_view(sms) {
                                    Option::None => Option::None,
                                    Option::Some(ids) => Option::Some(Option::Some(ids)),
                                },
                            },
                        };
                        match sources {
                            Option::None => Option::None,
                            Option::Some(sources) => {
                                let contracts = match crate::json::obj_lookup(ms, "contracts"@) {
                                    Option::None => Option::Some(Option::None),
                                    Option::Some(crate::json::JsonValue::Null) => Option::Some(
                                        Option::None,
                                    ),
                                    Option::Some(w) => match crate::json::jv_obj_of(w) {
                                        Option::None => Option::None,
                                        Option::Some(fms) => match contract_files_view(fms) {
                                            Option::None => Option::None,
                                            Option::Some(fs) => Option::Some(Option::Some(fs)),
                                        },
                                    },
                                };
                                match contracts {
                                    Option::None => Option::None,
                                    Option::Some(contracts) => Option::Some(
                                        (compiler, errors, sources, contracts),
                                    ),
                                }
                            },
                        }
                    },
                }
            },
        },
    }
}

/// The view a parsed output document projects to.
pub open spec fn vyperc_out_as_view(o: VypercOut) -> (
    Seq<char>,
    Option<
        Seq<
            (
                Option<(Seq<char>, Option<usize>, Option<usize>)>,
                Option<Seq<(Seq<char>, i32, i32)>>,
                ErrType,
                Seq<char>,
                crate::solidity::Severity,
                Option<Seq<char>>,
                Seq<char>,
                Option<Seq<char>>,
            ),
        >,
    >,
    Option<Seq<(Seq<char>, Seq<(Seq<char>, i32)>)>>,
    Option<Seq<(Seq<char>, Seq<(Seq<char>, VycView)>)>>,
) {
    (
        o.compiler@,
        match o.errors {
            Option::Some(es) => Option::Some(vy_errors_as_views(es@)),
            Option::None => Option::None,
        },
        match o.sources {
            Option::Some(ids) => Option::Some(crate::solidity::source_ids_as_views(ids@)),
            Option::None => Option::None,
        },
        match o.contracts {
            Option::Some(fs) => Option::Some(contract_files_as_views(fs@)),
            Option::None => Option::None,
        },
    )
}

/// Parse a whole Vyper output document. The document must be one JSON
/// object of the schema's shape, or the call fails with a structured
/// error; what every field holds is pinned by [`vyperc_out_view`].
pub fn parse_vyperc_output(s: &str) -> (r: Result<VypercOut, crate::solidity::JsonError>)
    ensures
        match crate::json::json_parsed(s.spec_bytes()) {
            Option::None => r is Err,
            Option::Some(v) => {
                &&& r is Ok <==> vyperc_out_view(v) is Some
                &&& (r matches Result::Ok(o) ==> vyperc_out_view(v) == Option::Some(
                    vyperc_out_as_view(o),
                ))
            },
        },
        r matches Result::Err(e) ==> e.message@ == "failed to deserialize the compiler output"@,
{
    let refused = "failed to deserialize the compiler output";
    let v = match crate::json::json_parse(s.as_bytes()) {
        Some(v) => v,
        None => {
            return Err(crate::solidity::JsonError { message: refused.to_owned() });
        },
    };
    let ms = match v.as_obj() {
        Some(ms) => ms,
        None => {
            return Err(crate::solidity::JsonError { message: refused.to_owned() });
        },
    };
    let compiler = match crate::json::get_req_str(ms, "compiler") {
        Some(c) => c,
        None => {
            return Err(crate::solidity::JsonError { message: refused.to_owned() });
        },
    };
    let errors = match crate::json::obj_get(ms.as_slice(), "errors") {
        None => None,
        Some(w) => {
            if w.is_null() {
                None
            } else {
                match w.as_arr() {
                    None => {
                        return Err(crate::solidity::JsonError { message: refused.to_owned() });
                    },
                    Some(items) => match parse_vy_errors(items.as_slice()) {
                        Some(es) => Some(es),
                        None => {
                            return Err(
                                crate::solidity::JsonError { message: refused.to_owned() },
                            );
                        },
                    },
                }
            }
        },
    };
    let sources = match crate::json::obj_get(ms.as_slice(), "sources") {
        None => None,
        Some(w) => {
            if w.is_null() {
                None
            } else {
                match w.as_obj() {
                    None => {
                        return Err(crate::solidity::JsonError { message: refused.to_owned() });
                    },
                    Some(sms) => match crate::solidity::parse_source_ids_members(sms.as_slice()) {
                        Some(ids) => Some(ids),
                        None => {
                            return Err(
                                crate::solidity::JsonError { message: refused.to_owned() },
                            );
                        },
                    },
                }
            }
        },
    };
    let contracts = match crate::json::obj_get(ms.as_slice(), "contracts") {
        None => None,
        Some(w) => {
            if w.is_null() {
                None
            } else {
                match w.as_obj() {
                    None => {
                        return Err(crate::solidity::JsonError { message: refused.to_owned() });
                    },
                    Some(fms) => match parse_contract_files(fms.as_slice()) {
                        Some(fs) => Some(fs),
                        None => {
                            return Err(
                                crate::solidity::JsonError { message: refused.to_owned() },
                            );
                        },
                    },
                }
            }
        },
    };
    Ok(VypercOut { compiler, errors, sources, contracts })
}

/// Classify one finished Vyper subprocess run, exactly as the Solidity
/// backend does: failure exit surfaces the captured standard error,
/// unparseable output is a transport failure, a non-empty error list fails
/// with the first error's message — otherwise the parsed structure is the
/// result.
pub fn interpret(status_ok: bool, parsed: Option<VypercOut>, stderr: String) -> (r: Result<
    crate::builder::CompilerOutput,
    crate::builder::CompilerError,
>)
    ensures
        !status_ok ==> (r matches Result::Err(
            crate::builder::CompilerError::BinError(crate::builder::BinError::Json(j)),
        ) && j.message == stderr),
        status_ok && parsed is None ==> (r matches Result::Err(
            crate::builder::CompilerError::BinError(crate::builder::BinError::Json(j)),
        ) && j.message@ == "failed to deserialize the compiler output"@),
        status_ok ==> (parsed matches Option::Some(out) ==> match first_error_msg(out) {
            Option::Some(m) => (r matches Result::Err(
                crate::builder::CompilerError::BinError(crate::builder::BinError::Json(j)),
            ) && j.message@ == m@),
            Option::None => r == Result::<
                crate::builder::CompilerOutput,
                crate::builder::CompilerError,
            >::Ok(crate::builder::CompilerOutput::Vyper(out)),
        }),
{
    if !status_ok {
        return Err(
            crate::builder::CompilerError::BinError(
                crate::builder::BinError::Json(crate::solidity::JsonError { message: stderr }),
            ),
        );
    }
    match parsed {
        None => Err(
            crate::builder::CompilerError::BinError(
                crate::builder::BinError::Json(
                    crate::solidity::JsonError {
                        message: "failed to deserialize the compiler output".to_owned(),
                    },
                ),
            ),
        ),
        Some(out) => {
            let msg: Option<String> = match out.first_error_message() {
                Some(m) => Some(m.clone()),
                None => None,
            };
            match msg {
                Some(m) => Err(
                    crate::builder::CompilerError::BinError(
                        crate::builder::BinError::Json(
                            crate::solidity::JsonError { message: m },
                        ),
                    ),
                ),
                None => Ok(crate::builder::CompilerOutput::Vyper(out)),
            }
        },
    }
}

} // verus!
