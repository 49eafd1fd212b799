//! The Huff backend: the compiler invocation's shape and its artifact
//! schema.
//!
//! The Huff compiler is file-based: the source is written to an input file,
//! the subprocess runs as `huffc -a -o <outputPath> <inputPath>`, and on a
//! zero exit status the artifact file at the output path holds one JSON
//! document `{file, bytecode, runtime, abi}`, parsed here. A non-zero exit
//! surfaces the captured standard error as a structured backend error, as
//! the other backends do.

use vstd::prelude::*;

verus! {

use crate::json::{get_opt_str, get_req_bool, get_req_str, jv_arr_of, jv_obj_of, jv_str_of, json_parsed, obj_lookup, opt_str_member, req_bool_member, req_str_member, JsonValue};
use vstd::string::StringSliceAdditionalSpecFns;

/// A Huff compiler invocation: artifact emission, the output path, the
/// input path.
#[derive(Debug)]
pub struct Huffc {
    pub artifacts: bool,
    pub output: String,
    pub input: String,
}

impl Huffc {
    /// The arguments of the invocation `huffc -a -o <output> <input>`.
    pub fn args(&self) -> (r: Vec<String>)
        ensures
            r@.len() == 4,
            r@[0]@ == "-a"@,
            r@[1]@ == "-o"@,
            r@[2]@ == self.output@,
            r@[3]@ == self.input@,
    {
        let mut r: Vec<String> = Vec::new();
        r.push("-a".to_owned());
        r.push("-o".to_owned());
        r.push(self.output.clone());
        r.push(self.input.clone());
        r
    }
}

/// The source file the artifact was compiled from.
#[derive(Debug)]
pub struct HuffFile {
    pub path: String,
    pub source: String,
    pub access: Option<String>,
    pub dependencies: Vec<String>,
}

/// The artifact's function section (none of it is consumed here).
#[derive(Debug)]
pub struct Functions {}

/// The artifact's event section (none of it is consumed here).
#[derive(Debug)]
pub struct Events {}

/// The artifact's error section (none of it is consumed here).
#[derive(Debug)]
pub struct Errors {}

/// The ABI section of a Huff artifact.
#[derive(Debug)]
pub struct HuffAbi {
    pub constructor: Option<String>,
    pub functions: Option<Functions>,
    pub events: Option<Events>,
    pub errors: Option<Errors>,
    pub receive: bool,
    pub fallback: bool,
}

/// One Huff artifact: the source file, the creation and runtime bytecode
/// as hex text, and the ABI section.
#[derive(Debug)]
pub struct HuffcOut {
    pub file: HuffFile,
    pub bytecode: String,
    pub runtime: String,
    pub abi: HuffAbi,
}

/// The string views of an array of JSON strings; `None` when any item is
/// not a string.
pub open spec fn str_views_of(items: Seq<JsonValue>) -> Option<Seq<Seq<char>>>
    decreases items.len(),
{
    if items.len() == 0 {
        Option::Some(Seq::empty())
    } else {
        match jv_str_of(items[0]) {
            Option::None => Option::None,
            Option::Some(s) => match str_views_of(items.drop_first()) {
                Option::None => Option::None,
                Option::Some(rest) => Option::Some(seq![s] + rest),
            },
        }
    }
}


/// An optional empty-struct member: absent or null is absent, an object is
/// present, anything else refuses the document.
pub open spec fn opt_section_member(ms: Seq<(String, JsonValue)>, key: Seq<char>) -> Option<bool> {
    match obj_lookup(ms, key) {
        Option::None => Option::Some(false),
        Option::Some(JsonValue::Null) => Option::Some(false),
        Option::Some(JsonValue::Obj(_)) => Option::Some(true),
        Option::Some(_) => Option::None,
    }
}



/// What the artifact's `file` object holds: path, source, optional access,
/// and the dependency list; `None` where the shape is not the schema's.
pub open spec fn huff_file_view(v: JsonValue) -> Option<
    (Seq<char>, Seq<char>, Option<Seq<char>>, Seq<Seq<char>>),
> {
    match jv_obj_of(v) {
        Option::None => Option::None,
        Option::Some(ms) => match req_str_member(ms, "path"@) {
            Option::None => Option::None,
            Option::Some(path) => match req_str_member(ms, "source"@) {
                Option::None => Option::None,
                Option::Some(source) => match opt_str_member(ms, "access"@) {
                    Option::None => Option::None,
                    Option::Some(access) => match obj_lookup(ms, "dependencies"@) {
                        Option::None => Option::None,
                        Option::Some(dv) => match jv_arr_of(dv) {
                            Option::None => Option::None,
                            Option::Some(items) => match str_views_of(items) {
                                Option::None => Option::None,
                                Option::Some(deps) => Option::Some((path, source, access, deps)),
                            },
                        },
                    },
                },
            },
        },
    }
}

/// What the artifact's `abi` object holds: the optional constructor, which
/// sections are present, and the receive/fallback flags.
pub open spec fn huff_abi_view(v: JsonValue) -> Option<
    (Option<Seq<char>>, bool, bool, bool, bool, bool),
> {
    match jv_obj_of(v) {
        Option::None => Option::None,
        Option::Some(ms) => match opt_str_member(ms, "constructor"@) {
            Option::None => Option::None,
            Option::Some(ctor) => match opt_section_member(ms, "functions"@) {
                Option::None => Option::None,
                Option::Some(fns) => match opt_section_member(ms, "events"@) {
                    Option::None => Option::None,
                    Option::Some(evs) => match opt_section_member(ms, "errors"@) {
                        Option::None => Option::None,
                        Option::Some(errs) => match req_bool_member(ms, "receive"@) {
                            Option::None => Option::None,
                            Option::Some(receive) => match req_bool_member(ms, "fallback"@) {
                                Option::None => Option::None,
                                Option::Some(fallback) => Option::Some(
                                    (ctor, fns, evs, errs, receive, fallback),
                                ),
                            },
                        },
                    },
                },
            },
        },
    }
}

/// Whether a parsed document is a Huff artifact: an object with a `file`
/// object, `bytecode` and `runtime` strings, and an `abi` object, each of
/// the schema's shape.
pub open spec fn huffc_out_ok(v: JsonValue) -> bool {
    match jv_obj_of(v) {
        Option::None => false,
        Option::Some(ms) => {
            &&& match obj_lookup(ms, "file"@) {
                Option::None => false,
                Option::Some(fv) => huff_file_view(fv) is Some,
            }
            &&& req_str_member(ms, "bytecode"@) is Some
            &&& req_str_member(ms, "runtime"@) is Some
            &&& match obj_lookup(ms, "abi"@) {
                Option::None => false,
                Option::Some(av) => huff_abi_view(av) is Some,
            }
        },
    }
}

/// That an artifact value matches its document: every consumed field holds
/// what the document's member of that name holds.
pub open spec fn huffc_out_matches(out: HuffcOut, v: JsonValue) -> bool {
    match jv_obj_of(v) {
        Option::None => false,
        Option::Some(ms) => {
            &&& match obj_lookup(ms, "file"@) {
                Option::None => false,
                Option::Some(fv) => huff_file_view(fv) == Option::Some(
                    (
                        out.file.path@,
                        out.file.source@,
                        out.file.access.deep_view(),
                        out.file.dependencies.deep_view(),
                    ),
                ),
            }
            &&& req_str_member(ms, "bytecode"@) == Option::Some(out.bytecode@)
            &&& req_str_member(ms, "runtime"@) == Option::Some(out.runtime@)
            &&& match obj_lookup(ms, "abi"@) {
                Option::None => false,
                Option::Some(av) => huff_abi_view(av) == Option::Some(
                    (
                        out.abi.constructor.deep_view(),
                        out.abi.functions is Some,
                        out.abi.events is Some,
                        out.abi.errors is Some,
                        out.abi.receive,
                        out.abi.fallback,
                    ),
                ),
            }
        },
    }
}

/// Collect an array of JSON strings; `None` when any item is not one.
fn parse_str_list(items: &[JsonValue]) -> (r: Option<Vec<String>>)
    ensures
        match r {
            Option::Some(v) => str_views_of(items@) == Option::Some(v.deep_view()),
            Option::None => str_views_of(items@) is None,
        },
    decreases items@.len(),
{
    if items.len() == 0 {
        let r: Vec<String> = Vec::new();
        proof {
            assert(r.deep_view() =~= Seq::<Seq<char>>::empty());
        }
        Some(r)
    } else {
        match items[0].as_str() {
            None => None,
            Some(s) => {
                let tail = &items[1..items.len()];
                proof {
                    assert(tail@ =~= items@.drop_first());
                }
                match parse_str_list(tail) {
                    None => None,
                    Some(mut rest) => {
                        rest.insert(0, s.clone());
                        proof {
                            assert(rest.deep_view() =~~= seq![s@] + str_views_of(
                                items@.drop_first(),
                            )->Some_0);
                        }
                        Some(rest)
                    },
                }
            },
        }
    }
}


/// Read an optional empty-section member: absent or null is absent, an
/// object is present, anything else refuses the document.
fn get_opt_section(ms: &Vec<(String, JsonValue)>, key: &str) -> (r: Option<bool>)
    ensures
        r == opt_section_member(ms@, key@),
{
    match crate::json::obj_get(ms.as_slice(), key) {
        None => Some(false),
        Some(v) => {
            if v.is_null() {
                Some(false)
            } else {
                match v.as_obj() {
                    Some(_) => Some(true),
                    None => None,
                }
            }
        },
    }
}



/// Extract the artifact's `file` object.
fn parse_huff_file(v: &JsonValue) -> (r: Option<HuffFile>)
    ensures
        match r {
            Option::Some(f) => huff_file_view(*v) == Option::Some(
                (f.path@, f.source@, f.access.deep_view(), f.dependencies.deep_view()),
            ),
            Option::None => huff_file_view(*v) is None,
        },
{
    let ms = match v.as_obj() {
        Some(ms) => ms,
        None => {
            return None;
        },
    };
    let path = match get_req_str(ms, "path") {
        Some(p) => p,
        None => {
            return None;
        },
    };
    let source = match get_req_str(ms, "source") {
        Some(s) => s,
        None => {
            return None;
        },
    };
    let access = match get_opt_str(ms, "access") {
        Some(a) => a,
        None => {
            return None;
        },
    };
    let deps_v = match crate::json::obj_get(ms.as_slice(), "dependencies") {
        Some(d) => d,
        None => {
            return None;
        },
    };
    let items = match deps_v.as_arr() {
        Some(items) => items,
        None => {
            return None;
        },
    };
    let dependencies = match parse_str_list(items.as_slice()) {
        Some(d) => d,
        None => {
            return None;
        },
    };
    Some(HuffFile { path, source, access, dependencies })
}

/// Extract the artifact's `abi` object.
fn parse_huff_abi(v: &JsonValue) -> (r: Option<HuffAbi>)
    ensures
        match r {
            Option::Some(a) => huff_abi_view(*v) == Option::Some(
                (
                    a.constructor.deep_view(),
                    a.functions is Some,
                    a.events is Some,
                    a.errors is Some,
                    a.receive,
                    a.fallback,
                ),
            ),
            Option::None => huff_abi_view(*v) is None,
        },
{
    let ms = match v.as_obj() {
        Some(ms) => ms,
        None => {
            return None;
        },
    };
    let constructor = match get_opt_str(ms, "constructor") {
        Some(c) => c,
        None => {
            return None;
        },
    };
    let functions = match get_opt_section(ms, "functions") {
        Some(true) => Some(Functions {  }),
        Some(false) => None,
        None => {
            return None;
        },
    };
    let events = match get_opt_section(ms, "events") {
        Some(true) => Some(Events {  }),
        Some(false) => None,
        None => {
            return None;
        },
    };
    let errors = match get_opt_section(ms, "errors") {
        Some(true) => Some(Errors {  }),
        Some(false) => None,
        None => {
            return None;
        },
    };
    let receive = match get_req_bool(ms, "receive") {
        Some(b) => b,
        None => {
            return None;
        },
    };
    let fallback = match get_req_bool(ms, "fallback") {
        Some(b) => b,
        None => {
            return None;
        },
    };
    Some(HuffAbi { constructor, functions, events, errors, receive, fallback })
}

/// Parse the artifact document a Huff run leaves at its output path. The
/// document must be one JSON object of the schema's shape, or the call
/// fails with a structured error; what the consumed fields hold is pinned
/// by [`huffc_out_matches`].
pub fn parse_huffc_output(s: &str) -> (r: Result<HuffcOut, crate::solidity::JsonError>)
    ensures
        match json_parsed(s.spec_bytes()) {
            Option::None => r is Err,
            Option::Some(v) => {
                &&& r is Ok <==> huffc_out_ok(v)
                &&& (r matches Result::Ok(o) ==> huffc_out_matches(o, v))
            },
        },
        r matches Result::Err(e) ==> e.message@ == "failed to deserialize the huff artifact"@,
{
    let refused = "failed to deserialize the huff artifact";
    let v = match crate::json::json_parse(s.as_bytes()) {
        Some(v) => v,
        None => {
            return Err(crate::solidity::JsonError { message: refused.to_owned() });
        },
    };
    let ms = match v.as_obj() {
        Some(ms) => ms,
        None => {
            return Err(crate::solidity::JsonError { message: refused.to_owned() });
        },
    };
    let file_v = match crate::json::obj_get(ms.as_slice(), "file") {
        Some(f) => f,
        None => {
            return Err(crate::solidity::JsonError { message: refused.to_owned() });
        },
    };
    let file = match parse_huff_file(file_v) {
        Some(f) => f,
        None => {
            return Err(crate::solidity::JsonError { message: refused.to_owned() });
        },
    };
    let bytecode = match get_req_str(ms, "bytecode") {
        Some(b) => b,
        None => {
            return Err(crate::solidity::JsonError { message: refused.to_owned() });
        },
    };
    let runtime = match get_req_str(ms, "runtime") {
        Some(rt) => rt,
        None => {
            return Err(crate::solidity::JsonError { message: refused.to_owned() });
        },
    };
    let abi_v = match crate::json::obj_get(ms.as_slice(), "abi") {
        Some(a) => a,
        None => {
            return Err(crate::solidity::JsonError { message: refused.to_owned() });
        },
    };
    let abi = match parse_huff_abi(abi_v) {
        Some(a) => a,
        None => {
            return Err(crate::solidity::JsonError { message: refused.to_owned() });
        },
    };
    Ok(HuffcOut { file, bytecode, runtime, abi })
}

impl HuffcOut {
    /// This backend's output back out of the tagged union; another
    /// backend's is refused.
    pub fn try_from(value: crate::builder::CompilerOutput) -> (r: Result<HuffcOut, String>)
        ensures
            match value {
                crate::builder::CompilerOutput::Huff(o) => r == Result::<HuffcOut, String>::Ok(o),
                _ => (r matches Result::Err(e) && e@ == "Error with TryFrom !"@),
            },
    {
        match value {
            crate::builder::CompilerOutput::Huff(huffc_out) => Ok(huffc_out),
            _ => Err("Error with TryFrom !".to_owned()),
        }
    }
}

/// Classify one finished Huff subprocess run. A failure exit surfaces the
/// captured standard error as a structured backend error — never by
/// aborting the process — and on success the artifact file's content is
/// parsed by [`parse_huffc_output`].
pub fn interpret(status_ok: bool, out_content: &str, stderr: String) -> (r: Result<
    crate::builder::CompilerOutput,
    crate::builder::CompilerError,
>)
    ensures
        !status_ok ==> (r matches Result::Err(
            crate::builder::CompilerError::BinError(crate::builder::BinError::Json(j)),
        ) && j.message == stderr),
        status_ok ==> match json_parsed(out_content.spec_bytes()) {
            Option::None => r is Err,
            Option::Some(v) => {
                &&& r is Ok <==> huffc_out_ok(v)
                &&& (r matches Result::Ok(co) ==> co matches
                    crate::builder::CompilerOutput::Huff(o) && huffc_out_matches(o, v))
            },
        },
{
    if !status_ok {
        return Err(
            crate::builder::CompilerError::BinError(
                crate::builder::BinError::Json(crate::solidity::JsonError { message: stderr }),
            ),
        );
    }
    match parse_huffc_output(out_content) {
        Ok(out) => Ok(crate::builder::CompilerOutput::Huff(out)),
        Err(e) => Err(crate::builder::CompilerError::BinError(crate::builder::BinError::Json(e))),
    }
}

} // verus!
