use rustry::builder::{BinError, Compiler, CompilerError, CompilerKinds, CompilerOutput};
use rustry::huff;
use rustry::huff::HuffcOut;
use rustry::solidity;
use rustry::solidity::{
    AbiEntry, EntryUtils, ErrType, JsonError, OutError, Severity, SolcOut, SolcSources,
    SourceLocation, TypeType,
};
use rustry::vyper;
use rustry::vyper::VypercOut;

fn huff_artifact_text() -> String {
    let mut s = String::new();
    s.push_str("{\"file\":{\"path\":\"input.huff\",");
    s.push_str("\"source\":\"#define macro MAIN() = takes(0) returns(0) {}\",");
    s.push_str("\"access\":null,\"dependencies\":[\"lib.huff\"]},");
    s.push_str("\"bytecode\":\"600b\",\"runtime\":\"00\",");
    s.push_str("\"abi\":{\"constructor\":null,\"functions\":{},\"events\":{},");
    s.push_str("\"errors\":{},\"receive\":false,\"fallback\":true}}");
    s
}

#[test]
fn tests_deserialize_huffc_output() {
    let out = huff::parse_huffc_output(&huff_artifact_text()).unwrap();
    assert_eq!(out.file.path, "input.huff");
    assert_eq!(out.file.source, "#define macro MAIN() = takes(0) returns(0) {}");
    assert!(out.file.access.is_none());
    assert_eq!(out.file.dependencies, vec!["lib.huff".to_owned()]);
    assert_eq!(out.bytecode, "600b");
    assert_eq!(out.runtime, "00");
    assert!(out.abi.constructor.is_none());
    assert!(out.abi.functions.is_some());
    assert!(out.abi.events.is_some());
    assert!(out.abi.errors.is_some());
    assert!(!out.abi.receive);
    assert!(out.abi.fallback);
}

#[test]
fn deserialize_vyper_output() {
    let mut s = String::new();
    s.push_str("{\"compiler\":\"vyper-0.3.10\",");
    s.push_str("\"errors\":[{\"sourceLocation\":{\"file\":\"a.vy\",\"lineno\":3,\"col_offset\":null},");
    s.push_str("\"type\":\"JSONError\",\"component\":\"compiler\",\"severity\":\"error\",");
    s.push_str("\"message\":\"bad indent\",\"formattedMessage\":\"line 3: bad indent\"}],");
    s.push_str("\"sources\":{\"a.vy\":{\"id\":0}},");
    s.push_str("\"contracts\":{\"a.vy\":{\"A\":{");
    s.push_str("\"abi\":[{\"name\":\"get\",\"type\":\"function\",\"stateMutability\":\"view\",");
    s.push_str("\"inputs\":[],\"outputs\":[{\"name\":\"\",\"type\":\"uint256\"}]},");
    s.push_str("{\"type\":\"constructor\",\"inputs\":[]}],");
    s.push_str("\"userdoc\":{},\"storageLayout\":{},");
    s.push_str("\"evm\":{\"bytecode\":{\"object\":\"6001\",\"opcodes\":\"PUSH1 0x1\"},");
    s.push_str("\"methodIdentifiers\":{\"get()\":\"6d4ce63c\"}}}}}}");

    let out = rustry::vyper::parse_vyperc_output(&s).unwrap();
    assert_eq!(out.compiler, "vyper-0.3.10");
    let errs = out.errors.as_ref().unwrap();
    assert_eq!(errs.len(), 1);
    assert_eq!(errs[0].message, "bad indent");
    assert_eq!(errs[0].formatted_message.as_deref(), Some("line 3: bad indent"));
    let loc = errs[0].source_location.as_ref().unwrap();
    assert_eq!(loc.file, "a.vy");
    assert_eq!(loc.lineno, Some(3));
    assert_eq!(loc.col_offset, None);
    let sources = out.sources.as_ref().unwrap();
    assert_eq!(sources[0].0, "a.vy");
    assert_eq!(sources[0].1, vec![("id".to_owned(), 0)]);
    let contracts = out.contracts.as_ref().unwrap();
    let (file, named) = &contracts[0];
    assert_eq!(file, "a.vy");
    let (name, c) = &named[0];
    assert_eq!(name, "A");
    let abi = c.abi.as_ref().unwrap();
    assert_eq!(abi.len(), 2);
    assert_eq!(abi[0].name, "get");
    assert_eq!(abi[0].state_mutability.as_deref(), Some("view"));
    assert_eq!(abi[0].outputs.as_ref().unwrap()[0].entry_type, "uint256");
    // an entry without a name resolves to the constructor default
    assert_eq!(abi[1].name, "constructor");
    assert!(c.storage_layout.is_some());
    let evm = c.evm.as_ref().unwrap();
    assert_eq!(evm.bytecode.as_ref().unwrap().object, "6001");
    assert_eq!(
        evm.method_identifiers.as_ref().unwrap()[0],
        ("get()".to_owned(), "6d4ce63c".to_owned())
    );
    // a well-formed document is demanded: a non-string compiler tag refuses
    assert!(rustry::vyper::parse_vyperc_output("{\"compiler\":3}").is_err());
    assert!(rustry::vyper::parse_vyperc_output("not json").is_err());
}

#[test]
fn deserialize_solc_output() {
    let mut s = String::new();
    s.push_str("{\"errors\":[{\"sourceLocation\":{\"file\":\"source_code.sol\",\"start\":10,\"end\":11},");
    s.push_str("\"type\":\"ParserError\",\"component\":\"general\",\"severity\":\"error\",");
    s.push_str("\"errorCode\":\"2314\",\"message\":\"m\",\"formattedMessage\":\"fm\"}],");
    s.push_str("\"sources\":{\"source_code.sol\":{\"id\":0}},");
    s.push_str("\"contracts\":{\"source_code.sol\":{\"Counter\":{");
    s.push_str("\"abi\":[{\"inputs\":[{\"internalType\":\"uint256\",\"name\":\"_number\",\"type\":\"uint256\"}],");
    s.push_str("\"name\":\"setNumber\",\"outputs\":[],\"stateMutability\":\"nonpayable\",\"type\":\"function\"}],");
    s.push_str("\"metadata\":\"{}\",");
    s.push_str("\"evm\":{\"bytecode\":{\"functionDebugData\":{\"f\":{\"entryPoint\":7}},");
    s.push_str("\"object\":\"6080\",\"opcodes\":\"PUSH1 0x80\",\"sourceMap\":\"0:1\",");
    s.push_str("\"generatedSources\":[],\"linkReferences\":{}},");
    s.push_str("\"methodIdentifiers\":{\"setNumber(uint256)\":\"3fb5c1cb\"}}}}}}");

    let out = rustry::solidity::parse_solc_output(&s).unwrap();
    let errs = out.errors.as_ref().unwrap();
    assert_eq!(errs.len(), 1);
    assert_eq!(errs[0].error_code.as_deref(), Some("2314"));
    assert_eq!(errs[0].source_location.as_ref().unwrap().start, 10);
    assert_eq!(out.sources[0].0, "source_code.sol");
    let contract = out.contract("source_code.sol", "Counter").unwrap();
    assert_eq!(contract.metadata.as_deref(), Some("{}"));
    let abi = contract.abi.as_ref().unwrap();
    assert_eq!(abi[0].name, "setNumber");
    assert_eq!(abi[0].inputs[0].type_type, "uint256");
    assert_eq!(abi[0].inputs[0].internal_type.as_deref(), Some("uint256"));
    let evm = contract.evm.as_ref().unwrap();
    let bytecode = evm.bytecode.as_ref().unwrap();
    assert_eq!(bytecode.object, "6080");
    assert_eq!(bytecode.function_debug_data[0].0, "f");
    assert_eq!(bytecode.function_debug_data[0].1.entry_point, 7);
    assert!(bytecode.generated_sources.is_empty());
    // the parsed structure feeds classification unchanged: the first
    // error's formatted message wins
    match rustry::solidity::interpret(true, Some(out), String::new()) {
        Err(rustry::builder::CompilerError::BinError(rustry::builder::BinError::Json(j))) => {
            assert_eq!(j.message, "fm")
        },
        _ => panic!("expected a bin error"),
    }
    assert!(rustry::solidity::parse_solc_output("[]").is_err());
}

#[test]
fn huff_artifact_must_match_schema() {
    assert!(huff::parse_huffc_output("not json at all").is_err());
    assert!(huff::parse_huffc_output("[]").is_err());
    // a bytecode that is not a string
    assert!(huff::parse_huffc_output(
        "{\"file\":{\"path\":\"a\",\"source\":\"b\",\"dependencies\":[]},\
         \"bytecode\":5,\"runtime\":\"00\",\
         \"abi\":{\"receive\":false,\"fallback\":false}}"
    )
    .is_err());
    // absent optional sections and access are fine
    let out = huff::parse_huffc_output(
        "{\"file\":{\"path\":\"a\",\"source\":\"b\",\"dependencies\":[]},\
         \"bytecode\":\"6000\",\"runtime\":\"00\",\
         \"abi\":{\"receive\":false,\"fallback\":false}}",
    )
    .unwrap();
    assert!(out.abi.functions.is_none());
    assert!(out.file.access.is_none());
}

#[test]
fn huff_artifact_with_constructor_and_access() {
    let out = huff::parse_huffc_output(
        "{\"file\":{\"path\":\"a\",\"source\":\"b\",\"access\":\"public\",\
         \"dependencies\":[\"x\",\"y\"]},\
         \"bytecode\":\"60\",\"runtime\":\"00\",\
         \"abi\":{\"constructor\":\"CONSTRUCTOR()\",\"functions\":{\"f\":1},\
         \"receive\":true,\"fallback\":false}}",
    )
    .unwrap();
    assert_eq!(out.file.access.as_deref(), Some("public"));
    assert_eq!(out.file.dependencies, vec!["x".to_owned(), "y".to_owned()]);
    assert_eq!(out.abi.constructor.as_deref(), Some("CONSTRUCTOR()"));
    assert!(out.abi.functions.is_some());
    assert!(out.abi.events.is_none());
    assert!(out.abi.receive);
}

#[test]
fn huff_failure_exit_is_a_structured_error() {
    // The Huff backend surfaces a failed subprocess as a Backend error like
    // the other adapters, never by terminating the process.
    let r = huff::interpret(false, "", "compilation failed: bad macro".to_owned());
    match r {
        Err(CompilerError::BinError(BinError::Json(j))) => {
            assert_eq!(j.message, "compilation failed: bad macro");
            assert!(!j.message.is_empty());
        },
        _ => panic!("expected a bin error"),
    }
}

#[test]
fn huff_success_parses_artifact() {
    let r = huff::interpret(true, &huff_artifact_text(), String::new());
    match r {
        Ok(CompilerOutput::Huff(out)) => assert_eq!(out.bytecode, "600b"),
        _ => panic!("expected a huff output"),
    }
}

fn solc_error(formatted: Option<&str>, message: &str) -> OutError<SourceLocation, ErrType> {
    OutError {
        source_location: None,
        secondary_source_locations: None,
        err_type: ErrType::ParserError,
        component: "general".to_owned(),
        severity: Severity::Error,
        error_code: Some("2314".to_owned()),
        message: message.to_owned(),
        formatted_message: formatted.map(|f| f.to_owned()),
    }
}

fn empty_solc_out(errors: Option<Vec<OutError<SourceLocation, ErrType>>>) -> SolcOut {
    SolcOut { errors, sources: vec![], contracts: None }
}

#[test]
fn solc_syntax_error_returns_backend_error() {
    // A compile whose source has a syntax error comes back as a Backend
    // error with a non-empty message; the process goes on running.
    let out = empty_solc_out(Some(vec![solc_error(
        Some("ParserError: Expected ';' but got '}'"),
        "Expected ';' but got '}'",
    )]));
    match solidity::interpret(true, Some(out), String::new()) {
        Err(CompilerError::BinError(BinError::Json(j))) => {
            assert_eq!(j.message, "ParserError: Expected ';' but got '}'");
            assert!(!j.message.is_empty());
        },
        _ => panic!("expected a bin error"),
    }
}

#[test]
fn solc_first_error_wins() {
    let out = empty_solc_out(Some(vec![
        solc_error(None, "first message"),
        solc_error(Some("second formatted"), "second message"),
    ]));
    match solidity::interpret(true, Some(out), String::new()) {
        Err(CompilerError::BinError(BinError::Json(j))) => {
            assert_eq!(j.message, "first message");
        },
        _ => panic!("expected a bin error"),
    }
}

#[test]
fn solc_clean_output_passes_through() {
    let out = empty_solc_out(None);
    match solidity::interpret(true, Some(out), String::new()) {
        Ok(CompilerOutput::Solc(o)) => assert!(o.errors.is_none()),
        _ => panic!("expected a solc output"),
    }
    let out2 = empty_solc_out(Some(vec![]));
    assert!(solidity::interpret(true, Some(out2), String::new()).is_ok());
}

#[test]
fn solc_failure_exit_surfaces_stderr() {
    match solidity::interpret(false, None, "spawn failed".to_owned()) {
        Err(CompilerError::BinError(BinError::Json(j))) => {
            assert_eq!(j.message, "spawn failed");
        },
        _ => panic!("expected a bin error"),
    }
}

#[test]
fn solc_unparseable_output_is_a_transport_failure() {
    match solidity::interpret(true, None, String::new()) {
        Err(CompilerError::BinError(BinError::Json(j))) => {
            assert!(!j.message.is_empty());
        },
        _ => panic!("expected a bin error"),
    }
}

#[test]
fn vyper_first_error_wins_too() {
    let out = VypercOut {
        compiler: "vyper-0.3.10".to_owned(),
        errors: Some(vec![OutError {
            source_location: None,
            secondary_source_locations: None,
            err_type: vyper::ErrType::JSONError,
            component: "compiler".to_owned(),
            severity: Severity::Error,
            error_code: None,
            message: "bad indent".to_owned(),
            formatted_message: None,
        }]),
        sources: None,
        contracts: None,
    };
    match vyper::interpret(true, Some(out), String::new()) {
        Err(CompilerError::BinError(BinError::Json(j))) => assert_eq!(j.message, "bad indent"),
        _ => panic!("expected a bin error"),
    }
}

#[test]
fn vyper_clean_output_passes_through() {
    let out = VypercOut {
        compiler: "vyper-0.3.10".to_owned(),
        errors: None,
        sources: None,
        contracts: None,
    };
    match vyper::interpret(true, Some(out), String::new()) {
        Ok(CompilerOutput::Vyper(o)) => assert_eq!(o.compiler, "vyper-0.3.10"),
        _ => panic!("expected a vyper output"),
    }
}

#[test]
fn output_round_trips_through_the_tagged_union() {
    let tagged: CompilerOutput = CompilerOutput::from(empty_solc_out(None));
    assert!(SolcOut::try_from(tagged).is_ok());
    let tagged2: CompilerOutput = CompilerOutput::from(empty_solc_out(None));
    match HuffcOut::try_from(tagged2) {
        Err(e) => assert_eq!(e, "Error with TryFrom !"),
        Ok(_) => panic!("a solc output is not a huff output"),
    }
    let tagged3: CompilerOutput = CompilerOutput::from(empty_solc_out(None));
    assert!(VypercOut::try_from(tagged3).is_err());
}

#[test]
fn huff_source_takes_the_first_file() {
    let c = Compiler {
        sources: vec![("a.huff".to_owned(), "macro".to_owned())],
        kind: CompilerKinds::Huff,
    };
    assert_eq!(c.huff_source(), Some("macro".to_owned()));
    let empty = Compiler { sources: vec![], kind: CompilerKinds::Huff };
    assert_eq!(empty.huff_source(), None);
}

#[test]
fn huffc_invocation_args() {
    let h = rustry::huff::Huffc {
        artifacts: true,
        output: "/tmp/out.json".to_owned(),
        input: "/tmp/in.huff".to_owned(),
    };
    assert_eq!(h.args(), vec!["-a", "-o", "/tmp/out.json", "/tmp/in.huff"]);
}

#[test]
fn solc_sources_keep_names_and_contents() {
    let s = SolcSources::new(vec![("a.sol".to_owned(), "contract A {}".to_owned())]);
    assert_eq!(s.sources.len(), 1);
    assert_eq!(s.sources[0].0, "a.sol");
    assert_eq!(s.sources[0].1.content, "contract A {}");
}

#[test]
fn abi_entry_signature_text() {
    let e = AbiEntry {
        inputs: vec![
            TypeType {
                internal_type: None,
                name: "amount".to_owned(),
                type_type: "uint256".to_owned(),
            },
            TypeType {
                internal_type: None,
                name: "to".to_owned(),
                type_type: "address".to_owned(),
            },
        ],
        name: "transfer".to_owned(),
        outputs: vec![],
        state_mutability: "nonpayable".to_owned(),
        entry_type: "function".to_owned(),
    };
    assert_eq!(e.signature(), "transfer(uint256,address)");
    assert_eq!(rustry::abi::get_sig(&e.signature()), vec![0xb7, 0x76, 0x0c, 0x8f]);
    let bare = AbiEntry {
        inputs: vec![],
        name: "pwn".to_owned(),
        outputs: vec![],
        state_mutability: "pure".to_owned(),
        entry_type: "function".to_owned(),
    };
    assert_eq!(bare.signature(), "pwn()");
}

#[test]
fn internal_to_type_maps_uints_only() {
    assert_eq!(solidity::internal_to_type("uint256"), Some("u128"));
    assert_eq!(solidity::internal_to_type("uint8"), Some("u128"));
    assert_eq!(solidity::internal_to_type("uint256[]"), None);
    assert_eq!(solidity::internal_to_type("tuple(uint256)"), None);
    assert_eq!(solidity::internal_to_type("address"), None);
}

#[test]
fn contract_lookup_finds_by_file_and_name() {
    let contract = rustry::solidity::SolcContract {
        abi: None,
        metadata: Some("{}".to_owned()),
        user_doc: None,
        dev_doc: None,
        ir: None,
        ir_ast: None,
        ir_optimized: None,
        ir_optimized_ast: None,
        storage_layout: None,
        evm: None,
    };
    let out = SolcOut {
        errors: None,
        sources: vec![],
        contracts: Some(vec![(
            "source_code.sol".to_owned(),
            vec![("Counter".to_owned(), contract)],
        )]),
    };
    assert!(out.contract("source_code.sol", "Counter").is_some());
    assert!(out.contract("source_code.sol", "Missing").is_none());
    assert!(out.contract("other.sol", "Counter").is_none());
}

#[test]
fn error_messages_carry_through() {
    let e = CompilerError::from(BinError::Json(JsonError { message: "boom".to_owned() }));
    assert_eq!(e.message(), "boom");
    let b = CompilerError::from(rustry::builder::BuilderError::Solc("missing".to_owned()));
    assert_eq!(b.message(), "missing");
}

#[test]
fn vyper_default_entry_name() {
    assert_eq!(vyper::constructor(), "constructor");
}

#[test]
fn solc_request_document_bytes() {
    let c = Compiler {
        sources: vec![("source_code.sol".to_owned(), "contract A {}".to_owned())],
        kind: CompilerKinds::Solc,
    };
    let req = c.to_solc();
    assert!(req.bin);
    let text = String::from_utf8(req.to_request_json()).unwrap();
    assert_eq!(
        text,
        "{\"language\":\"Solidity\",\"sources\":{\"source_code.sol\":{\"content\":\"contract A {}\"}},\
         \"settings\":{\"outputSelection\":{\"*\":{\"*\":[\"evm.bytecode\",\"metadata\",\"abi\"]}}}}"
    );
}

#[test]
fn vyper_request_document_bytes() {
    let c = Compiler {
        sources: vec![("a.vy".to_owned(), "x: uint256".to_owned())],
        kind: CompilerKinds::Vyper,
    };
    let req = c.to_vyperc();
    let text = String::from_utf8(req.to_request_json()).unwrap();
    assert_eq!(
        text,
        "{\"language\":\"Vyper\",\"sources\":{\"a.vy\":{\"content\":\"x: uint256\"}},\
         \"settings\":{\"evmVersion\":\"paris\",\"outputSelection\":{\"*\":{\"*\":[\"evm.bytecode\",\"abi\"]}}}}"
    );
}

#[test]
fn solc_request_escapes_source_text() {
    let c = Compiler {
        sources: vec![("a.sol".to_owned(), "line1\n\"quoted\"".to_owned())],
        kind: CompilerKinds::Solc,
    };
    let text = String::from_utf8(c.to_solc().to_request_json()).unwrap();
    assert!(text.contains("line1\\n\\\"quoted\\\""));
}

#[test]
fn remappings_are_carried_when_given() {
    let st = rustry::solidity::Settings {
        remappings: Some(vec!["a=b".to_owned()]),
        output_selection: vec![],
    };
    let v = st.request_value();
    let bytes = rustry::json::json_to_bytes(&v);
    assert_eq!(
        String::from_utf8(bytes).unwrap(),
        "{\"remappings\":[\"a=b\"],\"outputSelection\":{}}"
    );
}
