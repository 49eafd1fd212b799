//! The compiler dispatcher: one request shape and one error taxonomy over
//! the three backends.
//!
//! A request is malformed before any subprocess runs (a builder error), or
//! the subprocess signals failure (a bin error carrying the compiler's own
//! message); an execution revert or halt is never an error of this layer.
//! Dispatching is stateless: one request, one backend, one subprocess run
//! to completion.

use vstd::prelude::*;

verus! {

use crate::huff::HuffcOut;
use crate::solidity::{JsonError, SolcOut};
use crate::vyper::VypercOut;

/// Which backend a request targets.
#[derive(Debug)]
pub enum CompilerKinds {
    Solc,
    Vyper,
    Huff,
}

/// A compile request: the backend kind and the sources, file name to
/// source text, in order; a caller names each file once, as the original's
/// map type forced. Created per invocation and discarded after use.
#[derive(Debug)]
pub struct Compiler {
    pub sources: Vec<(String, String)>,
    pub kind: CompilerKinds,
}

/// A backend's structured output, tagged by the backend that produced it.
#[derive(Debug)]
pub enum CompilerOutput {
    Solc(SolcOut),
    Vyper(VypercOut),
    Huff(HuffcOut),
}

/// A request was malformed before any subprocess ran.
#[derive(Debug)]
pub enum BuilderError {
    Solc(String),
}

/// A subprocess ran and signalled failure; the compiler's own message text
/// is kept.
#[derive(Debug)]
pub enum BinError {
    Json(JsonError),
}

/// Everything a compile call can fail with: a malformed request, or a
/// failing subprocess.
#[derive(Debug)]
pub enum CompilerError {
    BuilderError(BuilderError),
    BinError(BinError),
}

impl BuilderError {
    /// The underlying message text.
    pub fn message(&self) -> (r: &String)
        ensures
            *self matches BuilderError::Solc(m) && r == &m,
    {
        match self {
            BuilderError::Solc(m) => m,
        }
    }
}

impl BinError {
    /// The compiler's own message text.
    pub fn message(&self) -> (r: &String)
        ensures
            *self matches BinError::Json(j) && r == &j.message,
    {
        match self {
            BinError::Json(j) => &j.message,
        }
    }
}

impl CompilerError {
    /// The message text of whichever class this error is.
    pub fn message(&self) -> (r: &String)
        ensures
            match *self {
                CompilerError::BuilderError(BuilderError::Solc(m)) => r == &m,
                CompilerError::BinError(BinError::Json(j)) => r == &j.message,
            },
    {
        match self {
            CompilerError::BuilderError(e) => e.message(),
            CompilerError::BinError(e) => e.message(),
        }
    }
}

impl vstd::std_specs::convert::FromSpecImpl<BinError> for CompilerError {
    open spec fn obeys_from_spec() -> bool {
        true
    }

    open spec fn from_spec(e: BinError) -> CompilerError {
        CompilerError::BinError(e)
    }
}

impl From<BinError> for CompilerError {
    fn from(e: BinError) -> (r: CompilerError) {
        CompilerError::BinError(e)
    }
}

impl vstd::std_specs::convert::FromSpecImpl<BuilderError> for CompilerError {
    open spec fn obeys_from_spec() -> bool {
        true
    }

    open spec fn from_spec(e: BuilderError) -> CompilerError {
        CompilerError::BuilderError(e)
    }
}

impl From<BuilderError> for CompilerError {
    fn from(e: BuilderError) -> (r: CompilerError) {
        CompilerError::BuilderError(e)
    }
}

impl vstd::std_specs::convert::FromSpecImpl<SolcOut> for CompilerOutput {
    open spec fn obeys_from_spec() -> bool {
        true
    }

    open spec fn from_spec(o: SolcOut) -> CompilerOutput {
        CompilerOutput::Solc(o)
    }
}

impl From<SolcOut> for CompilerOutput {
    fn from(o: SolcOut) -> (r: CompilerOutput) {
        CompilerOutput::Solc(o)
    }
}

impl vstd::std_specs::convert::FromSpecImpl<VypercOut> for CompilerOutput {
    open spec fn obeys_from_spec() -> bool {
        true
    }

    open spec fn from_spec(o: VypercOut) -> CompilerOutput {
        CompilerOutput::Vyper(o)
    }
}

impl From<VypercOut> for CompilerOutput {
    fn from(o: VypercOut) -> (r: CompilerOutput) {
        CompilerOutput::Vyper(o)
    }
}

impl vstd::std_specs::convert::FromSpecImpl<HuffcOut> for CompilerOutput {
    open spec fn obeys_from_spec() -> bool {
        true
    }

    open spec fn from_spec(o: HuffcOut) -> CompilerOutput {
        CompilerOutput::Huff(o)
    }
}

impl From<HuffcOut> for CompilerOutput {
    fn from(o: HuffcOut) -> (r: CompilerOutput) {
        CompilerOutput::Huff(o)
    }
}

impl Compiler {
    /// The Solidity request this compile dispatches to: the request's
    /// sources, binary output, and a default output selection asking every
    /// contract of every file for its bytecode, metadata and ABI.
    pub fn to_solc(self) -> (r: crate::solidity::Solc)
        ensures
            r.language@ == "Solidity"@,
            r.bin == true,
            r.ast_compact_json == false,
            r.sources@.len() == self.sources@.len(),
            forall|i: int|
                0 <= i < self.sources@.len() ==> r.sources@[i].0 == self.sources@[i].0
                    && r.sources@[i].1.content == self.sources@[i].1,
            r.settings matches Option::Some(st) && st.remappings is None
                && st.output_selection@.len() == 1 && st.output_selection@[0].0@ == "*"@
                && st.output_selection@[0].1@.len() == 1 && st.output_selection@[0].1@[0].0@
                == "*"@ && st.output_selection@[0].1@[0].1@ == seq![
                crate::solidity::OutputOption::EvmBytecode,
                crate::solidity::OutputOption::Metadata,
                crate::solidity::OutputOption::Abi,
            ],
    {
        let sources = crate::solidity::SolcSources::new(self.sources).sources;
        let mut opts: Vec<crate::solidity::OutputOption> = Vec::new();
        opts.push(crate::solidity::OutputOption::EvmBytecode);
        opts.push(crate::solidity::OutputOption::Metadata);
        opts.push(crate::solidity::OutputOption::Abi);
        let mut inner: Vec<(String, Vec<crate::solidity::OutputOption>)> = Vec::new();
        inner.push(("*".to_owned(), opts));
        let mut selection: Vec<
            (String, Vec<(String, Vec<crate::solidity::OutputOption>)>),
        > = Vec::new();
        selection.push(("*".to_owned(), inner));
        proof {
            assert(selection@[0].1@[0].1@ =~= seq![
                crate::solidity::OutputOption::EvmBytecode,
                crate::solidity::OutputOption::Metadata,
                crate::solidity::OutputOption::Abi,
            ]);
        }
        crate::solidity::Solc {
            language: "Solidity".to_owned(),
            sources,
            bin: true,
            ast_compact_json: false,
            settings: Some(
                crate::solidity::Settings { remappings: None, output_selection: selection },
            ),
        }
    }

    /// The Vyper request this compile dispatches to: the request's
    /// sources, the paris EVM version, and a default output selection
    /// asking every contract for its bytecode and ABI.
    pub fn to_vyperc(self) -> (r: crate::vyper::Vyperc)
        ensures
            r.language@ == "Vyper"@,
            r.sources@.len() == self.sources@.len(),
            forall|i: int|
                0 <= i < self.sources@.len() ==> r.sources@[i].0 == self.sources@[i].0
                    && r.sources@[i].1.content == self.sources@[i].1,
            r.settings matches Option::Some(st) && st.evm_version@ == "paris"@
                && st.output_selection@.len() == 1 && st.output_selection@[0].0@ == "*"@
                && st.output_selection@[0].1@.len() == 1 && st.output_selection@[0].1@[0].0@
                == "*"@ && st.output_selection@[0].1@[0].1@ == seq![
                crate::vyper::OutputOption::EvmBytecode,
                crate::vyper::OutputOption::Abi,
            ],
    {
        let sources = crate::solidity::SolcSources::new(self.sources).sources;
        let mut opts: Vec<crate::vyper::OutputOption> = Vec::new();
        opts.push(crate::vyper::OutputOption::EvmBytecode);
        opts.push(crate::vyper::OutputOption::Abi);
        let mut inner: Vec<(String, Vec<crate::vyper::OutputOption>)> = Vec::new();
        inner.push(("*".to_owned(), opts));
        let mut selection: Vec<(String, Vec<(String, Vec<crate::vyper::OutputOption>)>)> =
            Vec::new();
        selection.push(("*".to_owned(), inner));
        proof {
            assert(selection@[0].1@[0].1@ =~= seq![
                crate::vyper::OutputOption::EvmBytecode,
                crate::vyper::OutputOption::Abi,
            ]);
        }
        crate::vyper::Vyperc {
            language: "Vyper".to_owned(),
            sources,
            settings: Some(
                crate::vyper::Settings {
                    evm_version: "paris".to_owned(),
                    output_selection: selection,
                },
            ),
        }
    }

    /// The single source a Huff invocation compiles: the first file's text.
    /// A request with no source at all is malformed.
    pub fn huff_source(self) -> (r: Option<String>)
        ensures
            self.sources@.len() == 0 <==> r is None,
            self.sources@.len() > 0 ==> r == Option::Some(self.sources@[0].1),
    {
        let mut items = self.sources;
        if items.len() == 0 {
            None
        } else {
            let (_, content) = items.remove(0);
            Some(content)
        }
    }
}

} // verus!
