//! Execution frontend: one simulated ledger and one mutable active sender,
//! with deploy / call / staticcall / send / mint / impersonate operations.
//!
//! The ledger engine itself (revm) is a trusted black box implementing full
//! execution semantics; this layer owns the transaction lifecycle and the
//! classification of outcomes. What one run of the engine produces — its
//! outcome tag, its output bytes, the balances it leaves — is a function of
//! the ledger and the transaction alone (every environment default here is
//! a constant), so those results carry names, and every operation's
//! contract is stated over them: `call` and `staticcall` never change the
//! ledger, `send` leaves exactly the named post-state (which is the old
//! state again whenever the run did not succeed), and `deploy` returns
//! exactly the named created address. A transaction the engine refuses to
//! run at all (say, a value above the caller's balance) comes back as a
//! structured [`EngineError`] value, never by panicking.

use vstd::prelude::*;

verus! {

use revm::context_interface::result::{ExecutionResult, HaltReason, Output};
use revm::primitives::{Bytes, TxKind, U256};
use revm::{Context, ExecuteCommitEvm, ExecuteEvm, MainBuilder, MainContext};
use revm::database::CacheDB;
use revm::database_interface::{EmptyDB, EmptyDBTyped};
use revm::primitives::Address;
use crate::abi::AbiValueType;

#[verifier::external_type_specification]
#[verifier::external_body]
pub struct ExAddress(Address);

#[verifier::external_type_specification]
#[verifier::external_body]
pub struct ExHaltReason(HaltReason);

#[verifier::external_type_specification]
#[verifier::external_body]
#[verifier::reject_recursive_types(ExtDB)]
pub struct ExCacheDB<ExtDB>(CacheDB<ExtDB>);

#[verifier::external_type_specification]
#[verifier::external_body]
#[verifier::reject_recursive_types(E)]
pub struct ExEmptyDBTyped<E>(EmptyDBTyped<E>);

#[verifier::external_type_specification]
#[verifier::external_body]
pub struct ExTxEnv(revm::context::TxEnv);

/// The balance each address holds in a ledger, as a total map: an address
/// with no account stands at zero. Left uninterpreted: what a transaction
/// does to balances is the engine's semantics, trusted as a black box.
pub uninterp spec fn ledger_of(db: CacheDB<EmptyDB>) -> Map<Address, nat>;

/// The address whose 20 bytes are `b` (defined for 20-byte strings).
pub uninterp spec fn addr_of_bytes(b: Seq<u8>) -> Address;

/// Whether the engine admits a call transaction `(from, to, data, value)`
/// against this ledger and runs it; a transaction it refuses (a value
/// above the caller's balance, a malformed shape) is not run at all.
pub uninterp spec fn exec_ok_of(
    db: CacheDB<EmptyDB>,
    from: Address,
    to: Address,
    data: Seq<u8>,
    value: u128,
) -> bool;

/// The outcome of an admitted call transaction: 0 for success, 1 for
/// revert, 2 for halt.
pub uninterp spec fn exec_tag_of(
    db: CacheDB<EmptyDB>,
    from: Address,
    to: Address,
    data: Seq<u8>,
    value: u128,
) -> int;

/// The output bytes an admitted call transaction returns (of a success) or
/// explains itself with (of a revert).
pub uninterp spec fn exec_out_of(
    db: CacheDB<EmptyDB>,
    from: Address,
    to: Address,
    data: Seq<u8>,
    value: u128,
) -> Seq<u8>;

/// The balances a committed call transaction leaves: the engine's
/// post-state for an admitted, successful run, and the old balances again
/// for a refused or unsuccessful one.
pub uninterp spec fn ledger_after_of(
    db: CacheDB<EmptyDB>,
    from: Address,
    to: Address,
    data: Seq<u8>,
    value: u128,
) -> Map<Address, nat>;

/// The address a creation transaction `(from, code, value)` creates:
/// `Some` exactly when the engine admits the transaction and the creation
/// succeeds, `None` on a refusal, a revert or a halt.
pub uninterp spec fn create_addr_of(
    db: CacheDB<EmptyDB>,
    from: Address,
    code: Seq<u8>,
    value: u128,
) -> Option<Address>;

/// The balances a committed creation transaction leaves.
pub uninterp spec fn create_ledger_after_of(
    db: CacheDB<EmptyDB>,
    from: Address,
    code: Seq<u8>,
    value: u128,
) -> Map<Address, nat>;

/// The ledger every balance of which is zero.
pub open spec fn empty_ledger() -> Map<Address, nat> {
    Map::new(|a: Address| true, |a: Address| 0nat)
}

/// The largest 256-bit balance.
pub open spec fn u256_max() -> nat {
    0xffffffffffffffffffffffffffffffffffffffffffffffffffffffffffffffffnat
}

/// `n` capped at the largest 256-bit balance.
pub open spec fn cap256(n: nat) -> nat {
    if n > u256_max() {
        u256_max()
    } else {
        n
    }
}

/// The engine refused to run a transaction: it was inadmissible before any
/// execution began (a value above the caller's balance, creation code over
/// the size limit). The engine's own message text is kept. This is not an
/// execution outcome — a refused transaction never ran.
#[derive(Debug)]
pub struct EngineError {
    pub message: String,
}

impl EngineError {
    /// The engine's message.
    pub fn message(&self) -> (r: &String)
        ensures
            r == &self.message,
    {
        &self.message
    }
}

/// Relies on revm's `CacheDB` over an empty backing database: a fresh cache
/// holds no account, so every balance is zero.
#[verifier::external_body]
fn new_cache_db() -> (r: CacheDB<EmptyDB>)
    ensures
        ledger_of(r) == empty_ledger(),
{
    CacheDB::new(EmptyDB::default())
}

/// Relies on `Address::from_slice`: the address made of exactly these 20
/// bytes.
#[verifier::external_body]
fn address_from_bytes(b: &[u8]) -> (r: Address)
    requires
        b@.len() == 20,
    ensures
        r == addr_of_bytes(b@),
{
    Address::from_slice(b)
}

/// An execution outcome, mutually exclusive and exhaustive: `Success`
/// carries the returned output bytes, `Revert` the revert reason's raw
/// output bytes, `Halt` the fatal runtime condition's reason tag. A revert
/// or halt is an ordinary result value, not an error of this layer.
#[derive(Debug)]
pub enum ExecRes {
    Success(Vec<u8>),
    Revert(Vec<u8>),
    Halt(HaltReason),
}

impl ExecRes {
    /// Whether the outcome is a success.
    pub fn is_success(&self) -> (r: bool)
        ensures
            r == (*self matches ExecRes::Success(_)),
    {
        matches!(self, ExecRes::Success(_))
    }

    /// The output bytes of a success or revert; a halt carries none.
    pub fn output(&self) -> (r: Option<&Vec<u8>>)
        ensures
            match *self {
                ExecRes::Success(b) => (r matches Option::Some(v) && v@ == b@),
                ExecRes::Revert(b) => (r matches Option::Some(v) && v@ == b@),
                ExecRes::Halt(_) => r is None,
            },
    {
        match self {
            ExecRes::Success(b) => Some(b),
            ExecRes::Revert(b) => Some(b),
            ExecRes::Halt(_) => None,
        }
    }
}

/// That a classified outcome is the one the names describe for this call
/// transaction.
pub open spec fn exec_res_named(
    res: ExecRes,
    db: CacheDB<EmptyDB>,
    from: Address,
    to: Address,
    data: Seq<u8>,
    value: u128,
) -> bool {
    match res {
        ExecRes::Success(b) => exec_tag_of(db, from, to, data, value) == 0 && b@ == exec_out_of(
            db,
            from,
            to,
            data,
            value,
        ),
        ExecRes::Revert(b) => exec_tag_of(db, from, to, data, value) == 1 && b@ == exec_out_of(
            db,
            from,
            to,
            data,
            value,
        ),
        ExecRes::Halt(_) => exec_tag_of(db, from, to, data, value) == 2,
    }
}

/// Relies on `TxEnv::default`: the call transaction `(from, to, data,
/// value)` with every other field at its constant default, handed whole to
/// the engine by the wrappers below.
#[verifier::external_body]
fn call_tx(from: Address, to: Address, data: Vec<u8>, value: u128) -> revm::context::TxEnv {
    let mut tx = revm::context::TxEnv::default();
    tx.caller = from;
    tx.kind = TxKind::Call(to);
    tx.data = Bytes::from(data);
    tx.value = U256::from(value);
    tx
}

/// Relies on `TxEnv::default`: the creation transaction `(from, code,
/// value)` with every other field at its constant default, handed whole to
/// the engine by the wrapper below.
#[verifier::external_body]
fn create_tx(from: Address, code: Vec<u8>, value: u128) -> revm::context::TxEnv {
    let mut tx = revm::context::TxEnv::default();
    tx.caller = from;
    tx.kind = TxKind::Create;
    tx.data = Bytes::from(code);
    tx.value = U256::from(value);
    tx
}

/// Relies on revm's `Context::mainnet`/`build_mainnet` and
/// `ExecuteCommitEvm::transact_commit` for a contract-creation transaction.
/// Every environment default is a constant, so the engine's outcome and
/// post-state are functions of the ledger and the arguments alone, named
/// by `create_addr_of` and `create_ledger_after_of`. A refused transaction
/// (`Err` from the engine) was never run and commits nothing; a revert or
/// halt discards its changes, and no fee moves at the zero gas price — so
/// `None` comes with the old balances.
#[verifier::external_body]
fn evm_create(db: &mut CacheDB<EmptyDB>, from: Address, code: Vec<u8>, value: u128) -> (r: Option<
    Address,
>)
    ensures
        r == create_addr_of(*old(db), from, code@, value),
        ledger_of(*final(db)) == create_ledger_after_of(*old(db), from, code@, value),
        r is None ==> create_ledger_after_of(*old(db), from, code@, value) == ledger_of(*old(db)),
{
    let mut evm = Context::mainnet().with_db(core::mem::take(db)).build_mainnet();
    evm.ctx.cfg.disable_nonce_check = true;
    let res = evm.transact_commit(create_tx(from, code, value));
    *db = evm.ctx.journaled_state.database;
    match res {
        Ok(ExecutionResult::Success { output: Output::Create(_, addr), .. }) => addr,
        _ => None,
    }
}

/// Relies on revm's `ExecuteCommitEvm::transact_commit` for a call
/// transaction: the outcome, output and post-state are the named functions
/// of the ledger and the arguments. A refused transaction comes back as an
/// [`EngineError`] and commits nothing; a revert or halt discards its
/// changes and moves no fee at the zero gas price, so a non-success leaves
/// the old balances.
#[verifier::external_body]
fn evm_transact_commit(
    db: &mut CacheDB<EmptyDB>,
    from: Address,
    to: Address,
    data: Vec<u8>,
    value: u128,
) -> (r: Result<ExecRes, EngineError>)
    ensures
        ledger_of(*final(db)) == ledger_after_of(*old(db), from, to, data@, value),
        r is Ok <==> exec_ok_of(*old(db), from, to, data@, value),
        r matches Result::Ok(res) ==> (res matches ExecRes::Success(b) ==> exec_tag_of(
            *old(db),
            from,
            to,
            data@,
            value,
        ) == 0 && b@ == exec_out_of(*old(db), from, to, data@, value)),
        r matches Result::Ok(res) ==> (res matches ExecRes::Revert(b) ==> exec_tag_of(
            *old(db),
            from,
            to,
            data@,
            value,
        ) == 1 && b@ == exec_out_of(*old(db), from, to, data@, value)),
        r matches Result::Ok(res) ==> (res matches ExecRes::Halt(_) ==> exec_tag_of(
            *old(db),
            from,
            to,
            data@,
            value,
        ) == 2),
        !exec_ok_of(*old(db), from, to, data@, value) ==> ledger_after_of(
            *old(db),
            from,
            to,
            data@,
            value,
        ) == ledger_of(*old(db)),
        exec_tag_of(*old(db), from, to, data@, value) != 0 ==> ledger_after_of(
            *old(db),
            from,
            to,
            data@,
            value,
        ) == ledger_of(*old(db)),
{
    let mut evm = Context::mainnet().with_db(core::mem::take(db)).build_mainnet();
    evm.ctx.cfg.disable_nonce_check = true;
    let res = evm.transact_commit(call_tx(from, to, data, value));
    *db = evm.ctx.journaled_state.database;
    match res {
        Ok(ExecutionResult::Success { output, .. }) => Ok(
            ExecRes::Success(output.into_data().to_vec()),
        ),
        Ok(ExecutionResult::Revert { output, .. }) => Ok(ExecRes::Revert(output.to_vec())),
        Ok(ExecutionResult::Halt { reason, .. }) => Ok(ExecRes::Halt(reason)),
        Err(e) => Err(EngineError { message: format!("{e:?}") }),
    }
}

/// Relies on revm's `ExecuteEvm::transact` for a call transaction without
/// a commit: the run is made on a clone of the ledger and its post-state
/// is dropped, so the caller's ledger is untouched. The outcome and output
/// carry the same names as a committing run of the same transaction: the
/// two paths differ only in whether the post-state is written back.
#[verifier::external_body]
fn evm_transact(
    db: &CacheDB<EmptyDB>,
    from: Address,
    to: Address,
    data: Vec<u8>,
    value: u128,
) -> (r: Result<ExecRes, EngineError>)
    ensures
        r is Ok <==> exec_ok_of(*db, from, to, data@, value),
        r matches Result::Ok(res) ==> (res matches ExecRes::Success(b) ==> exec_tag_of(
            *db,
            from,
            to,
            data@,
            value,
        ) == 0 && b@ == exec_out_of(*db, from, to, data@, value)),
        r matches Result::Ok(res) ==> (res matches ExecRes::Revert(b) ==> exec_tag_of(
            *db,
            from,
            to,
            data@,
            value,
        ) == 1 && b@ == exec_out_of(*db, from, to, data@, value)),
        r matches Result::Ok(res) ==> (res matches ExecRes::Halt(_) ==> exec_tag_of(
            *db,
            from,
            to,
            data@,
            value,
        ) == 2),
{
    let mut evm = Context::mainnet().with_db(db.clone()).build_mainnet();
    evm.ctx.cfg.disable_nonce_check = true;
    match evm.transact(call_tx(from, to, data, value)) {
        Ok(out) => match out.result {
            ExecutionResult::Success { output, .. } => Ok(
                ExecRes::Success(output.into_data().to_vec()),
            ),
            ExecutionResult::Revert { output, .. } => Ok(ExecRes::Revert(output.to_vec())),
            ExecutionResult::Halt { reason, .. } => Ok(ExecRes::Halt(reason)),
        },
        Err(e) => Err(EngineError { message: format!("{e:?}") }),
    }
}

/// Relies on `CacheDB::load_account` and `insert_account_info`, with
/// `U256::saturating_add`: the one account's balance is raised by `wad`,
/// capped at the 256-bit maximum, and no other account changes.
/// (Re-inserting the modified info marks the account as existing, as the
/// cache treats a loaded-but-absent account as none.)
#[verifier::external_body]
fn evm_mint(db: &mut CacheDB<EmptyDB>, who: Address, wad: u128)
    ensures
        ledger_of(*final(db)) == ledger_of(*old(db)).insert(
            who,
            cap256((ledger_of(*old(db))[who] + wad) as nat),
        ),
{
    let mut info = db.load_account(who).unwrap().info.clone();
    info.balance = info.balance.saturating_add(U256::from(wad));
    db.insert_account_info(who, info);
}

/// One simulated ledger with one active sender. Not safe for concurrent
/// use: callers needing concurrency take one instance per thread, with no
/// shared state.
pub struct Provider {
    pub db: CacheDB<EmptyDB>,
    /// The active sender
    pub sender: Address,
}

impl Provider {
    /// The balances this provider's ledger holds, as a total map.
    pub closed spec fn ledger(&self) -> Map<Address, nat> {
        ledger_of(self.db)
    }
}

impl Default for Provider {
    /// A fresh, empty ledger — every balance zero — with the zero address
    /// as active sender.
    fn default() -> (r: Provider)
        ensures
            r.ledger() == empty_ledger(),
            r.sender == addr_of_bytes(crate::abi::zeros(20)),
    {
        let zero: Vec<u8> = AbiValueType::sanitize(&[], 20);
        Provider { db: new_cache_db(), sender: address_from_bytes(zero.as_slice()) }
    }
}

impl Provider {
    /// Build and commit a contract-creation transaction from `from`: the
    /// named created address on success, none on a refusal, revert or
    /// halt — and then the ledger is exactly as it was.
    fn deploy_code(&mut self, from: Address, code: Vec<u8>, value: u128) -> (r: Option<Address>)
        ensures
            final(self).sender == old(self).sender,
            r == create_addr_of(old(self).db, from, code@, value),
            final(self).ledger() == create_ledger_after_of(old(self).db, from, code@, value),
            r is None ==> final(self).ledger() == old(self).ledger(),
    {
        evm_create(&mut self.db, from, code, value)
    }

    /// Simulate a call transaction without committing: the provider is
    /// left exactly as it was, and the outcome is the named one.
    fn call_from(&mut self, from: Address, to: Address, data: Vec<u8>, value: u128) -> (r: Result<
        ExecRes,
        EngineError,
    >)
        ensures
            *final(self) == *old(self),
            r is Ok <==> exec_ok_of(old(self).db, from, to, data@, value),
            r matches Result::Ok(res) ==> exec_res_named(res, old(self).db, from, to, data@, value),
    {
        evm_transact(&self.db, from, to, data, value)
    }

    /// Execute a call transaction and permanently commit its state
    /// changes: the ledger becomes the named post-state, which is the old
    /// ledger again whenever the run was refused or did not succeed.
    fn send_from(&mut self, from: Address, to: Address, data: Vec<u8>, value: u128) -> (r: Result<
        ExecRes,
        EngineError,
    >)
        ensures
            final(self).sender == old(self).sender,
            final(self).ledger() == ledger_after_of(old(self).db, from, to, data@, value),
            r is Ok <==> exec_ok_of(old(self).db, from, to, data@, value),
            r matches Result::Ok(res) ==> exec_res_named(res, old(self).db, from, to, data@, value),
            r is Err ==> final(self).ledger() == old(self).ledger(),
            exec_tag_of(old(self).db, from, to, data@, value) != 0 ==> final(self).ledger() == old(self).ledger(),
    {
        evm_transact_commit(&mut self.db, from, to, data, value)
    }

    /// Execute and commit a call carrying data and value from the active
    /// sender.
    pub fn send_data(&mut self, to: Address, data: Vec<u8>, value: u128) -> (r: Result<
        ExecRes,
        EngineError,
    >)
        ensures
            final(self).sender == old(self).sender,
            final(self).ledger() == ledger_after_of(
                old(self).db,
                old(self).sender,
                to,
                data@,
                value,
            ),
            r is Ok <==> exec_ok_of(old(self).db, old(self).sender, to, data@, value),
            r matches Result::Ok(res) ==> exec_res_named(
                res,
                old(self).db,
                old(self).sender,
                to,
                data@,
                value,
            ),
            exec_tag_of(old(self).db, old(self).sender, to, data@, value) != 0 ==> final(self).ledger() == old(self).ledger(),
    {
        let from = self.sender;
        self.send_from(from, to, data, value)
    }

    /// Simulate a constrained query that must not mutate state: nothing is
    /// committed and the provider is left exactly as it was. (That the
    /// callee itself attempts no mutation is the engine's concern, not
    /// this layer's.)
    pub fn staticcall(&mut self, to: Address, data: Vec<u8>) -> (r: Result<ExecRes, EngineError>)
        ensures
            *final(self) == *old(self),
            r is Ok <==> exec_ok_of(old(self).db, old(self).sender, to, data@, 0),
            r matches Result::Ok(res) ==> exec_res_named(
                res,
                old(self).db,
                old(self).sender,
                to,
                data@,
                0,
            ),
    {
        let from = self.sender;
        self.call_from(from, to, data, 0)
    }
}

/// The transaction operations of the frontend, from the active sender.
pub trait Frontend {
    /// Deploy `code`, returning the created address on success.
    fn deploy(&mut self, code: Vec<u8>) -> Option<Address>;

    /// Deploy `code` carrying `value`.
    fn deploy_with_value(&mut self, code: Vec<u8>, value: u128) -> Option<Address>;

    /// Simulate a call without committing.
    fn call(&mut self, to: Address, data: Vec<u8>) -> Result<ExecRes, EngineError>;

    /// Simulate a call carrying `value` without committing.
    fn call_value(&mut self, to: Address, data: Vec<u8>, value: u128) -> Result<
        ExecRes,
        EngineError,
    >;

    /// Send `value` with empty data, committing state changes.
    fn send(&mut self, to: Address, value: u128) -> Result<ExecRes, EngineError>;
}

impl Frontend for Provider {
    fn deploy(&mut self, code: Vec<u8>) -> (r: Option<Address>)
        ensures
            final(self).sender == old(self).sender,
            r == create_addr_of(old(self).db, old(self).sender, code@, 0),
            final(self).ledger() == create_ledger_after_of(
                old(self).db,
                old(self).sender,
                code@,
                0,
            ),
            r is None ==> final(self).ledger() == old(self).ledger(),
    {
        let from = self.sender;
        self.deploy_code(from, code, 0)
    }

    fn deploy_with_value(&mut self, code: Vec<u8>, value: u128) -> (r: Option<Address>)
        ensures
            final(self).sender == old(self).sender,
            r == create_addr_of(old(self).db, old(self).sender, code@, value),
            final(self).ledger() == create_ledger_after_of(
                old(self).db,
                old(self).sender,
                code@,
                value,
            ),
            r is None ==> final(self).ledger() == old(self).ledger(),
    {
        let from = self.sender;
        self.deploy_code(from, code, value)
    }

    fn call(&mut self, to: Address, data: Vec<u8>) -> (r: Result<ExecRes, EngineError>)
        ensures
            *final(self) == *old(self),
            r is Ok <==> exec_ok_of(old(self).db, old(self).sender, to, data@, 0),
            r matches Result::Ok(res) ==> exec_res_named(
                res,
                old(self).db,
                old(self).sender,
                to,
                data@,
                0,
            ),
    {
        let from = self.sender;
        self.call_from(from, to, data, 0)
    }

    fn call_value(&mut self, to: Address, data: Vec<u8>, value: u128) -> (r: Result<
        ExecRes,
        EngineError,
    >)
        ensures
            *final(self) == *old(self),
            r is Ok <==> exec_ok_of(old(self).db, old(self).sender, to, data@, value),
            r matches Result::Ok(res) ==> exec_res_named(
                res,
                old(self).db,
                old(self).sender,
                to,
                data@,
                value,
            ),
    {
        let from = self.sender;
        self.call_from(from, to, data, value)
    }

    fn send(&mut self, to: Address, value: u128) -> (r: Result<ExecRes, EngineError>)
        ensures
            final(self).sender == old(self).sender,
            final(self).ledger() == ledger_after_of(
                old(self).db,
                old(self).sender,
                to,
                Seq::<u8>::empty(),
                value,
            ),
            r is Ok <==> exec_ok_of(old(self).db, old(self).sender, to, Seq::<u8>::empty(), value),
            r matches Result::Ok(res) ==> exec_res_named(
                res,
                old(self).db,
                old(self).sender,
                to,
                Seq::<u8>::empty(),
                value,
            ),
            exec_tag_of(old(self).db, old(self).sender, to, Seq::<u8>::empty(), value) != 0
                ==> final(self).ledger() == old(self).ledger(),
    {
        let from = self.sender;
        let data: Vec<u8> = Vec::new();
        proof {
            assert(data@ =~= Seq::<u8>::empty());
        }
        self.send_from(from, to, data, value)
    }
}

/// Test-only operations that bypass transaction semantics.
pub trait Cheats {
    /// Reassign the active sender for subsequent operations.
    fn impersonate(&mut self, who: Address);

    /// Credit `wad` directly to `who`'s balance.
    fn mint(&mut self, wad: u128, who: Address);
}

impl Cheats for Provider {
    fn impersonate(&mut self, who: Address)
        ensures
            final(self).sender == who,
            final(self).ledger() == old(self).ledger(),
    {
        self.sender = who
    }

    fn mint(&mut self, wad: u128, who: Address)
        ensures
            final(self).sender == old(self).sender,
            final(self).ledger() == old(self).ledger().insert(
                who,
                cap256((old(self).ledger()[who] + wad) as nat),
            ),
    {
        evm_mint(&mut self.db, who, wad)
    }
}

} // verus!
