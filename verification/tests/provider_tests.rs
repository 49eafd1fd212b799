use revm::primitives::Address;
use rustry::constants::{bytes_zero, ether, ADDRESS_ZERO};
use rustry::provider::{Cheats, ExecRes, Frontend, Provider};

// A creation prologue returning a runtime of `len` bytes placed right
// after these 12 bytes.
fn init_code(runtime: &str) -> Vec<u8> {
    let runtime_bytes = hex::decode(runtime).unwrap();
    let len = runtime_bytes.len() as u8;
    let mut code = hex::decode("600c600c600039600c6000f3").unwrap();
    code[1] = len;
    code[8] = len;
    let mut out = code;
    out.extend_from_slice(&runtime_bytes);
    out
}

// A program that unconditionally halts with no output.
fn halting_program() -> Vec<u8> {
    init_code("00")
}

// A non-payable program: reverts on any call value, stops otherwise.
fn non_payable_program() -> Vec<u8> {
    init_code("3415600a5760006000fd5b00")
}

// A single-slot store: a 32-byte calldata word sets the slot; any other
// call returns it.
fn simple_store_program() -> Vec<u8> {
    init_code("3660201460125760005460005260206000f35b60003560005500")
}

// A counter: any non-empty calldata increments slot zero; an empty call
// returns it.
fn counter_program() -> Vec<u8> {
    init_code("36600f5760005460005260206000f35b60016000540160005500")
}

#[test]
fn deploy_halting_program_and_call_it() {
    let mut provider = Provider::default();
    let addr = provider.deploy(halting_program()).expect("deployment should succeed");
    assert_ne!(addr, Address::ZERO);
    match provider.call(addr, vec![]).unwrap() {
        ExecRes::Success(output) => assert!(output.is_empty()),
        other => panic!("expected an empty success, got {other:?}"),
    }
}

#[test]
fn non_payable_call_without_value_succeeds() {
    let mut provider = Provider::default();
    let addr = provider.deploy(non_payable_program()).unwrap();
    assert!(provider.call(addr, vec![0]).unwrap().is_success());
}

#[test]
fn non_payable_send_with_value_reverts() {
    let mut provider = Provider::default();
    provider.mint(ether(), Address::ZERO);
    let addr = provider.deploy(non_payable_program()).unwrap();
    let res = provider.send(addr, 10).unwrap();
    assert!(!res.is_success());
    assert!(matches!(res, ExecRes::Revert(_)));
}

#[test]
fn single_slot_store_returns_exactly_what_was_set() {
    let mut provider = Provider::default();
    let addr = provider.deploy(simple_store_program()).unwrap();

    // a value at the very top of the 256-bit range: no high-order byte may
    // be dropped
    let mut value = vec![0xffu8; 32];
    value[31] = 0xfe;
    let res = provider.send_data(addr, value.clone(), 0).unwrap();
    assert!(res.is_success(), "setter failed: {res:?}");

    match provider.staticcall(addr, vec![]).unwrap() {
        ExecRes::Success(out) => assert_eq!(out, value),
        other => panic!("expected the stored word back, got {other:?}"),
    }

    let small = {
        let mut v = vec![0u8; 32];
        v[31] = 0x2a;
        v
    };
    assert!(provider.send_data(addr, small.clone(), 0).unwrap().is_success());
    match provider.staticcall(addr, vec![]).unwrap() {
        ExecRes::Success(out) => assert_eq!(out, small),
        other => panic!("expected the stored word back, got {other:?}"),
    }
}

#[test]
fn counter_increments_monotonically() {
    let mut provider = Provider::default();
    let addr = provider.deploy(counter_program()).unwrap();

    let read = |provider: &mut Provider| -> u8 {
        match provider.staticcall(addr, vec![]).unwrap() {
            ExecRes::Success(out) => {
                assert_eq!(out.len(), 32);
                assert!(out[..31].iter().all(|b| *b == 0));
                out[31]
            },
            other => panic!("expected a word, got {other:?}"),
        }
    };

    assert_eq!(read(&mut provider), 0);
    assert!(provider.send_data(addr, vec![1], 0).unwrap().is_success());
    assert_eq!(read(&mut provider), 1);
    // an idempotent read between writes changes nothing
    assert_eq!(read(&mut provider), 1);
    assert!(provider.send_data(addr, vec![1], 0).unwrap().is_success());
    assert_eq!(read(&mut provider), 2);
}

#[test]
fn call_does_not_commit_state() {
    let mut provider = Provider::default();
    let addr = provider.deploy(counter_program()).unwrap();
    // a non-committing call runs the increment but discards it
    assert!(provider.call(addr, vec![1]).unwrap().is_success());
    match provider.staticcall(addr, vec![]).unwrap() {
        ExecRes::Success(out) => assert_eq!(out[31], 0),
        other => panic!("expected a word, got {other:?}"),
    }
}

#[test]
fn identical_calls_agree() {
    let mut provider = Provider::default();
    let addr = provider.deploy(counter_program()).unwrap();
    // call simulates without committing, so two identical calls see the
    // same ledger and return the same outcome
    let first = provider.call(addr, vec![]).unwrap();
    let second = provider.call(addr, vec![]).unwrap();
    match (first, second) {
        (ExecRes::Success(a), ExecRes::Success(b)) => assert_eq!(a, b),
        other => panic!("expected two equal successes, got {other:?}"),
    }
}

#[test]
fn refused_transaction_is_a_value_not_a_panic() {
    let mut provider = Provider::default();
    let sink = Address::from_slice(&[9u8; 20]);
    // a value above the sender's balance is refused by the engine before
    // any execution: it comes back as a structured error
    let err = provider.send(sink, 5).expect_err("an unfunded transfer must be refused");
    assert!(!err.message.is_empty());
    // the refusal committed nothing: after funding, the same transfer runs
    provider.mint(ether(), Address::ZERO);
    assert!(provider.send(sink, 5).unwrap().is_success());
    // the same refusal as a simulation is also a value
    let mut broke = Provider::default();
    assert!(broke.call_value(sink, vec![], 10).is_err());
}

#[test]
fn impersonate_reassigns_the_sender() {
    let mut provider = Provider::default();
    assert_eq!(provider.sender, Address::ZERO);
    let other = Address::from_slice(&[7u8; 20]);
    provider.impersonate(other);
    assert_eq!(provider.sender, other);
    // operations keep the active sender
    let addr = provider.deploy(halting_program()).unwrap();
    assert_eq!(provider.sender, other);
    provider.call(addr, vec![]).unwrap();
    assert_eq!(provider.sender, other);
}

#[test]
fn mint_funds_an_account() {
    let mut provider = Provider::default();
    provider.mint(ether(), Address::ZERO);
    // the freshly minted balance covers a value transfer to a plain account
    let sink = Address::from_slice(&[9u8; 20]);
    let res = provider.send(sink, 5).unwrap();
    assert!(res.is_success(), "value transfer failed: {res:?}");
}

#[test]
fn deploy_with_value_funds_the_contract() {
    let mut provider = Provider::default();
    provider.mint(ether(), Address::ZERO);
    let addr = provider.deploy_with_value(halting_program(), 7).unwrap();
    assert_ne!(addr, Address::ZERO);
}

#[test]
fn unfunded_deploy_with_value_returns_none() {
    let mut provider = Provider::default();
    // the engine refuses the creation before running it; deploy reports no
    // address and the ledger is left as it was
    assert!(provider.deploy_with_value(halting_program(), 7).is_none());
    provider.mint(ether(), Address::ZERO);
    assert!(provider.deploy_with_value(halting_program(), 7).is_some());
}

#[test]
fn call_value_to_non_payable_reverts_without_committing() {
    let mut provider = Provider::default();
    provider.mint(ether(), Address::ZERO);
    let addr = provider.deploy(non_payable_program()).unwrap();
    let res = provider.call_value(addr, vec![], 10).unwrap();
    assert!(matches!(res, ExecRes::Revert(_)));
    // the simulation committed nothing: the same value is still there to send
    assert!(provider.call(addr, vec![]).unwrap().is_success());
}

#[test]
fn constants_shapes() {
    assert_eq!(ether(), 1_000_000_000_000_000_000u128);
    assert_eq!(bytes_zero(), vec![0u8; 32]);
    assert_eq!(ADDRESS_ZERO, [0u8; 20]);
    assert_eq!(Address::from_slice(&ADDRESS_ZERO), Address::ZERO);
}
