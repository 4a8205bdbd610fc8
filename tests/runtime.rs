use state_machine::balances;
use state_machine::proof_of_existence;
use state_machine::runtime::{Block, Extrinsic, Header, Runtime, RuntimeCall};
use state_machine::support::{Dispatch, INVALID_BLOCK_NUMBER, NOT_ENOUGH_FUNDS};

fn transfer(caller: &str, to: &str, amount: u128) -> Extrinsic {
    Extrinsic {
        caller: caller.to_string(),
        call: RuntimeCall::Balances(balances::Call::Transfer { to: to.to_string(), amount }),
    }
}

fn create_claim(caller: &str, claim: &str) -> Extrinsic {
    Extrinsic {
        caller: caller.to_string(),
        call: RuntimeCall::ProofOfExistence(proof_of_existence::Call::CreateClaim {
            claim: claim.to_string(),
        }),
    }
}

fn block(block_number: u32, extrinsics: Vec<Extrinsic>) -> Block {
    Block { header: Header { block_number }, extrinsics }
}

fn alice_funded() -> Runtime {
    let mut runtime = Runtime::new();
    runtime.balances.set_balance(&"alice".to_string(), 100);
    runtime.balances.set_balance(&"bob".to_string(), 0);
    runtime
}

#[test]
fn first_block_applies_in_order() {
    let mut runtime = alice_funded();
    let b1 = block(1, vec![transfer("alice", "bob", 30), create_claim("alice", "x")]);
    assert_eq!(runtime.execute_block(b1), Ok(()));
    assert_eq!(runtime.balances.balance(&"alice".to_string()), 70);
    assert_eq!(runtime.balances.balance(&"bob".to_string()), 30);
    assert_eq!(
        runtime.proof_of_existence.get_claim(&"x".to_string()),
        Some(&"alice".to_string())
    );
    assert_eq!(runtime.system.block_number(), 1);
    assert_eq!(runtime.system.nonce(&"alice".to_string()), 2);
}

#[test]
fn second_block_builds_on_the_first() {
    let mut runtime = alice_funded();
    let b1 = block(1, vec![transfer("alice", "bob", 30), create_claim("alice", "x")]);
    assert_eq!(runtime.execute_block(b1), Ok(()));
    let b2 = block(2, vec![transfer("alice", "charlie", 20)]);
    assert_eq!(runtime.execute_block(b2), Ok(()));
    assert_eq!(runtime.balances.balance(&"alice".to_string()), 50);
    assert_eq!(runtime.balances.balance(&"charlie".to_string()), 20);
    assert_eq!(runtime.balances.balance(&"bob".to_string()), 30);
    assert_eq!(runtime.system.block_number(), 2);
    assert_eq!(runtime.system.nonce(&"alice".to_string()), 3);
}

#[test]
fn failing_extrinsic_does_not_stop_the_block() {
    let mut runtime = alice_funded();
    let b1 = block(1, vec![transfer("bob", "alice", 5), create_claim("carol", "doc")]);
    let outcomes = runtime.execute_block_reporting(b1);
    assert_eq!(outcomes, Ok(vec![Err(NOT_ENOUGH_FUNDS), Ok(())]));
    assert_eq!(runtime.balances.balance(&"alice".to_string()), 100);
    assert_eq!(runtime.balances.balance(&"bob".to_string()), 0);
    assert_eq!(
        runtime.proof_of_existence.get_claim(&"doc".to_string()),
        Some(&"carol".to_string())
    );
    assert_eq!(runtime.system.nonce(&"bob".to_string()), 1);
    assert_eq!(runtime.system.nonce(&"carol".to_string()), 1);

    let b2 = block(2, vec![transfer("bob", "alice", 5), transfer("alice", "dave", 1)]);
    assert_eq!(runtime.execute_block(b2), Ok(()));
    assert_eq!(runtime.balances.balance(&"dave".to_string()), 1);
    assert_eq!(runtime.balances.balance(&"alice".to_string()), 99);
}

#[test]
fn wrong_block_number_changes_nothing() {
    let mut runtime = alice_funded();
    let b = block(2, vec![transfer("alice", "bob", 30)]);
    assert_eq!(runtime.execute_block(b), Err(INVALID_BLOCK_NUMBER));
    let b = block(0, vec![transfer("alice", "bob", 30)]);
    assert_eq!(runtime.execute_block(b), Err(INVALID_BLOCK_NUMBER));
    assert_eq!(runtime.system.block_number(), 0);
    assert_eq!(runtime.system.nonce(&"alice".to_string()), 0);
    assert_eq!(runtime.balances.balance(&"alice".to_string()), 100);

    let b = block(1, vec![]);
    assert_eq!(runtime.execute_block(b), Ok(()));
    let b = block(1, vec![transfer("alice", "bob", 30)]);
    assert_eq!(runtime.execute_block(b), Err(INVALID_BLOCK_NUMBER));
    assert_eq!(runtime.system.block_number(), 1);
    assert_eq!(runtime.system.nonce(&"alice".to_string()), 0);
    assert_eq!(runtime.balances.balance(&"bob".to_string()), 0);
}

#[test]
fn empty_block_only_advances_the_number() {
    let mut runtime = alice_funded();
    assert_eq!(runtime.execute_block_reporting(block(1, vec![])), Ok(vec![]));
    assert_eq!(runtime.system.block_number(), 1);
    assert_eq!(runtime.balances.balance(&"alice".to_string()), 100);
    assert_eq!(runtime.system.nonce(&"alice".to_string()), 0);
}

#[test]
fn dependent_extrinsics_in_one_block() {
    let mut runtime = alice_funded();
    let b1 = block(1, vec![transfer("alice", "bob", 60), transfer("bob", "carol", 50)]);
    assert_eq!(runtime.execute_block_reporting(b1), Ok(vec![Ok(()), Ok(())]));
    assert_eq!(runtime.balances.balance(&"alice".to_string()), 40);
    assert_eq!(runtime.balances.balance(&"bob".to_string()), 10);
    assert_eq!(runtime.balances.balance(&"carol".to_string()), 50);
}

#[test]
fn runtime_dispatch_routes_to_the_owner() {
    let mut runtime = alice_funded();
    let call = RuntimeCall::Balances(balances::Call::Transfer { to: "bob".to_string(), amount: 1 });
    assert_eq!(runtime.dispatch("alice".to_string(), call), Ok(()));
    let call = RuntimeCall::ProofOfExistence(proof_of_existence::Call::RevokeClaim {
        claim: "nothing".to_string(),
    });
    assert_eq!(runtime.dispatch("alice".to_string(), call), Err("Claim not existing"));
    assert_eq!(runtime.balances.balance(&"bob".to_string()), 1);
    assert_eq!(runtime.system.nonce(&"alice".to_string()), 0);
}
