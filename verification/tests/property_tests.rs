use pot_ledger::contract::{
    execute, execute_create_pot, execute_withdraw_pot, instantiate, query_fees, query_owner,
    query_pot,
};
use pot_ledger::decimal::u128_to_decimal;
use pot_ledger::error::ContractError;
use pot_ledger::msg::{DepositNotification, ExecuteMsg, InstantiateMsg, QueryMsg, ReceiveMsg};
use pot_ledger::state::{ContractFees, PotStore};

fn notification(amount: u128) -> DepositNotification {
    DepositNotification {
        sender: String::from("cw20"),
        amount,
        msg: ReceiveMsg::Send { id: 1 },
    }
}

fn deposit(pots: &mut PotStore, target_1: &str, target_2: &str, amount: u128) {
    let sender = String::from("usei");
    execute_create_pot(
        pots,
        &sender,
        String::from(target_1),
        String::from(target_2),
        notification(amount),
    )
    .unwrap();
}

#[test]
fn split_gives_each_pot_half_rounded_down() {
    for amount in [1u128, 2, 3, 7, 100, 999, 1000] {
        let mut pots = PotStore::new();
        deposit(&mut pots, "alice", "bob", amount);
        let half = amount / 2;
        let a = query_pot(&pots, &String::from("alice")).unwrap();
        let b = query_pot(&pots, &String::from("bob")).unwrap();
        assert_eq!(a.collected, u128_to_decimal(half));
        assert_eq!(b.collected, u128_to_decimal(half));
        assert!(2 * half <= amount);
    }
}

#[test]
fn create_with_zero_amount_fails_with_no_amount() {
    let mut pots = PotStore::new();
    let sender = String::from("usei");
    let res = execute_create_pot(
        &mut pots,
        &sender,
        String::from("alice"),
        String::from("bob"),
        notification(0),
    );
    assert_eq!(res, Err(ContractError::NoAmount));
    assert_eq!(
        query_pot(&pots, &String::from("alice")),
        Err(ContractError::PotNotFound)
    );
}

#[test]
fn create_from_unrecognized_source_fails_with_wrong_token() {
    let mut pots = PotStore::new();
    let sender = String::from("mallory");
    let res = execute_create_pot(
        &mut pots,
        &sender,
        String::from("alice"),
        String::from("bob"),
        notification(1000),
    );
    assert_eq!(res, Err(ContractError::WrongToken));
    assert_eq!(
        query_pot(&pots, &String::from("alice")),
        Err(ContractError::PotNotFound)
    );
}

#[test]
fn partial_withdrawal_leaves_remainder_and_accrues_fee() {
    let mut pots = PotStore::new();
    let mut fees = ContractFees { collected: 0 };
    deposit(&mut pots, "alice", "bob", 1000);
    // collected = 500, withdraw 250: fee floor(250/100) = 2, payout 248
    let alice = String::from("alice");
    let instr = execute_withdraw_pot(&mut pots, &mut fees, &alice, 250).unwrap();
    assert_eq!(instr.recipient, "alice");
    assert_eq!(instr.amount, 248);
    assert_eq!(fees.collected, 2);
    assert_eq!(query_pot(&pots, &alice).unwrap().collected, "250");
}

#[test]
fn full_withdrawal_deletes_the_pot() {
    let mut pots = PotStore::new();
    let mut fees = ContractFees { collected: 0 };
    deposit(&mut pots, "alice", "bob", 1000);
    let alice = String::from("alice");
    let instr = execute_withdraw_pot(&mut pots, &mut fees, &alice, 500).unwrap();
    assert_eq!(instr.amount, 495);
    assert_eq!(fees.collected, 5);
    assert_eq!(query_pot(&pots, &alice), Err(ContractError::PotNotFound));
    // the other pot is untouched
    assert_eq!(query_pot(&pots, &String::from("bob")).unwrap().collected, "500");
}

#[test]
fn overdraw_fails_with_wrong_amount_and_changes_nothing() {
    let mut pots = PotStore::new();
    let mut fees = ContractFees { collected: 7 };
    deposit(&mut pots, "alice", "bob", 1000);
    let alice = String::from("alice");
    let res = execute_withdraw_pot(&mut pots, &mut fees, &alice, 501);
    assert_eq!(res, Err(ContractError::WrongAmount));
    assert_eq!(fees.collected, 7);
    assert_eq!(query_pot(&pots, &alice).unwrap().collected, "500");
}

#[test]
fn withdrawal_without_a_pot_fails_with_pot_not_found() {
    let mut pots = PotStore::new();
    let mut fees = ContractFees { collected: 0 };
    deposit(&mut pots, "alice", "bob", 1000);
    let nobody = String::from("nobody");
    let res = execute_withdraw_pot(&mut pots, &mut fees, &nobody, 1);
    assert_eq!(res, Err(ContractError::PotNotFound));
    assert_eq!(fees.collected, 0);
}

#[test]
fn fees_never_decrease_across_a_sequence_of_operations() {
    let (_config, mut fees) = instantiate(String::from("creator"), InstantiateMsg { owner: None });
    let mut pots = PotStore::new();
    let mut trace = vec![fees.collected];
    let usei = String::from("usei");
    let steps: Vec<ExecuteMsg> = vec![
        ExecuteMsg::CreatePot {
            target_addr_1: String::from("alice"),
            target_addr_2: String::from("bob"),
            receive_msg: notification(1000),
        },
        ExecuteMsg::WithdrawPot { amount: 2000 },
        ExecuteMsg::CreatePot {
            target_addr_1: String::from("max"),
            target_addr_2: String::from("jane"),
            receive_msg: notification(0),
        },
        ExecuteMsg::WithdrawPot { amount: 400 },
        ExecuteMsg::WithdrawPot { amount: 100 },
    ];
    for msg in steps.into_iter() {
        // creations come from the token source, withdrawals from the pot owner
        let sender = if matches!(msg, ExecuteMsg::CreatePot { .. }) {
            usei.clone()
        } else {
            String::from("alice")
        };
        let _ = execute(&mut pots, &mut fees, &sender, msg);
        trace.push(fees.collected);
    }
    for w in trace.windows(2) {
        assert!(w[0] <= w[1]);
    }
}

#[test]
fn scenario_deposit_split_between_alice_and_bob() {
    let mut pots = PotStore::new();
    deposit(&mut pots, "alice", "bob", 1000);
    assert_eq!(query_pot(&pots, &String::from("alice")).unwrap().collected, "500");
    assert_eq!(query_pot(&pots, &String::from("bob")).unwrap().collected, "500");
}

#[test]
fn scenario_alice_withdraws_a_hundred() {
    let mut pots = PotStore::new();
    let mut fees = ContractFees { collected: 0 };
    deposit(&mut pots, "alice", "bob", 1000);
    let alice = String::from("alice");
    let instr = execute_withdraw_pot(&mut pots, &mut fees, &alice, 100).unwrap();
    assert_eq!(query_pot(&pots, &alice).unwrap().collected, "400");
    assert_eq!(fees.collected, 1);
    assert_eq!(instr.amount, 99);
}

#[test]
fn scenario_bob_withdraws_his_full_balance() {
    let mut pots = PotStore::new();
    let mut fees = ContractFees { collected: 0 };
    deposit(&mut pots, "alice", "bob", 1000);
    let bob = String::from("bob");
    execute_withdraw_pot(&mut pots, &mut fees, &bob, 100).unwrap();
    assert_eq!(query_pot(&pots, &bob).unwrap().collected, "400");
    let fees_before = fees.collected;
    // withdrawing exactly the full balance closes the account
    execute_withdraw_pot(&mut pots, &mut fees, &bob, 400).unwrap();
    assert_eq!(query_pot(&pots, &bob), Err(ContractError::PotNotFound));
    assert_eq!(fees.collected, fees_before + 4);
}

#[test]
fn scenario_query_both_pots_after_a_small_deposit() {
    let mut pots = PotStore::new();
    deposit(&mut pots, "max", "jane", 100);
    let max = query_pot(&pots, &String::from("max")).unwrap();
    let jane = query_pot(&pots, &String::from("jane")).unwrap();
    assert_eq!(max.target_addr, "max");
    assert_eq!(max.collected, "50");
    assert_eq!(jane.target_addr, "jane");
    assert_eq!(jane.collected, "50");
}

#[test]
fn creating_a_pot_for_an_occupied_key_discards_its_prior_balance() {
    // Known hazard, preserved from the ledger's rules: a new deposit naming an
    // account that already holds a pot silently replaces that pot.
    let mut pots = PotStore::new();
    deposit(&mut pots, "alice", "bob", 1000);
    deposit(&mut pots, "alice", "carol", 100);
    assert_eq!(query_pot(&pots, &String::from("alice")).unwrap().collected, "50");
    assert_eq!(query_pot(&pots, &String::from("carol")).unwrap().collected, "50");
    assert_eq!(query_pot(&pots, &String::from("bob")).unwrap().collected, "500");
}

#[test]
fn creating_a_pot_with_both_targets_equal_leaves_one_pot() {
    let mut pots = PotStore::new();
    deposit(&mut pots, "dave", "dave", 100);
    assert_eq!(query_pot(&pots, &String::from("dave")).unwrap().collected, "50");
}

#[test]
fn withdrawing_zero_from_a_positive_pot_keeps_it() {
    let mut pots = PotStore::new();
    let mut fees = ContractFees { collected: 0 };
    deposit(&mut pots, "alice", "bob", 1000);
    let alice = String::from("alice");
    let instr = execute_withdraw_pot(&mut pots, &mut fees, &alice, 0).unwrap();
    assert_eq!(instr.amount, 0);
    assert_eq!(fees.collected, 0);
    assert_eq!(query_pot(&pots, &alice).unwrap().collected, "500");
}

#[test]
fn withdrawing_zero_from_an_empty_pot_closes_it() {
    // an odd one-unit deposit leaves two pots holding zero
    let mut pots = PotStore::new();
    let mut fees = ContractFees { collected: 0 };
    deposit(&mut pots, "alice", "bob", 1);
    let alice = String::from("alice");
    assert_eq!(query_pot(&pots, &alice).unwrap().collected, "0");
    execute_withdraw_pot(&mut pots, &mut fees, &alice, 0).unwrap();
    assert_eq!(query_pot(&pots, &alice), Err(ContractError::PotNotFound));
}

#[test]
fn decimal_rendering_matches_the_standard_one() {
    for n in [0u128, 1, 9, 10, 11, 99, 100, 12345, u128::MAX] {
        assert_eq!(u128_to_decimal(n), format!("{}", n));
    }
}

#[test]
fn owner_and_fee_reads_return_the_stored_values() {
    let (config, fees) = instantiate(
        String::from("creator"),
        InstantiateMsg { owner: Some(String::from("boss")) },
    );
    assert_eq!(query_owner(&config).owner, "boss");
    assert_eq!(query_fees(&fees).collected, 0);
}
