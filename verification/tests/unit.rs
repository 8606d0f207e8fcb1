use std::collections::HashMap;
use std::str::FromStr;

use affiliate_swap::coin::Coin;
use affiliate_swap::contract::{ActiveSwap, AffiliateSwap};
use affiliate_swap::decimal::Decimal;
use affiliate_swap::error::ContractError;
use affiliate_swap::msg::{
    AddressValidation, BankMsg, CosmosMsg, Env, MessageInfo, MsgSwapExactAmountIn, Reply,
    ReplyOn, Response, SubMsgResponse, SubMsgResult, SwapAmountInRoute, SwapResponse,
};
use cosmwasm_std::testing::{mock_env, MockApi};
use cosmwasm_std::Api;
use osmosis_std::types::osmosis::poolmanager::v1beta1::MsgSwapExactAmountInResponse;

fn decimal(text: &str) -> Decimal {
    Decimal::raw(cosmwasm_std::Decimal::from_str(text).unwrap().atomics().u128())
}

fn validate(address: &str) -> AddressValidation {
    match MockApi::default().addr_validate(address) {
        Ok(_) => AddressValidation::Valid,
        Err(e) => AddressValidation::Invalid { reason: e.to_string() },
    }
}

fn env() -> Env {
    Env { contract_address: mock_env().contract.address.into_string() }
}

fn setup_unit(fee: Option<Decimal>) -> AffiliateSwap {
    let mut affiliate_swap = AffiliateSwap::new();
    // instantiate contract
    affiliate_swap.instantiate(fee).unwrap();
    affiliate_swap
}

fn remove_active_swap(contract: &mut AffiliateSwap) {
    *contract = AffiliateSwap::restore(contract.max_fee_percentage(), None).unwrap();
}

const SENDER: &str = "sender";
const COLLECTOR: &str = "collector";

fn simple_execute(contract: &mut AffiliateSwap, amount: u128, fee: Option<Decimal>) -> Response {
    contract
        .swap(
            env(),
            MessageInfo { sender: SENDER.to_string(), funds: vec![Coin::new(amount, "uosmo")] },
            vec![SwapAmountInRoute { pool_id: 1, token_out_denom: "uion".to_string() }],
            Coin::new(1, "uion"),
            fee,
            COLLECTOR.to_string(),
            validate(COLLECTOR),
        )
        .unwrap()
}

fn is_valid_swap_msg(msg: &CosmosMsg, token_in: Coin) -> bool {
    match msg {
        CosmosMsg::Swap(swap_msg) => {
            let basic = swap_msg.sender == env().contract_address
                && swap_msg.routes
                    == vec![SwapAmountInRoute { pool_id: 1, token_out_denom: "uion".to_string() }]
                && swap_msg.token_out_min_amount == 1;
            basic && swap_msg.token_in == token_in
        }
        _ => false,
    }
}

fn is_valid_bank_send_msg(msg: &CosmosMsg, receiver: &str, amount: u128, denom: &str) -> bool {
    match msg {
        CosmosMsg::Bank(BankMsg::Send { to_address, amount: coins }) => {
            to_address == receiver
                && coins.len() == 1
                && coins[0].amount == amount
                && coins[0].denom == denom
        }
        _ => false,
    }
}

#[test]
fn unit_test_fee_calculation() {
    let mut contract = setup_unit(Some(decimal("5")));

    // No fee set, no fee taken
    let res = simple_execute(&mut contract, 100, None);
    assert_eq!(res.messages.len(), 1);
    assert!(is_valid_swap_msg(&res.messages[0].msg, Coin::new(100, "uosmo")));

    // delete the active swap. This would normally be handled by the reply
    remove_active_swap(&mut contract);

    // Fee 1%, swap 99%
    let res = simple_execute(&mut contract, 100, Some(decimal("1")));
    assert_eq!(res.messages.len(), 2);
    assert!(is_valid_bank_send_msg(&res.messages[0].msg, COLLECTOR, 1u128, "uosmo"));
    assert!(is_valid_swap_msg(&res.messages[1].msg, Coin::new(99, "uosmo")),);

    remove_active_swap(&mut contract);

    // Fee 10%, defaults to max: 5%
    let res = simple_execute(&mut contract, 100, Some(decimal("10")));
    assert_eq!(res.messages.len(), 2);
    assert!(is_valid_bank_send_msg(&res.messages[0].msg, COLLECTOR, 5u128, "uosmo"));
    assert!(is_valid_swap_msg(&res.messages[1].msg, Coin::new(95, "uosmo")));

    remove_active_swap(&mut contract);

    // Non-int fee
    let res = simple_execute(&mut contract, 1000, Some(decimal("1.7")));
    assert_eq!(res.messages.len(), 2);
    assert!(is_valid_bank_send_msg(&res.messages[0].msg, COLLECTOR, 17u128, "uosmo"));
    assert!(is_valid_swap_msg(&res.messages[1].msg, Coin::new(983, "uosmo")));

    remove_active_swap(&mut contract);

    // Edge cases

    // low amounts send amount: no fee taken
    let res = simple_execute(&mut contract, 1, Some(decimal("1")));
    assert_eq!(res.messages.len(), 1);
    assert!(is_valid_swap_msg(&res.messages[0].msg, Coin::new(1, "uosmo")));
    remove_active_swap(&mut contract);

    // Fee rounds to less than one: no fee taken
    let res = simple_execute(&mut contract, 9, Some(decimal("10")));
    assert_eq!(res.messages.len(), 1);
    assert!(is_valid_swap_msg(&res.messages[0].msg, Coin::new(9, "uosmo")));
    remove_active_swap(&mut contract);

    // Fee rounds to at least one: fee taken
    let res = simple_execute(&mut contract, 20, Some(decimal("5")));
    assert_eq!(res.messages.len(), 2);
    assert!(is_valid_bank_send_msg(&res.messages[0].msg, COLLECTOR, 1u128, "uosmo"));
    assert!(is_valid_swap_msg(&res.messages[1].msg, Coin::new(19, "uosmo")));
    remove_active_swap(&mut contract);

    // Max uint amount
    let res = simple_execute(&mut contract, u128::MAX, Some(decimal("5")));
    assert_eq!(res.messages.len(), 2);
    let fee = (cosmwasm_std::Uint128::MAX
        * (cosmwasm_std::Decimal::from_str("5")
            .unwrap()
            .checked_div(cosmwasm_std::Decimal::from_str("100").unwrap())
            .unwrap()))
    .u128();
    assert!(is_valid_bank_send_msg(&res.messages[0].msg, COLLECTOR, fee, "uosmo"));
    assert!(is_valid_swap_msg(&res.messages[1].msg, Coin::new(u128::MAX - fee, "uosmo")));
    remove_active_swap(&mut contract);
}

fn swap_reply_data(amount: u128) -> Vec<u8> {
    let data: cosmwasm_std::Binary =
        MsgSwapExactAmountInResponse { token_out_amount: amount.to_string() }.into();
    data.to_vec()
}

fn simple_reply(contract: &mut AffiliateSwap, amount: u128) -> Response {
    contract
        .reply(Reply {
            id: 1,
            result: SubMsgResult::Success(SubMsgResponse { data: Some(swap_reply_data(amount)) }),
        })
        .unwrap()
}

#[test]
fn test_reply() {
    let mut contract = setup_unit(Some(decimal("5")));

    simple_execute(&mut contract, 100, Some(decimal("1")));
    let res = simple_reply(&mut contract, 98);

    assert_eq!(res.messages.len(), 1);
    assert_eq!(
        res.messages[0].msg,
        CosmosMsg::Bank(BankMsg::Send {
            to_address: SENDER.to_string(),
            amount: vec![Coin::new(98, "uion")],
        })
    );
    assert_eq!(res.messages[0].reply_on, ReplyOn::Never);

    // The active swap has been deleted
    assert!(contract.active_swap().is_none());

    // get the event
    let event = res.events.iter().find(|e| e.ty == "affiliate_swap").unwrap();

    let event_attributes = event
        .attributes
        .iter()
        .map(|a| (a.key.clone(), a.value.clone()))
        .collect::<HashMap<_, _>>();
    assert_eq!(event_attributes["sender"], SENDER);
    assert_eq!(event_attributes["swap_token_in"], "99uosmo");
    assert_eq!(event_attributes["token_out"], "98uion");
    assert_eq!(event_attributes["fee"], "1uosmo");

    // check data
    let response: SwapResponse = res.data.unwrap();
    assert_eq!(
        response,
        SwapResponse {
            original_sender: SENDER.to_string(),
            fee: 1_u128,
            fee_collector: COLLECTOR.to_string(),
            swap_in_denom: "uosmo".to_string(),
            swap_in_amount: 99_u128,
            token_out_denom: "uion".to_string(),
            token_out_amount: 98_u128,
        }
    );
}

#[test]
fn test_bad_reply() {
    let mut contract = setup_unit(Some(decimal("5")));
    simple_execute(&mut contract, 100, Some(decimal("1")));
    contract
        .reply(Reply {
            id: 1,
            result: SubMsgResult::Failure("Any error should do here".to_string()),
        })
        .unwrap_err();
}

#[test]
fn swap_records_the_pending_swap() {
    let mut contract = setup_unit(Some(decimal("5")));
    simple_execute(&mut contract, 100, Some(decimal("1")));
    let expected = ActiveSwap {
        original_sender: SENDER.to_string(),
        fee: Coin::new(1, "uosmo"),
        fee_collector: COLLECTOR.to_string(),
        swap_msg: MsgSwapExactAmountIn {
            sender: env().contract_address,
            routes: vec![SwapAmountInRoute { pool_id: 1, token_out_denom: "uion".to_string() }],
            token_in: Coin::new(99, "uosmo"),
            token_out_min_amount: 1,
        },
    };
    assert_eq!(contract.active_swap(), Some(&expected));
    assert_eq!(contract.max_fee_percentage(), Some(decimal("5")));
}

#[test]
fn swap_schedules_the_fee_transfer_before_the_swap() {
    let mut contract = setup_unit(Some(decimal("5")));
    let res = simple_execute(&mut contract, 100, Some(decimal("1")));
    assert_eq!(res.messages.len(), 2);
    assert_eq!(res.messages[0].id, 0);
    assert_eq!(res.messages[0].reply_on, ReplyOn::Never);
    assert_eq!(res.messages[1].id, 1);
    assert_eq!(res.messages[1].reply_on, ReplyOn::Always);
    assert_eq!(res.attributes.len(), 1);
    assert_eq!(res.attributes[0].key, "method");
    assert_eq!(res.attributes[0].value, "swap");
    assert!(res.events.is_empty());
    assert!(res.data.is_none());
}

#[test]
fn second_swap_is_refused_while_one_is_pending() {
    let mut contract = setup_unit(Some(decimal("5")));
    simple_execute(&mut contract, 100, Some(decimal("1")));
    let before = contract.active_swap().cloned();

    // whatever the second call brings, valid or not
    let err = contract
        .swap(
            env(),
            MessageInfo { sender: "other".to_string(), funds: vec![Coin::new(7, "uion")] },
            vec![],
            Coin::new(3, "uosmo"),
            None,
            "someone".to_string(),
            validate("someone"),
        )
        .unwrap_err();
    assert_eq!(err, ContractError::ActiveSwapExists {});
    let err = contract
        .swap(
            env(),
            MessageInfo { sender: SENDER.to_string(), funds: vec![] },
            vec![],
            Coin::new(1, "uion"),
            Some(decimal("99")),
            String::new(),
            validate(""),
        )
        .unwrap_err();
    assert_eq!(err, ContractError::ActiveSwapExists {});
    assert_eq!(contract.active_swap().cloned(), before);
}

#[test]
fn swap_after_completion_is_admitted_again() {
    let mut contract = setup_unit(Some(decimal("5")));
    simple_execute(&mut contract, 100, Some(decimal("1")));
    simple_reply(&mut contract, 98);
    let res = simple_execute(&mut contract, 200, Some(decimal("1")));
    assert_eq!(res.messages.len(), 2);
    assert!(is_valid_bank_send_msg(&res.messages[0].msg, COLLECTOR, 2u128, "uosmo"));
    assert!(is_valid_swap_msg(&res.messages[1].msg, Coin::new(198, "uosmo")));
}

#[test]
fn swap_with_invalid_collector_fails_and_persists_nothing() {
    let mut contract = setup_unit(Some(decimal("5")));
    let verdict = validate("x");
    assert!(matches!(verdict, AddressValidation::Invalid { .. }));
    let reason = match &verdict {
        AddressValidation::Invalid { reason } => reason.clone(),
        AddressValidation::Valid => unreachable!(),
    };
    let err = contract
        .swap(
            env(),
            MessageInfo { sender: SENDER.to_string(), funds: vec![Coin::new(100, "uosmo")] },
            vec![],
            Coin::new(1, "uion"),
            None,
            "x".to_string(),
            verdict,
        )
        .unwrap_err();
    assert_eq!(err, ContractError::Std { msg: reason });
    assert!(contract.active_swap().is_none());
}

#[test]
fn swap_checks_the_payment_before_the_collector() {
    let mut contract = setup_unit(None);
    let err = contract
        .swap(
            env(),
            MessageInfo {
                sender: SENDER.to_string(),
                funds: vec![Coin::new(1, "uosmo"), Coin::new(1, "uion")],
            },
            vec![],
            Coin::new(1, "uion"),
            None,
            "x".to_string(),
            validate("x"),
        )
        .unwrap_err();
    assert_eq!(
        err,
        ContractError::Payment(affiliate_swap::error::PaymentError::MultipleDenoms {})
    );
    assert!(contract.active_swap().is_none());
}

#[test]
fn swap_before_initialization_fails() {
    let mut contract = AffiliateSwap::new();
    let err = contract
        .swap(
            env(),
            MessageInfo { sender: SENDER.to_string(), funds: vec![Coin::new(100, "uosmo")] },
            vec![],
            Coin::new(1, "uion"),
            None,
            COLLECTOR.to_string(),
            validate(COLLECTOR),
        )
        .unwrap_err();
    assert_eq!(err, ContractError::Std { msg: "max fee percentage not found".to_string() });
    assert!(contract.active_swap().is_none());
    assert_eq!(
        contract.get_max_fee_percentage().unwrap_err(),
        ContractError::Std { msg: "max fee percentage not found".to_string() }
    );
}

#[test]
fn failed_completion_reports_the_reason_and_clears_the_swap() {
    let mut contract = setup_unit(Some(decimal("5")));
    simple_execute(&mut contract, 100, Some(decimal("1")));
    let err = contract
        .reply(Reply { id: 1, result: SubMsgResult::Failure("slippage exceeded".to_string()) })
        .unwrap_err();
    assert_eq!(err, ContractError::FailedSwap { reason: "slippage exceeded".to_string() });
    assert_eq!(err.to_string(), "Swap failed: slippage exceeded");
    assert!(contract.active_swap().is_none());
    assert_eq!(contract.max_fee_percentage(), Some(decimal("5")));
}

#[test]
fn completion_without_pending_swap_is_unexpected() {
    let mut contract = setup_unit(None);
    let err = contract
        .reply(Reply {
            id: 1,
            result: SubMsgResult::Success(SubMsgResponse { data: Some(swap_reply_data(98)) }),
        })
        .unwrap_err();
    assert_eq!(err, ContractError::Unexpected {});
    let err = contract
        .reply(Reply { id: 1, result: SubMsgResult::Failure("late".to_string()) })
        .unwrap_err();
    assert_eq!(err, ContractError::Unexpected {});
}

#[test]
fn completion_without_payload_fails_and_clears_the_swap() {
    let mut contract = setup_unit(Some(decimal("5")));
    simple_execute(&mut contract, 100, Some(decimal("1")));
    let err = contract
        .reply(Reply { id: 1, result: SubMsgResult::Success(SubMsgResponse { data: None }) })
        .unwrap_err();
    assert_eq!(err, ContractError::Std { msg: "swap reply carries no data".to_string() });
    assert!(contract.active_swap().is_none());
}

#[test]
fn completion_with_malformed_payload_fails_and_clears_the_swap() {
    let mut contract = setup_unit(Some(decimal("5")));
    simple_execute(&mut contract, 100, Some(decimal("1")));
    let err = contract
        .reply(Reply {
            id: 1,
            result: SubMsgResult::Success(SubMsgResponse { data: Some(vec![0xff, 0xff, 0xff]) }),
        })
        .unwrap_err();
    assert!(matches!(err, ContractError::Std { .. }));
    assert!(contract.active_swap().is_none());
}

#[test]
fn completion_of_a_swap_without_route_is_unexpected() {
    let mut contract = setup_unit(Some(decimal("5")));
    contract
        .swap(
            env(),
            MessageInfo { sender: SENDER.to_string(), funds: vec![Coin::new(100, "uosmo")] },
            vec![],
            Coin::new(1, "uion"),
            Some(decimal("1")),
            COLLECTOR.to_string(),
            validate(COLLECTOR),
        )
        .unwrap();
    let err = contract
        .reply(Reply {
            id: 1,
            result: SubMsgResult::Success(SubMsgResponse { data: Some(swap_reply_data(98)) }),
        })
        .unwrap_err();
    assert_eq!(err, ContractError::Unexpected {});
    assert!(contract.active_swap().is_none());
}

#[test]
fn completion_pays_out_in_the_denomination_of_the_last_hop() {
    let mut contract = setup_unit(Some(decimal("5")));
    contract
        .swap(
            env(),
            MessageInfo { sender: SENDER.to_string(), funds: vec![Coin::new(100, "uosmo")] },
            vec![
                SwapAmountInRoute { pool_id: 1, token_out_denom: "uion".to_string() },
                SwapAmountInRoute { pool_id: 2, token_out_denom: "uatom".to_string() },
            ],
            Coin::new(1, "uatom"),
            Some(decimal("1")),
            COLLECTOR.to_string(),
            validate(COLLECTOR),
        )
        .unwrap();
    let res = simple_reply(&mut contract, 12345);
    assert_eq!(
        res.messages[0].msg,
        CosmosMsg::Bank(BankMsg::Send {
            to_address: SENDER.to_string(),
            amount: vec![Coin::new(12345, "uatom")],
        })
    );
    assert_eq!(res.events[0].attributes[3].key, "token_out");
    assert_eq!(res.events[0].attributes[3].value, "12345uatom");
}

#[test]
fn fee_that_floors_to_zero_schedules_the_swap_alone() {
    let mut contract = setup_unit(Some(decimal("10")));
    let res = simple_execute(&mut contract, 9, Some(decimal("10")));
    assert_eq!(res.messages.len(), 1);
    assert!(is_valid_swap_msg(&res.messages[0].msg, Coin::new(9, "uosmo")));
    assert_eq!(res.messages[0].id, 1);
    assert_eq!(res.messages[0].reply_on, ReplyOn::Always);
    let pending = contract.active_swap().unwrap();
    assert_eq!(pending.fee, Coin::new(0, "uosmo"));
    assert_eq!(pending.swap_msg.token_in, Coin::new(9, "uosmo"));
}

#[test]
fn deposit_of_one_hundred_at_one_percent_runs_to_completion() {
    let mut contract = setup_unit(Some(decimal("5")));
    let res = simple_execute(&mut contract, 100, Some(decimal("1")));
    assert_eq!(res.messages.len(), 2);
    assert_eq!(
        res.messages[0].msg,
        CosmosMsg::Bank(BankMsg::Send {
            to_address: COLLECTOR.to_string(),
            amount: vec![Coin::new(1, "uosmo")],
        })
    );
    assert!(is_valid_swap_msg(&res.messages[1].msg, Coin::new(99, "uosmo")));

    let res = simple_reply(&mut contract, 98);
    assert_eq!(res.messages.len(), 1);
    assert_eq!(
        res.messages[0].msg,
        CosmosMsg::Bank(BankMsg::Send {
            to_address: SENDER.to_string(),
            amount: vec![Coin::new(98, "uion")],
        })
    );
    assert!(contract.active_swap().is_none());
    let attributes: Vec<(&str, &str)> = res.events[0]
        .attributes
        .iter()
        .map(|a| (a.key.as_str(), a.value.as_str()))
        .collect();
    assert_eq!(
        attributes,
        vec![
            ("sender", SENDER),
            ("swap_token_in", "99uosmo"),
            ("fee", "1uosmo"),
            ("token_out", "98uion"),
        ]
    );
}

#[test]
fn swap_without_funds_fails_and_persists_nothing() {
    let mut contract = setup_unit(Some(decimal("5")));
    let err = contract
        .swap(
            env(),
            MessageInfo { sender: SENDER.to_string(), funds: vec![] },
            vec![SwapAmountInRoute { pool_id: 1, token_out_denom: "uion".to_string() }],
            Coin::new(1, "uion"),
            Some(decimal("1")),
            COLLECTOR.to_string(),
            validate(COLLECTOR),
        )
        .unwrap_err();
    assert_eq!(
        err,
        ContractError::Payment(affiliate_swap::error::PaymentError::NoFunds {})
    );
    assert_eq!(err.to_string(), "No funds sent");
    assert!(contract.active_swap().is_none());
    assert_eq!(contract, setup_unit(Some(decimal("5"))));
}
