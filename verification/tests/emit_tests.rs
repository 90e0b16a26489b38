use sg1::coins;
use sg1::emit;
use sg1::fair_burn;
use sg1::BankMsg;
use sg1::CosmosMsg;
use sg1::Response;
use sg1::StargazeMsg;
use sg1::StargazeRoute;

#[test]
fn emit_orders_developer_burn_treasury() {
    let plan = fair_burn(1000, Some("geordi".to_string()));
    let mut res = Response::new();
    let event = emit(plan, &mut res);

    assert_eq!(res.messages.len(), 3);
    assert_eq!(
        res.messages[0],
        CosmosMsg::Bank(BankMsg::Send {
            to_address: "geordi".to_string(),
            amount: coins(100, "ustars"),
        })
    );
    assert_eq!(
        res.messages[1],
        CosmosMsg::Bank(BankMsg::Burn { amount: coins(400, "ustars") })
    );
    match &res.messages[2] {
        CosmosMsg::Custom(wrapper) => {
            assert_eq!(wrapper.route, StargazeRoute::Distribution);
            assert_eq!(wrapper.version, "1.0.0");
            assert_eq!(
                wrapper.msg_data,
                StargazeMsg::FundCommunityPool { amount: coins(500, "ustars") }
            );
        }
        other => panic!("expected a community-pool message, got {:?}", other),
    }

    assert_eq!(event.burn_amount, 400);
    assert_eq!(event.dev, Some("geordi".to_string()));
    assert_eq!(event.dev_amount, Some(100));
    assert_eq!(event.dist_amount, 500);
}

#[test]
fn emit_suppresses_zero_amounts() {
    // A fee of 1 with a developer rounds both the incentive and the burn down
    // to zero: only the treasury transfer is emitted.
    let plan = fair_burn(1, Some("geordi".to_string()));
    assert_eq!(plan.developer_amount, 0);
    assert_eq!(plan.burn_amount, 0);
    assert_eq!(plan.treasury_amount, 1);

    let mut res = Response::new();
    let event = emit(plan, &mut res);
    assert_eq!(res.messages.len(), 1);
    match &res.messages[0] {
        CosmosMsg::Custom(wrapper) => {
            assert_eq!(wrapper.route, StargazeRoute::Distribution);
        }
        other => panic!("expected a community-pool message, got {:?}", other),
    }
    assert_eq!(event.dev_amount, Some(0));
}

#[test]
fn emit_zero_fee_emits_nothing() {
    let plan = fair_burn(0, None);
    let mut res = Response::new();
    let event = emit(plan, &mut res);
    assert_eq!(res.messages.len(), 0);
    assert_eq!(event.burn_amount, 0);
    assert_eq!(event.dev, None);
    assert_eq!(event.dev_amount, None);
    assert_eq!(event.dist_amount, 0);
}

#[test]
fn emit_appends_after_existing_instructions() {
    let mut res = Response::new();
    emit(fair_burn(1000, None), &mut res);
    assert_eq!(res.messages.len(), 2);

    emit(fair_burn(200, None), &mut res);
    assert_eq!(res.messages.len(), 4);
    assert_eq!(
        res.messages[0],
        CosmosMsg::Bank(BankMsg::Burn { amount: coins(500, "ustars") })
    );
    assert_eq!(
        res.messages[2],
        CosmosMsg::Bank(BankMsg::Burn { amount: coins(100, "ustars") })
    );
}
