use sg1::checked_fair_burn;
use sg1::coins;
use sg1::emit;
use sg1::fair_burn;
use sg1::BankMsg;
use sg1::Coin;
use sg1::CosmosMsg;
use sg1::FeeConfig;
use sg1::FeeError;
use sg1::PaymentError;
use sg1::PaymentInfo;
use sg1::Response;

fn payment(funds: Vec<Coin>) -> PaymentInfo {
    PaymentInfo { sender: "payer".to_string(), funds }
}

fn ustars(amount: u128) -> Vec<Coin> {
    coins(amount, "ustars")
}

#[test]
fn check_fair_burn_no_dev_rewards() {
    let plan = fair_burn(1000u128, None);
    let mut res = Response::new();
    emit(plan, &mut res);

    let burn_msg = CosmosMsg::Bank(BankMsg::Burn { amount: ustars(500) });
    assert_eq!(res.messages.len(), 2);
    assert_eq!(res.messages[0], burn_msg);
}

#[test]
fn check_fair_burn_with_dev_rewards() {
    let plan = fair_burn(1000u128, Some("geordi".to_string()));
    let mut res = Response::new();
    emit(plan, &mut res);

    let bank_msg = CosmosMsg::Bank(BankMsg::Send {
        to_address: "geordi".to_string(),
        amount: ustars(100),
    });
    let burn_msg = CosmosMsg::Bank(BankMsg::Burn { amount: ustars(400) });
    assert_eq!(res.messages.len(), 3);
    assert_eq!(res.messages[0], bank_msg);
    assert_eq!(res.messages[1], burn_msg);
}

#[test]
fn check_fair_burn_with_dev_rewards_different_amount() {
    let plan = fair_burn(1420u128, Some("geordi".to_string()));
    assert_eq!(plan.developer_amount, 142);
    assert_eq!(plan.burn_amount, 568);
    assert_eq!(plan.treasury_amount, 710);

    let mut res = Response::new();
    emit(plan, &mut res);

    let bank_msg = CosmosMsg::Bank(BankMsg::Send {
        to_address: "geordi".to_string(),
        amount: ustars(142),
    });
    let burn_msg = CosmosMsg::Bank(BankMsg::Burn { amount: ustars(568) });
    assert_eq!(res.messages.len(), 3);
    assert_eq!(res.messages[0], bank_msg);
    assert_eq!(res.messages[1], burn_msg);
}

#[test]
fn conservation_on_sample_fees() {
    for fee in [0u128, 1, 3, 99, 100, 101, 1000, 1419, 1420, u128::MAX] {
        let no_dev = fair_burn(fee, None);
        assert_eq!(
            no_dev.burn_amount + no_dev.developer_amount + no_dev.treasury_amount,
            fee
        );
        let with_dev = fair_burn(fee, Some("geordi".to_string()));
        assert_eq!(
            with_dev.burn_amount + with_dev.developer_amount + with_dev.treasury_amount,
            fee
        );
    }
}

#[test]
fn no_developer_means_no_developer_amount() {
    for fee in [0u128, 7, 1000, 123_456_789] {
        let plan = fair_burn(fee, None);
        assert_eq!(plan.developer_amount, 0);
        assert_eq!(plan.developer, None);
    }
}

#[test]
fn fair_burn_is_pure() {
    let first = fair_burn(1420, Some("geordi".to_string()));
    let second = fair_burn(1420, Some("geordi".to_string()));
    assert_eq!(first, second);

    let third = fair_burn(999, None);
    let fourth = fair_burn(999, None);
    assert_eq!(third, fourth);
}

#[test]
fn checked_fair_burn_insufficient_fee() {
    let info = payment(ustars(999));
    let r = checked_fair_burn(&info, 1000, None);
    assert_eq!(r, Err(FeeError::InsufficientFee(1000, 999)));
}

#[test]
fn checked_fair_burn_success_splits_the_fee() {
    let info = payment(ustars(1000));
    let plan = checked_fair_burn(&info, 1000, None).unwrap();
    assert_eq!(plan.burn_amount, 500);
    assert_eq!(plan.developer_amount, 0);
    assert_eq!(plan.treasury_amount, 500);
}

#[test]
fn checked_fair_burn_excess_is_not_distributed() {
    let info = payment(ustars(5000));
    let plan = checked_fair_burn(&info, 1000, Some("geordi".to_string())).unwrap();
    assert_eq!(plan.developer_amount, 100);
    assert_eq!(plan.burn_amount, 400);
    assert_eq!(plan.treasury_amount, 500);
}

#[test]
fn checked_fair_burn_no_funds() {
    let info = payment(vec![]);
    let r = checked_fair_burn(&info, 1000, None);
    assert_eq!(r, Err(FeeError::Payment(PaymentError::NoFunds)));
}

#[test]
fn checked_fair_burn_zero_amount_coin_is_no_funds() {
    let info = payment(ustars(0));
    let r = checked_fair_burn(&info, 1000, None);
    assert_eq!(r, Err(FeeError::Payment(PaymentError::NoFunds)));
}

#[test]
fn checked_fair_burn_multiple_denoms() {
    let mut funds = ustars(1000);
    funds.append(&mut coins(50, "earth"));
    let info = payment(funds);
    let r = checked_fair_burn(&info, 1000, None);
    assert_eq!(r, Err(FeeError::Payment(PaymentError::MultipleDenoms)));
}

#[test]
fn checked_fair_burn_wrong_denom() {
    let info = payment(coins(1000, "earth"));
    let r = checked_fair_burn(&info, 1000, None);
    assert_eq!(
        r,
        Err(FeeError::Payment(PaymentError::MissingDenom(
            "ustars".to_string()
        )))
    );
}

#[test]
fn checked_fair_burn_zero_fee_succeeds() {
    let info = payment(ustars(1));
    let plan = checked_fair_burn(&info, 0, None).unwrap();
    assert_eq!(plan.burn_amount, 0);
    assert_eq!(plan.developer_amount, 0);
    assert_eq!(plan.treasury_amount, 0);
}

#[test]
fn fee_config_rejects_bad_percentages() {
    assert!(FeeConfig::new(50, 10).is_some());
    assert!(FeeConfig::new(100, 99).is_some());
    assert!(FeeConfig::new(50, 50).is_none());
    assert!(FeeConfig::new(10, 50).is_none());
    assert!(FeeConfig::new(101, 5).is_none());
}

#[test]
fn custom_config_splits_accordingly() {
    let config = FeeConfig::new(80, 20).unwrap();
    let plan = config.fair_burn(100, Some("geordi".to_string()));
    assert_eq!(plan.developer_amount, 20);
    assert_eq!(plan.burn_amount, 60);
    assert_eq!(plan.treasury_amount, 20);
}
