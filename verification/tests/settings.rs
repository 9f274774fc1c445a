use pfwx::http::{HttpClientConfigEx, HttpClientRuntimeConfig, HttpForm, MAX_CONCURRENCY};
use pfwx::mqtt::{MqttConfigEx, PublishPlan};
use pfwx::retcode::{RetCode, RetCodeError};

#[test]
fn return_codes_have_their_numbers() {
    assert_eq!(RetCode::OK.to_value(), 0);
    assert_eq!(RetCode::PREVENT.to_value(), 1);
    assert_eq!(RetCode::FAILED.to_value(), -1);
    assert_eq!(RetCode::CANCELLED.to_value(), -2);
    assert_eq!(RetCode::E_DATA_NOT_FOUND.to_value(), -17);
    assert_eq!(RetCode::E_RETRY.to_value(), -33);
    assert_eq!(RetCode::E_NO_SUPPORT.to_value(), -2000);
    assert_eq!(RetCode::E_NO_IMPLEMENTATION.to_value(), -2001);
    assert_eq!(RetCode::UNKNOWN.to_value(), -4000);
}

#[test]
fn every_number_in_range_finds_its_code_again() {
    let mut found = 0;
    for value in -4100..=100 {
        if let Some(code) = RetCode::lookup(value) {
            assert_eq!(code.to_value(), value);
            found += 1;
        }
    }
    assert_eq!(found, 38);
}

#[test]
fn return_code_from_the_host() {
    assert_eq!(RetCode::from_value(None), Err(RetCodeError::WrongNumArgs));
    assert_eq!(RetCode::from_value(Some(None)), Ok(RetCode::OK));
    assert_eq!(RetCode::from_value(Some(Some(-24))), Ok(RetCode::E_TIME_OUT));
    assert_eq!(RetCode::from_value(Some(Some(-34))), Err(RetCodeError::Unknown(-34)));
    assert_eq!(RetCode::from_value(Some(Some(2))), Err(RetCodeError::Unknown(2)));
}

#[test]
fn return_code_from_a_result() {
    let ok: Result<u8, String> = Ok(1);
    let err: Result<u8, String> = Err("no".to_string());
    assert_eq!(RetCode::from(ok), RetCode::OK);
    assert_eq!(RetCode::from(err), RetCode::FAILED);
}

#[test]
fn concurrency_is_at_least_one() {
    let mut cfg = HttpClientConfigEx::default();
    assert_eq!(cfg.max_concurrency, 16);
    assert_eq!(MAX_CONCURRENCY, 16);
    cfg.concurrency(0);
    assert_eq!(cfg.max_concurrency, 1);
    cfg.concurrency(64);
    assert_eq!(cfg.max_concurrency, 64);
    assert!(HttpClientRuntimeConfig::default().guarantee_order);
}

#[test]
fn form_keeps_the_last_value_of_a_name() {
    let mut form = HttpForm::default();
    form.field("a".to_string(), "1".to_string());
    form.field("b".to_string(), "2".to_string());
    form.field("a".to_string(), "3".to_string());
    let fields = form.build();
    assert_eq!(fields, vec![("a".to_string(), "3".to_string()), ("b".to_string(), "2".to_string())]);
    assert_eq!(form.build(), vec![]);
}

#[test]
fn publish_plan_by_connection_and_waiting() {
    let plain = MqttConfigEx::default();
    assert!(!plain.offline_queue);
    assert_eq!(plain.publish_plan(false, true), PublishPlan::Send);
    assert_eq!(plain.publish_plan(true, true), PublishPlan::Send);
    assert_eq!(plain.publish_plan(true, false), PublishPlan::Refuse);
    let waiting = MqttConfigEx { offline_queue: true };
    assert_eq!(waiting.publish_plan(true, true), PublishPlan::Send);
    assert_eq!(waiting.publish_plan(false, true), PublishPlan::Queue);
    assert_eq!(waiting.publish_plan(true, false), PublishPlan::Queue);
}
