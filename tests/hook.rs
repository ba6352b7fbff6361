use disable_keys::hook::{HookCall, Verdict, KEY_DOWN_MESSAGE, KEY_UP_MESSAGE};
use disable_keys::registry::KeyRegistry;
use disable_keys::suppression::SuppressionSet;

fn set_of(items: &[&str]) -> SuppressionSet {
    let reg = KeyRegistry::standard();
    let tokens: Vec<String> = items.iter().map(|s| s.to_string()).collect();
    SuppressionSet::build(&reg, &tokens).set
}

#[test]
fn press_of_suppressed_key_is_consumed() {
    let set = set_of(&["WIN_L"]);
    let call = HookCall { stage: 0, w_param: KEY_DOWN_MESSAGE, l_param: 1234 };
    assert_eq!(set.intercept(call, 0x5B), Verdict::Consume);
}

#[test]
fn release_of_suppressed_key_is_forwarded() {
    let set = set_of(&["WIN_L"]);
    let call = HookCall { stage: 0, w_param: KEY_UP_MESSAGE, l_param: 1234 };
    assert_eq!(set.intercept(call, 0x5B), Verdict::Forward(call));
}

#[test]
fn other_keys_are_forwarded_unchanged() {
    let set = set_of(&["WIN_L"]);
    let down = HookCall { stage: 0, w_param: KEY_DOWN_MESSAGE, l_param: -7 };
    let up = HookCall { stage: 0, w_param: KEY_UP_MESSAGE, l_param: 99 };
    match set.intercept(down, 0x41) {
        Verdict::Forward(c) => {
            assert_eq!(c.stage, 0);
            assert_eq!(c.w_param, KEY_DOWN_MESSAGE);
            assert_eq!(c.l_param, -7);
        }
        Verdict::Consume => panic!("a key outside the set was consumed"),
    }
    assert_eq!(set.intercept(up, 0x41), Verdict::Forward(up));
}

#[test]
fn negative_stage_is_forwarded_without_reading() {
    let set = set_of(&["WIN_L"]);
    let call = HookCall { stage: -1, w_param: KEY_DOWN_MESSAGE, l_param: 0 };
    assert!(!call.reads_payload());
    assert_eq!(set.intercept(call, 0x5B), Verdict::Forward(call));
    let real = HookCall { stage: 0, w_param: KEY_DOWN_MESSAGE, l_param: 0 };
    assert!(real.reads_payload());
}

#[test]
fn system_key_press_is_consumed() {
    let set = set_of(&["SYSKEY_UNKNOWN", "SLEEP"]);
    let call = HookCall { stage: 0, w_param: KEY_DOWN_MESSAGE, l_param: 0 };
    assert_eq!(set.intercept(call, 0x5F), Verdict::Consume);
    let other = HookCall { stage: 0, w_param: 0x0104, l_param: 0 };
    assert_eq!(set.intercept(other, 0x5F), Verdict::Forward(other));
}
