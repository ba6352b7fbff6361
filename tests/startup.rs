use disable_keys::registry::KeyRegistry;
use disable_keys::startup::{has_list_flag, plan, Startup, EXIT_INVALID_INPUT, EXIT_OK};

fn strings(items: &[&str]) -> Vec<String> {
    items.iter().map(|s| s.to_string()).collect()
}

#[test]
fn no_arguments_ask_for_usage() {
    let reg = KeyRegistry::standard();
    let p = plan(&reg, &Vec::new());
    assert!(matches!(p, Startup::Usage));
    assert_eq!(p.exit_status(), Some(EXIT_INVALID_INPUT));
    assert_eq!(EXIT_INVALID_INPUT, 1);
}

#[test]
fn only_invalid_tokens_fail_before_interception() {
    let reg = KeyRegistry::standard();
    let p = plan(&reg, &strings(&["FOO", "BAR123"]));
    assert_eq!(p.exit_status(), Some(1));
    match p {
        Startup::NoValidKeys(invalid) => assert_eq!(invalid, vec![0, 1]),
        _ => panic!("expected a refusal"),
    }
}

#[test]
fn list_flag_lists_every_name_once() {
    let reg = KeyRegistry::standard();
    let p = plan(&reg, &strings(&["--list-keys"]));
    assert_eq!(p.exit_status(), Some(EXIT_OK));
    assert_eq!(EXIT_OK, 0);
    match p {
        Startup::ListKeys(names) => {
            assert_eq!(names, reg.names());
            assert_eq!(names.len(), 154);
            let mut sorted = names.clone();
            sorted.sort();
            sorted.dedup();
            assert_eq!(sorted.len(), names.len());
        }
        _ => panic!("expected the listing"),
    }
}

#[test]
fn list_flag_wins_anywhere_among_keys() {
    let reg = KeyRegistry::standard();
    let p = plan(&reg, &strings(&["A", "--list-keys", "zzz"]));
    assert!(matches!(p, Startup::ListKeys(_)));
    assert!(has_list_flag(&strings(&["x", "--list-keys"])));
    assert!(!has_list_flag(&strings(&["--LIST-KEYS", "list-keys"])));
    assert!(!has_list_flag(&Vec::new()));
}

#[test]
fn mixed_tokens_intercept_two_keys() {
    let reg = KeyRegistry::standard();
    let p = plan(&reg, &strings(&["win_l", "SLEEP", "zzz"]));
    assert_eq!(p.exit_status(), None);
    match p {
        Startup::Intercept(res) => {
            assert_eq!(res.set.len(), 2);
            assert!(res.set.contains(0x5B));
            assert!(res.set.contains(0x5F));
            assert_eq!(res.invalid, vec![2]);
        }
        _ => panic!("expected interception"),
    }
}
