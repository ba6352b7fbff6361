use disable_keys::registry::{standard_keys, KeyRegistry};

#[test]
fn resolves_letters_and_digits() {
    let reg = KeyRegistry::standard();
    assert_eq!(reg.resolve("A"), Some(0x41));
    assert_eq!(reg.resolve("Z"), Some(0x5A));
    assert_eq!(reg.resolve("0"), Some(0x30));
    assert_eq!(reg.resolve("9"), Some(0x39));
}

#[test]
fn resolves_named_keys() {
    let reg = KeyRegistry::standard();
    assert_eq!(reg.resolve("WIN_L"), Some(0x5B));
    assert_eq!(reg.resolve("SLEEP"), Some(0x5F));
    assert_eq!(reg.resolve("F24"), Some(0x87));
    assert_eq!(reg.resolve("PROCESSKEY"), Some(0xE5));
    assert_eq!(reg.resolve("NUMPAD_DIVIDE"), Some(0x6F));
}

#[test]
fn resolution_ignores_case() {
    let reg = KeyRegistry::standard();
    for name in reg.names() {
        let lower = name.to_lowercase();
        let normalized = KeyRegistry::normalize_case(&lower);
        assert_eq!(normalized, name);
        assert_eq!(reg.resolve(&normalized), reg.resolve(&lower));
        assert_eq!(reg.resolve(&lower), reg.resolve(name));
        assert!(reg.resolve(name).is_some());
    }
    assert_eq!(reg.resolve("win_l"), Some(0x5B));
    assert_eq!(reg.resolve("Media_Play_Pause"), Some(0xB3));
}

#[test]
fn normalize_case_uppercases() {
    assert_eq!(KeyRegistry::normalize_case("page_up"), "PAGE_UP");
    assert_eq!(KeyRegistry::normalize_case(""), "");
}

#[test]
fn canonical_lookup_is_exact() {
    let reg = KeyRegistry::standard();
    assert_eq!(reg.resolve_normalized("ESC"), Some(0x1B));
    assert_eq!(reg.resolve_normalized("esc"), None);
}

#[test]
fn unknown_tokens_do_not_resolve() {
    let reg = KeyRegistry::standard();
    assert_eq!(reg.resolve("FOO"), None);
    assert_eq!(reg.resolve("BAR123"), None);
    assert_eq!(reg.resolve("zzz"), None);
    assert_eq!(reg.resolve(""), None);
    assert_eq!(reg.resolve("F25"), None);
}

#[test]
fn names_are_listed_once_in_table_order() {
    let reg = KeyRegistry::standard();
    let names = reg.names();
    let table = standard_keys();
    assert_eq!(names.len(), table.len());
    assert_eq!(names.len(), 154);
    for (i, (name, code)) in table.iter().enumerate() {
        assert_eq!(names[i], *name);
        assert_eq!(reg.resolve(name), Some(*code));
    }
    for i in 0..names.len() {
        for j in (i + 1)..names.len() {
            assert_ne!(names[i], names[j]);
        }
    }
    assert_eq!(names[0], "A");
    assert_eq!(names[names.len() - 1], "PROCESSKEY");
}

#[test]
fn repeated_name_keeps_first_place_and_last_code() {
    let table = vec![("X", 1), ("Y", 2), ("X", 3)];
    let reg = KeyRegistry::from_table(&table);
    assert_eq!(reg.names(), vec!["X", "Y"]);
    assert_eq!(reg.resolve("x"), Some(3));
    assert_eq!(reg.resolve("y"), Some(2));
}

#[test]
fn empty_table_gives_empty_registry() {
    let reg = KeyRegistry::from_table(&Vec::new());
    assert!(reg.names().is_empty());
    assert_eq!(reg.resolve("A"), None);
}

#[test]
fn list_all_pairs_names_with_codes() {
    let reg = KeyRegistry::standard();
    let all = reg.list_all();
    assert_eq!(all, standard_keys());
    assert_eq!(all[0], ("A", 0x41));
    assert_eq!(all[all.len() - 1], ("PROCESSKEY", 0xE5));
    let small = KeyRegistry::from_table(&vec![("Q", 7), ("R", 8), ("Q", 9)]);
    assert_eq!(small.list_all(), vec![("Q", 9), ("R", 8)]);
}
