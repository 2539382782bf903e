use sensor_client::keymap::lookup;

fn all_mapped_names() -> Vec<String> {
    let mut names: Vec<String> = Vec::new();
    for d in '0'..='9' {
        names.push(d.to_string());
    }
    for l in 'A'..='Z' {
        names.push(l.to_string());
    }
    for f in 1..=12 {
        names.push(format!("F{}", f));
    }
    for n in [
        "Escape",
        "`",
        "Space",
        "Return",
        "Left Alt",
        "Left Ctrl",
        "Left Shift",
        "Backspace",
        "Tab",
        "CapsLock",
    ] {
        names.push(n.to_string());
    }
    names
}

#[test]
fn digits_letters() {
    assert_eq!(lookup("0"), Some(0));
    assert_eq!(lookup("9"), Some(9));
    assert_eq!(lookup("A"), Some(10));
    assert_eq!(lookup("Q"), Some(26));
    assert_eq!(lookup("X"), Some(33));
    assert_eq!(lookup("Z"), Some(35));
}

#[test]
fn function_keys() {
    assert_eq!(lookup("F1"), Some(36));
    assert_eq!(lookup("F2"), Some(37));
    assert_eq!(lookup("F9"), Some(44));
    assert_eq!(lookup("F10"), Some(45));
    assert_eq!(lookup("F11"), Some(46));
    assert_eq!(lookup("F12"), Some(47));
}

#[test]
fn named_keys() {
    assert_eq!(lookup("Escape"), Some(48));
    assert_eq!(lookup("`"), Some(49));
    assert_eq!(lookup("Space"), Some(50));
    assert_eq!(lookup("Return"), Some(51));
    assert_eq!(lookup("Left Alt"), Some(53));
    assert_eq!(lookup("Left Ctrl"), Some(55));
    assert_eq!(lookup("Left Shift"), Some(56));
    assert_eq!(lookup("Backspace"), Some(57));
    assert_eq!(lookup("Tab"), Some(58));
    assert_eq!(lookup("CapsLock"), Some(59));
}

#[test]
fn unmapped_names_are_not_errors() {
    assert_eq!(lookup(""), None);
    assert_eq!(lookup("a"), None);
    assert_eq!(lookup("F0"), None);
    assert_eq!(lookup("F13"), None);
    assert_eq!(lookup("Right Ctrl"), None);
    assert_eq!(lookup("Esc"), None);
    assert_eq!(lookup("Space "), None);
}

#[test]
fn indices_unique_and_in_range() {
    let names = all_mapped_names();
    let mut seen: Vec<(String, u8)> = Vec::new();
    for name in names {
        let idx = lookup(&name).unwrap_or_else(|| panic!("{} should be mapped", name));
        assert!(idx <= 59, "{} -> {} out of range", name, idx);
        for (other, prev) in &seen {
            assert_ne!(*prev, idx, "{} and {} share index {}", other, name, idx);
        }
        seen.push((name, idx));
    }
    assert_eq!(seen.len(), 58);
}
