use korean::keyboard::{display_name, KeyboardInfo, KeyboardRegistry};

fn info(id: &str, name: &str) -> KeyboardInfo {
    KeyboardInfo {
        id: id.to_string(),
        name: name.to_string(),
    }
}

#[test]
fn test_display_name_from_comment() {
    assert_eq!(
        display_name("# name:   Two Set  \nq: ㅂ\n").as_deref(),
        Some("Two Set")
    );
    assert_eq!(
        display_name("\n# a comment\n  # name: Indented\n").as_deref(),
        Some("Indented")
    );
}

#[test]
fn test_display_name_stops_at_first_entry() {
    assert_eq!(display_name("q: ㅂ\n# name: Late\n"), None);
    assert_eq!(display_name("#name: no space\n"), None);
    assert_eq!(display_name(""), None);
}

#[test]
fn test_display_name_only_in_first_ten_lines() {
    let mut text = String::new();
    for _ in 0..10 {
        text.push_str("# comment\n");
    }
    text.push_str("# name: Too Late\n");
    assert_eq!(display_name(&text), None);
    let mut text = String::new();
    for _ in 0..9 {
        text.push_str("# comment\n");
    }
    text.push_str("# name: Just In Time\n");
    assert_eq!(display_name(&text).as_deref(), Some("Just In Time"));
}

#[test]
fn test_registry_keeps_first_and_orders_by_id() {
    let registry = KeyboardRegistry::from_found(vec![
        info("romaja", "Romaja"),
        info("kps9256", "KPS 9256"),
        info("romaja", "Another Romaja"),
        info("dubeolsik", "Two Set"),
    ]);
    let ids: Vec<&str> = registry.list().iter().map(|k| k.id.as_str()).collect();
    assert_eq!(ids, vec!["dubeolsik", "kps9256", "romaja"]);
    assert_eq!(registry.get("romaja").unwrap().name, "Romaja");
    assert!(registry.get("missing").is_none());
}
