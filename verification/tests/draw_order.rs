use maps::draw_order::DrawOrder;

fn names(d: &DrawOrder) -> Vec<String> {
    d.keys().clone()
}

#[test]
fn add_appends_once() {
    let mut d = DrawOrder::default();
    d.add("a.yaml".to_string());
    d.add("b.yaml".to_string());
    d.add("a.yaml".to_string());
    assert_eq!(names(&d), vec!["a.yaml", "b.yaml"]);
    assert!(d.contains("a.yaml"));
    assert!(d.contains("b.yaml"));
    assert!(!d.contains("c.yaml"));
}

#[test]
fn remove_keeps_order_of_rest() {
    let mut d = DrawOrder::new();
    for n in ["x", "y", "z"] {
        d.add(n.to_string());
    }
    d.remove("y");
    assert_eq!(names(&d), vec!["x", "z"]);
    d.remove("not there");
    assert_eq!(names(&d), vec!["x", "z"]);
    assert!(!d.contains("y"));
}

#[test]
fn extend_appends_missing_in_order() {
    let mut d = DrawOrder::new();
    d.add("b".to_string());
    let mut other = DrawOrder::new();
    for n in ["a", "b", "c"] {
        other.add(n.to_string());
    }
    d.extend(&other);
    assert_eq!(names(&d), vec!["b", "a", "c"]);
}

#[test]
fn law_add_idempotent_and_remove_undoes_add() {
    let mut d = DrawOrder::new();
    d.add("m1".to_string());
    let before = names(&d);
    d.add("m2".to_string());
    d.add("m2".to_string());
    assert_eq!(names(&d), vec!["m1", "m2"]);
    d.remove("m2");
    assert_eq!(names(&d), before);
}

#[test]
fn law_extend_with_known_names_changes_nothing() {
    let mut d = DrawOrder::new();
    for n in ["p", "q", "r"] {
        d.add(n.to_string());
    }
    let mut other = DrawOrder::new();
    other.add("r".to_string());
    other.add("p".to_string());
    d.extend(&other);
    assert_eq!(names(&d), vec!["p", "q", "r"]);
}
