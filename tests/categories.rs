use enqueue_job::store::CrateRegistry;

#[test]
fn good_categories() {
    let mut registry = CrateRegistry::new();
    registry.add_category("cat1".to_string());

    let published = registry.publish("foo_good_cat".to_string(), "1.0.0".to_string(), &vec!["cat1".to_string()]);

    assert_eq!(published.name, "foo_good_cat");
    assert_eq!(published.version, "1.0.0");
    assert_eq!(published.invalid_categories.len(), 0);
    assert!(registry.contains(&"foo_good_cat".to_string()));
}

#[test]
fn ignored_categories() {
    let mut registry = CrateRegistry::new();

    let published = registry.publish("foo_ignored_cat".to_string(), "1.0.0".to_string(), &vec!["bar".to_string()]);

    assert_eq!(published.name, "foo_ignored_cat");
    assert_eq!(published.version, "1.0.0");
    assert_eq!(published.invalid_categories, vec!["bar"]);
}

#[test]
fn unknown_categories_keep_request_order() {
    let mut registry = CrateRegistry::new();
    registry.add_category("cat1".to_string());
    registry.add_category("cat2".to_string());
    let requested = vec!["x".to_string(), "cat2".to_string(), "y".to_string(), "cat1".to_string()];
    let published = registry.publish("foo".to_string(), "0.1.0".to_string(), &requested);
    assert_eq!(published.invalid_categories, vec!["x", "y"]);
}
