use product_limits::Configuration;

#[test]
fn new_configuration_limits_nothing() {
    let configuration = Configuration::new();
    assert_eq!(configuration.configured_limit("variant-a"), None);
    assert_eq!(configuration.configured_limit(""), None);
    assert_eq!(configuration.limit_for("variant-a"), i32::MAX);
}

#[test]
fn default_configuration_limits_nothing() {
    let configuration = Configuration::default();
    assert_eq!(configuration.configured_limit("variant-a"), None);
    assert_eq!(configuration.limit_for("variant-a"), 2147483647);
}

#[test]
fn set_limit_is_found_again() {
    let mut configuration = Configuration::new();
    configuration.set_limit("variant-a".to_string(), 3);
    configuration.set_limit("variant-b".to_string(), 0);
    assert_eq!(configuration.configured_limit("variant-a"), Some(3));
    assert_eq!(configuration.configured_limit("variant-b"), Some(0));
    assert_eq!(configuration.configured_limit("variant-c"), None);
    assert_eq!(configuration.limit_for("variant-a"), 3);
    assert_eq!(configuration.limit_for("variant-b"), 0);
    assert_eq!(configuration.limit_for("variant-c"), i32::MAX);
}

#[test]
fn set_limit_replaces_an_earlier_limit() {
    let mut configuration = Configuration::new();
    configuration.set_limit("variant-a".to_string(), 3);
    configuration.set_limit("variant-a".to_string(), 8);
    assert_eq!(configuration.configured_limit("variant-a"), Some(8));
    assert_eq!(configuration.limit_for("variant-a"), 8);
}

#[test]
fn set_limit_leaves_other_variants_alone() {
    let mut configuration = Configuration::new();
    configuration.set_limit("variant-a".to_string(), 3);
    configuration.set_limit("variant-b".to_string(), 4);
    configuration.set_limit("variant-a".to_string(), -1);
    assert_eq!(configuration.configured_limit("variant-b"), Some(4));
    assert_eq!(configuration.configured_limit("variant-a"), Some(-1));
}

#[test]
fn empty_identifier_is_a_key_like_any_other() {
    let mut configuration = Configuration::new();
    configuration.set_limit(String::new(), 2);
    assert_eq!(configuration.configured_limit(""), Some(2));
    assert_eq!(configuration.limit_for(" "), i32::MAX);
}
