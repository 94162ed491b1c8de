use std::collections::hash_map::DefaultHasher;
use std::hash::{Hash, Hasher};

use component_id::component_id::ComponentId;
use component_id::correctness::{check_valid_string, ValidationErrorKind};

fn hash_of(id: &ComponentId) -> u64 {
    let mut hasher = DefaultHasher::new();
    id.hash(&mut hasher);
    hasher.finish()
}

#[test]
fn test_string_reprs() {
    let component_risk_engine = ComponentId::new("RiskEngine");
    assert_eq!(component_risk_engine.as_str(), "RiskEngine");
    assert_eq!(component_risk_engine.to_string(), "RiskEngine");
}

#[test]
fn new_checked_accepts_valid_name() {
    let id = match ComponentId::new_checked("RiskEngine") {
        Ok(id) => id,
        Err(e) => panic!("rejected: {:?}", e),
    };
    assert_eq!(id.as_str(), "RiskEngine");
    assert_eq!(id.to_string(), "RiskEngine");
}

#[test]
fn new_checked_rejects_empty() {
    let err = match ComponentId::new_checked("") {
        Ok(_) => panic!("accepted an invalid name"),
        Err(e) => e,
    };
    assert_eq!(err.kind, ValidationErrorKind::Empty);
    assert_eq!(err.param, "value");
    assert_eq!(err.value, "");
}

#[test]
fn new_checked_rejects_non_ascii() {
    let err = match ComponentId::new_checked("Risk\u{e9}") {
        Ok(_) => panic!("accepted an invalid name"),
        Err(e) => e,
    };
    assert_eq!(err.kind, ValidationErrorKind::NonAscii);
    assert_eq!(err.param, "value");
    assert_eq!(err.value, "Risk\u{e9}");
}

#[test]
fn new_checked_rejects_all_whitespace() {
    let err = match ComponentId::new_checked(" \t\r\n") {
        Ok(_) => panic!("accepted an invalid name"),
        Err(e) => e,
    };
    assert_eq!(err.kind, ValidationErrorKind::AllWhitespace);
    assert_eq!(err.value, " \t\r\n");
}

#[test]
fn new_checked_accepts_inner_whitespace() {
    let id = match ComponentId::new_checked(" Risk Engine ") {
        Ok(id) => id,
        Err(e) => panic!("rejected: {:?}", e),
    };
    assert_eq!(id.as_str(), " Risk Engine ");
}

#[test]
fn new_accepts_single_character() {
    assert_eq!(ComponentId::new("X").as_str(), "X");
}

#[test]
fn check_valid_string_names_param() {
    assert!(check_valid_string("Trader-001", "trader_id").is_ok());
    let err = check_valid_string("", "trader_id").unwrap_err();
    assert_eq!(err.kind, ValidationErrorKind::Empty);
    assert_eq!(err.param, "trader_id");
    let err = check_valid_string("\u{3000}", "venue").unwrap_err();
    assert_eq!(err.kind, ValidationErrorKind::NonAscii);
    assert_eq!(err.value, "\u{3000}");
}

#[test]
fn independent_ids_are_equal_and_hash_equal() {
    let a = ComponentId::new("RiskEngine");
    let _other = ComponentId::new("ExecEngine");
    let owned = format!("Risk{}", "Engine");
    let b = match ComponentId::new_checked(owned.as_str()) {
        Ok(id) => id,
        Err(e) => panic!("rejected: {:?}", e),
    };
    assert!(a == b);
    assert_eq!(hash_of(&a), hash_of(&b));
    assert_eq!(a.cmp(&b), std::cmp::Ordering::Equal);
    assert_eq!(a.partial_cmp(&b), Some(std::cmp::Ordering::Equal));
}

#[test]
fn different_names_are_different_ids() {
    let a = ComponentId::new("RiskEngine");
    let b = ComponentId::new("ExecEngine");
    assert!(a != b);
}

#[test]
fn order_follows_names() {
    let alpha = ComponentId::new("Alpha");
    let beta = ComponentId::new("Beta");
    let risk = ComponentId::new("Risk");
    let risk_engine = ComponentId::new("RiskEngine");
    let lower = ComponentId::new("alpha");
    assert!(alpha < beta);
    assert!(beta > alpha);
    assert!(risk < risk_engine);
    assert!(beta < lower);
    assert_eq!(alpha.cmp(&beta), "Alpha".cmp("Beta"));
    let mut ids = vec![risk_engine, lower, beta, risk, alpha];
    ids.sort();
    let names: Vec<&str> = ids.iter().map(|id| id.as_str()).collect();
    assert_eq!(names, vec!["Alpha", "Beta", "Risk", "RiskEngine", "alpha"]);
}

#[test]
fn debug_string_is_quoted() {
    let id = ComponentId::new("RiskEngine");
    assert_eq!(id.debug_string(), "u!(\"RiskEngine\")");
    assert_ne!(id.debug_string(), id.to_string());
}

#[test]
fn debug_string_escapes_quotes() {
    let id = ComponentId::new("a\"b");
    assert_eq!(id.debug_string(), "u!(\"a\\\"b\")");
    assert_eq!(id.to_string(), "a\"b");
}

#[test]
fn inner_handle_holds_name() {
    let id = ComponentId::new("RiskEngine");
    assert_eq!(id.inner().as_str(), "RiskEngine");
    assert_eq!(id.inner(), ustr::Ustr::from("RiskEngine"));
}

#[test]
fn error_messages_name_param_and_value() {
    let err = check_valid_string("", "value").unwrap_err();
    assert_eq!(err.message(), "invalid string for 'value', was empty");
    let err = check_valid_string("  ", "value").unwrap_err();
    assert_eq!(err.message(), "invalid string for 'value', was all whitespace");
    let err = check_valid_string("Risk\u{e9}", "value").unwrap_err();
    assert_eq!(
        err.message(),
        "invalid string for 'value' contained a non-ASCII char, was 'Risk\u{e9}'"
    );
}
