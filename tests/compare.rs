use declutter::Compare;

#[test]
fn deserialize_compare() {
    assert_eq!(
        Compare::from_str("greater_or_equal"),
        Ok(Compare::GreaterOrEqual)
    );
    assert_eq!(Compare::from_str("greater"), Ok(Compare::Greater));
    assert_eq!(Compare::from_str("equal"), Ok(Compare::Equal));
    assert_eq!(Compare::from_str("not_equal"), Ok(Compare::NotEqual));
    assert_eq!(Compare::from_str("less_or_equal"), Ok(Compare::LessOrEqual));
    assert_eq!(Compare::from_str("less"), Ok(Compare::Less));
    assert!(Compare::from_str("invalid").is_err());
}

#[test]
fn serialize_compare() {
    assert_eq!(Compare::GreaterOrEqual.as_str(), "greater_or_equal");
    assert_eq!(Compare::Greater.as_str(), "greater");
    assert_eq!(Compare::Equal.as_str(), "equal");
    assert_eq!(Compare::NotEqual.as_str(), "not_equal");
    assert_eq!(Compare::LessOrEqual.as_str(), "less_or_equal");
    assert_eq!(Compare::Less.as_str(), "less");
}

#[test]
fn test_compare_from_str() {
    assert_eq!(Compare::from_symbol_str(">"), Some(Compare::Greater));
    assert_eq!(
        Compare::from_symbol_str(">="),
        Some(Compare::GreaterOrEqual)
    );
    assert_eq!(Compare::from_symbol_str("=="), Some(Compare::Equal));
    assert_eq!(Compare::from_symbol_str("!="), Some(Compare::NotEqual));
    assert_eq!(Compare::from_symbol_str("<="), Some(Compare::LessOrEqual));
    assert_eq!(Compare::from_symbol_str("<"), Some(Compare::Less));
    assert_eq!(Compare::from_symbol_str("invalid"), None);
}

#[test]
fn test_compare_to_str() {
    assert_eq!(Compare::Greater.to_symbol_str(), ">");
    assert_eq!(Compare::GreaterOrEqual.to_symbol_str(), ">=");
    assert_eq!(Compare::Equal.to_symbol_str(), "==");
    assert_eq!(Compare::NotEqual.to_symbol_str(), "!=");
    assert_eq!(Compare::LessOrEqual.to_symbol_str(), "<=");
    assert_eq!(Compare::Less.to_symbol_str(), "<");
}

#[test]
fn test_compare_compare() {
    assert_eq!(Compare::Greater.compare(2, 1), true);
    assert_eq!(Compare::Greater.compare(1, 2), false);
    assert_eq!(Compare::Greater.compare(1, 1), false);

    assert_eq!(Compare::GreaterOrEqual.compare(2, 1), true);
    assert_eq!(Compare::GreaterOrEqual.compare(1, 2), false);
    assert_eq!(Compare::GreaterOrEqual.compare(1, 1), true);

    assert_eq!(Compare::Equal.compare(1, 1), true);
    assert_eq!(Compare::Equal.compare(1, 2), false);

    assert_eq!(Compare::NotEqual.compare(1, 2), true);
    assert_eq!(Compare::NotEqual.compare(1, 1), false);

    assert_eq!(Compare::LessOrEqual.compare(1, 2), true);
    assert_eq!(Compare::LessOrEqual.compare(2, 1), false);
    assert_eq!(Compare::LessOrEqual.compare(1, 1), true);

    assert_eq!(Compare::Less.compare(1, 2), true);
    assert_eq!(Compare::Less.compare(2, 1), false);
    assert_eq!(Compare::Less.compare(1, 1), false);
}
