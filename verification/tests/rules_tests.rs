use blackguard::rules::WeaponRule;

#[test]
fn strict_excludes_equal_value() {
    assert!(WeaponRule::Strict.reaches(7, 8));
    assert!(!WeaponRule::Strict.reaches(8, 8));
    assert!(!WeaponRule::Strict.reaches(9, 8));
}

#[test]
fn equal_allows_equal_value() {
    assert!(WeaponRule::Equal.reaches(7, 8));
    assert!(WeaponRule::Equal.reaches(8, 8));
    assert!(!WeaponRule::Equal.reaches(9, 8));
}

#[test]
fn default_is_strict() {
    assert_eq!(WeaponRule::default(), WeaponRule::Strict);
}

#[test]
fn rule_names() {
    assert_eq!(WeaponRule::Strict.as_str(), "strict");
    assert_eq!(WeaponRule::Equal.as_str(), "equal");
}
