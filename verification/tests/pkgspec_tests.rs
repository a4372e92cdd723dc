use mint_core::pkgspec::{parse_package_spec, PackageSpec, VersionConstraint};

fn parts(p: &PackageSpec) -> (String, Option<(&'static str, String)>) {
    let c = match &p.constraint {
        None => None,
        Some(VersionConstraint::Exact(v)) => Some(("==", v.clone())),
        Some(VersionConstraint::AtLeast(v)) => Some((">=", v.clone())),
        Some(VersionConstraint::AtMost(v)) => Some(("<=", v.clone())),
        Some(VersionConstraint::GreaterThan(v)) => Some((">", v.clone())),
        Some(VersionConstraint::LessThan(v)) => Some(("<", v.clone())),
    };
    (p.name.clone(), c)
}

#[test]
fn parse_exact() {
    let p = parse_package_spec("a==1.0");
    assert_eq!(parts(&p), ("a".to_string(), Some(("==", "1.0".to_string()))));
}

#[test]
fn parse_at_least() {
    let p = parse_package_spec("a>=1.0");
    assert_eq!(parts(&p), ("a".to_string(), Some((">=", "1.0".to_string()))));
}

#[test]
fn parse_at_most() {
    let p = parse_package_spec("pkg<=2.3");
    assert_eq!(parts(&p), ("pkg".to_string(), Some(("<=", "2.3".to_string()))));
}

#[test]
fn parse_greater_than() {
    let p = parse_package_spec("a>1.0");
    assert_eq!(parts(&p), ("a".to_string(), Some((">", "1.0".to_string()))));
}

#[test]
fn parse_less_than() {
    let p = parse_package_spec("a<1.0");
    assert_eq!(parts(&p), ("a".to_string(), Some(("<", "1.0".to_string()))));
}

#[test]
fn parse_no_constraint() {
    let p = parse_package_spec("a");
    assert_eq!(parts(&p), ("a".to_string(), None));
}

#[test]
fn parse_empty_string() {
    let p = parse_package_spec("");
    assert_eq!(parts(&p), ("".to_string(), None));
}

#[test]
fn parse_exact_wins_over_later_operators() {
    // "==" is searched first over the whole string, so it wins even when
    // another operator stands earlier.
    let p = parse_package_spec("a>=1.0==2");
    assert_eq!(parts(&p), ("a>=1.0".to_string(), Some(("==", "2".to_string()))));
}

#[test]
fn parse_at_least_before_greater_than() {
    // ">=" has priority over ">" at the same position.
    let p = parse_package_spec("a>=1");
    assert_eq!(parts(&p), ("a".to_string(), Some((">=", "1".to_string()))));
}

#[test]
fn parse_empty_version() {
    let p = parse_package_spec("a==");
    assert_eq!(parts(&p), ("a".to_string(), Some(("==", "".to_string()))));
}
