use prompt_repository::semver::is_semver;

#[test]
fn semantic_versions() {
    for version in [
        "0.0.4",
        "1.2.3",
        "10.20.30",
        "1.0.0-alpha",
        "1.0.0-alpha.1",
        "1.0.0-0.3.7",
        "1.0.0-x-y-z.--",
        "1.0.0-0A.is.legal",
        "1.0.0+001",
        "1.0.0+21AF26D3---117B344092BD",
        "1.0.0-rc.1+build.-1",
        "99999999999999999999999.999999999999999999.99999999999999999",
    ] {
        assert!(is_semver(version), "{}", version);
    }
}

#[test]
fn other_versions() {
    for version in [
        "",
        "draft",
        "1",
        "1.2",
        "1.2.3.4",
        "01.2.3",
        "1.02.3",
        "1.2.03",
        "1..3",
        "v1.2.3",
        " 1.2.3",
        "-1.2.3",
        "1.2.3-",
        "1.2.3+",
        "1.2.3-+b",
        "1.2.3-01",
        "1.2.3-a..b",
        "1.2.3+a..b",
        "1.2.3-a_b",
        "1.2.3+a+b",
        "1.2.3-é",
        "1.2-alpha.3",
        "+1.2.3",
        "١.2.3",
    ] {
        assert!(!is_semver(version), "{}", version);
    }
}
