use npmi::errors::InstallError;
use npmi::manifest::Bin;
use npmi::registry::{Dist, Metadata, VersionRecord};
use npmi::semver::{parse_range, parse_version, semver_lt};

fn record(name: &str, version: &str) -> VersionRecord {
    VersionRecord {
        name: name.to_string(),
        version: version.to_string(),
        dist: Dist {
            tarball: format!("https://registry.example/{}/-/{}-{}.tgz", name, name, version),
            shasum: "0000000000000000000000000000000000000000".to_string(),
            integrity: None,
        },
        dependencies: None,
        dev_dependencies: None,
        optional_dependencies: None,
        bin: None::<Bin>,
    }
}

fn metadata(name: &str, versions: &[&str]) -> Metadata {
    Metadata {
        name: name.to_string(),
        modified: "2024-01-01T00:00:00Z".to_string(),
        dist_tags: Vec::new(),
        versions: versions.iter().map(|v| (v.to_string(), record(name, v))).collect(),
    }
}

#[test]
fn resolution_is_maximal_and_skips_unparsable_keys() {
    let m = metadata("foo", &["1.0.0", "1.2.0", "2.0.0-rc.1", "not-a-version"]);
    assert_eq!(m._find_best_version("^1.0.0"), Some("1.2.0".to_string()));
}

#[test]
fn resolution_is_deterministic() {
    let m = metadata("foo", &["1.2.0", "1.0.0", "1.1.0"]);
    let first = m._find_best_version("^1.0.0");
    for _ in 0..10 {
        assert_eq!(m._find_best_version("^1.0.0"), first);
    }
    assert_eq!(first, Some("1.2.0".to_string()));
}

#[test]
fn no_satisfying_version_resolves_to_none() {
    let m = metadata("foo", &["1.0.0"]);
    assert_eq!(m._find_best_version("^9.0.0"), None);
}

#[test]
fn unparsable_range_resolves_to_none() {
    let m = metadata("foo", &["1.0.0"]);
    assert_eq!(m._find_best_version(">>><"), None);
}

#[test]
fn dist_tag_requirement_is_rejected_as_a_range() {
    let m = metadata("foo", &["1.0.0"]);
    assert_eq!(m._find_best_version("latest"), None);
    assert!(matches!(parse_range("latest"), Err(InstallError::InvalidConstraint)));
}

#[test]
fn parse_version_rejects_garbage() {
    assert!(matches!(parse_version("not-a-version"), Err(InstallError::InvalidVersion)));
    assert!(parse_version("1.2.3").is_ok());
    assert!(parse_version("v1.2.3").is_ok());
}

#[test]
fn parse_range_accepts_common_shapes() {
    assert!(parse_range("^1.0.0").is_ok());
    assert!(parse_range("~2.3.4").is_ok());
    assert!(parse_range(">=1.0.0 <2.0.0").is_ok());
    assert!(parse_range("*").is_ok());
}

#[test]
fn range_matching_agrees_with_npm_semantics() {
    let range = parse_range("^1.0.0").unwrap();
    let inside = parse_version("1.2.0").unwrap();
    let outside = parse_version("2.0.0").unwrap();
    let pre = parse_version("2.0.0-rc.1").unwrap();
    assert!(npmi::semver::matches(&range, &inside));
    assert!(!npmi::semver::matches(&range, &outside));
    assert!(!npmi::semver::matches(&range, &pre));
}

fn lt(a: &str, b: &str) -> bool {
    let va = parse_version(a).unwrap();
    let vb = parse_version(b).unwrap();
    semver_lt(&va, &vb)
}

#[test]
fn precedence_follows_the_semver_chain() {
    // the ordering chain of the semantic-versioning specification
    let chain = [
        "1.0.0-alpha",
        "1.0.0-alpha.1",
        "1.0.0-alpha.beta",
        "1.0.0-beta",
        "1.0.0-beta.2",
        "1.0.0-beta.11",
        "1.0.0-rc.1",
        "1.0.0",
    ];
    for i in 0..chain.len() {
        for j in 0..chain.len() {
            assert_eq!(lt(chain[i], chain[j]), i < j, "{} vs {}", chain[i], chain[j]);
        }
    }
}

#[test]
fn precedence_orders_the_core_triple() {
    assert!(lt("1.0.0", "1.2.0"));
    assert!(lt("1.2.0", "2.0.0"));
    assert!(lt("1.2.3", "1.2.10"));
    assert!(!lt("1.2.0", "1.2.0"));
    // build metadata takes no part in precedence
    assert!(!lt("1.2.0+build.1", "1.2.0+build.2"));
    assert!(!lt("1.2.0+build.2", "1.2.0+build.1"));
}

#[test]
fn version_keeps_its_source_string() {
    let v = parse_version("1.2.3-rc.1+build.5").unwrap();
    assert_eq!(v.raw(), "1.2.3-rc.1+build.5");
    let r = parse_range("^1.0.0").unwrap();
    assert_eq!(r.raw(), "^1.0.0");
}

#[test]
fn lookup_finds_the_chosen_record() {
    let m = metadata("foo", &["1.0.0", "1.2.0"]);
    let key = m._find_best_version("^1.0.0").unwrap();
    let rec = m.lookup_version(&key).unwrap();
    assert_eq!(rec.version, "1.2.0");
    assert!(m.lookup_version("9.9.9").is_none());
}

#[test]
fn numeric_prerelease_identifiers_compare_numerically() {
    assert!(lt("1.0.0-2", "1.0.0-10"));
    assert!(lt("1.0.0-1", "1.0.0-2"));
    // numeric identifiers sort below alphanumeric ones
    assert!(lt("1.0.0-11", "1.0.0-a"));
    assert!(!lt("1.0.0-a", "1.0.0-11"));
}

#[test]
fn resolution_over_no_versions_is_none() {
    let m = metadata("foo", &[]);
    assert_eq!(m._find_best_version("*"), None);
}
