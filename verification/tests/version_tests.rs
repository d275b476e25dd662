use rtsp_version::Version;
use std::collections::HashSet;

#[test]
fn equality_of_constants() {
    assert!(Version::rtsp_10() == Version::rtsp_10());
    assert!(Version::rtsp_20() == Version::rtsp_20());
    assert!(Version::rtsp_10() != Version::rtsp_20());
    assert!(Version::rtsp_20() != Version::rtsp_10());
}

#[test]
fn ordering_of_constants() {
    assert!(Version::rtsp_10() < Version::rtsp_20());
    assert!(Version::rtsp_20() > Version::rtsp_10());
    assert!(Version::rtsp_10() <= Version::rtsp_10());
    assert!(Version::rtsp_20() <= Version::rtsp_20());
    assert!(Version::rtsp_10() >= Version::rtsp_10());
    assert!(!(Version::rtsp_20() < Version::rtsp_10()));
}

#[test]
fn ordering_supports_sort() {
    let mut versions = vec![Version::rtsp_20(), Version::rtsp_10(), Version::rtsp_20()];
    versions.sort();
    assert_eq!(
        versions,
        vec![Version::rtsp_10(), Version::rtsp_20(), Version::rtsp_20()]
    );
}

#[test]
fn default_is_rtsp_10() {
    assert_eq!(Version::default(), Version::rtsp_10());
}

#[test]
fn copy_is_independent_and_equal() {
    let original = Version::rtsp_20();
    let copy = original;
    // Both remain usable: the copy is an independent value equal to the original.
    assert_eq!(copy, original);
    assert_eq!(original.render(), "RTSP/2.0");
    assert_eq!(copy.render(), "RTSP/2.0");
    let cloned = Version::rtsp_10().clone();
    assert_eq!(cloned, Version::rtsp_10());
}

#[test]
fn hash_consistent_with_equality() {
    let mut set: HashSet<Version> = HashSet::new();
    set.insert(Version::rtsp_10());
    set.insert(Version::rtsp_20());
    set.insert(Version::rtsp_10());
    set.insert(Version::rtsp_20());
    assert_eq!(set.len(), 2);
    assert!(set.contains(&Version::rtsp_10()));
    assert!(set.contains(&Version::rtsp_20()));
}

#[test]
fn render_exact_tokens() {
    assert_eq!(Version::rtsp_10().render(), "RTSP/1.0");
    assert_eq!(Version::rtsp_20().render(), "RTSP/2.0");
}

#[test]
fn render_is_idempotent() {
    let first = Version::rtsp_10().render();
    let second = Version::rtsp_10().render();
    assert_eq!(first, second);
    let first = Version::rtsp_20().render();
    let second = Version::rtsp_20().render();
    assert_eq!(first, second);
}

#[test]
fn default_then_upgrade_scenario() {
    let version = Version::default();
    assert_eq!(version.render(), "RTSP/1.0");
    let newer = Version::rtsp_20();
    assert!(newer > version);
    assert_eq!(newer.render(), "RTSP/2.0");
}
