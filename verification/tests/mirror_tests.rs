use crates_mcp::errors::ClientError;
use crates_mcp::mirror::{
    availability_of, dependencies_from_mirror, dependencies_refusal, error_indicates_corruption,
    first_existing, index_dir_path, mirror_step, registry_root_candidates, MirrorAction,
    MirrorAvailability, MirrorCrate, MirrorEvent, MirrorInit, MirrorLookup, MirrorVersion,
};
use crates_mcp::types::CrateDependency;

fn dep(name: &str) -> CrateDependency {
    CrateDependency {
        name: name.to_string(),
        version_req: "^1".to_string(),
        optional: false,
        default_features: true,
        features: Vec::new(),
        target: None,
        kind: "normal".to_string(),
    }
}

fn mirror_crate() -> MirrorCrate {
    MirrorCrate {
        versions: vec![
            MirrorVersion { version: "1.0.0".to_string(), dependencies: vec![dep("quote")] },
            MirrorVersion {
                version: "2.0.0".to_string(),
                dependencies: vec![dep("syn"), dep("proc-macro2")],
            },
        ],
        highest: 1,
    }
}

const REMEDIATION: &str = "Git index not available. Dependency viewing requires the local crates.io git index. This may be due to a corrupted git index. Try deleting ~/.cargo/registry/index/github.com-1ecc6299db9ec823/ (or the equivalent on Windows) and restart the server to rebuild the index.";

#[test]
fn refusal_while_unavailable() {
    match dependencies_refusal(MirrorAvailability::Unavailable) {
        Some(ClientError::Unavailable(m)) => {
            assert_eq!(m, REMEDIATION);
            assert!(m.contains("~/.cargo/registry/index/github.com-1ecc6299db9ec823/"));
        }
        _ => panic!("expected Unavailable"),
    }
    assert!(dependencies_refusal(MirrorAvailability::Available).is_none());
}

#[test]
fn absent_mirror_fails_with_remediation() {
    match dependencies_from_mirror(MirrorLookup::MirrorAbsent, None) {
        Err(ClientError::Unavailable(m)) => assert_eq!(m, REMEDIATION),
        _ => panic!("expected Unavailable"),
    }
}

#[test]
fn missing_crate_fails_not_found() {
    match dependencies_from_mirror(MirrorLookup::CrateMissing, Some("1.0.0")) {
        Err(ClientError::NotFound(m)) => assert_eq!(m, "Crate not found in index"),
        _ => panic!("expected NotFound"),
    }
}

#[test]
fn explicit_version_is_matched_exactly() {
    let deps = dependencies_from_mirror(MirrorLookup::Found(mirror_crate()), Some("2.0.0")).unwrap();
    assert_eq!(deps.len(), 2);
    assert_eq!(deps[0].name, "syn");
    assert_eq!(deps[1].name, "proc-macro2");
}

#[test]
fn absent_version_fails_not_found() {
    match dependencies_from_mirror(MirrorLookup::Found(mirror_crate()), Some("9.9.9")) {
        Err(ClientError::NotFound(m)) => assert_eq!(m, "Version not found"),
        _ => panic!("expected NotFound"),
    }
}

#[test]
fn omitted_version_uses_highest() {
    let deps = dependencies_from_mirror(MirrorLookup::Found(mirror_crate()), None).unwrap();
    assert_eq!(deps.len(), 2);
    assert_eq!(deps[0].name, "syn");
}

#[test]
fn startup_happy_path() {
    let (s, a) = mirror_step(MirrorInit::Uninitialized, &MirrorEvent::Begin);
    assert!(matches!(s, MirrorInit::Attempting));
    assert!(matches!(a, MirrorAction::OpenMirror));
    let (s, a) = mirror_step(s, &MirrorEvent::OpenOk);
    assert!(matches!(s, MirrorInit::Available));
    assert!(matches!(a, MirrorAction::Idle));
    assert!(matches!(availability_of(s), Some(MirrorAvailability::Available)));
}

#[test]
fn startup_recovery_retries_once() {
    let (s, a) = mirror_step(MirrorInit::Attempting, &MirrorEvent::OpenFailed { corruption: true });
    assert!(matches!(s, MirrorInit::AttemptingRecovery));
    assert!(matches!(a, MirrorAction::RetryAfterBackoff));
    let (s, _) = mirror_step(s, &MirrorEvent::RetryFailed);
    assert!(matches!(s, MirrorInit::Unavailable));
    assert!(matches!(availability_of(s), Some(MirrorAvailability::Unavailable)));
}

#[test]
fn startup_recovery_can_succeed() {
    let (s, _) = mirror_step(MirrorInit::Attempting, &MirrorEvent::OpenFailed { corruption: true });
    let (s, a) = mirror_step(s, &MirrorEvent::RetryOk);
    assert!(matches!(s, MirrorInit::Available));
    assert!(matches!(a, MirrorAction::Idle));
}

#[test]
fn startup_other_failures_skip_recovery() {
    let (s, a) = mirror_step(
        MirrorInit::Attempting,
        &MirrorEvent::OpenFailed { corruption: false },
    );
    assert!(matches!(s, MirrorInit::Unavailable));
    assert!(matches!(a, MirrorAction::Idle));
}

#[test]
fn terminal_states_absorb() {
    let (s, a) = mirror_step(MirrorInit::Unavailable, &MirrorEvent::OpenOk);
    assert!(matches!(s, MirrorInit::Unavailable));
    assert!(matches!(a, MirrorAction::Idle));
    let (s, a) = mirror_step(MirrorInit::Available, &MirrorEvent::RetryFailed);
    assert!(matches!(s, MirrorInit::Available));
    assert!(matches!(a, MirrorAction::Idle));
}

#[test]
fn corruption_detection_goes_by_error_text() {
    assert!(error_indicates_corruption("gix object store failed"));
    assert!(error_indicates_corruption("bad git index layer"));
    assert!(!error_indicates_corruption("permission denied"));
}

#[test]
fn cache_root_priority_order() {
    let roots = registry_root_candidates(Some("/home/u"), Some("C:/appdata"), Some("/opt/cargo"));
    let views: Vec<&str> = roots.iter().map(|p| p.as_str()).collect();
    assert_eq!(
        views,
        vec!["/home/u/.cargo/registry", "C:/appdata/.cargo/registry", "/opt/cargo/registry"]
    );

    let roots = registry_root_candidates(None, None, Some("/opt/cargo"));
    let views: Vec<&str> = roots.iter().map(|p| p.as_str()).collect();
    assert_eq!(views, vec!["/opt/cargo/registry"]);
}

#[test]
fn first_existing_picks_earliest() {
    assert_eq!(first_existing(&vec![false, true, true]), Some(1));
    assert_eq!(first_existing(&vec![false, false]), None);
    assert_eq!(first_existing(&Vec::new()), None);
}

#[test]
fn index_dir_layout() {
    assert_eq!(
        index_dir_path("/home/u/.cargo/registry"),
        "/home/u/.cargo/registry/index/github.com-1ecc6299db9ec823"
    );
}
