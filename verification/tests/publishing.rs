use cargo_upload::{
    archive_checksum, exact_version_requirement, plan_transmit, pre_publish_mutation,
    publish_mutation, publish_wait_seconds, publish_warnings, timeout_warning, wait_step,
    AuthMutation, DepKind, Dependency, Package, SourceId, SourceKind, TransmitPlan, UploadError,
    WaitStep,
};

fn crates_io() -> SourceId {
    SourceId {
        kind: SourceKind::Registry,
        identity: "https://github.com/rust-lang/crates.io-index".to_string(),
        url: "https://github.com/rust-lang/crates.io-index".to_string(),
        registry_name: "crates-io".to_string(),
        is_crates_io: true,
        alt_registry_key: None,
        display: "registry `crates-io`".to_string(),
    }
}

fn serde_dep() -> Dependency {
    Dependency {
        package_name: "serde".to_string(),
        source_id: crates_io(),
        registry_id: Some(crates_io()),
        kind: DepKind::Normal,
        specified_req: true,
        version_req: "^1".to_string(),
        optional: true,
        uses_default_features: false,
        features: vec![],
        platform: Some("cfg(unix)".to_string()),
        explicit_name_in_toml: Some("serde1".to_string()),
    }
}

fn package() -> Package {
    Package { name: "demo".to_string(), version: "0.1.0".to_string() }
}

#[test]
fn checksum_is_sha256_hex() {
    assert_eq!(
        archive_checksum(b""),
        "e3b0c44298fc1c149afbf4c8996fb92427ae41e4649b934ca495991b7852b855"
    );
    assert_eq!(
        archive_checksum(b"abc"),
        "ba7816bf8f01cfea414140de5dae2223b00361a396177a9cb410ff61f20015ad"
    );
}

#[test]
fn dry_run_asks_no_token() {
    assert!(pre_publish_mutation(true).is_none());
    assert!(matches!(pre_publish_mutation(false), Some(AuthMutation::PrePublish)));
    assert!(publish_mutation(true, &package(), b"abc").is_none());
}

#[test]
fn publish_token_names_crate_and_checksum() {
    match publish_mutation(false, &package(), b"abc") {
        Some(AuthMutation::Publish { name, version, cksum }) => {
            assert_eq!(name, "demo");
            assert_eq!(version, "0.1.0");
            assert_eq!(cksum, "ba7816bf8f01cfea414140de5dae2223b00361a396177a9cb410ff61f20015ad");
        }
        _ => panic!("expected a publish mutation"),
    }
}

#[test]
fn wait_uses_default_and_configured_timeouts() {
    assert_eq!(publish_wait_seconds(false, false, None), Some(60));
    assert_eq!(publish_wait_seconds(false, false, Some(5)), Some(60));
    assert_eq!(publish_wait_seconds(false, true, Some(5)), Some(5));
    assert_eq!(publish_wait_seconds(false, true, None), Some(60));
    assert_eq!(publish_wait_seconds(false, true, Some(0)), None);
    assert_eq!(publish_wait_seconds(true, true, Some(5)), None);
    assert_eq!(publish_wait_seconds(true, false, None), None);
}

#[test]
fn wait_steps() {
    assert_eq!(wait_step(true, 10, 20), WaitStep::Published);
    assert_eq!(wait_step(false, 10, 20), WaitStep::TimedOut);
    assert_eq!(wait_step(false, 10, 10), WaitStep::Retry);
    assert_eq!(wait_step(false, 10, 3), WaitStep::Retry);
    assert_eq!(exact_version_requirement("1.2.3"), "=1.2.3");
    assert_eq!(
        timeout_warning("demo", "registry `my`"),
        "timed out waiting for `demo` to be in registry `my`"
    );
}

#[test]
fn dry_run_stops_before_upload() {
    let deps = vec![serde_dep()];
    let plan = plan_transmit(&deps, &crates_io(), &Ok(crates_io()), &None, true, true);
    assert!(matches!(plan, Ok(TransmitPlan::DryRun)));
}

#[test]
fn upload_carries_listed_dependencies() {
    let deps = vec![serde_dep()];
    match plan_transmit(&deps, &crates_io(), &Ok(crates_io()), &Some("LICENSE".to_string()), true, false) {
        Ok(TransmitPlan::Upload(list)) => {
            assert_eq!(list.len(), 1);
            assert!(list[0].optional);
            assert!(!list[0].default_features);
            assert_eq!(list[0].target.as_deref(), Some("cfg(unix)"));
            assert_eq!(list[0].explicit_name_in_toml.as_deref(), Some("serde1"));
            assert_eq!(list[0].registry, None);
        }
        _ => panic!("expected an upload"),
    }
}

#[test]
fn missing_license_file_is_refused_even_on_dry_run() {
    let deps = vec![serde_dep()];
    let e = plan_transmit(&deps, &crates_io(), &Ok(crates_io()), &Some("LICENSE".to_string()), false, true)
        .err()
        .unwrap();
    assert!(matches!(e, UploadError::LicenseFileMissing { .. }));
    assert_eq!(e.message(), "the license file `LICENSE` does not exist");
}

#[test]
fn warnings_after_publish() {
    let cats = vec!["a".to_string(), "b".to_string()];
    let badges = vec!["travis".to_string()];
    let other = vec!["slow down".to_string()];
    let w = publish_warnings(&cats, &badges, &other);
    assert_eq!(w.len(), 3);
    assert_eq!(
        w[0],
        "the following are not valid category slugs and were ignored: a, b. Please see https://crates.io/category_slugs for the list of all category slugs. "
    );
    assert_eq!(
        w[1],
        "the following are not valid badges and were ignored: travis. Either the badge type specified is unknown or a required attribute is missing. Please see https://doc.rust-lang.org/cargo/reference/manifest.html#package-metadata for valid badge types and their required attributes."
    );
    assert_eq!(w[2], "slow down");
    assert!(publish_warnings(&vec![], &vec![], &vec![]).is_empty());
    assert_eq!(publish_warnings(&vec![], &vec![], &other), other);
}
