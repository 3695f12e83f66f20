use cargo_upload::{
    check_dep_has_version, check_dependencies, publish_dependencies, verify_dependencies,
    DepKind, Dependency, DependencyCheck, SourceId, SourceKind, UploadError,
};

fn source(kind: SourceKind, url: &str, name: &str, crates_io: bool) -> SourceId {
    SourceId {
        kind,
        identity: url.to_string(),
        url: url.to_string(),
        registry_name: name.to_string(),
        is_crates_io: crates_io,
        alt_registry_key: None,
        display: format!("registry `{}`", name),
    }
}

fn crates_io() -> SourceId {
    source(SourceKind::Registry, "https://github.com/rust-lang/crates.io-index", "crates-io", true)
}

fn private() -> SourceId {
    source(SourceKind::SparseRegistry, "sparse+https://my.example.com/index/", "my", false)
}

fn dep(name: &str, src: SourceId, registry: Option<SourceId>, kind: DepKind, specified: bool) -> Dependency {
    Dependency {
        package_name: name.to_string(),
        source_id: src,
        registry_id: registry,
        kind,
        specified_req: specified,
        version_req: if specified { "^1.0".to_string() } else { "*".to_string() },
        optional: false,
        uses_default_features: true,
        features: vec!["std".to_string()],
        platform: None,
        explicit_name_in_toml: None,
    }
}

fn path_source() -> SourceId {
    source(SourceKind::Path, "file:///work/local", "/work/local", false)
}

fn message(e: &UploadError) -> String {
    e.message()
}

#[test]
fn registry_dependency_is_not_path_or_git() {
    let d = dep("serde", crates_io(), Some(crates_io()), DepKind::Normal, true);
    assert!(matches!(check_dep_has_version(&d, true), Ok(false)));
}

#[test]
fn path_dependency_with_version_passes() {
    let d = dep("local", path_source(), None, DepKind::Normal, true);
    assert!(matches!(check_dep_has_version(&d, true), Ok(true)));
}

#[test]
fn dev_path_dependency_without_version_passes() {
    let d = dep("local", path_source(), None, DepKind::Development, false);
    assert!(matches!(check_dep_has_version(&d, true), Ok(true)));
}

#[test]
fn path_dependency_without_version_is_refused() {
    let d = dep("local", path_source(), None, DepKind::Build, false);
    let e = check_dep_has_version(&d, true).unwrap_err();
    assert_eq!(
        message(&e),
        "all dependencies must have a version specified when publishing.\n\
         dependency `local` does not specify a version\n\
         Note: The published dependency will use the version from crates.io,\n\
         the `path` specification will be removed from the dependency declaration."
    );
}

#[test]
fn git_dependency_without_version_names_its_registry() {
    let git = source(SourceKind::Git, "https://github.com/x/y", "https://github.com/x/y", false);
    let d = dep("y", git, Some(private()), DepKind::Normal, false);
    let e = check_dep_has_version(&d, false).unwrap_err();
    assert_eq!(
        message(&e),
        "all dependencies must have a version specified when packaging.\n\
         dependency `y` does not specify a version\n\
         Note: The packaged dependency will use the version from my,\n\
         the `git` specification will be removed from the dependency declaration."
    );
}

#[test]
fn crates_io_crate_with_foreign_dependency_is_refused() {
    let deps = vec![
        dep("serde", crates_io(), Some(crates_io()), DepKind::Normal, true),
        dep("internal", private(), Some(private()), DepKind::Normal, true),
    ];
    let e = verify_dependencies(&deps, &crates_io(), "https://crates.io").unwrap_err();
    assert_eq!(
        message(&e),
        "crates cannot be published to crates.io with dependencies sourced from other\n\
         registries. `internal` needs to be published to crates.io before publishing this crate.\n\
         (crate `internal` is pulled from registry `my`)"
    );
}

#[test]
fn private_registry_accepts_foreign_dependencies() {
    let deps = vec![
        dep("serde", crates_io(), Some(crates_io()), DepKind::Normal, true),
        dep("internal", private(), Some(private()), DepKind::Normal, true),
    ];
    assert!(verify_dependencies(&deps, &private(), "https://my.example.com").is_ok());
}

#[test]
fn registry_whose_api_is_crates_io_is_treated_as_crates_io() {
    // The index is a mirror, but its API host is crates.io.
    let mirror = source(SourceKind::Registry, "https://mirror.example.com/index", "mirror", false);
    let deps = vec![dep("internal", private(), Some(private()), DepKind::Normal, true)];
    assert!(matches!(
        verify_dependencies(&deps, &mirror, "https://crates.io/"),
        Err(UploadError::ForeignRegistryDependency { .. })
    ));
    assert!(verify_dependencies(&deps, &mirror, "https://mirror.example.com").is_ok());
    assert!(verify_dependencies(&deps, &mirror, "not a url").is_ok());
}

#[test]
fn first_refusal_wins() {
    let deps = vec![
        dep("local", path_source(), None, DepKind::Normal, false),
        dep("internal", private(), Some(private()), DepKind::Normal, true),
    ];
    assert!(matches!(
        verify_dependencies(&deps, &crates_io(), "https://crates.io"),
        Err(UploadError::MissingVersion { .. })
    ));
}

#[test]
fn unknown_source_kind_is_reported() {
    let dir = source(SourceKind::Directory, "file:///vendor", "/vendor", false);
    let deps = vec![
        dep("serde", crates_io(), Some(crates_io()), DepKind::Normal, true),
        dep("vendored", dir, None, DepKind::Normal, true),
    ];
    assert!(matches!(
        check_dependencies(&deps, &crates_io(), "https://crates.io"),
        DependencyCheck::Unsupported(1)
    ));
}

#[test]
fn first_unknown_source_kind_is_reported() {
    let dir = source(SourceKind::Directory, "file:///vendor", "/vendor", false);
    let deps = vec![
        dep("vendored", dir, None, DepKind::Normal, true),
        dep("serde", crates_io(), Some(crates_io()), DepKind::Normal, true),
        dep("also", source(SourceKind::Directory, "file:///v2", "/v2", false), None, DepKind::Normal, true),
    ];
    assert!(matches!(
        check_dependencies(&deps, &crates_io(), "https://crates.io"),
        DependencyCheck::Unsupported(0)
    ));
    let refused_first = vec![
        dep("local", path_source(), None, DepKind::Normal, false),
        dep("vendored", source(SourceKind::Directory, "file:///vendor", "/vendor", false), None, DepKind::Normal, true),
    ];
    assert!(matches!(
        check_dependencies(&refused_first, &crates_io(), "https://crates.io"),
        DependencyCheck::Rejected(UploadError::MissingVersion { .. })
    ));
}

#[test]
fn publish_request_lists_dependencies() {
    let deps = vec![
        dep("serde", crates_io(), Some(crates_io()), DepKind::Normal, true),
        dep("cc", crates_io(), Some(crates_io()), DepKind::Build, true),
        dep("helper", path_source(), None, DepKind::Development, false),
        dep("proptest", crates_io(), Some(crates_io()), DepKind::Development, true),
        dep("internal", private(), Some(private()), DepKind::Normal, true),
    ];
    let listed = publish_dependencies(&deps, &private(), &Ok(crates_io())).ok().unwrap();
    let names: Vec<&str> = listed.iter().map(|d| d.name.as_str()).collect();
    assert_eq!(names, vec!["serde", "cc", "proptest", "internal"]);
    let kinds: Vec<&str> = listed.iter().map(|d| d.kind.as_str()).collect();
    assert_eq!(kinds, vec!["normal", "build", "dev", "normal"]);
    assert_eq!(
        listed[0].registry.as_deref(),
        Some("https://github.com/rust-lang/crates.io-index")
    );
    assert_eq!(listed[3].registry, None);
    assert_eq!(listed[0].features, vec!["std".to_string()]);
    assert_eq!(listed[0].version_req, "^1.0");
    assert!(listed[0].default_features);
}

#[test]
fn dependency_without_registry_comes_from_crates_io() {
    let deps = vec![dep("anyhow", crates_io(), None, DepKind::Normal, true)];
    let listed = publish_dependencies(&deps, &crates_io(), &Ok(crates_io())).ok().unwrap();
    assert_eq!(listed[0].registry, None);
    let e = publish_dependencies(&deps, &crates_io(), &Err("no config".to_string())).err().unwrap();
    assert_eq!(e.message(), "no config");
}
