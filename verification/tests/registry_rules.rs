use cargo_upload::{
    check_index_token, check_source_replacement, registry_access, requested_source,
    select_publish_registry, SourceId, SourceKind, SourceRequest, UploadError,
};

fn strings(v: &[&str]) -> Vec<String> {
    v.iter().map(|s| s.to_string()).collect()
}

fn registry_source(url: &str, key: Option<&str>, display: &str) -> SourceId {
    SourceId {
        kind: SourceKind::Registry,
        identity: url.to_string(),
        url: url.to_string(),
        registry_name: display.to_string(),
        is_crates_io: false,
        alt_registry_key: key.map(|k| k.to_string()),
        display: display.to_string(),
    }
}

#[test]
fn any_registry_when_publish_is_unrestricted() {
    let pkg = "demo".to_string();
    assert_eq!(select_publish_registry(&None, &None, &pkg).ok().unwrap(), None);
    assert_eq!(
        select_publish_registry(&Some("my".to_string()), &None, &pkg).ok().unwrap(),
        Some("my".to_string())
    );
}

#[test]
fn publish_false_forbids_publishing() {
    let pkg = "demo".to_string();
    let e = select_publish_registry(&Some("my".to_string()), &Some(Vec::new()), &pkg).err().unwrap();
    assert_eq!(
        e.message(),
        "`demo` cannot be published.\n`package.publish` is set to `false` or an empty list in Cargo.toml and prevents publishing."
    );
}

#[test]
fn single_allowed_registry_is_chosen() {
    let pkg = "demo".to_string();
    assert_eq!(
        select_publish_registry(&None, &Some(strings(&["my"])), &pkg).ok().unwrap(),
        Some("my".to_string())
    );
    assert_eq!(
        select_publish_registry(&None, &Some(strings(&["crates-io"])), &pkg).ok().unwrap(),
        None
    );
}

#[test]
fn unlisted_registry_is_refused() {
    let pkg = "demo".to_string();
    let e = select_publish_registry(&None, &Some(strings(&["a", "b"])), &pkg).err().unwrap();
    assert_eq!(
        e.message(),
        "`demo` cannot be published.\nThe registry `crates-io` is not listed in the `package.publish` value in Cargo.toml."
    );
    assert!(matches!(
        select_publish_registry(&Some("c".to_string()), &Some(strings(&["a", "b"])), &pkg),
        Err(UploadError::RegistryNotAllowed { .. })
    ));
    assert_eq!(
        select_publish_registry(&Some("b".to_string()), &Some(strings(&["a", "b"])), &pkg)
            .ok()
            .unwrap(),
        Some("b".to_string())
    );
}

#[test]
fn index_needs_token_when_one_is_required() {
    let e = check_index_token(true, true, false).unwrap_err();
    assert_eq!(e.message(), "command-line argument --index requires --token to be specified");
    assert!(check_index_token(true, true, true).is_ok());
    assert!(check_index_token(false, true, false).is_ok());
    assert!(check_index_token(true, false, false).is_ok());
}

#[test]
fn registry_without_api_is_refused() {
    let src = registry_source("https://r.example/index", None, "registry `r`");
    let e = registry_access(None, false, true, &src).err().unwrap();
    assert_eq!(e.message(), "registry `r` does not support API commands");
    let a = registry_access(Some("https://r.example".to_string()), false, false, &src).ok().unwrap();
    assert_eq!(a.api_host, "https://r.example");
    assert!(!a.needs_token);
    let b = registry_access(Some("https://r.example".to_string()), true, false, &src).ok().unwrap();
    assert!(b.needs_token);
    let c = registry_access(Some("https://r.example".to_string()), false, true, &src).ok().unwrap();
    assert!(c.needs_token);
}

#[test]
fn index_names_a_configured_registry() {
    assert!(matches!(
        requested_source(&None, &Some("my-registry".to_string())),
        SourceRequest::Registry(ref r) if r == "my-registry"
    ));
}

#[test]
fn index_takes_precedence_over_registry() {
    assert!(matches!(requested_source(&None, &None), SourceRequest::CratesIo));
    assert!(matches!(
        requested_source(&Some("my".to_string()), &Some("other".to_string())),
        SourceRequest::Registry(ref i) if i == "other"
    ));
    assert!(matches!(
        requested_source(&Some("my".to_string()), &None),
        SourceRequest::Registry(ref r) if r == "my"
    ));
}

#[test]
fn configured_replacement_of_crates_io_is_refused() {
    let builtin = registry_source("sparse+https://index.crates.io/", None, "registry `crates-io`");
    let mirror = registry_source("https://mirror.example/index", Some("mirror"), "registry `mirror`");
    let e = check_source_replacement(false, false, &builtin, &mirror).unwrap_err();
    assert_eq!(
        e.message(),
        "crates-io is replaced with remote registry mirror;\ninclude `--registry mirror` or `--registry crates-io`"
    );
    let dir = SourceId {
        kind: SourceKind::Directory,
        identity: "file:///vendor".to_string(),
        url: "file:///vendor".to_string(),
        registry_name: "/vendor".to_string(),
        is_crates_io: false,
        alt_registry_key: None,
        display: "dir /vendor".to_string(),
    };
    let e = check_source_replacement(false, false, &builtin, &dir).unwrap_err();
    assert_eq!(
        e.message(),
        "crates-io is replaced with non-remote-registry source dir /vendor;\ninclude `--registry crates-io` to use crates.io"
    );
    assert!(check_source_replacement(true, false, &builtin, &mirror).is_ok());
    assert!(check_source_replacement(false, true, &builtin, &mirror).is_ok());
    assert!(check_source_replacement(false, false, &builtin, &builtin).is_ok());
}
