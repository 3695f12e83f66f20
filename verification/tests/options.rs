use cargo_upload::{
    crate_files, crate_files_in, has_crate_extension, join_texts, same_text, settle_uploads, upload_arguments,
};

fn strings(v: &[&str]) -> Vec<String> {
    v.iter().map(|s| s.to_string()).collect()
}

#[test]
fn cargo_subcommand_word_is_dropped() {
    let args = strings(&["/bin/cargo-upload", "upload", "--dry-run", "a.crate"]);
    assert_eq!(upload_arguments(args), strings(&["upload", "--dry-run", "a.crate"]));
}

#[test]
fn direct_invocation_keeps_arguments() {
    let args = strings(&["cargo-upload", "--dry-run", "a.crate"]);
    assert_eq!(upload_arguments(args.clone()), args);
    let only = strings(&["cargo-upload"]);
    assert_eq!(upload_arguments(only.clone()), only);
    let upload_later = strings(&["cargo-upload", "x.crate", "upload"]);
    assert_eq!(upload_arguments(upload_later.clone()), upload_later);
}

#[test]
fn crate_extension_is_recognised() {
    assert!(has_crate_extension("serde-1.0.0.crate"));
    assert!(has_crate_extension(".crate"));
    assert!(has_crate_extension("dir/é.crate"));
    assert!(!has_crate_extension("crate"));
    assert!(!has_crate_extension("x.crate.gz"));
    assert!(!has_crate_extension("x.Crate"));
    assert!(!has_crate_extension(""));
}

#[test]
fn only_crate_archives_are_uploaded_in_order() {
    let paths = strings(&["b.crate", "notes.txt", "a.crate", "c.crate.bak", "dir/z.crate"]);
    assert_eq!(crate_files(&paths), strings(&["b.crate", "a.crate", "dir/z.crate"]));
    let selected = crate_files(&paths);
    assert_eq!(crate_files(&selected), selected);
    assert!(crate_files(&Vec::new()).is_empty());
}

#[test]
fn keep_going_reports_every_failure() {
    let outcomes: Vec<Result<(), String>> =
        vec![Ok(()), Err("first".to_string()), Ok(()), Err("second".to_string())];
    assert_eq!(
        settle_uploads(outcomes, true),
        Ok(vec!["first".to_string(), "second".to_string()])
    );
}

#[test]
fn stopping_on_failure_returns_the_first() {
    let outcomes: Vec<Result<(), String>> =
        vec![Ok(()), Err("first".to_string()), Err("second".to_string())];
    assert_eq!(settle_uploads(outcomes, false), Err("first".to_string()));
}

#[test]
fn all_uploads_succeeding_reports_nothing() {
    let outcomes: Vec<Result<(), String>> = vec![Ok(()), Ok(())];
    assert_eq!(settle_uploads(outcomes.clone(), false), Ok(vec![]));
    assert_eq!(settle_uploads(outcomes, true), Ok(vec![]));
    assert_eq!(settle_uploads(Vec::<Result<(), String>>::new(), false), Ok(vec![]));
}

#[test]
fn texts_join_with_separator() {
    assert_eq!(join_texts(&strings(&["a", "b", "c"]), ", "), "a, b, c");
    assert_eq!(join_texts(&strings(&["only"]), ", "), "only");
    assert_eq!(join_texts(&Vec::new(), ", "), "");
    assert!(same_text("crates-io", "crates-io"));
    assert!(!same_text("crates-io", "crates.io"));
}

#[test]
fn folder_uploads_every_crate_in_it() {
    let paths = strings(&["./my-crates"]);
    let folders = vec![Some(strings(&[
        "./my-crates/a-0.1.0.crate",
        "./my-crates/README.md",
        "./my-crates/b-0.2.0.crate",
    ]))];
    assert_eq!(
        crate_files_in(&paths, &folders),
        strings(&["./my-crates/a-0.1.0.crate", "./my-crates/b-0.2.0.crate"])
    );
}

#[test]
fn folders_and_files_mix_in_order() {
    let paths = strings(&["x.crate", "dir", "notes.txt", "odd.crate", "y.crate"]);
    let folders = vec![
        None,
        Some(strings(&["dir/c.crate"])),
        None,
        Some(strings(&["odd.crate/inner.crate", "odd.crate/skip.txt"])),
        None,
    ];
    assert_eq!(
        crate_files_in(&paths, &folders),
        strings(&["x.crate", "dir/c.crate", "odd.crate/inner.crate", "y.crate"])
    );
    let empty_folder = vec![Some(Vec::new())];
    assert!(crate_files_in(&strings(&["empty"]), &empty_folder).is_empty());
}

#[test]
fn plain_paths_change_no_upload() {
    let paths = strings(&["a.crate", "b.crate"]);
    let folders = vec![None, None];
    let with_plain = strings(&["notes.txt", "a.crate", "other", "b.crate", "x.crate.bak"]);
    let with_plain_folders = vec![None, None, None, None, None];
    assert_eq!(
        crate_files_in(&with_plain, &with_plain_folders),
        crate_files_in(&paths, &folders)
    );
}
