//! Verified decision logic of a cargo subcommand that publishes crate
//! archives to a (private) registry.

mod dependency;
mod digest;
mod error;
mod laws;
mod listing;
mod opts;
mod publish;
mod registry;
mod source;
mod text;
mod wait;

pub use dependency::{
    check_dep_has_version, check_dependencies, check_matches, dependencies_verdict, dependency_verdict,
    dependency_views, is_transitive, lemma_all_accepted, opt_source_view, verify_dependencies,
    version_check, version_source, DepKind, Dependency, DependencyCheck, DependencyVerdict,
    DependencyView,
};
pub use digest::{archive_checksum, is_lower_hex_digit, sha256_hex, url_host_is_crates_io};
pub use error::{error_text, result_view, ErrorView, UploadError};
pub use laws::{
    lemma_cargo_subcommand_arguments, lemma_crate_selection_idempotent,
    lemma_crates_io_dependencies_stay_on_crates_io, lemma_dry_run_uploads_nothing,
    lemma_arguments_kept_unless_subcommand, lemma_crate_suffix,
    lemma_private_registry_accepts_foreign_crates, lemma_default_publish_registry,
    lemma_entry_names_foreign_registry, lemma_publish_warnings_shape,
    lemma_replacement_refused_only_by_default, lemma_transmit_order, lemma_wait_timeout, lemma_listed_crate_stops_wait, lemma_no_failure_lost,
    lemma_plain_path_changes_nothing, lemma_requested_registry_is_kept,
    lemma_single_dependency_listing, lemma_uploads_are_crate_archives, lemma_uploads_concat,
    lemma_versioned_dependency_passes,
};
pub use listing::{
    dependency_listing, filtered_entries, is_listed, kind_label,
    lemma_listing_is_filtered_entries, listed_entry, listing_view, new_dependency,
    new_dependency_views, publish_dependencies, request_entry, source_result_view, NewDependency,
    NewDependencyView,
};
pub use opts::{
    command_arguments, crate_files, crate_files_in, crate_path_filter, failures, folder_texts,
    has_crate_extension, is_crate_path, path_uploads, settle_uploads, upload_arguments, uploads,
    Package, UploadOpts,
};
pub use publish::{
    badges_warning, categories_warning, opt_mutation_view, plan_transmit, plan_view,
    pre_publish_mutation, pre_publish_purpose, publish_mutation, publish_purpose,
    publish_wait_seconds, publish_warning_texts, publish_warnings, transmit_plan, wait_seconds,
    AuthMutation, AuthMutationView, TransmitPlan, TransmitPlanView,
};
pub use registry::{
    check_index_token, check_source_replacement, chosen_view, lemma_publish_registry_is_allowed,
    publish_registry, registry_access, replacement_check, requested_source,
    select_publish_registry, RegistryAccess, SourceRequest,
};
pub use source::{
    crates_io_domain, crates_io_registry, is_registry_kind, SourceId, SourceIdView, SourceKind,
};
pub use text::{
    copy_opt, copy_strings, join_texts, joined, opt_list_text, opt_text, same_text, texts,
};
pub use wait::{
    exact_version_requirement, lemma_wait_ends, next_wait_step, timeout_warning, wait_step,
    WaitStep,
};
