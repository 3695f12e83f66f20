use vstd::prelude::*;

verus! {

/// The ways an upload is refused by the rules of this tool.
#[derive(Debug)]
pub enum UploadError {
    /// `package.publish` is `false` or an empty list.
    PublishDisabled { package: String },
    /// The registry is not among those that `package.publish` lists.
    RegistryNotAllowed { package: String, registry: String },
    /// A path or git dependency that other crates would see names no version.
    MissingVersion {
        dependency: String,
        version_source: String,
        specification: String,
        publishing: bool,
    },
    /// A crate bound for crates.io depends on a crate of another registry.
    ForeignRegistryDependency { dependency: String, source: String },
    /// `--index` was given without `--token` where a token is needed.
    IndexWithoutToken,
    /// The registry has no API to publish to.
    NoApiSupport { source: String },
    /// crates.io is replaced by another registry in the configuration.
    ReplacedWithRegistry { registry: String },
    /// crates.io is replaced by a source that is no remote registry.
    ReplacedWithSource { source: String },
    /// The license file that the manifest names is missing.
    LicenseFileMissing { file: String },
    /// cargo's configuration could not say where crates.io is.
    Config { message: String },
}

/// The mathematical value of an [`UploadError`].
pub enum ErrorView {
    PublishDisabled { package: Seq<char> },
    RegistryNotAllowed { package: Seq<char>, registry: Seq<char> },
    MissingVersion {
        dependency: Seq<char>,
        version_source: Seq<char>,
        specification: Seq<char>,
        publishing: bool,
    },
    ForeignRegistryDependency { dependency: Seq<char>, source: Seq<char> },
    IndexWithoutToken,
    NoApiSupport { source: Seq<char> },
    ReplacedWithRegistry { registry: Seq<char> },
    ReplacedWithSource { source: Seq<char> },
    LicenseFileMissing { file: Seq<char> },
    Config { message: Seq<char> },
}

impl View for UploadError {
    type V = ErrorView;

    open spec fn view(&self) -> ErrorView {
        match self {
            UploadError::PublishDisabled { package } => ErrorView::PublishDisabled {
                package: package@,
            },
            UploadError::RegistryNotAllowed { package, registry } =>
                ErrorView::RegistryNotAllowed { package: package@, registry: registry@ },
            UploadError::MissingVersion {
                dependency,
                version_source,
                specification,
                publishing,
            } => ErrorView::MissingVersion {
                dependency: dependency@,
                version_source: version_source@,
                specification: specification@,
                publishing: *publishing,
            },
            UploadError::ForeignRegistryDependency { dependency, source } =>
                ErrorView::ForeignRegistryDependency { dependency: dependency@, source: source@ },
            UploadError::IndexWithoutToken => ErrorView::IndexWithoutToken,
            UploadError::NoApiSupport { source } => ErrorView::NoApiSupport { source: source@ },
            UploadError::ReplacedWithRegistry { registry } => ErrorView::ReplacedWithRegistry {
                registry: registry@,
            },
            UploadError::ReplacedWithSource { source } => ErrorView::ReplacedWithSource {
                source: source@,
            },
            UploadError::LicenseFileMissing { file } => ErrorView::LicenseFileMissing {
                file: file@,
            },
            UploadError::Config { message } => ErrorView::Config { message: message@ },
        }
    }
}

/// A result with its error taken by its view.
pub open spec fn result_view<T>(r: Result<T, UploadError>) -> Result<T, ErrorView> {
    match r {
        Ok(t) => Ok(t),
        Err(e) => Err(e@),
    }
}

/// The text that reports an error.
pub open spec fn error_text(e: ErrorView) -> Seq<char> {
    match e {
        ErrorView::PublishDisabled { package } => "`"@ + package
            + "` cannot be published.\n`package.publish` is set to `false` or an empty list in Cargo.toml and prevents publishing."@,
        ErrorView::RegistryNotAllowed { package, registry } => "`"@ + package
            + "` cannot be published.\nThe registry `"@ + registry
            + "` is not listed in the `package.publish` value in Cargo.toml."@,
        ErrorView::MissingVersion { dependency, version_source, specification, publishing } =>
            "all dependencies must have a version specified when "@ + (if publishing {
            "publishing"@
        } else {
            "packaging"@
        }) + ".\ndependency `"@ + dependency + "` does not specify a version\nNote: The "@ + (
        if publishing {
            "published"@
        } else {
            "packaged"@
        }) + " dependency will use the version from "@ + version_source + ",\nthe `"@
            + specification + "` specification will be removed from the dependency declaration."@,
        ErrorView::ForeignRegistryDependency { dependency, source } =>
            "crates cannot be published to crates.io with dependencies sourced from other\nregistries. `"@
            + dependency
            + "` needs to be published to crates.io before publishing this crate.\n(crate `"@
            + dependency + "` is pulled from "@ + source + ")"@,
        ErrorView::IndexWithoutToken =>
            "command-line argument --index requires --token to be specified"@,
        ErrorView::NoApiSupport { source } => source + " does not support API commands"@,
        ErrorView::ReplacedWithRegistry { registry } => "crates-io is replaced with remote registry "@
            + registry + ";\ninclude `--registry "@ + registry + "` or `--registry crates-io`"@,
        ErrorView::ReplacedWithSource { source } =>
            "crates-io is replaced with non-remote-registry source "@ + source
            + ";\ninclude `--registry crates-io` to use crates.io"@,
        ErrorView::LicenseFileMissing { file } => "the license file `"@ + file
            + "` does not exist"@,
        ErrorView::Config { message } => message,
    }
}

impl UploadError {
    /// The text that reports this error.
    pub fn message(&self) -> (m: String)
        ensures
            m@ == error_text(self@),
    {
        let mut m = String::new();
        match self {
            UploadError::PublishDisabled { package } => {
                m.append("`");
                m.append(package.as_str());
                m.append(
                    "` cannot be published.\n`package.publish` is set to `false` or an empty list in Cargo.toml and prevents publishing.",
                );
            },
            UploadError::RegistryNotAllowed { package, registry } => {
                m.append("`");
                m.append(package.as_str());
                m.append("` cannot be published.\nThe registry `");
                m.append(registry.as_str());
                m.append("` is not listed in the `package.publish` value in Cargo.toml.");
            },
            UploadError::MissingVersion {
                dependency,
                version_source,
                specification,
                publishing,
            } => {
                m.append("all dependencies must have a version specified when ");
                if *publishing {
                    m.append("publishing");
                } else {
                    m.append("packaging");
                }
                m.append(".\ndependency `");
                m.append(dependency.as_str());
                m.append("` does not specify a version\nNote: The ");
                if *publishing {
                    m.append("published");
                } else {
                    m.append("packaged");
                }
                m.append(" dependency will use the version from ");
                m.append(version_source.as_str());
                m.append(",\nthe `");
                m.append(specification.as_str());
                m.append("` specification will be removed from the dependency declaration.");
            },
            UploadError::ForeignRegistryDependency { dependency, source } => {
                m.append(
                    "crates cannot be published to crates.io with dependencies sourced from other\nregistries. `",
                );
                m.append(dependency.as_str());
                m.append("` needs to be published to crates.io before publishing this crate.\n(crate `");
                m.append(dependency.as_str());
                m.append("` is pulled from ");
                m.append(source.as_str());
                m.append(")");
            },
            UploadError::IndexWithoutToken => {
                m.append("command-line argument --index requires --token to be specified");
            },
            UploadError::NoApiSupport { source } => {
                m.append(source.as_str());
                m.append(" does not support API commands");
            },
            UploadError::ReplacedWithRegistry { registry } => {
                m.append("crates-io is replaced with remote registry ");
                m.append(registry.as_str());
                m.append(";\ninclude `--registry ");
                m.append(registry.as_str());
                m.append("` or `--registry crates-io`");
            },
            UploadError::ReplacedWithSource { source } => {
                m.append("crates-io is replaced with non-remote-registry source ");
                m.append(source.as_str());
                m.append(";\ninclude `--registry crates-io` to use crates.io");
            },
            UploadError::LicenseFileMissing { file } => {
                m.append("the license file `");
                m.append(file.as_str());
                m.append("` does not exist");
            },
            UploadError::Config { message } => {
                m.append(message.as_str());
            },
        }
        m
    }
}

} // verus!
