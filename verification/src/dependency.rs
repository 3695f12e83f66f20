use vstd::prelude::*;

use crate::digest::{host_is_crates_io, url_host_is_crates_io};
use crate::error::{result_view, ErrorView, UploadError};
use crate::source::{
    crates_io_domain, crates_io_domain_name, is_registry_kind, SourceId, SourceIdView, SourceKind,
};
use crate::text::{opt_text, texts};

verus! {

/// Which part of a build a dependency serves.
#[derive(PartialEq, Eq, Structural, Clone, Copy, Debug)]
pub enum DepKind {
    Normal,
    Build,
    Development,
}

/// A dependency that a package's manifest declares, as the upload rules
/// read it.
pub struct Dependency {
    pub package_name: String,
    /// Where the dependency comes from.
    pub source_id: SourceId,
    /// The registry that the dependency names, if any.
    pub registry_id: Option<SourceId>,
    pub kind: DepKind,
    /// Whether the manifest gives a version requirement.
    pub specified_req: bool,
    pub version_req: String,
    pub optional: bool,
    pub uses_default_features: bool,
    pub features: Vec<String>,
    /// The target platform the dependency is restricted to, if any.
    pub platform: Option<String>,
    /// The name under which the manifest renames the dependency, if any.
    pub explicit_name_in_toml: Option<String>,
}

pub struct DependencyView {
    pub package_name: Seq<char>,
    pub source_id: SourceIdView,
    pub registry_id: Option<SourceIdView>,
    pub kind: DepKind,
    pub specified_req: bool,
    pub version_req: Seq<char>,
    pub optional: bool,
    pub uses_default_features: bool,
    pub features: Seq<Seq<char>>,
    pub platform: Option<Seq<char>>,
    pub explicit_name_in_toml: Option<Seq<char>>,
}

pub open spec fn opt_source_view(o: Option<SourceId>) -> Option<SourceIdView> {
    match o {
        Some(s) => Some(s@),
        None => None,
    }
}

impl View for Dependency {
    type V = DependencyView;

    open spec fn view(&self) -> DependencyView {
        DependencyView {
            package_name: self.package_name@,
            source_id: self.source_id@,
            registry_id: opt_source_view(self.registry_id),
            kind: self.kind,
            specified_req: self.specified_req,
            version_req: self.version_req@,
            optional: self.optional,
            uses_default_features: self.uses_default_features,
            features: texts(self.features@),
            platform: opt_text(self.platform),
            explicit_name_in_toml: opt_text(self.explicit_name_in_toml),
        }
    }
}

/// The views of a list of dependencies.
pub open spec fn dependency_views(deps: Seq<Dependency>) -> Seq<DependencyView> {
    deps.map_values(|d: Dependency| d@)
}

/// A dependency is transitive when crates that depend on this package need
/// it too: all but development dependencies.
pub open spec fn is_transitive(kind: DepKind) -> bool {
    kind != DepKind::Development
}

/// Where a dependency without a version of its own takes its version from.
pub open spec fn version_source(dep: DependencyView) -> Seq<char> {
    match dep.registry_id {
        Some(r) => r.registry_name,
        None => crates_io_domain(),
    }
}

/// The version check of a dependency: `Ok(false)` for a dependency that
/// comes neither from a path nor from git, `Ok(true)` for a path or git
/// dependency that is fine, and the error for a transitive path or git
/// dependency that names no version.
pub open spec fn version_check(dep: DependencyView, publishing: bool) -> Result<bool, ErrorView> {
    if dep.source_id.kind != SourceKind::Path && dep.source_id.kind != SourceKind::Git {
        Ok(false)
    } else if !dep.specified_req && is_transitive(dep.kind) {
        Err(
            ErrorView::MissingVersion {
                dependency: dep.package_name,
                version_source: version_source(dep),
                specification: if dep.source_id.kind == SourceKind::Path {
                    "path"@
                } else {
                    "git"@
                },
                publishing,
            },
        )
    } else {
        Ok(true)
    }
}

/// Returns `Ok(true)` if the dependency comes from git or a path, `Ok(false)`
/// otherwise; refuses a transitive git or path dependency without a version.
pub fn check_dep_has_version(dep: &Dependency, publish: bool) -> (r: Result<bool, UploadError>)
    ensures
        result_view(r) == version_check(dep@, publish),
{
    let is_path = dep.source_id.kind == SourceKind::Path;
    if !is_path && dep.source_id.kind != SourceKind::Git {
        return Ok(false);
    }
    if !dep.specified_req && dep.kind != DepKind::Development {
        let version_source = match &dep.registry_id {
            Some(r) => r.registry_name.clone(),
            None => crates_io_domain_name(),
        };
        let specification = if is_path {
            String::from_str("path")
        } else {
            String::from_str("git")
        };
        return Err(
            UploadError::MissingVersion {
                dependency: dep.package_name.clone(),
                version_source,
                specification,
                publishing: publish,
            },
        );
    }
    Ok(true)
}

/// What the upload rules say of one dependency of a crate.
pub enum DependencyVerdict {
    Accepted,
    Rejected(ErrorView),
    /// The dependency comes from a kind of source that the rules do not know.
    Unsupported,
}

/// The verdict on one dependency of a crate published to `registry_src`,
/// whose API lives at `registry_host`.
pub open spec fn dependency_verdict(
    dep: DependencyView,
    registry_src: SourceIdView,
    registry_host: Seq<char>,
) -> DependencyVerdict {
    match version_check(dep, true) {
        Err(e) => DependencyVerdict::Rejected(e),
        Ok(true) => DependencyVerdict::Accepted,
        Ok(false) => if dep.source_id.same_as(registry_src) {
            DependencyVerdict::Accepted
        } else if !is_registry_kind(dep.source_id.kind) {
            DependencyVerdict::Unsupported
        } else if registry_src.is_crates_io || url_host_is_crates_io(registry_host) {
            DependencyVerdict::Rejected(
                ErrorView::ForeignRegistryDependency {
                    dependency: dep.package_name,
                    source: dep.source_id.display,
                },
            )
        } else {
            DependencyVerdict::Accepted
        },
    }
}

/// The verdict on a list of dependencies: that of the first one not
/// accepted, or `Accepted` when all are.
pub open spec fn dependencies_verdict(
    deps: Seq<DependencyView>,
    registry_src: SourceIdView,
    registry_host: Seq<char>,
) -> DependencyVerdict
    decreases deps.len(),
{
    if deps.len() == 0 {
        DependencyVerdict::Accepted
    } else {
        let before = dependencies_verdict(deps.drop_last(), registry_src, registry_host);
        if before is Accepted {
            dependency_verdict(deps.last(), registry_src, registry_host)
        } else {
            before
        }
    }
}

/// Once a prefix of the dependencies is not accepted, its verdict is that of
/// the whole list.
proof fn lemma_verdict_settled(
    deps: Seq<DependencyView>,
    k: int,
    registry_src: SourceIdView,
    registry_host: Seq<char>,
)
    requires
        0 <= k <= deps.len(),
        !(dependencies_verdict(deps.take(k), registry_src, registry_host) is Accepted),
    ensures
        dependencies_verdict(deps, registry_src, registry_host) == dependencies_verdict(
            deps.take(k),
            registry_src,
            registry_host,
        ),
    decreases deps.len(),
{
    if k == deps.len() {
        assert(deps.take(k) == deps);
    } else {
        assert(deps.drop_last().take(k) == deps.take(k));
        lemma_verdict_settled(deps.drop_last(), k, registry_src, registry_host);
    }
}

/// The list is accepted exactly when each of its dependencies is.
pub proof fn lemma_all_accepted(
    deps: Seq<DependencyView>,
    registry_src: SourceIdView,
    registry_host: Seq<char>,
)
    ensures
        dependencies_verdict(deps, registry_src, registry_host) is Accepted <==> forall|i: int|
            0 <= i < deps.len() ==> #[trigger] dependency_verdict(
                deps[i],
                registry_src,
                registry_host,
            ) is Accepted,
    decreases deps.len(),
{
    if deps.len() > 0 {
        lemma_all_accepted(deps.drop_last(), registry_src, registry_host);
        let prefix = deps.drop_last();
        assert forall|i: int| 0 <= i < deps.len() - 1 implies deps[i] == #[trigger] prefix[i] by {}
        if dependencies_verdict(deps, registry_src, registry_host) is Accepted {
            assert forall|i: int| 0 <= i < deps.len() implies #[trigger] dependency_verdict(
                deps[i],
                registry_src,
                registry_host,
            ) is Accepted by {
                if i < deps.len() - 1 {
                    assert(dependency_verdict(prefix[i], registry_src, registry_host) is Accepted);
                }
            }
        }
        if forall|i: int|
            0 <= i < deps.len() ==> #[trigger] dependency_verdict(
                deps[i],
                registry_src,
                registry_host,
            ) is Accepted {
            assert forall|i: int| 0 <= i < prefix.len() implies #[trigger] dependency_verdict(
                prefix[i],
                registry_src,
                registry_host,
            ) is Accepted by {
                assert(dependency_verdict(deps[i], registry_src, registry_host) is Accepted);
            }
            assert(dependency_verdict(deps[deps.len() - 1], registry_src, registry_host) is Accepted);
        }
    }
}

/// The verdict on the dependencies of a crate, as the library hands it out.
pub enum DependencyCheck {
    Accepted,
    Rejected(UploadError),
    /// The dependency at this index comes from a kind of source that is no
    /// registry, path or git.
    Unsupported(usize),
}

/// The verdict on the dependencies, with the index of the first dependency
/// whose kind of source the rules do not know, where that decides.
pub open spec fn check_matches(
    r: DependencyCheck,
    deps: Seq<Dependency>,
    registry_src: SourceIdView,
    registry_host: Seq<char>,
) -> bool {
    match dependencies_verdict(dependency_views(deps), registry_src, registry_host) {
        DependencyVerdict::Accepted => r is Accepted,
        DependencyVerdict::Rejected(e) => r matches DependencyCheck::Rejected(x) && x@ == e,
        DependencyVerdict::Unsupported => r matches DependencyCheck::Unsupported(i) && i
            < deps.len() && dependencies_verdict(
            dependency_views(deps).take(i as int),
            registry_src,
            registry_host,
        ) is Accepted && dependency_verdict(deps[i as int]@, registry_src, registry_host) is Unsupported,
    }
}

fn scan_dependencies(
    deps: &Vec<Dependency>,
    registry_src: &SourceId,
    registry_host: &str,
) -> (r: DependencyCheck)
    ensures
        check_matches(r, deps@, registry_src@, registry_host@),
{
    let ghost views = dependency_views(deps@);
    let mut i: usize = 0;
    while i < deps.len()
        invariant
            i <= deps.len(),
            views == dependency_views(deps@),
            dependencies_verdict(views.take(i as int), registry_src@, registry_host@) is Accepted,
        decreases deps.len() - i,
    {
        let dep = &deps[i];
        proof {
            assert(views.take(i + 1).drop_last() == views.take(i as int));
            assert(views.take(i + 1).last() == dep@);
        }
        match check_dep_has_version(dep, true) {
            Err(e) => {
                proof {
                    lemma_verdict_settled(views, i + 1, registry_src@, registry_host@);
                }
                return DependencyCheck::Rejected(e);
            },
            Ok(true) => {},
            Ok(false) => {
                if !dep.source_id.same_source(registry_src) {
                    let kind = dep.source_id.kind;
                    if kind != SourceKind::Registry && kind != SourceKind::SparseRegistry && kind
                        != SourceKind::LocalRegistry {
                        proof {
                            lemma_verdict_settled(views, i + 1, registry_src@, registry_host@);
                        }
                        return DependencyCheck::Unsupported(i);
                    }
                    if registry_src.is_crates_io || host_is_crates_io(registry_host) {
                        proof {
                            lemma_verdict_settled(views, i + 1, registry_src@, registry_host@);
                        }
                        return DependencyCheck::Rejected(
                            UploadError::ForeignRegistryDependency {
                                dependency: dep.package_name.clone(),
                                source: dep.source_id.display.clone(),
                            },
                        );
                    }
                }
            },
        }
        i = i + 1;
    }
    proof {
        assert(views.take(deps.len() as int) == views);
    }
    DependencyCheck::Accepted
}

/// Checks the dependencies of a crate before it is published to
/// `registry_src`, whose API lives at `registry_host`: each must name a
/// version where it comes from a path or git, and a crate bound for crates.io
/// may not depend on crates of another registry.
///
/// A dependency from a kind of source that is no registry, path or git, and
/// that no earlier dependency's refusal shadows, is a state this tool treats
/// as a bug and stops on: such inputs are left out ([`check_dependencies`]
/// reports them).
pub fn verify_dependencies(
    deps: &Vec<Dependency>,
    registry_src: &SourceId,
    registry_host: &str,
) -> (r: Result<(), UploadError>)
    requires
        !(dependencies_verdict(
            dependency_views(deps@),
            registry_src@,
            registry_host@,
        ) is Unsupported),
    ensures
        (match dependencies_verdict(dependency_views(deps@), registry_src@, registry_host@) {
            DependencyVerdict::Accepted => r is Ok,
            DependencyVerdict::Rejected(e) => r matches Err(x) && x@ == e,
            DependencyVerdict::Unsupported => false,
        }),
{
    match scan_dependencies(deps, registry_src, registry_host) {
        DependencyCheck::Accepted => Ok(()),
        DependencyCheck::Rejected(e) => Err(e),
        DependencyCheck::Unsupported(_) => {
            // The requires rules this out.
            proof {
                assert(false);
            }
            Ok(())
        },
    }
}

/// Checks the dependencies of a crate before it is published to
/// `registry_src`, whose API lives at `registry_host`: tells the first
/// dependency whose kind of source the rules do not know, where that
/// decides, and else checks them with [`verify_dependencies`], whose
/// precondition the first pass has just established.
pub fn check_dependencies(
    deps: &Vec<Dependency>,
    registry_src: &SourceId,
    registry_host: &str,
) -> (r: DependencyCheck)
    ensures
        check_matches(r, deps@, registry_src@, registry_host@),
{
    let scanned = scan_dependencies(deps, registry_src, registry_host);
    if let DependencyCheck::Unsupported(_) = scanned {
        return scanned;
    }
    match verify_dependencies(deps, registry_src, registry_host) {
        Ok(()) => DependencyCheck::Accepted,
        Err(e) => DependencyCheck::Rejected(e),
    }
}

} // verus!
