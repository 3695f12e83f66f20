use vstd::prelude::*;

use crate::dependency::{dependency_views, Dependency};
use crate::digest::{archive_checksum, sha256_hex};
use crate::error::{ErrorView, UploadError};
use crate::listing::{
    dependency_listing, new_dependency_views, publish_dependencies,
    source_result_view, NewDependency, NewDependencyView,
};
use crate::opts::Package;
use crate::source::SourceId;
use crate::text::{join_texts, joined, opt_text, texts};

verus! {

/// What a registry's credential provider is told an API token is for.
pub enum AuthMutation {
    /// Checking, before anything is uploaded, that a token can be had.
    PrePublish,
    /// Publishing this version of this crate, whose archive has this
    /// checksum.
    Publish { name: String, version: String, cksum: String },
}

pub enum AuthMutationView {
    PrePublish,
    Publish { name: Seq<char>, version: Seq<char>, cksum: Seq<char> },
}

impl View for AuthMutation {
    type V = AuthMutationView;

    open spec fn view(&self) -> AuthMutationView {
        match self {
            AuthMutation::PrePublish => AuthMutationView::PrePublish,
            AuthMutation::Publish { name, version, cksum } => AuthMutationView::Publish {
                name: name@,
                version: version@,
                cksum: cksum@,
            },
        }
    }
}

pub open spec fn opt_mutation_view(o: Option<AuthMutation>) -> Option<AuthMutationView> {
    match o {
        Some(m) => Some(m@),
        None => None,
    }
}

/// The token purpose asked for when the registry is first set up: none on
/// a dry run.
pub open spec fn pre_publish_purpose(dry_run: bool) -> Option<AuthMutationView> {
    if dry_run {
        None
    } else {
        Some(AuthMutationView::PrePublish)
    }
}

/// The token purpose for publishing a package of this name and version from
/// an archive of these bytes: none on a dry run.
pub open spec fn publish_purpose(
    dry_run: bool,
    name: Seq<char>,
    version: Seq<char>,
    archive: Seq<u8>,
) -> Option<AuthMutationView> {
    if dry_run {
        None
    } else {
        Some(AuthMutationView::Publish { name, version, cksum: sha256_hex(archive) })
    }
}

pub fn pre_publish_mutation(dry_run: bool) -> (m: Option<AuthMutation>)
    ensures
        opt_mutation_view(m) == pre_publish_purpose(dry_run),
{
    if dry_run {
        None
    } else {
        Some(AuthMutation::PrePublish)
    }
}

/// The token purpose for publishing `package` from the crate archive
/// `archive`: none on a dry run, else the package's name and version and
/// the archive's SHA-256 checksum.
pub fn publish_mutation(dry_run: bool, package: &Package, archive: &[u8]) -> (m: Option<
    AuthMutation,
>)
    ensures
        opt_mutation_view(m) == publish_purpose(
            dry_run,
            package.name@,
            package.version@,
            archive@,
        ),
{
    if dry_run {
        None
    } else {
        let cksum = archive_checksum(archive);
        Some(
            AuthMutation::Publish {
                name: package.name.clone(),
                version: package.version.clone(),
                cksum,
            },
        )
    }
}

/// How long, in seconds, to wait for a published crate to show up in the
/// index: cargo's default of 60 unless the unstable `publish.timeout` key
/// is enabled and set; no wait on a dry run or for a timeout of 0.
pub open spec fn wait_seconds(
    dry_run: bool,
    timeout_key_enabled: bool,
    configured: Option<u64>,
) -> Option<u64> {
    let timeout: u64 = if timeout_key_enabled {
        match configured {
            Some(t) => t,
            None => 60,
        }
    } else {
        60
    };
    if dry_run || timeout == 0 {
        None
    } else {
        Some(timeout)
    }
}

pub fn publish_wait_seconds(
    dry_run: bool,
    timeout_key_enabled: bool,
    configured: Option<u64>,
) -> (r: Option<u64>)
    ensures
        r == wait_seconds(dry_run, timeout_key_enabled, configured),
{
    if dry_run {
        return None;
    }
    let timeout: u64 = if timeout_key_enabled {
        match configured {
            Some(t) => t,
            None => 60,
        }
    } else {
        60
    };
    if 0 < timeout {
        Some(timeout)
    } else {
        None
    }
}

/// What happens to a crate once its publish request is prepared.
pub enum TransmitPlan {
    /// A dry run stops before the upload.
    DryRun,
    /// The crate is uploaded with these dependencies.
    Upload(Vec<NewDependency>),
}

pub enum TransmitPlanView {
    DryRun,
    Upload(Seq<NewDependencyView>),
}

pub open spec fn plan_view(r: Result<TransmitPlan, UploadError>) -> Result<
    TransmitPlanView,
    ErrorView,
> {
    match r {
        Ok(TransmitPlan::DryRun) => Ok(TransmitPlanView::DryRun),
        Ok(TransmitPlan::Upload(v)) => Ok(TransmitPlanView::Upload(new_dependency_views(v@))),
        Err(e) => Err(e@),
    }
}

/// The decisions of a publish request, in the order they are taken: the
/// dependency listing (whose first error stops everything), then the
/// license file the manifest names, which must exist, then the dry run.
pub open spec fn transmit_plan(
    listing: Result<Seq<NewDependencyView>, ErrorView>,
    license_file: Option<Seq<char>>,
    license_file_exists: bool,
    dry_run: bool,
) -> Result<TransmitPlanView, ErrorView> {
    match listing {
        Err(e) => Err(e),
        Ok(deps) => match license_file {
            Some(file) if !license_file_exists => Err(ErrorView::LicenseFileMissing { file }),
            _ => if dry_run {
                Ok(TransmitPlanView::DryRun)
            } else {
                Ok(TransmitPlanView::Upload(deps))
            },
        },
    }
}

/// Prepares the publish request of a crate for `registry_id`.
/// `license_file_exists` tells whether the license file that the manifest
/// names (if any) exists in the package.
pub fn plan_transmit(
    deps: &Vec<Dependency>,
    registry_id: &SourceId,
    crates_io: &Result<SourceId, String>,
    license_file: &Option<String>,
    license_file_exists: bool,
    dry_run: bool,
) -> (r: Result<TransmitPlan, UploadError>)
    ensures
        plan_view(r) == transmit_plan(
            dependency_listing(
                dependency_views(deps@),
                registry_id@,
                source_result_view(*crates_io),
            ),
            opt_text(*license_file),
            license_file_exists,
            dry_run,
        ),
{
    let listed = publish_dependencies(deps, registry_id, crates_io);
    match listed {
        Err(e) => Err(e),
        Ok(list) => {
            if let Some(file) = license_file {
                if !license_file_exists {
                    return Err(UploadError::LicenseFileMissing { file: file.clone() });
                }
            }
            if dry_run {
                Ok(TransmitPlan::DryRun)
            } else {
                Ok(TransmitPlan::Upload(list))
            }
        },
    }
}

/// The warning about categories that the registry ignored.
pub open spec fn categories_warning(categories: Seq<Seq<char>>) -> Seq<char> {
    "the following are not valid category slugs and were ignored: "@ + joined(categories, ", "@)
        + ". Please see https://crates.io/category_slugs for the list of all category slugs. "@
}

/// The warning about badges that the registry ignored.
pub open spec fn badges_warning(badges: Seq<Seq<char>>) -> Seq<char> {
    "the following are not valid badges and were ignored: "@ + joined(badges, ", "@)
        + ". Either the badge type specified is unknown or a required attribute is missing. Please see https://doc.rust-lang.org/cargo/reference/manifest.html#package-metadata for valid badge types and their required attributes."@
}

/// The warnings to show after a publish: one for the invalid categories and
/// one for the invalid badges, each only where there are some, then each
/// other warning of the registry as it is.
pub open spec fn publish_warning_texts(
    invalid_categories: Seq<Seq<char>>,
    invalid_badges: Seq<Seq<char>>,
    other: Seq<Seq<char>>,
) -> Seq<Seq<char>> {
    (if invalid_categories.len() == 0 {
        Seq::empty()
    } else {
        seq![categories_warning(invalid_categories)]
    }) + (if invalid_badges.len() == 0 {
        Seq::empty()
    } else {
        seq![badges_warning(invalid_badges)]
    }) + other
}

pub fn publish_warnings(
    invalid_categories: &Vec<String>,
    invalid_badges: &Vec<String>,
    other: &Vec<String>,
) -> (w: Vec<String>)
    ensures
        texts(w@) == publish_warning_texts(
            texts(invalid_categories@),
            texts(invalid_badges@),
            texts(other@),
        ),
{
    let mut w: Vec<String> = Vec::new();
    if invalid_categories.len() > 0 {
        let mut msg = String::new();
        msg.append("the following are not valid category slugs and were ignored: ");
        let list = join_texts(invalid_categories, ", ");
        msg.append(list.as_str());
        msg.append(
            ". Please see https://crates.io/category_slugs for the list of all category slugs. ",
        );
        w.push(msg);
    }
    if invalid_badges.len() > 0 {
        let mut msg = String::new();
        msg.append("the following are not valid badges and were ignored: ");
        let list = join_texts(invalid_badges, ", ");
        msg.append(list.as_str());
        msg.append(
            ". Either the badge type specified is unknown or a required attribute is missing. Please see https://doc.rust-lang.org/cargo/reference/manifest.html#package-metadata for valid badge types and their required attributes.",
        );
        w.push(msg);
    }
    let ghost head = w@;
    let mut i: usize = 0;
    while i < other.len()
        invariant
            i <= other.len(),
            w@.len() == head.len() + i,
            forall|j: int| 0 <= j < head.len() ==> #[trigger] w@[j] == head[j],
            forall|j: int| 0 <= j < i ==> #[trigger] w@[head.len() + j]@ == other@[j]@,
        decreases other.len() - i,
    {
        w.push(other[i].clone());
        i = i + 1;
    }
    proof {
        let expected = publish_warning_texts(
            texts(invalid_categories@),
            texts(invalid_badges@),
            texts(other@),
        );
        let prefix = (if invalid_categories.len() == 0 {
            Seq::empty()
        } else {
            seq![categories_warning(texts(invalid_categories@))]
        }) + (if invalid_badges.len() == 0 {
            Seq::empty()
        } else {
            seq![badges_warning(texts(invalid_badges@))]
        });
        assert(texts(head) =~= prefix);
        assert(expected == prefix + texts(other@));
        assert forall|j: int| 0 <= j < w@.len() implies #[trigger] texts(w@)[j] == expected[j] by {
            if j < head.len() {
                assert(texts(head)[j] == prefix[j]);
            } else {
                assert(w@[head.len() + (j - head.len())]@ == other@[j - head.len()]@);
            }
        }
        assert(texts(w@) =~= expected);
    }
    w
}

} // verus!
