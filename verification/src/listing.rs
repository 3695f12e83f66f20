use vstd::prelude::*;

use crate::dependency::{dependency_views, is_transitive, DepKind, Dependency, DependencyView};
use crate::error::{ErrorView, UploadError};
use crate::source::{SourceId, SourceIdView};
use crate::text::{copy_opt, copy_strings, opt_text, texts};

verus! {

/// A dependency as the registry's publish request describes it.
pub struct NewDependency {
    pub optional: bool,
    pub default_features: bool,
    pub name: String,
    pub features: Vec<String>,
    pub version_req: String,
    pub target: Option<String>,
    pub kind: String,
    /// The index URL of the dependency's registry, when that is not the
    /// registry the crate is published to.
    pub registry: Option<String>,
    pub explicit_name_in_toml: Option<String>,
}

pub struct NewDependencyView {
    pub optional: bool,
    pub default_features: bool,
    pub name: Seq<char>,
    pub features: Seq<Seq<char>>,
    pub version_req: Seq<char>,
    pub target: Option<Seq<char>>,
    pub kind: Seq<char>,
    pub registry: Option<Seq<char>>,
    pub explicit_name_in_toml: Option<Seq<char>>,
}

impl View for NewDependency {
    type V = NewDependencyView;

    open spec fn view(&self) -> NewDependencyView {
        NewDependencyView {
            optional: self.optional,
            default_features: self.default_features,
            name: self.name@,
            features: texts(self.features@),
            version_req: self.version_req@,
            target: opt_text(self.target),
            kind: self.kind@,
            registry: opt_text(self.registry),
            explicit_name_in_toml: opt_text(self.explicit_name_in_toml),
        }
    }
}

/// The views of a list of publish-request dependencies.
pub open spec fn new_dependency_views(v: Seq<NewDependency>) -> Seq<NewDependencyView> {
    v.map_values(|d: NewDependency| d@)
}

/// How the publish request names a dependency kind.
pub open spec fn kind_label(kind: DepKind) -> Seq<char> {
    match kind {
        DepKind::Normal => "normal"@,
        DepKind::Build => "build"@,
        DepKind::Development => "dev"@,
    }
}

/// Whether a dependency goes into the publish request: development
/// dependencies without a version requirement stay out.
pub open spec fn is_listed(dep: DependencyView) -> bool {
    is_transitive(dep.kind) || dep.specified_req
}

/// The request entry of `dep`, for a crate published to `registry_id`,
/// where `dep_registry` is the registry the dependency comes from.
pub open spec fn request_entry(
    dep: DependencyView,
    registry_id: SourceIdView,
    dep_registry: SourceIdView,
) -> NewDependencyView {
    NewDependencyView {
        optional: dep.optional,
        default_features: dep.uses_default_features,
        name: dep.package_name,
        features: dep.features,
        version_req: dep.version_req,
        target: dep.platform,
        kind: kind_label(dep.kind),
        registry: if dep_registry.same_as(registry_id) {
            None
        } else {
            Some(dep_registry.url)
        },
        explicit_name_in_toml: dep.explicit_name_in_toml,
    }
}

/// The request entry of `dep`; a dependency that names no registry comes
/// from crates.io, which `crates_io` locates (or says why it cannot).
pub open spec fn new_dependency(
    dep: DependencyView,
    registry_id: SourceIdView,
    crates_io: Result<SourceIdView, Seq<char>>,
) -> Result<NewDependencyView, ErrorView> {
    match dep.registry_id {
        Some(r) => Ok(request_entry(dep, registry_id, r)),
        None => match crates_io {
            Ok(c) => Ok(request_entry(dep, registry_id, c)),
            Err(message) => Err(ErrorView::Config { message }),
        },
    }
}

/// The dependencies that the publish request lists, in order, or the first
/// error met on the way.
pub open spec fn dependency_listing(
    deps: Seq<DependencyView>,
    registry_id: SourceIdView,
    crates_io: Result<SourceIdView, Seq<char>>,
) -> Result<Seq<NewDependencyView>, ErrorView>
    decreases deps.len(),
{
    if deps.len() == 0 {
        Ok(Seq::empty())
    } else {
        match dependency_listing(deps.drop_last(), registry_id, crates_io) {
            Err(e) => Err(e),
            Ok(before) => if !is_listed(deps.last()) {
                Ok(before)
            } else {
                match new_dependency(deps.last(), registry_id, crates_io) {
                    Err(e) => Err(e),
                    Ok(d) => Ok(before.push(d)),
                }
            },
        }
    }
}

pub open spec fn source_result_view(r: Result<SourceId, String>) -> Result<SourceIdView, Seq<char>> {
    match r {
        Ok(s) => Ok(s@),
        Err(m) => Err(m@),
    }
}

/// The listing, with its entries taken by their views.
pub open spec fn listing_view(r: Result<Vec<NewDependency>, UploadError>) -> Result<
    Seq<NewDependencyView>,
    ErrorView,
> {
    match r {
        Ok(v) => Ok(new_dependency_views(v@)),
        Err(e) => Err(e@),
    }
}

fn kind_text(kind: DepKind) -> (s: String)
    ensures
        s@ == kind_label(kind),
{
    match kind {
        DepKind::Normal => String::from_str("normal"),
        DepKind::Build => String::from_str("build"),
        DepKind::Development => String::from_str("dev"),
    }
}

fn entry_for(dep: &Dependency, registry_id: &SourceId, dep_registry: &SourceId) -> (d: NewDependency)
    ensures
        d@ == request_entry(dep@, registry_id@, dep_registry@),
{
    let registry = if dep_registry.same_source(registry_id) {
        None
    } else {
        Some(dep_registry.url.clone())
    };
    NewDependency {
        optional: dep.optional,
        default_features: dep.uses_default_features,
        name: dep.package_name.clone(),
        features: copy_strings(&dep.features),
        version_req: dep.version_req.clone(),
        target: copy_opt(&dep.platform),
        kind: kind_text(dep.kind),
        registry,
        explicit_name_in_toml: copy_opt(&dep.explicit_name_in_toml),
    }
}

/// The dependencies of a crate as its publish request to `registry_id`
/// lists them: development dependencies without a version requirement
/// are left out, and a dependency from another registry than `registry_id`
/// carries that registry's URL.
pub fn publish_dependencies(
    deps: &Vec<Dependency>,
    registry_id: &SourceId,
    crates_io: &Result<SourceId, String>,
) -> (r: Result<Vec<NewDependency>, UploadError>)
    ensures
        listing_view(r) == dependency_listing(
            dependency_views(deps@),
            registry_id@,
            source_result_view(*crates_io),
        ),
{
    let ghost views = dependency_views(deps@);
    let ghost cio = source_result_view(*crates_io);
    let mut out: Vec<NewDependency> = Vec::new();
    let mut i: usize = 0;
    proof {
        assert(views.take(0).len() == 0);
        assert(new_dependency_views(out@) =~= Seq::<NewDependencyView>::empty());
    }
    while i < deps.len()
        invariant
            i <= deps.len(),
            views == dependency_views(deps@),
            cio == source_result_view(*crates_io),
            dependency_listing(views.take(i as int), registry_id@, cio) == Ok::<
                Seq<NewDependencyView>,
                ErrorView,
            >(new_dependency_views(out@)),
        decreases deps.len() - i,
    {
        let dep = &deps[i];
        proof {
            assert(views.take(i + 1).drop_last() == views.take(i as int));
            assert(views.take(i + 1).last() == dep@);
        }
        let listed = dep.kind != DepKind::Development || dep.specified_req;
        if listed {
            let entry = match &dep.registry_id {
                Some(r) => entry_for(dep, registry_id, r),
                None => match crates_io {
                    Ok(c) => entry_for(dep, registry_id, c),
                    Err(message) => {
                        proof {
                            lemma_listing_settled(views, i + 1, registry_id@, cio);
                        }
                        return Err(UploadError::Config { message: message.clone() });
                    },
                },
            };
            let ghost before = out@;
            out.push(entry);
            proof {
                assert(new_dependency_views(out@) =~= new_dependency_views(before).push(entry@));
            }
        }
        i = i + 1;
    }
    proof {
        assert(views.take(deps.len() as int) == views);
    }
    Ok(out)
}

/// Once a prefix of the dependencies fails, the whole listing fails alike.
proof fn lemma_listing_settled(
    deps: Seq<DependencyView>,
    k: int,
    registry_id: SourceIdView,
    crates_io: Result<SourceIdView, Seq<char>>,
)
    requires
        0 <= k <= deps.len(),
        dependency_listing(deps.take(k), registry_id, crates_io) is Err,
    ensures
        dependency_listing(deps, registry_id, crates_io) == dependency_listing(
            deps.take(k),
            registry_id,
            crates_io,
        ),
    decreases deps.len(),
{
    if k == deps.len() {
        assert(deps.take(k) == deps);
    } else {
        assert(deps.drop_last().take(k) == deps.take(k));
        lemma_listing_settled(deps.drop_last(), k, registry_id, crates_io);
    }
}

/// The entry of a listed dependency, where `crates_io` is the registry of
/// dependencies that name none.
pub open spec fn listed_entry(
    dep: DependencyView,
    registry_id: SourceIdView,
    crates_io: SourceIdView,
) -> NewDependencyView {
    request_entry(
        dep,
        registry_id,
        match dep.registry_id {
            Some(r) => r,
            None => crates_io,
        },
    )
}

/// The entries of the dependencies that the request lists, in order.
pub open spec fn filtered_entries(
    deps: Seq<DependencyView>,
    registry_id: SourceIdView,
    crates_io: SourceIdView,
) -> Seq<NewDependencyView> {
    deps.filter(|d: DependencyView| is_listed(d)).map_values(
        |d: DependencyView| listed_entry(d, registry_id, crates_io),
    )
}

/// Where crates.io can be located, the listing is the request entries of
/// exactly the listed dependencies, in their order: development
/// dependencies without a version requirement never reach the registry.
pub proof fn lemma_listing_is_filtered_entries(
    deps: Seq<DependencyView>,
    registry_id: SourceIdView,
    crates_io: SourceIdView,
)
    ensures
        dependency_listing(deps, registry_id, Ok(crates_io)) == Ok::<
            Seq<NewDependencyView>,
            ErrorView,
        >(filtered_entries(deps, registry_id, crates_io)),
    decreases deps.len(),
{
    reveal(Seq::filter);
    let p = |d: DependencyView| is_listed(d);
    let f = |d: DependencyView| listed_entry(d, registry_id, crates_io);
    if deps.len() == 0 {
        assert(deps.filter(p).map_values(f) =~= Seq::<NewDependencyView>::empty());
    } else {
        lemma_listing_is_filtered_entries(deps.drop_last(), registry_id, crates_io);
        let before = deps.drop_last().filter(p);
        if is_listed(deps.last()) {
            assert(deps.filter(p) == before.push(deps.last()));
            assert(before.push(deps.last()).map_values(f) =~= before.map_values(f).push(
                f(deps.last()),
            ));
        } else {
            assert(deps.filter(p) == before);
        }
    }
}

} // verus!
