use vstd::prelude::*;

use crate::error::{result_view, ErrorView, UploadError};
use crate::source::{crates_io_registry, crates_io_registry_name, SourceId, SourceIdView};
use crate::text::{copy_opt, opt_list_text, opt_text, same_text, texts};

verus! {

/// The registry a crate is published to, given the registry asked for on
/// the command line (`requested`) and the registries that the manifest's
/// `package.publish` allows (`allowed`, `None` when it allows any).
///
/// With no registry asked for and exactly one allowed that is not
/// crates.io, that one is taken. A list that is empty forbids publishing;
/// a registry (crates.io when none is chosen) that the list does not name is
/// refused.
pub open spec fn publish_registry(
    requested: Option<Seq<char>>,
    allowed: Option<Seq<Seq<char>>>,
    package: Seq<char>,
) -> Result<Option<Seq<char>>, ErrorView> {
    match allowed {
        None => Ok(requested),
        Some(list) => {
            let chosen = if requested is None && list.len() == 1 && list[0]
                != crates_io_registry() {
                Some(list[0])
            } else {
                requested
            };
            let name = match chosen {
                Some(r) => r,
                None => crates_io_registry(),
            };
            if list.len() == 0 {
                Err(ErrorView::PublishDisabled { package })
            } else if !list.contains(name) {
                Err(ErrorView::RegistryNotAllowed { package, registry: name })
            } else {
                Ok(chosen)
            }
        },
    }
}

pub open spec fn chosen_view(r: Result<Option<String>, UploadError>) -> Result<
    Option<Seq<char>>,
    ErrorView,
> {
    match r {
        Ok(o) => Ok(opt_text(o)),
        Err(e) => Err(e@),
    }
}

fn list_contains(list: &Vec<String>, name: &String) -> (b: bool)
    ensures
        b == texts(list@).contains(name@),
{
    let mut i: usize = 0;
    while i < list.len()
        invariant
            i <= list.len(),
            forall|j: int| 0 <= j < i ==> texts(list@)[j] != name@,
        decreases list.len() - i,
    {
        if same_text(list[i].as_str(), name.as_str()) {
            assert(texts(list@)[i as int] == name@);
            return true;
        }
        i = i + 1;
    }
    false
}

/// Chooses the registry to publish to and checks it against the
/// registries that the package allows.
pub fn select_publish_registry(
    requested: &Option<String>,
    allowed: &Option<Vec<String>>,
    package_name: &String,
) -> (r: Result<Option<String>, UploadError>)
    ensures
        chosen_view(r) == publish_registry(
            opt_text(*requested),
            opt_list_text(*allowed),
            package_name@,
        ),
{
    match allowed {
        None => Ok(copy_opt(requested)),
        Some(list) => {
            let mut chosen = copy_opt(requested);
            if requested.is_none() && list.len() == 1 {
                let only = &list[0];
                let crates_io = crates_io_registry_name();
                if !same_text(only.as_str(), crates_io.as_str()) {
                    chosen = Some(only.clone());
                }
            }
            let name = match &chosen {
                Some(r) => r.clone(),
                None => crates_io_registry_name(),
            };
            if list.len() == 0 {
                Err(UploadError::PublishDisabled { package: package_name.clone() })
            } else if !list_contains(list, &name) {
                Err(UploadError::RegistryNotAllowed { package: package_name.clone(), registry: name })
            } else {
                Ok(chosen)
            }
        },
    }
}

/// A package whose `package.publish` is `false` or an empty list is never
/// published, and a registry chosen under a list is one it names.
pub proof fn lemma_publish_registry_is_allowed(
    requested: Option<Seq<char>>,
    list: Seq<Seq<char>>,
    package: Seq<char>,
)
    ensures
        list.len() == 0 ==> publish_registry(requested, Some(list), package) is Err,
        publish_registry(requested, Some(list), package) matches Ok(chosen) ==> list.contains(
            match chosen {
                Some(r) => r,
                None => crates_io_registry(),
            },
        ),
{
}

/// `--index` without `--token` is refused when the upload needs a token.
pub fn check_index_token(token_required: bool, index_given: bool, token_given: bool) -> (r: Result<
    (),
    UploadError,
>)
    ensures
        r is Ok <==> !(token_required && index_given && !token_given),
        r matches Err(e) ==> e@ == ErrorView::IndexWithoutToken,
{
    if token_required && index_given && !token_given {
        Err(UploadError::IndexWithoutToken)
    } else {
        Ok(())
    }
}

/// How to reach a registry's API.
pub struct RegistryAccess {
    /// Where the registry's API lives.
    pub api_host: String,
    /// Whether the client must carry an API token.
    pub needs_token: bool,
}

/// Settles how to reach the registry at `source` from its index
/// configuration: `api` is the API host it declares, `auth_required` whether
/// it asks every request to authenticate, `token_required` whether the
/// upload itself needs a token. A registry without API is refused.
pub fn registry_access(
    api: Option<String>,
    auth_required: bool,
    token_required: bool,
    source: &SourceId,
) -> (r: Result<RegistryAccess, UploadError>)
    ensures
        r is Ok <==> api is Some,
        r matches Ok(a) ==> a.api_host@ == api->0@ && a.needs_token == (token_required
            || auth_required),
        r matches Err(e) ==> e@ == (ErrorView::NoApiSupport { source: source.display@ }),
{
    match api {
        Some(api_host) => Ok(RegistryAccess { api_host, needs_token: token_required || auth_required }),
        None => Err(UploadError::NoApiSupport { source: source.display.clone() }),
    }
}

/// The source that the command line designates: crates.io when it names
/// no registry, else the registry of the name given with `--index`, else
/// the one given with `--registry`. Both options name a registry of cargo's
/// configuration; `--index` takes precedence.
pub enum SourceRequest {
    CratesIo,
    Registry(String),
}

pub fn requested_source(registry: &Option<String>, index: &Option<String>) -> (r: SourceRequest)
    ensures
        (match r {
            SourceRequest::CratesIo => registry is None && index is None,
            SourceRequest::Registry(n) => if index is Some {
                n@ == index->0@
            } else {
                registry is Some && n@ == registry->0@
            },
        }),
{
    match (registry, index) {
        (None, None) => SourceRequest::CratesIo,
        (_, Some(i)) => SourceRequest::Registry(i.clone()),
        (Some(r), None) => SourceRequest::Registry(r.clone()),
    }
}

/// When the command line names neither registry nor index, a replacement
/// of crates.io that the user configured (`replacement` differs from cargo's
/// built-in `builtin_replacement`) is refused.
pub open spec fn replacement_check(
    registry_given: bool,
    index_given: bool,
    builtin_replacement: SourceIdView,
    replacement: SourceIdView,
) -> Result<(), ErrorView> {
    if !registry_given && !index_given && !replacement.same_as(builtin_replacement) {
        match replacement.alt_registry_key {
            Some(name) => Err(ErrorView::ReplacedWithRegistry { registry: name }),
            None => Err(ErrorView::ReplacedWithSource { source: replacement.display }),
        }
    } else {
        Ok(())
    }
}

pub fn check_source_replacement(
    registry_given: bool,
    index_given: bool,
    builtin_replacement: &SourceId,
    replacement: &SourceId,
) -> (r: Result<(), UploadError>)
    ensures
        result_view(r) == replacement_check(
            registry_given,
            index_given,
            builtin_replacement@,
            replacement@,
        ),
{
    if !registry_given && !index_given && !replacement.same_source(builtin_replacement) {
        match &replacement.alt_registry_key {
            Some(name) => Err(UploadError::ReplacedWithRegistry { registry: name.clone() }),
            None => Err(UploadError::ReplacedWithSource { source: replacement.display.clone() }),
        }
    } else {
        Ok(())
    }
}

} // verus!
