use vstd::prelude::*;

use crate::dependency::{
    dependencies_verdict, dependency_verdict, is_transitive, lemma_all_accepted, version_check,
    DepKind, DependencyView,
};
use crate::error::ErrorView;
use crate::listing::{dependency_listing, new_dependency, NewDependencyView};
use crate::opts::{
    command_arguments, crate_path_filter, failures, is_crate_path, path_uploads, uploads,
};
use crate::publish::{
    pre_publish_purpose, publish_purpose, publish_warning_texts, transmit_plan, wait_seconds,
    TransmitPlanView,
};
use crate::registry::{publish_registry, replacement_check};
use crate::source::crates_io_registry;
use crate::digest::url_host_is_crates_io;
use crate::source::{is_registry_kind, SourceIdView, SourceKind};
use crate::wait::{next_wait_step, WaitStep};

verus! {

/// A dry run uploads nothing: no token is asked for publishing, the
/// publish request stops before the upload, and nobody waits for the index.
pub proof fn lemma_dry_run_uploads_nothing(
    listing: Result<Seq<NewDependencyView>, ErrorView>,
    license_file: Option<Seq<char>>,
    license_file_exists: bool,
    timeout_key_enabled: bool,
    configured_timeout: Option<u64>,
    name: Seq<char>,
    version: Seq<char>,
    archive: Seq<u8>,
)
    ensures
        pre_publish_purpose(true) is None,
        publish_purpose(true, name, version, archive) is None,
        !(transmit_plan(listing, license_file, license_file_exists, true) matches Ok(
            TransmitPlanView::Upload(_),
        )),
        wait_seconds(true, timeout_key_enabled, configured_timeout) is None,
{
}

/// A crate whose dependencies are accepted for crates.io depends on no crate
/// of another registry: every dependency that comes neither from a path nor
/// from git comes from the registry the crate is published to.
pub proof fn lemma_crates_io_dependencies_stay_on_crates_io(
    deps: Seq<DependencyView>,
    registry_src: SourceIdView,
    registry_host: Seq<char>,
)
    requires
        registry_src.is_crates_io,
        dependencies_verdict(deps, registry_src, registry_host) is Accepted,
    ensures
        forall|i: int|
            0 <= i < deps.len() && #[trigger] version_check(deps[i], true) == Ok::<
                bool,
                ErrorView,
            >(false) ==> deps[i].source_id.same_as(registry_src),
{
    lemma_all_accepted(deps, registry_src, registry_host);
    assert forall|i: int|
        0 <= i < deps.len() && #[trigger] version_check(deps[i], true) == Ok::<bool, ErrorView>(
            false,
        ) implies deps[i].source_id.same_as(registry_src) by {
        assert(dependency_verdict(deps[i], registry_src, registry_host) is Accepted);
    }
}

/// `cargo upload ARGS` and `cargo-upload ARGS` are read alike: run through
/// cargo, the arguments after `upload` are those given by the user.
pub proof fn lemma_cargo_subcommand_arguments(program: Seq<char>, rest: Seq<Seq<char>>)
    ensures
        command_arguments(seq![program, "upload"@] + rest) == seq!["upload"@] + rest,
{
    let args = seq![program, "upload"@] + rest;
    assert(args[1] == "upload"@);
    assert(args.drop_first() =~= seq!["upload"@] + rest);
}

/// Selecting the crate archives among paths that are all crate archives
/// keeps them all: selecting twice selects no less than once.
pub proof fn lemma_crate_selection_idempotent(paths: Seq<Seq<char>>)
    ensures
        paths.filter(crate_path_filter()).filter(crate_path_filter()) == paths.filter(
            crate_path_filter(),
        ),
    decreases paths.len(),
{
    reveal(Seq::filter);
    let p = crate_path_filter();
    if paths.len() > 0 {
        lemma_crate_selection_idempotent(paths.drop_last());
        let before = paths.drop_last().filter(p);
        if p(paths.last()) {
            assert(paths.filter(p) == before.push(paths.last()));
            assert(before.push(paths.last()).drop_last() == before);
        }
    }
}

/// The uploads of two lists of paths one after the other are the uploads
/// of the first list followed by those of the second.
pub proof fn lemma_uploads_concat(
    a: Seq<Seq<char>>,
    fa: Seq<Option<Seq<Seq<char>>>>,
    b: Seq<Seq<char>>,
    fb: Seq<Option<Seq<Seq<char>>>>,
)
    requires
        a.len() == fa.len(),
        b.len() == fb.len(),
    ensures
        uploads(a + b, fa + fb) == uploads(a, fa) + uploads(b, fb),
    decreases b.len(),
{
    if b.len() == 0 {
        assert(a + b =~= a);
        assert(fa + fb =~= fa);
        assert(uploads(b, fb) =~= Seq::<Seq<char>>::empty());
        assert(uploads(a, fa) + uploads(b, fb) =~= uploads(a, fa));
    } else {
        lemma_uploads_concat(a, fa, b.drop_last(), fb.drop_last());
        assert((a + b).drop_last() =~= a + b.drop_last());
        assert((fa + fb).drop_last() =~= fa + fb.drop_last());
        assert((fa + fb)[(a + b).len() - 1] == fb[b.len() - 1]);
        assert(uploads(a, fa) + uploads(b.drop_last(), fb.drop_last()) + path_uploads(
            b.last(),
            fb[b.len() - 1],
        ) =~= uploads(a, fa) + (uploads(b.drop_last(), fb.drop_last()) + path_uploads(
            b.last(),
            fb[b.len() - 1],
        )));
    }
}

/// A path that is neither a folder nor a crate archive changes nothing:
/// inserted anywhere among the paths, the same crates are uploaded in the
/// same order, so the run makes the same uploads and ends the same way.
pub proof fn lemma_plain_path_changes_nothing(
    paths: Seq<Seq<char>>,
    folders: Seq<Option<Seq<Seq<char>>>>,
    k: int,
    path: Seq<char>,
)
    requires
        paths.len() == folders.len(),
        0 <= k <= paths.len(),
        !is_crate_path(path),
    ensures
        uploads(
            paths.take(k) + seq![path] + paths.skip(k),
            folders.take(k) + seq![None::<Seq<Seq<char>>>] + folders.skip(k),
        ) == uploads(paths, folders),
{
    let one = seq![path];
    let none = seq![None::<Seq<Seq<char>>>];
    lemma_uploads_concat(paths.take(k), folders.take(k), one, none);
    lemma_uploads_concat(paths.take(k) + one, folders.take(k) + none, paths.skip(k), folders.skip(k));
    lemma_uploads_concat(paths.take(k), folders.take(k), paths.skip(k), folders.skip(k));
    assert(one.drop_last().len() == 0);
    assert(uploads(one.drop_last(), none.drop_last()) =~= Seq::<Seq<char>>::empty());
    assert(none[0] is None);
    assert(path_uploads(path, none[0]) =~= Seq::<Seq<char>>::empty());
    assert(uploads(one, none) =~= Seq::<Seq<char>>::empty());
    assert(paths.take(k) + paths.skip(k) =~= paths);
    assert(folders.take(k) + folders.skip(k) =~= folders);
    assert(uploads(paths.take(k), folders.take(k)) + uploads(one, none) =~= uploads(
        paths.take(k),
        folders.take(k),
    ));
}

/// Everything that is uploaded is a crate archive.
pub proof fn lemma_uploads_are_crate_archives(
    paths: Seq<Seq<char>>,
    folders: Seq<Option<Seq<Seq<char>>>>,
)
    ensures
        forall|i: int|
            0 <= i < uploads(paths, folders).len() ==> is_crate_path(
                #[trigger] uploads(paths, folders)[i],
            ),
    decreases paths.len(),
{
    broadcast use vstd::seq_lib::group_filter_ensures;

    if paths.len() > 0 {
        lemma_uploads_are_crate_archives(paths.drop_last(), folders.drop_last());
        let before = uploads(paths.drop_last(), folders.drop_last());
        let last = path_uploads(paths.last(), folders[paths.len() - 1]);
        assert forall|i: int| 0 <= i < last.len() implies is_crate_path(#[trigger] last[i]) by {
            match folders[paths.len() - 1] {
                Some(entries) => {
                    assert(crate_path_filter()(entries.filter(crate_path_filter())[i]));
                },
                None => {},
            }
        }
        assert forall|i: int| 0 <= i < uploads(paths, folders).len() implies is_crate_path(
            #[trigger] uploads(paths, folders)[i],
        ) by {
            if i < before.len() {
                assert(uploads(paths, folders)[i] == before[i]);
            } else {
                assert(uploads(paths, folders)[i] == last[i - before.len()]);
            }
        }
    }
}

/// The publish request describes a dependency as the manifest declares it,
/// and names the registry the dependency comes from exactly when that is
/// not the registry the crate is published to: a dependency that names no
/// registry comes from crates.io, so a crate published elsewhere tells its
/// registry crates.io's index URL.
pub proof fn lemma_entry_names_foreign_registry(
    dep: DependencyView,
    target: SourceIdView,
    crates_io: SourceIdView,
)
    ensures
        new_dependency(dep, target, Ok(crates_io)) is Ok,
        ({
            let e = new_dependency(dep, target, Ok(crates_io))->Ok_0;
            &&& e.name == dep.package_name
            &&& e.version_req == dep.version_req
            &&& e.features == dep.features
            &&& e.optional == dep.optional
            &&& e.default_features == dep.uses_default_features
            &&& e.target == dep.platform
            &&& e.explicit_name_in_toml == dep.explicit_name_in_toml
            &&& dep.registry_id is None && !crates_io.same_as(target) ==> e.registry == Some(
                crates_io.url,
            )
            &&& dep.registry_id is None && crates_io.same_as(target) ==> e.registry is None
            &&& (dep.registry_id matches Some(r) && !r.same_as(target)) ==> e.registry == Some(
                dep.registry_id->0.url,
            )
            &&& (dep.registry_id matches Some(r) && r.same_as(target)) ==> e.registry is None
        }),
{
}

/// A single dependency is left out of the publish request exactly when it
/// is a development dependency without a version requirement; otherwise the
/// request lists it once, as [`lemma_entry_names_foreign_registry`] says.
pub proof fn lemma_single_dependency_listing(
    dep: DependencyView,
    target: SourceIdView,
    crates_io: SourceIdView,
)
    ensures
        dep.kind == DepKind::Development && !dep.specified_req ==> dependency_listing(
            seq![dep],
            target,
            Ok(crates_io),
        ) == Ok::<Seq<NewDependencyView>, ErrorView>(Seq::empty()),
        !(dep.kind == DepKind::Development && !dep.specified_req) ==> dependency_listing(
            seq![dep],
            target,
            Ok(crates_io),
        ) == Ok::<Seq<NewDependencyView>, ErrorView>(
            seq![new_dependency(dep, target, Ok(crates_io))->Ok_0],
        ),
{
    let one = seq![dep];
    assert(one.drop_last() =~= Seq::<DependencyView>::empty());
    assert(dependency_listing(one.drop_last(), target, Ok(crates_io)) == Ok::<
        Seq<NewDependencyView>,
        ErrorView,
    >(Seq::empty()));
    assert(one.last() == dep);
    assert(Seq::<NewDependencyView>::empty().push(new_dependency(dep, target, Ok(crates_io))->Ok_0)
        =~= seq![new_dependency(dep, target, Ok(crates_io))->Ok_0]);
}

/// A dependency that specifies a version requirement is never refused for
/// a missing version; a path or git dependency then passes the check. The
/// missing-version refusal comes only for a transitive path or git
/// dependency without a version requirement.
pub proof fn lemma_versioned_dependency_passes(dep: DependencyView, publishing: bool)
    ensures
        dep.specified_req ==> version_check(dep, publishing) is Ok,
        dep.specified_req && (dep.source_id.kind == SourceKind::Path || dep.source_id.kind
            == SourceKind::Git) ==> version_check(dep, publishing) == Ok::<bool, ErrorView>(true),
        version_check(dep, publishing) is Err ==> !dep.specified_req && is_transitive(dep.kind) && (
        dep.source_id.kind == SourceKind::Path || dep.source_id.kind == SourceKind::Git),
        !(dep.source_id.kind == SourceKind::Path || dep.source_id.kind == SourceKind::Git)
            ==> version_check(dep, publishing) == Ok::<bool, ErrorView>(false),
{
}

/// A registry asked for on the command line is never replaced: the crate
/// goes to that registry or is refused, and a list of allowed registries
/// that does not name it refuses it.
pub proof fn lemma_requested_registry_is_kept(
    r: Seq<char>,
    allowed: Option<Seq<Seq<char>>>,
    package: Seq<char>,
)
    ensures
        publish_registry(Some(r), allowed, package) is Ok ==> publish_registry(
            Some(r),
            allowed,
            package,
        ) == Ok::<Option<Seq<char>>, ErrorView>(Some(r)),
        allowed is None ==> publish_registry(Some(r), allowed, package) == Ok::<
            Option<Seq<char>>,
            ErrorView,
        >(Some(r)),
        (allowed matches Some(list) && list.contains(r)) ==> publish_registry(
            Some(r),
            allowed,
            package,
        ) == Ok::<Option<Seq<char>>, ErrorView>(Some(r)),
        (allowed matches Some(list) && list.len() > 0 && !list.contains(r)) ==> publish_registry(
            Some(r),
            allowed,
            package,
        ) == Err::<Option<Seq<char>>, ErrorView>(
            ErrorView::RegistryNotAllowed { package, registry: r },
        ),
{
}

/// Once the index lists the crate, the wait stops at once, however long it
/// has lasted.
pub proof fn lemma_listed_crate_stops_wait(timeout_nanos: u128, elapsed_nanos: u128)
    ensures
        next_wait_step(true, timeout_nanos, elapsed_nanos) == WaitStep::Published,
{
}

/// No failure is lost: every failed outcome appears among the failures,
/// the failures are exactly the failed outcomes' errors (so there are as
/// many as failed outcomes), and there are none exactly when every outcome
/// succeeded.
pub proof fn lemma_no_failure_lost<E>(outcomes: Seq<Result<(), E>>)
    ensures
        failures(outcomes).len() == outcomes.filter(|o: Result<(), E>| o is Err).len(),
        failures(outcomes) == outcomes.filter(|o: Result<(), E>| o is Err).map_values(
            |o: Result<(), E>| o->Err_0,
        ),
        forall|i: int|
            0 <= i < outcomes.len() && #[trigger] outcomes[i] is Err ==> failures(
                outcomes,
            ).contains(outcomes[i]->Err_0),
        failures(outcomes).len() == 0 <==> forall|i: int|
            0 <= i < outcomes.len() ==> #[trigger] outcomes[i] is Ok,
    decreases outcomes.len(),
{
    reveal(Seq::filter);
    let p = |o: Result<(), E>| o is Err;
    let f = |o: Result<(), E>| o->Err_0;
    if outcomes.len() == 0 {
        assert(outcomes.filter(p).map_values(f) =~= Seq::<E>::empty());
    } else {
        let prefix = outcomes.drop_last();
        lemma_no_failure_lost(prefix);
        let before = prefix.filter(p);
        if p(outcomes.last()) {
            assert(outcomes.filter(p) == before.push(outcomes.last()));
            assert(before.push(outcomes.last()).map_values(f) =~= before.map_values(f).push(
                f(outcomes.last()),
            ));
        } else {
            assert(outcomes.filter(p) == before);
        }
        assert forall|i: int|
            0 <= i < outcomes.len() && #[trigger] outcomes[i] is Err implies failures(
                outcomes,
            ).contains(outcomes[i]->Err_0) by {
            if i < outcomes.len() - 1 {
                assert(prefix[i] == outcomes[i]);
                let j = choose|j: int|
                    0 <= j < failures(prefix).len() && failures(prefix)[j] == prefix[i]->Err_0;
                assert(failures(outcomes)[j] == failures(prefix)[j]);
            } else {
                assert(failures(outcomes).last() == outcomes[i]->Err_0);
            }
        }
        if forall|i: int| 0 <= i < outcomes.len() ==> #[trigger] outcomes[i] is Ok {
            assert forall|i: int| 0 <= i < prefix.len() implies #[trigger] prefix[i] is Ok by {
                assert(outcomes[i] is Ok);
            }
            assert(outcomes[outcomes.len() - 1] is Ok);
        }
        if failures(outcomes).len() == 0 {
            assert forall|i: int| 0 <= i < outcomes.len() implies #[trigger] outcomes[i] is Ok by {
                if outcomes[i] is Err {
                    assert(failures(outcomes).contains(outcomes[i]->Err_0));
                }
            }
        }
    }
}

/// The publish request goes through the checks in order: an error in the
/// dependency listing stops it, then a missing license file stops it (on a
/// dry run too), and otherwise a real run uploads exactly the listed
/// dependencies.
pub proof fn lemma_transmit_order(
    listing: Result<Seq<NewDependencyView>, ErrorView>,
    license_file: Option<Seq<char>>,
    license_file_exists: bool,
    dry_run: bool,
)
    ensures
        (listing matches Err(e)) ==> transmit_plan(listing, license_file, license_file_exists, dry_run)
            == Err::<TransmitPlanView, ErrorView>(listing->Err_0),
        (listing is Ok && license_file is Some && !license_file_exists) ==> transmit_plan(
            listing,
            license_file,
            license_file_exists,
            dry_run,
        ) == Err::<TransmitPlanView, ErrorView>(
            ErrorView::LicenseFileMissing { file: license_file->0 },
        ),
        (listing is Ok && (license_file is None || license_file_exists) && !dry_run)
            ==> transmit_plan(listing, license_file, license_file_exists, dry_run) == Ok::<
            TransmitPlanView,
            ErrorView,
        >(TransmitPlanView::Upload(listing->Ok_0)),
        (listing is Ok && (license_file is None || license_file_exists) && dry_run)
            ==> transmit_plan(listing, license_file, license_file_exists, dry_run) == Ok::<
            TransmitPlanView,
            ErrorView,
        >(TransmitPlanView::DryRun),
{
}

/// After a real publish the wait lasts cargo's default of 60 seconds unless
/// the `publish.timeout` key is enabled and set, in which case it lasts that
/// long, and a timeout of 0 means no wait.
pub proof fn lemma_wait_timeout(timeout_key_enabled: bool, configured: Option<u64>)
    ensures
        !timeout_key_enabled ==> wait_seconds(false, timeout_key_enabled, configured) == Some(
            60u64,
        ),
        timeout_key_enabled && configured is None ==> wait_seconds(
            false,
            timeout_key_enabled,
            configured,
        ) == Some(60u64),
        (timeout_key_enabled && configured is Some && configured->0 > 0) ==> wait_seconds(
            false,
            timeout_key_enabled,
            configured,
        ) == configured,
        timeout_key_enabled && configured == Some(0u64) ==> wait_seconds(
            false,
            timeout_key_enabled,
            configured,
        ) is None,
        wait_seconds(false, timeout_key_enabled, configured) matches Some(t) ==> t > 0,
{
}

/// A registry or index named on the command line is always used, and so is
/// a configuration that does not replace crates.io; a configured
/// replacement is refused otherwise.
pub proof fn lemma_replacement_refused_only_by_default(
    registry_given: bool,
    index_given: bool,
    builtin_replacement: SourceIdView,
    replacement: SourceIdView,
)
    ensures
        registry_given || index_given ==> replacement_check(
            registry_given,
            index_given,
            builtin_replacement,
            replacement,
        ) is Ok,
        replacement.same_as(builtin_replacement) ==> replacement_check(
            registry_given,
            index_given,
            builtin_replacement,
            replacement,
        ) is Ok,
        !registry_given && !index_given && !replacement.same_as(builtin_replacement)
            ==> replacement_check(registry_given, index_given, builtin_replacement, replacement)
            is Err,
{
}

/// Without a registry asked for, a package that allows exactly one registry
/// other than crates.io is published there; a package that allows any
/// registry goes where it is asked to, or to crates.io when none is asked.
pub proof fn lemma_default_publish_registry(
    requested: Option<Seq<char>>,
    only: Seq<char>,
    package: Seq<char>,
)
    ensures
        only != crates_io_registry() ==> publish_registry(None, Some(seq![only]), package)
            == Ok::<Option<Seq<char>>, ErrorView>(Some(only)),
        publish_registry(requested, None, package) == Ok::<Option<Seq<char>>, ErrorView>(
            requested,
        ),
{
    assert(seq![only][0] == only);
    assert(seq![only].contains(only));
}

/// The warnings after a publish: one about the ignored categories when
/// there are some, one about the ignored badges when there are some, and
/// then every other warning of the registry, unchanged and in order.
pub proof fn lemma_publish_warnings_shape(
    invalid_categories: Seq<Seq<char>>,
    invalid_badges: Seq<Seq<char>>,
    other: Seq<Seq<char>>,
)
    ensures
        ({
            let w = publish_warning_texts(invalid_categories, invalid_badges, other);
            let head = (if invalid_categories.len() > 0 {
                1int
            } else {
                0int
            }) + (if invalid_badges.len() > 0 {
                1int
            } else {
                0int
            });
            &&& w.len() == head + other.len()
            &&& forall|j: int| 0 <= j < other.len() ==> #[trigger] w[head + j] == other[j]
        }),
{
}

/// Run as `cargo-upload ARGS`, the arguments are parsed as given: only the
/// word `upload` right after the program's name is dropped, with the name.
pub proof fn lemma_arguments_kept_unless_subcommand(args: Seq<Seq<char>>)
    ensures
        !(args.len() > 1 && args[1] == "upload"@) ==> command_arguments(args) == args,
        args.len() > 1 && args[1] == "upload"@ ==> command_arguments(args) == args.subrange(
            1,
            args.len() as int,
        ),
{
}

/// A crate published to a registry that is not crates.io (by index and by
/// API host) may depend on crates of other registries, and a versioned
/// dependency of its own registry is always accepted.
pub proof fn lemma_private_registry_accepts_foreign_crates(
    dep: DependencyView,
    registry_src: SourceIdView,
    registry_host: Seq<char>,
)
    ensures
        (!registry_src.is_crates_io && !url_host_is_crates_io(registry_host) && is_registry_kind(
            dep.source_id.kind,
        )) ==> dependency_verdict(dep, registry_src, registry_host) is Accepted,
        (dep.source_id.same_as(registry_src) && dep.specified_req) ==> dependency_verdict(
            dep,
            registry_src,
            registry_host,
        ) is Accepted,
{
}

/// A path is taken for a crate archive exactly when its last six characters
/// are `.crate`: appending `.crate` to any path makes one, and a path
/// shorter than that is none.
pub proof fn lemma_crate_suffix(path: Seq<char>)
    ensures
        is_crate_path(path + ".crate"@),
        path.len() < 6 ==> !is_crate_path(path),
        is_crate_path(path) ==> path == path.take(path.len() - 6) + ".crate"@,
{
    let with = path + ".crate"@;
    assert(".crate"@.len() == 6) by {
        reveal_strlit(".crate");
    }
    assert(with.subrange(with.len() - 6, with.len() as int) =~= ".crate"@);
    if is_crate_path(path) {
        assert(path =~= path.take(path.len() - 6) + path.subrange(path.len() - 6, path.len() as int));
    }
}

} // verus!
