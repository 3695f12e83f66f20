use vstd::prelude::*;

use crate::text::{opt_list_text, same_text, texts};

verus! {

/// What the command line asks of an upload run.
#[derive(Clone, Debug)]
pub struct UploadOpts {
    /// Paths to crate files, or to folders of crate files.
    pub crate_paths: Vec<String>,
    /// API token given on the command line.
    pub token: Option<String>,
    /// The registry name in the cargo config, given with `--index`.
    pub index: Option<String>,
    /// Go on with the other crates when one fails.
    pub keep_going: bool,
    /// Do everything but the upload.
    pub dry_run: bool,
    /// Name of the registry in cargo's configuration.
    pub registry: Option<String>,
}

/// The name and version that a crate's manifest declares.
#[derive(Debug, PartialEq, Clone)]
pub struct Package {
    pub name: String,
    pub version: String,
}

/// The arguments to parse. Run as `cargo upload ...`, the program gets the
/// word `upload` after its own name; dropping the program's name leaves
/// `upload` in its place, so that both ways of running it parse alike.
pub open spec fn command_arguments(args: Seq<Seq<char>>) -> Seq<Seq<char>> {
    if args.len() > 1 && args[1] == "upload"@ {
        args.drop_first()
    } else {
        args
    }
}

pub fn upload_arguments(args: Vec<String>) -> (r: Vec<String>)
    ensures
        texts(r@) == command_arguments(texts(args@)),
{
    let mut args = args;
    if args.len() > 1 && same_text(args[1].as_str(), "upload") {
        let ghost before = args@;
        args.remove(0);
        proof {
            assert(texts(args@) =~= texts(before).drop_first());
        }
    }
    args
}

/// Whether a path names a crate archive: it ends in `.crate`.
pub open spec fn is_crate_path(path: Seq<char>) -> bool {
    path.len() >= 6 && path.subrange(path.len() - 6, path.len() as int) == ".crate"@
}

pub fn has_crate_extension(path: &str) -> (b: bool)
    ensures
        b == is_crate_path(path@),
{
    let n = path.unicode_len();
    if n < 6 {
        return false;
    }
    let tail = path.substring_char(n - 6, n);
    same_text(tail, ".crate")
}

/// [`is_crate_path`] as a predicate to filter with.
pub open spec fn crate_path_filter() -> spec_fn(Seq<char>) -> bool {
    |p: Seq<char>| is_crate_path(p)
}

/// The crate archives among the given paths, in their order.
pub fn crate_files(paths: &Vec<String>) -> (r: Vec<String>)
    ensures
        texts(r@) == texts(paths@).filter(crate_path_filter()),
{
    let ghost keep = crate_path_filter();
    let mut r: Vec<String> = Vec::new();
    let mut i: usize = 0;
    while i < paths.len()
        invariant
            i <= paths.len(),
            keep == crate_path_filter(),
            texts(r@) == texts(paths@.take(i as int)).filter(keep),
        decreases paths.len() - i,
    {
        let ghost before = r@;
        let is_crate = has_crate_extension(paths[i].as_str());
        if is_crate {
            r.push(paths[i].clone());
            proof {
                assert(texts(r@) =~= texts(before).push(paths@[i as int]@));
            }
        }
        proof {
            reveal(Seq::filter);
            let cur = texts(paths@.take(i + 1));
            assert(cur.drop_last() =~= texts(paths@.take(i as int)));
            assert(cur.last() == paths@[i as int]@);
        }
        i = i + 1;
    }
    proof {
        assert(paths@.take(paths.len() as int) == paths@);
    }
    r
}

/// The crate archives that one command-line path stands for: where the
/// path is a folder (`folder` lists its entries), the entries that are
/// crate archives, in the order given; else the path itself if it is a
/// crate archive, else nothing.
pub open spec fn path_uploads(path: Seq<char>, folder: Option<Seq<Seq<char>>>) -> Seq<Seq<char>> {
    match folder {
        Some(entries) => entries.filter(crate_path_filter()),
        None => if is_crate_path(path) {
            seq![path]
        } else {
            Seq::empty()
        },
    }
}

/// The crate archives that the command-line paths stand for, path by path.
pub open spec fn uploads(paths: Seq<Seq<char>>, folders: Seq<Option<Seq<Seq<char>>>>) -> Seq<
    Seq<char>,
>
    decreases paths.len(),
{
    if paths.len() == 0 {
        Seq::empty()
    } else {
        uploads(paths.drop_last(), folders.drop_last()) + path_uploads(
            paths.last(),
            folders[paths.len() - 1],
        )
    }
}

/// The texts of the folder listings.
pub open spec fn folder_texts(folders: Seq<Option<Vec<String>>>) -> Seq<Option<Seq<Seq<char>>>> {
    folders.map_values(|o: Option<Vec<String>>| opt_list_text(o))
}

/// The crate archives to upload. `folders[i]` lists the entries (as
/// paths) of `paths[i]` where that path is a folder, and is `None` where
/// it is not.
pub fn crate_files_in(paths: &Vec<String>, folders: &Vec<Option<Vec<String>>>) -> (r: Vec<String>)
    requires
        paths.len() == folders.len(),
    ensures
        texts(r@) == uploads(texts(paths@), folder_texts(folders@)),
{
    let ghost ps = texts(paths@);
    let ghost fs = folder_texts(folders@);
    let mut r: Vec<String> = Vec::new();
    let mut i: usize = 0;
    while i < paths.len()
        invariant
            i <= paths.len(),
            paths.len() == folders.len(),
            ps == texts(paths@),
            fs == folder_texts(folders@),
            texts(r@) == uploads(ps.take(i as int), fs.take(i as int)),
        decreases paths.len() - i,
    {
        let ghost before = r@;
        let mut chosen: Vec<String> = match &folders[i] {
            Some(entries) => crate_files(entries),
            None => {
                let mut one: Vec<String> = Vec::new();
                if has_crate_extension(paths[i].as_str()) {
                    one.push(paths[i].clone());
                    assert(texts(one@) =~= seq![paths@[i as int]@]);
                } else {
                    assert(texts(one@) =~= Seq::<Seq<char>>::empty());
                }
                one
            },
        };
        proof {
            assert(texts(chosen@) == path_uploads(ps[i as int], fs[i as int]));
        }
        let ghost added = chosen@;
        r.append(&mut chosen);
        proof {
            assert(texts(r@) =~= texts(before) + texts(added));
            assert(ps.take(i + 1).drop_last() =~= ps.take(i as int));
            assert(fs.take(i + 1).drop_last() =~= fs.take(i as int));
            assert(ps.take(i + 1).last() == ps[i as int]);
        }
        i = i + 1;
    }
    proof {
        assert(ps.take(paths.len() as int) == ps);
        assert(fs.take(paths.len() as int) == fs);
    }
    r
}

/// The failures among the outcomes of the uploads, in order.
pub open spec fn failures<E>(outcomes: Seq<Result<(), E>>) -> Seq<E>
    decreases outcomes.len(),
{
    if outcomes.len() == 0 {
        Seq::empty()
    } else {
        let before = failures(outcomes.drop_last());
        match outcomes.last() {
            Ok(()) => before,
            Err(e) => before.push(e),
        }
    }
}

/// The failures of a prefix of the outcomes come first among all failures.
proof fn lemma_failures_prefix<E>(outcomes: Seq<Result<(), E>>, k: int)
    requires
        0 <= k <= outcomes.len(),
    ensures
        failures(outcomes.take(k)).len() <= failures(outcomes).len(),
        forall|j: int|
            0 <= j < failures(outcomes.take(k)).len() ==> #[trigger] failures(outcomes)[j]
                == failures(outcomes.take(k))[j],
    decreases outcomes.len(),
{
    if k < outcomes.len() {
        assert(outcomes.drop_last().take(k) == outcomes.take(k));
        lemma_failures_prefix(outcomes.drop_last(), k);
    } else {
        assert(outcomes.take(k) == outcomes);
    }
}

/// The end of an upload run from the outcomes of its crates. Going on past
/// failures (`keep_going`), the run succeeds and hands back every failure,
/// in order, to be reported as a warning; otherwise it fails with the first
/// failure, and succeeds with nothing to report when there is none.
pub fn settle_uploads<E>(outcomes: Vec<Result<(), E>>, keep_going: bool) -> (r: Result<Vec<E>, E>)
    ensures
        keep_going ==> (r matches Ok(warnings) && warnings@ == failures(outcomes@)),
        !keep_going && failures(outcomes@).len() == 0 ==> (r matches Ok(warnings)
            && warnings@.len() == 0),
        !keep_going && failures(outcomes@).len() > 0 ==> r == Err::<Vec<E>, E>(
            failures(outcomes@)[0],
        ),
{
    let ghost all = outcomes@;
    assert(all.len() == outcomes.len());
    let mut rest = outcomes;
    let mut warnings: Vec<E> = Vec::new();
    let mut i: usize = 0;
    while rest.len() > 0
        invariant
            i + rest@.len() == all.len(),
            all == outcomes@,
            all.len() <= usize::MAX,
            rest@ == all.skip(i as int),
            warnings@ == failures(all.take(i as int)),
            !keep_going ==> failures(all.take(i as int)).len() == 0,
        decreases rest@.len(),
    {
        let outcome = rest.remove(0);
        proof {
            assert(outcome == all[i as int]);
            assert(all.take(i + 1).drop_last() == all.take(i as int));
            assert(all.take(i + 1).last() == all[i as int]);
            assert(rest@ == all.skip(i + 1));
        }
        match outcome {
            Ok(()) => {},
            Err(e) => {
                if keep_going {
                    warnings.push(e);
                } else {
                    proof {
                        assert(failures(all.take(i + 1)) == failures(all.take(i as int)).push(e));
                        lemma_failures_prefix(all, i + 1);
                    }
                    return Err(e);
                }
            },
        }
        i = i + 1;
    }
    proof {
        assert(all.take(i as int) == all);
    }
    Ok(warnings)
}

} // verus!
