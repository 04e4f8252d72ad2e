//! Locating the Dart project that contains a given path: the nearest
//! ancestor directory that holds a `pubspec.yaml`.

use vstd::prelude::*;
use vstd::string::*;

use crate::paths::{
    lemma_parent_of_join, lemma_parent_shorter, path_join, path_parent, spec_path_join,
    spec_path_parent, spec_trim_right, str_equal,
};

verus! {

/// The file whose presence makes a directory a Dart project.
pub open spec fn dart_project_sentinel() -> Seq<char> {
    seq!['p', 'u', 'b', 's', 'p', 'e', 'c', '.', 'y', 'a', 'm', 'l']
}

/// The `k`-th ancestor of `s` (`s` itself for `k == 0`), when there is one.
pub open spec fn spec_nth_ancestor(s: Seq<char>, k: nat) -> Option<Seq<char>>
    decreases k,
{
    if k == 0 {
        Some(s)
    } else {
        match spec_nth_ancestor(s, (k - 1) as nat) {
            Some(a) => spec_path_parent(a),
            None => None,
        }
    }
}

/// `p` is one of the ancestors of `s` (or `s` itself), written without
/// trailing separators.
pub open spec fn is_trimmed_ancestor(s: Seq<char>, p: Seq<char>) -> bool {
    exists|k: nat|
        #[trigger] spec_nth_ancestor(s, k) is Some && p == spec_trim_right(
            spec_nth_ancestor(s, k)->0,
        )
}

/// `path` is where the sentinel would be in one of the ancestors of `s`.
pub open spec fn is_ancestor_sentinel(s: Seq<char>, path: Seq<char>) -> bool {
    exists|k: nat|
        #[trigger] spec_nth_ancestor(s, k) is Some && path == spec_path_join(
            spec_nth_ancestor(s, k)->0,
            dart_project_sentinel(),
        )
}

/// Walking up from `s` reaches an ancestor (or `s` itself) that has no
/// parent: the top of the path.
pub open spec fn reaches_top(s: Seq<char>) -> bool {
    exists|k: nat|
        #[trigger] spec_nth_ancestor(s, k) is Some && spec_path_parent(
            spec_nth_ancestor(s, k)->0,
        ) is None
}

#[derive(Debug)]
pub enum RelocateDartProjectError {
    /// Whether `path` exists could not be found out.
    CheckPubspecYamlExistError { source: std::io::Error, path: String },
    /// No ancestor holds a `pubspec.yaml`.
    DartProjectNotFound,
}

/// What to do after looking for the sentinel in one candidate directory.
#[derive(Debug)]
pub enum RelocateStep {
    /// The candidate holds a `pubspec.yaml`: it is the project.
    Found(String),
    /// It does not: look in its parent next.
    Continue(String),
    /// It does not, and it has no parent.
    NotFound,
}

/// The step after checking whether `candidate` holds a `pubspec.yaml`
/// (`sentinel_exists`): the candidate itself (as the parent of its sentinel's
/// path, that is without trailing separators) when it does, else its parent,
/// or the end of the search at the top.
pub fn relocate_step(candidate: &str, sentinel_exists: bool) -> (r: RelocateStep)
    ensures
        sentinel_exists ==> (r matches RelocateStep::Found(p) && p@ == spec_trim_right(candidate@)),
        !sentinel_exists ==> match spec_path_parent(candidate@) {
            Some(parent) => (r matches RelocateStep::Continue(c) && c@ == parent),
            None => r matches RelocateStep::NotFound,
        },
{
    if sentinel_exists {
        let sentinel = "pubspec.yaml";
        proof {
            reveal_strlit("pubspec.yaml");
            assert(sentinel@ =~= dart_project_sentinel());
            assert forall|i: int| 0 <= i < dart_project_sentinel().len() implies
                dart_project_sentinel()[i] != '/' by {}
            assert(dart_project_sentinel() != seq!['.']);
            lemma_parent_of_join(candidate@, dart_project_sentinel());
        }
        let dart_project_path = path_join(candidate, sentinel);
        match path_parent(dart_project_path.as_str()) {
            Some(project) => RelocateStep::Found(project),
            None => {
                assert(false);
                RelocateStep::NotFound
            },
        }
    } else {
        match path_parent(candidate) {
            Some(parent) => RelocateStep::Continue(parent),
            None => RelocateStep::NotFound,
        }
    }
}

/// Calls `std::path::Path::try_exists` on `path`. The answer depends on the
/// file system at the time of the call, so the contract claims nothing of it.
#[verifier::external_body]
fn path_try_exists(path: &str) -> Result<bool, std::io::Error> {
    std::path::Path::new(path).try_exists()
}

/// Relocate the dart project to ensure the path contains `pubspec.yaml` to
/// be qualified as a Dart project: walks up from the estimate to the first
/// directory that holds a `pubspec.yaml`.
///
/// Which directories hold one is read from the file system, so the contract
/// says what holds of every answer: a project found is one of the ancestors
/// of the estimate, an error names the sentinel of one of them, and the
/// search gives up only once it has walked up to an ancestor with no parent.
pub fn relocate_dart_project(estimated_dart_project_path: String) -> (r: Result<
    String,
    RelocateDartProjectError,
>)
    ensures
        r matches Ok(p) ==> is_trimmed_ancestor(estimated_dart_project_path@, p@),
        r matches Err(RelocateDartProjectError::CheckPubspecYamlExistError { path, .. })
            ==> is_ancestor_sentinel(estimated_dart_project_path@, path@),
        r matches Err(RelocateDartProjectError::DartProjectNotFound) ==> reaches_top(
            estimated_dart_project_path@,
        ),
{
    let ghost est = estimated_dart_project_path@;
    let sentinel = "pubspec.yaml";
    proof {
        reveal_strlit("pubspec.yaml");
        assert(sentinel@ =~= dart_project_sentinel());
    }
    let mut current = estimated_dart_project_path;
    let ghost mut k: nat = 0;
    loop
        invariant
            sentinel@ == dart_project_sentinel(),
            est == estimated_dart_project_path@,
            spec_nth_ancestor(est, k) == Some(current@),
        decreases current@.len(),
    {
        let dart_project_path = path_join(current.as_str(), sentinel);
        let sentinel_exists = match path_try_exists(dart_project_path.as_str()) {
            Ok(exists) => exists,
            Err(source) => {
                assert(is_ancestor_sentinel(est, dart_project_path@));
                return Err(
                    RelocateDartProjectError::CheckPubspecYamlExistError {
                        source,
                        path: dart_project_path,
                    },
                );
            },
        };
        proof {
            lemma_parent_shorter(current@);
        }
        match relocate_step(current.as_str(), sentinel_exists) {
            RelocateStep::Found(project) => {
                assert(is_trimmed_ancestor(est, project@));
                return Ok(project);
            },
            RelocateStep::Continue(parent) => {
                proof {
                    k = k + 1;
                }
                current = parent;
            },
            RelocateStep::NotFound => {
                assert(spec_nth_ancestor(est, k) is Some);
                return Err(RelocateDartProjectError::DartProjectNotFound);
            },
        }
    }
}

/// Why the Flutter project could not be located.
#[derive(Debug)]
pub enum MainError {
    GetCurrentDirError { err: std::io::Error },
    RelocateDartProjectError(RelocateDartProjectError),
    DartProjectNotFound { path: String },
}

/// Whether the project path argument stands for the current directory: it is
/// absent or `.`.
pub open spec fn means_current_dir(dart_project_path: Option<String>) -> bool {
    match dart_project_path {
        None => true,
        Some(p) => p@ == seq!['.'],
    }
}

/// Locates the Flutter project from the command line's project path
/// argument: the current directory (`current_dir`) when the argument is
/// absent or `.`, else the argument, and then its nearest ancestor that holds
/// a `pubspec.yaml`.
pub fn get_flutter_project_path(
    dart_project_path: Option<String>,
    current_dir: Result<String, std::io::Error>,
) -> (r: Result<String, MainError>)
    ensures
        means_current_dir(dart_project_path) && current_dir is Err ==> r matches Err(
            MainError::GetCurrentDirError { .. },
        ),
        r matches Err(MainError::GetCurrentDirError { .. }) ==> means_current_dir(
            dart_project_path,
        ) && current_dir is Err,
        ({
            let estimate = if means_current_dir(dart_project_path) {
                match current_dir {
                    Ok(d) => d@,
                    Err(_) => Seq::empty(),
                }
            } else {
                dart_project_path->0@
            };
            &&& r matches Ok(p) ==> is_trimmed_ancestor(estimate, p@)
            &&& r matches Err(
                MainError::RelocateDartProjectError(
                    RelocateDartProjectError::CheckPubspecYamlExistError { path, .. },
                ),
            ) ==> is_ancestor_sentinel(estimate, path@)
            &&& r matches Err(MainError::DartProjectNotFound { path }) ==> path@ == estimate
                && reaches_top(estimate)
            &&& !(r matches Err(
                MainError::RelocateDartProjectError(RelocateDartProjectError::DartProjectNotFound),
            ))
        }),
{
    let dot = ".";
    proof {
        reveal_strlit(".");
        assert(dot@ =~= seq!['.']);
    }
    let estimate = match dart_project_path {
        Some(p) if !str_equal(p.as_str(), dot) => p,
        _ => match current_dir {
            Ok(dir) => dir,
            Err(err) => {
                return Err(MainError::GetCurrentDirError { err });
            },
        },
    };
    let estimate_copy = estimate.clone();
    match relocate_dart_project(estimate) {
        Ok(project) => Ok(project),
        Err(RelocateDartProjectError::CheckPubspecYamlExistError { source, path }) => Err(
            MainError::RelocateDartProjectError(
                RelocateDartProjectError::CheckPubspecYamlExistError { source, path },
            ),
        ),
        Err(RelocateDartProjectError::DartProjectNotFound) => Err(
            MainError::DartProjectNotFound { path: estimate_copy },
        ),
    }
}

} // verus!
