//! Temporary directories: a directory whose whole tree is deleted when its
//! owner is done with it.

use vstd::prelude::*;
use crate::error::{Error, ErrorKind};
use crate::file::{path_outcome, Permissions};
use crate::util::{created_by_run, lemma_created_on_free_path};

verus! {

/// The mode that the create-directory primitive is asked for: the one given,
/// or none, which leaves the choice to the platform.
pub open spec fn spec_dir_mode(permissions: Option<Permissions>) -> Option<u32> {
    match permissions {
        Some(p) => Some(p.mode),
        None => None,
    }
}

/// The mode to ask the create-directory primitive for.
#[verifier::when_used_as_spec(spec_dir_mode)]
pub fn dir_mode(permissions: Option<Permissions>) -> (mode: Option<u32>)
    ensures
        mode == spec_dir_mode(permissions),
{
    match permissions {
        Some(p) => Some(p.mode),
        None => None,
    }
}

/// `r` is an outcome that the create-directory primitive can give for
/// `mode` on `path`.
pub open spec fn mkdir_outcome<M: Fn(&str, Option<u32>) -> Result<(), Error>>(
    mkdir: M,
    path: Seq<char>,
    mode: Option<u32>,
    r: Result<(), Error>,
) -> bool {
    exists|p: &str| p@ == path && #[trigger] mkdir.ensures((p, mode), r)
}

/// A directory in the temporary namespace and the duty to delete its tree.
#[derive(Debug, PartialEq, Eq)]
pub struct TempDir {
    pub path: String,
    pub disable_cleanup: bool,
}

impl TempDir {
    /// Takes ownership of a directory that exists at `path`.
    pub fn new(path: String, disable_cleanup: bool) -> (d: TempDir)
        ensures
            d.path == path,
            d.disable_cleanup == disable_cleanup,
    {
        TempDir { path, disable_cleanup }
    }

    /// The path of the directory.
    pub fn path(&self) -> (p: &str)
        ensures
            p@ == self.path@,
    {
        self.path.as_str()
    }

    /// Whether finalizing deletes the tree.
    pub open spec fn spec_cleanup_enabled(&self) -> bool {
        !self.disable_cleanup
    }

    /// Whether the tree is deleted at the end of the owner's lifetime.
    #[verifier::when_used_as_spec(spec_cleanup_enabled)]
    pub fn cleanup_enabled(&self) -> (b: bool)
        ensures
            b == !self.disable_cleanup,
    {
        !self.disable_cleanup
    }

    /// Disables or enables the deletion at the end of the owner's lifetime.
    /// Setting the flag to the value it has changes nothing.
    pub fn disable_cleanup(&mut self, disable_cleanup: bool)
        ensures
            final(self).path == old(self).path,
            final(self).disable_cleanup == disable_cleanup,
    {
        self.disable_cleanup = disable_cleanup;
    }

    /// Ends the duty to delete the tree and returns its path.
    pub fn keep(self) -> (path: String)
        ensures
            path == self.path,
    {
        self.path
    }

    /// Deletes the tree now, whatever the cleanup flag says, and reports what
    /// the removal reported: a tree that is already gone, or one that could
    /// be removed only in part, comes back as the removal's own failure.
    /// Either way the owner is gone, so nothing is deleted a second time.
    pub fn close<D: FnOnce(&str) -> Result<(), Error>>(self, remove_all: D) -> (res: Result<
        (),
        Error,
    >)
        requires
            forall|p: &str| remove_all.requires((p,)),
        ensures
            path_outcome(remove_all, self.path@, res),
    {
        remove_all(self.path.as_str())
    }

    /// The end of the owner's lifetime: deletes the tree if cleanup is
    /// enabled, and drops what the removal reports, for there is no caller
    /// to receive it. Returns whether a removal was attempted.
    ///
    /// With cleanup disabled this does nothing: `remove_all` need not even
    /// be callable then, so it is not called and the tree stays.
    pub fn finalize<D: FnOnce(&str) -> Result<(), Error>>(self, remove_all: D) -> (attempted: bool)
        requires
            self.cleanup_enabled() ==> forall|p: &str| remove_all.requires((p,)),
        ensures
            attempted == self.cleanup_enabled(),
            attempted ==> exists|r: Result<(), Error>| path_outcome(remove_all, self.path@, r),
    {
        if self.disable_cleanup {
            false
        } else {
            let dropped = remove_all(self.path.as_str());
            proof {
                assert(path_outcome(remove_all, self.path@, dropped));
            }
            true
        }
    }
}

/// `res` is what creating a directory at `path` gives: the failure of the
/// create-directory primitive, unchanged, or an owner of exactly that path.
pub open spec fn dir_outcome<M: Fn(&str, Option<u32>) -> Result<(), Error>>(
    mkdir: M,
    path: Seq<char>,
    permissions: Option<Permissions>,
    disable_cleanup: bool,
    res: Result<TempDir, Error>,
) -> bool {
    match res {
        Ok(d) => {
            &&& d.path@ == path
            &&& d.disable_cleanup == disable_cleanup
            &&& mkdir_outcome(mkdir, path, dir_mode(permissions), Ok::<(), Error>(()))
        },
        Err(e) => mkdir_outcome(mkdir, path, dir_mode(permissions), Err::<(), Error>(e)),
    }
}

/// Creates the directory at `path` with the primitive `mkdir`, and on
/// success hands the path to its owner.
pub fn create<M: Fn(&str, Option<u32>) -> Result<(), Error>>(
    path: String,
    permissions: Option<Permissions>,
    disable_cleanup: bool,
    mkdir: &M,
) -> (res: Result<TempDir, Error>)
    requires
        forall|p: &str, m: Option<u32>| mkdir.requires((p, m)),
    ensures
        dir_outcome(*mkdir, path@, permissions, disable_cleanup, res),
{
    let mode = dir_mode(permissions);
    let outcome = mkdir(path.as_str(), mode);
    proof {
        crate::error::lemma_unit_outcome(outcome);
    }
    match outcome {
        Ok(()) => Ok(TempDir { path, disable_cleanup }),
        Err(e) => Err(e),
    }
}

/// The outcomes of creating a directory with `mkdir` and the given options,
/// as a relation between a path and a result.
pub open spec fn dir_outcomes<M: Fn(&str, Option<u32>) -> Result<(), Error>>(
    mkdir: M,
    permissions: Option<Permissions>,
    disable_cleanup: bool,
) -> spec_fn(Seq<char>, Result<TempDir, Error>) -> bool {
    |path: Seq<char>, r: Result<TempDir, Error>|
        dir_outcome(mkdir, path, permissions, disable_cleanup, r)
}

/// A directory is new: where the create-directory primitive fails on every
/// path of `taken`, the directory that a creation returns lies outside
/// `taken`.
pub proof fn lemma_directory_is_new<M: Fn(&str, Option<u32>) -> Result<(), Error>>(
    mkdir: M,
    taken: Set<Seq<char>>,
    permissions: Option<Permissions>,
    disable_cleanup: bool,
    base: Seq<char>,
    prefix: Seq<char>,
    suffix: Seq<char>,
    random_len: nat,
    res: Result<TempDir, Error>,
)
    requires
        created_by_run(
            dir_outcomes(mkdir, permissions, disable_cleanup),
            base,
            prefix,
            suffix,
            random_len,
            res,
        ),
        res is Ok,
        forall|p: &str, m: Option<u32>, r: Result<(), Error>| #[trigger]
            mkdir.ensures((p, m), r) && taken.contains(p@) ==> r is Err,
    ensures
        !taken.contains(res->Ok_0.path@),
{
    let gives = dir_outcomes(mkdir, permissions, disable_cleanup);
    lemma_created_on_free_path(gives, taken, base, prefix, suffix, random_len, res);
}

/// A tree that is gone is no success: where the removal can only fail on
/// `path` as not found, what [`TempDir::close`] returns for a directory at
/// `path` is a failure of that class.
pub proof fn lemma_close_reports_missing_tree<D: FnOnce(&str) -> Result<(), Error>>(
    remove_all: D,
    path: Seq<char>,
    res: Result<(), Error>,
)
    requires
        path_outcome(remove_all, path, res),
        forall|p: &str, r: Result<(), Error>| #[trigger]
            remove_all.ensures((p,), r) && p@ == path ==> r is Err && r->Err_0.kind
                == ErrorKind::NotFound,
    ensures
        res is Err,
        res->Err_0.kind == ErrorKind::NotFound,
{
}

} // verus!
