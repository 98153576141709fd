//! Named temporary files: a path that is deleted when its owner is done
//! with it, and an open handle paired with such a path.
//!
//! The filesystem itself is not part of this crate. Every operation that
//! touches it takes the primitive to use as an argument, and its contract
//! says what the primitive was asked and what became of its answer.
//!
//! An owner is a value, not a reference: persisting, keeping, closing and
//! finalizing take the owner by value, so that no path has two owners and
//! none is used after it gave its path away. Handing an owner to a function
//! by value where a reference was meant ends its lifetime there, and with it
//! the entry's.

use vstd::prelude::*;
use crate::error::{lemma_unit_outcome, Error, ErrorKind};
use crate::util::{created_by_run, lemma_created_on_free_path};

verus! {

/// The mode of a file created without explicit permissions: read and write
/// for the owner, nothing for anyone else.
pub const DEFAULT_FILE_MODE: u32 = 0o600;

/// The write bits of a mode, for owner, group and others.
pub const WRITE_BITS: u32 = 0o222;

/// A permission set, as the mode bits of a POSIX platform.
#[derive(Clone, Copy, Debug, PartialEq, Eq, Structural, Hash)]
pub struct Permissions {
    pub mode: u32,
}

impl Permissions {
    /// The permission set with the mode bits `mode`.
    pub fn from_mode(mode: u32) -> (p: Permissions)
        ensures
            p.mode == mode,
    {
        Permissions { mode }
    }

    /// The mode bits.
    pub fn mode(&self) -> (m: u32)
        ensures
            m == self.mode,
    {
        self.mode
    }

    /// No write bit is set.
    pub open spec fn spec_readonly(&self) -> bool {
        self.mode & WRITE_BITS == 0
    }

    /// Whether the set forbids writing to everyone.
    #[verifier::when_used_as_spec(spec_readonly)]
    pub fn readonly(&self) -> (b: bool)
        ensures
            b == self.spec_readonly(),
    {
        self.mode & WRITE_BITS == 0
    }
}

/// What the exclusive-create primitive is asked for, besides the path: the
/// file is always opened for reading and writing and must not exist yet.
#[derive(Clone, Copy, Debug, PartialEq, Eq, Structural, Hash)]
pub struct OpenRequest {
    /// Every write goes to the end of the file.
    pub append: bool,
    /// The mode to create the file with, before the process's mask applies.
    pub mode: u32,
}

/// The request for a file with the given options: the mode asked for, or
/// owner-only read and write where none was.
pub open spec fn spec_open_request(append: bool, permissions: Option<Permissions>) -> OpenRequest {
    OpenRequest {
        append,
        mode: match permissions {
            Some(p) => p.mode,
            None => DEFAULT_FILE_MODE,
        },
    }
}

/// Builds the request for a file with the given options.
#[verifier::when_used_as_spec(spec_open_request)]
pub fn open_request(append: bool, permissions: Option<Permissions>) -> (req: OpenRequest)
    ensures
        req == spec_open_request(append, permissions),
{
    let mode: u32 = match permissions {
        Some(p) => p.mode,
        None => DEFAULT_FILE_MODE,
    };
    OpenRequest { append, mode }
}

/// Whether a platform can honour `permissions`. One with the POSIX model
/// honours any; one without it honours none that is read-only.
pub open spec fn spec_permissions_supported(permissions: Option<Permissions>, posix: bool) -> bool {
    posix || permissions is None || !permissions->Some_0.readonly()
}

/// Rejects permissions that the platform cannot honour, before anything is
/// created.
pub fn check_permissions(permissions: Option<Permissions>, posix: bool) -> (res: Result<(), Error>)
    ensures
        spec_permissions_supported(permissions, posix) ==> res == Ok::<(), Error>(()),
        !spec_permissions_supported(permissions, posix) ==> res == Err::<(), Error>(
            Error { kind: ErrorKind::Unsupported, os_code: None },
        ),
{
    if posix {
        return Ok(());
    }
    match permissions {
        Some(p) => {
            if p.readonly() {
                Err(Error::new(ErrorKind::Unsupported))
            } else {
                Ok(())
            }
        },
        None => Ok(()),
    }
}

/// `r` is an outcome that the primitive `op` can give on `path`.
pub open spec fn path_outcome<T, P: FnOnce(&str) -> Result<T, Error>>(
    op: P,
    path: Seq<char>,
    r: Result<T, Error>,
) -> bool {
    exists|p: &str| p@ == path && #[trigger] op.ensures((p,), r)
}

/// `r` is an outcome that the rename primitive can give for a move of
/// `from` to `to`, replacing an entry at `to` or not.
pub open spec fn rename_outcome<N: FnOnce(&str, &str, bool) -> Result<(), Error>>(
    rename: N,
    from: Seq<char>,
    to: Seq<char>,
    overwrite: bool,
    r: Result<(), Error>,
) -> bool {
    exists|a: &str, b: &str| a@ == from && b@ == to && #[trigger] rename.ensures((a, b, overwrite), r)
}

/// `r` is an outcome that the exclusive-create primitive can give for
/// `request` on `path`.
pub open spec fn open_outcome<R, O: Fn(&str, OpenRequest) -> Result<R, Error>>(
    open: O,
    path: Seq<char>,
    request: OpenRequest,
    r: Result<R, Error>,
) -> bool {
    exists|p: &str| p@ == path && #[trigger] open.ensures((p, request), r)
}

/// A path in the temporary namespace and the duty to delete it.
#[derive(Debug, PartialEq, Eq)]
pub struct TempPath {
    pub path: String,
    pub disable_cleanup: bool,
}

/// A failed persist or keep of a [`TempPath`]: the cause, and the path,
/// still owned and unchanged.
#[derive(Debug, PartialEq, Eq)]
pub struct PathPersistError {
    pub error: Error,
    pub path: TempPath,
}

impl TempPath {
    /// Takes ownership of an entry that exists at `path`.
    pub fn new(path: String, disable_cleanup: bool) -> (t: TempPath)
        ensures
            t.path == path,
            t.disable_cleanup == disable_cleanup,
    {
        TempPath { path, disable_cleanup }
    }

    /// Takes ownership of an entry that exists at `path`, with cleanup
    /// enabled.
    pub fn from_path(path: String) -> (t: TempPath)
        ensures
            t.path == path,
            !t.disable_cleanup,
    {
        TempPath { path, disable_cleanup: false }
    }

    /// The path of the entry.
    pub fn path(&self) -> (p: &str)
        ensures
            p@ == self.path@,
    {
        self.path.as_str()
    }

    /// Whether finalizing deletes the entry.
    pub open spec fn spec_cleanup_enabled(&self) -> bool {
        !self.disable_cleanup
    }

    /// Whether the entry is deleted at the end of the owner's lifetime.
    #[verifier::when_used_as_spec(spec_cleanup_enabled)]
    pub fn cleanup_enabled(&self) -> (b: bool)
        ensures
            b == !self.disable_cleanup,
    {
        !self.disable_cleanup
    }

    /// Disables or enables the deletion at the end of the owner's lifetime.
    /// Setting the flag to the value it has changes nothing.
    pub fn disable_cleanup(&mut self, disable_cleanup: bool)
        ensures
            final(self).path == old(self).path,
            final(self).disable_cleanup == disable_cleanup,
    {
        self.disable_cleanup = disable_cleanup;
    }

    /// What a persist or keep returns for the outcome of its primitive: on
    /// success the duty to delete ends; on failure the cause comes back
    /// together with the owner, unchanged.
    pub fn settle(self, outcome: Result<(), Error>) -> (res: Result<String, PathPersistError>)
        ensures
            match outcome {
                Ok(()) => res is Ok && res->Ok_0 == self.path,
                Err(e) => res is Err && res->Err_0.error == e && res->Err_0.path == self,
            },
    {
        match outcome {
            Ok(()) => Ok(self.path),
            Err(e) => Err(PathPersistError { error: e, path: self }),
        }
    }

    /// Moves the entry to `new_path`, replacing what is there, and ends the
    /// duty to delete it.
    ///
    /// The owner is given up with the call. On success nothing is left of
    /// it, so nothing can disable its cleanup or persist it a second time;
    /// on failure it comes back in the error, as it was.
    pub fn persist<N: FnOnce(&str, &str, bool) -> Result<(), Error>>(
        self,
        new_path: &str,
        rename: N,
    ) -> (res: Result<(), PathPersistError>)
        requires
            forall|a: &str, b: &str, o: bool| rename.requires((a, b, o)),
        ensures
            match res {
                Ok(()) => rename_outcome(rename, self.path@, new_path@, true, Ok(())),
                Err(e) => e.path == self && rename_outcome(
                    rename,
                    self.path@,
                    new_path@,
                    true,
                    Err(e.error),
                ),
            },
    {
        self.persist_with(new_path, true, rename)
    }

    /// Moves the entry to `new_path` unless an entry is there, and ends the
    /// duty to delete it.
    pub fn persist_noclobber<N: FnOnce(&str, &str, bool) -> Result<(), Error>>(
        self,
        new_path: &str,
        rename: N,
    ) -> (res: Result<(), PathPersistError>)
        requires
            forall|a: &str, b: &str, o: bool| rename.requires((a, b, o)),
        ensures
            match res {
                Ok(()) => rename_outcome(rename, self.path@, new_path@, false, Ok(())),
                Err(e) => e.path == self && rename_outcome(
                    rename,
                    self.path@,
                    new_path@,
                    false,
                    Err(e.error),
                ),
            },
    {
        self.persist_with(new_path, false, rename)
    }

    fn persist_with<N: FnOnce(&str, &str, bool) -> Result<(), Error>>(
        self,
        new_path: &str,
        overwrite: bool,
        rename: N,
    ) -> (res: Result<(), PathPersistError>)
        requires
            forall|a: &str, b: &str, o: bool| rename.requires((a, b, o)),
        ensures
            match res {
                Ok(()) => rename_outcome(rename, self.path@, new_path@, overwrite, Ok(())),
                Err(e) => e.path == self && rename_outcome(
                    rename,
                    self.path@,
                    new_path@,
                    overwrite,
                    Err(e.error),
                ),
            },
    {
        let outcome = rename(self.path.as_str(), new_path, overwrite);
        proof {
            lemma_unit_outcome(outcome);
        }
        match self.settle(outcome) {
            Ok(_) => Ok(()),
            Err(e) => Err(e),
        }
    }

    /// Ends the duty to delete the entry and returns its path. `unmark` is
    /// the platform's step that makes an entry permanent where temporary
    /// entries are marked as such.
    pub fn keep<K: FnOnce(&str) -> Result<(), Error>>(self, unmark: K) -> (res: Result<
        String,
        PathPersistError,
    >)
        requires
            forall|p: &str| unmark.requires((p,)),
        ensures
            match res {
                Ok(path) => path == self.path && path_outcome(unmark, self.path@, Ok(())),
                Err(e) => e.path == self && path_outcome(unmark, self.path@, Err(e.error)),
            },
    {
        let outcome = unmark(self.path.as_str());
        proof {
            lemma_unit_outcome(outcome);
        }
        self.settle(outcome)
    }

    /// Deletes the entry now, whatever the cleanup flag says, and reports
    /// what the removal reported.
    pub fn close<D: FnOnce(&str) -> Result<(), Error>>(self, remove: D) -> (res: Result<(), Error>)
        requires
            forall|p: &str| remove.requires((p,)),
        ensures
            path_outcome(remove, self.path@, res),
    {
        remove(self.path.as_str())
    }

    /// The end of the owner's lifetime: deletes the entry if cleanup is
    /// enabled, and drops what the removal reports, for there is no caller
    /// to receive it. Returns whether a removal was attempted.
    ///
    /// With cleanup disabled this does nothing: `remove` need not even be
    /// callable then, so it is not called and the entry stays.
    pub fn finalize<D: FnOnce(&str) -> Result<(), Error>>(self, remove: D) -> (attempted: bool)
        requires
            self.cleanup_enabled() ==> forall|p: &str| remove.requires((p,)),
        ensures
            attempted == self.cleanup_enabled(),
            attempted ==> exists|r: Result<(), Error>| path_outcome(remove, self.path@, r),
    {
        if self.disable_cleanup {
            false
        } else {
            let dropped = remove(self.path.as_str());
            proof {
                assert(path_outcome(remove, self.path@, dropped));
            }
            true
        }
    }
}

/// An open handle of type `F` and the path that it was created at.
///
/// The two may become invalid independently: the handle outlives an entry
/// that someone else unlinked, and the path may come to denote another
/// entry. Neither implies the other.
#[derive(Debug, PartialEq, Eq)]
pub struct NamedTempFile<F> {
    pub path: TempPath,
    pub file: F,
}

/// A failed persist or keep of a [`NamedTempFile`]: the cause, and the
/// file, still owned and unchanged.
#[derive(Debug, PartialEq, Eq)]
pub struct PersistError<F> {
    pub error: Error,
    pub file: NamedTempFile<F>,
}

impl<F> NamedTempFile<F> {
    /// Pairs a handle with the path that owns its entry.
    pub fn from_parts(file: F, path: TempPath) -> (f: NamedTempFile<F>)
        ensures
            f.file == file,
            f.path == path,
    {
        NamedTempFile { path, file }
    }

    /// Splits the file into its handle and the path that owns the entry.
    pub fn into_parts(self) -> (parts: (F, TempPath))
        ensures
            parts.0 == self.file,
            parts.1 == self.path,
    {
        (self.file, self.path)
    }

    /// Gives up the handle and keeps the path, with its duty to delete.
    pub fn into_temp_path(self) -> (path: TempPath)
        ensures
            path == self.path,
    {
        self.path
    }

    /// The path that the file was created at.
    pub fn path(&self) -> (p: &str)
        ensures
            p@ == self.path.path@,
    {
        self.path.path()
    }

    /// The handle.
    pub fn as_file(&self) -> (file: &F)
        ensures
            *file == self.file,
    {
        &self.file
    }

    /// The handle, to write through.
    pub fn as_file_mut(&mut self) -> (file: &mut F)
        ensures
            *file == old(self).file,
            final(self).file == *final(file),
            final(self).path == old(self).path,
    {
        &mut self.file
    }

    /// Disables or enables the deletion at the end of the owner's lifetime.
    /// Setting the flag to the value it has changes nothing.
    pub fn disable_cleanup(&mut self, disable_cleanup: bool)
        ensures
            final(self).file == old(self).file,
            final(self).path.path == old(self).path.path,
            final(self).path.disable_cleanup == disable_cleanup,
    {
        self.path.disable_cleanup(disable_cleanup);
    }

    /// What a persist returns for the outcome of its primitive: on success
    /// the handle, still valid, and the duty to delete ends; on failure the
    /// cause together with the file, unchanged.
    pub fn settle(self, outcome: Result<(), Error>) -> (res: Result<(F, String), PersistError<F>>)
        ensures
            match outcome {
                Ok(()) => res is Ok && res->Ok_0 == (self.file, self.path.path),
                Err(e) => res is Err && res->Err_0.error == e && res->Err_0.file == self,
            },
    {
        match outcome {
            Ok(()) => Ok((self.file, self.path.path)),
            Err(e) => Err(PersistError { error: e, file: self }),
        }
    }

    /// Moves the entry to `new_path`, replacing what is there, ends the duty
    /// to delete it and returns the handle.
    pub fn persist<N: FnOnce(&str, &str, bool) -> Result<(), Error>>(
        self,
        new_path: &str,
        rename: N,
    ) -> (res: Result<F, PersistError<F>>)
        requires
            forall|a: &str, b: &str, o: bool| rename.requires((a, b, o)),
        ensures
            match res {
                Ok(file) => file == self.file && rename_outcome(
                    rename,
                    self.path.path@,
                    new_path@,
                    true,
                    Ok(()),
                ),
                Err(e) => e.file == self && rename_outcome(
                    rename,
                    self.path.path@,
                    new_path@,
                    true,
                    Err(e.error),
                ),
            },
    {
        self.persist_with(new_path, true, rename)
    }

    /// Moves the entry to `new_path` unless an entry is there, ends the duty
    /// to delete it and returns the handle.
    pub fn persist_noclobber<N: FnOnce(&str, &str, bool) -> Result<(), Error>>(
        self,
        new_path: &str,
        rename: N,
    ) -> (res: Result<F, PersistError<F>>)
        requires
            forall|a: &str, b: &str, o: bool| rename.requires((a, b, o)),
        ensures
            match res {
                Ok(file) => file == self.file && rename_outcome(
                    rename,
                    self.path.path@,
                    new_path@,
                    false,
                    Ok(()),
                ),
                Err(e) => e.file == self && rename_outcome(
                    rename,
                    self.path.path@,
                    new_path@,
                    false,
                    Err(e.error),
                ),
            },
    {
        self.persist_with(new_path, false, rename)
    }

    fn persist_with<N: FnOnce(&str, &str, bool) -> Result<(), Error>>(
        self,
        new_path: &str,
        overwrite: bool,
        rename: N,
    ) -> (res: Result<F, PersistError<F>>)
        requires
            forall|a: &str, b: &str, o: bool| rename.requires((a, b, o)),
        ensures
            match res {
                Ok(file) => file == self.file && rename_outcome(
                    rename,
                    self.path.path@,
                    new_path@,
                    overwrite,
                    Ok(()),
                ),
                Err(e) => e.file == self && rename_outcome(
                    rename,
                    self.path.path@,
                    new_path@,
                    overwrite,
                    Err(e.error),
                ),
            },
    {
        let outcome = rename(self.path.path(), new_path, overwrite);
        proof {
            lemma_unit_outcome(outcome);
        }
        match self.settle(outcome) {
            Ok(parts) => Ok(parts.0),
            Err(e) => Err(e),
        }
    }

    /// Ends the duty to delete the entry and returns the handle and the
    /// path. `unmark` is the platform's step that makes an entry permanent
    /// where temporary entries are marked as such.
    pub fn keep<K: FnOnce(&str) -> Result<(), Error>>(self, unmark: K) -> (res: Result<
        (F, String),
        PersistError<F>,
    >)
        requires
            forall|p: &str| unmark.requires((p,)),
        ensures
            match res {
                Ok(parts) => parts == (self.file, self.path.path) && path_outcome(
                    unmark,
                    self.path.path@,
                    Ok(()),
                ),
                Err(e) => e.file == self && path_outcome(unmark, self.path.path@, Err(e.error)),
            },
    {
        let outcome = unmark(self.path.path());
        proof {
            lemma_unit_outcome(outcome);
        }
        self.settle(outcome)
    }

    /// Gives up the handle and deletes the entry now, and reports what the
    /// removal reported.
    pub fn close<D: FnOnce(&str) -> Result<(), Error>>(self, remove: D) -> (res: Result<(), Error>)
        requires
            forall|p: &str| remove.requires((p,)),
        ensures
            path_outcome(remove, self.path.path@, res),
    {
        self.path.close(remove)
    }

    /// Opens the entry at the path once more. The new handle is independent
    /// of this one; the file itself is left as it is. Fails where the path
    /// no longer resolves.
    pub fn reopen<O: FnOnce(&str) -> Result<F, Error>>(&self, open: O) -> (res: Result<F, Error>)
        requires
            forall|p: &str| open.requires((p,)),
        ensures
            path_outcome(open, self.path.path@, res),
    {
        open(self.path.path())
    }

    /// The end of the owner's lifetime: gives up the handle, deletes the
    /// entry if cleanup is enabled and drops what the removal reports.
    /// Returns whether a removal was attempted.
    ///
    /// With cleanup disabled this does nothing: `remove` need not even be
    /// callable then, so it is not called and the entry stays.
    pub fn finalize<D: FnOnce(&str) -> Result<(), Error>>(self, remove: D) -> (attempted: bool)
        requires
            self.path.cleanup_enabled() ==> forall|p: &str| remove.requires((p,)),
        ensures
            attempted == self.path.cleanup_enabled(),
            attempted ==> exists|r: Result<(), Error>| path_outcome(remove, self.path.path@, r),
    {
        self.path.finalize(remove)
    }
}

/// Creates the file at `path` with the exclusive-create primitive `open`,
/// and on success hands the handle and the path to one owner.
pub fn create_named<R, O: Fn(&str, OpenRequest) -> Result<R, Error>>(
    path: String,
    append: bool,
    permissions: Option<Permissions>,
    disable_cleanup: bool,
    open: &O,
) -> (res: Result<NamedTempFile<R>, Error>)
    requires
        forall|p: &str, q: OpenRequest| open.requires((p, q)),
    ensures
        named_outcome(*open, path@, append, permissions, disable_cleanup, res),
{
    let request = open_request(append, permissions);
    match open(path.as_str(), request) {
        Ok(file) => Ok(NamedTempFile { path: TempPath { path, disable_cleanup }, file }),
        Err(e) => Err(e),
    }
}

/// `res` is what creating a named file at `path` gives: the failure of the
/// exclusive-create primitive, unchanged, or its handle paired with an
/// owner of exactly that path.
pub open spec fn named_outcome<R, O: Fn(&str, OpenRequest) -> Result<R, Error>>(
    open: O,
    path: Seq<char>,
    append: bool,
    permissions: Option<Permissions>,
    disable_cleanup: bool,
    res: Result<NamedTempFile<R>, Error>,
) -> bool {
    match res {
        Ok(f) => {
            &&& f.path.path@ == path
            &&& f.path.disable_cleanup == disable_cleanup
            &&& open_outcome(open, path, open_request(append, permissions), Ok::<R, Error>(f.file))
        },
        Err(e) => open_outcome(open, path, open_request(append, permissions), Err::<R, Error>(e)),
    }
}

/// The outcomes of creating a named file with `open` and the given
/// options, as a relation between a path and a result.
pub open spec fn named_outcomes<R, O: Fn(&str, OpenRequest) -> Result<R, Error>>(
    open: O,
    append: bool,
    permissions: Option<Permissions>,
    disable_cleanup: bool,
) -> spec_fn(Seq<char>, Result<NamedTempFile<R>, Error>) -> bool {
    |path: Seq<char>, r: Result<NamedTempFile<R>, Error>|
        named_outcome(open, path, append, permissions, disable_cleanup, r)
}

/// `res` is what creating a resource at `path` with the caller's operation
/// `make` gives: its failure, unchanged, or its resource paired with an
/// owner of exactly that path.
pub open spec fn made_outcome<R, P: Fn(&str) -> Result<R, Error>>(
    make: P,
    path: Seq<char>,
    disable_cleanup: bool,
    res: Result<NamedTempFile<R>, Error>,
) -> bool {
    match res {
        Ok(f) => {
            &&& f.path.path@ == path
            &&& f.path.disable_cleanup == disable_cleanup
            &&& path_outcome(make, path, Ok::<R, Error>(f.file))
        },
        Err(e) => path_outcome(make, path, Err::<R, Error>(e)),
    }
}

/// The outcomes of creating a resource with `make`, as a relation between a
/// path and a result.
pub open spec fn made_outcomes<R, P: Fn(&str) -> Result<R, Error>>(
    make: P,
    disable_cleanup: bool,
) -> spec_fn(Seq<char>, Result<NamedTempFile<R>, Error>) -> bool {
    |path: Seq<char>, r: Result<NamedTempFile<R>, Error>|
        made_outcome(make, path, disable_cleanup, r)
}

/// Creates a resource at `path` with the caller's operation `make`, and on
/// success hands the resource and the path to one owner.
pub fn make_named<R, P: Fn(&str) -> Result<R, Error>>(
    path: String,
    disable_cleanup: bool,
    make: &P,
) -> (res: Result<NamedTempFile<R>, Error>)
    requires
        forall|p: &str| make.requires((p,)),
    ensures
        made_outcome(*make, path@, disable_cleanup, res),
{
    match make(path.as_str()) {
        Ok(file) => Ok(NamedTempFile::from_parts(file, TempPath::new(path, disable_cleanup))),
        Err(e) => Err(e),
    }
}

/// A named file is new: where the exclusive-create primitive fails on every
/// path of `taken`, the file that a creation returns lies outside `taken`.
/// Files created one after another, each with the earlier ones in place,
/// therefore have names that differ.
pub proof fn lemma_named_file_is_new<R, O: Fn(&str, OpenRequest) -> Result<R, Error>>(
    open: O,
    taken: Set<Seq<char>>,
    append: bool,
    permissions: Option<Permissions>,
    disable_cleanup: bool,
    base: Seq<char>,
    prefix: Seq<char>,
    suffix: Seq<char>,
    random_len: nat,
    res: Result<NamedTempFile<R>, Error>,
)
    requires
        created_by_run(
            named_outcomes(open, append, permissions, disable_cleanup),
            base,
            prefix,
            suffix,
            random_len,
            res,
        ),
        res is Ok,
        forall|p: &str, q: OpenRequest, r: Result<R, Error>| #[trigger]
            open.ensures((p, q), r) && taken.contains(p@) ==> r is Err,
    ensures
        !taken.contains(res->Ok_0.path.path@),
{
    let gives = named_outcomes(open, append, permissions, disable_cleanup);
    lemma_created_on_free_path(gives, taken, base, prefix, suffix, random_len, res);
}

/// A resource of the caller's own kind is new in the same way: where the
/// caller's operation fails on every path of `taken`, the owner that a
/// creation returns holds a path outside `taken`.
pub proof fn lemma_made_resource_is_new<R, P: Fn(&str) -> Result<R, Error>>(
    make: P,
    taken: Set<Seq<char>>,
    disable_cleanup: bool,
    base: Seq<char>,
    prefix: Seq<char>,
    suffix: Seq<char>,
    random_len: nat,
    res: Result<NamedTempFile<R>, Error>,
)
    requires
        created_by_run(made_outcomes(make, disable_cleanup), base, prefix, suffix, random_len, res),
        res is Ok,
        forall|p: &str, r: Result<R, Error>| #[trigger]
            make.ensures((p,), r) && taken.contains(p@) ==> r is Err,
    ensures
        !taken.contains(res->Ok_0.path.path@),
{
    let gives = made_outcomes(make, disable_cleanup);
    lemma_created_on_free_path(gives, taken, base, prefix, suffix, random_len, res);
}

} // verus!
