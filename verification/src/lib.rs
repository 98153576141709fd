//! Temporary files and directories whose lifetime is tied to a handle.
//!
//! Three parts make up the crate. The creation engine builds randomized
//! candidate names and retries an atomic creation until a name is free.
//! The owners of files and directories carry the duty to delete what was
//! created, until it is persisted, kept or closed. The spooled buffer holds
//! what is written to it in memory and moves it to a file once it grows past
//! a limit.
//!
//! Nothing here touches the filesystem by itself. The operations that need
//! it take the primitive as an argument: an exclusive create, a create
//! directory, a rename, a removal. Each must be atomic with respect to the
//! test for existence that it implies; the engine cannot make it so.

use vstd::prelude::*;

pub mod dir;
pub mod error;
pub mod file;
pub mod spooled;
pub mod util;

pub use crate::dir::TempDir;
pub use crate::error::{Error, ErrorKind};
pub use crate::file::{NamedTempFile, PathPersistError, Permissions, PersistError, TempPath};
pub use crate::spooled::{spooled_tempfile, spooled_tempfile_in, SpooledData, SpooledTempFile};

use crate::dir::{dir_outcome, dir_outcomes};
use crate::file::{
    check_permissions, made_outcome, made_outcomes, named_outcome, named_outcomes,
    spec_permissions_supported,
};
use crate::util::{
    attempt_outcome, create_helper, created_by_run, lemma_created_weakens, outcomes_of,
};

verus! {

/// How many candidate names one creation tries before it gives up.
pub const NUM_RETRIES: u32 = 65536;

/// How many random characters a candidate name holds by default.
pub const NUM_RAND_CHARS: usize = 6;

/// The options of a creation: how names are built, how the entry is opened
/// and whether it is deleted with its owner.
#[derive(Debug, Clone, Eq, PartialEq)]
pub struct Builder<'a, 'b> {
    pub random_len: usize,
    pub prefix: &'a str,
    pub suffix: &'b str,
    pub append: bool,
    pub permissions: Option<Permissions>,
    pub disable_cleanup: bool,
}

impl Default for Builder<'_, '_> {
    fn default() -> (b: Self)
        ensures
            b.is_default(),
    {
        Builder {
            random_len: NUM_RAND_CHARS,
            prefix: ".tmp",
            suffix: "",
            append: false,
            permissions: None,
            disable_cleanup: false,
        }
    }
}

impl<'a, 'b> Builder<'a, 'b> {
    /// The options a new builder starts with: names of `.tmp` and six random
    /// characters, no suffix, no append mode, default permissions, cleanup
    /// enabled.
    pub open spec fn is_default(&self) -> bool {
        &&& self.random_len == NUM_RAND_CHARS
        &&& self.prefix@ == ".tmp"@
        &&& self.suffix@ == ""@
        &&& !self.append
        &&& self.permissions is None
        &&& !self.disable_cleanup
    }

    /// A builder with the default options.
    #[must_use]
    pub fn new() -> (b: Self)
        ensures
            b.is_default(),
    {
        Self::default()
    }

    /// Sets the prefix of the names. Default: `.tmp`.
    pub fn prefix(&mut self, prefix: &'a str) -> (ret: &mut Self)
        ensures
            *ret == (Builder { prefix, ..*old(self) }),
            *final(self) == *final(ret),
    {
        self.prefix = prefix;
        self
    }

    /// Sets the suffix of the names. Default: empty.
    pub fn suffix(&mut self, suffix: &'b str) -> (ret: &mut Self)
        ensures
            *ret == (Builder { suffix, ..*old(self) }),
            *final(self) == *final(ret),
    {
        self.suffix = suffix;
        self
    }

    /// Sets the number of random characters in a name. Default: 6.
    pub fn rand_bytes(&mut self, rand: usize) -> (ret: &mut Self)
        ensures
            *ret == (Builder { random_len: rand, ..*old(self) }),
            *final(self) == *final(ret),
    {
        self.random_len = rand;
        self
    }

    /// Sets whether files are opened in append mode. Default: `false`.
    pub fn append(&mut self, append: bool) -> (ret: &mut Self)
        ensures
            *ret == (Builder { append, ..*old(self) }),
            *final(self) == *final(ret),
    {
        self.append = append;
        self
    }

    /// Sets the permissions to create files and directories with. Default:
    /// owner-only read and write for files, the platform's choice for
    /// directories.
    pub fn permissions(&mut self, permissions: Permissions) -> (ret: &mut Self)
        ensures
            *ret == (Builder { permissions: Some(permissions), ..*old(self) }),
            *final(self) == *final(ret),
    {
        self.permissions = Some(permissions);
        self
    }

    /// Sets whether what is created outlives its owner. Default: `false`.
    pub fn disable_cleanup(&mut self, disable_cleanup: bool) -> (ret: &mut Self)
        ensures
            *ret == (Builder { disable_cleanup, ..*old(self) }),
            *final(self) == *final(ret),
    {
        self.disable_cleanup = disable_cleanup;
        self
    }

    /// The former name of [`Builder::disable_cleanup`].
    pub fn keep(&mut self, keep: bool) -> (ret: &mut Self)
        ensures
            *ret == (Builder { disable_cleanup: keep, ..*old(self) }),
            *final(self) == *final(ret),
    {
        self.disable_cleanup(keep)
    }

    /// Creates a named file in `dir` with the exclusive-create primitive
    /// `open`. `posix` says whether the platform has the POSIX permission
    /// model.
    ///
    /// Permissions that the platform cannot honour are rejected as
    /// unsupported before the first attempt: `open` need not even be
    /// callable then, so nothing is created.
    pub fn tempfile_in<R, O: Fn(&str, file::OpenRequest) -> Result<R, Error>>(
        &self,
        dir: &str,
        posix: bool,
        open: O,
    ) -> (res: Result<NamedTempFile<R>, Error>)
        requires
            spec_permissions_supported(self.permissions, posix) ==> forall|
                p: &str,
                q: file::OpenRequest,
            | open.requires((p, q)),
        ensures
            !spec_permissions_supported(self.permissions, posix) ==> res == Err::<
                NamedTempFile<R>,
                Error,
            >(Error { kind: ErrorKind::Unsupported, os_code: None }),
            spec_permissions_supported(self.permissions, posix) ==> created_by_run(
                named_outcomes(open, self.append, self.permissions, self.disable_cleanup),
                dir@,
                self.prefix@,
                self.suffix@,
                self.random_len as nat,
                res,
            ),
    {
        match check_permissions(self.permissions, posix) {
            Ok(_) => {},
            Err(e) => {
                return Err(e);
            },
        }
        let open = &open;
        let attempt = |path: String| -> (r: Result<NamedTempFile<R>, Error>)
            ensures
                named_outcome(*open, path@, self.append, self.permissions, self.disable_cleanup, r),
            { file::create_named(path, self.append, self.permissions, self.disable_cleanup, open) };
        let res = create_helper(dir, self.prefix, self.suffix, self.random_len, attempt);
        proof {
            let wider = named_outcomes(*open, self.append, self.permissions, self.disable_cleanup);
            lemma_created_weakens(
                outcomes_of(attempt),
                wider,
                dir@,
                self.prefix@,
                self.suffix@,
                self.random_len as nat,
                res,
            );
        }
        res
    }

    /// Creates a directory in `dir` with the create-directory primitive
    /// `mkdir`. `posix` says whether the platform has the POSIX permission
    /// model.
    ///
    /// Permissions that the platform cannot honour are rejected as
    /// unsupported before the first attempt: `mkdir` need not even be
    /// callable then, so nothing is created.
    pub fn tempdir_in<M: Fn(&str, Option<u32>) -> Result<(), Error>>(
        &self,
        dir: &str,
        posix: bool,
        mkdir: M,
    ) -> (res: Result<TempDir, Error>)
        requires
            spec_permissions_supported(self.permissions, posix) ==> forall|
                p: &str,
                m: Option<u32>,
            | mkdir.requires((p, m)),
        ensures
            !spec_permissions_supported(self.permissions, posix) ==> res == Err::<TempDir, Error>(
                Error { kind: ErrorKind::Unsupported, os_code: None },
            ),
            spec_permissions_supported(self.permissions, posix) ==> created_by_run(
                dir_outcomes(mkdir, self.permissions, self.disable_cleanup),
                dir@,
                self.prefix@,
                self.suffix@,
                self.random_len as nat,
                res,
            ),
    {
        match check_permissions(self.permissions, posix) {
            Ok(_) => {},
            Err(e) => {
                return Err(e);
            },
        }
        let mkdir = &mkdir;
        let attempt = |path: String| -> (r: Result<TempDir, Error>)
            ensures
                dir_outcome(*mkdir, path@, self.permissions, self.disable_cleanup, r),
            { dir::create(path, self.permissions, self.disable_cleanup, mkdir) };
        let res = create_helper(dir, self.prefix, self.suffix, self.random_len, attempt);
        proof {
            let wider = dir_outcomes(*mkdir, self.permissions, self.disable_cleanup);
            lemma_created_weakens(
                outcomes_of(attempt),
                wider,
                dir@,
                self.prefix@,
                self.suffix@,
                self.random_len as nat,
                res,
            );
        }
        res
    }

    /// Creates a resource of the caller's own kind under a fresh name in
    /// `dir`: `f` is handed each candidate path in turn, and what it
    /// returns on success is paired with an owner of the path. A bound
    /// socket is such a resource. The append option plays no part.
    ///
    /// `f` must create the entry atomically with the test for its existence;
    /// one that tests first and creates afterwards leaves a window for
    /// another party to take the name.
    pub fn make_in<R, F: Fn(&str) -> Result<R, Error>>(&self, dir: &str, f: F) -> (res: Result<
        NamedTempFile<R>,
        Error,
    >)
        requires
            forall|p: &str| f.requires((p,)),
        ensures
            created_by_run(
                made_outcomes(f, self.disable_cleanup),
                dir@,
                self.prefix@,
                self.suffix@,
                self.random_len as nat,
                res,
            ),
    {
        let f = &f;
        let attempt = |path: String| -> (r: Result<NamedTempFile<R>, Error>)
            ensures
                made_outcome(*f, path@, self.disable_cleanup, r),
            { file::make_named(path, self.disable_cleanup, f) };
        let res = create_helper(dir, self.prefix, self.suffix, self.random_len, attempt);
        proof {
            let wider = made_outcomes(*f, self.disable_cleanup);
            lemma_created_weakens(
                outcomes_of(attempt),
                wider,
                dir@,
                self.prefix@,
                self.suffix@,
                self.random_len as nat,
                res,
            );
        }
        res
    }
}

} // verus!
