//! The spooled buffer: a byte store that lives in memory until what is
//! written to it would grow past a limit, and in a file from then on.
//!
//! The move to the file goes one way only. While the buffer is in memory
//! this module reads, writes and seeks it. Once it is on disk the file does,
//! and every operation answers that it is to be carried out there.

use vstd::prelude::*;
use crate::error::{Error, ErrorKind};

verus! {

/// Where a seek goes: to an offset from the start, from the end, or from
/// the current position.
#[derive(Clone, Copy, Debug, PartialEq, Eq, Structural, Hash)]
pub enum SeekFrom {
    Start(u64),
    End(i64),
    Current(i64),
}

/// The contents of a byte store after `buf` is written at `pos`: the bytes
/// of `buf` stand at `pos`, what was there before is overwritten, a gap
/// between the old end and `pos` is filled with zeros, and everything else
/// stays.
pub open spec fn spec_write_at(data: Seq<u8>, pos: int, buf: Seq<u8>) -> Seq<u8> {
    let end = if data.len() > pos + buf.len() {
        data.len() as int
    } else {
        pos + buf.len()
    };
    Seq::new(
        end as nat,
        |i: int|
            if pos <= i < pos + buf.len() {
                buf[i - pos]
            } else if i < data.len() {
                data[i]
            } else {
                0u8
            },
    )
}

/// Where a read at `pos` starts: at `pos`, or at the end if `pos` lies
/// past it.
pub open spec fn spec_read_start(data: Seq<u8>, pos: int) -> int {
    if pos < data.len() {
        pos
    } else {
        data.len() as int
    }
}

/// What a read of at most `max` bytes at `pos` gives: the bytes from `pos`
/// on, as many as there are and at most `max`.
pub open spec fn spec_read_at(data: Seq<u8>, pos: int, max: int) -> Seq<u8> {
    let start = spec_read_start(data, pos);
    let end = if start + max < data.len() {
        start + max
    } else {
        data.len() as int
    };
    data.subrange(start, end)
}

/// The position that a seek leads to in a store of `len` bytes with the
/// cursor at `pos`, or `None` where it would be negative or past the
/// largest position there is.
pub open spec fn spec_seek_target(len: int, pos: int, to: SeekFrom) -> Option<u64> {
    let target = match to {
        SeekFrom::Start(n) => n as int,
        SeekFrom::End(n) => len + n,
        SeekFrom::Current(n) => pos + n,
    };
    if 0 <= target <= u64::MAX {
        Some(target as u64)
    } else {
        None
    }
}

/// A growable byte sequence with a cursor.
#[derive(Debug, PartialEq, Eq)]
pub struct MemCursor {
    pub data: Vec<u8>,
    pub pos: u64,
}

impl MemCursor {
    /// An empty store with the cursor at the start.
    pub fn new() -> (c: MemCursor)
        ensures
            c.data@ == Seq::<u8>::empty(),
            c.pos == 0,
    {
        MemCursor { data: Vec::new(), pos: 0 }
    }

    /// Where the cursor is.
    pub fn position(&self) -> (p: u64)
        ensures
            p == self.pos,
    {
        self.pos
    }

    /// The bytes of the store.
    pub fn get_ref(&self) -> (data: &Vec<u8>)
        ensures
            *data == self.data,
    {
        &self.data
    }

    /// Gives up the cursor and keeps the bytes.
    pub fn into_inner(self) -> (data: Vec<u8>)
        ensures
            data == self.data,
    {
        self.data
    }

    /// Whether a write of `len` bytes at the cursor ends at an address that
    /// a store in memory can have.
    pub open spec fn spec_can_hold(&self, len: usize) -> bool {
        self.pos + len <= usize::MAX
    }

    /// Writes `buf` at the cursor and moves the cursor past it. Fails, and
    /// changes nothing, where the write would end past the largest address.
    pub fn write(&mut self, buf: &[u8]) -> (res: Result<usize, Error>)
        ensures
            old(self).spec_can_hold(buf.len()) ==> {
                &&& res == Ok::<usize, Error>(buf.len())
                &&& final(self).data@ == spec_write_at(old(self).data@, old(self).pos as int, buf@)
                &&& final(self).pos == old(self).pos + buf.len()
            },
            !old(self).spec_can_hold(buf.len()) ==> {
                &&& res == Err::<usize, Error>(
                    Error { kind: ErrorKind::InvalidInput, os_code: None },
                )
                &&& *final(self) == *old(self)
            },
    {
        let len: usize = buf.len();
        if self.pos > usize::MAX as u64 || len as u64 > usize::MAX as u64 - self.pos {
            return Err(Error::new(ErrorKind::InvalidInput));
        }
        let start: usize = self.pos as usize;
        let ghost before = self.data@;
        while self.data.len() < start
            invariant
                before.len() <= self.data@.len(),
                self.data@.len() <= start || self.data@.len() == before.len(),
                forall|k: int| 0 <= k < before.len() ==> self.data@[k] == before[k],
                forall|k: int| before.len() <= k < self.data@.len() ==> self.data@[k] == 0u8,
                self.pos == old(self).pos,
            decreases start - self.data.len(),
        {
            self.data.push(0u8);
        }
        let ghost padded = self.data@;
        let mut i: usize = 0;
        while i < len
            invariant
                i <= len,
                len == buf@.len(),
                start + len <= usize::MAX,
                start <= padded.len(),
                self.pos == old(self).pos,
                self.data@.len() == if padded.len() > start + i {
                    padded.len() as int
                } else {
                    start + i
                },
                forall|k: int|
                    0 <= k < self.data@.len() ==> self.data@[k] == if start <= k < start + i {
                        buf@[k - start]
                    } else {
                        padded[k]
                    },
            decreases len - i,
        {
            let at: usize = start + i;
            if at < self.data.len() {
                self.data[at] = buf[i];
            } else {
                self.data.push(buf[i]);
            }
            i = i + 1;
        }
        self.pos = self.pos + len as u64;
        Ok(len)
    }

    /// Reads at most `max` bytes at the cursor and moves the cursor past
    /// them. A cursor at or past the end reads nothing.
    pub fn read(&mut self, max: usize) -> (out: Vec<u8>)
        ensures
            out@ == spec_read_at(old(self).data@, old(self).pos as int, max as int),
            final(self).data == old(self).data,
            final(self).pos == old(self).pos + out@.len(),
    {
        let len: usize = self.data.len();
        let start: usize = if self.pos < len as u64 {
            self.pos as usize
        } else {
            len
        };
        let available: usize = len - start;
        let count: usize = if max < available {
            max
        } else {
            available
        };
        let mut out: Vec<u8> = Vec::new();
        let mut i: usize = 0;
        while i < count
            invariant
                i <= count,
                start + count <= len,
                len == self.data@.len(),
                out@ == self.data@.subrange(start as int, start + i),
                self.data == old(self).data,
                self.pos == old(self).pos,
            decreases count - i,
        {
            out.push(self.data[start + i]);
            i = i + 1;
        }
        self.pos = self.pos + count as u64;
        out
    }

    /// Moves the cursor. A position past the end is allowed: a read there
    /// gives nothing and a write fills the gap with zeros. Fails, and leaves
    /// the cursor where it is, where the position would be negative or too
    /// large.
    pub fn seek(&mut self, to: SeekFrom) -> (res: Result<u64, Error>)
        ensures
            final(self).data == old(self).data,
            match spec_seek_target(old(self).data@.len() as int, old(self).pos as int, to) {
                Some(p) => res == Ok::<u64, Error>(p) && final(self).pos == p,
                None => res == Err::<u64, Error>(
                    Error { kind: ErrorKind::InvalidInput, os_code: None },
                ) && final(self).pos == old(self).pos,
            },
    {
        let target = match to {
            SeekFrom::Start(n) => Some(n),
            SeekFrom::End(n) => (self.data.len() as u64).checked_add_signed(n),
            SeekFrom::Current(n) => self.pos.checked_add_signed(n),
        };
        match target {
            Some(p) => {
                self.pos = p;
                Ok(p)
            },
            None => Err(Error::new(ErrorKind::InvalidInput)),
        }
    }
}

/// Where the bytes of a spooled buffer are: in memory, or in a file of
/// type `F`.
#[derive(Debug, PartialEq, Eq)]
pub enum SpooledData<F> {
    InMemory(MemCursor),
    OnDisk(F),
}

/// A spooled buffer with the limit `max_size`, whose file, when it needs
/// one, is created in `dir`, or in the default place where `dir` is `None`.
#[derive(Debug, PartialEq, Eq)]
pub struct SpooledTempFile<F> {
    pub max_size: usize,
    pub dir: Option<String>,
    pub inner: SpooledData<F>,
}

/// The answer of an operation on a spooled buffer.
#[derive(Debug, PartialEq, Eq)]
pub enum Step<T> {
    /// The buffer is in memory and the operation was carried out there, with
    /// this result.
    Done(T),
    /// The buffer is on disk: the operation is to be carried out on the
    /// file.
    Forward,
}

/// Whether a write of `len` bytes at `pos` would leave the store larger
/// than `max_size`.
pub open spec fn exceeds(pos: int, len: int, max_size: int) -> bool {
    pos + len > max_size
}

/// A new buffer in memory with the limit `max_size`.
pub fn spooled_tempfile<F>(max_size: usize) -> (s: SpooledTempFile<F>)
    ensures
        s.is_fresh(),
        s.max_size == max_size,
        s.dir is None,
{
    SpooledTempFile::new(max_size)
}

/// A new buffer in memory with the limit `max_size`, whose file will be
/// created in `dir`.
pub fn spooled_tempfile_in<F>(max_size: usize, dir: String) -> (s: SpooledTempFile<F>)
    ensures
        s.is_fresh(),
        s.max_size == max_size,
        s.dir == Some(dir),
{
    SpooledTempFile::new_in(max_size, dir)
}

impl<F> SpooledTempFile<F> {
    /// The buffer is in memory, empty, with its cursor at the start.
    pub open spec fn is_fresh(&self) -> bool {
        &&& self.inner is InMemory
        &&& self.inner->InMemory_0.data@ == Seq::<u8>::empty()
        &&& self.inner->InMemory_0.pos == 0
    }

    /// An empty buffer in memory, which moves to a file with the first write
    /// that would leave it larger than `max_size`.
    pub fn new(max_size: usize) -> (s: SpooledTempFile<F>)
        ensures
            s.is_fresh(),
            s.max_size == max_size,
            s.dir is None,
    {
        SpooledTempFile { max_size, dir: None, inner: SpooledData::InMemory(MemCursor::new()) }
    }

    /// As [`SpooledTempFile::new`], with the directory for the file.
    pub fn new_in(max_size: usize, dir: String) -> (s: SpooledTempFile<F>)
        ensures
            s.is_fresh(),
            s.max_size == max_size,
            s.dir == Some(dir),
    {
        SpooledTempFile { max_size, dir: Some(dir), inner: SpooledData::InMemory(MemCursor::new()) }
    }

    /// Whether the buffer has moved to a file.
    pub open spec fn spec_is_rolled(&self) -> bool {
        self.inner is OnDisk
    }

    /// Whether the buffer has moved to a file. Asking changes nothing.
    #[verifier::when_used_as_spec(spec_is_rolled)]
    pub fn is_rolled(&self) -> (b: bool)
        ensures
            b == self.spec_is_rolled(),
    {
        match &self.inner {
            SpooledData::InMemory(_) => false,
            SpooledData::OnDisk(_) => true,
        }
    }

    /// Whether a write of `len` bytes moves the buffer to a file first: it
    /// is in memory, and the write would end past the limit.
    pub open spec fn spec_needs_roll(&self, len: usize) -> bool {
        self.inner is InMemory && exceeds(
            self.inner->InMemory_0.pos as int,
            len as int,
            self.max_size as int,
        )
    }

    /// Whether a write of `len` bytes moves the buffer to a file first.
    #[verifier::when_used_as_spec(spec_needs_roll)]
    pub fn needs_roll(&self, len: usize) -> (b: bool)
        ensures
            b == self.spec_needs_roll(len),
    {
        match &self.inner {
            SpooledData::InMemory(cursor) => {
                cursor.pos > self.max_size as u64 || len as u64 > self.max_size as u64 - cursor.pos
            },
            SpooledData::OnDisk(_) => false,
        }
    }

    /// `r` is an outcome that the primitive `create` can give when this
    /// buffer, in memory, asks it for a file: one in the buffer's directory
    /// that holds the buffered bytes, in their order, with its cursor where
    /// the buffer's is.
    pub open spec fn spill_outcome<C: FnOnce(&Option<String>, &Vec<u8>, u64) -> Result<F, Error>>(
        &self,
        create: C,
        r: Result<F, Error>,
    ) -> bool {
        create.ensures((&self.dir, &self.inner->InMemory_0.data, self.inner->InMemory_0.pos), r)
    }

    /// What a move to a file makes of the outcome of its primitive: with
    /// the file, the buffer is on disk and its bytes in memory are given up;
    /// with a failure, the buffer stays as it is and the failure is
    /// returned.
    pub fn settle_roll(&mut self, outcome: Result<F, Error>) -> (res: Result<(), Error>)
        ensures
            final(self).max_size == old(self).max_size,
            final(self).dir == old(self).dir,
            match outcome {
                Ok(file) => res is Ok && final(self).inner == SpooledData::OnDisk(file),
                Err(e) => res == Err::<(), Error>(e) && final(self).inner == old(self).inner,
            },
    {
        match outcome {
            Ok(file) => {
                self.inner = SpooledData::OnDisk(file);
                Ok(())
            },
            Err(e) => Err(e),
        }
    }

    /// Moves the buffer to a file now, whatever its size. `create` is asked
    /// for the file, see [`SpooledTempFile::spill_outcome`]. On a buffer
    /// that is on disk already this does nothing: `create` need not even be
    /// callable then, so it is not called.
    pub fn roll<C: FnOnce(&Option<String>, &Vec<u8>, u64) -> Result<F, Error>>(
        &mut self,
        create: C,
    ) -> (res: Result<(), Error>)
        requires
            !old(self).is_rolled() ==> forall|o: &Option<String>, d: &Vec<u8>, p: u64|
                create.requires((o, d, p)),
        ensures
            final(self).max_size == old(self).max_size,
            final(self).dir == old(self).dir,
            old(self).is_rolled() ==> res is Ok && final(self).inner == old(self).inner,
            !old(self).is_rolled() ==> match res {
                Ok(_) => final(self).is_rolled() && old(self).spill_outcome(
                    create,
                    Ok::<F, Error>(final(self).inner->OnDisk_0),
                ),
                Err(e) => final(self).inner == old(self).inner && old(self).spill_outcome(
                    create,
                    Err::<F, Error>(e),
                ),
            },
    {
        let outcome = match &self.inner {
            SpooledData::OnDisk(_) => {
                return Ok(());
            },
            SpooledData::InMemory(cursor) => create(&self.dir, &cursor.data, cursor.pos),
        };
        self.settle_roll(outcome)
    }

    /// Writes `buf` at the cursor.
    ///
    /// A buffer in memory first moves to a file, as [`SpooledTempFile::roll`]
    /// does, if the write would leave it larger than the limit; if that
    /// fails, nothing is written and the buffer stays in memory. A buffer
    /// that is in memory then takes the write. One that is on disk, from
    /// before or from now, answers that the write goes to the file.
    ///
    /// `create` need be callable only where the write moves the buffer, so
    /// no file is asked for before the limit would be passed, nor after the
    /// buffer has moved.
    pub fn write<C: FnOnce(&Option<String>, &Vec<u8>, u64) -> Result<F, Error>>(
        &mut self,
        buf: &[u8],
        create: C,
    ) -> (res: Result<Step<usize>, Error>)
        requires
            old(self).needs_roll(buf.len()) ==> forall|o: &Option<String>, d: &Vec<u8>, p: u64|
                create.requires((o, d, p)),
        ensures
            final(self).max_size == old(self).max_size,
            final(self).dir == old(self).dir,
            old(self).is_rolled() ==> res == Ok::<Step<usize>, Error>(Step::Forward) && final(self).inner
                == old(self).inner,
            !old(self).is_rolled() && !old(self).needs_roll(buf.len()) ==> {
                &&& res == Ok::<Step<usize>, Error>(Step::Done(buf.len()))
                &&& final(self).inner is InMemory
                &&& final(self).inner->InMemory_0.data@ == spec_write_at(
                    old(self).inner->InMemory_0.data@,
                    old(self).inner->InMemory_0.pos as int,
                    buf@,
                )
                &&& final(self).inner->InMemory_0.pos == old(self).inner->InMemory_0.pos
                    + buf.len()
            },
            old(self).needs_roll(buf.len()) ==> match res {
                Ok(step) => step is Forward && final(self).is_rolled() && old(self).spill_outcome(
                    create,
                    Ok::<F, Error>(final(self).inner->OnDisk_0),
                ),
                Err(e) => final(self).inner == old(self).inner && old(self).spill_outcome(
                    create,
                    Err::<F, Error>(e),
                ),
            },
    {
        if self.needs_roll(buf.len()) {
            match self.roll(create) {
                Ok(_) => {},
                Err(e) => {
                    return Err(e);
                },
            }
        }
        match &mut self.inner {
            SpooledData::InMemory(cursor) => {
                match cursor.write(buf) {
                    Ok(n) => Ok(Step::Done(n)),
                    Err(e) => Err(e),
                }
            },
            SpooledData::OnDisk(_) => Ok(Step::Forward),
        }
    }

    /// Reads at most `max` bytes at the cursor of a buffer in memory.
    pub fn read(&mut self, max: usize) -> (res: Step<Vec<u8>>)
        ensures
            final(self).max_size == old(self).max_size,
            final(self).dir == old(self).dir,
            old(self).is_rolled() ==> res is Forward && final(self).inner == old(self).inner,
            !old(self).is_rolled() ==> {
                &&& res is Done
                &&& res->Done_0@ == spec_read_at(
                    old(self).inner->InMemory_0.data@,
                    old(self).inner->InMemory_0.pos as int,
                    max as int,
                )
                &&& final(self).inner is InMemory
                &&& final(self).inner->InMemory_0.data == old(self).inner->InMemory_0.data
                &&& final(self).inner->InMemory_0.pos == old(self).inner->InMemory_0.pos
                    + res->Done_0@.len()
            },
    {
        match &mut self.inner {
            SpooledData::InMemory(cursor) => Step::Done(cursor.read(max)),
            SpooledData::OnDisk(_) => Step::Forward,
        }
    }

    /// Moves the cursor of a buffer in memory.
    pub fn seek(&mut self, to: SeekFrom) -> (res: Step<Result<u64, Error>>)
        ensures
            final(self).max_size == old(self).max_size,
            final(self).dir == old(self).dir,
            old(self).is_rolled() ==> res is Forward && final(self).inner == old(self).inner,
            !old(self).is_rolled() ==> {
                &&& final(self).inner is InMemory
                &&& final(self).inner->InMemory_0.data == old(self).inner->InMemory_0.data
                &&& match spec_seek_target(
                    old(self).inner->InMemory_0.data@.len() as int,
                    old(self).inner->InMemory_0.pos as int,
                    to,
                ) {
                    Some(p) => res == Step::Done(Ok::<u64, Error>(p)) && final(self).inner->InMemory_0.pos
                        == p,
                    None => res == Step::Done(
                        Err::<u64, Error>(Error { kind: ErrorKind::InvalidInput, os_code: None }),
                    ) && final(self).inner->InMemory_0.pos == old(self).inner->InMemory_0.pos,
                }
            },
    {
        match &mut self.inner {
            SpooledData::InMemory(cursor) => Step::Done(cursor.seek(to)),
            SpooledData::OnDisk(_) => Step::Forward,
        }
    }

    /// The file of a buffer on disk.
    pub fn as_file_mut(&mut self) -> (file: Option<&mut F>)
        ensures
            final(self).max_size == old(self).max_size,
            final(self).dir == old(self).dir,
            old(self).is_rolled() == file is Some,
            !old(self).is_rolled() ==> final(self).inner == old(self).inner,
            old(self).is_rolled() ==> *file->Some_0 == old(self).inner->OnDisk_0 && final(self).inner
                == SpooledData::OnDisk(*final(file->Some_0)),
    {
        match &mut self.inner {
            SpooledData::InMemory(_) => None,
            SpooledData::OnDisk(file) => Some(file),
        }
    }

    /// Takes the buffer apart.
    pub fn into_inner(self) -> (inner: SpooledData<F>)
        ensures
            inner == self.inner,
    {
        self.inner
    }
}

/// What is written is read back: a read at the position of a write, of as
/// many bytes as were written, gives those bytes. Around them, the bytes
/// that were there stay, and a gap before them holds zeros.
pub proof fn lemma_write_then_read(data: Seq<u8>, pos: int, buf: Seq<u8>)
    requires
        0 <= pos,
    ensures
        spec_read_at(spec_write_at(data, pos, buf), pos, buf.len() as int) == buf,
        forall|i: int|
            0 <= i < data.len() && !(pos <= i < pos + buf.len()) ==> #[trigger] spec_write_at(
                data,
                pos,
                buf,
            )[i] == data[i],
        forall|i: int| data.len() <= i < pos ==> #[trigger] spec_write_at(data, pos, buf)[i] == 0u8,
{
}

/// The limit of a spooled buffer. A fresh buffer that is written `first`,
/// of no more bytes than the limit, stays in memory and holds exactly
/// `first`. A further write of `second` moves it to a file if and only if
/// the two together are larger than the limit. The file is then asked to
/// hold `first` with its cursor behind it, and a byte store in that state
/// holds, after `second` is written to it, `first` followed by `second`.
pub proof fn lemma_spill_threshold<F>(
    fresh: SpooledTempFile<F>,
    filled: SpooledTempFile<F>,
    first: Seq<u8>,
    second: Seq<u8>,
)
    requires
        fresh.is_fresh(),
        first.len() <= fresh.max_size,
        second.len() <= usize::MAX,
        filled.max_size == fresh.max_size,
        filled.inner is InMemory,
        filled.inner->InMemory_0.data@ == spec_write_at(fresh.inner->InMemory_0.data@, 0, first),
        filled.inner->InMemory_0.pos == first.len(),
    ensures
        !fresh.needs_roll(first.len() as usize),
        !filled.is_rolled(),
        filled.inner->InMemory_0.data@ == first,
        filled.needs_roll(second.len() as usize) <==> first.len() + second.len() > fresh.max_size,
        spec_write_at(first, first.len() as int, second) == first + second,
{
}

} // verus!
