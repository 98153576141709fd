use std::cell::Cell;
use tempfile::error::{Error, ErrorKind};
use tempfile::spooled::{
    spooled_tempfile, spooled_tempfile_in, MemCursor, SeekFrom, SpooledData, SpooledTempFile, Step,
};

/// The file of these tests: a byte store with a cursor, made to hold what it
/// is asked to.
fn spill(_dir: &Option<String>, data: &Vec<u8>, pos: u64) -> Result<MemCursor, Error> {
    Ok(MemCursor { data: data.clone(), pos })
}

fn no_spill(_dir: &Option<String>, _data: &Vec<u8>, _pos: u64) -> Result<MemCursor, Error> {
    panic!("the buffer must stay in memory")
}

/// Writes through the buffer as a caller does: in memory, or on the file.
fn write_all(s: &mut SpooledTempFile<MemCursor>, buf: &[u8]) -> usize {
    match s.write(buf, spill).unwrap() {
        Step::Done(n) => n,
        Step::Forward => s.as_file_mut().unwrap().write(buf).unwrap(),
    }
}

fn read_all(s: &mut SpooledTempFile<MemCursor>) -> Vec<u8> {
    match s.seek(SeekFrom::Start(0)) {
        Step::Done(r) => assert_eq!(r, Ok(0)),
        Step::Forward => assert_eq!(s.as_file_mut().unwrap().seek(SeekFrom::Start(0)), Ok(0)),
    }
    match s.read(usize::MAX) {
        Step::Done(bytes) => bytes,
        Step::Forward => s.as_file_mut().unwrap().read(usize::MAX),
    }
}

#[test]
fn write_places_bytes_at_the_cursor() {
    let mut c = MemCursor::new();
    assert_eq!(c.write(b"abcde"), Ok(5));
    assert_eq!(c.position(), 5);
    assert_eq!(*c.get_ref(), b"abcde".to_vec());
    assert_eq!(c.seek(SeekFrom::Start(1)), Ok(1));
    assert_eq!(c.write(b"XY"), Ok(2));
    assert_eq!(*c.get_ref(), b"aXYde".to_vec());
    assert_eq!(c.position(), 3);
    assert_eq!(c.seek(SeekFrom::Start(4)), Ok(4));
    assert_eq!(c.write(b"123"), Ok(3));
    assert_eq!(*c.get_ref(), b"aXYd123".to_vec());
    assert_eq!(c.position(), 7);
    assert_eq!(c.write(b""), Ok(0));
    assert_eq!(c.into_inner(), b"aXYd123".to_vec());
}

#[test]
fn write_past_the_end_fills_the_gap_with_zeros() {
    let mut c = MemCursor::new();
    assert_eq!(c.write(b"ab"), Ok(2));
    assert_eq!(c.seek(SeekFrom::Start(5)), Ok(5));
    assert_eq!(*c.get_ref(), b"ab".to_vec());
    assert_eq!(c.write(b"z"), Ok(1));
    assert_eq!(*c.get_ref(), vec![b'a', b'b', 0, 0, 0, b'z']);
    assert_eq!(c.position(), 6);
    let mut d = MemCursor::new();
    assert_eq!(d.seek(SeekFrom::Start(3)), Ok(3));
    assert_eq!(d.write(b""), Ok(0));
    assert_eq!(*d.get_ref(), vec![0, 0, 0]);
}

#[test]
fn write_that_cannot_be_held_changes_nothing() {
    let mut c = MemCursor { data: vec![1, 2], pos: u64::MAX };
    assert_eq!(c.write(b"x"), Err(Error::new(ErrorKind::InvalidInput)));
    assert_eq!(c, MemCursor { data: vec![1, 2], pos: u64::MAX });
}

#[test]
fn read_takes_what_is_there() {
    let mut c = MemCursor { data: b"hello world".to_vec(), pos: 0 };
    assert_eq!(c.read(5), b"hello".to_vec());
    assert_eq!(c.position(), 5);
    assert_eq!(c.read(0), Vec::<u8>::new());
    assert_eq!(c.read(100), b" world".to_vec());
    assert_eq!(c.position(), 11);
    assert_eq!(c.read(100), Vec::<u8>::new());
    assert_eq!(c.position(), 11);
    assert_eq!(c.seek(SeekFrom::Start(40)), Ok(40));
    assert_eq!(c.read(3), Vec::<u8>::new());
    assert_eq!(c.position(), 40);
    assert_eq!(*c.get_ref(), b"hello world".to_vec());
}

#[test]
fn seek_goes_from_start_end_and_cursor() {
    let mut c = MemCursor { data: b"0123456789".to_vec(), pos: 4 };
    assert_eq!(c.seek(SeekFrom::Current(3)), Ok(7));
    assert_eq!(c.seek(SeekFrom::Current(-7)), Ok(0));
    assert_eq!(c.seek(SeekFrom::End(0)), Ok(10));
    assert_eq!(c.seek(SeekFrom::End(-10)), Ok(0));
    assert_eq!(c.seek(SeekFrom::End(5)), Ok(15));
    assert_eq!(c.position(), 15);
    assert_eq!(c.seek(SeekFrom::Start(u64::MAX)), Ok(u64::MAX));
    assert_eq!(c.seek(SeekFrom::Current(0)), Ok(u64::MAX));
}

#[test]
fn seek_out_of_range_fails_and_stays() {
    let mut c = MemCursor { data: b"0123456789".to_vec(), pos: 4 };
    let invalid = Err(Error::new(ErrorKind::InvalidInput));
    assert_eq!(c.seek(SeekFrom::Current(-5)), invalid);
    assert_eq!(c.position(), 4);
    assert_eq!(c.seek(SeekFrom::End(-11)), invalid);
    assert_eq!(c.position(), 4);
    assert_eq!(c.seek(SeekFrom::Start(u64::MAX)), Ok(u64::MAX));
    assert_eq!(c.seek(SeekFrom::Current(1)), invalid);
    assert_eq!(c.position(), u64::MAX);
    assert_eq!(c.seek(SeekFrom::End(i64::MIN)), invalid);
}

#[test]
fn new_buffer_is_in_memory_and_empty() {
    let s: SpooledTempFile<MemCursor> = spooled_tempfile(10);
    assert!(!s.is_rolled());
    assert_eq!(s.max_size, 10);
    assert_eq!(s.dir, None);
    assert_eq!(s.inner, SpooledData::InMemory(MemCursor { data: vec![], pos: 0 }));
    let t: SpooledTempFile<MemCursor> = spooled_tempfile_in(3, String::from("/var/tmp"));
    assert_eq!(t.dir, Some(String::from("/var/tmp")));
    assert_eq!(t.max_size, 3);
    assert!(!t.is_rolled());
    assert_eq!(t, SpooledTempFile::new_in(3, String::from("/var/tmp")));
    assert_eq!(s, SpooledTempFile::new(10));
}

#[test]
fn buffer_stays_in_memory_up_to_the_limit() {
    let mut s: SpooledTempFile<MemCursor> = SpooledTempFile::new(10);
    assert_eq!(s.write(b"abcdefghi", no_spill), Ok(Step::Done(9)));
    assert!(!s.is_rolled());
    assert!(!s.needs_roll(1));
    assert!(s.needs_roll(2));
    assert_eq!(s.write(b"j", no_spill), Ok(Step::Done(1)));
    assert!(!s.is_rolled());
    assert!(!s.needs_roll(0));
    assert!(s.needs_roll(1));
    assert_eq!(s.inner, SpooledData::InMemory(MemCursor { data: b"abcdefghij".to_vec(), pos: 10 }));
}

#[test]
fn write_past_the_limit_moves_the_buffer_to_a_file() {
    let mut s: SpooledTempFile<MemCursor> = SpooledTempFile::new(10);
    assert_eq!(write_all(&mut s, b"abcdefghij"), 10);
    assert!(!s.is_rolled());
    assert_eq!(s.write(b"k", spill), Ok(Step::Forward));
    assert!(s.is_rolled());
    assert_eq!(s.inner, SpooledData::OnDisk(MemCursor { data: b"abcdefghij".to_vec(), pos: 10 }));
    assert_eq!(s.as_file_mut().unwrap().write(b"k"), Ok(1));
    assert_eq!(read_all(&mut s), b"abcdefghijk".to_vec());
}

#[test]
fn content_survives_the_move_byte_for_byte() {
    for limit in [0usize, 1, 5, 64] {
        let mut s: SpooledTempFile<MemCursor> = SpooledTempFile::new(limit);
        let mut written = Vec::new();
        for round in 0..40u8 {
            let chunk: Vec<u8> = (0..(round % 7)).map(|i| round.wrapping_mul(31).wrapping_add(i)).collect();
            assert_eq!(write_all(&mut s, &chunk), chunk.len());
            written.extend_from_slice(&chunk);
            assert_eq!(s.is_rolled(), written.len() > limit);
        }
        assert_eq!(read_all(&mut s), written);
    }
}

#[test]
fn one_large_write_moves_an_empty_buffer() {
    let mut s: SpooledTempFile<MemCursor> = SpooledTempFile::new(4);
    assert_eq!(s.write(b"hello", spill), Ok(Step::Forward));
    assert_eq!(s.inner, SpooledData::OnDisk(MemCursor { data: vec![], pos: 0 }));
}

#[test]
fn file_is_asked_for_in_the_directory_of_the_buffer() {
    let seen = Cell::new(false);
    let mut s: SpooledTempFile<u8> = SpooledTempFile::new_in(2, String::from("/var/tmp"));
    assert_eq!(s.write(b"ab", |_d: &Option<String>, _b: &Vec<u8>, _p: u64| Ok(0)), Ok(Step::Done(2)));
    assert_eq!(s.seek(SeekFrom::Start(1)), Step::Done(Ok(1)));
    let res = s.roll(|d: &Option<String>, bytes: &Vec<u8>, pos: u64| {
        seen.set(*d == Some(String::from("/var/tmp")) && *bytes == b"ab".to_vec() && pos == 1);
        Ok(9)
    });
    assert_eq!(res, Ok(()));
    assert!(seen.get());
    assert_eq!(s.inner, SpooledData::OnDisk(9));
    assert_eq!(s.dir, Some(String::from("/var/tmp")));
}

#[test]
fn cursor_position_decides_not_the_length() {
    let mut s: SpooledTempFile<MemCursor> = SpooledTempFile::new(10);
    assert_eq!(write_all(&mut s, b"abcdefgh"), 8);
    assert_eq!(s.seek(SeekFrom::Start(0)), Step::Done(Ok(0)));
    assert_eq!(s.write(b"0123456789", no_spill), Ok(Step::Done(10)));
    assert!(!s.is_rolled());
    assert_eq!(s.seek(SeekFrom::Start(11)), Step::Done(Ok(11)));
    assert!(s.needs_roll(0));
    assert_eq!(s.write(b"", spill), Ok(Step::Forward));
    assert_eq!(s.inner, SpooledData::OnDisk(MemCursor { data: b"0123456789".to_vec(), pos: 11 }));
}

#[test]
fn failed_move_leaves_the_buffer_in_memory() {
    let cause = Error::from_os(ErrorKind::StorageFull, 28);
    let mut s: SpooledTempFile<MemCursor> = SpooledTempFile::new(3);
    assert_eq!(write_all(&mut s, b"abc"), 3);
    let res = s.write(b"d", |_d: &Option<String>, _b: &Vec<u8>, _p: u64| Err(cause));
    assert_eq!(res, Err(cause));
    assert!(!s.is_rolled());
    assert_eq!(s.inner, SpooledData::InMemory(MemCursor { data: b"abc".to_vec(), pos: 3 }));
    assert_eq!(s.roll(|_d: &Option<String>, _b: &Vec<u8>, _p: u64| Err(cause)), Err(cause));
    assert!(!s.is_rolled());
    assert_eq!(write_all(&mut s, b"d"), 1);
    assert!(s.is_rolled());
    assert_eq!(read_all(&mut s), b"abcd".to_vec());
}

#[test]
fn forced_move_happens_before_the_limit() {
    let mut s: SpooledTempFile<MemCursor> = SpooledTempFile::new(100);
    assert_eq!(write_all(&mut s, b"early"), 5);
    assert_eq!(s.roll(spill), Ok(()));
    assert!(s.is_rolled());
    assert_eq!(s.write(b"x", no_spill), Ok(Step::Forward));
    assert_eq!(s.read(1), Step::Forward);
    assert_eq!(s.seek(SeekFrom::Start(0)), Step::Forward);
    assert_eq!(read_all(&mut s), b"early".to_vec());
}

#[test]
fn forced_move_of_a_file_does_nothing() {
    let mut s: SpooledTempFile<MemCursor> = SpooledTempFile::new(2);
    assert_eq!(write_all(&mut s, b"abc"), 3);
    assert!(s.is_rolled());
    assert_eq!(s.roll(no_spill), Ok(()));
    assert_eq!(s.roll(no_spill), Ok(()));
    assert!(s.is_rolled());
    assert_eq!(read_all(&mut s), b"abc".to_vec());
    assert_eq!(s.into_inner(), SpooledData::OnDisk(MemCursor { data: b"abc".to_vec(), pos: 3 }));
}

#[test]
fn settle_roll_decides_by_the_outcome() {
    let cause = Error::new(ErrorKind::PermissionDenied);
    let mut s: SpooledTempFile<u8> = SpooledTempFile::new(2);
    assert_eq!(s.settle_roll(Err(cause)), Err(cause));
    assert_eq!(s, SpooledTempFile::new(2));
    assert_eq!(s.settle_roll(Ok(4)), Ok(()));
    assert_eq!(s.inner, SpooledData::OnDisk(4));
    assert_eq!(s.max_size, 2);
}

#[test]
fn reads_and_seeks_work_in_memory() {
    let mut s: SpooledTempFile<MemCursor> = SpooledTempFile::new(100);
    assert_eq!(s.as_file_mut(), None);
    assert_eq!(write_all(&mut s, b"abcdef"), 6);
    assert_eq!(s.read(3), Step::Done(vec![]));
    assert_eq!(s.seek(SeekFrom::End(-2)), Step::Done(Ok(4)));
    assert_eq!(s.read(5), Step::Done(b"ef".to_vec()));
    assert_eq!(s.seek(SeekFrom::Current(-7)), Step::Done(Err(Error::new(ErrorKind::InvalidInput))));
    assert_eq!(s.seek(SeekFrom::Current(-6)), Step::Done(Ok(0)));
    assert_eq!(s.read(2), Step::Done(b"ab".to_vec()));
    assert!(!s.is_rolled());
}

#[test]
fn file_is_asked_for_once_at_the_first_move_only() {
    let asked = Cell::new(0u32);
    let create = |_d: &Option<String>, data: &Vec<u8>, pos: u64| {
        asked.set(asked.get() + 1);
        Ok::<MemCursor, Error>(MemCursor { data: data.clone(), pos })
    };
    let mut s: SpooledTempFile<MemCursor> = SpooledTempFile::new(6);
    assert_eq!(s.write(b"abc", &create), Ok(Step::Done(3)));
    assert_eq!(s.read(2), Step::Done(vec![]));
    assert_eq!(s.seek(SeekFrom::Start(1)), Step::Done(Ok(1)));
    assert_eq!(s.write(b"XYZ", &create), Ok(Step::Done(3)));
    assert_eq!(s.write(b"12", &create), Ok(Step::Done(2)));
    assert_eq!(asked.get(), 0);
    assert_eq!(s.write(b"!", &create), Ok(Step::Forward));
    assert_eq!(asked.get(), 1);
    assert_eq!(s.inner, SpooledData::OnDisk(MemCursor { data: b"aXYZ12".to_vec(), pos: 6 }));
    assert_eq!(s.write(b"more than the limit holds", &create), Ok(Step::Forward));
    assert_eq!(s.roll(&create), Ok(()));
    assert_eq!(s.read(1), Step::Forward);
    assert_eq!(s.seek(SeekFrom::End(0)), Step::Forward);
    assert_eq!(s.roll(&create), Ok(()));
    assert_eq!(asked.get(), 1);
    assert_eq!(s.inner, SpooledData::OnDisk(MemCursor { data: b"aXYZ12".to_vec(), pos: 6 }));
}
