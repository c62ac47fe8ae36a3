use mdbm::engine::{FetchReply, SetHashCall, TeardownCall};
use mdbm::protocol::{LOCK_DONE, STORE_FAILED, UNLOCK_FLAGS};
use mdbm::{Error, HashFunction, Options, ReadState, MDBM};

fn handle(db: usize) -> MDBM {
    MDBM::new(Default::default(), db, 0).unwrap().0
}

#[test]
fn open_call_carries_path_flags_and_sizes() {
    let opts = Options { reads: ReadState::WriteOnly, create: true, hash: Some(HashFunction::MD5) };
    let call = MDBM::open_call("test.db", opts, 0o644, 4096, 8192).unwrap();
    assert_eq!(call.file, b"test.db\0");
    assert_eq!(call.flags, 0x41);
    assert_eq!(call.mode, 0o644);
    assert_eq!(call.psize, 4096);
    assert_eq!(call.presize, 8192);
}

#[test]
fn open_call_takes_the_path_as_bytes_too() {
    let path: &[u8] = &[0xffu8, b'.', b'd', b'b'];
    let call = MDBM::open_call(path, Default::default(), 0, 0, 0).unwrap();
    assert_eq!(call.file, vec![0xffu8, b'.', b'd', b'b', 0]);
    assert_eq!(call.flags, 0x42);
}

#[test]
fn open_call_casts_sizes_as_c_does() {
    let call = MDBM::open_call("a", Default::default(), 0xffff_ffff, 0x8000_0000, 0).unwrap();
    assert_eq!(call.mode, -1);
    assert_eq!(call.psize, i32::MIN);
    assert_eq!(call.presize, 0);
}

#[test]
fn open_call_refuses_a_zero_byte() {
    assert_eq!(
        MDBM::open_call("a\0b", Default::default(), 0o644, 0, 0).err(),
        Some(Error::InvalidPath)
    );
    let path: &[u8] = &[0u8];
    assert_eq!(
        MDBM::open_call(path, Default::default(), 0o644, 0, 0).err(),
        Some(Error::InvalidPath)
    );
}

#[test]
fn null_descriptor_is_an_os_error() {
    let r = MDBM::new(Default::default(), 0, 13);
    assert_eq!(r.err(), Some(Error::OsError(13)));
    let opts = Options { reads: ReadState::ReadOnly, create: false, hash: Some(HashFunction::OZ) };
    assert_eq!(MDBM::new(opts, 0, 2).err(), Some(Error::OsError(2)));
}

#[test]
fn any_other_descriptor_is_a_handle() {
    let (db, selection) = MDBM::new(Default::default(), 0x7f00_1000, 13).unwrap();
    assert_eq!(db.db(), 0x7f00_1000);
    assert_eq!(selection, None);
    let (db, _) = MDBM::new(Default::default(), usize::MAX, 0).unwrap();
    assert_eq!(db.db(), usize::MAX);
}

#[test]
fn hash_selection_names_descriptor_and_constant() {
    let mut opts: Options = Default::default();
    opts.hash = Some(HashFunction::SHA1);
    let (_, selection) = MDBM::new(opts, 42, 0).unwrap();
    assert_eq!(selection, Some(SetHashCall { db: 42, hashid: 8 }));
    opts.hash = Some(HashFunction::CRC32);
    let (_, selection) = MDBM::new(opts, 42, 0).unwrap();
    assert_eq!(selection, Some(SetHashCall { db: 42, hashid: 0 }));
}

#[test]
fn set_call_carries_key_value_and_flags() {
    let db = handle(7);
    let call = db.set_call("hello", "world", 1);
    assert_eq!(call.db, 7);
    assert_eq!(call.key.dptr(), b"hello");
    assert_eq!(call.key.dsize(), 5);
    assert_eq!(call.val.dptr(), b"world");
    assert_eq!(call.val.dsize(), 5);
    assert_eq!(call.flags, 1);
}

#[test]
fn set_call_borrows_without_copying() {
    let db = handle(7);
    let key = String::from("hello");
    let value = vec![1u8, 2, 3];
    let call = db.set_call(key.as_str(), value.as_slice(), 0);
    assert_eq!(call.key.dptr().as_ptr(), key.as_ptr());
    assert_eq!(call.val.dptr().as_ptr(), value.as_ptr());
}

#[test]
fn set_fails_on_minus_one_only() {
    let db = handle(7);
    assert_eq!(db.set(-1, 30), Err(Error::OsError(30)));
    assert_eq!(db.set(STORE_FAILED, 1), Err(Error::OsError(1)));
    assert_eq!(db.set(0, 30), Ok(()));
    assert_eq!(db.set(1, 30), Ok(()));
    assert_eq!(db.set(-2, 30), Ok(()));
    assert_eq!(db.set(i32::MIN, 30), Ok(()));
    assert_eq!(db.set(i32::MAX, 30), Ok(()));
}

#[test]
fn lock_call_carries_key_and_flags() {
    let db = handle(9);
    let call = db.lock_call("hello", -1);
    assert_eq!(call.db, 9);
    assert_eq!(call.key.dptr(), b"hello");
    assert_eq!(call.key.dsize(), 5);
    assert_eq!(call.flags, -1);
}

#[test]
fn lock_succeeds_on_one_only() {
    let db = handle(9);
    assert!(db.lock("hello", 1, 0).is_ok());
    assert!(db.lock("hello", LOCK_DONE, 5).is_ok());
    assert_eq!(db.lock("hello", 0, 11).err(), Some(Error::OsError(11)));
    assert_eq!(db.lock("hello", -1, 12).err(), Some(Error::OsError(12)));
    assert_eq!(db.lock("hello", 2, 13).err(), Some(Error::OsError(13)));
    assert_eq!(db.lock("hello", i32::MAX, 0).err(), Some(Error::OsError(0)));
}

#[test]
fn guard_fetches_and_unlocks_with_the_key_it_locked() {
    let db = handle(9);
    let key = String::from("hello");
    let guard = db.lock(key.as_str(), 1, 0).unwrap();
    let fetch = guard.get_call();
    assert_eq!(fetch.db, 9);
    assert_eq!(fetch.key.dptr(), b"hello");
    assert_eq!(fetch.key.dsize(), 5);
    assert_eq!(fetch.key.dptr().as_ptr(), key.as_ptr());
    let unlock = guard.unlock_call();
    assert_eq!(unlock.db, 9);
    assert_eq!(unlock.key.dptr(), b"hello");
    assert_eq!(unlock.key.dptr().as_ptr(), key.as_ptr());
    assert_eq!(unlock.flags, 0);
    assert_eq!(unlock.flags, UNLOCK_FLAGS);
    guard.release(1);
}

#[test]
fn null_address_is_absent() {
    let db = handle(9);
    let guard = db.lock("hello", 1, 0).unwrap();
    assert!(guard.get(FetchReply { dptr: 0, dsize: 0 }).is_none());
    assert!(guard.get(FetchReply { dptr: 0, dsize: 5 }).is_none());
}

#[test]
fn any_other_address_is_the_value() {
    let db = handle(9);
    let guard = db.lock("hello", 1, 0).unwrap();
    let value = guard.get(FetchReply { dptr: 0x1000, dsize: 5 }).unwrap();
    assert_eq!(value.ptr(), 0x1000);
    assert_eq!(value.len(), 5);
    let empty = guard.get(FetchReply { dptr: 0x1000, dsize: 0 }).unwrap();
    assert_eq!(empty.len(), 0);
}

#[test]
fn size_is_cast_to_a_length_as_c_does() {
    let db = handle(9);
    let guard = db.lock("hello", 1, 0).unwrap();
    let value = guard.get(FetchReply { dptr: 1, dsize: -1 }).unwrap();
    assert_eq!(value.len(), usize::MAX);
    let value = guard.get(FetchReply { dptr: 1, dsize: i32::MAX }).unwrap();
    assert_eq!(value.len(), 0x7fff_ffff);
}

#[test]
fn close_asks_for_sync_then_close() {
    let db = handle(11);
    let calls = db.close();
    assert_eq!(calls, [TeardownCall::Sync { db: 11 }, TeardownCall::Close { db: 11 }]);
}
