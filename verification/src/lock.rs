//! The guard of one locked key.

use crate::datum::Datum;
use crate::engine::{to_raw_datum, FetchCall, FetchReply, UnlockCall};
use crate::handle::MDBM;
use crate::protocol::{
    fetch_outcome, fetch_request, unlock_request, LOCK_DONE, UNLOCK_FLAGS,
};
use libc::c_int;
use vstd::prelude::*;

verus! {

/// A held lock on one key of one store. It borrows the handle it was
/// taken on and keeps the view of the key that was locked, so that the
/// very same bytes release the lock again.
#[derive(Debug)]
pub struct Lock<'a> {
    db: &'a MDBM,
    key: Datum<'a>,
}

/// Where a fetched value stands in the engine's memory. It borrows the
/// guard that fetched it: once the guard is released, no `Value` taken
/// from it can be used any more.
#[derive(Copy, Clone, Debug)]
pub struct Value<'g> {
    ptr: usize,
    len: usize,
    held: &'g MDBM,
}

impl<'g> Value<'g> {
    /// The address of the value's first byte.
    pub closed spec fn addr(&self) -> usize {
        self.ptr
    }

    /// The number of bytes of the value.
    pub closed spec fn size(&self) -> usize {
        self.len
    }

    /// The descriptor of the store whose memory holds the value.
    pub closed spec fn descriptor(&self) -> usize {
        self.held.descriptor()
    }

    /// The address of the value's first byte.
    pub fn ptr(&self) -> (p: usize)
        ensures
            p == self.addr(),
    {
        self.ptr
    }

    /// The number of bytes of the value.
    pub fn len(&self) -> (n: usize)
        ensures
            n == self.size(),
    {
        self.len
    }
}

impl<'a> Lock<'a> {
    /// The guard of `key`, locked on `db`.
    pub(crate) fn new(db: &'a MDBM, key: Datum<'a>) -> (guard: Lock<'a>)
        ensures
            guard.descriptor() == db.descriptor(),
            guard.key() == key@,
    {
        Lock { db: db, key: key }
    }

    /// The descriptor of the store on which the key is locked.
    pub closed spec fn descriptor(&self) -> usize {
        self.db.descriptor()
    }

    /// The bytes of the locked key.
    pub closed spec fn key(&self) -> Seq<u8> {
        self.key@
    }

    /// The call that fetches the value of the locked key.
    pub fn get_call(&self) -> (call: FetchCall<'a>)
        ensures
            call@ == fetch_request(self.descriptor(), self.key()),
    {
        FetchCall { db: self.db.db(), key: to_raw_datum(&self.key) }
    }

    /// What the engine's `fetch` answered: a null address says that the
    /// key is absent, which is no error; any other is where the value
    /// stands, for as long as this guard is held.
    pub fn get<'g>(&'g self, reply: FetchReply) -> (r: Option<Value<'g>>)
        ensures
            match fetch_outcome(reply) {
                None => r is None,
                Some((addr, size)) => r matches Some(value) && value.addr() == addr
                    && value.size() == size && value.descriptor() == self.descriptor(),
            },
    {
        if reply.dptr == 0 {
            None
        } else {
            Some(
                Value {
                    ptr: reply.dptr,
                    len: #[verifier::truncate]
                    (reply.dsize as usize),
                    held: self.db,
                },
            )
        }
    }

    /// The call that releases the lock: on the bytes that took it, with
    /// no flag set.
    pub fn unlock_call(&self) -> (call: UnlockCall<'a>)
        ensures
            call@ == unlock_request(self.descriptor(), self.key()),
    {
        UnlockCall { db: self.db.db(), key: to_raw_datum(&self.key), flags: UNLOCK_FLAGS }
    }

    /// Gives the guard up once the engine's `unlock_smart` has answered
    /// `1`. Any other answer leaves the engine's lock table in doubt: no
    /// guard can be given up on it, and the caller must not go on.
    pub fn release(self, rc: c_int)
        requires
            rc == LOCK_DONE,
    {
    }
}

} // verus!
