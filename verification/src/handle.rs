//! The handle on one open store.

use crate::datum::AsDatum;
use crate::engine::{
    isize_to_c_int, to_raw_datum, usize_to_c_int, LockCall, OpenCall, SetHashCall, StoreCall,
    TeardownCall,
};
use crate::error::Error;
use crate::lock::Lock;
use crate::options::Options;
use crate::path::{c_path, has_no_nul};
use crate::protocol::{
    hash_request, lock_outcome, lock_request, open_outcome, open_request, store_outcome,
    store_request, teardown, LOCK_DONE, STORE_FAILED,
};
use libc::c_int;
use vstd::prelude::*;

verus! {

/// One open store. It owns the engine's descriptor, which is never null,
/// and gives it up only to `close`.
#[derive(Debug)]
pub struct MDBM {
    db: usize,
}

impl MDBM {
    #[verifier::type_invariant]
    spec fn descriptor_not_null(self) -> bool {
        self.db != 0
    }

    /// The engine's descriptor of this store.
    pub closed spec fn descriptor(&self) -> usize {
        self.db
    }

    /// The engine's descriptor of this store.
    pub fn db(&self) -> (db: usize)
        ensures
            db == self.descriptor(),
            db != 0,
    {
        proof {
            use_type_invariant(self);
        }
        self.db
    }

    /// The call that opens the store at `path`. A path with a zero byte
    /// in it has no null-terminated form and is refused.
    pub fn open_call<'p, P>(
        path: &'p P,
        options: Options,
        mode: usize,
        psize: usize,
        presize: usize,
    ) -> (r: Result<OpenCall, Error>) where P: AsDatum<'p> + ?Sized
        ensures
            !has_no_nul(path.datum_bytes()) ==> r == Err::<OpenCall, Error>(Error::InvalidPath),
            has_no_nul(path.datum_bytes()) ==> r.is_ok() && r.unwrap()@ == open_request(
                path.datum_bytes(),
                options,
                mode,
                psize,
                presize,
            ),
    {
        let file: Vec<u8> = match c_path(path.as_datum().bytes()) {
            Ok(file) => file,
            Err(e) => {
                return Err(e);
            },
        };
        let flag_u32: u32 = options.flags();
        proof {
            options.flags_value();
        }
        Ok(
            OpenCall {
                file: file,
                flags: flag_u32 as c_int,
                mode: usize_to_c_int(mode),
                psize: usize_to_c_int(psize),
                presize: usize_to_c_int(presize),
            },
        )
    }

    /// The handle on a store that the engine opened with `options`, from
    /// what its `open` answered: the descriptor `db`, null on failure, and
    /// the error code `errno` that the operating system then left behind.
    /// Beside the handle stands the hash selection to issue on it.
    pub fn new(options: Options, db: usize, errno: i32) -> (r: Result<
        (MDBM, Option<SetHashCall>),
        Error,
    >)
        ensures
            open_outcome(db, errno) matches Err(e) ==> r == Err::<
                (MDBM, Option<SetHashCall>),
                Error,
            >(e),
            open_outcome(db, errno) is Ok ==> (r matches Ok((handle, selection))
                && handle.descriptor() == db && match options.hash {
                None => selection is None,
                Some(hash) => selection is Some && selection.unwrap()@ == hash_request(db, hash),
            }),
    {
        if db == 0 {
            return Err(Error::OsError(errno));
        }
        let selection: Option<SetHashCall> = match options.hash {
            None => None,
            Some(h) => Some(SetHashCall { db: db, hashid: h.hash_constant() as c_int }),
        };
        Ok((MDBM { db: db }, selection))
    }

    /// The call that stores `value` under `key`. Both are borrowed for
    /// the call and no longer.
    pub fn set_call<'k, 'v, K, V>(&self, key: &'k K, value: &'v V, flags: isize) -> (call:
        StoreCall<'k, 'v>) where K: AsDatum<'k> + ?Sized, V: AsDatum<'v> + ?Sized
        ensures
            call@ == store_request(
                self.descriptor(),
                key.datum_bytes(),
                value.datum_bytes(),
                flags,
            ),
    {
        StoreCall {
            db: self.db,
            key: to_raw_datum(&key.as_datum()),
            val: to_raw_datum(&value.as_datum()),
            flags: isize_to_c_int(flags),
        }
    }

    /// What the engine's `store` answered: `-1` is failure, with the
    /// error code `errno`; anything else is success.
    pub fn set(&self, rc: c_int, errno: i32) -> (r: Result<(), Error>)
        ensures
            r == store_outcome(rc, errno),
    {
        if rc == STORE_FAILED {
            Err(Error::OsError(errno))
        } else {
            Ok(())
        }
    }

    /// The call that locks `key`.
    pub fn lock_call<'a, K>(&'a self, key: &'a K, flags: isize) -> (call: LockCall<
        'a,
    >) where K: AsDatum<'a> + ?Sized
        ensures
            call@ == lock_request(self.descriptor(), key.datum_bytes(), flags),
    {
        LockCall {
            db: self.db,
            key: to_raw_datum(&key.as_datum()),
            flags: isize_to_c_int(flags),
        }
    }

    /// What the engine's `lock_smart` answered on `key`: exactly `1` is
    /// success and gives the guard, which keeps this handle and the view
    /// of `key` borrowed; anything else is failure, with the error code
    /// `errno`.
    pub fn lock<'a, K>(&'a self, key: &'a K, rc: c_int, errno: i32) -> (r: Result<
        Lock<'a>,
        Error,
    >) where K: AsDatum<'a> + ?Sized
        ensures
            lock_outcome(rc, errno) is Ok ==> (r matches Ok(guard) && guard.descriptor()
                == self.descriptor() && guard.key() == key.datum_bytes()),
            lock_outcome(rc, errno) matches Err(e) ==> (r matches Err(f) && f == e),
    {
        if rc == LOCK_DONE {
            Ok(Lock::new(self, key.as_datum()))
        } else {
            Err(Error::OsError(errno))
        }
    }

    /// Gives the descriptor up. The calls that take the store down, in
    /// the order in which they are to be made: flush, then release.
    pub fn close(self) -> (calls: [TeardownCall; 2])
        ensures
            calls@.map_values(|c: TeardownCall| c@) == teardown(self.descriptor()),
    {
        [TeardownCall::Sync { db: self.db }, TeardownCall::Close { db: self.db }]
    }
}

} // verus!
