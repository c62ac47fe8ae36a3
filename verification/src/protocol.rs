//! What each operation asks of the engine, and how its answer is read.
//!
//! These are the rules of the layer, stated once as mathematics; the
//! handle and the guard are held to them.

use crate::engine::{c_int_of, c_size_of, Call, FetchReply};
use crate::error::Error;
use crate::options::{HashFunction, Options};
use crate::path::nul_terminated;
use libc::c_int;
use vstd::prelude::*;

verus! {

/// The answer of `store` that means failure.
pub const STORE_FAILED: c_int = -1;

/// The answer of `lock_smart` and `unlock_smart` that means success.
pub const LOCK_DONE: c_int = 1;

/// The flags of the unlock that a guard issues.
pub const UNLOCK_FLAGS: c_int = 0;

/// Opening `path` with `options`: the path null-terminated, the flags of
/// `options`, and the three sizes cast to the engine's `int`.
pub open spec fn open_request(
    path: Seq<u8>,
    options: Options,
    mode: usize,
    psize: usize,
    presize: usize,
) -> Call {
    Call::Open {
        file: nul_terminated(path),
        flags: c_int_of(options.spec_flags() as int),
        mode: c_int_of(mode as int),
        psize: c_int_of(psize as int),
        presize: c_int_of(presize as int),
    }
}

/// Selecting `hash` on the store `db`.
pub open spec fn hash_request(db: usize, hash: HashFunction) -> Call {
    Call::SetHash { db: db, hashid: c_int_of(hash.spec_hash_constant() as int) }
}

/// Storing `value` under `key` in the store `db`.
pub open spec fn store_request(db: usize, key: Seq<u8>, value: Seq<u8>, flags: isize) -> Call {
    Call::Store { db: db, key: key, val: value, flags: c_int_of(flags as int) }
}

/// Locking `key` in the store `db`.
pub open spec fn lock_request(db: usize, key: Seq<u8>, flags: isize) -> Call {
    Call::LockSmart { db: db, key: key, flags: c_int_of(flags as int) }
}

/// Fetching the value of `key` from the store `db`.
pub open spec fn fetch_request(db: usize, key: Seq<u8>) -> Call {
    Call::Fetch { db: db, key: key }
}

/// Unlocking `key` in the store `db`.
pub open spec fn unlock_request(db: usize, key: Seq<u8>) -> Call {
    Call::UnlockSmart { db: db, key: key, flags: UNLOCK_FLAGS }
}

/// Taking the store `db` down: flush first, then release.
pub open spec fn teardown(db: usize) -> Seq<Call> {
    seq![Call::Sync { db: db }, Call::Close { db: db }]
}

/// How the answer of `open` is read: a null descriptor is failure.
pub open spec fn open_outcome(db: usize, errno: i32) -> Result<usize, Error> {
    if db == 0 {
        Err(Error::OsError(errno))
    } else {
        Ok(db)
    }
}

/// How the answer of `store` is read: only `-1` is failure.
pub open spec fn store_outcome(rc: c_int, errno: i32) -> Result<(), Error> {
    if rc == STORE_FAILED {
        Err(Error::OsError(errno))
    } else {
        Ok(())
    }
}

/// How the answer of `lock_smart` is read: only `1` is success.
pub open spec fn lock_outcome(rc: c_int, errno: i32) -> Result<(), Error> {
    if rc == LOCK_DONE {
        Ok(())
    } else {
        Err(Error::OsError(errno))
    }
}

/// How the answer of `fetch` is read: a null address says that the key
/// is absent; any other is where the value stands, with its size cast to
/// a length.
pub open spec fn fetch_outcome(reply: FetchReply) -> Option<(usize, usize)> {
    if reply.dptr == 0 {
        None
    } else {
        Some((reply.dptr, c_size_of(reply.dsize as int)))
    }
}

/// The key goes to the engine unchanged, whatever the operation: storing
/// under a key, locking it, fetching through its guard and unlocking it
/// all hand over the same bytes, on the same store; and the value stored
/// is handed over as it is.
pub proof fn key_bytes_agree(
    db: usize,
    key: Seq<u8>,
    value: Seq<u8>,
    store_flags: isize,
    lock_flags: isize,
)
    ensures
        store_request(db, key, value, store_flags) matches Call::Store { db: d, key: k, val, .. }
            && d == db && k == key && val == value,
        lock_request(db, key, lock_flags) matches Call::LockSmart { db: d, key: k, .. } && d == db
            && k == key,
        fetch_request(db, key) == (Call::Fetch { db: db, key: key }),
        unlock_request(db, key) == (Call::UnlockSmart { db: db, key: key, flags: 0 }),
{
}

/// Taking a store down releases its descriptor once, as the last call,
/// and flushes it just before.
pub proof fn teardown_flushes_then_closes_once(db: usize)
    ensures
        teardown(db).len() == 2,
        teardown(db)[0] == (Call::Sync { db: db }),
        teardown(db).last() == (Call::Close { db: db }),
        forall|i: int|
            0 <= i < teardown(db).len() && teardown(db)[i] is Close ==> i == teardown(db).len()
                - 1,
{
}

/// Success and failure of `store` and of `lock_smart` are read off the
/// answer alone: neither the access mode of the store nor the presence
/// of the key has a say.
pub proof fn outcomes_read_off_the_answer(rc: c_int, errno: i32)
    ensures
        store_outcome(rc, errno) is Err <==> rc == -1,
        lock_outcome(rc, errno) is Ok <==> rc == 1,
        store_outcome(rc, errno) is Err ==> store_outcome(rc, errno) == Err::<(), Error>(
            Error::OsError(errno),
        ),
        lock_outcome(rc, errno) is Err ==> lock_outcome(rc, errno) == Err::<(), Error>(
            Error::OsError(errno),
        ),
{
}

/// The state of one key in the engine's lock table, as a guard mirrors
/// it: a guard exists exactly while its key is `Locked`.
pub enum KeyState {
    Unlocked,
    Locked,
    /// An unlock failed: the lock table is in doubt and nothing may go on.
    Fatal,
}

/// What the engine answered on a key.
pub enum KeyEvent {
    /// The answer of `lock_smart`.
    Lock { rc: c_int },
    /// The answer of `unlock_smart`.
    Unlock { rc: c_int },
}

/// The state of a key after an answer: a lock that is granted locks an
/// unlocked key and one that is refused leaves it unlocked; an unlock
/// that is confirmed unlocks a locked key and one that is not is fatal.
/// There is no other step.
pub open spec fn key_step(state: KeyState, event: KeyEvent) -> Option<KeyState> {
    match (state, event) {
        (KeyState::Unlocked, KeyEvent::Lock { rc }) => Some(
            if rc == LOCK_DONE {
                KeyState::Locked
            } else {
                KeyState::Unlocked
            },
        ),
        (KeyState::Locked, KeyEvent::Unlock { rc }) => Some(
            if rc == LOCK_DONE {
                KeyState::Unlocked
            } else {
                KeyState::Fatal
            },
        ),
        _ => None,
    }
}

/// The state of a key after a run of answers, `None` where one of them
/// has no step.
pub open spec fn key_run(state: KeyState, events: Seq<KeyEvent>) -> Option<KeyState>
    decreases events.len(),
{
    if events.len() == 0 {
        Some(state)
    } else {
        match key_run(state, events.drop_last()) {
            None => None,
            Some(before) => key_step(before, events.last()),
        }
    }
}

/// `n` rounds of a granted lock followed by a confirmed unlock.
pub open spec fn clean_cycles(n: nat) -> Seq<KeyEvent>
    decreases n,
{
    if n == 0 {
        Seq::empty()
    } else {
        clean_cycles((n - 1) as nat).push(KeyEvent::Lock { rc: LOCK_DONE }).push(
            KeyEvent::Unlock { rc: LOCK_DONE },
        )
    }
}

/// A guard is given exactly when the key becomes locked, and may be given
/// up exactly when the key becomes unlocked again.
pub proof fn guard_mirrors_key_state(rc: c_int, errno: i32)
    ensures
        lock_outcome(rc, errno) is Ok <==> key_step(KeyState::Unlocked, KeyEvent::Lock { rc })
            == Some(KeyState::Locked),
        lock_outcome(rc, errno) is Err <==> key_step(KeyState::Unlocked, KeyEvent::Lock { rc })
            == Some(KeyState::Unlocked),
        rc == LOCK_DONE <==> key_step(KeyState::Locked, KeyEvent::Unlock { rc }) == Some(
            KeyState::Unlocked,
        ),
        rc != LOCK_DONE <==> key_step(KeyState::Locked, KeyEvent::Unlock { rc }) == Some(
            KeyState::Fatal,
        ),
{
}

/// A key can be locked again after a clean unlock: any number of clean
/// rounds leaves it unlocked, so that the next lock finds it as the
/// first one did.
pub proof fn key_is_unlocked_after_clean_cycles(n: nat)
    ensures
        key_run(KeyState::Unlocked, clean_cycles(n)) == Some(KeyState::Unlocked),
    decreases n,
{
    if n > 0 {
        key_is_unlocked_after_clean_cycles((n - 1) as nat);
        let earlier = clean_cycles((n - 1) as nat);
        let locked = earlier.push(KeyEvent::Lock { rc: LOCK_DONE });
        let all = locked.push(KeyEvent::Unlock { rc: LOCK_DONE });
        assert(all.drop_last() == locked);
        assert(locked.drop_last() == earlier);
        assert(key_run(KeyState::Unlocked, locked) == Some(KeyState::Locked));
    }
}

/// Nothing follows a failed unlock: a fatal key has no further step.
pub proof fn fatal_is_final(event: KeyEvent)
    ensures
        key_step(KeyState::Fatal, event) is None,
{
}

} // verus!
