//! The engine's call surface, as plain values.
//!
//! This layer never calls the engine itself. Each operation is split in
//! two: one function builds the record of a call, with every argument in
//! the form the engine takes, and one function reads what the engine
//! answered. Whoever owns the engine performs the call in between.

use crate::datum::Datum;
use libc::c_int;
use vstd::prelude::*;

verus! {

/// What a C cast to `int` makes of `n`: `n` itself where it fits in 32
/// signed bits, else its low 32 bits.
pub open spec fn c_int_of(n: int) -> c_int {
    n as c_int
}

/// What a C cast to `size_t` makes of `n`: `n` itself where it is not
/// negative, else `n` wrapped around.
pub open spec fn c_size_of(n: int) -> usize {
    n as usize
}

/// A number that fits in 32 signed bits is left as it is.
pub proof fn c_int_of_fitting(n: int)
    requires
        c_int::MIN <= n <= c_int::MAX,
    ensures
        c_int_of(n) == n,
{
}

/// A size that is not negative is left as it is.
pub proof fn c_size_of_fitting(n: int)
    requires
        0 <= n <= usize::MAX,
    ensures
        c_size_of(n) == n,
{
}

/// The engine's `int` for a `usize`.
pub fn usize_to_c_int(n: usize) -> (r: c_int)
    ensures
        r == c_int_of(n as int),
{
    #[verifier::truncate]
    (n as c_int)
}

/// The engine's `int` for an `isize`.
pub fn isize_to_c_int(n: isize) -> (r: c_int)
    ensures
        r == c_int_of(n as int),
{
    #[verifier::truncate]
    (n as c_int)
}

/// One call to the engine, as a mathematical value: which call it is and
/// what it is handed. Keys, values and the path stand as their bytes.
pub enum Call {
    Open { file: Seq<u8>, flags: c_int, mode: c_int, psize: c_int, presize: c_int },
    SetHash { db: usize, hashid: c_int },
    Store { db: usize, key: Seq<u8>, val: Seq<u8>, flags: c_int },
    LockSmart { db: usize, key: Seq<u8>, flags: c_int },
    Fetch { db: usize, key: Seq<u8> },
    UnlockSmart { db: usize, key: Seq<u8>, flags: c_int },
    Sync { db: usize },
    Close { db: usize },
}

/// A key or a value in the form the engine takes it: where the bytes
/// stand, and their count as the engine's `int`.
#[derive(Copy, Clone, Debug)]
pub struct RawDatum<'a> {
    bytes: &'a [u8],
    size: c_int,
}

impl<'a> View for RawDatum<'a> {
    type V = Seq<u8>;

    closed spec fn view(&self) -> Seq<u8> {
        self.bytes@
    }
}

impl<'a> RawDatum<'a> {
    #[verifier::type_invariant]
    spec fn size_is_cast_of_length(self) -> bool {
        self.size == c_int_of(self.bytes@.len() as int)
    }

    /// The bytes; the engine is handed the address of the first.
    pub fn dptr(&self) -> (bytes: &'a [u8])
        ensures
            bytes@ == self@,
    {
        self.bytes
    }

    /// The count handed to the engine: the number of bytes, cast.
    pub fn dsize(&self) -> (size: c_int)
        ensures
            size == c_int_of(self@.len() as int),
    {
        proof {
            use_type_invariant(self);
        }
        self.size
    }
}

/// The engine's form of `datum`: the same bytes, with their count.
pub fn to_raw_datum<'a>(datum: &Datum<'a>) -> (raw: RawDatum<'a>)
    ensures
        raw@ == datum@,
{
    let bytes: &'a [u8] = datum.bytes();
    RawDatum { bytes: bytes, size: usize_to_c_int(bytes.len()) }
}

/// Arguments of the engine's `open`.
#[derive(Debug)]
pub struct OpenCall {
    /// The path, null-terminated.
    pub file: Vec<u8>,
    /// Mode flag and creation flag.
    pub flags: c_int,
    /// Permission bits for a store that is created.
    pub mode: c_int,
    /// Page size; zero for the engine's default.
    pub psize: c_int,
    /// Initial size; zero for the engine's default.
    pub presize: c_int,
}

impl View for OpenCall {
    type V = Call;

    open spec fn view(&self) -> Call {
        Call::Open {
            file: self.file@,
            flags: self.flags,
            mode: self.mode,
            psize: self.psize,
            presize: self.presize,
        }
    }
}

/// Arguments of the engine's `set_hash`.
#[derive(Copy, Clone, Debug, PartialEq, Eq, Structural)]
pub struct SetHashCall {
    pub db: usize,
    pub hashid: c_int,
}

impl View for SetHashCall {
    type V = Call;

    open spec fn view(&self) -> Call {
        Call::SetHash { db: self.db, hashid: self.hashid }
    }
}

/// Arguments of the engine's `store`.
#[derive(Copy, Clone, Debug)]
pub struct StoreCall<'k, 'v> {
    pub db: usize,
    pub key: RawDatum<'k>,
    pub val: RawDatum<'v>,
    pub flags: c_int,
}

impl<'k, 'v> View for StoreCall<'k, 'v> {
    type V = Call;

    open spec fn view(&self) -> Call {
        Call::Store { db: self.db, key: self.key@, val: self.val@, flags: self.flags }
    }
}

/// Arguments of the engine's `lock_smart`.
#[derive(Copy, Clone, Debug)]
pub struct LockCall<'a> {
    pub db: usize,
    pub key: RawDatum<'a>,
    pub flags: c_int,
}

impl<'a> View for LockCall<'a> {
    type V = Call;

    open spec fn view(&self) -> Call {
        Call::LockSmart { db: self.db, key: self.key@, flags: self.flags }
    }
}

/// Arguments of the engine's `fetch`.
#[derive(Copy, Clone, Debug)]
pub struct FetchCall<'a> {
    pub db: usize,
    pub key: RawDatum<'a>,
}

impl<'a> View for FetchCall<'a> {
    type V = Call;

    open spec fn view(&self) -> Call {
        Call::Fetch { db: self.db, key: self.key@ }
    }
}

/// What the engine's `fetch` answers: the address of the value, null
/// where the key is absent, and the value's size.
#[derive(Copy, Clone, Debug, PartialEq, Eq, Structural)]
pub struct FetchReply {
    pub dptr: usize,
    pub dsize: c_int,
}

/// Arguments of the engine's `unlock_smart`.
#[derive(Copy, Clone, Debug)]
pub struct UnlockCall<'a> {
    pub db: usize,
    pub key: RawDatum<'a>,
    pub flags: c_int,
}

impl<'a> View for UnlockCall<'a> {
    type V = Call;

    open spec fn view(&self) -> Call {
        Call::UnlockSmart { db: self.db, key: self.key@, flags: self.flags }
    }
}

/// A call that takes a store down.
#[derive(Copy, Clone, Debug, PartialEq, Eq, Structural)]
pub enum TeardownCall {
    /// The engine's `sync`: flush pending writes.
    Sync { db: usize },
    /// The engine's `close`: release the descriptor.
    Close { db: usize },
}

impl View for TeardownCall {
    type V = Call;

    open spec fn view(&self) -> Call {
        match self {
            TeardownCall::Sync { db } => Call::Sync { db: *db },
            TeardownCall::Close { db } => Call::Close { db: *db },
        }
    }
}

} // verus!
