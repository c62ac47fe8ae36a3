//! Open-time configuration and its encoding for the engine.
//!
//! The engine takes the access mode and the creation request as one integer
//! of flag bits, and the hash function as a small integer handed to a
//! separate call once the store is open.

use vstd::prelude::*;

verus! {

/// Open the store for reading only.
pub const MDBM_O_RDONLY: u32 = 0x0000_0000;

/// Open the store for writing only.
pub const MDBM_O_WRONLY: u32 = 0x0000_0001;

/// Open the store for reading and writing.
pub const MDBM_O_RDWR: u32 = 0x0000_0002;

/// Create the store if it does not exist yet.
pub const MDBM_O_CREAT: u32 = 0x0000_0040;

/// Table based 32-bit CRC.
pub const MDBM_HASH_CRC32: u32 = 0;

/// The hash of `hsearch`.
pub const MDBM_HASH_EJB: u32 = 1;

/// Congruential hash.
pub const MDBM_HASH_PHONG: u32 = 2;

/// The hash of sdbm.
pub const MDBM_HASH_OZ: u32 = 3;

/// The hash of Berkeley DB.
pub const MDBM_HASH_TOREK: u32 = 4;

/// Fowler/Noll/Vo hash, the engine's default.
pub const MDBM_HASH_FNV: u32 = 5;

/// The string hash of the STL.
pub const MDBM_HASH_STL: u32 = 6;

/// MD5.
pub const MDBM_HASH_MD5: u32 = 7;

/// SHA-1.
pub const MDBM_HASH_SHA_1: u32 = 8;

/// Jenkins string hash.
pub const MDBM_HASH_JENKINS: u32 = 9;

/// Hsieh SuperFast hash.
pub const MDBM_HASH_HSIEH: u32 = 10;

/// The largest hash selector the engine knows.
pub const MDBM_HASH_MAX: u32 = 10;

/// Access mode requested when a store is opened.
#[derive(Copy, Clone, Debug, PartialEq, Eq, Structural)]
pub enum ReadState {
    ReadOnly,
    WriteOnly,
    ReadWrite,
}

impl ReadState {
    /// The mode flag of each access mode.
    pub open spec fn spec_flag(self) -> u32 {
        match self {
            ReadState::ReadOnly => MDBM_O_RDONLY,
            ReadState::WriteOnly => MDBM_O_WRONLY,
            ReadState::ReadWrite => MDBM_O_RDWR,
        }
    }

    /// The engine's flag for this access mode.
    pub fn flag(&self) -> (f: u32)
        ensures
            f == self.spec_flag(),
            f <= 2,
    {
        match self {
            ReadState::ReadOnly => MDBM_O_RDONLY,
            ReadState::WriteOnly => MDBM_O_WRONLY,
            ReadState::ReadWrite => MDBM_O_RDWR,
        }
    }
}

/// Hash function the engine uses to spread keys over pages.
#[derive(Copy, Clone, Debug, PartialEq, Eq, Structural)]
pub enum HashFunction {
    CRC32,
    EJB,
    /// FNV32, the default.
    FNV,
    /// Hsieh SuperFast.
    HSIEH,
    JENKINS,
    MAX,
    MD5,
    OZ,
    PHONG,
    SHA1,
    STL,
    TOREK,
}

impl HashFunction {
    /// The selector of each hash function.
    pub open spec fn spec_hash_constant(self) -> u32 {
        match self {
            HashFunction::CRC32 => MDBM_HASH_CRC32,
            HashFunction::EJB => MDBM_HASH_EJB,
            HashFunction::FNV => MDBM_HASH_FNV,
            HashFunction::HSIEH => MDBM_HASH_HSIEH,
            HashFunction::JENKINS => MDBM_HASH_JENKINS,
            HashFunction::MAX => MDBM_HASH_MAX,
            HashFunction::MD5 => MDBM_HASH_MD5,
            HashFunction::OZ => MDBM_HASH_OZ,
            HashFunction::PHONG => MDBM_HASH_PHONG,
            HashFunction::SHA1 => MDBM_HASH_SHA_1,
            HashFunction::STL => MDBM_HASH_STL,
            HashFunction::TOREK => MDBM_HASH_TOREK,
        }
    }

    /// The engine's selector for this hash function.
    pub fn hash_constant(&self) -> (h: u32)
        ensures
            h == self.spec_hash_constant(),
            h <= MDBM_HASH_MAX,
    {
        match self {
            HashFunction::CRC32 => MDBM_HASH_CRC32,
            HashFunction::EJB => MDBM_HASH_EJB,
            HashFunction::FNV => MDBM_HASH_FNV,
            HashFunction::HSIEH => MDBM_HASH_HSIEH,
            HashFunction::JENKINS => MDBM_HASH_JENKINS,
            HashFunction::MAX => MDBM_HASH_MAX,
            HashFunction::MD5 => MDBM_HASH_MD5,
            HashFunction::OZ => MDBM_HASH_OZ,
            HashFunction::PHONG => MDBM_HASH_PHONG,
            HashFunction::SHA1 => MDBM_HASH_SHA_1,
            HashFunction::STL => MDBM_HASH_STL,
            HashFunction::TOREK => MDBM_HASH_TOREK,
        }
    }
}

/// How a store is to be opened.
#[derive(Copy, Clone, Debug, PartialEq, Eq, Structural)]
pub struct Options {
    /// The access mode.
    pub reads: ReadState,
    /// Whether a missing store is created.
    pub create: bool,
    /// The hash function to select once the store is open; `None` leaves
    /// the engine's choice untouched.
    pub hash: Option<HashFunction>,
}

impl Options {
    /// The open flags: the mode flag, with the creation flag set in it
    /// exactly when `create` is set. The hash function is no part of them.
    pub open spec fn spec_flags(self) -> u32 {
        if self.create {
            self.reads.spec_flag() | MDBM_O_CREAT
        } else {
            self.reads.spec_flag()
        }
    }

    /// The flags to hand to the engine's open call.
    pub fn flags(self) -> (f: u32)
        ensures
            f == self.spec_flags(),
    {
        let f: u32 = self.reads.flag();
        if !self.create {
            return f;
        }
        f | MDBM_O_CREAT
    }

    /// The open flags as a number: the creation flag shares no bit with a
    /// mode flag, so setting it adds its value.
    pub proof fn flags_value(self)
        ensures
            self.spec_flags() == self.reads.spec_flag() + (if self.create {
                0x40int
            } else {
                0int
            }),
            self.spec_flags() <= 0x42,
    {
        let f = self.reads.spec_flag();
        assert(f <= 2 ==> f | 0x40u32 == f + 0x40u32) by (bit_vector);
    }
}

impl From<Options> for u32 {
    /// The open flags of `options`.
    fn from(options: Options) -> (f: u32) {
        options.flags()
    }
}

impl vstd::std_specs::convert::FromSpecImpl<Options> for u32 {
    open spec fn obeys_from_spec() -> bool {
        true
    }

    open spec fn from_spec(options: Options) -> u32 {
        options.spec_flags()
    }
}

impl Default for Options {
    /// Read and write, create if missing, the engine's own hash function.
    fn default() -> (o: Options)
        ensures
            o == (Options { reads: ReadState::ReadWrite, create: true, hash: None }),
    {
        Options { reads: ReadState::ReadWrite, create: true, hash: None }
    }
}

} // verus!
