//! Borrowed byte ranges, the form in which keys and values cross over to
//! the engine.

use vstd::prelude::*;
use vstd::string::StringSliceAdditionalSpecFns;

verus! {

/// A borrowed range of bytes, no longer lived than what it was taken from.
#[derive(Copy, Clone, Debug)]
pub struct Datum<'a> {
    bytes: &'a [u8],
}

impl<'a> View for Datum<'a> {
    type V = Seq<u8>;

    closed spec fn view(&self) -> Seq<u8> {
        self.bytes@
    }
}

impl<'a> Datum<'a> {
    /// A view of exactly `bytes`.
    pub fn new(bytes: &'a [u8]) -> (d: Datum<'a>)
        ensures
            d@ == bytes@,
    {
        Datum { bytes: bytes }
    }

    /// The bytes viewed, for as long as their source lives.
    pub fn bytes(&self) -> (b: &'a [u8])
        ensures
            b@ == self@,
    {
        self.bytes
    }
}

/// A value that can be viewed as bytes without copying.
pub trait AsDatum<'a> {
    /// The bytes that the view shows.
    spec fn datum_bytes(&self) -> Seq<u8>;

    /// A view of this value's bytes.
    fn as_datum(&'a self) -> (d: Datum<'a>)
        ensures
            d@ == self.datum_bytes(),
    ;
}

impl<'a, T: AsDatum<'a> + ?Sized> AsDatum<'a> for &'a T {
    open spec fn datum_bytes(&self) -> Seq<u8> {
        (**self).datum_bytes()
    }

    fn as_datum(&'a self) -> (d: Datum<'a>) {
        (**self).as_datum()
    }
}

impl<'a> AsDatum<'a> for [u8] {
    open spec fn datum_bytes(&self) -> Seq<u8> {
        self@
    }

    fn as_datum(&'a self) -> (d: Datum<'a>) {
        Datum::new(self)
    }
}

impl<'a> AsDatum<'a> for str {
    open spec fn datum_bytes(&self) -> Seq<u8> {
        self.spec_bytes()
    }

    fn as_datum(&'a self) -> (d: Datum<'a>) {
        self.as_bytes().as_datum()
    }
}

} // verus!
