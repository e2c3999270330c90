use vstd::prelude::*;

use crate::bytes::{le64, read_u64};
use crate::error::{need, truncated, Context, ParseError};

verus! {

/// A virtual address or an offset in the guest's address space.
#[derive(Clone, Copy, Debug, PartialEq, Eq, Structural)]
pub struct Addr(pub u64);

impl From<u64> for Addr {
    fn from(x: u64) -> (r: Addr)
        ensures
            r.0 == x,
    {
        Addr(x)
    }
}

impl vstd::std_specs::convert::FromSpecImpl<u64> for Addr {
    open spec fn obeys_from_spec() -> bool {
        true
    }

    open spec fn from_spec(x: u64) -> Addr {
        Addr(x)
    }
}

impl From<Addr> for u64 {
    fn from(a: Addr) -> (r: u64)
        ensures
            r == a.0,
    {
        a.0
    }
}

impl vstd::std_specs::convert::FromSpecImpl<Addr> for u64 {
    open spec fn obeys_from_spec() -> bool {
        true
    }

    open spec fn from_spec(a: Addr) -> u64 {
        a.0
    }
}

impl Addr {
    /// Decodes a little-endian 64-bit address at the start of `i`; on success
    /// returns the 8 bytes it took with it.
    pub fn parse(i: &[u8]) -> (r: Result<(usize, Addr), ParseError>)
        ensures
            r is Ok <==> i@.len() >= 8,
            r matches Ok((n, a)) ==> n == 8 && a.0 == le64(i@, 0),
            r matches Err(e) ==> e == truncated(Context::Address, 0),
    {
        need(i, 0, 8, Context::Address)?;
        Ok((8, Addr(read_u64(i, 0))))
    }

    /// The raw 64-bit value.
    pub fn to_u64(self) -> (r: u64)
        ensures
            r == self.0,
    {
        self.0
    }

    /// The sum of two addresses, or `None` when it does not fit in 64 bits.
    pub fn checked_add(self, o: Addr) -> (r: Option<Addr>)
        ensures
            r is Some <==> self.0 + o.0 <= u64::MAX,
            r matches Some(a) ==> a.0 == self.0 + o.0,
    {
        match self.0.checked_add(o.0) {
            Some(x) => Some(Addr(x)),
            None => None,
        }
    }

    /// The difference of two addresses, or `None` when `o` is above `self`.
    pub fn checked_sub(self, o: Addr) -> (r: Option<Addr>)
        ensures
            r is Some <==> o.0 <= self.0,
            r matches Some(a) ==> a.0 == self.0 - o.0,
    {
        if o.0 <= self.0 {
            Some(Addr(self.0 - o.0))
        } else {
            None
        }
    }

    /// The sum modulo 2^64, which is how a signed addend is applied.
    pub fn wrapping_add(self, o: Addr) -> (r: Addr)
        ensures
            r.0 == (self.0 + o.0) % 0x1_0000_0000_0000_0000,
    {
        Addr(self.0.wrapping_add(o.0))
    }
}

/// Converting an address to its raw value and back gives the address again, and
/// the raw value of the address made from `x` is `x`.
pub proof fn lemma_addr_round_trip(x: u64, a: Addr)
    ensures
        <Addr as vstd::std_specs::convert::FromSpec<u64>>::from_spec(x).0 == x,
        <u64 as vstd::std_specs::convert::FromSpec<Addr>>::from_spec(Addr(x)) == x,
        Addr(<u64 as vstd::std_specs::convert::FromSpec<Addr>>::from_spec(a)) == a,
{
}

} // verus!
