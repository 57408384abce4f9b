//! Identities of cluster members.

use vstd::prelude::*;

verus! {

/// A 160-bit account address, held as its high 32 bits and its low 128 bits.
/// It identifies one key generator for the node's lifetime.
#[derive(Clone, Copy, Debug, PartialEq, Eq, Structural, Hash)]
pub struct Address {
    pub hi: u32,
    pub lo: u128,
}

/// The number that the four bytes of `s` from place `at` on spell, the first
/// byte being the highest.
pub open spec fn word(s: Seq<u8>, at: int) -> int {
    s[at] as int * 16777216 + s[at + 1] as int * 65536 + s[at + 2] as int * 256 + s[at + 3] as int
}

/// The number that the sixteen bytes of `s` from place `at` on spell, the
/// first byte being the highest.
pub open spec fn long_word(s: Seq<u8>, at: int) -> int {
    word(s, at) * 79228162514264337593543950336 + word(s, at + 4) * 18446744073709551616 + word(
        s,
        at + 8,
    ) * 4294967296 + word(s, at + 12)
}

fn read_word(bytes: &[u8], at: usize) -> (r: u32)
    requires
        at + 4 <= bytes@.len(),
    ensures
        r == word(bytes@, at as int),
{
    (bytes[at] as u32) * 16777216 + (bytes[at + 1] as u32) * 65536 + (bytes[at + 2] as u32) * 256
        + (bytes[at + 3] as u32)
}

impl Address {
    /// The address that twenty bytes spell, the first byte being the highest;
    /// none for any other number of bytes.
    pub fn from_bytes(bytes: &[u8]) -> (r: Option<Address>)
        ensures
            r is Some <==> bytes@.len() == 20,
            r is Some ==> r.unwrap().hi == word(bytes@, 0) && r.unwrap().lo == long_word(
                bytes@,
                4,
            ),
    {
        if bytes.len() != 20 {
            return None;
        }
        let hi: u32 = read_word(bytes, 0);
        let a: u128 = read_word(bytes, 4) as u128;
        let b: u128 = read_word(bytes, 8) as u128;
        let c: u128 = read_word(bytes, 12) as u128;
        let d: u128 = read_word(bytes, 16) as u128;
        let lo: u128 = a * 79228162514264337593543950336 + b * 18446744073709551616 + c
            * 4294967296 + d;
        Some(Address { hi, lo })
    }

    /// The order of addresses as 160-bit numbers.
    pub open spec fn before(self, other: Address) -> bool {
        self.hi < other.hi || (self.hi == other.hi && self.lo < other.lo)
    }

    pub fn new(hi: u32, lo: u128) -> (r: Address)
        ensures
            r.hi == hi,
            r.lo == lo,
    {
        Address { hi, lo }
    }

    /// Whether this address is the smaller of the two.
    pub fn is_before(&self, other: &Address) -> (r: bool)
        ensures
            r == self.before(*other),
    {
        self.hi < other.hi || (self.hi == other.hi && self.lo < other.lo)
    }
}

} // verus!
