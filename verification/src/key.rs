//! Key material that travels between the members of the cluster. The numbers
//! are held as text, digit for digit as they are sent, and nothing in this
//! crate looks inside them.

use vstd::prelude::*;

verus! {

/// Identifies one generation and aggregation cycle.
pub type KeyId = u64;

/// One member's share of a round's key.
#[derive(Debug, PartialEq, Eq)]
pub struct PartialKey {
    pub u: String,
    pub v: String,
    pub y: String,
    pub w: String,
}

impl Clone for PartialKey {
    fn clone(&self) -> (r: Self)
        ensures
            r == *self,
    {
        PartialKey { u: self.u.clone(), v: self.v.clone(), y: self.y.clone(), w: self.w.clone() }
    }
}

/// Evidence that a partial key was built correctly.
#[derive(Debug, PartialEq, Eq)]
pub struct PartialKeyProof {
    pub a: String,
    pub b: String,
    pub tau: String,
    pub r1: String,
    pub r2: String,
    pub z1: String,
    pub z2: String,
}

impl Clone for PartialKeyProof {
    fn clone(&self) -> (r: Self)
        ensures
            r == *self,
    {
        PartialKeyProof {
            a: self.a.clone(),
            b: self.b.clone(),
            tau: self.tau.clone(),
            r1: self.r1.clone(),
            r2: self.r2.clone(),
            z1: self.z1.clone(),
            z2: self.z2.clone(),
        }
    }
}

/// The combination of the partial keys that a round had collected when it was
/// aggregated.
#[derive(Debug, PartialEq, Eq)]
pub struct AggregatedKey {
    pub u: String,
    pub v: String,
    pub y: String,
    pub w: String,
}

impl Clone for AggregatedKey {
    fn clone(&self) -> (r: Self)
        ensures
            r == *self,
    {
        AggregatedKey { u: self.u.clone(), v: self.v.clone(), y: self.y.clone(), w: self.w.clone() }
    }
}

/// The key that solving a round's time-lock puzzle yields.
#[derive(Debug, PartialEq, Eq)]
pub struct DecryptionKey {
    pub sk: String,
}

impl Clone for DecryptionKey {
    fn clone(&self) -> (r: Self)
        ensures
            r == *self,
    {
        DecryptionKey { sk: self.sk.clone() }
    }
}

} // verus!
