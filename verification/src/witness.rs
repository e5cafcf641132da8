//! Markers that name the witnesses of existential statements.
//!
//! An existential whose body mentions recursive relations is given one of
//! these as its trigger; a proof states the marker of the values it means to
//! use, and the solver tries exactly those.

use vstd::prelude::*;

verus! {

/// A marker for the witnesses of an existential: proofs name the witness
/// values by stating it of them.
pub open spec fn pick1<A>(a: A) -> bool {
    true
}

/// A marker for a pair of witnesses.
pub open spec fn pick2<A, B>(a: A, b: B) -> bool {
    true
}

/// A marker for three witnesses.
pub open spec fn pick3<A, B, C>(a: A, b: B, c: C) -> bool {
    true
}

/// A marker for four witnesses.
pub open spec fn pick4<A, B, C, D>(a: A, b: B, c: C, d: D) -> bool {
    true
}

} // verus!
