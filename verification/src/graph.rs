//! The typed execution graph.
//!
//! A build is assembled from discrete units of work. Each unit declares
//! the shape of the input it requires from upstream units and the shape of
//! the output it produces; wiring is the caller's act of passing one
//! unit's output as the next unit's dependency. Composition checks the
//! shapes at assembly time, so a mismatched pipeline is rejected before
//! any unit runs, never in the middle of a build.

use vstd::prelude::*;

verus! {

/// The shape of a value flowing between execution units.
#[derive(Clone, Copy, Debug, PartialEq, Eq, Structural)]
pub enum Shape {
    /// No value: the unit needs nothing, or yields nothing.
    Empty,
    /// A single filesystem path.
    PathValue,
    /// A list of filesystem paths.
    PathList,
    /// Free-form text.
    Text,
}

/// The declared interface of one execution unit: what it consumes from
/// upstream and what it produces.
#[derive(Clone, Copy, Debug, PartialEq, Eq, Structural)]
pub struct UnitSignature {
    pub deps: Shape,
    pub output: Shape,
}

/// An assembly-time rejection: the upstream unit produces `found` where
/// the downstream unit requires `expected`.
#[derive(Clone, Copy, Debug, PartialEq, Eq, Structural)]
pub struct ShapeMismatch {
    pub expected: Shape,
    pub found: Shape,
}

/// Wires `first` into `second`: accepted exactly when the output shape of
/// `first` is the dependency shape of `second`, and rejected with the two
/// offending shapes otherwise.
pub fn compose(first: UnitSignature, second: UnitSignature) -> (r: Result<
    UnitSignature,
    ShapeMismatch,
>)
    ensures
        first.output == second.deps ==> r == Ok::<UnitSignature, ShapeMismatch>(
            UnitSignature { deps: first.deps, output: second.output },
        ),
        first.output != second.deps ==> r == Err::<UnitSignature, ShapeMismatch>(
            ShapeMismatch { expected: second.deps, found: first.output },
        ),
{
    if first.output == second.deps {
        Ok(UnitSignature { deps: first.deps, output: second.output })
    } else {
        Err(ShapeMismatch { expected: second.deps, found: first.output })
    }
}

/// Every adjacent pair of units in the chain agrees on its shape.
pub open spec fn chain_wired(units: Seq<UnitSignature>) -> bool {
    forall|i: int| 0 <= i < units.len() - 1 ==> (#[trigger] units[i]).output == units[i + 1].deps
}

/// Wires a whole chain of units in composition order: accepted exactly
/// when every adjacent pair agrees, yielding the chain's end-to-end
/// signature; rejected at the first disagreeing pair otherwise.
pub fn compose_chain(units: &Vec<UnitSignature>) -> (r: Result<UnitSignature, ShapeMismatch>)
    requires
        units@.len() >= 1,
    ensures
        chain_wired(units@) ==> r == Ok::<UnitSignature, ShapeMismatch>(
            UnitSignature { deps: units@[0].deps, output: units@.last().output },
        ),
        !chain_wired(units@) ==> r is Err,
{
    let n = units.len();
    let mut acc = units[0];
    let mut i: usize = 1;
    while i < n
        invariant
            1 <= i <= n,
            n == units@.len(),
            acc.deps == units@[0].deps,
            acc.output == units@[i - 1].output,
            forall|k: int| 0 <= k < i - 1 ==> (#[trigger] units@[k]).output == units@[k + 1].deps,
        decreases n - i,
    {
        match compose(acc, units[i]) {
            Ok(next) => {
                acc = next;
            },
            Err(m) => {
                assert(!chain_wired(units@)) by {
                    assert((units@[i - 1]).output != units@[i as int].deps);
                }
                return Err(m);
            },
        }
        i += 1;
    }
    Ok(acc)
}

} // verus!
