//! Cooperative cancellation: a signal that the evaluator polls.

use vstd::prelude::*;
use crate::err::IntErr;

verus! {

/// A cancellation signal supplied by the caller. It is read, never changed,
/// by the evaluator, and is fixed for the length of one evaluation.
pub trait Interrupt {
    /// Whether cancellation has been requested.
    spec fn requested(&self) -> bool;

    /// Polls the signal; never blocks.
    fn should_interrupt(&self) -> (b: bool)
        ensures
            b == self.requested(),
    ;
}

/// A signal that never requests cancellation.
#[derive(Clone, Copy, Debug, Default)]
pub struct NeverInterrupt;

impl Interrupt for NeverInterrupt {
    open spec fn requested(&self) -> bool {
        false
    }

    fn should_interrupt(&self) -> (b: bool) {
        false
    }
}

/// A signal whose answer was decided when it was made.
#[derive(Clone, Copy, Debug)]
pub struct Signal {
    pub raised: bool,
}

impl Interrupt for Signal {
    open spec fn requested(&self) -> bool {
        self.raised
    }

    fn should_interrupt(&self) -> (b: bool) {
        self.raised
    }
}

/// Polls `cancel` and fails with an interrupt exactly when cancellation has been
/// requested.
pub fn test_int<I: Interrupt, E>(cancel: &I) -> (r: Result<(), IntErr<E>>)
    ensures
        r == if cancel.requested() {
            Err::<(), IntErr<E>>(IntErr::Interrupt)
        } else {
            Ok::<(), IntErr<E>>(())
        },
{
    if cancel.should_interrupt() {
        Err(IntErr::Interrupt)
    } else {
        Ok(())
    }
}

} // verus!
