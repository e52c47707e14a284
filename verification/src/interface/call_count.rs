//! Expectations on how often a fake function is called.
use std::sync::atomic::AtomicUsize;
use std::sync::atomic::Ordering;
use vstd::prelude::*;

verus! {

/// A verifier type that holds a reference to an atomic counter and the
/// expected call count.
pub enum CallCountVerifier {
    /// A real verifier that checks if the fake function was called the
    /// expected number of times.
    WithCount { counter: &'static AtomicUsize, expected: usize },
    /// A dummy verifier that performs no check.
    Dummy,
}

/// A fake function that was not called as often as expected.
#[derive(Debug, Clone, Copy, PartialEq, Eq, Structural)]
pub struct CallCountMismatch {
    pub expected: usize,
    pub actual: usize,
}

impl CallCountVerifier {
    /// What the verifier makes of a fake function that was called
    /// `call_times` times: a mismatch where it expects another number, and
    /// nothing where it expects this one or checks nothing.
    pub open spec fn verdict(self, call_times: usize) -> Result<(), CallCountMismatch> {
        match self {
            CallCountVerifier::WithCount { counter, expected } => if call_times == expected {
                Ok(())
            } else {
                Err(CallCountMismatch { expected, actual: call_times })
            },
            CallCountVerifier::Dummy => Ok(()),
        }
    }

    /// Judges a count that was read from the counter.
    pub fn check(&self, call_times: usize) -> (verdict: Result<(), CallCountMismatch>)
        ensures
            verdict == self.verdict(call_times),
    {
        match self {
            CallCountVerifier::WithCount { counter, expected } => {
                if call_times != *expected {
                    Err(CallCountMismatch { expected: *expected, actual: call_times })
                } else {
                    Ok(())
                }
            },
            CallCountVerifier::Dummy => Ok(()),
        }
    }

    /// Reads the counter and judges what it holds. Other threads may call the
    /// fake function at any time, so all that is known of the count is that the
    /// verdict is the one on some count.
    pub fn verify(&self) -> (verdict: Result<(), CallCountMismatch>)
        ensures
            exists|call_times: usize| verdict == self.verdict(call_times),
            self is Dummy ==> verdict is Ok,
    {
        match self {
            CallCountVerifier::WithCount { counter, expected } => {
                let call_times = counter.load(Ordering::SeqCst);
                let verdict = self.check(call_times);
                assert(verdict == self.verdict(call_times));
                verdict
            },
            CallCountVerifier::Dummy => {
                assert(Ok::<(), CallCountMismatch>(()) == self.verdict(0));
                Ok(())
            },
        }
    }
}

} // verus!
