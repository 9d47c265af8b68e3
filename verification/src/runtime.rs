//! Names for the two runtime backends a flow can be scheduled on: a full
//! multi-threaded async runtime and a cooperative embedded executor.
//!
//! The backends' actual capabilities — timers, task spawning, waker
//! construction, yielding — produce executor futures, so their trait surface
//! and implementations live in the application shell around this library;
//! the control plane here never depends on either backend.

use vstd::prelude::*;

verus! {

/// The backend handle naming a full multi-threaded async runtime.
#[derive(Clone, Copy, Debug)]
pub struct TokioRuntime {}

impl TokioRuntime {
    pub fn new() -> (r: Self)
        ensures
            r == (TokioRuntime {}),
    {
        TokioRuntime {}
    }
}

impl Default for TokioRuntime {
    fn default() -> (r: Self)
        ensures
            r == (TokioRuntime {}),
    {
        TokioRuntime::new()
    }
}

/// The backend handle naming a cooperative embedded executor.
#[derive(Clone, Copy, Debug)]
pub struct EmbassyRuntime {}

impl EmbassyRuntime {
    pub fn new() -> (r: Self)
        ensures
            r == (EmbassyRuntime {}),
    {
        EmbassyRuntime {}
    }
}

impl Default for EmbassyRuntime {
    fn default() -> (r: Self)
        ensures
            r == (EmbassyRuntime {}),
    {
        EmbassyRuntime::new()
    }
}

} // verus!
